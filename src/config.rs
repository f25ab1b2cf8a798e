//! The persisted configuration and its defaults.
use vstd::prelude::*;
use crate::text::same_text;

verus! {

/// How the proxy service exposes its ports.
#[derive(Clone, Copy, Debug, PartialEq, Eq, Structural)]
pub enum Profile {
    /// One port serves both HTTP and SOCKS.
    Mixed,
    /// Distinct ports for HTTP and SOCKS.
    Split,
}

/// Default port that serves both protocols.
pub const DEFAULT_MIXED_PORT: u16 = 7890;

/// Default SOCKS port of the split profile.
pub const DEFAULT_SOCKS_PORT: u16 = 7891;

/// Default HTTP port of the split profile.
pub const DEFAULT_HTTP_PORT: u16 = 7892;

/// The `[proxy]` table of the configuration file.
#[derive(Clone, Debug)]
pub struct ProxySection {
    pub host_ip: Option<String>,
    pub profile: Profile,
    pub mixed_port: u16,
    pub socks_port: u16,
    pub http_port: u16,
}

impl ProxySection {
    /// The section as it stands when nothing was configured.
    pub open spec fn is_default(&self) -> bool {
        &&& self.host_ip is None
        &&& self.profile == Profile::Mixed
        &&& self.mixed_port == DEFAULT_MIXED_PORT
        &&& self.socks_port == DEFAULT_SOCKS_PORT
        &&& self.http_port == DEFAULT_HTTP_PORT
    }
}

impl Default for ProxySection {
    fn default() -> (r: Self)
        ensures
            r.is_default(),
    {
        ProxySection {
            host_ip: None,
            profile: Profile::Mixed,
            mixed_port: DEFAULT_MIXED_PORT,
            socks_port: DEFAULT_SOCKS_PORT,
            http_port: DEFAULT_HTTP_PORT,
        }
    }
}

/// The whole configuration file.
#[derive(Clone, Debug)]
pub struct Config {
    pub proxy: ProxySection,
}

impl Default for Config {
    fn default() -> (r: Self)
        ensures
            r.proxy.is_default(),
    {
        Config { proxy: ProxySection::default() }
    }
}

/// Name of the configuration file, in the user's home directory.
pub const CONFIG_FILE_NAME: &'static str = ".proxyctl.toml";

/// The file written on first run: the defaults, with comments.
pub const DEFAULT_TEMPLATE: &'static str = "
# proxyctl configuration (generated on first run)
[proxy]
# host_ip    = \"172.17.208.1\"   # empty = detect the gateway; uncomment to pin it
profile    = \"mixed\"            # mixed: one port for both; split: http=7892, socks=7891
mixed_port = 7890               # mixed HTTP/SOCKS port
socks_port = 7891               # SOCKS5 port
http_port  = 7892               # HTTP port
";

/// The `[proxy]` table as the file holds it: each key absent or holding a
/// value of the expected kind, not yet checked.
#[derive(Clone, Debug)]
pub struct RawSection {
    pub host_ip: Option<String>,
    pub profile: Option<String>,
    pub mixed_port: Option<i64>,
    pub socks_port: Option<i64>,
    pub http_port: Option<i64>,
}

/// The profile a lowercase token names.
pub open spec fn profile_named(token: Seq<char>) -> Option<Profile> {
    if token == "mixed"@ {
        Some(Profile::Mixed)
    } else if token == "split"@ {
        Some(Profile::Split)
    } else {
        None
    }
}

/// Reads a profile token: `mixed` or `split`, nothing else.
pub fn parse_profile(token: &str) -> (r: Option<Profile>)
    ensures
        r == profile_named(token@),
{
    if same_text(token, "mixed") {
        Some(Profile::Mixed)
    } else if same_text(token, "split") {
        Some(Profile::Split)
    } else {
        None
    }
}

/// Reads a port number: one in 0..=65535.
pub fn parse_port(value: i64) -> (r: Option<u16>)
    ensures
        0 <= value <= 65535 ==> r == Some(value as u16),
        !(0 <= value <= 65535) ==> r is None,
{
    if 0 <= value && value <= 65535 {
        Some(value as u16)
    } else {
        None
    }
}

/// A port key: its default when absent, the value when in range; `None`
/// for a value out of range.
pub open spec fn port_or(value: Option<i64>, default: u16) -> Option<u16> {
    match value {
        None => Some(default),
        Some(v) => if 0 <= v <= 65535 {
            Some(v as u16)
        } else {
            None
        },
    }
}

fn port_or_default(value: Option<i64>, default: u16) -> (r: Option<u16>)
    ensures
        r == port_or(value, default),
{
    match value {
        None => Some(default),
        Some(v) => parse_port(v),
    }
}

/// Whether a raw section can be read: its profile token, if any, names a
/// profile, and each port it gives is in range.
pub open spec fn raw_is_valid(raw: RawSection) -> bool {
    &&& (raw.profile matches Some(t) ==> profile_named(t@) is Some)
    &&& port_or(raw.mixed_port, DEFAULT_MIXED_PORT) is Some
    &&& port_or(raw.socks_port, DEFAULT_SOCKS_PORT) is Some
    &&& port_or(raw.http_port, DEFAULT_HTTP_PORT) is Some
}

/// The section read from a valid raw section: each absent key takes its
/// default.
pub open spec fn section_of(raw: RawSection, r: ProxySection) -> bool {
    &&& r.host_ip == raw.host_ip
    &&& r.profile == match raw.profile {
        None => Profile::Mixed,
        Some(t) => profile_named(t@).unwrap(),
    }
    &&& Some(r.mixed_port) == port_or(raw.mixed_port, DEFAULT_MIXED_PORT)
    &&& Some(r.socks_port) == port_or(raw.socks_port, DEFAULT_SOCKS_PORT)
    &&& Some(r.http_port) == port_or(raw.http_port, DEFAULT_HTTP_PORT)
}

/// Checks a raw section and fills in defaults; `None` when a key holds an
/// unknown profile or a port out of range.
pub fn section_from_raw(raw: RawSection) -> (r: Option<ProxySection>)
    ensures
        raw_is_valid(raw) <==> r is Some,
        r matches Some(s) ==> section_of(raw, s),
{
    let profile = match &raw.profile {
        None => Profile::Mixed,
        Some(t) => match parse_profile(t.as_str()) {
            Some(p) => p,
            None => {
                return None;
            },
        },
    };
    let mixed_port = match port_or_default(raw.mixed_port, DEFAULT_MIXED_PORT) {
        Some(p) => p,
        None => {
            return None;
        },
    };
    let socks_port = match port_or_default(raw.socks_port, DEFAULT_SOCKS_PORT) {
        Some(p) => p,
        None => {
            return None;
        },
    };
    let http_port = match port_or_default(raw.http_port, DEFAULT_HTTP_PORT) {
        Some(p) => p,
        None => {
            return None;
        },
    };
    Some(ProxySection { host_ip: raw.host_ip, profile, mixed_port, socks_port, http_port })
}

/// Builds the configuration from what the file yielded: `None` when it
/// could not be read or parsed, `Some(None)` when it has no `[proxy]`
/// table. Nothing here fails: whatever cannot be read gives the defaults.
pub fn load_config(parsed: Option<Option<RawSection>>) -> (r: Config)
    ensures
        match parsed {
            Some(Some(raw)) => if raw_is_valid(raw) {
                section_of(raw, r.proxy)
            } else {
                r.proxy.is_default()
            },
            _ => r.proxy.is_default(),
        },
{
    match parsed {
        Some(Some(raw)) => match section_from_raw(raw) {
            Some(proxy) => Config { proxy },
            None => Config::default(),
        },
        _ => Config::default(),
    }
}

} // verus!
