//! Planning and reporting the connectivity test.
//!
//! The test probes a fixed list of sites through the HTTP proxy and then
//! through the SOCKS5 proxy. The caller builds one client per
//! [`ProxyProbe`], sends the requests in order, and prints the lines made
//! here; a failed site never stops the others.
use vstd::prelude::*;
use crate::apply::{http_proxy_url, http_url, ports_note, ports_note_text, socks_proxy_url, socks_url};
use crate::ports::EffPorts;
use crate::text::{decimal, decimal_string, pad_left, padded_left};

verus! {

/// Tag that identifies the probing client to the sites.
pub const USER_AGENT: &'static str = "proxyctl/0.6";

/// Accept header sent with each probe.
pub const ACCEPT: &'static str = "text/html,*/*;q=0.8";

/// Seconds a probe may take when no timeout is given.
pub const DEFAULT_TIMEOUT_SECS: u64 = 5;

/// The sites probed, in order.
pub open spec fn site_urls() -> Seq<Seq<char>> {
    seq![
        "https://www.google.com/generate_204"@,
        "https://www.github.com/"@,
        "https://www.youtube.com/robots.txt"@,
        "https://huggingface.co/"@,
        "https://www.cloudflare.com/cdn-cgi/trace"@,
    ]
}

/// The sites probed, in order: a connectivity check, three content hosts
/// and a diagnostic endpoint.
pub fn test_sites() -> (r: Vec<&'static str>)
    ensures
        r@.len() == site_urls().len(),
        forall|i: int| 0 <= i < r@.len() ==> #[trigger] r@[i]@ == site_urls()[i],
{
    let v = vec![
        "https://www.google.com/generate_204",
        "https://www.github.com/",
        "https://www.youtube.com/robots.txt",
        "https://huggingface.co/",
        "https://www.cloudflare.com/cdn-cgi/trace",
    ];
    assert(v@.len() == 5);
    v
}

/// `  [DRY] ----  ----  {url}`: a site that a dry run would probe.
pub open spec fn dry_line(url: Seq<char>) -> Seq<char> {
    "  [DRY] ----  ----  "@ + url
}

/// `  [OK ] {status:>3}  {ms:>4}ms  {url}`: a site that answered.
pub open spec fn ok_line(status: u16, ms: u128, url: Seq<char>) -> Seq<char> {
    "  [OK ] "@ + pad_left(decimal(status as nat), 3) + "  "@ + pad_left(decimal(ms as nat), 4)
        + "ms  "@ + url
}

/// `  [ERR] ----  {ms:>4}ms  {url}  ({error})`: a site whose request failed.
pub open spec fn err_line(ms: u128, url: Seq<char>, error: Seq<char>) -> Seq<char> {
    "  [ERR] ----  "@ + pad_left(decimal(ms as nat), 4) + "ms  "@ + url + "  ("@ + error + ")"@
}

/// `🔎 Testing via {label} …`: the line that opens a section.
pub open spec fn testing_line(label: Seq<char>) -> Seq<char> {
    "🔎 Testing via "@ + label + " …"@
}

/// The line for a site in a dry run.
pub fn dry_line_text(url: &str) -> (r: String)
    ensures
        r@ == dry_line(url@),
{
    let mut r = String::from_str("  [DRY] ----  ----  ");
    r.append(url);
    r
}

/// The line for a site that answered with `status` after `ms` milliseconds.
pub fn ok_line_text(status: u16, ms: u128, url: &str) -> (r: String)
    ensures
        r@ == ok_line(status, ms, url@),
{
    let mut r = String::from_str("  [OK ] ");
    let s = decimal_string(status as u128);
    let s = padded_left(s.as_str(), 3);
    r.append(s.as_str());
    r.append("  ");
    let m = decimal_string(ms);
    let m = padded_left(m.as_str(), 4);
    r.append(m.as_str());
    r.append("ms  ");
    r.append(url);
    r
}

/// The line for a site whose request failed after `ms` milliseconds.
pub fn err_line_text(ms: u128, url: &str, error: &str) -> (r: String)
    ensures
        r@ == err_line(ms, url@, error@),
{
    let mut r = String::from_str("  [ERR] ----  ");
    let m = decimal_string(ms);
    let m = padded_left(m.as_str(), 4);
    r.append(m.as_str());
    r.append("ms  ");
    r.append(url);
    r.append("  (");
    r.append(error);
    r.append(")");
    r
}

/// The line that opens the section of a proxy type.
pub fn testing_line_text(label: &str) -> (r: String)
    ensures
        r@ == testing_line(label@),
{
    let mut r = String::from_str("🔎 Testing via ");
    r.append(label);
    r.append(" …");
    r
}

/// The whole section of a dry run: the opening line, every site once with
/// the placeholder marker, and a blank line.
pub open spec fn dry_section(label: Seq<char>) -> Seq<Seq<char>> {
    seq![testing_line(label)] + site_urls().map_values(|u: Seq<char>| dry_line(u)) + seq![
        Seq::empty(),
    ]
}

/// The lines of a dry run through one proxy type; nothing is sent.
pub fn dry_run_lines(label: &str) -> (r: Vec<String>)
    ensures
        r@.map_values(|s: String| s@) == dry_section(label@),
{
    let sites = test_sites();
    let mut r: Vec<String> = Vec::new();
    r.push(testing_line_text(label));
    let mut i: usize = 0;
    while i < sites.len()
        invariant
            sites@.len() == site_urls().len(),
            forall|k: int| 0 <= k < sites@.len() ==> #[trigger] sites@[k]@ == site_urls()[k],
            0 <= i <= sites@.len(),
            r@.len() == i + 1,
            r@[0]@ == testing_line(label@),
            forall|k: int| 0 <= k < i ==> #[trigger] r@[k + 1]@ == dry_line(site_urls()[k]),
        decreases sites@.len() - i,
    {
        r.push(dry_line_text(sites[i]));
        i = i + 1;
    }
    let ghost before = r@;
    r.push(String::new());
    let ghost target = dry_section(label@);
    assert(target.len() == r@.len());
    assert forall|k: int| 0 <= k < r@.len() implies r@.map_values(|s: String| s@)[k]
        == target[k] by {
        if 0 < k < r@.len() - 1 {
            assert(before[(k - 1) + 1]@ == dry_line(site_urls()[k - 1]));
        }
    }
    assert(r@.map_values(|s: String| s@) =~= dry_section(label@));
    r
}

/// One proxy type to probe.
#[derive(Clone, Debug)]
pub struct ProxyProbe {
    /// Name of the proxy type in reports.
    pub label: String,
    /// The endpoint that every request of this type goes through.
    pub proxy_url: String,
    /// Printed before the section when the client was built.
    pub header: String,
    /// Printed instead of the section when no client can be built.
    pub build_failed: String,
}

/// `➡️  HTTP proxy:  {url}`.
pub open spec fn http_header(url: Seq<char>) -> Seq<char> {
    "➡️  HTTP proxy:  "@ + url
}

/// `➡️  SOCKS5 proxy: {url}`.
pub open spec fn socks_header(url: Seq<char>) -> Seq<char> {
    "➡️  SOCKS5 proxy: "@ + url
}

/// `⚠️ Cannot build the {label} client ({url}).`
pub open spec fn build_failed_line(label: Seq<char>, url: Seq<char>) -> Seq<char> {
    "⚠️ Cannot build the "@ + label + " client ("@ + url + ")."@
}

fn build_failed_text(label: &str, url: &str) -> (r: String)
    ensures
        r@ == build_failed_line(label@, url@),
{
    let mut r = String::from_str("⚠️ Cannot build the ");
    r.append(label);
    r.append(" client (");
    r.append(url);
    r.append(").");
    r
}

/// The probe through the HTTP proxy at `ip:port`.
pub fn http_probe(ip: &str, port: u16) -> (r: ProxyProbe)
    ensures
        r.label@ == "HTTP proxy"@,
        r.proxy_url@ == http_url(ip@, port),
        r.header@ == http_header(http_url(ip@, port)),
        r.build_failed@ == build_failed_line("HTTP proxy"@, http_url(ip@, port)),
{
    let url = http_proxy_url(ip, port);
    let mut header = String::from_str("➡️  HTTP proxy:  ");
    header.append(url.as_str());
    let build_failed = build_failed_text("HTTP proxy", url.as_str());
    ProxyProbe { label: String::from_str("HTTP proxy"), proxy_url: url, header, build_failed }
}

/// The probe through the SOCKS5 proxy at `ip:port`.
pub fn socks_probe(ip: &str, port: u16) -> (r: ProxyProbe)
    ensures
        r.label@ == "SOCKS5 proxy"@,
        r.proxy_url@ == socks_url(ip@, port),
        r.header@ == socks_header(socks_url(ip@, port)),
        r.build_failed@ == build_failed_line("SOCKS5 proxy"@, socks_url(ip@, port)),
{
    let url = socks_proxy_url(ip, port);
    let mut header = String::from_str("➡️  SOCKS5 proxy: ");
    header.append(url.as_str());
    let build_failed = build_failed_text("SOCKS5 proxy", url.as_str());
    ProxyProbe { label: String::from_str("SOCKS5 proxy"), proxy_url: url, header, build_failed }
}

/// What the connectivity test does.
#[derive(Debug)]
pub enum TestPlan {
    /// No host is known: print this guidance on standard error; nothing is sent.
    NoHost(String),
    /// Print `intro`, then run each probe in order.
    Probe { intro: String, probes: Vec<ProxyProbe> },
}

/// `✅ Using IP: {ip}  (http {h}, socks {s})`.
pub open spec fn using_line(ip: Seq<char>, ports: EffPorts) -> Seq<char> {
    "✅ Using IP: "@ + ip + "  "@ + ports_note(ports)
}

/// Plans the connectivity test: guidance when no host is known, else the
/// HTTP probe on the effective HTTP port followed by the SOCKS5 probe on the
/// effective SOCKS port.
pub fn test_plan(ip: Option<String>, ports: EffPorts) -> (r: TestPlan)
    ensures
        ip is None ==> (r matches TestPlan::NoHost(w) && w@ == crate::apply::NO_HOST_WARNING@),
        ip matches Some(ip) ==> (r matches TestPlan::Probe { intro, probes } && intro@ == using_line(
            ip@,
            ports,
        ) && probes@.len() == 2 && probes@[0].label@ == "HTTP proxy"@ && probes@[0].proxy_url@
            == http_url(ip@, ports.http) && probes@[0].header@ == http_header(
            http_url(ip@, ports.http),
        ) && probes@[1].label@ == "SOCKS5 proxy"@ && probes@[1].proxy_url@ == socks_url(
            ip@,
            ports.socks,
        ) && probes@[1].header@ == socks_header(socks_url(ip@, ports.socks))),
{
    match ip {
        None => TestPlan::NoHost(String::from_str(crate::apply::NO_HOST_WARNING)),
        Some(ip) => {
            let mut intro = String::from_str("✅ Using IP: ");
            intro.append(ip.as_str());
            intro.append("  ");
            let note = ports_note_text(ports);
            intro.append(note.as_str());
            let mut probes: Vec<ProxyProbe> = Vec::new();
            probes.push(http_probe(ip.as_str(), ports.http));
            probes.push(socks_probe(ip.as_str(), ports.socks));
            TestPlan::Probe { intro, probes }
        },
    }
}

} // verus!
