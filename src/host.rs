//! Choosing the proxy host: explicit override, configured value, or the
//! gateway of the default route.
use vstd::prelude::*;

verus! {

/// The host chosen from the three sources, in order of precedence.
pub open spec fn chosen_host(
    cli_ip: Option<String>,
    cfg_ip: Option<String>,
    detected: Option<String>,
) -> Option<String> {
    if cli_ip is Some {
        cli_ip
    } else if cfg_ip is Some {
        cfg_ip
    } else {
        detected
    }
}

/// Whether the default route has to be inspected: only when neither an
/// explicit nor a configured host is given.
pub fn needs_detection(cli_ip: &Option<String>, cfg_ip: &Option<String>) -> (r: bool)
    ensures
        r == (cli_ip is None && cfg_ip is None),
{
    cli_ip.is_none() && cfg_ip.is_none()
}

/// Picks the host: the explicit override wins, then the configured value,
/// then the detected gateway; `None` when all three are absent.
pub fn choose_ip(cli_ip: Option<String>, cfg_ip: Option<String>, detected: Option<String>) -> (r:
    Option<String>)
    ensures
        r == chosen_host(cli_ip, cfg_ip, detected),
        cli_ip is Some ==> r == cli_ip,
        cli_ip is None && cfg_ip is Some ==> r == cfg_ip,
        cli_ip is None && cfg_ip is None ==> r == detected,
{
    match cli_ip {
        Some(ip) => Some(ip),
        None => match cfg_ip {
            Some(ip) => Some(ip),
            None => detected,
        },
    }
}

/// The detected gateway decides the host only when detection is needed:
/// with an explicit or configured host, any detection outcome gives the
/// same choice, so the route need not be inspected.
pub proof fn lemma_detection_is_last_resort(
    cli_ip: Option<String>,
    cfg_ip: Option<String>,
    d1: Option<String>,
    d2: Option<String>,
)
    requires
        !(cli_ip is None && cfg_ip is None),
    ensures
        chosen_host(cli_ip, cfg_ip, d1) == chosen_host(cli_ip, cfg_ip, d2),
{
}

/// What `str::trim` returns for a text.
pub uninterp spec fn trimmed(s: Seq<char>) -> Seq<char>;

/// Relies on `str::trim`: the text without leading and trailing whitespace,
/// a function of the characters alone.
#[verifier::external_body]
fn trim_text(s: &str) -> (r: String)
    ensures
        r@ == trimmed(s@),
{
    s.trim().to_string()
}

/// The gateway named by an already trimmed route-query output: none when the
/// output is empty.
pub fn gateway_from_trimmed(text: String) -> (r: Option<String>)
    ensures
        text@.len() == 0 ==> r is None,
        text@.len() > 0 ==> (r matches Some(ip) && ip@ == text@),
{
    if text.as_str().unicode_len() == 0 {
        None
    } else {
        Some(text)
    }
}

/// The gateway named by the output of the default-route query, which prints
/// the gateway address alone: none when only whitespace came back.
pub fn gateway_from_route_output(output: &str) -> (r: Option<String>)
    ensures
        trimmed(output@).len() == 0 ==> r is None,
        trimmed(output@).len() > 0 ==> (r matches Some(ip) && ip@ == trimmed(output@)),
{
    gateway_from_trimmed(trim_text(output))
}

} // verus!
