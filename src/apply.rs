//! Applying, clearing and reporting the proxy variables.
//!
//! Each operation is decided here as a [`Step`]: either a list of effects to
//! perform, or a fish script to run whose outcome is handed back to the
//! matching `*_fish_done` function. Process-mode changes reach this process
//! and its children only, never the interactive shell that started it.
use vstd::prelude::*;
use crate::mode::Mode;
use crate::ports::EffPorts;
use crate::text::{decimal, decimal_string, pad_right, padded_right};

verus! {

/// An effect on the outside world, performed in order by the caller.
#[derive(Clone, Debug)]
pub enum Effect {
    /// Set a variable in this process's environment.
    SetVar(String, String),
    /// Remove a variable from this process's environment.
    RemoveVar(String),
    /// Print a line on standard output.
    Print(String),
    /// Print a line on standard error.
    Warn(String),
}

/// An effect with its texts as character sequences.
pub enum EffectView {
    SetVar(Seq<char>, Seq<char>),
    RemoveVar(Seq<char>),
    Print(Seq<char>),
    Warn(Seq<char>),
}

impl View for Effect {
    type V = EffectView;

    open spec fn view(&self) -> EffectView {
        match self {
            Effect::SetVar(k, v) => EffectView::SetVar(k@, v@),
            Effect::RemoveVar(k) => EffectView::RemoveVar(k@),
            Effect::Print(s) => EffectView::Print(s@),
            Effect::Warn(s) => EffectView::Warn(s@),
        }
    }
}

/// The views of a list of effects.
pub open spec fn views(v: Seq<Effect>) -> Seq<EffectView> {
    v.map_values(|e: Effect| e@)
}

/// What the caller does next for an operation.
#[derive(Debug)]
pub enum Step {
    /// Perform these effects in order; the operation is then complete.
    Apply(Vec<Effect>),
    /// Run this script with `fish -c` and hand back whether it succeeded.
    RunFish(String),
    /// Run this script with `fish -c` and print what it writes; complete.
    ShowFish(String),
    /// Read the three proxy variables of this process and print
    /// `process_status_lines` of them; complete.
    ReportProcess,
}

/// Name of the variable that holds the HTTP proxy.
pub const HTTP_VAR: &'static str = "http_proxy";

/// Name of the variable that holds the HTTPS proxy.
pub const HTTPS_VAR: &'static str = "https_proxy";

/// Name of the variable that holds the proxy for all other protocols.
pub const ALL_VAR: &'static str = "all_proxy";

/// Shown for a variable that is not set.
pub const NOT_SET: &'static str = "Not Set";

/// Guidance when no host address can be determined.
pub const NO_HOST_WARNING: &'static str = "⚠️ Cannot determine the host IP. Pass --ip or set [proxy].host_ip in ~/.proxyctl.toml.";

/// Warning when setting fish universal variables failed.
pub const FISH_SET_FAILED: &'static str = "⚠️ Setting fish universal variables failed; falling back to process variables.";

/// Notice when clearing fish universal variables did not succeed.
pub const FISH_UNSET_FAILED: &'static str = "ℹ️ fish universal variables were not set; process variables are cleared.";

/// Reported after clearing the process variables.
pub const OFF_PROCESS: &'static str = "❌ proxy OFF (process)";

/// Reported after clearing the fish universal variables.
pub const OFF_FISH: &'static str = "❌ proxy OFF (fish uvars)";

/// Fish script that erases the three universal variables.
pub const FISH_UNSET_SCRIPT: &'static str = "set -eU http_proxy ; set -eU https_proxy ; set -eU all_proxy";

/// Fish script that prints the three universal variables, or the not-set marker.
pub const FISH_STATUS_SCRIPT: &'static str = "
        if set -q http_proxy;  printf \"http_proxy  = %s\\n\" $http_proxy;  else; echo \"http_proxy  = Not Set\";  end;
        if set -q https_proxy; printf \"https_proxy = %s\\n\" $https_proxy; else; echo \"https_proxy = Not Set\"; end;
        if set -q all_proxy;   printf \"all_proxy   = %s\\n\" $all_proxy;   else; echo \"all_proxy   = Not Set\";   end;
    ";

/// `http://{ip}:{port}`.
pub open spec fn http_url(ip: Seq<char>, port: u16) -> Seq<char> {
    "http://"@ + ip + ":"@ + decimal(port as nat)
}

/// `socks5h://{ip}:{port}`: the proxy resolves host names.
pub open spec fn socks_url(ip: Seq<char>, port: u16) -> Seq<char> {
    "socks5h://"@ + ip + ":"@ + decimal(port as nat)
}

/// The URL of the HTTP proxy endpoint.
pub fn http_proxy_url(ip: &str, port: u16) -> (r: String)
    ensures
        r@ == http_url(ip@, port),
{
    let mut r = String::from_str("http://");
    r.append(ip);
    r.append(":");
    let d = decimal_string(port as u128);
    r.append(d.as_str());
    r
}

/// The URL of the SOCKS5 proxy endpoint, with resolution through the proxy.
pub fn socks_proxy_url(ip: &str, port: u16) -> (r: String)
    ensures
        r@ == socks_url(ip@, port),
{
    let mut r = String::from_str("socks5h://");
    r.append(ip);
    r.append(":");
    let d = decimal_string(port as u128);
    r.append(d.as_str());
    r
}

/// `(http {h}, socks {s})`.
pub open spec fn ports_note(ports: EffPorts) -> Seq<char> {
    "(http "@ + decimal(ports.http as nat) + ", socks "@ + decimal(ports.socks as nat) + ")"@
}

/// `✅ proxy ON ({target}) → {ip}  (http {h}, socks {s})`.
pub open spec fn on_message(target: Seq<char>, ip: Seq<char>, ports: EffPorts) -> Seq<char> {
    "✅ proxy ON ("@ + target + ") → "@ + ip + "  "@ + ports_note(ports)
}

/// The ports note, as text.
pub fn ports_note_text(ports: EffPorts) -> (r: String)
    ensures
        r@ == ports_note(ports),
{
    let mut r = String::from_str("(http ");
    let h = decimal_string(ports.http as u128);
    r.append(h.as_str());
    r.append(", socks ");
    let s = decimal_string(ports.socks as u128);
    r.append(s.as_str());
    r.append(")");
    r
}

/// The report that the proxy was switched on for a target.
pub fn on_message_text(target: &str, ip: &str, ports: EffPorts) -> (r: String)
    ensures
        r@ == on_message(target@, ip@, ports),
{
    let mut r = String::from_str("✅ proxy ON (");
    r.append(target);
    r.append(") → ");
    r.append(ip);
    r.append("  ");
    let note = ports_note_text(ports);
    r.append(note.as_str());
    r
}

/// The three assignments that switch the proxy on.
pub open spec fn assignments(ip: Seq<char>, ports: EffPorts) -> Seq<EffectView> {
    seq![
        EffectView::SetVar(HTTP_VAR@, http_url(ip, ports.http)),
        EffectView::SetVar(HTTPS_VAR@, http_url(ip, ports.http)),
        EffectView::SetVar(ALL_VAR@, socks_url(ip, ports.socks)),
    ]
}

/// Switching the proxy on in the process environment: the three
/// assignments, then the report.
pub open spec fn process_on(ip: Seq<char>, ports: EffPorts) -> Seq<EffectView> {
    assignments(ip, ports).push(EffectView::Print(on_message("process"@, ip, ports)))
}

/// Switching the proxy off in the process environment: the three removals,
/// then the report.
pub open spec fn process_off() -> Seq<EffectView> {
    seq![
        EffectView::RemoveVar(HTTP_VAR@),
        EffectView::RemoveVar(HTTPS_VAR@),
        EffectView::RemoveVar(ALL_VAR@),
        EffectView::Print(OFF_PROCESS@),
    ]
}

/// The effects that switch the proxy on in this process's environment.
pub fn set_proxy_in_process(ip: &str, ports: EffPorts) -> (r: Vec<Effect>)
    ensures
        views(r@) == process_on(ip@, ports),
{
    let http = http_proxy_url(ip, ports.http);
    let socks = socks_proxy_url(ip, ports.socks);
    let mut r: Vec<Effect> = Vec::new();
    r.push(Effect::SetVar(String::from_str(HTTP_VAR), http.clone()));
    r.push(Effect::SetVar(String::from_str(HTTPS_VAR), http));
    r.push(Effect::SetVar(String::from_str(ALL_VAR), socks));
    r.push(Effect::Print(on_message_text("process", ip, ports)));
    assert(views(r@) =~= process_on(ip@, ports));
    r
}

/// The effects that switch the proxy off in this process's environment.
pub fn unset_proxy_in_process() -> (r: Vec<Effect>)
    ensures
        views(r@) == process_off(),
{
    let mut r: Vec<Effect> = Vec::new();
    r.push(Effect::RemoveVar(String::from_str(HTTP_VAR)));
    r.push(Effect::RemoveVar(String::from_str(HTTPS_VAR)));
    r.push(Effect::RemoveVar(String::from_str(ALL_VAR)));
    r.push(Effect::Print(String::from_str(OFF_PROCESS)));
    assert(views(r@) =~= process_off());
    r
}

/// The fish script that sets the three universal variables in one run.
pub open spec fn fish_set_script(ip: Seq<char>, ports: EffPorts) -> Seq<char> {
    "set -Ux http_proxy '"@ + http_url(ip, ports.http) + "' ; set -Ux https_proxy '"@ + http_url(
        ip,
        ports.http,
    ) + "' ; set -Ux all_proxy '"@ + socks_url(ip, ports.socks) + "'"@
}

/// The fish script that sets the three universal variables, as text.
pub fn fish_set_uvars_script(ip: &str, ports: EffPorts) -> (r: String)
    ensures
        r@ == fish_set_script(ip@, ports),
{
    let http = http_proxy_url(ip, ports.http);
    let socks = socks_proxy_url(ip, ports.socks);
    let mut r = String::from_str("set -Ux http_proxy '");
    r.append(http.as_str());
    r.append("' ; set -Ux https_proxy '");
    r.append(http.as_str());
    r.append("' ; set -Ux all_proxy '");
    r.append(socks.as_str());
    r.append("'");
    r
}

/// What switching the proxy on begins with, for a resolved mode and the
/// chosen host.
pub open spec fn on_begins(mode: Mode, ip: Option<String>, ports: EffPorts, step: Step) -> bool {
    match ip {
        None => step matches Step::Apply(v) && views(v@) == seq![EffectView::Warn(NO_HOST_WARNING@)],
        Some(ip) => if mode == Mode::FishUvars {
            step matches Step::RunFish(s) && s@ == fish_set_script(ip@, ports)
        } else {
            step matches Step::Apply(v) && views(v@) == process_on(ip@, ports)
        },
    }
}

/// Begins switching the proxy on. Without a host nothing is touched and
/// guidance is given; in fish mode the universal variables are set by one
/// script; otherwise the process environment is set.
pub fn on_step(mode: Mode, ip: Option<String>, ports: EffPorts) -> (r: Step)
    requires
        mode != Mode::Auto,
    ensures
        on_begins(mode, ip, ports, r),
{
    match ip {
        None => {
            let mut v: Vec<Effect> = Vec::new();
            v.push(Effect::Warn(String::from_str(NO_HOST_WARNING)));
            assert(views(v@) =~= seq![EffectView::Warn(NO_HOST_WARNING@)]);
            Step::Apply(v)
        },
        Some(ip) => match mode {
            Mode::FishUvars => Step::RunFish(fish_set_uvars_script(ip.as_str(), ports)),
            _ => Step::Apply(set_proxy_in_process(ip.as_str(), ports)),
        },
    }
}

/// What follows the fish script that sets the variables: the report when it
/// succeeded, else a warning and the process-environment fallback.
pub open spec fn on_after_fish(succeeded: bool, ip: Seq<char>, ports: EffPorts) -> Seq<EffectView> {
    if succeeded {
        seq![EffectView::Print(on_message("fish uvars"@, ip, ports))]
    } else {
        seq![EffectView::Warn(FISH_SET_FAILED@)] + process_on(ip, ports)
    }
}

/// Completes switching the proxy on once the fish script has run.
pub fn on_fish_done(succeeded: bool, ip: &str, ports: EffPorts) -> (r: Vec<Effect>)
    ensures
        views(r@) == on_after_fish(succeeded, ip@, ports),
{
    if succeeded {
        let mut v: Vec<Effect> = Vec::new();
        v.push(Effect::Print(on_message_text("fish uvars", ip, ports)));
        assert(views(v@) =~= on_after_fish(succeeded, ip@, ports));
        v
    } else {
        let mut v: Vec<Effect> = Vec::new();
        v.push(Effect::Warn(String::from_str(FISH_SET_FAILED)));
        let mut rest = set_proxy_in_process(ip, ports);
        v.append(&mut rest);
        assert(views(v@) =~= on_after_fish(succeeded, ip@, ports));
        v
    }
}

/// What switching the proxy off begins with, for a resolved mode.
pub open spec fn off_begins(mode: Mode, step: Step) -> bool {
    if mode == Mode::FishUvars {
        step matches Step::RunFish(s) && s@ == FISH_UNSET_SCRIPT@
    } else {
        step matches Step::Apply(v) && views(v@) == process_off()
    }
}

/// Begins switching the proxy off.
pub fn off_step(mode: Mode) -> (r: Step)
    requires
        mode != Mode::Auto,
    ensures
        off_begins(mode, r),
{
    match mode {
        Mode::FishUvars => Step::RunFish(String::from_str(FISH_UNSET_SCRIPT)),
        _ => Step::Apply(unset_proxy_in_process()),
    }
}

/// What follows the fish script that erases the variables: the report when
/// it succeeded; else, as variables that were never set are no error, a
/// notice and the clearing of the process environment.
pub open spec fn off_after_fish(succeeded: bool) -> Seq<EffectView> {
    if succeeded {
        seq![EffectView::Print(OFF_FISH@)]
    } else {
        seq![EffectView::Print(FISH_UNSET_FAILED@)] + process_off()
    }
}

/// Completes switching the proxy off once the fish script has run.
pub fn off_fish_done(succeeded: bool) -> (r: Vec<Effect>)
    ensures
        views(r@) == off_after_fish(succeeded),
{
    let mut v: Vec<Effect> = Vec::new();
    if succeeded {
        v.push(Effect::Print(String::from_str(OFF_FISH)));
    } else {
        v.push(Effect::Print(String::from_str(FISH_UNSET_FAILED)));
        let mut rest = unset_proxy_in_process();
        v.append(&mut rest);
    }
    assert(views(v@) =~= off_after_fish(succeeded));
    v
}

/// What reporting begins with, for a resolved mode.
pub open spec fn status_begins(mode: Mode, step: Step) -> bool {
    if mode == Mode::FishUvars {
        step matches Step::ShowFish(s) && s@ == FISH_STATUS_SCRIPT@
    } else {
        step is ReportProcess
    }
}

/// Begins reporting the proxy variables; nothing is changed.
pub fn status_step(mode: Mode) -> (r: Step)
    requires
        mode != Mode::Auto,
    ensures
        status_begins(mode, r),
{
    match mode {
        Mode::FishUvars => Step::ShowFish(String::from_str(FISH_STATUS_SCRIPT)),
        _ => Step::ReportProcess,
    }
}

/// `{name:<12} = {value}`, with the not-set marker for an absent value.
pub open spec fn status_line(name: Seq<char>, value: Option<Seq<char>>) -> Seq<char> {
    pad_right(name, 12) + " = "@ + match value {
        Some(v) => v,
        None => NOT_SET@,
    }
}

/// The view of an optional text.
pub open spec fn opt_view(v: Option<String>) -> Option<Seq<char>> {
    match v {
        Some(s) => Some(s@),
        None => None,
    }
}

/// One line of the process report.
pub fn status_line_text(name: &str, value: &Option<String>) -> (r: String)
    ensures
        r@ == status_line(name@, opt_view(*value)),
{
    let mut r = padded_right(name, 12);
    r.append(" = ");
    match value {
        Some(v) => r.append(v.as_str()),
        None => r.append(NOT_SET),
    }
    r
}

/// The process report, from the values of `http_proxy`, `https_proxy` and
/// `all_proxy` in that order.
pub fn process_status_lines(
    http: &Option<String>,
    https: &Option<String>,
    all: &Option<String>,
) -> (r: Vec<String>)
    ensures
        r@.len() == 3,
        r@[0]@ == status_line(HTTP_VAR@, opt_view(*http)),
        r@[1]@ == status_line(HTTPS_VAR@, opt_view(*https)),
        r@[2]@ == status_line(ALL_VAR@, opt_view(*all)),
{
    let mut r: Vec<String> = Vec::new();
    r.push(status_line_text(HTTP_VAR, http));
    r.push(status_line_text(HTTPS_VAR, https));
    r.push(status_line_text(ALL_VAR, all));
    r
}

} // verus!
