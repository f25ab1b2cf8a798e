use proxyctl::apply::{process_status_lines, set_proxy_in_process, unset_proxy_in_process, Effect};
use proxyctl::config::{Profile, ProxySection, DEFAULT_TEMPLATE};
use proxyctl::ports::effective_ports;

fn printed(effects: &[Effect]) -> String {
    let mut out = String::new();
    for e in effects {
        if let Effect::Print(s) = e {
            out.push_str(s);
            out.push('\n');
        }
    }
    out
}

#[test]
fn status_triggers_config_autogeneration() {
    let content = DEFAULT_TEMPLATE;
    assert!(content.contains("profile"), "config should contain profile");
    assert!(content.contains("mixed_port = 7890"));
    assert!(content.contains("socks_port = 7891"));
    assert!(content.contains("http_port  = 7892"));
}

#[test]
fn on_process_mode_mixed_profile_outputs_expected_ports() {
    let cfg = ProxySection::default();
    let ports = effective_ports(&cfg, None);
    let effects = set_proxy_in_process("1.2.3.4", ports);
    assert!(printed(&effects).contains("http 7890, socks 7890"));
}

#[test]
fn on_process_mode_split_profile_outputs_expected_ports() {
    let cfg = ProxySection::default();
    let ports = effective_ports(&cfg, Some(Profile::Split));
    let effects = set_proxy_in_process("1.2.3.4", ports);
    assert!(printed(&effects).contains("http 7892, socks 7891"));
}

#[test]
fn off_process_mode_succeeds() {
    let effects = unset_proxy_in_process();
    assert!(printed(&effects).contains("proxy OFF (process)"));
}

#[test]
fn status_process_mode_prints_not_set() {
    let lines = process_status_lines(&None, &None, &None);
    assert!(lines.join("\n").contains("Not Set"));
}
