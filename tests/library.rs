use proxyctl::apply::{
    fish_set_uvars_script, http_proxy_url, off_fish_done, off_step, on_fish_done, on_step,
    process_status_lines, socks_proxy_url, status_step, Effect, Step, FISH_STATUS_SCRIPT,
    FISH_UNSET_SCRIPT, NO_HOST_WARNING,
};
use proxyctl::config::{
    load_config, parse_port, parse_profile, section_from_raw, Config, Profile, ProxySection,
    RawSection, DEFAULT_TEMPLATE,
};
use proxyctl::host::{choose_ip, gateway_from_route_output, gateway_from_trimmed, needs_detection};
use proxyctl::mode::{contains_text, is_fish, resolve_mode, Mode};
use proxyctl::ports::{effective_ports, EffPorts};
use proxyctl::probe::{
    dry_run_lines, err_line_text, ok_line_text, test_plan, test_sites, TestPlan,
};
use proxyctl::text::{decimal_string, padded_left, padded_right, same_text};

fn section(profile: Profile, mixed: u16, socks: u16, http: u16) -> ProxySection {
    ProxySection { host_ip: None, profile, mixed_port: mixed, socks_port: socks, http_port: http }
}

fn some(s: &str) -> Option<String> {
    Some(s.to_string())
}

fn raw_empty() -> RawSection {
    RawSection { host_ip: None, profile: None, mixed_port: None, socks_port: None, http_port: None }
}

fn effects_of(step: Step) -> Vec<Effect> {
    match step {
        Step::Apply(v) => v,
        other => panic!("expected effects, got {:?}", other),
    }
}

fn env_after(effects: &[Effect]) -> Vec<(String, Option<String>)> {
    let mut env: Vec<(String, Option<String>)> = Vec::new();
    for e in effects {
        match e {
            Effect::SetVar(k, v) => {
                env.retain(|(n, _)| n != k);
                env.push((k.clone(), Some(v.clone())));
            }
            Effect::RemoveVar(k) => {
                env.retain(|(n, _)| n != k);
                env.push((k.clone(), None));
            }
            _ => {}
        }
    }
    env
}

#[test]
fn mixed_profile_uses_mixed_port_twice() {
    let cfg = section(Profile::Mixed, 1000, 2000, 3000);
    assert_eq!(effective_ports(&cfg, None), EffPorts { http: 1000, socks: 1000 });
    assert_eq!(effective_ports(&cfg, Some(Profile::Mixed)), EffPorts { http: 1000, socks: 1000 });
}

#[test]
fn split_profile_uses_distinct_ports() {
    let cfg = section(Profile::Split, 1000, 2000, 3000);
    assert_eq!(effective_ports(&cfg, None), EffPorts { http: 3000, socks: 2000 });
    let mixed = section(Profile::Mixed, 1000, 2000, 3000);
    assert_eq!(effective_ports(&mixed, Some(Profile::Split)), EffPorts { http: 3000, socks: 2000 });
}

#[test]
fn override_profile_wins_over_configured() {
    let cfg = section(Profile::Split, 7890, 7891, 7892);
    assert_eq!(effective_ports(&cfg, Some(Profile::Mixed)), EffPorts { http: 7890, socks: 7890 });
}

#[test]
fn host_precedence() {
    assert_eq!(choose_ip(some("1.1.1.1"), some("2.2.2.2"), some("3.3.3.3")), some("1.1.1.1"));
    assert_eq!(choose_ip(None, some("2.2.2.2"), some("3.3.3.3")), some("2.2.2.2"));
    assert_eq!(choose_ip(None, None, some("3.3.3.3")), some("3.3.3.3"));
    assert_eq!(choose_ip(None, None, None), None);
    assert_eq!(choose_ip(some("1.1.1.1"), None, None), some("1.1.1.1"));
}

#[test]
fn detection_needed_only_without_other_sources() {
    assert!(needs_detection(&None, &None));
    assert!(!needs_detection(&some("1.1.1.1"), &None));
    assert!(!needs_detection(&None, &some("2.2.2.2")));
}

#[test]
fn gateway_output_is_trimmed() {
    assert_eq!(gateway_from_route_output("  172.17.208.1\n"), some("172.17.208.1"));
    assert_eq!(gateway_from_route_output(" \n\t"), None);
    assert_eq!(gateway_from_route_output(""), None);
    assert_eq!(gateway_from_trimmed(String::new()), None);
    assert_eq!(gateway_from_trimmed("10.0.0.1".to_string()), some("10.0.0.1"));
}

#[test]
fn mode_resolution() {
    assert_eq!(resolve_mode(Mode::Auto, "/usr/bin/fish"), Mode::FishUvars);
    assert_eq!(resolve_mode(Mode::Auto, "/bin/bash"), Mode::Process);
    assert_eq!(resolve_mode(Mode::Auto, ""), Mode::Process);
    assert_eq!(resolve_mode(Mode::Process, "/usr/bin/fish"), Mode::Process);
    assert_eq!(resolve_mode(Mode::FishUvars, "/bin/zsh"), Mode::FishUvars);
    assert!(is_fish("fish"));
    assert!(!is_fish("/bin/fis"));
}

#[test]
fn substring_search() {
    assert!(contains_text("abcdef", "cde"));
    assert!(contains_text("abc", ""));
    assert!(!contains_text("abc", "abcd"));
    assert!(!contains_text("abcabd", "abe"));
    assert!(contains_text("aab", "ab"));
}

#[test]
fn decimal_and_padding() {
    assert_eq!(decimal_string(0), "0");
    assert_eq!(decimal_string(7890), "7890");
    assert_eq!(decimal_string(65535), "65535");
    assert_eq!(padded_left("7", 3), "  7");
    assert_eq!(padded_left("12345", 4), "12345");
    assert_eq!(padded_right("all_proxy", 12), "all_proxy   ");
    assert_eq!(padded_right("", 2), "  ");
    assert!(same_text("mixed", "mixed"));
    assert!(!same_text("mixed", "Mixed"));
    assert!(!same_text("mix", "mixed"));
}

#[test]
fn proxy_urls() {
    assert_eq!(http_proxy_url("1.2.3.4", 7890), "http://1.2.3.4:7890");
    assert_eq!(socks_proxy_url("1.2.3.4", 7891), "socks5h://1.2.3.4:7891");
    assert_eq!(http_proxy_url("h", 0), "http://h:0");
}

#[test]
fn on_process_sets_three_variables() {
    let ports = EffPorts { http: 7890, socks: 7890 };
    let effects = effects_of(on_step(Mode::Process, some("1.2.3.4"), ports));
    let env = env_after(&effects);
    assert_eq!(
        env,
        vec![
            ("http_proxy".to_string(), some("http://1.2.3.4:7890")),
            ("https_proxy".to_string(), some("http://1.2.3.4:7890")),
            ("all_proxy".to_string(), some("socks5h://1.2.3.4:7890")),
        ]
    );
    match effects.last() {
        Some(Effect::Print(s)) => {
            assert_eq!(s, "✅ proxy ON (process) → 1.2.3.4  (http 7890, socks 7890)")
        }
        other => panic!("unexpected {:?}", other),
    }
}

#[test]
fn on_without_host_touches_nothing() {
    let ports = EffPorts { http: 7890, socks: 7890 };
    for mode in [Mode::Process, Mode::FishUvars] {
        let effects = effects_of(on_step(mode, None, ports));
        assert_eq!(effects.len(), 1);
        match &effects[0] {
            Effect::Warn(s) => assert_eq!(s, NO_HOST_WARNING),
            other => panic!("unexpected {:?}", other),
        }
    }
}

#[test]
fn on_fish_runs_one_script() {
    let ports = EffPorts { http: 7892, socks: 7891 };
    match on_step(Mode::FishUvars, some("1.2.3.4"), ports) {
        Step::RunFish(s) => assert_eq!(
            s,
            "set -Ux http_proxy 'http://1.2.3.4:7892' ; set -Ux https_proxy 'http://1.2.3.4:7892' ; set -Ux all_proxy 'socks5h://1.2.3.4:7891'"
        ),
        other => panic!("unexpected {:?}", other),
    }
    assert_eq!(fish_set_uvars_script("h", ports).matches("set -Ux").count(), 3);
}

#[test]
fn fish_failure_falls_back_to_process() {
    let ports = EffPorts { http: 7892, socks: 7891 };
    let ok = on_fish_done(true, "1.2.3.4", ports);
    assert_eq!(ok.len(), 1);
    assert!(matches!(&ok[0], Effect::Print(s) if s.contains("proxy ON (fish uvars)")));
    let failed = on_fish_done(false, "1.2.3.4", ports);
    assert_eq!(failed.len(), 5);
    assert!(matches!(&failed[0], Effect::Warn(_)));
    let env = env_after(&failed);
    assert_eq!(env[2], ("all_proxy".to_string(), some("socks5h://1.2.3.4:7891")));
    assert!(matches!(&failed[4], Effect::Print(s) if s.contains("proxy ON (process)")));
}

#[test]
fn off_removes_all_three() {
    let effects = effects_of(off_step(Mode::Process));
    let env = env_after(&effects);
    assert_eq!(
        env,
        vec![
            ("http_proxy".to_string(), None),
            ("https_proxy".to_string(), None),
            ("all_proxy".to_string(), None),
        ]
    );
    match off_step(Mode::FishUvars) {
        Step::RunFish(s) => assert_eq!(s, FISH_UNSET_SCRIPT),
        other => panic!("unexpected {:?}", other),
    }
    assert_eq!(off_fish_done(true).len(), 1);
    let failed = off_fish_done(false);
    assert_eq!(failed.len(), 5);
    assert!(matches!(&failed[0], Effect::Print(_)));
    assert!(failed.iter().all(|e| !matches!(e, Effect::Warn(_))));
}

#[test]
fn status_reads_without_mutation() {
    assert!(matches!(status_step(Mode::Process), Step::ReportProcess));
    match status_step(Mode::FishUvars) {
        Step::ShowFish(s) => assert_eq!(s, FISH_STATUS_SCRIPT),
        other => panic!("unexpected {:?}", other),
    }
    let lines = process_status_lines(&some("http://h:1"), &None, &None);
    assert_eq!(
        lines,
        vec![
            "http_proxy   = http://h:1".to_string(),
            "https_proxy  = Not Set".to_string(),
            "all_proxy    = Not Set".to_string(),
        ]
    );
}

#[test]
fn first_run_status_reports_not_set() {
    let lines = process_status_lines(&None, &None, &None);
    assert!(lines[0].starts_with("http_proxy") && lines[0].ends_with("Not Set"));
    assert!(lines[2].starts_with("all_proxy") && lines[2].ends_with("Not Set"));
}

#[test]
fn dry_run_lists_each_site_once_per_proxy() {
    let plan = test_plan(some("1.2.3.4"), EffPorts { http: 7890, socks: 7890 });
    let probes = match plan {
        TestPlan::Probe { intro, probes } => {
            assert_eq!(intro, "✅ Using IP: 1.2.3.4  (http 7890, socks 7890)");
            probes
        }
        other => panic!("unexpected {:?}", other),
    };
    assert_eq!(probes.len(), 2);
    assert_eq!(probes[0].proxy_url, "http://1.2.3.4:7890");
    assert_eq!(probes[1].proxy_url, "socks5h://1.2.3.4:7890");
    let sites = test_sites();
    assert_eq!(sites.len(), 5);
    for p in &probes {
        let lines = dry_run_lines(&p.label);
        assert_eq!(lines.len(), 7);
        assert_eq!(lines[0], format!("🔎 Testing via {} …", p.label));
        for url in &sites {
            let hits = lines.iter().filter(|l| l.ends_with(url)).count();
            assert_eq!(hits, 1);
            assert!(lines.contains(&format!("  [DRY] ----  ----  {}", url)));
        }
        assert_eq!(lines[6], "");
    }
}

#[test]
fn test_without_host_gives_guidance() {
    match test_plan(None, EffPorts { http: 1, socks: 2 }) {
        TestPlan::NoHost(w) => assert_eq!(w, NO_HOST_WARNING),
        other => panic!("unexpected {:?}", other),
    }
}

#[test]
fn probe_result_lines() {
    assert_eq!(ok_line_text(204, 35, "https://x/"), "  [OK ] 204    35ms  https://x/");
    assert_eq!(ok_line_text(7, 12345, "u"), "  [OK ]   7  12345ms  u");
    assert_eq!(err_line_text(5001, "u", "timed out"), "  [ERR] ----  5001ms  u  (timed out)");
}

#[test]
fn profile_and_port_tokens() {
    assert_eq!(parse_profile("mixed"), Some(Profile::Mixed));
    assert_eq!(parse_profile("split"), Some(Profile::Split));
    assert_eq!(parse_profile("Mixed"), None);
    assert_eq!(parse_profile(""), None);
    assert_eq!(parse_port(0), Some(0));
    assert_eq!(parse_port(65535), Some(65535));
    assert_eq!(parse_port(65536), None);
    assert_eq!(parse_port(-1), None);
}

#[test]
fn raw_section_defaults_and_rejections() {
    let s = section_from_raw(raw_empty()).unwrap();
    assert_eq!(s.host_ip, None);
    assert_eq!(s.profile, Profile::Mixed);
    assert_eq!((s.mixed_port, s.socks_port, s.http_port), (7890, 7891, 7892));
    let mut raw = raw_empty();
    raw.host_ip = some("10.0.0.1");
    raw.profile = some("split");
    raw.http_port = Some(8080);
    let s = section_from_raw(raw).unwrap();
    assert_eq!(s.host_ip, some("10.0.0.1"));
    assert_eq!(s.profile, Profile::Split);
    assert_eq!((s.mixed_port, s.socks_port, s.http_port), (7890, 7891, 8080));
    let mut bad = raw_empty();
    bad.profile = some("both");
    assert!(section_from_raw(bad).is_none());
    let mut bad = raw_empty();
    bad.socks_port = Some(70000);
    assert!(section_from_raw(bad).is_none());
}

#[test]
fn unreadable_config_gives_defaults() {
    let mut bad = raw_empty();
    bad.mixed_port = Some(-5);
    bad.host_ip = some("9.9.9.9");
    for parsed in [None, Some(None), Some(Some(bad))] {
        let c: Config = load_config(parsed);
        assert_eq!(c.proxy.host_ip, None);
        assert_eq!(c.proxy.profile, Profile::Mixed);
        assert_eq!((c.proxy.mixed_port, c.proxy.socks_port, c.proxy.http_port), (7890, 7891, 7892));
    }
}

#[test]
fn default_template_reads_back_as_defaults() {
    let table: toml::Table = toml::from_str(DEFAULT_TEMPLATE).unwrap();
    let proxy = table.get("proxy").and_then(|v| v.as_table()).unwrap();
    let raw = RawSection {
        host_ip: proxy.get("host_ip").and_then(|v| v.as_str()).map(|s| s.to_string()),
        profile: proxy.get("profile").and_then(|v| v.as_str()).map(|s| s.to_string()),
        mixed_port: proxy.get("mixed_port").and_then(|v| v.as_integer()),
        socks_port: proxy.get("socks_port").and_then(|v| v.as_integer()),
        http_port: proxy.get("http_port").and_then(|v| v.as_integer()),
    };
    assert_eq!(proxy.len(), 4);
    let c = load_config(Some(Some(raw)));
    let d = ProxySection::default();
    assert_eq!(c.proxy.host_ip, d.host_ip);
    assert_eq!(c.proxy.host_ip, None);
    assert_eq!(c.proxy.profile, Profile::Mixed);
    assert_eq!((c.proxy.mixed_port, c.proxy.socks_port, c.proxy.http_port), (7890, 7891, 7892));
}
