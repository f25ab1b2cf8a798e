//! Effective ports from a profile and the configured port numbers.
use vstd::prelude::*;
use crate::config::{Profile, ProxySection};

verus! {

/// The ports actually used for each protocol.
#[derive(Clone, Copy, Debug, PartialEq, Eq, Structural)]
pub struct EffPorts {
    pub http: u16,
    pub socks: u16,
}

/// The profile in force: the override when given, else the configured one.
pub open spec fn chosen_profile(cfg: ProxySection, override_profile: Option<Profile>) -> Profile {
    match override_profile {
        Some(p) => p,
        None => cfg.profile,
    }
}

/// What the ports are under a profile: the mixed port twice, or the two
/// split ports.
pub open spec fn ports_of(cfg: ProxySection, profile: Profile) -> EffPorts {
    match profile {
        Profile::Mixed => EffPorts { http: cfg.mixed_port, socks: cfg.mixed_port },
        Profile::Split => EffPorts { http: cfg.http_port, socks: cfg.socks_port },
    }
}

/// Computes the effective ports of a configuration, with an optional
/// profile that takes precedence over the configured one.
pub fn effective_ports(cfg: &ProxySection, override_profile: Option<Profile>) -> (r: EffPorts)
    ensures
        r == ports_of(*cfg, chosen_profile(*cfg, override_profile)),
        chosen_profile(*cfg, override_profile) == Profile::Mixed ==> (r.http == cfg.mixed_port
            && r.socks == cfg.mixed_port),
        chosen_profile(*cfg, override_profile) == Profile::Split ==> (r.http == cfg.http_port
            && r.socks == cfg.socks_port),
{
    let p = match override_profile {
        Some(p) => p,
        None => cfg.profile,
    };
    match p {
        Profile::Mixed => EffPorts { http: cfg.mixed_port, socks: cfg.mixed_port },
        Profile::Split => EffPorts { http: cfg.http_port, socks: cfg.socks_port },
    }
}

} // verus!
