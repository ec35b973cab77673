//! Health aggregation across collaborating services.

use vstd::prelude::*;
use vstd::string::StringExecFns;
use crate::text::{u64_to_dec, dec_digits};

verus! {

/// What probing one service's health endpoint yielded: an HTTP status code,
/// or no response at all.
pub enum ProbeOutcome {
    Response(u16),
    Unreachable(String),
}

/// One service's health as reported outward.
pub struct ServiceHealth {
    /// Service name.
    pub name: String,
    /// Service address.
    pub url: String,
    /// Whether the service answered successfully.
    pub healthy: bool,
    /// The failure description, when unhealthy.
    pub error: Option<String>,
}

/// Classifies one probe outcome: a status in the 200 range is healthy, any
/// other status reports `HTTP <code>`, and no response reports its cause.
pub fn check_service_health(name: String, url: String, probe: ProbeOutcome) -> (r: ServiceHealth)
    ensures
        r.name == name,
        r.url == url,
        match probe {
            ProbeOutcome::Response(code) => r.healthy == (200 <= code < 300) && (r.healthy
                ==> r.error is None) && (!r.healthy ==> (r.error matches Some(m) && m@ == "HTTP "@
                + dec_digits(code as nat))),
            ProbeOutcome::Unreachable(msg) => !r.healthy && r.error == Some(msg),
        },
{
    match probe {
        ProbeOutcome::Response(code) => {
            if 200 <= code && code < 300 {
                ServiceHealth { name, url, healthy: true, error: None }
            } else {
                let mut msg: String = "HTTP ".to_owned();
                msg.append(u64_to_dec(code as u64).as_str());
                ServiceHealth { name, url, healthy: false, error: Some(msg) }
            }
        },
        ProbeOutcome::Unreachable(msg) => ServiceHealth { name, url, healthy: false, error: Some(
            msg,
        ) },
    }
}

/// Whether every probed service is healthy.
pub open spec fn all_healthy(s: Seq<ServiceHealth>) -> bool {
    forall|i: int| 0 <= i < s.len() ==> (#[trigger] s[i]).healthy
}

/// Aggregated health across services.
pub struct AggregatedHealth {
    /// Overall status: `healthy` when every service is, else `degraded`.
    pub status: String,
    /// Timestamp of the aggregation.
    pub timestamp: String,
    /// Each service's health.
    pub services: Vec<ServiceHealth>,
}

/// Aggregates per-service health: the overall status is `healthy` exactly
/// when every service answered healthy, else `degraded`; the snapshot
/// carries a fresh timestamp.
pub fn aggregated_health(services: Vec<ServiceHealth>) -> (r: AggregatedHealth)
    ensures
        all_healthy(services@) ==> r.status@ == "healthy"@,
        !all_healthy(services@) ==> r.status@ == "degraded"@,
        r.services == services,
        r.timestamp@.len() > 0,
{
    let mut ok: bool = true;
    let mut i: usize = 0;
    while i < services.len()
        invariant
            i <= services@.len(),
            ok == all_healthy(services@.take(i as int)),
        decreases services@.len() - i,
    {
        let ghost pre = services@.take(i as int);
        if !services[i].healthy {
            ok = false;
        }
        i = i + 1;
        proof {
            let cur = services@.take(i as int);
            assert forall|j: int| 0 <= j < cur.len() implies cur[j] == services@[j] by {}
            if ok {
                assert forall|j: int| 0 <= j < cur.len() implies (#[trigger] cur[j]).healthy by {
                    if j < pre.len() {
                        assert(pre[j] == services@[j]);
                    }
                }
            } else {
                if all_healthy(cur) {
                    if !all_healthy(pre) {
                        let j = choose|j: int| 0 <= j < pre.len() && !(#[trigger] pre[j]).healthy;
                        assert(cur[j] == services@[j]);
                        assert(pre[j] == services@[j]);
                    } else {
                        assert(cur[i - 1] == services@[i - 1]);
                    }
                    assert(false);
                }
            }
        }
    }
    proof {
        assert(services@.take(services@.len() as int) =~= services@);
    }
    let status: String = if ok {
        "healthy".to_owned()
    } else {
        "degraded".to_owned()
    };
    AggregatedHealth { status, timestamp: crate::clock::now_rfc3339(), services }
}

} // verus!
