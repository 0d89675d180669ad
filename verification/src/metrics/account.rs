//! The account gauges: the droplet, floating IP and volume limits.
//!
//! The account kind is a singleton: its three gauges carry no labels, so a
//! successful fetch simply overwrites them in place and there is no label
//! tuple to retire.

use crate::api::Account;
use crate::api::GetResouceError;
use crate::metrics::SyncResult;
use crate::metrics::saturating_i64;
use crate::metrics::to_saturating_i64;
use vstd::prelude::*;

verus! {

/// The three singleton account gauges.
#[derive(Clone, Copy, Debug, PartialEq, Eq, Structural)]
pub struct AccountMetrics {
    /// The number of droplets the account is allowed to have.
    pub droplet_limit: i64,
    /// The number of floating IPs the account is allowed to have.
    pub floating_ip_limit: i64,
    /// The number of volumes the account is allowed to have.
    pub volume_limit: i64,
}

/// The account gauges a fetched account maps to.
pub open spec fn account_gauges_of(a: Account) -> AccountMetrics {
    AccountMetrics {
        droplet_limit: saturating_i64(a.droplet_limit),
        floating_ip_limit: saturating_i64(a.floating_ip_limit),
        volume_limit: saturating_i64(a.volume_limit),
    }
}

/// What one pass does to the account gauges: a successful fetch overwrites
/// the three limits in place, a failed fetch leaves them untouched.
pub open spec fn account_apply(
    pre: AccountMetrics,
    fetched: Result<Account, GetResouceError>,
) -> AccountMetrics {
    match fetched {
        Ok(a) => account_gauges_of(a),
        Err(_) => pre,
    }
}

/// The result one pass reports for the account kind.
pub open spec fn account_sync_result(fetched: Result<Account, GetResouceError>) -> SyncResult {
    match fetched {
        Ok(_) => SyncResult::Applied(1),
        Err(e) => SyncResult::Failed(e),
    }
}

/// The initial value of the account gauges, before any successful poll.
pub open spec fn initial_account_metrics() -> AccountMetrics {
    AccountMetrics { droplet_limit: 0, floating_ip_limit: 0, volume_limit: 0 }
}

/// Creates the account gauges with their initial zero values.
pub fn register_metrics() -> (r: AccountMetrics)
    ensures
        r == initial_account_metrics(),
{
    AccountMetrics { droplet_limit: 0, floating_ip_limit: 0, volume_limit: 0 }
}

/// One pass for the account kind: overwrites the limit gauges from a
/// successful fetch, leaves them untouched on a failed one.
pub fn update(metrics: &mut AccountMetrics, fetched: Result<Account, GetResouceError>) -> (r:
    SyncResult)
    ensures
        *final(metrics) == account_apply(*old(metrics), fetched),
        r == account_sync_result(fetched),
{
    match fetched {
        Ok(a) => {
            metrics.droplet_limit = to_saturating_i64(a.droplet_limit);
            metrics.floating_ip_limit = to_saturating_i64(a.floating_ip_limit);
            metrics.volume_limit = to_saturating_i64(a.volume_limit);
            SyncResult::Applied(1)
        },
        Err(e) => SyncResult::Failed(e),
    }
}

} // verus!
