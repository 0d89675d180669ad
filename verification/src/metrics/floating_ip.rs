//! The floating IP family: one presence series per floating IP.
//!
//! Every fetched floating IP is reported as the value 1 under the labels
//! `(ip, region)`.  A successful fetch replaces the family wholesale, so
//! an address released between polls stops being reported.

use crate::api::FloatingIp;
use crate::api::FloatingIps;
use crate::api::GetResouceError;
use crate::metrics::GaugeFamily;
use crate::metrics::Observation;
use crate::metrics::SyncResult;
use crate::metrics::obs_views;
use crate::metrics::series_map;
use vstd::prelude::*;

verus! {

/// The gauge family of the floating IP kind.
#[derive(Debug, PartialEq)]
pub struct FloatingIpMetrics {
    /// The `floating_ip` family: presence per `(ip, region)`.
    pub floating_ip: GaugeFamily<i64>,
}

impl View for FloatingIpMetrics {
    type V = Map<Seq<Seq<char>>, i64>;

    open spec fn view(&self) -> Map<Seq<Seq<char>>, i64> {
        self.floating_ip@
    }
}

/// The label tuple of one floating IP: its address and its region slug.
pub open spec fn floating_ip_label_tuple(f: FloatingIp) -> Seq<Seq<char>> {
    seq![f.ip@, f.region.slug@]
}

/// The labeled values one fetch of floating IPs maps to: presence 1 under
/// each floating IP's label tuple, in fetch order.
pub open spec fn floating_ip_obs_seq(fs: Seq<FloatingIp>) -> Seq<(Seq<Seq<char>>, i64)> {
    fs.map_values(|f: FloatingIp| (floating_ip_label_tuple(f), 1i64))
}

/// The family contents one fetch of floating IPs maps to.
pub open spec fn floating_ip_series_of(fs: Seq<FloatingIp>) -> Map<Seq<Seq<char>>, i64> {
    series_map(floating_ip_obs_seq(fs))
}

/// What one pass does to the floating IP family: a successful fetch
/// replaces it wholesale, a failed fetch leaves it untouched.
pub open spec fn floating_ip_apply(
    pre: Map<Seq<Seq<char>>, i64>,
    fetched: Result<FloatingIps, GetResouceError>,
) -> Map<Seq<Seq<char>>, i64> {
    match fetched {
        Ok(c) => floating_ip_series_of(c.floating_ips@),
        Err(_) => pre,
    }
}

/// The result one pass reports for the floating IP kind.
pub open spec fn floating_ip_sync_result(fetched: Result<FloatingIps, GetResouceError>) -> SyncResult {
    match fetched {
        Ok(c) => SyncResult::Applied(c.floating_ips@.len() as usize),
        Err(e) => SyncResult::Failed(e),
    }
}

/// Creates the floating IP family, empty.
pub fn register_metrics() -> (r: FloatingIpMetrics)
    ensures
        r@ == Map::<Seq<Seq<char>>, i64>::empty(),
{
    FloatingIpMetrics { floating_ip: GaugeFamily::new() }
}

/// Maps a fetched collection to its observations.  Pure and total: every
/// record maps, whatever it holds.
pub fn map_observations(collection: &FloatingIps) -> (r: Vec<Observation<i64>>)
    ensures
        obs_views(r@) == floating_ip_obs_seq(collection.floating_ips@),
{
    let mut obs: Vec<Observation<i64>> = Vec::new();
    let mut i: usize = 0;
    while i < collection.floating_ips.len()
        invariant
            i <= collection.floating_ips@.len(),
            obs_views(obs@) =~= floating_ip_obs_seq(collection.floating_ips@.take(i as int)),
        decreases collection.floating_ips@.len() - i,
    {
        let f = &collection.floating_ips[i];
        let mut labels: Vec<String> = Vec::new();
        labels.push(f.ip.clone());
        labels.push(f.region.slug.clone());
        proof {
            assert(labels.deep_view() =~= floating_ip_label_tuple(
                collection.floating_ips@[i as int],
            ));
        }
        let ghost lv = labels.deep_view();
        let ghost prev = obs@;
        obs.push(Observation { labels, value: 1i64 });
        proof {
            let fs = collection.floating_ips@;
            let m = floating_ip_obs_seq(fs.take(i + 1));
            assert(obs_views(prev).len() == prev.len());
            assert(floating_ip_obs_seq(fs.take(i as int)).len() == i);
            assert(prev.len() == i);
            assert(obs@.len() == i + 1);
            assert(m.len() == i + 1);
            assert forall|k: int| 0 <= k < i + 1 implies obs_views(obs@)[k] == m[k] by {
                if k < i {
                    assert(obs@[k] == prev[k]);
                    assert(obs_views(prev)[k] == floating_ip_obs_seq(fs.take(i as int))[k]);
                    assert(fs.take(i as int)[k] == fs.take(i + 1)[k]);
                } else {
                    assert(obs@[k]@ == (lv, 1i64));
                    assert(m[k] == (floating_ip_label_tuple(fs[k]), 1i64));
                }
            }
            assert(obs_views(obs@) =~= m);
        }
        i = i + 1;
    }
    proof {
        let fs = collection.floating_ips@;
        assert(fs.take(fs.len() as int) =~= fs);
    }
    obs
}

/// One pass for the floating IP kind: replaces the family from a
/// successful fetch, leaves it untouched on a failed one.
pub fn update(metrics: &mut FloatingIpMetrics, fetched: Result<FloatingIps, GetResouceError>) -> (r:
    SyncResult)
    ensures
        final(metrics)@ == floating_ip_apply(old(metrics)@, fetched),
        r == floating_ip_sync_result(fetched),
{
    match fetched {
        Ok(c) => {
            let n = c.floating_ips.len();
            let obs = map_observations(&c);
            metrics.floating_ip.apply(obs);
            SyncResult::Applied(n)
        },
        Err(e) => SyncResult::Failed(e),
    }
}

} // verus!
