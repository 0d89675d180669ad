//! The VPC family: one presence series per VPC.
//!
//! Every fetched VPC is reported as the value 1 under the labels
//! `(id, name, region, ip_range)`.  A successful fetch replaces the
//! family wholesale, so a VPC deleted between polls stops being reported.

use crate::api::GetResouceError;
use crate::api::VPC;
use crate::api::VPCs;
use crate::metrics::GaugeFamily;
use crate::metrics::Observation;
use crate::metrics::SyncResult;
use crate::metrics::obs_views;
use crate::metrics::series_map;
use vstd::prelude::*;

verus! {

/// The gauge family of the VPC kind.
#[derive(Debug, PartialEq)]
pub struct VpcMetrics {
    /// The `vpc` family: presence per `(id, name, region, ip_range)`.
    pub vpc: GaugeFamily<i64>,
}

impl View for VpcMetrics {
    type V = Map<Seq<Seq<char>>, i64>;

    open spec fn view(&self) -> Map<Seq<Seq<char>>, i64> {
        self.vpc@
    }
}

/// The label tuple of one VPC: its id, name, region and IP range.
pub open spec fn vpc_label_tuple(v: VPC) -> Seq<Seq<char>> {
    seq![v.id@, v.name@, v.region@, v.ip_range@]
}

/// The labeled values one fetch of VPCs maps to: presence 1 under each
/// VPC's label tuple, in fetch order.
pub open spec fn vpc_obs_seq(vs: Seq<VPC>) -> Seq<(Seq<Seq<char>>, i64)> {
    vs.map_values(|v: VPC| (vpc_label_tuple(v), 1i64))
}

/// The family contents one fetch of VPCs maps to.
pub open spec fn vpc_series_of(vs: Seq<VPC>) -> Map<Seq<Seq<char>>, i64> {
    series_map(vpc_obs_seq(vs))
}

/// What one pass does to the VPC family: a successful fetch replaces it
/// wholesale, a failed fetch leaves it untouched.
pub open spec fn vpc_apply(
    pre: Map<Seq<Seq<char>>, i64>,
    fetched: Result<VPCs, GetResouceError>,
) -> Map<Seq<Seq<char>>, i64> {
    match fetched {
        Ok(c) => vpc_series_of(c.vpcs@),
        Err(_) => pre,
    }
}

/// The result one pass reports for the VPC kind.
pub open spec fn vpc_sync_result(fetched: Result<VPCs, GetResouceError>) -> SyncResult {
    match fetched {
        Ok(c) => SyncResult::Applied(c.vpcs@.len() as usize),
        Err(e) => SyncResult::Failed(e),
    }
}

/// Creates the VPC family, empty.
pub fn register_metrics() -> (r: VpcMetrics)
    ensures
        r@ == Map::<Seq<Seq<char>>, i64>::empty(),
{
    VpcMetrics { vpc: GaugeFamily::new() }
}

/// Maps a fetched collection to its observations.  Pure and total: every
/// record maps, whatever it holds.
pub fn map_observations(collection: &VPCs) -> (r: Vec<Observation<i64>>)
    ensures
        obs_views(r@) == vpc_obs_seq(collection.vpcs@),
{
    let mut obs: Vec<Observation<i64>> = Vec::new();
    let mut i: usize = 0;
    while i < collection.vpcs.len()
        invariant
            i <= collection.vpcs@.len(),
            obs_views(obs@) =~= vpc_obs_seq(collection.vpcs@.take(i as int)),
        decreases collection.vpcs@.len() - i,
    {
        let v = &collection.vpcs[i];
        let mut labels: Vec<String> = Vec::new();
        labels.push(v.id.clone());
        labels.push(v.name.clone());
        labels.push(v.region.clone());
        labels.push(v.ip_range.clone());
        proof {
            assert(labels.deep_view() =~= vpc_label_tuple(collection.vpcs@[i as int]));
        }
        let ghost lv = labels.deep_view();
        let ghost prev = obs@;
        obs.push(Observation { labels, value: 1i64 });
        proof {
            let vs = collection.vpcs@;
            let m = vpc_obs_seq(vs.take(i + 1));
            assert(obs_views(prev).len() == prev.len());
            assert(vpc_obs_seq(vs.take(i as int)).len() == i);
            assert(prev.len() == i);
            assert(obs@.len() == i + 1);
            assert(m.len() == i + 1);
            assert forall|k: int| 0 <= k < i + 1 implies obs_views(obs@)[k] == m[k] by {
                if k < i {
                    assert(obs@[k] == prev[k]);
                    assert(obs_views(prev)[k] == vpc_obs_seq(vs.take(i as int))[k]);
                    assert(vs.take(i as int)[k] == vs.take(i + 1)[k]);
                } else {
                    assert(obs@[k]@ == (lv, 1i64));
                    assert(m[k] == (vpc_label_tuple(vs[k]), 1i64));
                }
            }
            assert(obs_views(obs@) =~= m);
        }
        i = i + 1;
    }
    proof {
        let vs = collection.vpcs@;
        assert(vs.take(vs.len() as int) =~= vs);
    }
    obs
}

/// One pass for the VPC kind: replaces the family from a successful
/// fetch, leaves it untouched on a failed one.
pub fn update(metrics: &mut VpcMetrics, fetched: Result<VPCs, GetResouceError>) -> (r: SyncResult)
    ensures
        final(metrics)@ == vpc_apply(old(metrics)@, fetched),
        r == vpc_sync_result(fetched),
{
    match fetched {
        Ok(c) => {
            let n = c.vpcs.len();
            let obs = map_observations(&c);
            metrics.vpc.apply(obs);
            SyncResult::Applied(n)
        },
        Err(e) => SyncResult::Failed(e),
    }
}

} // verus!
