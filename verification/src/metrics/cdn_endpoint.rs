//! The CDN endpoint family: one presence series per endpoint.
//!
//! Every fetched endpoint is reported as the value 1 under the labels
//! `(id, origin, endpoint, ttl, custom_domain)`, the TTL formatted as its
//! decimal digit string.  A successful fetch replaces the family
//! wholesale, so an endpoint removed between polls stops being reported.

use crate::api::CdnEndpoint;
use crate::api::CdnEndpoints;
use crate::api::GetResouceError;
use crate::decimal::u64_dec_str;
use crate::decimal::u64_to_string;
use crate::metrics::GaugeFamily;
use crate::metrics::Observation;
use crate::metrics::SyncResult;
use crate::metrics::obs_views;
use crate::metrics::series_map;
use vstd::prelude::*;

verus! {

/// The gauge family of the CDN endpoint kind.
#[derive(Debug, PartialEq)]
pub struct CdnEndpointMetrics {
    /// The `cdn_endpoint` family: presence per
    /// `(id, origin, endpoint, ttl, custom_domain)`.
    pub cdn_endpoint: GaugeFamily<i64>,
}

impl View for CdnEndpointMetrics {
    type V = Map<Seq<Seq<char>>, i64>;

    open spec fn view(&self) -> Map<Seq<Seq<char>>, i64> {
        self.cdn_endpoint@
    }
}

/// The label tuple of one CDN endpoint: its id, origin, address, TTL (as
/// a decimal digit string) and custom domain.
pub open spec fn cdn_endpoint_label_tuple(e: CdnEndpoint) -> Seq<Seq<char>> {
    seq![e.id@, e.origin@, e.endpoint@, u64_dec_str(e.ttl as nat), e.custom_domain@]
}

/// The labeled values one fetch of CDN endpoints maps to: presence 1
/// under each endpoint's label tuple, in fetch order.
pub open spec fn cdn_endpoint_obs_seq(es: Seq<CdnEndpoint>) -> Seq<(Seq<Seq<char>>, i64)> {
    es.map_values(|e: CdnEndpoint| (cdn_endpoint_label_tuple(e), 1i64))
}

/// The family contents one fetch of CDN endpoints maps to.
pub open spec fn cdn_endpoint_series_of(es: Seq<CdnEndpoint>) -> Map<Seq<Seq<char>>, i64> {
    series_map(cdn_endpoint_obs_seq(es))
}

/// What one pass does to the CDN endpoint family: a successful fetch
/// replaces it wholesale, a failed fetch leaves it untouched.
pub open spec fn cdn_endpoint_apply(
    pre: Map<Seq<Seq<char>>, i64>,
    fetched: Result<CdnEndpoints, GetResouceError>,
) -> Map<Seq<Seq<char>>, i64> {
    match fetched {
        Ok(c) => cdn_endpoint_series_of(c.endpoints@),
        Err(_) => pre,
    }
}

/// The result one pass reports for the CDN endpoint kind.
pub open spec fn cdn_endpoint_sync_result(fetched: Result<CdnEndpoints, GetResouceError>) -> SyncResult {
    match fetched {
        Ok(c) => SyncResult::Applied(c.endpoints@.len() as usize),
        Err(e) => SyncResult::Failed(e),
    }
}

/// Creates the CDN endpoint family, empty.
pub fn register_metrics() -> (r: CdnEndpointMetrics)
    ensures
        r@ == Map::<Seq<Seq<char>>, i64>::empty(),
{
    CdnEndpointMetrics { cdn_endpoint: GaugeFamily::new() }
}

/// Maps a fetched collection to its observations.  Pure and total: every
/// record maps, whatever it holds.
pub fn map_observations(collection: &CdnEndpoints) -> (r: Vec<Observation<i64>>)
    ensures
        obs_views(r@) == cdn_endpoint_obs_seq(collection.endpoints@),
{
    let mut obs: Vec<Observation<i64>> = Vec::new();
    let mut i: usize = 0;
    while i < collection.endpoints.len()
        invariant
            i <= collection.endpoints@.len(),
            obs_views(obs@) =~= cdn_endpoint_obs_seq(collection.endpoints@.take(i as int)),
        decreases collection.endpoints@.len() - i,
    {
        let e = &collection.endpoints[i];
        let mut labels: Vec<String> = Vec::new();
        labels.push(e.id.clone());
        labels.push(e.origin.clone());
        labels.push(e.endpoint.clone());
        labels.push(u64_to_string(e.ttl));
        labels.push(e.custom_domain.clone());
        proof {
            assert(labels.deep_view() =~= cdn_endpoint_label_tuple(collection.endpoints@[i as int]));
        }
        let ghost lv = labels.deep_view();
        let ghost prev = obs@;
        obs.push(Observation { labels, value: 1i64 });
        proof {
            let es = collection.endpoints@;
            let m = cdn_endpoint_obs_seq(es.take(i + 1));
            assert(obs_views(prev).len() == prev.len());
            assert(cdn_endpoint_obs_seq(es.take(i as int)).len() == i);
            assert(prev.len() == i);
            assert(obs@.len() == i + 1);
            assert(m.len() == i + 1);
            assert forall|k: int| 0 <= k < i + 1 implies obs_views(obs@)[k] == m[k] by {
                if k < i {
                    assert(obs@[k] == prev[k]);
                    assert(obs_views(prev)[k] == cdn_endpoint_obs_seq(es.take(i as int))[k]);
                    assert(es.take(i as int)[k] == es.take(i + 1)[k]);
                } else {
                    assert(obs@[k]@ == (lv, 1i64));
                    assert(m[k] == (cdn_endpoint_label_tuple(es[k]), 1i64));
                }
            }
            assert(obs_views(obs@) =~= m);
        }
        i = i + 1;
    }
    proof {
        let es = collection.endpoints@;
        assert(es.take(es.len() as int) =~= es);
    }
    obs
}

/// One pass for the CDN endpoint kind: replaces the family from a
/// successful fetch, leaves it untouched on a failed one.
pub fn update(metrics: &mut CdnEndpointMetrics, fetched: Result<CdnEndpoints, GetResouceError>) -> (r:
    SyncResult)
    ensures
        final(metrics)@ == cdn_endpoint_apply(old(metrics)@, fetched),
        r == cdn_endpoint_sync_result(fetched),
{
    match fetched {
        Ok(c) => {
            let n = c.endpoints.len();
            let obs = map_observations(&c);
            metrics.cdn_endpoint.apply(obs);
            SyncResult::Applied(n)
        },
        Err(e) => SyncResult::Failed(e),
    }
}

} // verus!
