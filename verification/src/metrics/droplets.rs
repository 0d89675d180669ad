//! The droplet families: one series per droplet in each of seven gauges.
//!
//! Every fetched droplet is reported under the labels `(id, name, region)`
//! — the id formatted as its decimal digit string — in the families
//! `droplet_up` (1 when the droplet's status is active, else 0),
//! `droplet_vcpus`, `droplet_memory`, `droplet_disk`, `droplet_transfer`,
//! `droplet_price_monthly` and `droplet_price_hourly`.  A successful
//! fetch replaces all seven families wholesale, so a droplet terminated
//! between polls stops being reported; a failed fetch leaves all seven
//! untouched.

use crate::api::Droplet;
use crate::api::DropletStatus;
use crate::api::Droplets;
use crate::api::GetResouceError;
use crate::decimal::FixedDec;
use crate::decimal::u64_dec_str;
use crate::decimal::u64_to_string;
use crate::metrics::GaugeFamily;
use crate::metrics::Observation;
use crate::metrics::SyncResult;
use crate::metrics::lemma_obs_views_push;
use crate::metrics::obs_views;
use crate::metrics::saturating_i64;
use crate::metrics::series_map;
use crate::metrics::to_saturating_i64;
use vstd::prelude::*;

verus! {

/// The seven gauge families of the droplet kind.
#[derive(Debug, PartialEq)]
pub struct DropletMetrics {
    /// The `droplet_up` family: 1 when the droplet is active, else 0.
    pub up: GaugeFamily<i64>,
    /// The `droplet_vcpus` family.
    pub vcpus: GaugeFamily<i64>,
    /// The `droplet_memory` family.
    pub memory: GaugeFamily<i64>,
    /// The `droplet_disk` family.
    pub disk: GaugeFamily<i64>,
    /// The `droplet_transfer` family.
    pub transfer: GaugeFamily<FixedDec>,
    /// The `droplet_price_monthly` family.
    pub price_monthly: GaugeFamily<FixedDec>,
    /// The `droplet_price_hourly` family.
    pub price_hourly: GaugeFamily<FixedDec>,
}

/// The contents of the seven droplet families.
pub struct DropletMetricsView {
    /// Contents of the `droplet_up` family.
    pub up: Map<Seq<Seq<char>>, i64>,
    /// Contents of the `droplet_vcpus` family.
    pub vcpus: Map<Seq<Seq<char>>, i64>,
    /// Contents of the `droplet_memory` family.
    pub memory: Map<Seq<Seq<char>>, i64>,
    /// Contents of the `droplet_disk` family.
    pub disk: Map<Seq<Seq<char>>, i64>,
    /// Contents of the `droplet_transfer` family.
    pub transfer: Map<Seq<Seq<char>>, FixedDec>,
    /// Contents of the `droplet_price_monthly` family.
    pub price_monthly: Map<Seq<Seq<char>>, FixedDec>,
    /// Contents of the `droplet_price_hourly` family.
    pub price_hourly: Map<Seq<Seq<char>>, FixedDec>,
}

impl View for DropletMetrics {
    type V = DropletMetricsView;

    open spec fn view(&self) -> DropletMetricsView {
        DropletMetricsView {
            up: self.up@,
            vcpus: self.vcpus@,
            memory: self.memory@,
            disk: self.disk@,
            transfer: self.transfer@,
            price_monthly: self.price_monthly@,
            price_hourly: self.price_hourly@,
        }
    }
}

/// The label tuple of one droplet: its id as a decimal digit string, its
/// name, and its region slug.
pub open spec fn droplet_label_tuple(d: Droplet) -> Seq<Seq<char>> {
    seq![u64_dec_str(d.id as nat), d.name@, d.region.slug@]
}

/// The `droplet_up` value of one droplet: 1 exactly when it is active.
pub open spec fn droplet_up_value(d: Droplet) -> i64 {
    if d.status is Active {
        1
    } else {
        0
    }
}

/// The labeled `droplet_up` values of one fetch, in fetch order.
pub open spec fn droplet_up_obs_seq(ds: Seq<Droplet>) -> Seq<(Seq<Seq<char>>, i64)> {
    ds.map_values(|d: Droplet| (droplet_label_tuple(d), droplet_up_value(d)))
}

/// The labeled `droplet_vcpus` values of one fetch, in fetch order.
pub open spec fn droplet_vcpus_obs_seq(ds: Seq<Droplet>) -> Seq<(Seq<Seq<char>>, i64)> {
    ds.map_values(|d: Droplet| (droplet_label_tuple(d), saturating_i64(d.vcpus)))
}

/// The labeled `droplet_memory` values of one fetch, in fetch order.
pub open spec fn droplet_memory_obs_seq(ds: Seq<Droplet>) -> Seq<(Seq<Seq<char>>, i64)> {
    ds.map_values(|d: Droplet| (droplet_label_tuple(d), saturating_i64(d.memory)))
}

/// The labeled `droplet_disk` values of one fetch, in fetch order.
pub open spec fn droplet_disk_obs_seq(ds: Seq<Droplet>) -> Seq<(Seq<Seq<char>>, i64)> {
    ds.map_values(|d: Droplet| (droplet_label_tuple(d), saturating_i64(d.disk)))
}

/// The labeled `droplet_transfer` values of one fetch, in fetch order.
pub open spec fn droplet_transfer_obs_seq(ds: Seq<Droplet>) -> Seq<(Seq<Seq<char>>, FixedDec)> {
    ds.map_values(|d: Droplet| (droplet_label_tuple(d), d.size.transfer))
}

/// The labeled `droplet_price_monthly` values of one fetch, in fetch order.
pub open spec fn droplet_price_monthly_obs_seq(ds: Seq<Droplet>) -> Seq<(Seq<Seq<char>>, FixedDec)> {
    ds.map_values(|d: Droplet| (droplet_label_tuple(d), d.size.price_monthly))
}

/// The labeled `droplet_price_hourly` values of one fetch, in fetch order.
pub open spec fn droplet_price_hourly_obs_seq(ds: Seq<Droplet>) -> Seq<(Seq<Seq<char>>, FixedDec)> {
    ds.map_values(|d: Droplet| (droplet_label_tuple(d), d.size.price_hourly))
}

/// The contents of the seven droplet families after applying one fetch.
pub open spec fn droplet_families_of(ds: Seq<Droplet>) -> DropletMetricsView {
    DropletMetricsView {
        up: series_map(droplet_up_obs_seq(ds)),
        vcpus: series_map(droplet_vcpus_obs_seq(ds)),
        memory: series_map(droplet_memory_obs_seq(ds)),
        disk: series_map(droplet_disk_obs_seq(ds)),
        transfer: series_map(droplet_transfer_obs_seq(ds)),
        price_monthly: series_map(droplet_price_monthly_obs_seq(ds)),
        price_hourly: series_map(droplet_price_hourly_obs_seq(ds)),
    }
}

/// All seven droplet families, empty.
pub open spec fn empty_droplet_metrics() -> DropletMetricsView {
    DropletMetricsView {
        up: Map::empty(),
        vcpus: Map::empty(),
        memory: Map::empty(),
        disk: Map::empty(),
        transfer: Map::empty(),
        price_monthly: Map::empty(),
        price_hourly: Map::empty(),
    }
}

/// What one pass does to the droplet families: a successful fetch
/// replaces all seven wholesale, a failed fetch leaves all seven
/// untouched.
pub open spec fn droplets_apply(
    pre: DropletMetricsView,
    fetched: Result<Droplets, GetResouceError>,
) -> DropletMetricsView {
    match fetched {
        Ok(c) => droplet_families_of(c.droplets@),
        Err(_) => pre,
    }
}

/// The result one pass reports for the droplet kind.
pub open spec fn droplets_sync_result(fetched: Result<Droplets, GetResouceError>) -> SyncResult {
    match fetched {
        Ok(c) => SyncResult::Applied(c.droplets@.len() as usize),
        Err(e) => SyncResult::Failed(e),
    }
}

/// Creates the seven droplet families, empty.
pub fn register_metrics() -> (r: DropletMetrics)
    ensures
        r@ == empty_droplet_metrics(),
{
    DropletMetrics {
        up: GaugeFamily::new(),
        vcpus: GaugeFamily::new(),
        memory: GaugeFamily::new(),
        disk: GaugeFamily::new(),
        transfer: GaugeFamily::new(),
        price_monthly: GaugeFamily::new(),
        price_hourly: GaugeFamily::new(),
    }
}

/// Empties every droplet family.
pub fn clear_metrics(metrics: &mut DropletMetrics)
    ensures
        final(metrics)@ == empty_droplet_metrics(),
{
    metrics.up.reset();
    metrics.vcpus.reset();
    metrics.memory.reset();
    metrics.disk.reset();
    metrics.transfer.reset();
    metrics.price_monthly.reset();
    metrics.price_hourly.reset();
}

/// The label values of one droplet, in the order of the label keys.
pub fn droplet_labels(d: &Droplet) -> (r: Vec<String>)
    ensures
        r.deep_view() == droplet_label_tuple(*d),
{
    let mut labels: Vec<String> = Vec::new();
    labels.push(u64_to_string(d.id));
    labels.push(d.name.clone());
    labels.push(d.region.slug.clone());
    proof {
        assert(labels.deep_view() =~= droplet_label_tuple(*d));
    }
    labels
}

/// The observations of one fetch of droplets, one list per family.
pub struct DropletObservations {
    /// Observations for the `droplet_up` family.
    pub up: Vec<Observation<i64>>,
    /// Observations for the `droplet_vcpus` family.
    pub vcpus: Vec<Observation<i64>>,
    /// Observations for the `droplet_memory` family.
    pub memory: Vec<Observation<i64>>,
    /// Observations for the `droplet_disk` family.
    pub disk: Vec<Observation<i64>>,
    /// Observations for the `droplet_transfer` family.
    pub transfer: Vec<Observation<FixedDec>>,
    /// Observations for the `droplet_price_monthly` family.
    pub price_monthly: Vec<Observation<FixedDec>>,
    /// Observations for the `droplet_price_hourly` family.
    pub price_hourly: Vec<Observation<FixedDec>>,
}

/// Maps a fetched collection to its observations, one list per family.
/// Pure and total: every record maps, whatever it holds — a status other
/// than active simply maps to a `droplet_up` value of 0.
pub fn map_observations(collection: &Droplets) -> (r: DropletObservations)
    ensures
        obs_views(r.up@) == droplet_up_obs_seq(collection.droplets@),
        obs_views(r.vcpus@) == droplet_vcpus_obs_seq(collection.droplets@),
        obs_views(r.memory@) == droplet_memory_obs_seq(collection.droplets@),
        obs_views(r.disk@) == droplet_disk_obs_seq(collection.droplets@),
        obs_views(r.transfer@) == droplet_transfer_obs_seq(collection.droplets@),
        obs_views(r.price_monthly@) == droplet_price_monthly_obs_seq(collection.droplets@),
        obs_views(r.price_hourly@) == droplet_price_hourly_obs_seq(collection.droplets@),
{
    let mut up: Vec<Observation<i64>> = Vec::new();
    let mut vcpus: Vec<Observation<i64>> = Vec::new();
    let mut memory: Vec<Observation<i64>> = Vec::new();
    let mut disk: Vec<Observation<i64>> = Vec::new();
    let mut transfer: Vec<Observation<FixedDec>> = Vec::new();
    let mut price_monthly: Vec<Observation<FixedDec>> = Vec::new();
    let mut price_hourly: Vec<Observation<FixedDec>> = Vec::new();
    let mut i: usize = 0;
    while i < collection.droplets.len()
        invariant
            i <= collection.droplets@.len(),
            obs_views(up@) =~= droplet_up_obs_seq(collection.droplets@.take(i as int)),
            obs_views(vcpus@) =~= droplet_vcpus_obs_seq(collection.droplets@.take(i as int)),
            obs_views(memory@) =~= droplet_memory_obs_seq(collection.droplets@.take(i as int)),
            obs_views(disk@) =~= droplet_disk_obs_seq(collection.droplets@.take(i as int)),
            obs_views(transfer@) =~= droplet_transfer_obs_seq(collection.droplets@.take(i as int)),
            obs_views(price_monthly@) =~= droplet_price_monthly_obs_seq(
                collection.droplets@.take(i as int),
            ),
            obs_views(price_hourly@) =~= droplet_price_hourly_obs_seq(
                collection.droplets@.take(i as int),
            ),
        decreases collection.droplets@.len() - i,
    {
        let d = &collection.droplets[i];
        let up_value: i64 = match d.status {
            DropletStatus::Active => 1,
            _ => 0,
        };
        let ghost prev_up = up@;
        let ghost prev_vcpus = vcpus@;
        let ghost prev_memory = memory@;
        let ghost prev_disk = disk@;
        let ghost prev_transfer = transfer@;
        let ghost prev_price_monthly = price_monthly@;
        let ghost prev_price_hourly = price_hourly@;
        up.push(Observation { labels: droplet_labels(d), value: up_value });
        vcpus.push(Observation { labels: droplet_labels(d), value: to_saturating_i64(d.vcpus) });
        memory.push(Observation { labels: droplet_labels(d), value: to_saturating_i64(d.memory) });
        disk.push(Observation { labels: droplet_labels(d), value: to_saturating_i64(d.disk) });
        transfer.push(Observation { labels: droplet_labels(d), value: d.size.transfer });
        price_monthly.push(
            Observation { labels: droplet_labels(d), value: d.size.price_monthly },
        );
        price_hourly.push(Observation { labels: droplet_labels(d), value: d.size.price_hourly });
        proof {
            let ds = collection.droplets@;
            let dd = ds[i as int];
            assert(ds.take(i + 1).drop_last() =~= ds.take(i as int));
            lemma_obs_views_push(prev_up, up@.last());
            lemma_obs_views_push(prev_vcpus, vcpus@.last());
            lemma_obs_views_push(prev_memory, memory@.last());
            lemma_obs_views_push(prev_disk, disk@.last());
            lemma_obs_views_push(prev_transfer, transfer@.last());
            lemma_obs_views_push(prev_price_monthly, price_monthly@.last());
            lemma_obs_views_push(prev_price_hourly, price_hourly@.last());
            assert(droplet_up_obs_seq(ds.take(i + 1)) =~= droplet_up_obs_seq(
                ds.take(i as int),
            ).push((droplet_label_tuple(dd), droplet_up_value(dd))));
            assert(droplet_vcpus_obs_seq(ds.take(i + 1)) =~= droplet_vcpus_obs_seq(
                ds.take(i as int),
            ).push((droplet_label_tuple(dd), saturating_i64(dd.vcpus))));
            assert(droplet_memory_obs_seq(ds.take(i + 1)) =~= droplet_memory_obs_seq(
                ds.take(i as int),
            ).push((droplet_label_tuple(dd), saturating_i64(dd.memory))));
            assert(droplet_disk_obs_seq(ds.take(i + 1)) =~= droplet_disk_obs_seq(
                ds.take(i as int),
            ).push((droplet_label_tuple(dd), saturating_i64(dd.disk))));
            assert(droplet_transfer_obs_seq(ds.take(i + 1)) =~= droplet_transfer_obs_seq(
                ds.take(i as int),
            ).push((droplet_label_tuple(dd), dd.size.transfer)));
            assert(droplet_price_monthly_obs_seq(ds.take(i + 1))
                =~= droplet_price_monthly_obs_seq(ds.take(i as int)).push(
                (droplet_label_tuple(dd), dd.size.price_monthly),
            ));
            assert(droplet_price_hourly_obs_seq(ds.take(i + 1)) =~= droplet_price_hourly_obs_seq(
                ds.take(i as int),
            ).push((droplet_label_tuple(dd), dd.size.price_hourly)));
            assert(obs_views(up@) =~= droplet_up_obs_seq(ds.take(i + 1)));
            assert(obs_views(vcpus@) =~= droplet_vcpus_obs_seq(ds.take(i + 1)));
            assert(obs_views(memory@) =~= droplet_memory_obs_seq(ds.take(i + 1)));
            assert(obs_views(disk@) =~= droplet_disk_obs_seq(ds.take(i + 1)));
            assert(obs_views(transfer@) =~= droplet_transfer_obs_seq(ds.take(i + 1)));
            assert(obs_views(price_monthly@) =~= droplet_price_monthly_obs_seq(ds.take(i + 1)));
            assert(obs_views(price_hourly@) =~= droplet_price_hourly_obs_seq(ds.take(i + 1)));
        }
        i = i + 1;
    }
    proof {
        let ds = collection.droplets@;
        assert(ds.take(ds.len() as int) =~= ds);
    }
    DropletObservations { up, vcpus, memory, disk, transfer, price_monthly, price_hourly }
}

/// One pass for the droplet kind: replaces all seven families from a
/// successful fetch, leaves all seven untouched on a failed one.
pub fn update(metrics: &mut DropletMetrics, fetched: Result<Droplets, GetResouceError>) -> (r:
    SyncResult)
    ensures
        final(metrics)@ == droplets_apply(old(metrics)@, fetched),
        r == droplets_sync_result(fetched),
{
    match fetched {
        Ok(c) => {
            let n = c.droplets.len();
            let obs = map_observations(&c);
            metrics.up.apply(obs.up);
            metrics.vcpus.apply(obs.vcpus);
            metrics.memory.apply(obs.memory);
            metrics.disk.apply(obs.disk);
            metrics.transfer.apply(obs.transfer);
            metrics.price_monthly.apply(obs.price_monthly);
            metrics.price_hourly.apply(obs.price_hourly);
            SyncResult::Applied(n)
        },
        Err(e) => SyncResult::Failed(e),
    }
}

} // verus!
