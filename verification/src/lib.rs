//! A synchronization engine that republishes cloud inventory data as labeled
//! gauge metrics.
//!
//! The engine owns a [`Registry`] of gauge families, one group per resource
//! kind (account, balance, droplets, floating IPs, VPCs, CDN endpoints).  On
//! every poll tick the caller fetches each kind from the provider and hands
//! the six typed results to [`update_metrics`], which maps each collection
//! onto its fixed metric schema and applies it with reset-and-replace
//! semantics: a successful fetch replaces that kind's families wholesale —
//! retiring every series whose resource vanished since the last poll — and a
//! failed fetch leaves them exactly as the last successful poll did, without
//! disturbing any other kind.

pub mod api;
pub mod decimal;
pub mod metrics;

use crate::api::Account;
use crate::api::Balance;
use crate::api::CdnEndpoints;
use crate::api::Droplets;
use crate::api::FloatingIps;
use crate::api::GetResouceError;
use crate::api::VPCs;
use crate::metrics::SyncResult;
use crate::metrics::account;
use crate::metrics::account::AccountMetrics;
use crate::metrics::account::account_apply;
use crate::metrics::account::account_sync_result;
use crate::metrics::account::initial_account_metrics;
use crate::metrics::balance;
use crate::metrics::balance::BalanceMetrics;
use crate::metrics::balance::balance_apply;
use crate::metrics::balance::balance_sync_result;
use crate::metrics::balance::initial_balance_metrics;
use crate::metrics::cdn_endpoint;
use crate::metrics::cdn_endpoint::CdnEndpointMetrics;
use crate::metrics::cdn_endpoint::cdn_endpoint_apply;
use crate::metrics::cdn_endpoint::cdn_endpoint_label_tuple;
use crate::metrics::cdn_endpoint::cdn_endpoint_obs_seq;
use crate::metrics::cdn_endpoint::cdn_endpoint_series_of;
use crate::metrics::cdn_endpoint::cdn_endpoint_sync_result;
use crate::metrics::droplets;
use crate::metrics::droplets::DropletMetrics;
use crate::metrics::droplets::DropletMetricsView;
use crate::metrics::droplets::droplet_disk_obs_seq;
use crate::metrics::droplets::droplet_families_of;
use crate::metrics::droplets::droplet_label_tuple;
use crate::metrics::droplets::droplet_memory_obs_seq;
use crate::metrics::droplets::droplet_price_hourly_obs_seq;
use crate::metrics::droplets::droplet_price_monthly_obs_seq;
use crate::metrics::droplets::droplet_transfer_obs_seq;
use crate::metrics::droplets::droplet_up_obs_seq;
use crate::metrics::droplets::droplet_vcpus_obs_seq;
use crate::metrics::droplets::droplets_apply;
use crate::metrics::droplets::droplets_sync_result;
use crate::metrics::droplets::empty_droplet_metrics;
use crate::metrics::floating_ip;
use crate::metrics::floating_ip::FloatingIpMetrics;
use crate::metrics::floating_ip::floating_ip_apply;
use crate::metrics::floating_ip::floating_ip_label_tuple;
use crate::metrics::floating_ip::floating_ip_obs_seq;
use crate::metrics::floating_ip::floating_ip_series_of;
use crate::metrics::floating_ip::floating_ip_sync_result;
use crate::metrics::lemma_series_map_absent;
use crate::metrics::vpc;
use crate::metrics::vpc::VpcMetrics;
use crate::metrics::vpc::vpc_apply;
use crate::metrics::vpc::vpc_label_tuple;
use crate::metrics::vpc::vpc_obs_seq;
use crate::metrics::vpc::vpc_series_of;
use crate::metrics::vpc::vpc_sync_result;
use vstd::prelude::*;

verus! {

/// The registry: the one object owning every gauge family the engine
/// publishes.  It is created once at process start and handed to every
/// pass; nothing else ever writes the families.
#[derive(Debug, PartialEq)]
pub struct Registry {
    /// The singleton account gauges.
    pub account: AccountMetrics,
    /// The singleton balance gauges.
    pub balance: BalanceMetrics,
    /// The seven droplet families.
    pub droplets: DropletMetrics,
    /// The floating IP family.
    pub floating_ips: FloatingIpMetrics,
    /// The VPC family.
    pub vpcs: VpcMetrics,
    /// The CDN endpoint family.
    pub cdn_endpoints: CdnEndpointMetrics,
}

/// The contents of every gauge family the registry owns.
pub struct RegistryView {
    /// The account gauges.
    pub account: AccountMetrics,
    /// The balance gauges.
    pub balance: BalanceMetrics,
    /// The contents of the droplet families.
    pub droplets: DropletMetricsView,
    /// The contents of the floating IP family.
    pub floating_ips: Map<Seq<Seq<char>>, i64>,
    /// The contents of the VPC family.
    pub vpcs: Map<Seq<Seq<char>>, i64>,
    /// The contents of the CDN endpoint family.
    pub cdn_endpoints: Map<Seq<Seq<char>>, i64>,
}

impl View for Registry {
    type V = RegistryView;

    open spec fn view(&self) -> RegistryView {
        RegistryView {
            account: self.account,
            balance: self.balance,
            droplets: self.droplets@,
            floating_ips: self.floating_ips@,
            vpcs: self.vpcs@,
            cdn_endpoints: self.cdn_endpoints@,
        }
    }
}

/// The six fetch results of one poll tick, one per resource kind.  The
/// kinds are fetched independently; any of them may have failed without
/// saying anything about the others.
pub struct FetchedResources {
    /// The fetched account, or why fetching it failed.
    pub account: Result<Account, GetResouceError>,
    /// The fetched balance, or why fetching it failed.
    pub balance: Result<Balance, GetResouceError>,
    /// The fetched droplets, or why fetching them failed.
    pub droplets: Result<Droplets, GetResouceError>,
    /// The fetched floating IPs, or why fetching them failed.
    pub floating_ips: Result<FloatingIps, GetResouceError>,
    /// The fetched VPCs, or why fetching them failed.
    pub vpcs: Result<VPCs, GetResouceError>,
    /// The fetched CDN endpoints, or why fetching them failed.
    pub cdn_endpoints: Result<CdnEndpoints, GetResouceError>,
}

/// What one pass reported for each resource kind.
#[derive(Clone, Copy, Debug, PartialEq, Eq, Structural)]
pub struct SyncReport {
    /// What the pass did for the account kind.
    pub account: SyncResult,
    /// What the pass did for the balance kind.
    pub balance: SyncResult,
    /// What the pass did for the droplet kind.
    pub droplets: SyncResult,
    /// What the pass did for the floating IP kind.
    pub floating_ips: SyncResult,
    /// What the pass did for the VPC kind.
    pub vpcs: SyncResult,
    /// What the pass did for the CDN endpoint kind.
    pub cdn_endpoints: SyncResult,
}

/// The registry contents after one pass: each kind's families are replaced
/// from that kind's fetch result alone — wholesale on success, not at all
/// on failure.
pub open spec fn sync_spec(pre: RegistryView, fetched: FetchedResources) -> RegistryView {
    RegistryView {
        account: account_apply(pre.account, fetched.account),
        balance: balance_apply(pre.balance, fetched.balance),
        droplets: droplets_apply(pre.droplets, fetched.droplets),
        floating_ips: floating_ip_apply(pre.floating_ips, fetched.floating_ips),
        vpcs: vpc_apply(pre.vpcs, fetched.vpcs),
        cdn_endpoints: cdn_endpoint_apply(pre.cdn_endpoints, fetched.cdn_endpoints),
    }
}

/// The report one pass returns: per kind, `Applied` with the number of
/// fetched records on success, `Failed` with the fetch error on failure.
pub open spec fn report_spec(fetched: FetchedResources) -> SyncReport {
    SyncReport {
        account: account_sync_result(fetched.account),
        balance: balance_sync_result(fetched.balance),
        droplets: droplets_sync_result(fetched.droplets),
        floating_ips: floating_ip_sync_result(fetched.floating_ips),
        vpcs: vpc_sync_result(fetched.vpcs),
        cdn_endpoints: cdn_endpoint_sync_result(fetched.cdn_endpoints),
    }
}

/// The registry contents at process start: singleton gauges at zero,
/// labeled families empty.
pub open spec fn initial_registry_view() -> RegistryView {
    RegistryView {
        account: initial_account_metrics(),
        balance: initial_balance_metrics(),
        droplets: empty_droplet_metrics(),
        floating_ips: Map::empty(),
        vpcs: Map::empty(),
        cdn_endpoints: Map::empty(),
    }
}

/// Creates the registry with every gauge family registered: singleton
/// gauges at zero, labeled families empty.
pub fn register_metrics() -> (r: Registry)
    ensures
        r@ == initial_registry_view(),
{
    Registry {
        account: account::register_metrics(),
        balance: balance::register_metrics(),
        droplets: droplets::register_metrics(),
        floating_ips: floating_ip::register_metrics(),
        vpcs: vpc::register_metrics(),
        cdn_endpoints: cdn_endpoint::register_metrics(),
    }
}

/// One synchronization pass: applies each kind's fetch result to that
/// kind's gauge families and reports what happened per kind.  One kind's
/// failure never blocks, aborts or corrupts another kind's update.
pub fn update_metrics(registry: &mut Registry, fetched: FetchedResources) -> (r: SyncReport)
    ensures
        final(registry)@ == sync_spec(old(registry)@, fetched),
        r == report_spec(fetched),
{
    let FetchedResources {
        account: fetched_account,
        balance: fetched_balance,
        droplets: fetched_droplets,
        floating_ips: fetched_floating_ips,
        vpcs: fetched_vpcs,
        cdn_endpoints: fetched_cdn_endpoints,
    } = fetched;
    let account_result = account::update(&mut registry.account, fetched_account);
    let balance_result = balance::update(&mut registry.balance, fetched_balance);
    let droplets_result = droplets::update(&mut registry.droplets, fetched_droplets);
    let floating_ips_result = floating_ip::update(&mut registry.floating_ips, fetched_floating_ips);
    let vpcs_result = vpc::update(&mut registry.vpcs, fetched_vpcs);
    let cdn_endpoints_result = cdn_endpoint::update(&mut registry.cdn_endpoints, fetched_cdn_endpoints);
    SyncReport {
        account: account_result,
        balance: balance_result,
        droplets: droplets_result,
        floating_ips: floating_ips_result,
        vpcs: vpcs_result,
        cdn_endpoints: cdn_endpoints_result,
    }
}

/// Retirement for the droplet kind: after a successful droplet fetch, any
/// label tuple that no fetched droplet maps to is absent from all seven
/// droplet families — whatever a previous poll had put there.
pub proof fn lemma_droplet_retirement(
    pre: RegistryView,
    fetched: FetchedResources,
    l: Seq<Seq<char>>,
)
    requires
        fetched.droplets is Ok,
        forall|i: int|
            0 <= i < fetched.droplets->Ok_0.droplets@.len() ==> droplet_label_tuple(
                #[trigger] fetched.droplets->Ok_0.droplets@[i],
            ) != l,
    ensures
        !sync_spec(pre, fetched).droplets.up.dom().contains(l),
        !sync_spec(pre, fetched).droplets.vcpus.dom().contains(l),
        !sync_spec(pre, fetched).droplets.memory.dom().contains(l),
        !sync_spec(pre, fetched).droplets.disk.dom().contains(l),
        !sync_spec(pre, fetched).droplets.transfer.dom().contains(l),
        !sync_spec(pre, fetched).droplets.price_monthly.dom().contains(l),
        !sync_spec(pre, fetched).droplets.price_hourly.dom().contains(l),
{
    let ds = fetched.droplets->Ok_0.droplets@;
    assert forall|i: int|
        0 <= i < droplet_up_obs_seq(ds).len() implies (#[trigger] droplet_up_obs_seq(ds)[i]).0
        != l by {
        assert(droplet_label_tuple(ds[i]) != l);
    }
    lemma_series_map_absent(droplet_up_obs_seq(ds), l);
    assert forall|i: int|
        0 <= i < droplet_vcpus_obs_seq(ds).len() implies (#[trigger] droplet_vcpus_obs_seq(
        ds,
    )[i]).0 != l by {
        assert(droplet_label_tuple(ds[i]) != l);
    }
    lemma_series_map_absent(droplet_vcpus_obs_seq(ds), l);
    assert forall|i: int|
        0 <= i < droplet_memory_obs_seq(ds).len() implies (#[trigger] droplet_memory_obs_seq(
        ds,
    )[i]).0 != l by {
        assert(droplet_label_tuple(ds[i]) != l);
    }
    lemma_series_map_absent(droplet_memory_obs_seq(ds), l);
    assert forall|i: int|
        0 <= i < droplet_disk_obs_seq(ds).len() implies (#[trigger] droplet_disk_obs_seq(
        ds,
    )[i]).0 != l by {
        assert(droplet_label_tuple(ds[i]) != l);
    }
    lemma_series_map_absent(droplet_disk_obs_seq(ds), l);
    assert forall|i: int|
        0 <= i < droplet_transfer_obs_seq(ds).len() implies (#[trigger] droplet_transfer_obs_seq(
        ds,
    )[i]).0 != l by {
        assert(droplet_label_tuple(ds[i]) != l);
    }
    lemma_series_map_absent(droplet_transfer_obs_seq(ds), l);
    assert forall|i: int|
        0 <= i < droplet_price_monthly_obs_seq(ds).len() implies (
    #[trigger] droplet_price_monthly_obs_seq(ds)[i]).0 != l by {
        assert(droplet_label_tuple(ds[i]) != l);
    }
    lemma_series_map_absent(droplet_price_monthly_obs_seq(ds), l);
    assert forall|i: int|
        0 <= i < droplet_price_hourly_obs_seq(ds).len() implies (
    #[trigger] droplet_price_hourly_obs_seq(ds)[i]).0 != l by {
        assert(droplet_label_tuple(ds[i]) != l);
    }
    lemma_series_map_absent(droplet_price_hourly_obs_seq(ds), l);
}

/// Retirement for the floating IP kind: after a successful fetch, any
/// label tuple that no fetched floating IP maps to is absent from the
/// family.
pub proof fn lemma_floating_ip_retirement(
    pre: RegistryView,
    fetched: FetchedResources,
    l: Seq<Seq<char>>,
)
    requires
        fetched.floating_ips is Ok,
        forall|i: int|
            0 <= i < fetched.floating_ips->Ok_0.floating_ips@.len() ==> floating_ip_label_tuple(
                #[trigger] fetched.floating_ips->Ok_0.floating_ips@[i],
            ) != l,
    ensures
        !sync_spec(pre, fetched).floating_ips.dom().contains(l),
{
    let fs = fetched.floating_ips->Ok_0.floating_ips@;
    assert forall|i: int|
        0 <= i < floating_ip_obs_seq(fs).len() implies (#[trigger] floating_ip_obs_seq(fs)[i]).0
        != l by {
        assert(floating_ip_label_tuple(fs[i]) != l);
    }
    lemma_series_map_absent(floating_ip_obs_seq(fs), l);
}

/// Retirement for the VPC kind: after a successful fetch, any label tuple
/// that no fetched VPC maps to is absent from the family.
pub proof fn lemma_vpc_retirement(pre: RegistryView, fetched: FetchedResources, l: Seq<Seq<char>>)
    requires
        fetched.vpcs is Ok,
        forall|i: int|
            0 <= i < fetched.vpcs->Ok_0.vpcs@.len() ==> vpc_label_tuple(
                #[trigger] fetched.vpcs->Ok_0.vpcs@[i],
            ) != l,
    ensures
        !sync_spec(pre, fetched).vpcs.dom().contains(l),
{
    let vs = fetched.vpcs->Ok_0.vpcs@;
    assert forall|i: int|
        0 <= i < vpc_obs_seq(vs).len() implies (#[trigger] vpc_obs_seq(vs)[i]).0 != l by {
        assert(vpc_label_tuple(vs[i]) != l);
    }
    lemma_series_map_absent(vpc_obs_seq(vs), l);
}

/// Retirement for the CDN endpoint kind: after a successful fetch, any
/// label tuple that no fetched endpoint maps to is absent from the family.
pub proof fn lemma_cdn_endpoint_retirement(
    pre: RegistryView,
    fetched: FetchedResources,
    l: Seq<Seq<char>>,
)
    requires
        fetched.cdn_endpoints is Ok,
        forall|i: int|
            0 <= i < fetched.cdn_endpoints->Ok_0.endpoints@.len() ==> cdn_endpoint_label_tuple(
                #[trigger] fetched.cdn_endpoints->Ok_0.endpoints@[i],
            ) != l,
    ensures
        !sync_spec(pre, fetched).cdn_endpoints.dom().contains(l),
{
    let es = fetched.cdn_endpoints->Ok_0.endpoints@;
    assert forall|i: int|
        0 <= i < cdn_endpoint_obs_seq(es).len() implies (#[trigger] cdn_endpoint_obs_seq(
        es,
    )[i]).0 != l by {
        assert(cdn_endpoint_label_tuple(es[i]) != l);
    }
    lemma_series_map_absent(cdn_endpoint_obs_seq(es), l);
}

/// Failure isolation: each kind's families after a pass are a function of
/// that kind's own prior state and own fetch result alone, and a kind
/// whose fetch failed keeps its families exactly as they were — whatever
/// happened to every other kind on the same tick.
pub proof fn lemma_failure_isolation(pre: RegistryView, fetched: FetchedResources)
    ensures
        sync_spec(pre, fetched).account == account_apply(pre.account, fetched.account),
        sync_spec(pre, fetched).balance == balance_apply(pre.balance, fetched.balance),
        sync_spec(pre, fetched).droplets == droplets_apply(pre.droplets, fetched.droplets),
        sync_spec(pre, fetched).floating_ips == floating_ip_apply(
            pre.floating_ips,
            fetched.floating_ips,
        ),
        sync_spec(pre, fetched).vpcs == vpc_apply(pre.vpcs, fetched.vpcs),
        sync_spec(pre, fetched).cdn_endpoints == cdn_endpoint_apply(
            pre.cdn_endpoints,
            fetched.cdn_endpoints,
        ),
        fetched.account is Err ==> sync_spec(pre, fetched).account == pre.account,
        fetched.balance is Err ==> sync_spec(pre, fetched).balance == pre.balance,
        fetched.droplets is Err ==> sync_spec(pre, fetched).droplets == pre.droplets,
        fetched.floating_ips is Err ==> sync_spec(pre, fetched).floating_ips == pre.floating_ips,
        fetched.vpcs is Err ==> sync_spec(pre, fetched).vpcs == pre.vpcs,
        fetched.cdn_endpoints is Err ==> sync_spec(pre, fetched).cdn_endpoints
            == pre.cdn_endpoints,
{
}

/// Idempotence: applying the same fetch results twice in a row leaves the
/// registry exactly as applying them once does.
pub proof fn lemma_sync_idempotent(pre: RegistryView, fetched: FetchedResources)
    ensures
        sync_spec(sync_spec(pre, fetched), fetched) == sync_spec(pre, fetched),
{
    let once = sync_spec(pre, fetched);
    let twice = sync_spec(once, fetched);
    if fetched.balance is Ok {
        let b = fetched.balance->Ok_0;
        // a field that parses is set to the same value both times; one that
        // does not parse is kept both times
        assert(twice.balance.account_balance == once.balance.account_balance);
        assert(twice.balance.month_to_date_balance == once.balance.month_to_date_balance);
        assert(twice.balance.month_to_date_usage == once.balance.month_to_date_usage);
    }
}

/// Empty-set correctness: a successful fetch that returned zero records
/// of a labeled kind empties that kind's families entirely — reporting
/// "none of these exist" rather than an error.
pub proof fn lemma_empty_fetch_clears(pre: RegistryView, fetched: FetchedResources)
    ensures
        fetched.droplets matches Ok(c) && c.droplets@.len() == 0 ==> sync_spec(
            pre,
            fetched,
        ).droplets == empty_droplet_metrics(),
        fetched.floating_ips matches Ok(c) && c.floating_ips@.len() == 0 ==> sync_spec(
            pre,
            fetched,
        ).floating_ips == Map::<Seq<Seq<char>>, i64>::empty(),
        fetched.vpcs matches Ok(c) && c.vpcs@.len() == 0 ==> sync_spec(pre, fetched).vpcs
            == Map::<Seq<Seq<char>>, i64>::empty(),
        fetched.cdn_endpoints matches Ok(c) && c.endpoints@.len() == 0 ==> sync_spec(
            pre,
            fetched,
        ).cdn_endpoints == Map::<Seq<Seq<char>>, i64>::empty(),
{
}

/// What a concurrent reader may observe: after a pass, each kind's
/// families are either exactly the pre-pass contents (the fetch failed)
/// or exactly the contents mapped from the new fetch — never a mixture of
/// old and new series.  The executable counterpart holds because
/// [`metrics::GaugeFamily::apply`] swaps a fully built series list in as
/// one assignment, under the caller's per-registry exclusion.
pub proof fn lemma_reader_states(pre: RegistryView, fetched: FetchedResources)
    ensures
        sync_spec(pre, fetched).account == pre.account || fetched.account is Ok,
        sync_spec(pre, fetched).balance == pre.balance || fetched.balance is Ok,
        sync_spec(pre, fetched).droplets == pre.droplets || (fetched.droplets is Ok && sync_spec(
            pre,
            fetched,
        ).droplets == droplet_families_of(fetched.droplets->Ok_0.droplets@)),
        sync_spec(pre, fetched).floating_ips == pre.floating_ips || (fetched.floating_ips is Ok
            && sync_spec(pre, fetched).floating_ips == floating_ip_series_of(
            fetched.floating_ips->Ok_0.floating_ips@,
        )),
        sync_spec(pre, fetched).vpcs == pre.vpcs || (fetched.vpcs is Ok && sync_spec(
            pre,
            fetched,
        ).vpcs == vpc_series_of(fetched.vpcs->Ok_0.vpcs@)),
        sync_spec(pre, fetched).cdn_endpoints == pre.cdn_endpoints || (fetched.cdn_endpoints is Ok
            && sync_spec(pre, fetched).cdn_endpoints == cdn_endpoint_series_of(
            fetched.cdn_endpoints->Ok_0.endpoints@,
        )),
{
}

} // verus!
