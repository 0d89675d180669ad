//! Tests for one whole synchronization pass: failure isolation between
//! kinds, the per-kind reports, and the presence families.

use rustyocean::FetchedResources;
use rustyocean::api::Account;
use rustyocean::api::Balance;
use rustyocean::api::CdnEndpoint;
use rustyocean::api::CdnEndpoints;
use rustyocean::api::Droplet;
use rustyocean::api::DropletSize;
use rustyocean::api::DropletStatus;
use rustyocean::api::Droplets;
use rustyocean::api::FloatingIp;
use rustyocean::api::FloatingIps;
use rustyocean::api::GetError;
use rustyocean::api::GetResouceError;
use rustyocean::api::Region;
use rustyocean::api::VPC;
use rustyocean::api::VPCs;
use rustyocean::decimal::FixedDec;
use rustyocean::metrics::SyncResult;
use rustyocean::register_metrics;
use rustyocean::update_metrics;

fn all_failed(err: GetResouceError) -> FetchedResources {
    FetchedResources {
        account: Err(err),
        balance: Err(err),
        droplets: Err(err),
        floating_ips: Err(err),
        vpcs: Err(err),
        cdn_endpoints: Err(err),
    }
}

fn engine_sample_droplet(id: u64, name: &str, region: &str, status: DropletStatus) -> Droplet {
    Droplet {
        id,
        name: String::from(name),
        memory: 1024,
        vcpus: 1,
        disk: 25,
        locked: false,
        status,
        created_at: String::from("2020-07-01T12:00:00Z"),
        size: DropletSize {
            slug: String::from("s-1vcpu-1gb"),
            memory: 1024,
            vcpus: 1,
            disk: 25,
            transfer: FixedDec { micro: 1_000_000 },
            price_monthly: FixedDec { micro: 5_000_000 },
            price_hourly: FixedDec { micro: 7_440 },
            description: String::from("Basic"),
        },
        region: Region { name: String::from(region), slug: String::from(region) },
    }
}

#[test]
fn one_failing_kind_never_blocks_the_others() {
    let mut registry = register_metrics();
    let droplet_err = GetResouceError::GetResource(GetError::Status(500));
    let fetched = FetchedResources {
        account: Err(GetResouceError::MissingData),
        balance: Ok(Balance {
            account_balance: String::from("12.50"),
            generated_at: String::from("2020-07-01T12:00:00Z"),
            month_to_date_balance: String::from("8.00"),
            month_to_date_usage: String::from("4.50"),
        }),
        droplets: Err(droplet_err),
        floating_ips: Ok(FloatingIps {
            floating_ips: vec![FloatingIp {
                ip: String::from("203.0.113.9"),
                region: Region { name: String::from("ams3"), slug: String::from("ams3") },
            }],
        }),
        vpcs: Err(GetResouceError::Decode),
        cdn_endpoints: Ok(CdnEndpoints { endpoints: vec![] }),
    };
    let report = update_metrics(&mut registry, fetched);

    // the failing kinds report their own errors
    assert_eq!(report.account, SyncResult::Failed(GetResouceError::MissingData));
    assert_eq!(report.droplets, SyncResult::Failed(droplet_err));
    assert_eq!(report.vpcs, SyncResult::Failed(GetResouceError::Decode));
    // the succeeding kinds applied normally on the same tick
    assert_eq!(report.balance, SyncResult::Applied(1));
    assert_eq!(report.floating_ips, SyncResult::Applied(1));
    assert_eq!(report.cdn_endpoints, SyncResult::Applied(0));
    assert_eq!(registry.balance.account_balance, FixedDec { micro: 12_500_000 });
    let ip_labels = vec![String::from("203.0.113.9"), String::from("ams3")];
    assert_eq!(registry.floating_ips.floating_ip.get(&ip_labels), Some(1));
}

#[test]
fn failed_kind_keeps_the_state_of_its_last_successful_poll() {
    let mut registry = register_metrics();
    let mut first = all_failed(GetResouceError::MissingData);
    first.droplets = Ok(Droplets {
        droplets: vec![engine_sample_droplet(7, "cache", "sfo2", DropletStatus::Active)],
    });
    update_metrics(&mut registry, first);

    let mut second = all_failed(GetResouceError::MissingData);
    second.droplets = Err(GetResouceError::GetResource(GetError::Transport));
    second.floating_ips = Ok(FloatingIps { floating_ips: vec![] });
    update_metrics(&mut registry, second);

    let seven = vec![String::from("7"), String::from("cache"), String::from("sfo2")];
    assert_eq!(registry.droplets.up.get(&seven), Some(1));
    assert_eq!(registry.droplets.price_hourly.get(&seven), Some(FixedDec { micro: 7_440 }));
}

#[test]
fn all_kinds_failing_changes_nothing() {
    let mut registry = register_metrics();
    let mut first = all_failed(GetResouceError::MissingData);
    first.account = Ok(Account {
        droplet_limit: 25,
        email: String::from("ops@example.com"),
        email_verified: true,
        floating_ip_limit: 3,
        status: String::from("active"),
        uuid: String::from("aaaa-bbbb"),
        volume_limit: 10,
    });
    update_metrics(&mut registry, first);

    let before_account = registry.account;
    let report = update_metrics(
        &mut registry,
        all_failed(GetResouceError::GetResource(GetError::Status(404))),
    );
    assert_eq!(registry.account, before_account);
    assert_eq!(
        report.balance,
        SyncResult::Failed(GetResouceError::GetResource(GetError::Status(404)))
    );
}

#[test]
fn vpc_and_cdn_presence_series_carry_their_label_tuples() {
    let mut registry = register_metrics();
    let mut fetched = all_failed(GetResouceError::MissingData);
    fetched.vpcs = Ok(VPCs {
        vpcs: vec![VPC {
            name: String::from("prod"),
            description: String::from("production network"),
            region: String::from("nyc1"),
            ip_range: String::from("10.10.0.0/16"),
            default: true,
            id: String::from("vpc-1234"),
            urn: String::from("do:vpc:vpc-1234"),
            created_at: String::from("2020-07-01T12:00:00Z"),
        }],
    });
    fetched.cdn_endpoints = Ok(CdnEndpoints {
        endpoints: vec![CdnEndpoint {
            id: String::from("cdn-9"),
            origin: String::from("assets.ams3.digitaloceanspaces.com"),
            endpoint: String::from("assets.ams3.cdn.digitaloceanspaces.com"),
            ttl: 3600,
            certificate_id: String::from("cert-1"),
            custom_domain: String::from("static.example.com"),
            created_at: String::from("2020-07-01T12:00:00Z"),
        }],
    });
    update_metrics(&mut registry, fetched);

    let vpc_labels = vec![
        String::from("vpc-1234"),
        String::from("prod"),
        String::from("nyc1"),
        String::from("10.10.0.0/16"),
    ];
    assert_eq!(registry.vpcs.vpc.get(&vpc_labels), Some(1));

    // the TTL label value is the decimal digit string of the ttl field
    let cdn_labels = vec![
        String::from("cdn-9"),
        String::from("assets.ams3.digitaloceanspaces.com"),
        String::from("assets.ams3.cdn.digitaloceanspaces.com"),
        String::from("3600"),
        String::from("static.example.com"),
    ];
    assert_eq!(registry.cdn_endpoints.cdn_endpoint.get(&cdn_labels), Some(1));
}

#[test]
fn released_floating_ip_is_retired() {
    let mut registry = register_metrics();
    let mut first = all_failed(GetResouceError::MissingData);
    first.floating_ips = Ok(FloatingIps {
        floating_ips: vec![
            FloatingIp {
                ip: String::from("203.0.113.9"),
                region: Region { name: String::from("ams3"), slug: String::from("ams3") },
            },
            FloatingIp {
                ip: String::from("203.0.113.10"),
                region: Region { name: String::from("nyc1"), slug: String::from("nyc1") },
            },
        ],
    });
    update_metrics(&mut registry, first);

    let mut second = all_failed(GetResouceError::MissingData);
    second.floating_ips = Ok(FloatingIps {
        floating_ips: vec![FloatingIp {
            ip: String::from("203.0.113.10"),
            region: Region { name: String::from("nyc1"), slug: String::from("nyc1") },
        }],
    });
    update_metrics(&mut registry, second);

    let released = vec![String::from("203.0.113.9"), String::from("ams3")];
    let kept = vec![String::from("203.0.113.10"), String::from("nyc1")];
    assert_eq!(registry.floating_ips.floating_ip.get(&released), None);
    assert_eq!(registry.floating_ips.floating_ip.get(&kept), Some(1));
}

#[test]
fn every_error_cause_is_reported_as_failed() {
    let causes = vec![
        GetResouceError::GetResource(GetError::Transport),
        GetResouceError::GetResource(GetError::Status(429)),
        GetResouceError::GetResource(GetError::Decode),
        GetResouceError::MissingData,
        GetResouceError::Decode,
    ];
    for cause in causes {
        let mut registry = register_metrics();
        let report = update_metrics(&mut registry, all_failed(cause));
        assert_eq!(report.account, SyncResult::Failed(cause));
        assert_eq!(report.balance, SyncResult::Failed(cause));
        assert_eq!(report.droplets, SyncResult::Failed(cause));
        assert_eq!(report.floating_ips, SyncResult::Failed(cause));
        assert_eq!(report.vpcs, SyncResult::Failed(cause));
        assert_eq!(report.cdn_endpoints, SyncResult::Failed(cause));
    }
}
