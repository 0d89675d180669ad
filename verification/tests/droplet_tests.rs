//! Tests for the droplet families: the mapping of one fetch, retirement
//! of vanished droplets, empty fetches, and idempotence.

use rustyocean::api::Droplet;
use rustyocean::api::DropletSize;
use rustyocean::api::DropletStatus;
use rustyocean::api::Droplets;
use rustyocean::api::GetError;
use rustyocean::api::GetResouceError;
use rustyocean::decimal::FixedDec;
use rustyocean::metrics::SyncResult;
use rustyocean::metrics::droplets::clear_metrics;
use rustyocean::metrics::droplets::register_metrics;
use rustyocean::metrics::droplets::update;

fn sample_droplet(id: u64, name: &str, region: &str, status: DropletStatus) -> Droplet {
    Droplet {
        id,
        name: String::from(name),
        memory: 2048,
        vcpus: 2,
        disk: 50,
        locked: false,
        status,
        created_at: String::from("2020-07-01T12:00:00Z"),
        size: DropletSize {
            slug: String::from("s-2vcpu-2gb"),
            memory: 2048,
            vcpus: 2,
            disk: 50,
            transfer: FixedDec { micro: 3_000_000 },
            price_monthly: FixedDec { micro: 15_000_000 },
            price_hourly: FixedDec { micro: 22_320 },
            description: String::from("Basic"),
        },
        region: rustyocean::api::Region {
            name: String::from(region),
            slug: String::from(region),
        },
    }
}

fn labels(id: &str, name: &str, region: &str) -> Vec<String> {
    vec![String::from(id), String::from(name), String::from(region)]
}

#[test]
fn two_droplets_map_to_all_seven_families() {
    let mut metrics = register_metrics();
    let fetched = Droplets {
        droplets: vec![
            sample_droplet(1, "web", "nyc1", DropletStatus::Active),
            sample_droplet(2, "db", "fra1", DropletStatus::Off),
        ],
    };
    let result = update(&mut metrics, Ok(fetched));
    assert_eq!(result, SyncResult::Applied(2));

    let one = labels("1", "web", "nyc1");
    let two = labels("2", "db", "fra1");
    assert_eq!(metrics.up.get(&one), Some(1));
    assert_eq!(metrics.up.get(&two), Some(0));
    assert_eq!(metrics.vcpus.get(&one), Some(2));
    assert_eq!(metrics.memory.get(&one), Some(2048));
    assert_eq!(metrics.disk.get(&one), Some(50));
    assert_eq!(metrics.transfer.get(&one), Some(FixedDec { micro: 3_000_000 }));
    assert_eq!(
        metrics.price_monthly.get(&two),
        Some(FixedDec { micro: 15_000_000 })
    );
    assert_eq!(metrics.price_hourly.get(&two), Some(FixedDec { micro: 22_320 }));
}

#[test]
fn vanished_droplet_is_retired_on_the_next_poll() {
    let mut metrics = register_metrics();
    update(
        &mut metrics,
        Ok(Droplets {
            droplets: vec![
                sample_droplet(1, "web", "nyc1", DropletStatus::Active),
                sample_droplet(2, "db", "fra1", DropletStatus::Off),
            ],
        }),
    );
    // the next poll returns only droplet 1
    update(
        &mut metrics,
        Ok(Droplets {
            droplets: vec![sample_droplet(1, "web", "nyc1", DropletStatus::Active)],
        }),
    );
    let one = labels("1", "web", "nyc1");
    let two = labels("2", "db", "fra1");
    assert_eq!(metrics.up.get(&one), Some(1));
    assert_eq!(metrics.up.get(&two), None);
    assert_eq!(metrics.vcpus.get(&two), None);
    assert_eq!(metrics.memory.get(&two), None);
    assert_eq!(metrics.disk.get(&two), None);
    assert_eq!(metrics.transfer.get(&two), None);
    assert_eq!(metrics.price_monthly.get(&two), None);
    assert_eq!(metrics.price_hourly.get(&two), None);
}

#[test]
fn empty_fetch_empties_every_family() {
    let mut metrics = register_metrics();
    update(
        &mut metrics,
        Ok(Droplets {
            droplets: vec![sample_droplet(1, "web", "nyc1", DropletStatus::Active)],
        }),
    );
    let result = update(&mut metrics, Ok(Droplets { droplets: vec![] }));
    assert_eq!(result, SyncResult::Applied(0));
    let one = labels("1", "web", "nyc1");
    assert_eq!(metrics.up.get(&one), None);
    assert_eq!(metrics.vcpus.get(&one), None);
    assert_eq!(metrics.transfer.get(&one), None);
}

#[test]
fn applying_the_same_fetch_twice_changes_nothing() {
    let mut once = register_metrics();
    let mut twice = register_metrics();
    let fetch = || Droplets {
        droplets: vec![
            sample_droplet(1, "web", "nyc1", DropletStatus::Active),
            sample_droplet(2, "db", "fra1", DropletStatus::New),
        ],
    };
    update(&mut once, Ok(fetch()));
    update(&mut twice, Ok(fetch()));
    update(&mut twice, Ok(fetch()));
    assert_eq!(once, twice);
}

#[test]
fn failed_fetch_keeps_every_family() {
    let mut metrics = register_metrics();
    update(
        &mut metrics,
        Ok(Droplets {
            droplets: vec![sample_droplet(1, "web", "nyc1", DropletStatus::Active)],
        }),
    );
    let err = GetResouceError::GetResource(GetError::Status(500));
    let result = update(&mut metrics, Err(err));
    assert_eq!(result, SyncResult::Failed(err));
    let one = labels("1", "web", "nyc1");
    assert_eq!(metrics.up.get(&one), Some(1));
    assert_eq!(metrics.price_hourly.get(&one), Some(FixedDec { micro: 22_320 }));
}

#[test]
fn clear_metrics_empties_every_family() {
    let mut metrics = register_metrics();
    update(
        &mut metrics,
        Ok(Droplets {
            droplets: vec![sample_droplet(1, "web", "nyc1", DropletStatus::Active)],
        }),
    );
    clear_metrics(&mut metrics);
    let one = labels("1", "web", "nyc1");
    assert_eq!(metrics.up.get(&one), None);
    assert_eq!(metrics.vcpus.get(&one), None);
    assert_eq!(metrics.memory.get(&one), None);
    assert_eq!(metrics.disk.get(&one), None);
    assert_eq!(metrics.transfer.get(&one), None);
    assert_eq!(metrics.price_monthly.get(&one), None);
    assert_eq!(metrics.price_hourly.get(&one), None);
}

#[test]
fn duplicate_label_tuples_keep_the_last_value() {
    // the provider never returns duplicate ids within one fetch, but the
    // family is well defined even so: the later observation wins
    let mut metrics = register_metrics();
    let mut first = sample_droplet(1, "web", "nyc1", DropletStatus::Off);
    first.vcpus = 1;
    let mut second = sample_droplet(1, "web", "nyc1", DropletStatus::Active);
    second.vcpus = 4;
    update(&mut metrics, Ok(Droplets { droplets: vec![first, second] }));
    let one = labels("1", "web", "nyc1");
    assert_eq!(metrics.up.get(&one), Some(1));
    assert_eq!(metrics.vcpus.get(&one), Some(4));
}
