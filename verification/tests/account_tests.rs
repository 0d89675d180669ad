//! Tests for the singleton account gauges.

use rustyocean::api::Account;
use rustyocean::api::GetError;
use rustyocean::api::GetResouceError;
use rustyocean::metrics::SyncResult;
use rustyocean::metrics::account::register_metrics;
use rustyocean::metrics::account::update;

fn sample_account(droplet_limit: u64, floating_ip_limit: u64, volume_limit: u64) -> Account {
    Account {
        droplet_limit,
        email: String::from("ops@example.com"),
        email_verified: true,
        floating_ip_limit,
        status: String::from("active"),
        uuid: String::from("aaaa-bbbb"),
        volume_limit,
    }
}

#[test]
fn account_register_starts_at_zero() {
    let metrics = register_metrics();
    assert_eq!(metrics.droplet_limit, 0);
    assert_eq!(metrics.floating_ip_limit, 0);
    assert_eq!(metrics.volume_limit, 0);
}

#[test]
fn successful_fetch_overwrites_limits() {
    let mut metrics = register_metrics();
    let result = update(&mut metrics, Ok(sample_account(25, 3, 10)));
    assert_eq!(result, SyncResult::Applied(1));
    assert_eq!(metrics.droplet_limit, 25);
    assert_eq!(metrics.floating_ip_limit, 3);
    assert_eq!(metrics.volume_limit, 10);
}

#[test]
fn limit_beyond_i64_saturates() {
    let mut metrics = register_metrics();
    update(&mut metrics, Ok(sample_account(u64::MAX, 1, 1)));
    assert_eq!(metrics.droplet_limit, i64::MAX);
    assert_eq!(metrics.floating_ip_limit, 1);
}

#[test]
fn failed_fetch_keeps_previous_values() {
    let mut metrics = register_metrics();
    update(&mut metrics, Ok(sample_account(25, 3, 10)));
    let err = GetResouceError::GetResource(GetError::Status(503));
    let result = update(&mut metrics, Err(err));
    assert_eq!(result, SyncResult::Failed(err));
    assert_eq!(metrics.droplet_limit, 25);
    assert_eq!(metrics.floating_ip_limit, 3);
    assert_eq!(metrics.volume_limit, 10);
}
