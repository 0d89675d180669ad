//! Tests for the singleton balance gauges, including the per-field
//! tolerance for unparsable decimal strings.

use rustyocean::api::Balance;
use rustyocean::api::GetError;
use rustyocean::api::GetResouceError;
use rustyocean::decimal::FixedDec;
use rustyocean::metrics::SyncResult;
use rustyocean::metrics::balance::register_metrics;
use rustyocean::metrics::balance::update;

fn sample_balance(account: &str, month_balance: &str, month_usage: &str) -> Balance {
    Balance {
        account_balance: String::from(account),
        generated_at: String::from("2020-07-01T12:00:00Z"),
        month_to_date_balance: String::from(month_balance),
        month_to_date_usage: String::from(month_usage),
    }
}

#[test]
fn balance_register_starts_at_zero() {
    let metrics = register_metrics();
    assert_eq!(metrics.account_balance, FixedDec { micro: 0 });
    assert_eq!(metrics.month_to_date_balance, FixedDec { micro: 0 });
    assert_eq!(metrics.month_to_date_usage, FixedDec { micro: 0 });
}

#[test]
fn successful_fetch_sets_all_parsable_fields() {
    let mut metrics = register_metrics();
    let result = update(&mut metrics, Ok(sample_balance("12.50", "-4.75", "3.25")));
    assert_eq!(result, SyncResult::Applied(1));
    assert_eq!(metrics.account_balance, FixedDec { micro: 12_500_000 });
    assert_eq!(metrics.month_to_date_balance, FixedDec { micro: -4_750_000 });
    assert_eq!(metrics.month_to_date_usage, FixedDec { micro: 3_250_000 });
}

#[test]
fn unparsable_field_keeps_previous_value() {
    let mut metrics = register_metrics();
    update(&mut metrics, Ok(sample_balance("10.00", "9.00", "3.25")));
    let result = update(
        &mut metrics,
        Ok(sample_balance("12.50", "8.00", "not-a-number")),
    );
    assert_eq!(result, SyncResult::Applied(1));
    assert_eq!(metrics.account_balance, FixedDec { micro: 12_500_000 });
    assert_eq!(metrics.month_to_date_balance, FixedDec { micro: 8_000_000 });
    // the unparsable usage field is skipped on its own
    assert_eq!(metrics.month_to_date_usage, FixedDec { micro: 3_250_000 });
}

#[test]
fn failed_fetch_keeps_all_fields() {
    let mut metrics = register_metrics();
    update(&mut metrics, Ok(sample_balance("10.00", "9.00", "3.25")));
    let err = GetResouceError::GetResource(GetError::Transport);
    let result = update(&mut metrics, Err(err));
    assert_eq!(result, SyncResult::Failed(err));
    assert_eq!(metrics.account_balance, FixedDec { micro: 10_000_000 });
    assert_eq!(metrics.month_to_date_balance, FixedDec { micro: 9_000_000 });
    assert_eq!(metrics.month_to_date_usage, FixedDec { micro: 3_250_000 });
}
