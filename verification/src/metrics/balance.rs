//! The balance gauges: the account balance, the month-to-date balance and
//! the month-to-date usage.
//!
//! The balance kind is a singleton: its three gauges carry no labels.  The
//! provider encodes every amount as a decimal string, and a field that
//! fails to parse is skipped on its own — the gauge keeps its previous
//! value while the other fields are still applied.

use crate::api::Balance;
use crate::api::GetResouceError;
use crate::decimal::FixedDec;
use crate::decimal::parse_decimal;
use crate::decimal::parse_decimal_spec;
use crate::metrics::SyncResult;
use vstd::prelude::*;

verus! {

/// The three singleton balance gauges.
#[derive(Clone, Copy, Debug, PartialEq, Eq, Structural)]
pub struct BalanceMetrics {
    /// The current account balance.
    pub account_balance: FixedDec,
    /// The balance with this month's usage already subtracted.
    pub month_to_date_balance: FixedDec,
    /// The usage so far this month.
    pub month_to_date_usage: FixedDec,
}

/// The new value of one balance gauge: the parsed field when it parses,
/// the previous value otherwise.
pub open spec fn parse_or_keep(s: Seq<char>, prev: FixedDec) -> FixedDec {
    match parse_decimal_spec(s) {
        Some(v) => v,
        None => prev,
    }
}

/// What one pass does to the balance gauges: a successful fetch overwrites
/// each gauge whose field parses, a failed fetch leaves all three
/// untouched.
pub open spec fn balance_apply(
    pre: BalanceMetrics,
    fetched: Result<Balance, GetResouceError>,
) -> BalanceMetrics {
    match fetched {
        Ok(b) => BalanceMetrics {
            account_balance: parse_or_keep(b.account_balance@, pre.account_balance),
            month_to_date_balance: parse_or_keep(
                b.month_to_date_balance@,
                pre.month_to_date_balance,
            ),
            month_to_date_usage: parse_or_keep(b.month_to_date_usage@, pre.month_to_date_usage),
        },
        Err(_) => pre,
    }
}

/// The result one pass reports for the balance kind.
pub open spec fn balance_sync_result(fetched: Result<Balance, GetResouceError>) -> SyncResult {
    match fetched {
        Ok(_) => SyncResult::Applied(1),
        Err(e) => SyncResult::Failed(e),
    }
}

/// The initial value of the balance gauges, before any successful poll.
pub open spec fn initial_balance_metrics() -> BalanceMetrics {
    BalanceMetrics {
        account_balance: FixedDec { micro: 0 },
        month_to_date_balance: FixedDec { micro: 0 },
        month_to_date_usage: FixedDec { micro: 0 },
    }
}

/// Creates the balance gauges with their initial zero values.
pub fn register_metrics() -> (r: BalanceMetrics)
    ensures
        r == initial_balance_metrics(),
{
    BalanceMetrics {
        account_balance: FixedDec::zero(),
        month_to_date_balance: FixedDec::zero(),
        month_to_date_usage: FixedDec::zero(),
    }
}

/// One pass for the balance kind: overwrites each gauge whose decimal
/// string parses, keeps the previous value for one that does not, and
/// leaves all three untouched on a failed fetch.
pub fn update(metrics: &mut BalanceMetrics, fetched: Result<Balance, GetResouceError>) -> (r:
    SyncResult)
    ensures
        *final(metrics) == balance_apply(*old(metrics), fetched),
        r == balance_sync_result(fetched),
{
    match fetched {
        Ok(b) => {
            if let Some(v) = parse_decimal(b.account_balance.as_str()) {
                metrics.account_balance = v;
            }
            if let Some(v) = parse_decimal(b.month_to_date_balance.as_str()) {
                metrics.month_to_date_balance = v;
            }
            if let Some(v) = parse_decimal(b.month_to_date_usage.as_str()) {
                metrics.month_to_date_usage = v;
            }
            SyncResult::Applied(1)
        },
        Err(e) => SyncResult::Failed(e),
    }
}

} // verus!
