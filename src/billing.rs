use vstd::prelude::*;

use bson::oid::ObjectId;

use crate::ids::Timestamp;
use crate::ledger::{amount_of, can_record_use, consume, consume_step, may_consume};
use crate::models::{Credits, Statistics, Usage};
use crate::usage::{
    is_merged_record, merge_fits, merge_usage_record, recorded_usage, usage_counters,
};

verus! {

/// Why a billed call produced no output.
#[derive(Clone, Copy, Debug, PartialEq, Eq)]
pub enum BillingError<E> {
    /// The subject has no ledger or no remaining balance; nothing ran and
    /// nothing was recorded.
    InsufficientCredit,
    /// The operation failed after its credit was spent; the credit is not refunded.
    OperationFailed(E),
}

/// The usage recorded for an attempt described by `delta` whose operation failed:
/// no success is counted, and one more failure is.
pub open spec fn failed_attempt_spec(delta: Usage) -> Usage {
    Usage {
        api_calls_success: None,
        api_calls_fail: Some((amount_of(delta.api_calls_fail) + 1) as i32),
        ..delta
    }
}

/// The usage to record for an attempt described by `delta` whose operation failed.
pub fn failed_attempt(delta: &Usage) -> (r: Usage)
    requires
        amount_of(delta.api_calls_fail) < i32::MAX,
    ensures
        r == failed_attempt_spec(*delta),
{
    let fail: i32 = match delta.api_calls_fail {
        Some(v) => v,
        None => 0,
    };
    Usage { api_calls_success: None, api_calls_fail: Some(fail + 1), ..*delta }
}

/// The usage recorded for an attempt described by `delta`, by its outcome.
pub open spec fn attempt_usage_spec(delta: Usage, succeeded: bool) -> Usage {
    if succeeded {
        delta
    } else {
        failed_attempt_spec(delta)
    }
}

/// The usage to record for an attempt described by `delta`, by its outcome.
pub fn attempt_usage(delta: &Usage, succeeded: bool) -> (r: Usage)
    requires
        amount_of(delta.api_calls_fail) < i32::MAX,
    ensures
        r == attempt_usage_spec(*delta, succeeded),
{
    if succeeded {
        *delta
    } else {
        failed_attempt(delta)
    }
}

/// The statistics record of `user_id` once an attempt described by `delta`,
/// which succeeded or not, is recorded at `now`.
pub fn record_attempt(
    existing: Option<Statistics>,
    user_id: ObjectId,
    new_id: ObjectId,
    delta: &Usage,
    succeeded: bool,
    now: Timestamp,
) -> (r: Statistics)
    requires
        amount_of(delta.api_calls_fail) < i32::MAX,
        merge_fits(
            usage_counters(recorded_usage(existing)),
            attempt_usage_spec(*delta, succeeded)@,
        ),
    ensures
        is_merged_record(
            existing,
            user_id,
            new_id,
            Some(attempt_usage_spec(*delta, succeeded)),
            now,
            r,
        ),
{
    let recorded = attempt_usage(delta, succeeded);
    merge_usage_record(existing, user_id, new_id, Some(recorded), now)
}

/// Runs `op` as a billed call of `user_id`. One unit of `ledger` is spent
/// first; without it, `op` does not run and nothing changes. Once spent, the
/// unit is kept whatever `op` returns, and the usage record takes `delta` when
/// `op` succeeds, or `delta` counted as a failure when it fails. A usage record
/// created here gets the identifier `new_id`.
pub fn run_billed<T, E, F: FnOnce() -> Result<T, E>>(
    ledger: &mut Option<Credits>,
    stats: &mut Option<Statistics>,
    user_id: ObjectId,
    new_id: ObjectId,
    delta: Usage,
    now: Timestamp,
    op: F,
) -> (r: Result<T, BillingError<E>>)
    requires
        op.requires(()),
        may_consume(*old(ledger)) ==> can_record_use(*old(ledger)),
        amount_of(delta.api_calls_fail) < i32::MAX,
        merge_fits(usage_counters(recorded_usage(*old(stats))), delta@),
        merge_fits(usage_counters(recorded_usage(*old(stats))), failed_attempt_spec(delta)@),
    ensures
        !may_consume(*old(ledger)) ==> {
            &&& r == Err::<T, BillingError<E>>(BillingError::InsufficientCredit)
            &&& *final(ledger) == *old(ledger)
            &&& *final(stats) == *old(stats)
        },
        may_consume(*old(ledger)) ==> {
            &&& *final(ledger) == consume_step(*old(ledger))
            &&& *final(stats) matches Some(s)
            &&& match r {
                Ok(v) => op.ensures((), Ok::<T, E>(v)) && is_merged_record(
                    *old(stats),
                    user_id,
                    new_id,
                    Some(delta),
                    now,
                    s,
                ),
                Err(BillingError::OperationFailed(e)) => op.ensures((), Err::<T, E>(e))
                    && is_merged_record(
                        *old(stats),
                        user_id,
                        new_id,
                        Some(failed_attempt_spec(delta)),
                        now,
                        s,
                    ),
                Err(BillingError::InsufficientCredit) => false,
            }
        },
{
    let spent = consume(ledger);
    match spent {
        None => Err(BillingError::InsufficientCredit),
        Some(c) => {
            *ledger = Some(c);
            let existing = *stats;
            match op() {
                Ok(v) => {
                    *stats = Some(record_attempt(existing, user_id, new_id, &delta, true, now));
                    Ok(v)
                },
                Err(e) => {
                    *stats = Some(record_attempt(existing, user_id, new_id, &delta, false, now));
                    Err(BillingError::OperationFailed(e))
                },
            }
        },
    }
}

} // verus!
