use vstd::prelude::*;

use bson::oid::ObjectId;

use crate::ids::Timestamp;
use crate::models::{counter_value, Statistics, Usage, USAGE_COUNTERS};

verus! {

/// Merging one counter: a present value absorbs the delta (absent counts as zero
/// there), an absent value takes the delta as it is, absent or not.
pub open spec fn add_counter(existing: Option<int>, delta: Option<int>) -> Option<int> {
    match (existing, delta) {
        (Some(x), Some(d)) => Some(x + d),
        (Some(x), None) => Some(x),
        (None, d) => d,
    }
}

/// Field-wise merge of two counter sequences.
pub open spec fn merge_counters(existing: Seq<Option<int>>, delta: Seq<Option<int>>) -> Seq<
    Option<int>,
> {
    Seq::new(existing.len(), |i: int| add_counter(existing[i], delta[i]))
}

/// The counters of a record in which nothing has been set.
pub open spec fn no_counters() -> Seq<Option<int>> {
    Seq::new(USAGE_COUNTERS as nat, |i: int| None::<int>)
}

/// The counters of an optional usage record; a missing record has none set.
pub open spec fn usage_counters(u: Option<Usage>) -> Seq<Option<int>> {
    match u {
        Some(u) => u@,
        None => no_counters(),
    }
}

/// A counter value that a 32-bit field can hold.
pub open spec fn counter_fits(c: Option<int>) -> bool {
    match c {
        Some(v) => i32::MIN <= v <= i32::MAX,
        None => true,
    }
}

/// Every merged counter of `existing` and `delta` fits in 32 bits.
pub open spec fn merge_fits(existing: Seq<Option<int>>, delta: Seq<Option<int>>) -> bool {
    forall|i: int|
        0 <= i < existing.len() ==> #[trigger] counter_fits(add_counter(existing[i], delta[i]))
}

/// Merges one counter of a delta into the stored one.
pub fn merge_counter(existing: Option<i32>, delta: Option<i32>) -> (r: Option<i32>)
    requires
        counter_fits(add_counter(counter_value(existing), counter_value(delta))),
    ensures
        counter_value(r) == add_counter(counter_value(existing), counter_value(delta)),
{
    match existing {
        Some(x) => match delta {
            Some(d) => Some(x + d),
            None => Some(x),
        },
        None => delta,
    }
}

/// Whether the merge of `delta` into `existing` stays within 32-bit counters.
pub fn usage_merge_fits(existing: &Usage, delta: &Usage) -> (r: bool)
    ensures
        r == merge_fits(existing@, delta@),
{
    let ok = counter_merge_fits(existing.api_calls, delta.api_calls)
        && counter_merge_fits(existing.api_calls_monday, delta.api_calls_monday)
        && counter_merge_fits(existing.api_calls_tuesday, delta.api_calls_tuesday)
        && counter_merge_fits(existing.api_calls_wednesday, delta.api_calls_wednesday)
        && counter_merge_fits(existing.api_calls_thursday, delta.api_calls_thursday)
        && counter_merge_fits(existing.api_calls_friday, delta.api_calls_friday)
        && counter_merge_fits(existing.api_calls_saturday, delta.api_calls_saturday)
        && counter_merge_fits(existing.api_calls_sunday, delta.api_calls_sunday)
        && counter_merge_fits(existing.api_calls_success, delta.api_calls_success)
        && counter_merge_fits(existing.api_calls_fail, delta.api_calls_fail);
    proof {
        if ok {
            assert forall|i: int| 0 <= i < existing@.len() implies #[trigger] counter_fits(
                add_counter(existing@[i], delta@[i]),
            ) by {
                assert(0 <= i < 10);
            }
        } else {
            assert(!counter_fits(add_counter(existing@[0], delta@[0])) || !counter_fits(
                add_counter(existing@[1], delta@[1]),
            ) || !counter_fits(add_counter(existing@[2], delta@[2])) || !counter_fits(
                add_counter(existing@[3], delta@[3]),
            ) || !counter_fits(add_counter(existing@[4], delta@[4])) || !counter_fits(
                add_counter(existing@[5], delta@[5]),
            ) || !counter_fits(add_counter(existing@[6], delta@[6])) || !counter_fits(
                add_counter(existing@[7], delta@[7]),
            ) || !counter_fits(add_counter(existing@[8], delta@[8])) || !counter_fits(
                add_counter(existing@[9], delta@[9]),
            ));
        }
    }
    ok
}

fn counter_merge_fits(existing: Option<i32>, delta: Option<i32>) -> (r: bool)
    ensures
        r == counter_fits(add_counter(counter_value(existing), counter_value(delta))),
{
    match (existing, delta) {
        (Some(x), Some(d)) => x.checked_add(d).is_some(),
        _ => true,
    }
}

/// Adds every counter of `delta` into `existing`.
pub fn merge_usage(existing: &Usage, delta: &Usage) -> (r: Usage)
    requires
        merge_fits(existing@, delta@),
    ensures
        r@ == merge_counters(existing@, delta@),
{
    assert(counter_fits(add_counter(existing@[0], delta@[0])));
    assert(counter_fits(add_counter(existing@[1], delta@[1])));
    assert(counter_fits(add_counter(existing@[2], delta@[2])));
    assert(counter_fits(add_counter(existing@[3], delta@[3])));
    assert(counter_fits(add_counter(existing@[4], delta@[4])));
    assert(counter_fits(add_counter(existing@[5], delta@[5])));
    assert(counter_fits(add_counter(existing@[6], delta@[6])));
    assert(counter_fits(add_counter(existing@[7], delta@[7])));
    assert(counter_fits(add_counter(existing@[8], delta@[8])));
    assert(counter_fits(add_counter(existing@[9], delta@[9])));
    let r = Usage {
        api_calls: merge_counter(existing.api_calls, delta.api_calls),
        api_calls_monday: merge_counter(existing.api_calls_monday, delta.api_calls_monday),
        api_calls_tuesday: merge_counter(existing.api_calls_tuesday, delta.api_calls_tuesday),
        api_calls_wednesday: merge_counter(existing.api_calls_wednesday, delta.api_calls_wednesday),
        api_calls_thursday: merge_counter(existing.api_calls_thursday, delta.api_calls_thursday),
        api_calls_friday: merge_counter(existing.api_calls_friday, delta.api_calls_friday),
        api_calls_saturday: merge_counter(existing.api_calls_saturday, delta.api_calls_saturday),
        api_calls_sunday: merge_counter(existing.api_calls_sunday, delta.api_calls_sunday),
        api_calls_success: merge_counter(existing.api_calls_success, delta.api_calls_success),
        api_calls_fail: merge_counter(existing.api_calls_fail, delta.api_calls_fail),
    };
    assert(r@ =~= merge_counters(existing@, delta@));
    r
}

/// Merges an optional delta into an optional stored usage record. A missing
/// record counts as one in which nothing was set.
pub fn merge_optional_usage(existing: Option<Usage>, delta: Option<Usage>) -> (r: Option<Usage>)
    requires
        merge_fits(usage_counters(existing), usage_counters(delta)),
    ensures
        r is Some <==> (existing is Some || delta is Some),
        usage_counters(r) == merge_counters(usage_counters(existing), usage_counters(delta)),
{
    match delta {
        None => {
            assert(usage_counters(existing) =~= merge_counters(
                usage_counters(existing),
                no_counters(),
            ));
            existing
        },
        Some(d) => match existing {
            None => {
                assert(d@ =~= merge_counters(no_counters(), d@));
                Some(d)
            },
            Some(e) => Some(merge_usage(&e, &d)),
        },
    }
}

/// The usage recorded in an optional statistics record.
pub open spec fn recorded_usage(existing: Option<Statistics>) -> Option<Usage> {
    match existing {
        Some(s) => s.usage,
        None => None,
    }
}

/// `r` is the statistics record of `user_id` after `delta` is merged into
/// `existing` at time `now`: its counters are the merged ones, its update time
/// is `now`, and it keeps the identity of `existing`, or is created at `now`
/// with identifier `new_id`.
pub open spec fn is_merged_record(
    existing: Option<Statistics>,
    user_id: ObjectId,
    new_id: ObjectId,
    delta: Option<Usage>,
    now: Timestamp,
    r: Statistics,
) -> bool {
    &&& r.updated_at == Some(now)
    &&& r.usage is Some <==> (recorded_usage(existing) is Some || delta is Some)
    &&& usage_counters(r.usage) == merge_counters(
        usage_counters(recorded_usage(existing)),
        usage_counters(delta),
    )
    &&& match existing {
        Some(s) => r._id == s._id && r.created_at == s.created_at && r.userId == s.userId,
        None => r._id == new_id && r.created_at == now && r.userId == user_id,
    }
}

/// The statistics record of `user_id` after `delta` is merged into `existing`
/// at time `now`. A new record, with identifier `new_id`, is created where none
/// exists; either way the update time becomes `now`.
pub fn merge_usage_record(
    existing: Option<Statistics>,
    user_id: ObjectId,
    new_id: ObjectId,
    delta: Option<Usage>,
    now: Timestamp,
) -> (r: Statistics)
    requires
        merge_fits(usage_counters(recorded_usage(existing)), usage_counters(delta)),
    ensures
        is_merged_record(existing, user_id, new_id, delta, now, r),
{
    match existing {
        Some(report) => Statistics {
            _id: report._id,
            created_at: report.created_at,
            updated_at: Some(now),
            usage: merge_optional_usage(report.usage, delta),
            userId: report.userId,
        },
        None => Statistics {
            _id: new_id,
            created_at: now,
            updated_at: Some(now),
            usage: merge_optional_usage(None, delta),
            userId: user_id,
        },
    }
}

/// Merging two deltas one after the other leaves the same counters as merging
/// their field-wise sum once, and the order of the two deltas does not matter.
pub proof fn lemma_merge_in_steps(existing: Option<Usage>, first: Usage, second: Usage)
    ensures
        merge_counters(merge_counters(usage_counters(existing), first@), second@)
            == merge_counters(usage_counters(existing), merge_counters(first@, second@)),
        merge_counters(merge_counters(usage_counters(existing), first@), second@)
            == merge_counters(merge_counters(usage_counters(existing), second@), first@),
{
    lemma_counters_len(existing);
    lemma_counters_len(Some(first));
    lemma_counters_len(Some(second));
    let e = usage_counters(existing);
    let a = first@;
    let b = second@;
    assert(merge_counters(merge_counters(e, a), b) =~= merge_counters(e, merge_counters(a, b)));
    assert(merge_counters(merge_counters(e, a), b) =~= merge_counters(merge_counters(e, b), a));
}

/// Every usage record has the same number of counters.
pub proof fn lemma_counters_len(u: Option<Usage>)
    ensures
        usage_counters(u).len() == USAGE_COUNTERS,
{
}

/// A counter that neither the stored record nor the delta sets stays absent
/// after the merge; it does not become zero.
pub proof fn lemma_unset_counter_stays_absent(existing: Option<Usage>, delta: Option<Usage>, i: int)
    requires
        0 <= i < USAGE_COUNTERS,
        usage_counters(existing)[i] is None,
        usage_counters(delta)[i] is None,
    ensures
        merge_counters(usage_counters(existing), usage_counters(delta))[i] is None,
{
}

/// A counter once recorded stays recorded, and a delta that does not subtract
/// never lowers it.
pub proof fn lemma_recorded_counter_kept(existing: Option<Usage>, delta: Option<Usage>, i: int)
    requires
        0 <= i < USAGE_COUNTERS,
        usage_counters(existing)[i] is Some,
        usage_counters(delta)[i] matches Some(d) ==> d >= 0,
    ensures
        merge_counters(usage_counters(existing), usage_counters(delta))[i] matches Some(m)
            && m >= usage_counters(existing)[i]->0,
{
}

} // verus!
