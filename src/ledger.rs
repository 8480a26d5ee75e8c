use vstd::prelude::*;

use bson::oid::ObjectId;

use crate::models::Credits;

verus! {

/// An optional amount, with absent read as zero.
pub open spec fn amount_of(a: Option<i32>) -> int {
    match a {
        Some(v) => v as int,
        None => 0,
    }
}

/// A ledger entitles one more billed call when it exists and holds a positive balance.
pub open spec fn may_consume(ledger: Option<Credits>) -> bool {
    match ledger {
        Some(c) => amount_of(c.current_amount) > 0,
        None => false,
    }
}

/// The ledger after one unit is spent: one less remaining, one more used.
pub open spec fn consumed(c: Credits) -> Credits {
    Credits {
        _id: c._id,
        used_amount: Some((amount_of(c.used_amount) + 1) as i32),
        current_amount: Some((amount_of(c.current_amount) - 1) as i32),
        userId: c.userId,
    }
}

/// One consume attempt on a ledger: spent where entitled, untouched otherwise.
pub open spec fn consume_step(ledger: Option<Credits>) -> Option<Credits> {
    match ledger {
        Some(c) => if may_consume(ledger) {
            Some(consumed(c))
        } else {
            ledger
        },
        None => None,
    }
}

/// The ledger after `n` consume attempts, one after another.
pub open spec fn ledger_after(ledger: Option<Credits>, n: nat) -> Option<Credits>
    decreases n,
{
    if n == 0 {
        ledger
    } else {
        consume_step(ledger_after(ledger, (n - 1) as nat))
    }
}

/// How many of `n` consume attempts, one after another, are granted.
pub open spec fn granted(ledger: Option<Credits>, n: nat) -> nat
    decreases n,
{
    if n == 0 {
        0
    } else {
        granted(ledger, (n - 1) as nat) + if may_consume(ledger_after(ledger, (n - 1) as nat)) {
            1nat
        } else {
            0nat
        }
    }
}

/// The used amount can take one more unit without leaving 32 bits.
pub open spec fn can_record_use(ledger: Option<Credits>) -> bool {
    match ledger {
        Some(c) => amount_of(c.used_amount) < i32::MAX,
        None => true,
    }
}

/// Spends one unit of a subject's prepaid balance. Returns the ledger to store
/// when the subject is entitled, and `None`, leaving everything as it was, when
/// there is no ledger or its balance is not positive.
pub fn consume(ledger: &Option<Credits>) -> (r: Option<Credits>)
    requires
        may_consume(*ledger) ==> can_record_use(*ledger),
    ensures
        r is Some <==> may_consume(*ledger),
        r is Some ==> r == consume_step(*ledger),
{
    match ledger {
        None => None,
        Some(c) => {
            let current: i32 = match c.current_amount {
                Some(v) => v,
                None => 0,
            };
            if current <= 0 {
                return None;
            }
            let used: i32 = match c.used_amount {
                Some(v) => v,
                None => 0,
            };
            Some(
                Credits {
                    _id: c._id,
                    used_amount: Some(used + 1),
                    current_amount: Some(current - 1),
                    userId: c.userId,
                },
            )
        },
    }
}

/// Whether the used amount of `ledger` can take one more unit.
pub fn use_fits(ledger: &Option<Credits>) -> (r: bool)
    ensures
        r == can_record_use(*ledger),
{
    match ledger {
        Some(c) => match c.used_amount {
            Some(u) => u < i32::MAX,
            None => true,
        },
        None => true,
    }
}

/// The ledger of `user_id` after `amount` purchased units are added: an existing
/// ledger keeps its identity and used amount, a missing one is created with
/// nothing used and the identifier `new_id`.
pub fn top_up(existing: &Option<Credits>, user_id: ObjectId, new_id: ObjectId, amount: i32) -> (r:
    Credits)
    requires
        existing matches Some(c) ==> i32::MIN <= amount_of(c.current_amount) + amount <= i32::MAX,
    ensures
        match *existing {
            Some(c) => r._id == c._id && r.userId == c.userId && r.used_amount == c.used_amount
                && r.current_amount == Some((amount_of(c.current_amount) + amount) as i32),
            None => r._id == new_id && r.userId == user_id && r.current_amount == Some(amount) && r.used_amount
                == Some(0i32),
        },
{
    match existing {
        Some(c) => {
            let current: i32 = match c.current_amount {
                Some(v) => v,
                None => 0,
            };
            Credits {
                _id: c._id,
                used_amount: c.used_amount,
                current_amount: Some(current + amount),
                userId: c.userId,
            }
        },
        None => Credits {
            _id: new_id,
            used_amount: Some(0),
            current_amount: Some(amount),
            userId: user_id,
        },
    }
}

/// A ledger with nothing left grants no attempt, however many are made, and
/// stays as it was.
pub proof fn lemma_empty_balance_denies(c: Credits, n: nat)
    requires
        amount_of(c.current_amount) == 0,
    ensures
        granted(Some(c), n) == 0,
        ledger_after(Some(c), n) == Some(c),
    decreases n,
{
    if n > 0 {
        lemma_empty_balance_denies(c, (n - 1) as nat);
    }
}

/// Attempts made one after another on a ledger that can record them: the used
/// amount grows by the number granted, and remaining plus used stays constant.
pub proof fn lemma_consume_keeps_total(ledger: Option<Credits>, n: nat)
    requires
        ledger matches Some(c) ==> amount_of(c.used_amount) + n <= i32::MAX,
    ensures
        granted(ledger, n) <= n,
        ledger_after(ledger, n) is Some <==> ledger is Some,
        ledger matches Some(c) ==> {
            &&& ledger_after(ledger, n) matches Some(a)
            &&& amount_of(a.used_amount) == amount_of(c.used_amount) + granted(ledger, n)
            &&& amount_of(a.current_amount) + amount_of(a.used_amount) == amount_of(
                c.current_amount,
            ) + amount_of(c.used_amount)
        },
    decreases n,
{
    if n > 0 {
        lemma_consume_keeps_total(ledger, (n - 1) as nat);
    }
}

/// With a balance of `n`, `n` attempts one after another are all granted, the
/// next one is refused, and the used amount has grown by exactly `n`.
pub proof fn lemma_balance_grants_exactly(c: Credits, n: nat)
    requires
        n > 0,
        amount_of(c.current_amount) == n,
        amount_of(c.used_amount) + n <= i32::MAX,
    ensures
        granted(Some(c), n) == n,
        !may_consume(ledger_after(Some(c), n)),
        granted(Some(c), n + 1) == n,
        ledger_after(Some(c), n) matches Some(a) && amount_of(a.used_amount) == amount_of(
            c.used_amount,
        ) + n && amount_of(a.current_amount) == 0,
{
    lemma_balance_grants_prefix(c, n, n);
}

proof fn lemma_balance_grants_prefix(c: Credits, n: nat, k: nat)
    requires
        k <= n,
        amount_of(c.current_amount) == n,
        amount_of(c.used_amount) + n <= i32::MAX,
    ensures
        granted(Some(c), k) == k,
        ledger_after(Some(c), k) matches Some(a) && amount_of(a.used_amount) == amount_of(
            c.used_amount,
        ) + k && amount_of(a.current_amount) == n - k,
    decreases k,
{
    if k > 0 {
        lemma_balance_grants_prefix(c, n, (k - 1) as nat);
    }
}

} // verus!
