//! Properties of the ledger's transitions, stated over the same spec
//! functions that the ledger's operations are specified by.
use vstd::prelude::*;
use crate::ledger::{after_create, after_emergency, after_withdraw, lookup};
use crate::stake::{Error, Stake, total_fits, unlock_time};

verus! {

/// Creating a stake for an identity that holds none succeeds, and reading it
/// back gives `principal + floor(principal * 2 / 100)` with an interest rate of 2.
pub proof fn lemma_create_then_get(
    m: Map<Seq<char>, Stake>,
    user: Seq<char>,
    principal: u64,
    lock_period: u64,
    now: u64,
)
    requires
        !m.contains_key(user),
        total_fits(principal),
    ensures
        after_create(m, user, true, principal, lock_period, now).1 == Ok::<(), Error>(()),
        lookup(after_create(m, user, true, principal, lock_period, now).0, user) is Some,
        lookup(after_create(m, user, true, principal, lock_period, now).0, user)->Some_0.amount
            == principal + principal * 2 / 100,
        lookup(after_create(m, user, true, principal, lock_period, now).0, user)->Some_0.interest_rate
            == 2,
{
}

/// A second creation for the same identity, with no withdrawal between,
/// fails with `AlreadyStaked` and leaves the record of the first in place.
pub proof fn lemma_create_twice(
    m: Map<Seq<char>, Stake>,
    user: Seq<char>,
    principal1: u64,
    lock_period1: u64,
    now1: u64,
    principal2: u64,
    lock_period2: u64,
    now2: u64,
)
    requires
        !m.contains_key(user) ==> total_fits(principal1),
    ensures
        ({
            let m1 = after_create(m, user, true, principal1, lock_period1, now1).0;
            let (m2, r2) = after_create(m1, user, true, principal2, lock_period2, now2);
            r2 == Err::<(), Error>(Error::AlreadyStaked) && m2 == m1 && lookup(m2, user) == lookup(m1, user)
        }),
{
}

/// A normal withdrawal before `start_time + lock_period` fails with
/// `StillLocked` and changes nothing; at or after that instant it pays out the
/// stored amount and the identity then holds no stake.
pub proof fn lemma_withdraw_at_maturity(m: Map<Seq<char>, Stake>, user: Seq<char>, now: u64)
    requires
        m.contains_key(user),
    ensures
        (now as int) < unlock_time(m[user]) ==> after_withdraw(m, user, true, now) == (
            m,
            Err::<u64, Error>(Error::StillLocked),
        ),
        (now as int) >= unlock_time(m[user]) ==> after_withdraw(m, user, true, now).1 == Ok::<u64, Error>(
            m[user].amount,
        ) && lookup(after_withdraw(m, user, true, now).0, user) is None,
{
}

/// An emergency withdrawal succeeds whatever the time, pays out
/// `amount - floor(amount * 10 / 100)` and removes the record.
pub proof fn lemma_emergency_any_time(m: Map<Seq<char>, Stake>, user: Seq<char>)
    requires
        m.contains_key(user),
    ensures
        after_emergency(m, user, true).1 == Ok::<u64, Error>(
            (m[user].amount - m[user].amount * 10 / 100) as u64,
        ),
        lookup(after_emergency(m, user, true).0, user) is None,
{
}

/// For an identity with no record, both withdrawals fail with `NoStake` and
/// change nothing, and reading its stake gives nothing.
pub proof fn lemma_no_record(m: Map<Seq<char>, Stake>, user: Seq<char>, now: u64)
    requires
        !m.contains_key(user),
    ensures
        after_withdraw(m, user, true, now) == (m, Err::<u64, Error>(Error::NoStake)),
        after_emergency(m, user, true) == (m, Err::<u64, Error>(Error::NoStake)),
        lookup(m, user) is None,
{
}

} // verus!
