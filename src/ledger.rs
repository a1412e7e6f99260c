//! The ledger's state transitions: first on the record (if any) that an
//! identity holds, then on the whole identity-keyed ledger.
use vstd::prelude::*;
use vstd::hash_map::StringHashMap;
use crate::stake::{Error, Stake, after_penalty, stake_of, total_fits, unlock_time};

verus! {

/// The record held under `user` in `m`, if any.
pub open spec fn lookup(m: Map<Seq<char>, Stake>, user: Seq<char>) -> Option<Stake> {
    if m.contains_key(user) {
        Some(m[user])
    } else {
        None
    }
}

/// What creating a stake yields, given the record already held.
pub open spec fn open_outcome(existing: Option<Stake>, principal: u64, lock_period: u64, now: u64) -> Result<Stake, Error> {
    match existing {
        Some(_) => Err(Error::AlreadyStaked),
        None => Ok(stake_of(principal, lock_period, now)),
    }
}

/// What a normal withdrawal at `now` pays out, given the record held.
pub open spec fn withdraw_outcome(existing: Option<Stake>, now: u64) -> Result<u64, Error> {
    match existing {
        None => Err(Error::NoStake),
        Some(s) => if (now as int) < unlock_time(s) {
            Err(Error::StillLocked)
        } else {
            Ok(s.amount)
        },
    }
}

/// What an emergency withdrawal pays out, given the record held.
pub open spec fn emergency_outcome(existing: Option<Stake>) -> Result<u64, Error> {
    match existing {
        None => Err(Error::NoStake),
        Some(s) => Ok(after_penalty(s.amount as int) as u64),
    }
}

/// The ledger and result after `user` asks to stake `principal` for `lock_period` at `now`.
pub open spec fn after_create(
    m: Map<Seq<char>, Stake>,
    user: Seq<char>,
    authorized: bool,
    principal: u64,
    lock_period: u64,
    now: u64,
) -> (Map<Seq<char>, Stake>, Result<(), Error>) {
    if !authorized {
        (m, Err(Error::Unauthorized))
    } else {
        match open_outcome(lookup(m, user), principal, lock_period, now) {
            Ok(s) => (m.insert(user, s), Ok(())),
            Err(e) => (m, Err(e)),
        }
    }
}

/// The ledger and result after `user` asks for a normal withdrawal at `now`.
pub open spec fn after_withdraw(m: Map<Seq<char>, Stake>, user: Seq<char>, authorized: bool, now: u64) -> (
    Map<Seq<char>, Stake>,
    Result<u64, Error>,
) {
    if !authorized {
        (m, Err(Error::Unauthorized))
    } else {
        match withdraw_outcome(lookup(m, user), now) {
            Ok(a) => (m.remove(user), Ok(a)),
            Err(e) => (m, Err(e)),
        }
    }
}

/// The ledger and result after `user` asks for an emergency withdrawal.
pub open spec fn after_emergency(m: Map<Seq<char>, Stake>, user: Seq<char>, authorized: bool) -> (
    Map<Seq<char>, Stake>,
    Result<u64, Error>,
) {
    if !authorized {
        (m, Err(Error::Unauthorized))
    } else {
        match emergency_outcome(lookup(m, user)) {
            Ok(a) => (m.remove(user), Ok(a)),
            Err(e) => (m, Err(e)),
        }
    }
}

/// Decides a stake creation against the record the identity already holds:
/// the new record to store, or why none may be stored.
pub fn open_stake(existing: Option<Stake>, principal: u64, lock_period: u64, now: u64) -> (r: Result<Stake, Error>)
    requires
        existing is None ==> total_fits(principal),
    ensures
        r == open_outcome(existing, principal, lock_period, now),
{
    match existing {
        Some(_) => Err(Error::AlreadyStaked),
        None => Ok(Stake::new(principal, lock_period, now)),
    }
}

/// Decides a normal withdrawal at `now` against the record the identity holds:
/// the amount to pay out (the record is then to be removed), or why not.
pub fn settle_withdraw(existing: Option<Stake>, now: u64) -> (r: Result<u64, Error>)
    ensures
        r == withdraw_outcome(existing, now),
{
    match existing {
        None => Err(Error::NoStake),
        Some(s) => if !s.is_unlocked(now) {
            Err(Error::StillLocked)
        } else {
            Ok(s.amount)
        },
    }
}

/// Decides an emergency withdrawal against the record the identity holds:
/// the amount to pay out after the penalty (the record is then to be removed),
/// or why not.
pub fn settle_emergency(existing: Option<Stake>) -> (r: Result<u64, Error>)
    ensures
        r == emergency_outcome(existing),
{
    match existing {
        None => Err(Error::NoStake),
        Some(s) => Ok(s.payout_after_penalty()),
    }
}

/// Stake records keyed by identity, at most one per identity.
pub struct StakingContract {
    records: StringHashMap<Stake>,
}

impl View for StakingContract {
    type V = Map<Seq<char>, Stake>;

    closed spec fn view(&self) -> Map<Seq<char>, Stake> {
        self.records@
    }
}

impl StakingContract {
    /// A ledger that holds no stake.
    pub fn new() -> (r: StakingContract)
        ensures
            r@ == Map::<Seq<char>, Stake>::empty(),
    {
        StakingContract { records: StringHashMap::new() }
    }

    /// Locks `amount` for `user` from `now` for `lock_period`, with the interest
    /// added at once. Fails, leaving the ledger as it was, when `authorized` is
    /// false or `user` already holds a stake.
    pub fn create_stake(&mut self, user: &str, authorized: bool, amount: u64, lock_period: u64, now: u64) -> (r: Result<(), Error>)
        requires
            authorized && !old(self)@.contains_key(user@) ==> total_fits(amount),
        ensures
            (final(self)@, r) == after_create(old(self)@, user@, authorized, amount, lock_period, now),
    {
        if !authorized {
            return Err(Error::Unauthorized);
        }
        let existing = self.get_stake(user);
        match open_stake(existing, amount, lock_period, now) {
            Ok(s) => {
                self.records.insert(user.to_owned(), s);
                Ok(())
            },
            Err(e) => Err(e),
        }
    }

    /// Pays out and removes `user`'s stake once its lock has expired at `now`.
    /// Fails, leaving the ledger as it was, when `authorized` is false, there is
    /// no stake, or it is still locked.
    pub fn withdraw(&mut self, user: &str, authorized: bool, now: u64) -> (r: Result<u64, Error>)
        ensures
            (final(self)@, r) == after_withdraw(old(self)@, user@, authorized, now),
    {
        if !authorized {
            return Err(Error::Unauthorized);
        }
        let existing = self.get_stake(user);
        let r = settle_withdraw(existing, now);
        if r.is_ok() {
            self.records.remove(user);
        }
        r
    }

    /// Pays out `user`'s stake less the penalty and removes it, whatever the
    /// time. Fails, leaving the ledger as it was, when `authorized` is false or
    /// there is no stake.
    pub fn emergency_withdraw(&mut self, user: &str, authorized: bool) -> (r: Result<u64, Error>)
        ensures
            (final(self)@, r) == after_emergency(old(self)@, user@, authorized),
    {
        if !authorized {
            return Err(Error::Unauthorized);
        }
        let existing = self.get_stake(user);
        let r = settle_emergency(existing);
        if r.is_ok() {
            self.records.remove(user);
        }
        r
    }

    /// The stake that `user` holds, if any.
    pub fn get_stake(&self, user: &str) -> (r: Option<Stake>)
        ensures
            r == lookup(self@, user@),
    {
        match self.records.get(user) {
            Some(s) => Some(*s),
            None => None,
        }
    }
}

} // verus!
