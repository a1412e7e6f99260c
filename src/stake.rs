//! The stake record, the error kinds and the fixed-rate arithmetic that
//! governs a single record.
use vstd::prelude::*;

verus! {

/// Percentage of the principal added as interest when a stake is created.
pub const INTEREST_RATE: u64 = 2;

/// Percentage of the stored amount forfeited by an emergency withdrawal.
pub const PENALTY_RATE: u64 = 10;

/// One identity's locked deposit.
#[derive(Clone, Copy, Debug, PartialEq, Eq, Structural)]
pub struct Stake {
    /// Total payable amount: principal plus the interest fixed at creation.
    pub amount: u64,
    /// Timestamp at which the stake was created.
    pub start_time: u64,
    /// How long, in timestamp units, the stake stays locked.
    pub lock_period: u64,
    /// Percentage rate that was applied at creation.
    pub interest_rate: u64,
}

/// Why an operation on the ledger failed.
#[derive(Clone, Copy, Debug, PartialEq, Eq, Structural, PartialOrd, Ord)]
pub enum Error {
    /// The identity already holds a stake.
    AlreadyStaked,
    /// The identity holds no stake.
    NoStake,
    /// The lock has not expired yet.
    StillLocked,
    /// The operation was not authorized by the identity.
    Unauthorized,
}

/// Interest earned on `principal`, rounded down.
pub open spec fn interest_of(principal: int) -> int {
    principal * INTEREST_RATE / 100
}

/// Amount stored for a stake created from `principal`.
pub open spec fn total_of(principal: int) -> int {
    principal + interest_of(principal)
}

/// Penalty kept back from `amount` on an emergency withdrawal, rounded down.
pub open spec fn penalty_of(amount: int) -> int {
    amount * PENALTY_RATE / 100
}

/// What an emergency withdrawal of a stake holding `amount` pays out.
pub open spec fn after_penalty(amount: int) -> int {
    amount - penalty_of(amount)
}

/// The first instant at which a normal withdrawal of `s` is allowed.
pub open spec fn unlock_time(s: Stake) -> int {
    s.start_time + s.lock_period
}

/// Whether `principal` can be staked without its total leaving `u64`.
pub open spec fn total_fits(principal: u64) -> bool {
    total_of(principal as int) <= u64::MAX
}

/// The record that a stake of `principal`, locked for `lock_period` from `now`, holds.
pub open spec fn stake_of(principal: u64, lock_period: u64, now: u64) -> Stake {
    Stake {
        amount: total_of(principal as int) as u64,
        start_time: now,
        lock_period,
        interest_rate: INTEREST_RATE,
    }
}

/// Whether a stake of `principal` has a total that fits in `u64`.
pub fn principal_fits(principal: u64) -> (r: bool)
    ensures
        r == total_fits(principal),
{
    assert((principal as int) * (INTEREST_RATE as int) <= 2 * (u64::MAX as int)) by (nonlinear_arith)
        requires
            principal <= u64::MAX,
            INTEREST_RATE == 2,
    ;
    let interest = (principal as u128) * (INTEREST_RATE as u128) / 100;
    (principal as u128) + interest <= u64::MAX as u128
}

impl Stake {
    /// Builds the record for `principal` locked for `lock_period` from `now`,
    /// with the interest already added to its amount.
    pub fn new(principal: u64, lock_period: u64, now: u64) -> (s: Stake)
        requires
            total_fits(principal),
        ensures
            s == stake_of(principal, lock_period, now),
            s.amount == total_of(principal as int),
    {
        let interest = ((principal as u128) * (INTEREST_RATE as u128) / 100) as u64;
        Stake {
            amount: principal + interest,
            start_time: now,
            lock_period,
            interest_rate: INTEREST_RATE,
        }
    }

    /// Whether the lock has expired at `now`, that is `now >= start_time + lock_period`.
    pub fn is_unlocked(&self, now: u64) -> (r: bool)
        ensures
            r == (now as int >= unlock_time(*self)),
    {
        now >= self.start_time && now - self.start_time >= self.lock_period
    }

    /// What an emergency withdrawal of this stake pays out.
    pub fn payout_after_penalty(&self) -> (r: u64)
        ensures
            r == after_penalty(self.amount as int),
    {
        let penalty = ((self.amount as u128) * (PENALTY_RATE as u128) / 100) as u64;
        assert(penalty <= self.amount) by {
            assert((self.amount as int) * 10 / 100 <= self.amount as int) by (nonlinear_arith);
        }
        self.amount - penalty
    }
}

} // verus!
