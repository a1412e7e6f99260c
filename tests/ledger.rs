use staking::ledger::{open_stake, settle_emergency, settle_withdraw};
use staking::stake::{principal_fits, INTEREST_RATE, PENALTY_RATE};
use staking::{Error, Stake, StakingContract};

#[test]
fn create_then_get_adds_interest() {
    let mut l = StakingContract::new();
    assert_eq!(l.create_stake("alice", true, 1000, 100, 7), Ok(()));
    let s = l.get_stake("alice").unwrap();
    assert_eq!(s.amount, 1020);
    assert_eq!(s.start_time, 7);
    assert_eq!(s.lock_period, 100);
    assert_eq!(s.interest_rate, 2);
}

#[test]
fn interest_rounds_down() {
    let mut l = StakingContract::new();
    assert_eq!(l.create_stake("a", true, 1, 0, 0), Ok(()));
    assert_eq!(l.get_stake("a").unwrap().amount, 1);
    assert_eq!(l.create_stake("b", true, 49, 0, 0), Ok(()));
    assert_eq!(l.get_stake("b").unwrap().amount, 49);
    assert_eq!(l.create_stake("c", true, 50, 0, 0), Ok(()));
    assert_eq!(l.get_stake("c").unwrap().amount, 51);
    assert_eq!(l.create_stake("d", true, 1234, 0, 0), Ok(()));
    assert_eq!(l.get_stake("d").unwrap().amount, 1258);
}

#[test]
fn zero_principal_is_accepted() {
    let mut l = StakingContract::new();
    assert_eq!(l.create_stake("alice", true, 0, 10, 0), Ok(()));
    assert_eq!(l.get_stake("alice").unwrap().amount, 0);
    assert_eq!(l.create_stake("alice", true, 5, 10, 0), Err(Error::AlreadyStaked));
}

#[test]
fn large_principal_without_overflow() {
    let p: u64 = u64::MAX / 2;
    let s = Stake::new(p, 0, 0);
    assert_eq!(s.amount as u128, p as u128 + (p as u128) * 2 / 100);
    assert_eq!(s.payout_after_penalty(), s.amount - s.amount / 10);
}

#[test]
fn second_create_fails_and_keeps_first() {
    let mut l = StakingContract::new();
    assert_eq!(l.create_stake("alice", true, 1000, 100, 0), Ok(()));
    let first = l.get_stake("alice").unwrap();
    assert_eq!(l.create_stake("alice", true, 500, 5, 9), Err(Error::AlreadyStaked));
    assert_eq!(l.get_stake("alice"), Some(first));
}

#[test]
fn withdraw_gated_by_maturity() {
    let mut l = StakingContract::new();
    assert_eq!(l.create_stake("alice", true, 1000, 100, 10), Ok(()));
    assert_eq!(l.withdraw("alice", true, 109), Err(Error::StillLocked));
    assert!(l.get_stake("alice").is_some());
    assert_eq!(l.withdraw("alice", true, 110), Ok(1020));
    assert_eq!(l.get_stake("alice"), None);
}

#[test]
fn zero_lock_period_withdraws_at_once() {
    let mut l = StakingContract::new();
    assert_eq!(l.create_stake("alice", true, 300, 0, 42), Ok(()));
    assert_eq!(l.withdraw("alice", true, 42), Ok(306));
}

#[test]
fn unlock_time_past_u64_stays_locked() {
    let mut l = StakingContract::new();
    assert_eq!(l.create_stake("alice", true, 100, u64::MAX, 10), Ok(()));
    assert_eq!(l.withdraw("alice", true, u64::MAX), Err(Error::StillLocked));
    let s = l.get_stake("alice").unwrap();
    assert!(!s.is_unlocked(u64::MAX));
    assert!(!s.is_unlocked(0));
}

#[test]
fn emergency_withdraw_before_maturity() {
    let mut l = StakingContract::new();
    assert_eq!(l.create_stake("alice", true, 1000, 1000, 0), Ok(()));
    assert_eq!(l.emergency_withdraw("alice", true), Ok(918));
    assert_eq!(l.get_stake("alice"), None);
}

#[test]
fn emergency_withdraw_after_maturity() {
    let mut l = StakingContract::new();
    assert_eq!(l.create_stake("alice", true, 55, 1, 0), Ok(()));
    assert_eq!(l.get_stake("alice").unwrap().amount, 56);
    assert_eq!(l.emergency_withdraw("alice", true), Ok(51));
    assert_eq!(l.get_stake("alice"), None);
}

#[test]
fn no_record_operations() {
    let mut l = StakingContract::new();
    assert_eq!(l.withdraw("nobody", true, 5), Err(Error::NoStake));
    assert_eq!(l.emergency_withdraw("nobody", true), Err(Error::NoStake));
    assert_eq!(l.get_stake("nobody"), None);
}

#[test]
fn unauthorized_changes_nothing() {
    let mut l = StakingContract::new();
    assert_eq!(l.create_stake("alice", false, 1000, 100, 0), Err(Error::Unauthorized));
    assert_eq!(l.get_stake("alice"), None);
    assert_eq!(l.create_stake("alice", true, 1000, 100, 0), Ok(()));
    assert_eq!(l.withdraw("alice", false, 500), Err(Error::Unauthorized));
    assert_eq!(l.emergency_withdraw("alice", false), Err(Error::Unauthorized));
    assert_eq!(l.get_stake("alice").unwrap().amount, 1020);
}

#[test]
fn identities_are_independent() {
    let mut l = StakingContract::new();
    assert_eq!(l.create_stake("alice", true, 1000, 100, 0), Ok(()));
    assert_eq!(l.create_stake("bob", true, 2000, 0, 0), Ok(()));
    assert_eq!(l.withdraw("bob", true, 0), Ok(2040));
    assert_eq!(l.get_stake("alice").unwrap().amount, 1020);
    assert_eq!(l.get_stake("bob"), None);
}

#[test]
fn scenario_maturity_then_restake() {
    let mut l = StakingContract::new();
    assert_eq!(l.create_stake("user", true, 1000, 100, 0), Ok(()));
    assert_eq!(l.get_stake("user").unwrap().amount, 1020);
    assert_eq!(l.withdraw("user", true, 50), Err(Error::StillLocked));
    assert_eq!(l.withdraw("user", true, 100), Ok(1020));
    assert_eq!(l.get_stake("user"), None);
    assert_eq!(l.create_stake("user", true, 1000, 100, 100), Ok(()));
}

#[test]
fn scenario_emergency_penalty() {
    let mut l = StakingContract::new();
    assert_eq!(l.create_stake("user", true, 1000, 100, 0), Ok(()));
    assert_eq!(l.get_stake("user").unwrap().amount, 1020);
    assert_eq!(l.emergency_withdraw("user", true), Ok(918));
}

#[test]
fn record_level_rules() {
    let s = open_stake(None, 1000, 100, 0).unwrap();
    assert_eq!(
        s,
        Stake { amount: 1020, start_time: 0, lock_period: 100, interest_rate: INTEREST_RATE }
    );
    assert_eq!(open_stake(Some(s), 1, 1, 1), Err(Error::AlreadyStaked));
    assert_eq!(settle_withdraw(None, 0), Err(Error::NoStake));
    assert_eq!(settle_withdraw(Some(s), 99), Err(Error::StillLocked));
    assert_eq!(settle_withdraw(Some(s), 100), Ok(1020));
    assert_eq!(settle_emergency(None), Err(Error::NoStake));
    assert_eq!(settle_emergency(Some(s)), Ok(1020 - 1020 * PENALTY_RATE / 100));
}

#[test]
fn principal_fits_at_the_edge() {
    assert!(principal_fits(0));
    assert!(principal_fits(1000));
    assert!(principal_fits(u64::MAX / 2));
    assert!(!principal_fits(u64::MAX));
    let max_ok: u64 = 18_085_043_209_519_168_250;
    assert!(principal_fits(max_ok));
    assert!(!principal_fits(max_ok + 1));
}
