//! A staking ledger: each identity may lock one deposit for a fixed period,
//! earning fixed interest, and take it out after the lock expires or, at a
//! penalty, at any time.
use vstd::prelude::*;

pub mod laws;
pub mod ledger;
pub mod stake;

pub use ledger::StakingContract;
pub use stake::{Error, Stake};

verus! {

} // verus!
