//! A time-locked linear-vesting ledger, with one lock per account.
//!
//! A deposit creates the caller's lock: half the amount vests
//! immediately, the rest drips out in daily tranches of a tenth of the
//! original amount, with the final tranche absorbing any rounding
//! remainder.  The ledger tracks, per account, how much has vested and
//! how much has already been withdrawn, and refuses a new deposit
//! while a previous lock still has locked or unwithdrawn funds.
//!
//! The hosting environment (account identity, clock, token custody,
//! durable storage) is the caller's concern: every operation takes the
//! caller's identity, the current time, and the outcome of any outward
//! transfer as plain arguments.

pub mod ledger;
pub mod schedule;

pub use ledger::Error;
pub use ledger::Staking;
pub use schedule::Lock;
pub use schedule::claimable_value;
