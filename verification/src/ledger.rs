//! The lock ledger: one lock per account, with lifecycle operations
//! (deposit, query, claim) built on the vesting schedule.
//!
//! The ledger is pure with respect to its host: the caller's identity,
//! the current time, the amount funding a deposit, and the outcome of
//! an outward transfer all arrive as arguments, and the host performs
//! the actual custody transfer with the amount this module hands back.

use crate::schedule::Lock;
use crate::schedule::claimable_value;
use crate::schedule::lemma_vested_bounded;
use crate::schedule::vested;
use std::collections::HashMap;
use vstd::prelude::*;

verus! {

broadcast use vstd::std_specs::hash::group_hash_axioms;

/// Why a requested state transition was refused.  Every rejection
/// leaves the stored ledger unchanged.
#[derive(Clone, Copy, PartialEq, Eq, Debug)]
pub enum Error {
    /// A deposit of zero tokens.
    ZeroAmount,
    /// A deposit while the previous lock still has time-locked funds.
    PriorLockActive,
    /// A deposit while the previous lock has vested funds not yet
    /// withdrawn.
    UnclaimedPendingFunds,
    /// The custody transfer of a claim did not succeed.
    TransferFailed,
}

/// The per-account lock ledger.
pub struct Staking {
    stakes: HashMap<u64, Lock>,
}

impl View for Staking {
    type V = Map<u64, Lock>;

    closed spec fn view(&self) -> Map<u64, Lock> {
        self.stakes@
    }
}

/// The lock stored for `caller`, if any.
pub open spec fn lock_of(m: Map<u64, Lock>, caller: u64) -> Option<Lock> {
    if m.contains_key(caller) {
        Option::Some(m[caller])
    } else {
        Option::None
    }
}

/// Well-formedness of the ledger: a zero-amount lock is never stored.
pub open spec fn wf(m: Map<u64, Lock>) -> bool {
    forall|k: u64| m.contains_key(k) ==> #[trigger] m[k].locked_amt > 0
}

/// Funds of `caller` still time-locked at `now`: the deposit less
/// what has vested.  Zero for an account without a lock.
pub open spec fn locked_remaining(m: Map<u64, Lock>, caller: u64, now: u64) -> int {
    match lock_of(m, caller) {
        Option::None => 0,
        Option::Some(l) => l.locked_amt - vested(l, Option::Some(now)),
    }
}

/// Cumulative amount `caller` has already withdrawn: what had vested
/// by the time of the last claim (zero when never claimed).
pub open spec fn claimed_total(m: Map<u64, Lock>, caller: u64) -> int {
    match lock_of(m, caller) {
        Option::None => 0,
        Option::Some(l) => vested(l, l.last_claimed),
    }
}

/// Funds of `caller` vested by `now` but not yet withdrawn.  Guarded
/// against going negative, though monotonicity of vesting rules that
/// out for a clock that never runs backwards.
pub open spec fn pending(m: Map<u64, Lock>, caller: u64, now: u64) -> int {
    match lock_of(m, caller) {
        Option::None => 0,
        Option::Some(l) => {
            if vested(l, Option::Some(now)) >= vested(l, l.last_claimed) {
                vested(l, Option::Some(now)) - vested(l, l.last_claimed)
            } else {
                0
            }
        },
    }
}

/// The lock a successful deposit stores: the full amount, locked from
/// `locked_on`, with no withdrawal yet.
pub open spec fn fresh_lock(locked_amt: u128, locked_on: u64) -> Lock {
    Lock { locked_amt, locked_on, last_claimed: Option::None }
}

/// A lock after a claim at `now`: only the last-claim checkpoint
/// moves.
pub open spec fn claimed_lock(l: Lock, now: u64) -> Lock {
    Lock { locked_amt: l.locked_amt, locked_on: l.locked_on, last_claimed: Option::Some(now) }
}

/// Whether a deposit of `amount` by `caller` at `now` is admissible,
/// and if not, why: a zero amount is refused outright; then the
/// previous lock, if any, must be fully vested and fully withdrawn.
pub open spec fn deposit_check(m: Map<u64, Lock>, caller: u64, amount: u128, now: u64) -> Result<
    (),
    Error,
> {
    if amount == 0 {
        Result::Err(Error::ZeroAmount)
    } else if locked_remaining(m, caller, now) != 0 {
        Result::Err(Error::PriorLockActive)
    } else if pending(m, caller, now) != 0 {
        Result::Err(Error::UnclaimedPendingFunds)
    } else {
        Result::Ok(())
    }
}

/// The ledger after a claim by `caller` at `now`: unchanged when
/// nothing is pending, otherwise the caller's lock with its last-claim
/// checkpoint advanced to `now`.
pub open spec fn claim_update(m: Map<u64, Lock>, caller: u64, now: u64) -> Map<u64, Lock> {
    if pending(m, caller, now) == 0 {
        m
    } else {
        m.insert(caller, claimed_lock(m[caller], now))
    }
}

/// What a claim by `caller` at `now` reports: the amount withdrawn
/// (zero for the no-op), or the transfer failure.
pub open spec fn claim_outcome(
    m: Map<u64, Lock>,
    caller: u64,
    now: u64,
    transfer_ok: bool,
) -> Result<u128, Error> {
    if pending(m, caller, now) == 0 {
        Result::Ok(0)
    } else if transfer_ok {
        Result::Ok(pending(m, caller, now) as u128)
    } else {
        Result::Err(Error::TransferFailed)
    }
}

impl Staking {
    /// An empty ledger: no account has ever deposited.
    pub fn new() -> (s: Staking)
        ensures
            s@ == Map::<u64, Lock>::empty(),
    {
        Staking { stakes: HashMap::new() }
    }

    /// The caller's current lock, or `None` if the account has never
    /// deposited.  No side effects.
    pub fn get_lock_details(&self, caller: u64) -> (r: Option<Lock>)
        ensures
            r == lock_of(self@, caller),
    {
        match self.stakes.get(&caller) {
            Option::Some(lock) => Option::Some(*lock),
            Option::None => Option::None,
        }
    }

    /// Stores a lock for `caller` as given, overwriting any previous
    /// one unconditionally.  This is the privileged path that trusts
    /// its caller with the start time; the funded entry point is
    /// `lock_tokens`.
    pub fn insert(&mut self, caller: u64, locked_amt: u128, locked_on: u64)
        requires
            locked_amt > 0,
        ensures
            final(self)@ == old(self)@.insert(caller, fresh_lock(locked_amt, locked_on)),
            wf(old(self)@) ==> wf(final(self)@),
    {
        let lock = Lock { locked_amt, locked_on, last_claimed: Option::None };
        self.stakes.insert(caller, lock);
    }

    /// Funds of the caller still time-locked at `now`.
    pub fn get_locked_amt(&self, caller: u64, now: u64) -> (r: u128)
        ensures
            r as int == locked_remaining(self@, caller, now),
    {
        match self.get_lock_details(caller) {
            Option::None => 0,
            Option::Some(lock) => {
                proof {
                    lemma_vested_bounded(lock, now);
                }
                lock.locked_amt - claimable_value(&lock, Option::Some(now))
            },
        }
    }

    /// Cumulative amount the caller has already withdrawn.
    pub fn get_claimed_amt(&self, caller: u64) -> (r: u128)
        ensures
            r as int == claimed_total(self@, caller),
    {
        match self.get_lock_details(caller) {
            Option::None => 0,
            Option::Some(lock) => claimable_value(&lock, lock.last_claimed),
        }
    }

    /// Funds of the caller vested by `now` but not yet withdrawn.
    pub fn get_pending_amt(&self, caller: u64, now: u64) -> (r: u128)
        ensures
            r as int == pending(self@, caller, now),
    {
        match self.get_lock_details(caller) {
            Option::None => 0,
            Option::Some(lock) => {
                let now_vested = claimable_value(&lock, Option::Some(now));
                let already_claimed = claimable_value(&lock, lock.last_claimed);
                if now_vested >= already_claimed {
                    now_vested - already_claimed
                } else {
                    0
                }
            },
        }
    }

    /// The funded deposit: locks `amount` (the value attached to the
    /// call) for the caller from `now` (the host clock's reading).
    /// Refused when the amount is zero or when the caller's previous
    /// lock still has locked or unwithdrawn funds; a refusal leaves
    /// the ledger untouched.
    pub fn lock_tokens(&mut self, caller: u64, amount: u128, now: u64) -> (r: Result<(), Error>)
        ensures
            r == deposit_check(old(self)@, caller, amount, now),
            r is Ok ==> final(self)@ == old(self)@.insert(caller, fresh_lock(amount, now)),
            r is Err ==> final(self)@ == old(self)@,
            wf(old(self)@) ==> wf(final(self)@),
    {
        if amount == 0 {
            return Result::Err(Error::ZeroAmount);
        }
        if self.get_locked_amt(caller, now) != 0 {
            return Result::Err(Error::PriorLockActive);
        }
        if self.get_pending_amt(caller, now) != 0 {
            return Result::Err(Error::UnclaimedPendingFunds);
        }
        let lock = Lock { locked_amt: amount, locked_on: now, last_claimed: Option::None };
        self.stakes.insert(caller, lock);
        Result::Ok(())
    }

    /// The claim: withdraws everything vested by `now` and not yet
    /// withdrawn.  With nothing pending it is a no-op, not an error.
    /// Otherwise the caller's lock is rewritten with its last-claim
    /// checkpoint advanced to `now`, and the amount to hand over is
    /// returned; the host performs the custody transfer and reports
    /// its outcome in `transfer_ok`.  A failed transfer leaves the
    /// ledger exactly as it was — the checkpoint and the payout move
    /// together or not at all.
    pub fn claim_tokens(&mut self, caller: u64, now: u64, transfer_ok: bool) -> (r: Result<
        u128,
        Error,
    >)
        ensures
            r == claim_outcome(old(self)@, caller, now, transfer_ok),
            final(self)@ == (if pending(old(self)@, caller, now) != 0 && transfer_ok {
                claim_update(old(self)@, caller, now)
            } else {
                old(self)@
            }),
            transfer_ok ==> pending(final(self)@, caller, now) == 0,
            wf(old(self)@) ==> wf(final(self)@),
    {
        let value = self.get_pending_amt(caller, now);
        if value == 0 {
            return Result::Ok(0);
        }
        if !transfer_ok {
            return Result::Err(Error::TransferFailed);
        }
        match self.get_lock_details(caller) {
            Option::Some(lock) => {
                let updated = Lock {
                    locked_amt: lock.locked_amt,
                    locked_on: lock.locked_on,
                    last_claimed: Option::Some(now),
                };
                self.stakes.insert(caller, updated);
                Result::Ok(value)
            },
            Option::None => Result::Ok(value),  // unreachable: pending funds imply a lock
        }
    }
}

/// Law: a claim settles the claimable window.  After the ledger is
/// updated for a claim at `now`, nothing is pending at `now` any
/// more, and updating again for the same time changes nothing — a
/// repeated claim is a no-op.
pub proof fn lemma_claim_idempotent(m: Map<u64, Lock>, caller: u64, now: u64)
    ensures
        pending(claim_update(m, caller, now), caller, now) == 0,
        claim_update(claim_update(m, caller, now), caller, now) == claim_update(m, caller, now),
{
}

} // verus!
