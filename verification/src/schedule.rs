//! The vesting schedule: a pure function from a lock record and an
//! evaluation time to the cumulative amount vested by that time.
//!
//! The schedule has a fixed shape: half of the deposit (rounded down)
//! vests the moment any evaluation time is supplied, and starting one
//! day after the lock's start, one tenth of the original deposit
//! (rounded down) vests per full elapsed day, drawn from the remaining
//! pool.  When the pool drops below one daily tranche, the final
//! tranche absorbs the whole remainder, so that the tranches sum to
//! exactly the deposited amount.

use vstd::arithmetic::div_mod::lemma_div_is_ordered;
use vstd::arithmetic::div_mod::lemma_div_multiples_vanish;
use vstd::arithmetic::div_mod::lemma_div_pos_is_pos;
use vstd::arithmetic::div_mod::lemma_fundamental_div_mod;
use vstd::arithmetic::div_mod::lemma_mod_bound;
use vstd::prelude::*;

verus! {

/// One day, in clock units (seconds).
pub const DAY: u64 = 86400;

/// One lock record: the amount deposited, the time it was deposited,
/// and the time of the last withdrawal against it (`None` when nothing
/// has ever been withdrawn).
#[derive(Clone, Copy, PartialEq, Eq, Debug)]
pub struct Lock {
    pub locked_amt: u128,
    pub locked_on: u64,
    pub last_claimed: Option<u64>,
}

/// The tranche that vests immediately: half the deposit, rounded down.
pub open spec fn immediate_half(amt: u128) -> int {
    amt as int / 2
}

/// The tranche that vests per elapsed day: a tenth of the original
/// deposit, rounded down.
pub open spec fn daily_tranche(amt: u128) -> int {
    amt as int / 10
}

/// The pool that the daily tranches draw from: what is left of the
/// deposit once the immediate half is taken out.
pub open spec fn initial_pool(amt: u128) -> int {
    amt as int - amt as int / 2
}

/// Number of full days elapsed from `locked_on` to `time` (zero when
/// `time` has not yet reached the first day boundary).
pub open spec fn elapsed_days(locked_on: u64, time: u64) -> int {
    if time >= locked_on {
        (time - locked_on) / (DAY as int)
    } else {
        0
    }
}

/// Amount drawn from a pool of size `pool` by `days` daily tranches of
/// size `tranche`.  Each day takes one tranche; a day that would leave
/// the pool below one tranche takes the whole pool instead.
pub open spec fn drip(pool: int, tranche: int, days: int) -> int
    decreases days,
{
    if days <= 0 || pool <= 0 || tranche <= 0 {
        0
    } else if pool < 2 * tranche {
        pool
    } else {
        tranche + drip(pool - tranche, tranche, days - 1)
    }
}

/// What is left of the pool after `days` daily tranches.
pub open spec fn pool_after(pool: int, tranche: int, days: int) -> int
    decreases days,
{
    if days <= 0 || pool <= 0 || tranche <= 0 {
        pool
    } else if pool < 2 * tranche {
        0
    } else {
        pool_after(pool - tranche, tranche, days - 1)
    }
}

/// Cumulative amount of `lock` vested by `time`.  An absent time means
/// "no evaluation point": nothing is vested, which is how a lock that
/// has never been claimed against carries a baseline of zero.
pub open spec fn vested(lock: Lock, time: Option<u64>) -> int {
    match time {
        Option::None => 0,
        Option::Some(t) => immediate_half(lock.locked_amt) + drip(
            initial_pool(lock.locked_amt),
            daily_tranche(lock.locked_amt),
            elapsed_days(lock.locked_on, t),
        ),
    }
}

/// What the daily tranches draw stays within the pool, and together
/// with what is left it accounts for the pool exactly.
proof fn lemma_drip_accounting(pool: int, tranche: int, days: int)
    requires
        pool >= 0,
    ensures
        0 <= drip(pool, tranche, days) <= pool,
        drip(pool, tranche, days) + pool_after(pool, tranche, days) == pool,
        pool_after(pool, tranche, days) >= 0,
    decreases days,
{
    if days <= 0 || pool <= 0 || tranche <= 0 {
    } else if pool < 2 * tranche {
    } else {
        lemma_drip_accounting(pool - tranche, tranche, days - 1);
    }
}

/// More days never draw less.
proof fn lemma_drip_monotonic(pool: int, tranche: int, d1: int, d2: int)
    requires
        pool >= 0,
        d1 <= d2,
    ensures
        drip(pool, tranche, d1) <= drip(pool, tranche, d2),
    decreases d2,
{
    if d1 <= 0 || pool <= 0 || tranche <= 0 {
        lemma_drip_accounting(pool, tranche, d2);
    } else if pool < 2 * tranche {
        lemma_drip_accounting(pool, tranche, d2);
    } else {
        lemma_drip_monotonic(pool - tranche, tranche, d1 - 1, d2 - 1);
    }
}

/// Taking one more day is the same as taking one day from what is left
/// after the first `days`.
proof fn lemma_drip_step(pool: int, tranche: int, days: int)
    requires
        pool >= 0,
        days >= 0,
    ensures
        drip(pool, tranche, days + 1) == drip(pool, tranche, days) + drip(
            pool_after(pool, tranche, days),
            tranche,
            1,
        ),
        pool_after(pool, tranche, days + 1) == pool_after(
            pool_after(pool, tranche, days),
            tranche,
            1,
        ),
    decreases days,
{
    if days == 0 || pool <= 0 || tranche <= 0 {
    } else if pool < 2 * tranche {
    } else {
        lemma_drip_step(pool - tranche, tranche, days - 1);
    }
}

/// Once the pool is drained, further days draw nothing more.
proof fn lemma_drip_drained(pool: int, tranche: int, d1: int, d2: int)
    requires
        pool >= 0,
        d1 <= d2,
        pool_after(pool, tranche, d1) == 0,
    ensures
        drip(pool, tranche, d2) == pool,
    decreases d2,
{
    lemma_drip_accounting(pool, tranche, d1);
    lemma_drip_accounting(pool, tranche, d2);
    lemma_drip_monotonic(pool, tranche, d1, d2);
}

/// Enough days of a positive tranche drain the pool completely.
proof fn lemma_drip_complete(pool: int, tranche: int, days: int)
    requires
        tranche >= 1,
        0 <= pool <= days * tranche,
    ensures
        drip(pool, tranche, days) == pool,
    decreases days,
{
    if pool == 0 {
    } else {
        assert(days >= 1) by (nonlinear_arith)
            requires
                tranche >= 1,
                1 <= pool <= days * tranche,
        ;
        if pool < 2 * tranche {
        } else {
            assert(pool - tranche <= (days - 1) * tranche) by (nonlinear_arith)
                requires
                    pool <= days * tranche,
            ;
            lemma_drip_complete(pool - tranche, tranche, days - 1);
        }
    }
}

/// The daily tranche never exceeds the pool it draws from.
proof fn lemma_pool_holds_tranche(amt: u128)
    ensures
        0 <= daily_tranche(amt) <= initial_pool(amt),
{
    assert(10 * (amt as int / 10) <= amt as int) by (nonlinear_arith);
    assert(2 * (amt as int / 2) <= amt as int) by (nonlinear_arith);
}

/// Law: without an evaluation time nothing is vested.
pub proof fn lemma_vested_none(lock: Lock)
    ensures
        vested(lock, Option::None) == 0,
{
}

/// Law: vesting is monotonic in time.  Evaluating the same lock at a
/// later time never yields less.
pub proof fn lemma_vested_monotonic(lock: Lock, t1: u64, t2: u64)
    requires
        t1 <= t2,
    ensures
        vested(lock, Option::Some(t1)) <= vested(lock, Option::Some(t2)),
{
    let d1 = elapsed_days(lock.locked_on, t1);
    let d2 = elapsed_days(lock.locked_on, t2);
    if t1 >= lock.locked_on {
        lemma_div_is_ordered(
            t1 - lock.locked_on,
            t2 - lock.locked_on,
            DAY as int,
        );
    } else if t2 >= lock.locked_on {
        lemma_div_pos_is_pos(t2 - lock.locked_on, DAY as int);
    }
    lemma_pool_holds_tranche(lock.locked_amt);
    lemma_drip_monotonic(
        initial_pool(lock.locked_amt),
        daily_tranche(lock.locked_amt),
        d1,
        d2,
    );
}

/// Law: vesting never exceeds the deposited amount.
pub proof fn lemma_vested_bounded(lock: Lock, t: u64)
    ensures
        0 <= vested(lock, Option::Some(t)) <= lock.locked_amt,
{
    lemma_pool_holds_tranche(lock.locked_amt);
    lemma_drip_accounting(
        initial_pool(lock.locked_amt),
        daily_tranche(lock.locked_amt),
        elapsed_days(lock.locked_on, t),
    );
}

/// Law: ten days after the lock's start the whole deposit has vested
/// — the tranches, remainder rule included, sum to exactly the
/// deposited amount, so nothing is lost to rounding.  Deposits under
/// ten tokens are out: their daily tranche rounds down to zero and the
/// drip never progresses.
pub proof fn lemma_vested_full(lock: Lock, t: u64)
    requires
        lock.locked_amt >= 10,
        t as int >= lock.locked_on as int + 10 * (DAY as int),
    ensures
        vested(lock, Option::Some(t)) == lock.locked_amt,
{
    let a = lock.locked_amt as int;
    let q = a / 10;
    let h = a / 2;
    let days = elapsed_days(lock.locked_on, t);
    lemma_fundamental_div_mod(a, 10);
    lemma_mod_bound(a, 10);
    lemma_fundamental_div_mod(a, 2);
    lemma_mod_bound(a, 2);
    assert(q >= 1);
    assert(a - h <= 10 * q);
    assert((t - lock.locked_on) >= 10 * (DAY as int));
    lemma_div_is_ordered(10 * (DAY as int), t - lock.locked_on, DAY as int);
    lemma_div_multiples_vanish(10, DAY as int);
    assert(days >= 10);
    assert(a - h <= days * q) by (nonlinear_arith)
        requires
            days >= 10,
            q >= 1,
            a - h <= 10 * q,
    ;
    lemma_drip_complete(a - h, q, days);
}

/// Cumulative vesting by `time`: half the deposit at once, then one
/// tenth of the deposit per full elapsed day out of the remaining
/// pool, the last tranche absorbing the remainder.  An absent time
/// yields zero.
#[verifier::loop_isolation(false)]
pub fn claimable_value(lock: &Lock, time: Option<u64>) -> (claim: u128)
    ensures
        claim as int == vested(*lock, time),
{
    match time {
        Option::None => 0,
        Option::Some(t) => {
            let amt = lock.locked_amt;
            let half = amt / 2;
            let daily = amt / 10;
            let mut pool = amt - half;
            let mut claim = half;
            let days: u64 = if t >= lock.locked_on {
                (t - lock.locked_on) / DAY
            } else {
                0
            };
            proof {
                lemma_pool_holds_tranche(amt);
            }
            let mut i: u64 = 0;
            while i < days && pool > 0 && daily > 0
                invariant
                    i <= days,
                    half == immediate_half(amt),
                    daily == daily_tranche(amt),
                    pool as int == pool_after(initial_pool(amt), daily as int, i as int),
                    claim as int == half as int + drip(initial_pool(amt), daily as int, i as int),
                    pool == 0 || pool >= daily,
                    claim as int + pool as int == amt as int,
                decreases days - i,
            {
                proof {
                    let p0 = initial_pool(amt);
                    let tr = daily as int;
                    let pc = pool as int;
                    lemma_drip_step(p0, tr, i as int);
                    if pc < 2 * tr {
                        assert(drip(pc, tr, 1) == pc);
                        assert(pool_after(pc, tr, 1) == 0);
                    } else {
                        assert(drip(pc - tr, tr, 0) == 0);
                        assert(drip(pc, tr, 1) == tr + drip(pc - tr, tr, 0));
                        assert(pool_after(pc - tr, tr, 0) == pc - tr);
                        assert(pool_after(pc, tr, 1) == pool_after(pc - tr, tr, 0));
                    }
                }
                pool = pool - daily;
                claim = claim + daily;
                if pool < daily {
                    claim = claim + pool;
                    pool = 0;
                }
                i = i + 1;
            }
            proof {
                let p0 = initial_pool(amt);
                let tr = daily as int;
                let d = elapsed_days(lock.locked_on, t);
                assert(days as int == d);
                if i < days {
                    if pool == 0 {
                        lemma_drip_drained(p0, tr, i as int, d);
                        lemma_drip_accounting(p0, tr, i as int);
                    }
                }
            }
            claim
        },
    }
}

} // verus!
