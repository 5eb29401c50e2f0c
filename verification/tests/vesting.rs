use staking::Error;
use staking::Lock;
use staking::Staking;
use staking::claimable_value;

const DAY: u64 = 86400;

fn lock(amt: u128, on: u64) -> Lock {
    Lock { locked_amt: amt, locked_on: on, last_claimed: None }
}

#[test]
fn new_works() {
    let staking = Staking::new();
    assert_eq!(staking.get_lock_details(1), None);
}

#[test]
fn insert_works() {
    let mut staking = Staking::new();
    assert_eq!(staking.get_lock_details(1), None);
    staking.insert(1, 5, 10);
    let output = Lock { locked_amt: 5, locked_on: 10, last_claimed: None };
    assert_eq!(staking.get_lock_details(1), Some(output));
}

#[test]
fn no_time_means_nothing_vested() {
    assert_eq!(claimable_value(&lock(1000, 0), None), 0);
    assert_eq!(claimable_value(&lock(7, 123), None), 0);
}

#[test]
fn half_vests_immediately() {
    assert_eq!(claimable_value(&lock(1000, 0), Some(0)), 500);
    // Even an evaluation time before the lock's start yields the half.
    assert_eq!(claimable_value(&lock(1000, 100), Some(0)), 500);
    // Odd amounts round the half down.
    assert_eq!(claimable_value(&lock(1001, 0), Some(0)), 500);
}

#[test]
fn daily_tranches_accumulate() {
    let l = lock(1000, 0);
    assert_eq!(claimable_value(&l, Some(DAY - 1)), 500);
    assert_eq!(claimable_value(&l, Some(DAY)), 600);
    assert_eq!(claimable_value(&l, Some(2 * DAY)), 700);
    assert_eq!(claimable_value(&l, Some(4 * DAY)), 900);
    assert_eq!(claimable_value(&l, Some(5 * DAY)), 1000);
}

#[test]
fn vesting_is_monotonic_and_bounded() {
    let l = lock(997, 50);
    let mut previous = 0;
    for day in 0..15u64 {
        let v = claimable_value(&l, Some(50 + day * DAY));
        assert!(v >= previous);
        assert!(v <= 997);
        previous = v;
    }
}

#[test]
fn full_schedule_reached_by_ten_days() {
    // Worst case for the schedule length: a tranche of 1 against a
    // pool of 10 takes all ten days.
    let l = lock(19, 0);
    assert_eq!(claimable_value(&l, Some(9 * DAY)), 18);
    assert_eq!(claimable_value(&l, Some(10 * DAY)), 19);
    assert_eq!(claimable_value(&l, Some(100 * DAY)), 19);
}

#[test]
fn rounding_remainder_is_absorbed() {
    // 1005 is not divisible by 10: half is 502, the pool 503, the
    // daily tranche 100.  The fifth tranche absorbs the leftover 3,
    // so the tranches sum to exactly the deposit.
    let l = lock(1005, 0);
    assert_eq!(claimable_value(&l, Some(0)), 502);
    assert_eq!(claimable_value(&l, Some(4 * DAY)), 902);
    assert_eq!(claimable_value(&l, Some(5 * DAY)), 1005);
    assert_eq!(claimable_value(&l, Some(50 * DAY)), 1005);
}

#[test]
fn tiny_deposit_never_finishes_dripping() {
    // Below ten tokens the daily tranche rounds down to zero, so only
    // the immediate half ever vests.
    let l = lock(5, 0);
    assert_eq!(claimable_value(&l, Some(0)), 2);
    assert_eq!(claimable_value(&l, Some(1000 * DAY)), 2);
}

#[test]
fn scenario_deposit_then_query_at_start() {
    let mut s = Staking::new();
    let t0 = 1_000_000;
    assert_eq!(s.lock_tokens(7, 1000, t0), Ok(()));
    assert_eq!(s.get_locked_amt(7, t0), 500);
    assert_eq!(s.get_pending_amt(7, t0), 500);
    assert_eq!(s.get_claimed_amt(7), 0);
}

#[test]
fn scenario_query_after_one_day() {
    let mut s = Staking::new();
    let t0 = 1_000_000;
    assert_eq!(s.lock_tokens(7, 1000, t0), Ok(()));
    assert_eq!(s.get_pending_amt(7, t0 + DAY), 600);
    assert_eq!(s.get_locked_amt(7, t0 + DAY), 400);
}

#[test]
fn scenario_query_after_ten_days() {
    let mut s = Staking::new();
    let t0 = 1_000_000;
    assert_eq!(s.lock_tokens(7, 1000, t0), Ok(()));
    assert_eq!(s.get_pending_amt(7, t0 + 10 * DAY), 1000);
    assert_eq!(s.get_locked_amt(7, t0 + 10 * DAY), 0);
    assert_eq!(s.get_pending_amt(7, t0 + 36 * DAY), 1000);
    assert_eq!(s.get_locked_amt(7, t0 + 36 * DAY), 0);
}

#[test]
fn scenario_second_deposit_after_full_claim() {
    let mut s = Staking::new();
    let t0 = 1_000_000;
    assert_eq!(s.lock_tokens(7, 1000, t0), Ok(()));
    let t1 = t0 + 10 * DAY;
    // The final tranche has vested but not been withdrawn yet.
    assert_eq!(s.lock_tokens(7, 500, t1), Err(Error::UnclaimedPendingFunds));
    assert_eq!(s.claim_tokens(7, t1, true), Ok(1000));
    assert_eq!(s.get_claimed_amt(7), 1000);
    assert_eq!(s.lock_tokens(7, 500, t1), Ok(()));
    assert_eq!(s.get_lock_details(7), Some(lock(500, t1)));
}

#[test]
fn deposit_of_zero_is_refused() {
    let mut s = Staking::new();
    assert_eq!(s.lock_tokens(7, 0, 50), Err(Error::ZeroAmount));
    assert_eq!(s.get_lock_details(7), None);
}

#[test]
fn deposit_during_active_lock_is_refused() {
    let mut s = Staking::new();
    let t0 = 1_000_000;
    assert_eq!(s.lock_tokens(7, 1000, t0), Ok(()));
    assert_eq!(s.lock_tokens(7, 200, t0 + DAY), Err(Error::PriorLockActive));
    assert_eq!(s.get_lock_details(7), Some(lock(1000, t0)));
}

#[test]
fn claim_twice_is_a_noop() {
    let mut s = Staking::new();
    let t0 = 1_000_000;
    assert_eq!(s.lock_tokens(7, 1000, t0), Ok(()));
    let t = t0 + 2 * DAY;
    assert_eq!(s.claim_tokens(7, t, true), Ok(700));
    let after_first = s.get_lock_details(7);
    assert_eq!(s.get_pending_amt(7, t), 0);
    assert_eq!(s.claim_tokens(7, t, true), Ok(0));
    assert_eq!(s.get_lock_details(7), after_first);
    assert_eq!(s.get_claimed_amt(7), 700);
    // A day later the next tranche is claimable again.
    assert_eq!(s.get_pending_amt(7, t + DAY), 100);
}

#[test]
fn failed_transfer_leaves_ledger_unchanged() {
    let mut s = Staking::new();
    let t0 = 1_000_000;
    assert_eq!(s.lock_tokens(7, 1000, t0), Ok(()));
    assert_eq!(s.claim_tokens(7, t0, false), Err(Error::TransferFailed));
    assert_eq!(s.get_lock_details(7), Some(lock(1000, t0)));
    assert_eq!(s.get_pending_amt(7, t0), 500);
}

#[test]
fn claim_without_lock_is_a_noop() {
    let mut s = Staking::new();
    assert_eq!(s.claim_tokens(7, 123, true), Ok(0));
    assert_eq!(s.get_lock_details(7), None);
}

#[test]
fn accounts_are_independent() {
    let mut s = Staking::new();
    assert_eq!(s.lock_tokens(1, 1000, 0), Ok(()));
    assert_eq!(s.lock_tokens(2, 400, 0), Ok(()));
    assert_eq!(s.claim_tokens(1, 0, true), Ok(500));
    assert_eq!(s.get_pending_amt(2, 0), 200);
    assert_eq!(s.get_claimed_amt(1), 500);
    assert_eq!(s.get_claimed_amt(2), 0);
}
