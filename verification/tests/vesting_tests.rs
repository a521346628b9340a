use chain_coordinator::address::{resolve, Address};
use chain_coordinator::errors::Error;
use chain_coordinator::vesting::{confirm_submission, create_schedule, lock_token_in_account,
    revise_schedule, ScheduleState};

fn beneficiary() -> Address {
    resolve(&"0".repeat(66)).expect("canonical text must resolve")
}

#[test]
fn ten_period_schedule_releases_half_way() {
    let s = create_schedule(beneficiary(), 1000, 100, 200, 10).expect("parameters are valid");
    assert_eq!(s.per_period, 100);
    assert_eq!(s.version, 1);
    assert_eq!(s.unlocked_amount_at(150), 500);
}

#[test]
fn nothing_unlocked_before_start() {
    let s = create_schedule(beneficiary(), 1000, 100, 200, 10).unwrap();
    assert_eq!(s.unlocked_amount_at(0), 0);
    assert_eq!(s.unlocked_amount_at(99), 0);
    assert_eq!(s.unlocked_amount_at(100), 0);
}

#[test]
fn everything_unlocked_from_end_on() {
    let s = create_schedule(beneficiary(), 1000, 100, 200, 10).unwrap();
    assert_eq!(s.unlocked_amount_at(200), 1000);
    assert_eq!(s.unlocked_amount_at(250), 1000);
    assert_eq!(s.unlocked_amount_at(u64::MAX), 1000);
}

#[test]
fn release_steps_at_period_boundaries_only() {
    let s = create_schedule(beneficiary(), 1000, 100, 200, 10).unwrap();
    assert_eq!(s.unlocked_amount_at(109), 0);
    assert_eq!(s.unlocked_amount_at(110), 100);
    assert_eq!(s.unlocked_amount_at(119), 100);
    assert_eq!(s.unlocked_amount_at(199), 900);
}

#[test]
fn unlocked_amount_is_non_decreasing_over_sampled_times() {
    let s = create_schedule(beneficiary(), 1000, 100, 200, 10).unwrap();
    let mut previous: u128 = 0;
    for t in 0..300u64 {
        let now = s.unlocked_amount_at(t);
        assert!(now >= previous);
        assert!(now <= 1000);
        previous = now;
    }
}

#[test]
fn create_schedule_rejects_zero_total() {
    assert_eq!(
        create_schedule(beneficiary(), 0, 100, 200, 10),
        Err(Error::InvalidScheduleParameters)
    );
}

#[test]
fn create_schedule_rejects_start_not_before_end() {
    assert_eq!(
        create_schedule(beneficiary(), 1000, 200, 200, 10),
        Err(Error::InvalidScheduleParameters)
    );
    assert_eq!(
        create_schedule(beneficiary(), 1000, 300, 200, 10),
        Err(Error::InvalidScheduleParameters)
    );
}

#[test]
fn create_schedule_rejects_degenerate_periods() {
    // A period longer than the window leaves no whole period.
    assert_eq!(
        create_schedule(beneficiary(), 1000, 100, 200, 1000),
        Err(Error::InvalidScheduleParameters)
    );
    // A zero period length is no period at all.
    assert_eq!(
        create_schedule(beneficiary(), 1000, 100, 200, 0),
        Err(Error::InvalidScheduleParameters)
    );
    // More periods than tokens would make the per-period share zero.
    assert_eq!(
        create_schedule(beneficiary(), 5, 0, 100, 1),
        Err(Error::InvalidScheduleParameters)
    );
}

#[test]
fn schedule_state_follows_chain_time() {
    let s = create_schedule(beneficiary(), 1000, 100, 200, 10).unwrap();
    assert_eq!(s.state_at(50), ScheduleState::Unstarted);
    assert_eq!(s.state_at(150), ScheduleState::Releasing);
    assert_eq!(s.state_at(200), ScheduleState::FullyReleased);
}

#[test]
fn lock_token_in_account_releases_per_unit() {
    let s = lock_token_in_account(beneficiary(), 1000, 10).expect("parameters are valid");
    assert_eq!(s.start, 0);
    assert_eq!(s.end, 10);
    assert_eq!(s.per_period, 100);
    assert_eq!(s.version, 1);
    assert_eq!(s.unlocked_amount_at(5), 500);
    assert_eq!(s.unlocked_amount_at(10), 1000);
}

#[test]
fn lock_token_in_account_rejects_bad_parameters() {
    assert_eq!(
        lock_token_in_account(beneficiary(), 0, 10),
        Err(Error::InvalidScheduleParameters)
    );
    assert_eq!(
        lock_token_in_account(beneficiary(), 5, 10),
        Err(Error::InvalidScheduleParameters)
    );
}

#[test]
fn revision_shortening_the_window_keeps_unlocked_amount() {
    let s = create_schedule(beneficiary(), 1000, 100, 200, 10).unwrap();
    let already = s.unlocked_amount_at(150);
    let revised = revise_schedule(&s, 180, 150).expect("revision is legal");
    assert_eq!(revised.version, 2);
    assert_eq!(revised.end, 180);
    assert_eq!(revised.per_period, 125);
    // Never decreases across versions.
    assert!(revised.unlocked_amount_at(150) >= already);
    assert_eq!(revised.unlocked_amount_at(150), 625);
}

#[test]
fn revision_clawing_back_unlocked_amount_is_rejected() {
    let s = create_schedule(beneficiary(), 1000, 100, 200, 10).unwrap();
    // Stretching to 400 would shrink the per-period share to 33 and the
    // unlocked amount at time 150 from 500 to 165.
    assert_eq!(revise_schedule(&s, 400, 150), Err(Error::InvalidRevision { version: 1 }));
}

#[test]
fn revision_outside_releasing_window_is_rejected() {
    let s = create_schedule(beneficiary(), 1000, 100, 200, 10).unwrap();
    assert_eq!(revise_schedule(&s, 180, 50), Err(Error::InvalidRevision { version: 1 }));
    assert_eq!(revise_schedule(&s, 300, 200), Err(Error::InvalidRevision { version: 1 }));
}

#[test]
fn revision_to_invalid_window_is_rejected() {
    let s = create_schedule(beneficiary(), 1000, 100, 200, 10).unwrap();
    assert_eq!(revise_schedule(&s, 100, 150), Err(Error::InvalidScheduleParameters));
}

#[test]
fn submission_outcome_is_mapped_exactly() {
    let s = create_schedule(beneficiary(), 1000, 100, 200, 10).unwrap();
    assert_eq!(confirm_submission(&s, true), Ok(()));
    assert_eq!(confirm_submission(&s, false), Err(Error::SubmissionRejected { version: 1 }));
}
