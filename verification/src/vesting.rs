use vstd::prelude::*;
use vstd::arithmetic::div_mod::{lemma_div_basics, lemma_div_is_ordered, lemma_fundamental_div_mod,
    lemma_mod_bound};
use vstd::arithmetic::mul::lemma_mul_inequality;

use crate::address::Address;
use crate::errors::Error;

verus! {

/// The state of a schedule at a given chain time.
#[derive(Debug, PartialEq, Eq, Structural, Clone, Copy)]
pub enum ScheduleState {
    /// The time lies before the schedule's start: nothing is unlocked.
    Unstarted,
    /// The time lies in the release window: the unlocked amount grows by
    /// `per_period` at each period boundary.
    Releasing,
    /// The time lies at or after the schedule's end: everything is unlocked.
    FullyReleased,
}

/// A time-locked vesting schedule.
///
/// The unlocked amount is a pure function of chain time: zero before
/// `start`, the whole `total_locked` from `end` on, and in between it grows
/// by `per_period` at each elapsed period boundary, capped at
/// `total_locked`. A schedule is never mutated in place: a revision
/// produces a new value with the next version number.
#[derive(Debug, PartialEq, Eq)]
pub struct VestingSchedule {
    /// The account the locked balance belongs to.
    pub beneficiary: Address,
    /// The total locked amount.
    pub total_locked: u128,
    /// The amount released at each period boundary.
    pub per_period: u128,
    /// The length of one release period, in chain-time units.
    pub period_length: u64,
    /// The chain time the release window opens.
    pub start: u64,
    /// The chain time everything is unlocked.
    pub end: u64,
    /// The version of this schedule, starting at 1 and increased by each
    /// revision.
    pub version: u64,
}

/// Whether schedule creation parameters are acceptable: a positive total, a
/// start strictly before the end, and a period length that fits at least one
/// whole period into the window with a positive per-period release amount.
pub open spec fn spec_valid_schedule_params(
    total_locked: u128,
    start: u64,
    end: u64,
    period_length: u64,
) -> bool {
    &&& total_locked >= 1
    &&& start < end
    &&& period_length >= 1
    &&& (end - start) / (period_length as int) >= 1
    &&& total_locked as int / ((end - start) / (period_length as int)) >= 1
}

impl VestingSchedule {
    /// The number of whole release periods in the schedule's window.
    pub open spec fn spec_num_periods(self) -> int {
        (self.end - self.start) / (self.period_length as int)
    }

    /// Well-formedness: the window and the period are non-degenerate and
    /// `per_period` is the equal share of the total over the whole periods.
    pub open spec fn wf(self) -> bool {
        &&& self.total_locked >= 1
        &&& self.start < self.end
        &&& self.period_length >= 1
        &&& self.spec_num_periods() >= 1
        &&& self.per_period == self.total_locked as int / self.spec_num_periods()
        &&& self.per_period >= 1
        &&& self.version >= 1
    }

    /// The state of the schedule at `time`.
    pub open spec fn spec_state_at(self, time: u64) -> ScheduleState {
        if time < self.start {
            ScheduleState::Unstarted
        } else if time >= self.end {
            ScheduleState::FullyReleased
        } else {
            ScheduleState::Releasing
        }
    }

    /// The amount unlocked at `time`: zero before `start`, the whole total
    /// from `end` on, and otherwise one `per_period` share per elapsed whole
    /// period, capped at the total.
    pub open spec fn spec_unlocked_at(self, time: u64) -> int {
        if time < self.start {
            0
        } else if time >= self.end {
            self.total_locked as int
        } else {
            let periods = (time - self.start) / (self.period_length as int);
            let amount = periods * (self.per_period as int);
            if amount > self.total_locked {
                self.total_locked as int
            } else {
                amount
            }
        }
    }

    /// The schedule produced by revising this one to end at `new_end`: the
    /// per-period share is recomputed over the new window and the version is
    /// advanced.
    pub open spec fn spec_revised(self, new_end: u64) -> VestingSchedule {
        VestingSchedule {
            beneficiary: self.beneficiary,
            total_locked: self.total_locked,
            per_period: (self.total_locked as int / ((new_end - self.start)
                / (self.period_length as int))) as u128,
            period_length: self.period_length,
            start: self.start,
            end: new_end,
            version: (self.version + 1) as u64,
        }
    }

    /// The state of the schedule at `time`, as executable code.
    pub fn state_at(&self, time: u64) -> (r: ScheduleState)
        ensures
            r == self.spec_state_at(time),
    {
        if time < self.start {
            ScheduleState::Unstarted
        } else if time >= self.end {
            ScheduleState::FullyReleased
        } else {
            ScheduleState::Releasing
        }
    }

    /// The amount unlocked at `time`. Never fails for a well-formed
    /// schedule; the result is the pure function `spec_unlocked_at`.
    pub fn unlocked_amount_at(&self, time: u64) -> (r: u128)
        requires
            self.wf(),
        ensures
            r as int == self.spec_unlocked_at(time),
    {
        if time < self.start {
            0
        } else if time >= self.end {
            self.total_locked
        } else {
            proof {
                lemma_release_cap(*self, time);
            }
            let periods: u64 = (time - self.start) / self.period_length;
            let amount: u128 = (periods as u128) * self.per_period;
            if amount > self.total_locked {
                self.total_locked
            } else {
                amount
            }
        }
    }
}

/// In the release window the per-period shares released so far are
/// non-negative and never exceed the total, because `per_period` is the
/// floor share of the total over the whole periods.
proof fn lemma_release_cap(s: VestingSchedule, time: u64)
    requires
        s.wf(),
        s.start <= time < s.end,
    ensures
        0 <= ((time - s.start) / (s.period_length as int)) * (s.per_period as int),
        ((time - s.start) / (s.period_length as int)) * (s.per_period as int)
            <= s.total_locked,
{
    let plen = s.period_length as int;
    let n = s.spec_num_periods();
    let p = s.per_period as int;
    let k = (time - s.start) / plen;
    lemma_div_basics(plen);
    lemma_div_is_ordered(0, time - s.start, plen);
    lemma_div_is_ordered(time - s.start, s.end - s.start, plen);
    lemma_mul_inequality(0, k, p);
    lemma_mul_inequality(k, n, p);
    lemma_fundamental_div_mod(s.total_locked as int, n);
    lemma_mod_bound(s.total_locked as int, n);
}

/// The unlocked amount is always between zero and the total locked amount:
/// partial release never exceeds what was locked.
pub proof fn lemma_unlocked_bounds(s: VestingSchedule, time: u64)
    requires
        s.wf(),
    ensures
        0 <= s.spec_unlocked_at(time) <= s.total_locked,
{
    if s.start <= time < s.end {
        lemma_release_cap(s, time);
    }
}

/// The unlocked amount is a non-decreasing function of chain time.
pub proof fn lemma_unlocked_non_decreasing(s: VestingSchedule, t1: u64, t2: u64)
    requires
        s.wf(),
        t1 <= t2,
    ensures
        s.spec_unlocked_at(t1) <= s.spec_unlocked_at(t2),
{
    lemma_unlocked_bounds(s, t1);
    lemma_unlocked_bounds(s, t2);
    if s.start <= t1 && t2 < s.end {
        let plen = s.period_length as int;
        lemma_div_is_ordered(t1 - s.start, t2 - s.start, plen);
        lemma_mul_inequality((t1 - s.start) / plen, (t2 - s.start) / plen,
            s.per_period as int);
    }
}

/// From the end of the window on, the unlocked amount is exactly the total
/// locked amount.
pub proof fn lemma_fully_released(s: VestingSchedule, time: u64)
    requires
        s.wf(),
        time >= s.end,
    ensures
        s.spec_unlocked_at(time) == s.total_locked,
{
}

/// Before the start of the window, nothing is unlocked.
pub proof fn lemma_unstarted_zero(s: VestingSchedule, time: u64)
    requires
        s.wf(),
        time < s.start,
    ensures
        s.spec_unlocked_at(time) == 0,
{
}

/// Validates the parameters of a lock request and produces schedule
/// version 1. Succeeds exactly when the parameters are acceptable; the
/// per-period release amount is the floor share of the total over the whole
/// periods of the window. The locking transaction itself is submitted to the
/// ledger collaborator by the caller; see `confirm_submission`.
pub fn create_schedule(
    beneficiary: Address,
    total_locked: u128,
    start: u64,
    end: u64,
    period_length: u64,
) -> (r: Result<VestingSchedule, Error>)
    ensures
        r is Ok <==> spec_valid_schedule_params(total_locked, start, end, period_length),
        r matches Ok(s) ==> ({
            &&& s.wf()
            &&& s.beneficiary == beneficiary
            &&& s.total_locked == total_locked
            &&& s.start == start
            &&& s.end == end
            &&& s.period_length == period_length
            &&& s.per_period == total_locked as int / ((end - start) / (period_length as int))
            &&& s.version == 1
        }),
        r matches Err(e) ==> e == Error::InvalidScheduleParameters,
{
    if total_locked == 0 || start >= end || period_length == 0 {
        return Err(Error::InvalidScheduleParameters);
    }
    let num_periods: u64 = (end - start) / period_length;
    if num_periods == 0 {
        return Err(Error::InvalidScheduleParameters);
    }
    let per_period: u128 = total_locked / (num_periods as u128);
    if per_period == 0 {
        return Err(Error::InvalidScheduleParameters);
    }
    Ok(VestingSchedule {
        beneficiary,
        total_locked,
        per_period,
        period_length,
        start,
        end,
        version: 1,
    })
}

/// Locks `amount` for `account` from chain time zero until `duration`, with
/// a release at every chain-time unit.
pub fn lock_token_in_account(account: Address, amount: u128, duration: u64) -> (r: Result<
    VestingSchedule,
    Error,
>)
    ensures
        r is Ok <==> spec_valid_schedule_params(amount, 0, duration, 1),
        r matches Ok(s) ==> ({
            &&& s.wf()
            &&& s.beneficiary == account
            &&& s.total_locked == amount
            &&& s.start == 0
            &&& s.end == duration
            &&& s.period_length == 1
            &&& s.per_period == amount as int / (duration as int)
            &&& s.version == 1
        }),
        r matches Err(e) ==> e == Error::InvalidScheduleParameters,
{
    proof {
        lemma_div_basics(1);
        if duration > 0 {
            assert((duration - 0) / 1int == duration as int);
        }
    }
    create_schedule(account, amount, 0, duration, 1)
}

/// Revises a schedule to a new end time. Only permitted while the schedule
/// is releasing; the revision keeps the total, the start and the period
/// length, recomputes the per-period share over the new window, and advances
/// the version. It is rejected with `InvalidRevision` when the schedule is
/// not releasing or when the revision would claw back an amount already
/// unlocked at `current_time`, and with `InvalidScheduleParameters` when the
/// revised window itself is not acceptable. The unlocked amount at
/// `current_time` never decreases across versions.
pub fn revise_schedule(schedule: &VestingSchedule, new_end: u64, current_time: u64) -> (r:
    Result<VestingSchedule, Error>)
    requires
        schedule.wf(),
        schedule.version < u64::MAX,
    ensures
        r is Ok <==> ({
            &&& schedule.spec_state_at(current_time) == ScheduleState::Releasing
            &&& spec_valid_schedule_params(schedule.total_locked, schedule.start, new_end,
                schedule.period_length)
            &&& schedule.spec_revised(new_end).spec_unlocked_at(current_time)
                >= schedule.spec_unlocked_at(current_time)
        }),
        r matches Ok(n) ==> ({
            &&& n.wf()
            &&& n.beneficiary@ == schedule.beneficiary@
            &&& n.total_locked == schedule.total_locked
            &&& n.per_period == schedule.spec_revised(new_end).per_period
            &&& n.period_length == schedule.period_length
            &&& n.start == schedule.start
            &&& n.end == new_end
            &&& n.version == schedule.version + 1
            &&& n.spec_unlocked_at(current_time) >= schedule.spec_unlocked_at(current_time)
        }),
        schedule.spec_state_at(current_time) != ScheduleState::Releasing ==> r == Err::<
            VestingSchedule,
            Error,
        >((Error::InvalidRevision { version: schedule.version })),
        (schedule.spec_state_at(current_time) == ScheduleState::Releasing
            && !spec_valid_schedule_params(schedule.total_locked, schedule.start, new_end,
            schedule.period_length)) ==> r == Err::<VestingSchedule, Error>(
            Error::InvalidScheduleParameters,
        ),
        (schedule.spec_state_at(current_time) == ScheduleState::Releasing
            && spec_valid_schedule_params(schedule.total_locked, schedule.start, new_end,
            schedule.period_length) && schedule.spec_revised(new_end).spec_unlocked_at(
            current_time,
        ) < schedule.spec_unlocked_at(current_time)) ==> r == Err::<VestingSchedule, Error>(
            (Error::InvalidRevision { version: schedule.version }),
        ),
{
    if current_time < schedule.start || current_time >= schedule.end {
        return Err(Error::InvalidRevision { version: schedule.version });
    }
    if new_end <= schedule.start {
        return Err(Error::InvalidScheduleParameters);
    }
    let num_periods: u64 = (new_end - schedule.start) / schedule.period_length;
    if num_periods == 0 {
        return Err(Error::InvalidScheduleParameters);
    }
    let per_period: u128 = schedule.total_locked / (num_periods as u128);
    if per_period == 0 {
        return Err(Error::InvalidScheduleParameters);
    }
    let candidate = VestingSchedule {
        beneficiary: schedule.beneficiary.clone(),
        total_locked: schedule.total_locked,
        per_period,
        period_length: schedule.period_length,
        start: schedule.start,
        end: new_end,
        version: schedule.version + 1,
    };
    let already_unlocked = schedule.unlocked_amount_at(current_time);
    let revised_unlocked = candidate.unlocked_amount_at(current_time);
    if revised_unlocked < already_unlocked {
        return Err(Error::InvalidRevision { version: schedule.version });
    }
    Ok(candidate)
}

/// Maps the ledger collaborator's reply to a lock submission. The caller
/// performs the submission itself; a rejected submission is reported with
/// the schedule version so the caller can re-verify state before retrying,
/// since the submission is not idempotent.
pub fn confirm_submission(schedule: &VestingSchedule, accepted: bool) -> (r: Result<(), Error>)
    ensures
        r is Ok <==> accepted,
        r matches Err(e) ==> e == (Error::SubmissionRejected { version: schedule.version }),
{
    if accepted {
        Ok(())
    } else {
        Err(Error::SubmissionRejected { version: schedule.version })
    }
}

} // verus!
