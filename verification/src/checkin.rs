use vstd::arithmetic::div_mod::lemma_div_nonincreasing;
use vstd::arithmetic::div_mod::lemma_fundamental_div_mod;
use vstd::arithmetic::div_mod::lemma_fundamental_div_mod_converse;
use vstd::prelude::*;

use crate::auth::require_owner;
use crate::auth::AuthorityKey;
use crate::errors::CheckinError;

verus! {

/// `last_checkin_day` of a record whose owner has never checked in.
pub const NEVER_CHECKED_IN: i64 = -1;

/// Seconds in one day; day indices count whole days since the clock's epoch.
pub const SECONDS_PER_DAY: i64 = 86_400;

/// One user's check-in record, created once per user and mutated only by
/// [`check_in`]. `total_checkins` counts every successful check-in and
/// saturates rather than overflows; `last_checkin_day` is the day index of
/// the latest one (negative while there has been none); `streak` counts
/// consecutive daily check-ins and resets to one after any gap.
#[derive(Clone, Copy, Debug, PartialEq, Eq, Structural)]
pub struct UserCheckin {
    pub authority: AuthorityKey,
    pub total_checkins: u32,
    pub last_checkin_day: i64,
    pub streak: u16,
}

/// The record invariant: the streak never exceeds the cumulative count, and
/// is at least one as soon as anything has been counted.
pub open spec fn checkin_wf(rec: UserCheckin) -> bool {
    &&& rec.streak <= rec.total_checkins
    &&& rec.total_checkins >= 1 ==> rec.streak >= 1
}

/// The streak after a successful check-in on `day_index`: one more than
/// before when the day is exactly the next one after a previous check-in
/// (saturating at the counter's ceiling), and back to one otherwise — on the
/// first-ever check-in and after any gap or out-of-order day.
pub open spec fn next_streak(rec: UserCheckin, day_index: i64) -> u16 {
    if rec.last_checkin_day >= 0 && day_index == rec.last_checkin_day + 1 {
        rec.streak.saturating_add(1)
    } else {
        1u16
    }
}

/// The record a successful check-in on `day_index` leaves behind.
pub open spec fn checked_in(rec: UserCheckin, day_index: i64) -> UserCheckin {
    UserCheckin {
        authority: rec.authority,
        total_checkins: rec.total_checkins.saturating_add(1),
        last_checkin_day: day_index,
        streak: next_streak(rec, day_index),
    }
}

/// The full outcome of a check-in call: the updated record, or the specific
/// rejection. A caller other than the record's owner is turned away; a second
/// check-in within the same day index is a duplicate.
pub open spec fn check_in_outcome(
    rec: UserCheckin,
    caller: AuthorityKey,
    day_index: i64,
) -> Result<UserCheckin, CheckinError> {
    if rec.authority != caller {
        Err(CheckinError::Unauthorized)
    } else if rec.last_checkin_day == day_index {
        Err(CheckinError::AlreadyCheckedInToday)
    } else {
        Ok(checked_in(rec, day_index))
    }
}

/// The record after a check-in call: changed only when the call succeeds.
pub open spec fn check_in_record_after(
    rec: UserCheckin,
    caller: AuthorityKey,
    day_index: i64,
) -> UserCheckin {
    match check_in_outcome(rec, caller, day_index) {
        Ok(updated) => updated,
        Err(_) => rec,
    }
}

/// The inputs of a record-creating call: the authenticated caller, who
/// becomes the record's owner. Storage supplies the fresh slot (and refuses
/// the call when the owner already has a record).
#[derive(Clone, Copy, Debug, PartialEq, Eq, Structural)]
pub struct InitializeUser {
    pub authority: AuthorityKey,
}

/// The state a check-in call works on: the authenticated caller and the
/// loaded check-in record. The collaborator loads the record addressed by the
/// caller's key and stores it back after a successful call.
#[derive(Clone, Copy, Debug, PartialEq, Eq, Structural)]
pub struct CheckIn {
    pub authority: AuthorityKey,
    pub user_checkin: UserCheckin,
}

/// The state a forced day rewrite works on; same shape as [`CheckIn`].
#[derive(Clone, Copy, Debug, PartialEq, Eq, Structural)]
pub struct SetLastCheckinDay {
    pub authority: AuthorityKey,
    pub user_checkin: UserCheckin,
}

/// Creates the caller's check-in record: nothing counted, no last day, no
/// streak, bound permanently to the caller.
pub fn initialize_user(ctx: InitializeUser) -> (rec: UserCheckin)
    ensures
        rec == (UserCheckin {
            authority: ctx.authority,
            total_checkins: 0,
            last_checkin_day: NEVER_CHECKED_IN,
            streak: 0,
        }),
        checkin_wf(rec),
{
    UserCheckin {
        authority: ctx.authority,
        total_checkins: 0,
        last_checkin_day: NEVER_CHECKED_IN,
        streak: 0,
    }
}

/// Records one check-in on `day_index`, exactly as [`check_in_outcome`]
/// describes: a duplicate same-day call or a foreign caller is rejected with
/// the record untouched; otherwise the count grows by one (saturating), the
/// last day moves to `day_index`, and the streak advances or resets.
pub fn check_in(ctx: &mut CheckIn, day_index: i64) -> (r: Result<(), CheckinError>)
    ensures
        final(ctx).authority == old(ctx).authority,
        final(ctx).user_checkin == check_in_record_after(
            old(ctx).user_checkin,
            old(ctx).authority,
            day_index,
        ),
        (match check_in_outcome(old(ctx).user_checkin, old(ctx).authority, day_index) {
            Ok(_) => r == Ok::<(), CheckinError>(()),
            Err(e) => r == Err::<(), CheckinError>(e),
        }),
        r is Err ==> *final(ctx) == *old(ctx),
{
    match require_owner(ctx.user_checkin.authority, ctx.authority) {
        Ok(()) => {}
        Err(e) => {
            return Err(e);
        }
    }
    if ctx.user_checkin.last_checkin_day == day_index {
        return Err(CheckinError::AlreadyCheckedInToday);
    }
    let last = ctx.user_checkin.last_checkin_day;
    let new_streak: u16 = if last >= 0 && day_index > last && day_index - last == 1 {
        ctx.user_checkin.streak.saturating_add(1)
    } else {
        1
    };
    ctx.user_checkin.total_checkins = ctx.user_checkin.total_checkins.saturating_add(1);
    ctx.user_checkin.last_checkin_day = day_index;
    ctx.user_checkin.streak = new_streak;
    Ok(())
}

/// Test-support entry point: force-sets `last_checkin_day`, bypassing the
/// check-in transition, so a test harness can simulate elapsed days without
/// waiting on a real clock. It respects the same ownership guard as
/// [`check_in`] and must not be wired into a production deployment, where the
/// last day may only advance through check-ins.
pub fn set_last_checkin_day(ctx: &mut SetLastCheckinDay, last_checkin_day: i64) -> (r: Result<
    (),
    CheckinError,
>)
    ensures
        final(ctx).authority == old(ctx).authority,
        old(ctx).user_checkin.authority != old(ctx).authority ==> r == Err::<
            (),
            CheckinError,
        >(CheckinError::Unauthorized) && *final(ctx) == *old(ctx),
        old(ctx).user_checkin.authority == old(ctx).authority ==> r == Ok::<(), CheckinError>(())
            && final(ctx).user_checkin == (UserCheckin {
            last_checkin_day,
            ..old(ctx).user_checkin
        }),
{
    match require_owner(ctx.user_checkin.authority, ctx.authority) {
        Ok(()) => {}
        Err(e) => {
            return Err(e);
        }
    }
    ctx.user_checkin.last_checkin_day = last_checkin_day;
    Ok(())
}

/// The day index a clock reading falls in: whole days since the epoch, the
/// reading floor-divided by [`SECONDS_PER_DAY`] (in the specification `/` on
/// `int` is Euclidean division, which for a positive divisor is floor
/// division).
pub open spec fn day_index_of(unix_timestamp: i64) -> int {
    unix_timestamp as int / (SECONDS_PER_DAY as int)
}

/// Derives the day index from a wall-clock reading in seconds since the
/// epoch. The reading itself comes from the outside clock source; this is
/// only the arithmetic.
pub fn day_index_from_unix_time(unix_timestamp: i64) -> (day_index: i64)
    ensures
        day_index == day_index_of(unix_timestamp),
{
    if unix_timestamp >= 0 {
        let seconds: u64 = unix_timestamp as u64;
        let quotient: u64 = seconds / 86_400;
        proof {
            lemma_div_nonincreasing(seconds as int, 86_400);
        }
        quotient as i64
    } else {
        // `-unix_timestamp` can exceed `i64::MAX` by one, so negate in i128.
        let magnitude: u64 = (-(unix_timestamp as i128)) as u64;
        let quotient: u64 = magnitude / 86_400;
        let remainder: u64 = magnitude % 86_400;
        proof {
            lemma_fundamental_div_mod(magnitude as int, 86_400);
            assert(quotient < 0x8000_0000_0000_0000u64) by (nonlinear_arith)
                requires
                    86_400 * (quotient as int) <= magnitude as int,
                    magnitude as int <= 0x8000_0000_0000_0000,
            ;
            if remainder == 0 {
                lemma_fundamental_div_mod_converse(
                    unix_timestamp as int,
                    86_400,
                    -(quotient as int),
                    0,
                );
            } else {
                lemma_fundamental_div_mod_converse(
                    unix_timestamp as int,
                    86_400,
                    -(quotient as int) - 1,
                    86_400 - remainder as int,
                );
            }
        }
        if remainder == 0 {
            -(quotient as i64)
        } else {
            -(quotient as i64) - 1
        }
    }
}

/// Law: a successful check-in keeps the record invariant — in particular the
/// streak stays at or below the cumulative count.
pub proof fn lemma_check_in_preserves_invariant(
    rec: UserCheckin,
    caller: AuthorityKey,
    day_index: i64,
)
    requires
        checkin_wf(rec),
        check_in_outcome(rec, caller, day_index) is Ok,
    ensures
        checkin_wf(check_in_outcome(rec, caller, day_index)->Ok_0),
        check_in_outcome(rec, caller, day_index)->Ok_0.streak <= check_in_outcome(
            rec,
            caller,
            day_index,
        )->Ok_0.total_checkins,
{
}

/// Law: a check-in that succeeded cannot be repeated within the same day —
/// the second call is rejected as a duplicate and leaves the record exactly
/// as the first call left it.
pub proof fn lemma_same_day_repeat_rejected(rec: UserCheckin, caller: AuthorityKey, day_index: i64)
    requires
        check_in_outcome(rec, caller, day_index) is Ok,
    ensures
        ({
            let updated = check_in_outcome(rec, caller, day_index)->Ok_0;
            &&& check_in_outcome(updated, caller, day_index) == Err::<
                UserCheckin,
                CheckinError,
            >(CheckinError::AlreadyCheckedInToday)
            &&& check_in_record_after(updated, caller, day_index) == updated
        }),
{
}

/// Law: a successful check-in on exactly the next day after the previous one
/// advances the streak by one (short of the counter's ceiling); a successful
/// check-in on any other day resets it to one.
pub proof fn lemma_streak_rule(rec: UserCheckin, caller: AuthorityKey, day_index: i64)
    requires
        check_in_outcome(rec, caller, day_index) is Ok,
    ensures
        rec.last_checkin_day >= 0 && day_index == rec.last_checkin_day + 1 && rec.streak
            < u16::MAX ==> check_in_outcome(rec, caller, day_index)->Ok_0.streak == rec.streak + 1,
        !(rec.last_checkin_day >= 0 && day_index == rec.last_checkin_day + 1)
            ==> check_in_outcome(rec, caller, day_index)->Ok_0.streak == 1,
{
}

/// Law: as long as callers supply day indices that never decrease — the
/// stated assumption on the outside clock — every successful check-in moves
/// `last_checkin_day` strictly forward.
pub proof fn lemma_last_day_strictly_increases(
    rec: UserCheckin,
    caller: AuthorityKey,
    day_index: i64,
)
    requires
        day_index >= rec.last_checkin_day,
        check_in_outcome(rec, caller, day_index) is Ok,
    ensures
        check_in_outcome(rec, caller, day_index)->Ok_0.last_checkin_day > rec.last_checkin_day,
{
}

/// Law: a rejected check-in mutates nothing, so repeating it with the same
/// inputs against the unchanged record yields the same error again.
pub proof fn lemma_check_in_rejection_idempotent(
    rec: UserCheckin,
    caller: AuthorityKey,
    day_index: i64,
)
    requires
        check_in_outcome(rec, caller, day_index) is Err,
    ensures
        check_in_record_after(rec, caller, day_index) == rec,
        check_in_outcome(check_in_record_after(rec, caller, day_index), caller, day_index)
            == check_in_outcome(rec, caller, day_index),
{
}

} // verus!
