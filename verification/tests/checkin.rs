use checkin_program::check_in;
use checkin_program::day_index_from_unix_time;
use checkin_program::initialize_user;
use checkin_program::set_last_checkin_day;
use checkin_program::AuthorityKey;
use checkin_program::CheckIn;
use checkin_program::CheckinError;
use checkin_program::InitializeUser;
use checkin_program::SetLastCheckinDay;
use checkin_program::UserCheckin;

fn owner(id: u64) -> AuthorityKey {
    AuthorityKey { id }
}

#[test]
fn initialize_user_starts_empty() {
    let rec = initialize_user(InitializeUser { authority: owner(7) });
    assert_eq!(rec.authority, owner(7));
    assert_eq!(rec.total_checkins, 0);
    assert_eq!(rec.last_checkin_day, -1);
    assert_eq!(rec.streak, 0);
}

#[test]
fn scenario_checkins_duplicate_and_gap() {
    let u = owner(1);
    let rec = initialize_user(InitializeUser { authority: u });
    let mut ctx = CheckIn { authority: u, user_checkin: rec };

    assert_eq!(check_in(&mut ctx, 100), Ok(()));
    assert_eq!(ctx.user_checkin.total_checkins, 1);
    assert_eq!(ctx.user_checkin.last_checkin_day, 100);
    assert_eq!(ctx.user_checkin.streak, 1);

    let before = ctx;
    assert_eq!(check_in(&mut ctx, 100), Err(CheckinError::AlreadyCheckedInToday));
    assert_eq!(ctx, before);

    assert_eq!(check_in(&mut ctx, 101), Ok(()));
    assert_eq!(ctx.user_checkin.total_checkins, 2);
    assert_eq!(ctx.user_checkin.last_checkin_day, 101);
    assert_eq!(ctx.user_checkin.streak, 2);

    assert_eq!(check_in(&mut ctx, 105), Ok(()));
    assert_eq!(ctx.user_checkin.total_checkins, 3);
    assert_eq!(ctx.user_checkin.last_checkin_day, 105);
    assert_eq!(ctx.user_checkin.streak, 1);
}

#[test]
fn streak_grows_only_on_the_very_next_day() {
    let u = owner(2);
    let rec = initialize_user(InitializeUser { authority: u });
    let mut ctx = CheckIn { authority: u, user_checkin: rec };
    for day in 10..31 {
        assert_eq!(check_in(&mut ctx, day), Ok(()));
    }
    assert_eq!(ctx.user_checkin.streak, 21);
    assert_eq!(ctx.user_checkin.total_checkins, 21);
    assert!(ctx.user_checkin.streak as u32 <= ctx.user_checkin.total_checkins);

    // A two-day gap resets the streak to one.
    assert_eq!(check_in(&mut ctx, 33), Ok(()));
    assert_eq!(ctx.user_checkin.streak, 1);
    assert_eq!(ctx.user_checkin.total_checkins, 22);
}

#[test]
fn out_of_order_day_resets_streak() {
    let u = owner(3);
    let mut ctx = CheckIn {
        authority: u,
        user_checkin: UserCheckin {
            authority: u,
            total_checkins: 5,
            last_checkin_day: 50,
            streak: 5,
        },
    };
    // An earlier day than the last check-in still counts, but breaks the streak.
    assert_eq!(check_in(&mut ctx, 40), Ok(()));
    assert_eq!(ctx.user_checkin.total_checkins, 6);
    assert_eq!(ctx.user_checkin.last_checkin_day, 40);
    assert_eq!(ctx.user_checkin.streak, 1);
}

#[test]
fn check_in_by_foreign_caller_is_unauthorized() {
    let u = owner(4);
    let rec = initialize_user(InitializeUser { authority: u });
    let mut ctx = CheckIn { authority: owner(5), user_checkin: rec };
    let before = ctx;
    assert_eq!(check_in(&mut ctx, 100), Err(CheckinError::Unauthorized));
    assert_eq!(ctx, before);
    // Repeating the failed call with identical inputs gives the same error.
    assert_eq!(check_in(&mut ctx, 100), Err(CheckinError::Unauthorized));
    assert_eq!(ctx, before);
}

#[test]
fn repeated_duplicate_rejection_is_stable() {
    let u = owner(6);
    let rec = initialize_user(InitializeUser { authority: u });
    let mut ctx = CheckIn { authority: u, user_checkin: rec };
    assert_eq!(check_in(&mut ctx, 9), Ok(()));
    let before = ctx;
    assert_eq!(check_in(&mut ctx, 9), Err(CheckinError::AlreadyCheckedInToday));
    assert_eq!(check_in(&mut ctx, 9), Err(CheckinError::AlreadyCheckedInToday));
    assert_eq!(ctx, before);
}

#[test]
fn counters_saturate_at_their_ceilings() {
    let u = owner(8);
    let mut ctx = CheckIn {
        authority: u,
        user_checkin: UserCheckin {
            authority: u,
            total_checkins: u32::MAX,
            last_checkin_day: 200,
            streak: u16::MAX,
        },
    };
    assert_eq!(check_in(&mut ctx, 201), Ok(()));
    assert_eq!(ctx.user_checkin.total_checkins, u32::MAX);
    assert_eq!(ctx.user_checkin.streak, u16::MAX);
    assert_eq!(ctx.user_checkin.last_checkin_day, 201);
}

#[test]
fn set_last_checkin_day_is_guarded_and_direct() {
    let u = owner(9);
    let rec = initialize_user(InitializeUser { authority: u });
    let mut ctx = SetLastCheckinDay { authority: owner(10), user_checkin: rec };
    let before = ctx;
    assert_eq!(set_last_checkin_day(&mut ctx, 123), Err(CheckinError::Unauthorized));
    assert_eq!(ctx, before);

    let mut ctx = SetLastCheckinDay { authority: u, user_checkin: rec };
    assert_eq!(set_last_checkin_day(&mut ctx, 123), Ok(()));
    assert_eq!(ctx.user_checkin.last_checkin_day, 123);
    assert_eq!(ctx.user_checkin.total_checkins, 0);
    assert_eq!(ctx.user_checkin.streak, 0);

    // A check-in on the very next simulated day continues the streak rule.
    let mut checkin_ctx = CheckIn { authority: u, user_checkin: ctx.user_checkin };
    assert_eq!(check_in(&mut checkin_ctx, 124), Ok(()));
    assert_eq!(checkin_ctx.user_checkin.streak, 1);
    assert_eq!(check_in(&mut checkin_ctx, 125), Ok(()));
    assert_eq!(checkin_ctx.user_checkin.streak, 2);
}

#[test]
fn day_index_floors_toward_minus_infinity() {
    assert_eq!(day_index_from_unix_time(0), 0);
    assert_eq!(day_index_from_unix_time(1), 0);
    assert_eq!(day_index_from_unix_time(86_399), 0);
    assert_eq!(day_index_from_unix_time(86_400), 1);
    assert_eq!(day_index_from_unix_time(172_800), 2);
    assert_eq!(day_index_from_unix_time(1_700_000_000), 19_675);
    assert_eq!(day_index_from_unix_time(-1), -1);
    assert_eq!(day_index_from_unix_time(-86_400), -1);
    assert_eq!(day_index_from_unix_time(-86_401), -2);
    assert_eq!(day_index_from_unix_time(i64::MAX), i64::MAX / 86_400);
    assert_eq!(day_index_from_unix_time(i64::MIN), i64::MIN.div_euclid(86_400));
}
