//! A per-user daily check-in tracker with milestone badges.
//!
//! Each user owns two small records. A [`UserCheckin`] record counts that
//! user's check-ins, remembers the day index of the latest one, and tracks the
//! streak of consecutive daily check-ins. A [`UserBadges`] record remembers,
//! one bit per badge level, which milestone badges the user has claimed; a
//! badge becomes claimable once the cumulative check-in count reaches the
//! level's fixed threshold, and can be claimed exactly once.
//!
//! The library is the pure core of that system: every operation is a function
//! from the current record and the call's inputs to the updated record or a
//! specific rejection, with no side effects. Durable keyed storage, caller
//! identity verification and the wall clock are an outside collaborator's
//! concern; the collaborator loads a record, lets the core apply one
//! transition, and stores the result back.

pub mod auth;
pub mod badges;
pub mod checkin;
pub mod errors;

pub use auth::require_owner;
pub use auth::AuthorityKey;
pub use badges::badge_threshold;
pub use badges::claim_badge;
pub use badges::ClaimBadge;
pub use badges::UserBadges;
pub use badges::BADGE_1_THRESHOLD;
pub use badges::BADGE_2_THRESHOLD;
pub use badges::BADGE_3_THRESHOLD;
pub use checkin::check_in;
pub use checkin::day_index_from_unix_time;
pub use checkin::initialize_user;
pub use checkin::set_last_checkin_day;
pub use checkin::CheckIn;
pub use checkin::InitializeUser;
pub use checkin::SetLastCheckinDay;
pub use checkin::UserCheckin;
pub use errors::CheckinError;
