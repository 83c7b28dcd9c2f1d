use vstd::prelude::*;

verus! {

/// Why a call was rejected. Every rejection is detected before any mutation,
/// so a failed call leaves the caller's records exactly as they were, and
/// repeating the call against the unchanged records yields the same error.
#[derive(Clone, Copy, Debug, PartialEq, Eq, Structural)]
pub enum CheckinError {
    /// The caller is not the owner the record was bound to at creation.
    Unauthorized,
    /// The operation expects an existing record, and none is stored.
    RecordNotFound,
    /// Record creation was attempted for an owner that already has one.
    AlreadyInitialized,
    /// A second check-in arrived within the same day index.
    AlreadyCheckedInToday,
    /// The badge level is zero, has no configured threshold, or lies outside
    /// the range whose claim bit fits in the mask.
    InvalidBadgeLevel,
    /// The cumulative check-in count is below the level's threshold.
    NotEnoughCheckins,
    /// The level's badge was claimed before; claims are permanent.
    BadgeAlreadyClaimed,
}

} // verus!
