use vstd::prelude::*;

use crate::auth::require_owner;
use crate::auth::AuthorityKey;
use crate::errors::CheckinError;

verus! {

/// Cumulative check-ins required for the level-1 badge.
pub const BADGE_1_THRESHOLD: u32 = 1;

/// Cumulative check-ins required for the level-2 badge.
pub const BADGE_2_THRESHOLD: u32 = 21;

/// Cumulative check-ins required for the level-3 badge.
pub const BADGE_3_THRESHOLD: u32 = 30;

/// The threshold table: the cumulative check-in count that makes each badge
/// level claimable, or `None` for a level with no configured badge. The table
/// is policy data, not logic; the claim algorithm works for any extension of
/// it whose levels stay within the mask's 32 bits.
pub open spec fn spec_badge_threshold(level: u8) -> Option<u32> {
    if level == 1 {
        Some(BADGE_1_THRESHOLD)
    } else if level == 2 {
        Some(BADGE_2_THRESHOLD)
    } else if level == 3 {
        Some(BADGE_3_THRESHOLD)
    } else {
        None
    }
}

/// Looks a badge level up in the threshold table.
pub fn badge_threshold(level: u8) -> (threshold: Option<u32>)
    ensures
        threshold == spec_badge_threshold(level),
{
    if level == 1 {
        Some(BADGE_1_THRESHOLD)
    } else if level == 2 {
        Some(BADGE_2_THRESHOLD)
    } else if level == 3 {
        Some(BADGE_3_THRESHOLD)
    } else {
        None
    }
}

/// One user's badge record, created lazily by the first successful claim.
/// Bit `level - 1` of `claimed_mask` set means the badge for `level` has been
/// claimed; a set bit is never cleared.
#[derive(Clone, Copy, Debug, PartialEq, Eq, Structural)]
pub struct UserBadges {
    pub authority: AuthorityKey,
    pub claimed_mask: u32,
}

/// The claim bit for a badge level: bit `level - 1` of the mask.
pub open spec fn level_bit(level: u8) -> u32
    recommends
        1 <= level <= 32,
{
    1u32 << ((level - 1) as u32)
}

/// Whether `mask` records the badge for `level` as claimed.
pub open spec fn badge_claimed(mask: u32, level: u8) -> bool {
    mask & level_bit(level) != 0u32
}

/// The claimed mask of a possibly not-yet-created badge record: an absent
/// record claims nothing.
pub open spec fn mask_of(badges: Option<UserBadges>) -> u32 {
    match badges {
        Some(b) => b.claimed_mask,
        None => 0u32,
    }
}

/// The full outcome of a badge claim: the updated (or newly created) record,
/// or the specific rejection. Rejections are checked in this order: a foreign
/// caller on an existing record; a level without a claimable badge; a
/// cumulative count below the level's threshold; a badge already claimed.
pub open spec fn claim_badge_outcome(
    badges: Option<UserBadges>,
    caller: AuthorityKey,
    level: u8,
    current_total_checkins: u32,
) -> Result<UserBadges, CheckinError> {
    let owned = match badges {
        Some(b) => b.authority == caller,
        None => true,
    };
    if !owned {
        Err(CheckinError::Unauthorized)
    } else {
        match spec_badge_threshold(level) {
            None => Err(CheckinError::InvalidBadgeLevel),
            Some(threshold) => if current_total_checkins < threshold {
                Err(CheckinError::NotEnoughCheckins)
            } else if badge_claimed(mask_of(badges), level) {
                Err(CheckinError::BadgeAlreadyClaimed)
            } else {
                Ok(UserBadges {
                    authority: caller,
                    claimed_mask: mask_of(badges) | level_bit(level),
                })
            },
        }
    }
}

/// The badge record after a claim call: changed (or created) only when the
/// call succeeds.
pub open spec fn claim_badge_record_after(
    badges: Option<UserBadges>,
    caller: AuthorityKey,
    level: u8,
    current_total_checkins: u32,
) -> Option<UserBadges> {
    match claim_badge_outcome(badges, caller, level, current_total_checkins) {
        Ok(updated) => Some(updated),
        Err(_) => badges,
    }
}

/// The state a badge claim works on: the authenticated caller and the
/// caller's badge record, `None` when no claim has succeeded yet — the first
/// successful claim creates the record, bound to the caller.
///
/// The cumulative check-in count is a separate input to [`claim_badge`],
/// supplied by the caller rather than cross-referenced against the check-in
/// record inside the claim itself; the collaborator that drives the call is
/// responsible for reading a consistent count.
#[derive(Clone, Copy, Debug, PartialEq, Eq, Structural)]
pub struct ClaimBadge {
    pub authority: AuthorityKey,
    pub user_badges: Option<UserBadges>,
}

/// Claims the badge for `level`, exactly as [`claim_badge_outcome`]
/// describes: once the level is configured, the threshold met and the badge
/// still unclaimed, its bit is set — permanently — in the caller's record,
/// creating the record if this is the first claim; otherwise the specific
/// rejection is returned and nothing changes.
pub fn claim_badge(ctx: &mut ClaimBadge, level: u8, current_total_checkins: u32) -> (r: Result<
    (),
    CheckinError,
>)
    ensures
        final(ctx).authority == old(ctx).authority,
        final(ctx).user_badges == claim_badge_record_after(
            old(ctx).user_badges,
            old(ctx).authority,
            level,
            current_total_checkins,
        ),
        (match claim_badge_outcome(
            old(ctx).user_badges,
            old(ctx).authority,
            level,
            current_total_checkins,
        ) {
            Ok(_) => r == Ok::<(), CheckinError>(()),
            Err(e) => r == Err::<(), CheckinError>(e),
        }),
        r is Err ==> *final(ctx) == *old(ctx),
{
    match &ctx.user_badges {
        Some(existing) => {
            match require_owner(existing.authority, ctx.authority) {
                Ok(()) => {}
                Err(e) => {
                    return Err(e);
                }
            }
        }
        None => {}
    }
    if level == 0 {
        return Err(CheckinError::InvalidBadgeLevel);
    }
    let threshold: u32 = match badge_threshold(level) {
        Some(t) => t,
        None => {
            return Err(CheckinError::InvalidBadgeLevel);
        }
    };
    if current_total_checkins < threshold {
        return Err(CheckinError::NotEnoughCheckins);
    }
    // Defensive range check: a level whose bit lies outside the mask is not
    // claimable. Every configured level passes it.
    if level > 32 {
        return Err(CheckinError::InvalidBadgeLevel);
    }
    let bit: u32 = 1u32 << ((level - 1) as u32);
    let mask: u32 = match &ctx.user_badges {
        Some(existing) => existing.claimed_mask,
        None => 0,
    };
    if mask & bit != 0 {
        return Err(CheckinError::BadgeAlreadyClaimed);
    }
    ctx.user_badges = Some(UserBadges { authority: ctx.authority, claimed_mask: mask | bit });
    Ok(())
}

/// Setting further bits keeps every bit that `mask` already has set.
proof fn lemma_or_preserves_bits(mask: u32, added: u32, probe: u32)
    requires
        mask & probe != 0u32,
    ensures
        (mask | added) & probe != 0u32,
{
    assert((mask | added) & probe != 0u32) by (bit_vector)
        requires
            mask & probe != 0u32,
    ;
}

/// The claim bit of a configured level is a single set bit, so a mask that
/// just had it set records the level as claimed.
proof fn lemma_own_bit_set(mask: u32, level: u8)
    requires
        1 <= level <= 32,
    ensures
        badge_claimed(mask | level_bit(level), level),
{
    let shift: u32 = ((level - 1) as u32);
    assert((mask | (1u32 << shift)) & (1u32 << shift) != 0u32) by (bit_vector)
        requires
            shift < 32u32,
    ;
}

/// Law: a claim below the level's threshold is always rejected for the count,
/// and the claimed mask is untouched.
pub proof fn lemma_unmet_threshold_rejected(
    badges: Option<UserBadges>,
    caller: AuthorityKey,
    level: u8,
    current_total_checkins: u32,
)
    requires
        (match badges {
            Some(b) => b.authority == caller,
            None => true,
        }),
        spec_badge_threshold(level) is Some,
        current_total_checkins < spec_badge_threshold(level)->Some_0,
    ensures
        claim_badge_outcome(badges, caller, level, current_total_checkins) == Err::<
            UserBadges,
            CheckinError,
        >(CheckinError::NotEnoughCheckins),
        claim_badge_record_after(badges, caller, level, current_total_checkins) == badges,
        mask_of(claim_badge_record_after(badges, caller, level, current_total_checkins)) == mask_of(
            badges,
        ),
{
}

/// Law: once the claim reaches the mask check — the caller owns the record,
/// the level is configured and the threshold is met — an already-claimed
/// level is always rejected as a duplicate, whatever the count, and the
/// record is untouched.
pub proof fn lemma_duplicate_claim_rejected(
    badges: Option<UserBadges>,
    caller: AuthorityKey,
    level: u8,
    current_total_checkins: u32,
)
    requires
        (match badges {
            Some(b) => b.authority == caller,
            None => true,
        }),
        spec_badge_threshold(level) is Some,
        current_total_checkins >= spec_badge_threshold(level)->Some_0,
        badge_claimed(mask_of(badges), level),
    ensures
        claim_badge_outcome(badges, caller, level, current_total_checkins) == Err::<
            UserBadges,
            CheckinError,
        >(CheckinError::BadgeAlreadyClaimed),
        claim_badge_record_after(badges, caller, level, current_total_checkins) == badges,
{
}

/// Law: a rejected claim mutates nothing, so repeating it with the same
/// inputs against the unchanged record yields the same error again.
pub proof fn lemma_claim_rejection_idempotent(
    badges: Option<UserBadges>,
    caller: AuthorityKey,
    level: u8,
    current_total_checkins: u32,
)
    requires
        claim_badge_outcome(badges, caller, level, current_total_checkins) is Err,
    ensures
        claim_badge_record_after(badges, caller, level, current_total_checkins) == badges,
        claim_badge_outcome(
            claim_badge_record_after(badges, caller, level, current_total_checkins),
            caller,
            level,
            current_total_checkins,
        ) == claim_badge_outcome(badges, caller, level, current_total_checkins),
{
}

/// Law: claims are permanent. Whatever a claim call does, every level
/// recorded as claimed before is still recorded as claimed after; and when
/// the call succeeds, its own level is recorded as claimed and a second claim
/// for it is rejected as a duplicate.
pub proof fn lemma_claims_monotone(
    badges: Option<UserBadges>,
    caller: AuthorityKey,
    level: u8,
    current_total_checkins: u32,
)
    ensures
        forall|l: u8|
            badge_claimed(mask_of(badges), l) ==> badge_claimed(
                mask_of(claim_badge_record_after(badges, caller, level, current_total_checkins)),
                l,
            ),
        claim_badge_outcome(badges, caller, level, current_total_checkins) is Ok ==> badge_claimed(
            mask_of(claim_badge_record_after(badges, caller, level, current_total_checkins)),
            level,
        ),
        claim_badge_outcome(badges, caller, level, current_total_checkins) is Ok
            ==> claim_badge_outcome(
            claim_badge_record_after(badges, caller, level, current_total_checkins),
            caller,
            level,
            current_total_checkins,
        ) == Err::<UserBadges, CheckinError>(CheckinError::BadgeAlreadyClaimed),
{
    let after = claim_badge_record_after(badges, caller, level, current_total_checkins);
    assert forall|l: u8| badge_claimed(mask_of(badges), l) implies badge_claimed(
        mask_of(after),
        l,
    ) by {
        if claim_badge_outcome(badges, caller, level, current_total_checkins) is Ok {
            lemma_or_preserves_bits(mask_of(badges), level_bit(level), level_bit(l));
        }
    }
    if claim_badge_outcome(badges, caller, level, current_total_checkins) is Ok {
        lemma_own_bit_set(mask_of(badges), level);
    }
}

} // verus!
