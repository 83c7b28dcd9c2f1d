use vstd::prelude::*;

use crate::errors::CheckinError;

verus! {

/// An opaque caller identity. The collaborator that invokes the core has
/// already verified that the caller holds this key (the equivalent of a
/// signature check); the core itself only ever compares two keys for
/// equality, so the key is carried as a plain number.
#[derive(Clone, Copy, Debug, PartialEq, Eq, Structural)]
pub struct AuthorityKey {
    pub id: u64,
}

/// The explicit authorization guard: a record bound to `owner` may be read or
/// mutated only by a caller authenticated as that owner. Every transition
/// runs this guard before touching the record.
pub fn require_owner(owner: AuthorityKey, caller: AuthorityKey) -> (r: Result<(), CheckinError>)
    ensures
        r is Ok <==> owner == caller,
        r is Err ==> r == Err::<(), CheckinError>(CheckinError::Unauthorized),
{
    if owner == caller {
        Ok(())
    } else {
        Err(CheckinError::Unauthorized)
    }
}

} // verus!
