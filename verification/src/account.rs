use vstd::prelude::*;

verus! {

/// The identity of a caller, as the host reports it: an opaque account
/// identifier that the poll compares only for equality.
#[derive(Clone, Copy, Debug, PartialEq, Eq, Structural)]
pub struct AccountId {
    /// The opaque identifier value.
    pub id: u64,
}

/// The authorization guard: `caller` may perform owner-gated operations
/// exactly when it is the recorded `owner`.
pub open spec fn is_authorized(caller: AccountId, owner: AccountId) -> bool {
    caller == owner
}

/// Compares a caller identity against the recorded owner identity.
pub fn authorize(caller: AccountId, owner: AccountId) -> (r: bool)
    ensures
        r == is_authorized(caller, owner),
{
    caller == owner
}

} // verus!
