use vstd::prelude::*;

verus! {

/// Why a transition was rejected. Every rejection is terminal for the
/// attempted call and leaves the store unchanged.
#[derive(Clone, Copy, Debug, PartialEq, Eq, Structural)]
pub enum ErrorCode {
    /// The transition is not allowed from the record's current status.
    InvalidRequestStatus,
    /// The caller does not match the record's stored receiver.
    InvalidReceiver,
    /// Spam resolution was attempted on a record that was never flagged.
    NotMarkedAsSpam,
    /// Spam resolution was attempted before the cool-down elapsed.
    ResolutionTimeNotReached,
    /// Reclaim was attempted before the expiry window elapsed.
    RequestNotExpired,
    /// A transfer asked for more than the vault holds (defensive; the
    /// store's invariant keeps this from arising in any transition).
    InsufficientFunds,
    /// A record already exists at the derived address.
    DuplicateRequest,
    /// A supplied vault or record address fails the re-derivation check,
    /// or no valid derivation exists for the triple.
    AddressMismatch,
}

} // verus!
