use crate::address::AccountId;
use crate::status::RequestStatus;
use vstd::prelude::*;

verus! {

/// One persistent record per (sender, receiver, request_id): the request's
/// lifecycle state and its accounting.
#[verifier::ext_equal]
pub struct EscrowAccount {
    /// The requesting party; immutable after creation.
    pub sender: AccountId,
    /// The requested party; immutable after creation.
    pub receiver: AccountId,
    /// Caller-chosen identifier; part of the record's derived address;
    /// immutable after creation.
    pub request_id: String,
    /// Custodied unit amount: the fixed deposit until release, then 0.
    pub amount: u64,
    /// Creation timestamp; immutable after creation.
    pub created_at: i64,
    /// Set true only by the flag transition.
    pub marked_as_spam: bool,
    /// Timestamp before which a flagged request may not be resolved;
    /// 0 until flagged.
    pub spam_resolution_time: i64,
    /// Current state of the request.
    pub status: RequestStatus,
    /// Disambiguator with which the record's own address re-derives.
    pub bump: u8,
}

} // verus!
