use vstd::prelude::*;

verus! {

/// The lifecycle state of one connection request's escrow record.
#[derive(Clone, Copy, Debug, PartialEq, Eq, Structural)]
pub enum RequestStatus {
    /// Initial state: the deposit sits in the vault, awaiting the receiver.
    Pending,
    /// The receiver accepted; the deposit went back to the sender.
    Accepted,
    /// The sender withdrew the request; the deposit went back to the sender.
    Rejected,
    /// The receiver flagged the request; refund is gated by a cool-down.
    SpamConfirmed,
    /// The flagged request's cool-down elapsed and the sender was refunded.
    SpamResolved,
    /// Reserved terminal value; no transition produces it.
    NotSpam,
    /// The request sat unanswered past the expiry window and the sender
    /// reclaimed the deposit.
    Expired,
}

/// A terminal status: the escrow is retired and no transition may leave it.
pub open spec fn is_terminal(s: RequestStatus) -> bool {
    s is Accepted || s is Rejected || s is SpamResolved || s is NotSpam || s is Expired
}

/// Executable test for a terminal status.
pub fn status_is_terminal(s: &RequestStatus) -> (r: bool)
    ensures
        r == is_terminal(*s),
{
    match s {
        RequestStatus::Pending => false,
        RequestStatus::SpamConfirmed => false,
        _ => true,
    }
}

/// One legal step of the escrow state machine: `Pending` may move to
/// `Accepted`, `Rejected`, `SpamConfirmed` or `Expired`; `SpamConfirmed`
/// may move to `SpamResolved`; nothing else moves.
pub open spec fn status_step(pre: RequestStatus, post: RequestStatus) -> bool {
    ||| (pre is Pending && (post is Accepted || post is Rejected || post is SpamConfirmed
            || post is Expired))
    ||| (pre is SpamConfirmed && post is SpamResolved)
}

/// What one call may do to a record's status: leave it alone or take one
/// legal step.
pub open spec fn status_evolves(pre: RequestStatus, post: RequestStatus) -> bool {
    pre == post || status_step(pre, post)
}

/// A terminal status admits no move to any other status.
pub proof fn lemma_terminal_is_final(pre: RequestStatus, post: RequestStatus)
    requires
        is_terminal(pre),
        status_evolves(pre, post),
    ensures
        post == pre,
{
}

/// No evolution re-enters `Pending`: a record observed outside `Pending`
/// never returns to it.
pub proof fn lemma_pending_never_reentered(pre: RequestStatus, post: RequestStatus)
    requires
        status_evolves(pre, post),
        post is Pending,
    ensures
        pre is Pending,
{
}

/// Along any sequence of legal evolutions, a status that is terminal at
/// position `i` stays exactly that status at every later position `j`.
pub proof fn lemma_terminal_forever(trace: Seq<RequestStatus>, i: int, j: int)
    requires
        forall|k: int| 0 <= k < trace.len() - 1 ==> status_evolves(
            #[trigger] trace[k],
            trace[k + 1],
        ),
        0 <= i <= j < trace.len(),
        is_terminal(trace[i]),
    ensures
        trace[j] == trace[i],
    decreases j - i,
{
    if j > i {
        lemma_terminal_forever(trace, i, j - 1);
        assert(status_evolves(trace[j - 1], trace[j]));
    }
}

} // verus!
