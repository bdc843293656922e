use crate::address::escrow_tag;
use crate::address::pda_create;
use crate::address::vault_tag;
use crate::status::is_terminal;
use crate::store::EscrowStore;
use vstd::prelude::*;

verus! {

/// Conservation: a retired escrow custodies nothing — its amount and vault
/// balance are zero — and the total ever withdrawn from its vault equals the
/// original deposit exactly: the deposit comes back to the sender once, and
/// cannot be withdrawn twice.
pub proof fn lemma_conservation(s: EscrowStore, i: int)
    requires
        s.wf(),
        0 <= i < s.entries@.len(),
        is_terminal(s.entries@[i].record.status),
    ensures
        s.entries@[i].record.amount == 0,
        s.entries@[i].vault.balance == 0,
        s.entries@[i].withdrawn == s.config.deposit,
{
}

/// Round trip: the stored record and vault addresses of every escrow
/// re-derive from the public triple and the stored bumps — recomputing the
/// derivation yields exactly the stored addresses. Derivation itself is a
/// pure function of the triple, the bump and the program id, so any party
/// recomputes the same pair every time.
pub proof fn lemma_address_round_trip(s: EscrowStore, i: int)
    requires
        s.wf(),
        0 <= i < s.entries@.len(),
    ensures
        ({
            let e = s.entries@[i];
            pda_create(
                escrow_tag(),
                e.record.sender.0@,
                e.record.receiver.0@,
                e.record.request_id@,
                e.record.bump,
                s.config.program_id@,
            ) == Some(e.record_address@)
        }),
        ({
            let e = s.entries@[i];
            pda_create(
                vault_tag(),
                e.record.sender.0@,
                e.record.receiver.0@,
                e.record.request_id@,
                e.vault_bump,
                s.config.program_id@,
            ) == Some(e.vault.address@)
        }),
{
}

} // verus!
