use crate::address::bytes32_eq;
use crate::address::derive_escrow_address;
use crate::address::derive_vault_address;
use crate::address::escrow_tag;
use crate::address::id_eq;
use crate::address::pda_create;
use crate::address::pda_find;
use crate::address::vault_tag;
use crate::address::AccountId;
use crate::config::ProtocolConfig;
use crate::error::ErrorCode;
use crate::escrow::EscrowAccount;
use crate::fund::custody_authorized;
use crate::fund::custody_withdraw;
use crate::fund::vault_deposit;
use crate::fund::Vault;
use crate::status::is_terminal;
use crate::status::status_evolves;
use crate::status::RequestStatus;
use vstd::prelude::*;

verus! {

/// One stored escrow: the record, its paired vault, the derived address the
/// record itself lives at, and the running total ever withdrawn from the
/// vault to the sender.
#[verifier::ext_equal]
pub struct EscrowEntry {
    /// The derived address the record is stored at.
    pub record_address: [u8; 32],
    /// The escrow record.
    pub record: EscrowAccount,
    /// The paired custody vault.
    pub vault: Vault,
    /// The bump with which the vault's address re-derives.
    pub vault_bump: u8,
    /// Units ever withdrawn from the vault to the sender.
    pub withdrawn: u64,
}

/// Well-formedness of one stored escrow under a configuration: the record,
/// the vault balance and the withdrawal total account for the deposit
/// exactly, the status and flags agree, and both stored addresses are the
/// canonical derivations of the record's own triple.
pub open spec fn entry_wf(cfg: ProtocolConfig, e: EscrowEntry) -> bool {
    &&& e.record.amount + e.withdrawn == cfg.deposit
    &&& e.vault.balance == e.record.amount
    &&& (e.record.status is Pending ==> e.record.amount == cfg.deposit
        && e.record.spam_resolution_time == 0)
    &&& (e.record.marked_as_spam <==> (e.record.status is SpamConfirmed
        || e.record.status is SpamResolved))
    &&& (e.record.status is SpamConfirmed ==> e.record.amount == cfg.deposit)
    &&& (is_terminal(e.record.status) ==> e.record.amount == 0)
    &&& !(e.record.status is NotSpam)
    &&& pda_find(escrow_tag(), e.record.sender.0@, e.record.receiver.0@, e.record.request_id@,
        cfg.program_id@) == Some((e.record_address@, e.record.bump))
    &&& pda_create(escrow_tag(), e.record.sender.0@, e.record.receiver.0@,
        e.record.request_id@, e.record.bump, cfg.program_id@) == Some(e.record_address@)
    &&& pda_find(vault_tag(), e.record.sender.0@, e.record.receiver.0@, e.record.request_id@,
        cfg.program_id@) == Some((e.vault.address@, e.vault_bump))
    &&& pda_create(vault_tag(), e.record.sender.0@, e.record.receiver.0@,
        e.record.request_id@, e.vault_bump, cfg.program_id@) == Some(e.vault.address@)
}

/// Whether some stored entry lives at a record address.
pub open spec fn has_addr(entries: Seq<EscrowEntry>, addr: Seq<u8>) -> bool {
    exists|i: int| 0 <= i < entries.len() && (#[trigger] entries[i]).record_address@ == addr
}

/// Whether a supplied vault address passes the custody check of one entry.
pub open spec fn entry_vault_authorized(
    cfg: ProtocolConfig,
    e: EscrowEntry,
    supplied: Seq<u8>,
) -> bool {
    custody_authorized(
        e.vault.address@,
        e.record.sender.0@,
        e.record.receiver.0@,
        e.record.request_id@,
        e.vault_bump,
        cfg.program_id@,
        supplied,
    )
}

/// Release the full custodied amount to the sender and retire the record
/// into a terminal status: amount and vault balance drop to zero and the
/// withdrawal total grows by the released amount.
pub open spec fn spec_release(e: EscrowEntry, status: RequestStatus) -> EscrowEntry {
    EscrowEntry {
        record: EscrowAccount { status, amount: 0, ..e.record },
        vault: Vault { balance: (e.vault.balance - e.record.amount) as u64, ..e.vault },
        withdrawn: (e.withdrawn + e.record.amount) as u64,
        ..e
    }
}

/// The accept transition on one stored escrow: the receiver accepts a
/// pending request and the deposit returns to the sender. Checks run in
/// order: caller is the record's receiver, status is `Pending`, the supplied
/// vault address passes the custody check; then the funds are released.
pub open spec fn spec_accept(
    cfg: ProtocolConfig,
    e: EscrowEntry,
    caller: AccountId,
    supplied_vault: Seq<u8>,
) -> (EscrowEntry, Result<u64, ErrorCode>) {
    if caller.0@ != e.record.receiver.0@ {
        (e, Err(ErrorCode::InvalidReceiver))
    } else if !(e.record.status is Pending) {
        (e, Err(ErrorCode::InvalidRequestStatus))
    } else if !entry_vault_authorized(cfg, e, supplied_vault) {
        (e, Err(ErrorCode::AddressMismatch))
    } else {
        (spec_release(e, RequestStatus::Accepted), Ok(e.record.amount))
    }
}

/// The reject transition: the sender withdraws a pending request and the
/// deposit returns to the sender. Status is checked, then the supplied vault
/// address; the caller was already proven to be the record's sender.
pub open spec fn spec_reject(
    cfg: ProtocolConfig,
    e: EscrowEntry,
    supplied_vault: Seq<u8>,
) -> (EscrowEntry, Result<u64, ErrorCode>) {
    if !(e.record.status is Pending) {
        (e, Err(ErrorCode::InvalidRequestStatus))
    } else if !entry_vault_authorized(cfg, e, supplied_vault) {
        (e, Err(ErrorCode::AddressMismatch))
    } else {
        (spec_release(e, RequestStatus::Rejected), Ok(e.record.amount))
    }
}

/// The flag transition: the receiver marks a pending request as unwanted.
/// No funds move; the cool-down deadline is recorded.
pub open spec fn spec_mark(
    cfg: ProtocolConfig,
    e: EscrowEntry,
    caller: AccountId,
    now: i64,
) -> (EscrowEntry, Result<(), ErrorCode>) {
    if caller.0@ != e.record.receiver.0@ {
        (e, Err(ErrorCode::InvalidReceiver))
    } else if !(e.record.status is Pending) {
        (e, Err(ErrorCode::InvalidRequestStatus))
    } else {
        (
            EscrowEntry {
                record: EscrowAccount {
                    status: RequestStatus::SpamConfirmed,
                    marked_as_spam: true,
                    spam_resolution_time: (now + cfg.spam_cooldown) as i64,
                    ..e.record
                },
                ..e
            },
            Ok(()),
        )
    }
}

/// The spam-resolution transition: once the cool-down has elapsed, the
/// deposit of a flagged request returns to the sender through the
/// custody-authorized transfer. Succeeds exactly when the record is flagged,
/// `now` has reached the recorded deadline, and the vault check passes.
pub open spec fn spec_resolve(
    cfg: ProtocolConfig,
    e: EscrowEntry,
    supplied_vault: Seq<u8>,
    now: i64,
) -> (EscrowEntry, Result<u64, ErrorCode>) {
    if !e.record.marked_as_spam {
        (e, Err(ErrorCode::NotMarkedAsSpam))
    } else if now < e.record.spam_resolution_time {
        (e, Err(ErrorCode::ResolutionTimeNotReached))
    } else if !entry_vault_authorized(cfg, e, supplied_vault) {
        (e, Err(ErrorCode::AddressMismatch))
    } else {
        (spec_release(e, RequestStatus::SpamResolved), Ok(e.record.amount))
    }
}

/// The reclaim transition: once the expiry window has strictly passed, the
/// sender takes the deposit of a still-pending request back through the
/// custody-authorized transfer.
pub open spec fn spec_claim(
    cfg: ProtocolConfig,
    e: EscrowEntry,
    supplied_vault: Seq<u8>,
    now: i64,
) -> (EscrowEntry, Result<u64, ErrorCode>) {
    if !(e.record.status is Pending) {
        (e, Err(ErrorCode::InvalidRequestStatus))
    } else if now <= e.record.created_at + cfg.expiry_window {
        (e, Err(ErrorCode::RequestNotExpired))
    } else if !entry_vault_authorized(cfg, e, supplied_vault) {
        (e, Err(ErrorCode::AddressMismatch))
    } else {
        (spec_release(e, RequestStatus::Expired), Ok(e.record.amount))
    }
}

/// The escrow record store: every live and retired escrow, keyed by derived
/// record address, under one protocol configuration.
pub struct EscrowStore {
    /// The configuration all entries are created under.
    pub config: ProtocolConfig,
    /// The stored escrows; record addresses are pairwise distinct.
    pub entries: Vec<EscrowEntry>,
}

impl EscrowStore {
    /// The store's invariant: a sane configuration, every entry well-formed,
    /// and no two entries at one record address.
    pub open spec fn wf(self) -> bool {
        &&& self.config.wf()
        &&& forall|i: int| 0 <= i < self.entries@.len() ==> entry_wf(
            self.config,
            #[trigger] self.entries@[i],
        )
        &&& forall|i: int, j: int|
            0 <= i < self.entries@.len() && 0 <= j < self.entries@.len() && i != j ==> (
            #[trigger] self.entries@[i]).record_address@ != (
            #[trigger] self.entries@[j]).record_address@
    }

    /// An empty store under a configuration.
    pub fn new(config: ProtocolConfig) -> (r: EscrowStore)
        requires
            config.wf(),
        ensures
            r.wf(),
            r.config == config,
            r.entries@.len() == 0,
    {
        EscrowStore { config, entries: Vec::new() }
    }

    /// The index of the entry stored at a record address, if any.
    pub fn find_index(&self, record_address: &[u8; 32]) -> (r: Option<usize>)
        ensures
            (match r {
                Some(i) => i < self.entries@.len() && self.entries@[i as int].record_address@
                    == record_address@,
                None => !has_addr(self.entries@, record_address@),
            }),
    {
        let mut i: usize = 0;
        while i < self.entries.len()
            invariant
                0 <= i <= self.entries@.len(),
                forall|j: int| 0 <= j < i ==> (#[trigger] self.entries@[j]).record_address@
                    != record_address@,
            decreases self.entries@.len() - i,
        {
            if bytes32_eq(&self.entries[i].record_address, record_address) {
                return Some(i);
            }
            i += 1;
        }
        None
    }

    /// Create a connection request: derive the record and vault addresses
    /// from the triple, refuse a duplicate, and store a fresh `Pending`
    /// record whose vault holds the full deposit moved from the sender.
    /// Returns the derived record address. The caller was proven to be
    /// `sender` by the identity layer.
    pub fn send_connection_request(
        &mut self,
        sender: &AccountId,
        receiver: &AccountId,
        request_id: String,
        now: i64,
    ) -> (r: Result<[u8; 32], ErrorCode>)
        requires
            old(self).wf(),
        ensures
            final(self).wf(),
            final(self).config == old(self).config,
            ({
                let pid = old(self).config.program_id@;
                let ef = pda_find(escrow_tag(), sender.0@, receiver.0@, request_id@, pid);
                let vf = pda_find(vault_tag(), sender.0@, receiver.0@, request_id@, pid);
                match (ef, vf) {
                    (Some(ep), Some(vp)) => if has_addr(old(self).entries@, ep.0) {
                        r == Err::<[u8; 32], ErrorCode>(ErrorCode::DuplicateRequest)
                            && final(self).entries@ == old(self).entries@
                    } else {
                        &&& final(self).entries@.len() == old(self).entries@.len() + 1
                        &&& forall|k: int| 0 <= k < old(self).entries@.len()
                            ==> final(self).entries@[k] == old(self).entries@[k]
                        &&& (match r {
                            Ok(addr) => addr@ == ep.0,
                            Err(_) => false,
                        })
                        &&& ({
                            let e = final(self).entries@[old(self).entries@.len() as int];
                            &&& e.record_address@ == ep.0
                            &&& e.record.bump == ep.1
                            &&& e.record.sender == *sender
                            &&& e.record.receiver == *receiver
                            &&& e.record.request_id@ == request_id@
                            &&& e.record.amount == old(self).config.deposit
                            &&& e.record.created_at == now
                            &&& e.record.marked_as_spam == false
                            &&& e.record.spam_resolution_time == 0
                            &&& e.record.status is Pending
                            &&& e.vault.address@ == vp.0
                            &&& e.vault_bump == vp.1
                            &&& e.vault.balance == old(self).config.deposit
                            &&& e.withdrawn == 0
                        })
                    },
                    _ => r == Err::<[u8; 32], ErrorCode>(ErrorCode::AddressMismatch)
                        && final(self).entries@ == old(self).entries@,
                }
            }),
    {
        let escrow_derived = derive_escrow_address(sender, receiver, &request_id,
            &self.config.program_id);
        let (record_address, record_bump) = match escrow_derived {
            Some(p) => p,
            None => {
                return Err(ErrorCode::AddressMismatch);
            },
        };
        let vault_derived = derive_vault_address(sender, receiver, &request_id,
            &self.config.program_id);
        let (vault_address, vault_bump) = match vault_derived {
            Some(p) => p,
            None => {
                return Err(ErrorCode::AddressMismatch);
            },
        };
        match self.find_index(&record_address) {
            Some(_) => {
                return Err(ErrorCode::DuplicateRequest);
            },
            None => {},
        }
        let mut vault = Vault { address: vault_address, balance: 0 };
        vault_deposit(&mut vault, self.config.deposit);
        let record = EscrowAccount {
            sender: *sender,
            receiver: *receiver,
            request_id,
            amount: self.config.deposit,
            created_at: now,
            marked_as_spam: false,
            spam_resolution_time: 0,
            status: RequestStatus::Pending,
            bump: record_bump,
        };
        let entry = EscrowEntry { record_address, record, vault, vault_bump, withdrawn: 0 };
        self.entries.push(entry);
        Ok(record_address)
    }

    /// Accept a pending request: the receiver agrees to connect and the full
    /// deposit returns to the sender (the deposit deters spam; it is not a
    /// payment to the receiver). Returns the units released.
    pub fn accept_request(
        &mut self,
        record_address: &[u8; 32],
        vault_address: &[u8; 32],
        caller: &AccountId,
    ) -> (r: Result<u64, ErrorCode>)
        requires
            old(self).wf(),
        ensures
            final(self).wf(),
            final(self).config == old(self).config,
            final(self).entries@.len() == old(self).entries@.len(),
            !has_addr(old(self).entries@, record_address@) ==> r == Err::<u64, ErrorCode>(
                ErrorCode::AddressMismatch,
            ) && final(self).entries@ == old(self).entries@,
            forall|k: int|
                0 <= k < old(self).entries@.len() && (
                #[trigger] old(self).entries@[k]).record_address@ != record_address@
                    ==> final(self).entries@[k] == old(self).entries@[k],
            forall|k: int|
                0 <= k < old(self).entries@.len() && (
                #[trigger] old(self).entries@[k]).record_address@ == record_address@ ==> (
                final(self).entries@[k], r) == spec_accept(
                    old(self).config,
                    old(self).entries@[k],
                    *caller,
                    vault_address@,
                ) && status_evolves(
                    old(self).entries@[k].record.status,
                    final(self).entries@[k].record.status,
                ),
    {
        let idx = match self.find_index(record_address) {
            Some(i) => i,
            None => {
                return Err(ErrorCode::AddressMismatch);
            },
        };
        if !id_eq(caller, &self.entries[idx].record.receiver) {
            return Err(ErrorCode::InvalidReceiver);
        }
        if !(self.entries[idx].record.status == RequestStatus::Pending) {
            return Err(ErrorCode::InvalidRequestStatus);
        }
        let payout = self.entries[idx].record.amount;
        let pid = self.config.program_id;
        let e = &mut self.entries[idx];
        match custody_withdraw(&mut e.vault, &e.record.sender, &e.record.receiver,
            &e.record.request_id, e.vault_bump, &pid, vault_address, payout) {
            Ok(_) => {},
            Err(err) => {
                return Err(err);
            },
        }
        e.record.status = RequestStatus::Accepted;
        e.record.amount = 0;
        e.withdrawn = e.withdrawn + payout;
        Ok(payout)
    }

    /// Reject a pending request: the sender withdraws it and the full
    /// deposit returns to the sender. The identity layer has already proven
    /// that `caller` is the account named as sender on the record.
    pub fn reject_request(
        &mut self,
        record_address: &[u8; 32],
        vault_address: &[u8; 32],
        caller: &AccountId,
    ) -> (r: Result<u64, ErrorCode>)
        requires
            old(self).wf(),
            forall|k: int|
                0 <= k < old(self).entries@.len() && (
                #[trigger] old(self).entries@[k]).record_address@ == record_address@
                    ==> caller.0@ == old(self).entries@[k].record.sender.0@,
        ensures
            final(self).wf(),
            final(self).config == old(self).config,
            final(self).entries@.len() == old(self).entries@.len(),
            !has_addr(old(self).entries@, record_address@) ==> r == Err::<u64, ErrorCode>(
                ErrorCode::AddressMismatch,
            ) && final(self).entries@ == old(self).entries@,
            forall|k: int|
                0 <= k < old(self).entries@.len() && (
                #[trigger] old(self).entries@[k]).record_address@ != record_address@
                    ==> final(self).entries@[k] == old(self).entries@[k],
            forall|k: int|
                0 <= k < old(self).entries@.len() && (
                #[trigger] old(self).entries@[k]).record_address@ == record_address@ ==> (
                final(self).entries@[k], r) == spec_reject(
                    old(self).config,
                    old(self).entries@[k],
                    vault_address@,
                ) && status_evolves(
                    old(self).entries@[k].record.status,
                    final(self).entries@[k].record.status,
                ),
    {
        let idx = match self.find_index(record_address) {
            Some(i) => i,
            None => {
                return Err(ErrorCode::AddressMismatch);
            },
        };
        if !(self.entries[idx].record.status == RequestStatus::Pending) {
            return Err(ErrorCode::InvalidRequestStatus);
        }
        let payout = self.entries[idx].record.amount;
        let pid = self.config.program_id;
        let e = &mut self.entries[idx];
        match custody_withdraw(&mut e.vault, &e.record.sender, &e.record.receiver,
            &e.record.request_id, e.vault_bump, &pid, vault_address, payout) {
            Ok(_) => {},
            Err(err) => {
                return Err(err);
            },
        }
        e.record.status = RequestStatus::Rejected;
        e.record.amount = 0;
        e.withdrawn = e.withdrawn + payout;
        Ok(payout)
    }

    /// Flag a pending request as unwanted: only the record's receiver may do
    /// so. The record moves to `SpamConfirmed` and resolution is gated until
    /// `now` plus the configured cool-down; no funds move.
    pub fn mark_as_spam(
        &mut self,
        record_address: &[u8; 32],
        caller: &AccountId,
        now: i64,
    ) -> (r: Result<(), ErrorCode>)
        requires
            old(self).wf(),
            now + old(self).config.spam_cooldown <= i64::MAX,
        ensures
            final(self).wf(),
            final(self).config == old(self).config,
            final(self).entries@.len() == old(self).entries@.len(),
            !has_addr(old(self).entries@, record_address@) ==> r == Err::<(), ErrorCode>(
                ErrorCode::AddressMismatch,
            ) && final(self).entries@ == old(self).entries@,
            forall|k: int|
                0 <= k < old(self).entries@.len() && (
                #[trigger] old(self).entries@[k]).record_address@ != record_address@
                    ==> final(self).entries@[k] == old(self).entries@[k],
            forall|k: int|
                0 <= k < old(self).entries@.len() && (
                #[trigger] old(self).entries@[k]).record_address@ == record_address@ ==> (
                final(self).entries@[k], r) == spec_mark(
                    old(self).config,
                    old(self).entries@[k],
                    *caller,
                    now,
                ) && status_evolves(
                    old(self).entries@[k].record.status,
                    final(self).entries@[k].record.status,
                ),
    {
        let idx = match self.find_index(record_address) {
            Some(i) => i,
            None => {
                return Err(ErrorCode::AddressMismatch);
            },
        };
        if !id_eq(caller, &self.entries[idx].record.receiver) {
            return Err(ErrorCode::InvalidReceiver);
        }
        if !(self.entries[idx].record.status == RequestStatus::Pending) {
            return Err(ErrorCode::InvalidRequestStatus);
        }
        let deadline = now + self.config.spam_cooldown;
        let e = &mut self.entries[idx];
        e.record.status = RequestStatus::SpamConfirmed;
        e.record.marked_as_spam = true;
        e.record.spam_resolution_time = deadline;
        Ok(())
    }

    /// Resolve a flagged request: once `now` has reached the recorded
    /// cool-down deadline, the full deposit returns to the sender through
    /// the custody-authorized transfer. The identity layer has already
    /// proven that `caller` is the account named as sender on the record.
    pub fn resolve_spam(
        &mut self,
        record_address: &[u8; 32],
        vault_address: &[u8; 32],
        caller: &AccountId,
        now: i64,
    ) -> (r: Result<u64, ErrorCode>)
        requires
            old(self).wf(),
            forall|k: int|
                0 <= k < old(self).entries@.len() && (
                #[trigger] old(self).entries@[k]).record_address@ == record_address@
                    ==> caller.0@ == old(self).entries@[k].record.sender.0@,
        ensures
            final(self).wf(),
            final(self).config == old(self).config,
            final(self).entries@.len() == old(self).entries@.len(),
            !has_addr(old(self).entries@, record_address@) ==> r == Err::<u64, ErrorCode>(
                ErrorCode::AddressMismatch,
            ) && final(self).entries@ == old(self).entries@,
            forall|k: int|
                0 <= k < old(self).entries@.len() && (
                #[trigger] old(self).entries@[k]).record_address@ != record_address@
                    ==> final(self).entries@[k] == old(self).entries@[k],
            forall|k: int|
                0 <= k < old(self).entries@.len() && (
                #[trigger] old(self).entries@[k]).record_address@ == record_address@ ==> (
                final(self).entries@[k], r) == spec_resolve(
                    old(self).config,
                    old(self).entries@[k],
                    vault_address@,
                    now,
                ) && status_evolves(
                    old(self).entries@[k].record.status,
                    final(self).entries@[k].record.status,
                ),
    {
        let idx = match self.find_index(record_address) {
            Some(i) => i,
            None => {
                return Err(ErrorCode::AddressMismatch);
            },
        };
        if !self.entries[idx].record.marked_as_spam {
            return Err(ErrorCode::NotMarkedAsSpam);
        }
        if now < self.entries[idx].record.spam_resolution_time {
            return Err(ErrorCode::ResolutionTimeNotReached);
        }
        let payout = self.entries[idx].record.amount;
        let pid = self.config.program_id;
        let e = &mut self.entries[idx];
        match custody_withdraw(&mut e.vault, &e.record.sender, &e.record.receiver,
            &e.record.request_id, e.vault_bump, &pid, vault_address, payout) {
            Ok(_) => {},
            Err(err) => {
                return Err(err);
            },
        }
        e.record.status = RequestStatus::SpamResolved;
        e.record.amount = 0;
        e.withdrawn = e.withdrawn + payout;
        Ok(payout)
    }

    /// Reclaim an expired request: once `now` lies strictly past creation
    /// plus the expiry window, the sender takes the full deposit of a
    /// still-pending request back through the custody-authorized transfer.
    /// The identity layer has already proven that `caller` is the account
    /// named as sender on the record.
    pub fn claim_back(
        &mut self,
        record_address: &[u8; 32],
        vault_address: &[u8; 32],
        caller: &AccountId,
        now: i64,
    ) -> (r: Result<u64, ErrorCode>)
        requires
            old(self).wf(),
            forall|k: int|
                0 <= k < old(self).entries@.len() && (
                #[trigger] old(self).entries@[k]).record_address@ == record_address@
                    ==> caller.0@ == old(self).entries@[k].record.sender.0@,
        ensures
            final(self).wf(),
            final(self).config == old(self).config,
            final(self).entries@.len() == old(self).entries@.len(),
            !has_addr(old(self).entries@, record_address@) ==> r == Err::<u64, ErrorCode>(
                ErrorCode::AddressMismatch,
            ) && final(self).entries@ == old(self).entries@,
            forall|k: int|
                0 <= k < old(self).entries@.len() && (
                #[trigger] old(self).entries@[k]).record_address@ != record_address@
                    ==> final(self).entries@[k] == old(self).entries@[k],
            forall|k: int|
                0 <= k < old(self).entries@.len() && (
                #[trigger] old(self).entries@[k]).record_address@ == record_address@ ==> (
                final(self).entries@[k], r) == spec_claim(
                    old(self).config,
                    old(self).entries@[k],
                    vault_address@,
                    now,
                ) && status_evolves(
                    old(self).entries@[k].record.status,
                    final(self).entries@[k].record.status,
                ),
    {
        let idx = match self.find_index(record_address) {
            Some(i) => i,
            None => {
                return Err(ErrorCode::AddressMismatch);
            },
        };
        if !(self.entries[idx].record.status == RequestStatus::Pending) {
            return Err(ErrorCode::InvalidRequestStatus);
        }
        let expired = (now as i128) > (self.entries[idx].record.created_at as i128) + (
        self.config.expiry_window as i128);
        if !expired {
            return Err(ErrorCode::RequestNotExpired);
        }
        let payout = self.entries[idx].record.amount;
        let pid = self.config.program_id;
        let e = &mut self.entries[idx];
        match custody_withdraw(&mut e.vault, &e.record.sender, &e.record.receiver,
            &e.record.request_id, e.vault_bump, &pid, vault_address, payout) {
            Ok(_) => {},
            Err(err) => {
                return Err(err);
            },
        }
        e.record.status = RequestStatus::Expired;
        e.record.amount = 0;
        e.withdrawn = e.withdrawn + payout;
        Ok(payout)
    }

    /// The record stored at an address.
    pub fn get_record(&self, record_address: &[u8; 32]) -> (r: Option<&EscrowAccount>)
        ensures
            (match r {
                Some(rec) => exists|i: int|
                    0 <= i < self.entries@.len() && (#[trigger] self.entries@[i]).record_address@
                        == record_address@ && *rec == self.entries@[i].record,
                None => !has_addr(self.entries@, record_address@),
            }),
    {
        match self.find_index(record_address) {
            Some(i) => Some(&self.entries[i].record),
            None => None,
        }
    }

    /// The vault paired with the record stored at an address.
    pub fn get_vault(&self, record_address: &[u8; 32]) -> (r: Option<&Vault>)
        ensures
            (match r {
                Some(v) => exists|i: int|
                    0 <= i < self.entries@.len() && (#[trigger] self.entries@[i]).record_address@
                        == record_address@ && *v == self.entries@[i].vault,
                None => !has_addr(self.entries@, record_address@),
            }),
    {
        match self.find_index(record_address) {
            Some(i) => Some(&self.entries[i].vault),
            None => None,
        }
    }
}

} // verus!
