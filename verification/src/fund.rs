use crate::address::bytes32_eq;
use crate::address::pda_create;
use crate::address::rederive_vault_address;
use crate::address::vault_tag;
use crate::address::AccountId;
use crate::error::ErrorCode;
use vstd::prelude::*;

verus! {

/// A custody address holding the escrowed deposit for one record. It keeps
/// no record of its own: all accounting lives in the escrow record.
#[derive(Clone, Copy)]
#[verifier::ext_equal]
pub struct Vault {
    /// The derived custody address.
    pub address: [u8; 32],
    /// Units currently held.
    pub balance: u64,
}

/// Credit a vault: the direct form of the transfer primitive, used at
/// creation where the initiating party authorizes the source directly.
pub fn vault_deposit(vault: &mut Vault, amount: u64)
    requires
        old(vault).balance + amount <= u64::MAX,
    ensures
        final(vault).address == old(vault).address,
        final(vault).balance == old(vault).balance + amount,
{
    vault.balance = vault.balance + amount;
}

/// Debit a vault, defensively: either the full amount moves, or nothing
/// does and the insufficiency is reported.
pub fn vault_withdraw(vault: &mut Vault, amount: u64) -> (r: Result<(), ErrorCode>)
    ensures
        final(vault).address == old(vault).address,
        amount <= old(vault).balance ==> r == Ok::<(), ErrorCode>(()) && final(vault).balance
            == old(vault).balance - amount,
        amount > old(vault).balance ==> r == Err::<(), ErrorCode>(ErrorCode::InsufficientFunds)
            && *final(vault) == *old(vault),
{
    if amount > vault.balance {
        return Err(ErrorCode::InsufficientFunds);
    }
    vault.balance = vault.balance - amount;
    Ok(())
}

/// The custody-authorization rule: a supplied vault address is accepted
/// exactly when the seed tuple and bump re-derive to it and it is this
/// vault's own address.
pub open spec fn custody_authorized(
    vault_address: Seq<u8>,
    sender: Seq<u8>,
    receiver: Seq<u8>,
    request_id: Seq<char>,
    bump: u8,
    program_id: Seq<u8>,
    supplied: Seq<u8>,
) -> bool {
    pda_create(vault_tag(), sender, receiver, request_id, bump, program_id) == Some(supplied)
        && supplied == vault_address
}

/// The custody-authorized form of the transfer primitive: funds leave the
/// vault only on proof of the vault's derivation — a derived address has no
/// signing key, so re-derivation is the only authority over it.
pub fn custody_withdraw(
    vault: &mut Vault,
    sender: &AccountId,
    receiver: &AccountId,
    request_id: &String,
    bump: u8,
    program_id: &[u8; 32],
    supplied: &[u8; 32],
    amount: u64,
) -> (r: Result<(), ErrorCode>)
    ensures
        final(vault).address == old(vault).address,
        ({
            let authorized = custody_authorized(
                old(vault).address@,
                sender.0@,
                receiver.0@,
                request_id@,
                bump,
                program_id@,
                supplied@,
            );
            &&& (!authorized ==> r == Err::<(), ErrorCode>(ErrorCode::AddressMismatch)
                && *final(vault) == *old(vault))
            &&& (authorized && amount > old(vault).balance ==> r == Err::<(), ErrorCode>(
                ErrorCode::InsufficientFunds,
            ) && *final(vault) == *old(vault))
            &&& (authorized && amount <= old(vault).balance ==> r == Ok::<(), ErrorCode>(())
                && final(vault).balance == old(vault).balance - amount)
        }),
{
    let derived = rederive_vault_address(sender, receiver, request_id, bump, program_id);
    let authorized = match &derived {
        Some(d) => bytes32_eq(d, supplied) && bytes32_eq(supplied, &vault.address),
        None => false,
    };
    if !authorized {
        return Err(ErrorCode::AddressMismatch);
    }
    vault_withdraw(vault, amount)
}

} // verus!
