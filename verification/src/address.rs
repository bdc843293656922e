use vstd::prelude::*;

verus! {

broadcast use vstd::array::group_array_axioms;

/// An account identity: the 32 raw bytes of a ledger address.
#[derive(Clone, Copy)]
pub struct AccountId(pub [u8; 32]);

/// The domain tag under which escrow-record addresses are derived ("escrow").
pub open spec fn escrow_tag() -> Seq<u8> {
    seq![101u8, 115u8, 99u8, 114u8, 111u8, 119u8]
}

/// The domain tag under which vault addresses are derived ("vault").
pub open spec fn vault_tag() -> Seq<u8> {
    seq![118u8, 97u8, 117u8, 108u8, 116u8]
}

/// The escrow-record domain tag as bytes.
pub fn escrow_tag_bytes() -> (r: Vec<u8>)
    ensures
        r@ == escrow_tag(),
{
    let v: Vec<u8> = vec![101u8, 115u8, 99u8, 114u8, 111u8, 119u8];
    proof {
        assert(v@ =~= escrow_tag());
    }
    v
}

/// The vault domain tag as bytes.
pub fn vault_tag_bytes() -> (r: Vec<u8>)
    ensures
        r@ == vault_tag(),
{
    let v: Vec<u8> = vec![118u8, 97u8, 117u8, 108u8, 116u8];
    proof {
        assert(v@ =~= vault_tag());
    }
    v
}

/// What `Pubkey::create_program_address` returns for the seed layout
/// `[tag, party_a, party_b, request_id, [bump]]` under a program id:
/// `Some` derived address where that bump yields a valid custody address,
/// `None` where the derivation is rejected.
pub uninterp spec fn pda_create(
    tag: Seq<u8>,
    party_a: Seq<u8>,
    party_b: Seq<u8>,
    request_id: Seq<char>,
    bump: u8,
    program_id: Seq<u8>,
) -> Option<Seq<u8>>;

/// What `Pubkey::try_find_program_address` returns for the seed layout
/// `[tag, party_a, party_b, request_id]` under a program id: the canonical
/// (address, bump) pair, or `None` where no bump yields a valid address.
pub uninterp spec fn pda_find(
    tag: Seq<u8>,
    party_a: Seq<u8>,
    party_b: Seq<u8>,
    request_id: Seq<char>,
    program_id: Seq<u8>,
) -> Option<(Seq<u8>, u8)>;

/// What a search-style derivation promises of its result: it is exactly the
/// canonical pair for these seeds, and that pair re-derives through the
/// single-bump derivation to the same address.
pub open spec fn find_result_ok(
    tag: Seq<u8>,
    party_a: Seq<u8>,
    party_b: Seq<u8>,
    request_id: Seq<char>,
    program_id: Seq<u8>,
    r: Option<([u8; 32], u8)>,
) -> bool {
    match r {
        Some(p) => pda_find(tag, party_a, party_b, request_id, program_id) == Some((p.0@, p.1))
            && pda_create(tag, party_a, party_b, request_id, p.1, program_id) == Some(p.0@),
        None => pda_find(tag, party_a, party_b, request_id, program_id) is None,
    }
}

/// Relies on `Pubkey::try_find_program_address` of anchor_lang: off the
/// ledger it computes, purely from the seeds and the program id, the
/// canonical derived address and bump, and any pair it returns re-derives
/// through `Pubkey::create_program_address` to the same address.
#[verifier::external_body]
fn find_pda(
    tag: &Vec<u8>,
    party_a: &[u8; 32],
    party_b: &[u8; 32],
    request_id: &String,
    program_id: &[u8; 32],
) -> (r: Option<([u8; 32], u8)>)
    ensures
        (match r {
            Some(p) => pda_find(tag@, party_a@, party_b@, request_id@, program_id@)
                == Some((p.0@, p.1))
                && pda_create(tag@, party_a@, party_b@, request_id@, p.1, program_id@)
                == Some(p.0@),
            None => pda_find(tag@, party_a@, party_b@, request_id@, program_id@) is None,
        }),
{
    let pid = anchor_lang::solana_program::pubkey::Pubkey::from(*program_id);
    let seeds: [&[u8]; 4] = [
        tag.as_slice(),
        party_a.as_slice(),
        party_b.as_slice(),
        request_id.as_bytes(),
    ];
    match anchor_lang::solana_program::pubkey::Pubkey::try_find_program_address(&seeds, &pid) {
        Some((addr, bump)) => Some((addr.to_bytes(), bump)),
        None => None,
    }
}

/// Relies on `Pubkey::create_program_address` of anchor_lang: off the ledger
/// it computes, purely from the seeds, the bump and the program id, either
/// the derived address or a rejection (mapped to `None`).
#[verifier::external_body]
fn create_pda(
    tag: &Vec<u8>,
    party_a: &[u8; 32],
    party_b: &[u8; 32],
    request_id: &String,
    bump: u8,
    program_id: &[u8; 32],
) -> (r: Option<[u8; 32]>)
    ensures
        (match r {
            Some(a) => pda_create(tag@, party_a@, party_b@, request_id@, bump, program_id@)
                == Some(a@),
            None => pda_create(tag@, party_a@, party_b@, request_id@, bump, program_id@) is None,
        }),
{
    let pid = anchor_lang::solana_program::pubkey::Pubkey::from(*program_id);
    let bump_seed: [u8; 1] = [bump];
    let seeds: [&[u8]; 5] = [
        tag.as_slice(),
        party_a.as_slice(),
        party_b.as_slice(),
        request_id.as_bytes(),
        bump_seed.as_slice(),
    ];
    match anchor_lang::solana_program::pubkey::Pubkey::create_program_address(&seeds, &pid) {
        Ok(addr) => Some(addr.to_bytes()),
        Err(_) => None,
    }
}

/// Derive the escrow record's custody-store address and bump for a triple.
/// The result is a pure function of the inputs: repeated calls return the
/// identical pair.
pub fn derive_escrow_address(
    sender: &AccountId,
    receiver: &AccountId,
    request_id: &String,
    program_id: &[u8; 32],
) -> (r: Option<([u8; 32], u8)>)
    ensures
        find_result_ok(escrow_tag(), sender.0@, receiver.0@, request_id@, program_id@, r),
{
    find_pda(&escrow_tag_bytes(), &sender.0, &receiver.0, request_id, program_id)
}

/// Derive the vault's custody address and bump for a triple. The result is a
/// pure function of the inputs: repeated calls return the identical pair.
pub fn derive_vault_address(
    sender: &AccountId,
    receiver: &AccountId,
    request_id: &String,
    program_id: &[u8; 32],
) -> (r: Option<([u8; 32], u8)>)
    ensures
        find_result_ok(vault_tag(), sender.0@, receiver.0@, request_id@, program_id@, r),
{
    find_pda(&vault_tag_bytes(), &sender.0, &receiver.0, request_id, program_id)
}

/// Re-derive a vault address from a triple and a bump. Used to check a
/// candidate address supplied with a transition against the derivation
/// recorded at creation.
pub fn rederive_vault_address(
    sender: &AccountId,
    receiver: &AccountId,
    request_id: &String,
    bump: u8,
    program_id: &[u8; 32],
) -> (r: Option<[u8; 32]>)
    ensures
        (match r {
            Some(a) => pda_create(vault_tag(), sender.0@, receiver.0@, request_id@, bump,
                program_id@) == Some(a@),
            None => pda_create(vault_tag(), sender.0@, receiver.0@, request_id@, bump,
                program_id@) is None,
        }),
{
    create_pda(&vault_tag_bytes(), &sender.0, &receiver.0, request_id, bump, program_id)
}

/// Byte-for-byte equality of two 32-byte addresses.
pub fn bytes32_eq(a: &[u8; 32], b: &[u8; 32]) -> (r: bool)
    ensures
        r <==> a@ == b@,
{
    let mut i: usize = 0;
    while i < 32
        invariant
            0 <= i <= 32,
            forall|j: int| 0 <= j < i ==> a@[j] == b@[j],
        decreases 32 - i,
    {
        if a[i] != b[i] {
            return false;
        }
        i += 1;
    }
    proof {
        assert(a@ =~= b@);
    }
    true
}

/// Equality of two account identities.
pub fn id_eq(a: &AccountId, b: &AccountId) -> (r: bool)
    ensures
        r <==> a.0@ == b.0@,
{
    bytes32_eq(&a.0, &b.0)
}

} // verus!
