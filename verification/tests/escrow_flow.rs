use zefe::address::derive_escrow_address;
use zefe::address::derive_vault_address;
use zefe::address::rederive_vault_address;
use zefe::address::AccountId;
use zefe::config::ProtocolConfig;
use zefe::config::FIXED_DEPOSIT;
use zefe::config::THREE_DAYS;
use zefe::error::ErrorCode;
use zefe::fund::vault_withdraw;
use zefe::fund::Vault;
use zefe::status::status_is_terminal;
use zefe::status::RequestStatus;
use zefe::store::EscrowStore;

const PROGRAM_ID: [u8; 32] = [7u8; 32];

fn id_of(n: u8) -> AccountId {
    AccountId([n; 32])
}

fn standard_store() -> EscrowStore {
    EscrowStore::new(ProtocolConfig::standard(PROGRAM_ID))
}

fn vault_address_of(store: &EscrowStore, record_address: &[u8; 32]) -> [u8; 32] {
    store.get_vault(record_address).unwrap().address
}

#[test]
fn scenario_a_accept_refunds_sender() {
    let mut store = standard_store();
    let sender = id_of(1);
    let receiver = id_of(2);
    let t0: i64 = 1_000;
    let mut sender_balance: u64 = 10_000_000;

    let addr = store
        .send_connection_request(&sender, &receiver, "r1".to_string(), t0)
        .unwrap();
    sender_balance -= FIXED_DEPOSIT;

    let rec = store.get_record(&addr).unwrap();
    assert_eq!(rec.status, RequestStatus::Pending);
    assert_eq!(rec.amount, 3_000_000);
    assert_eq!(rec.created_at, t0);
    assert!(!rec.marked_as_spam);
    assert_eq!(rec.spam_resolution_time, 0);
    assert_eq!(store.get_vault(&addr).unwrap().balance, 3_000_000);

    let vault = vault_address_of(&store, &addr);
    let payout = store.accept_request(&addr, &vault, &receiver).unwrap();
    sender_balance += payout;

    assert_eq!(payout, 3_000_000);
    assert_eq!(sender_balance, 10_000_000);
    let rec = store.get_record(&addr).unwrap();
    assert_eq!(rec.status, RequestStatus::Accepted);
    assert_eq!(rec.amount, 0);
    assert_eq!(store.get_vault(&addr).unwrap().balance, 0);
}

#[test]
fn scenario_b_spam_flow_time_gated() {
    let mut store = standard_store();
    let sender = id_of(1);
    let receiver = id_of(2);
    let t0: i64 = 50_000;

    let addr = store
        .send_connection_request(&sender, &receiver, "r1".to_string(), t0)
        .unwrap();
    let vault = vault_address_of(&store, &addr);

    store.mark_as_spam(&addr, &receiver, t0).unwrap();
    let rec = store.get_record(&addr).unwrap();
    assert_eq!(rec.status, RequestStatus::SpamConfirmed);
    assert!(rec.marked_as_spam);
    assert_eq!(rec.spam_resolution_time, t0 + 259_200);
    // flagging moves no funds
    assert_eq!(store.get_vault(&addr).unwrap().balance, 3_000_000);

    let early = store.resolve_spam(&addr, &vault, &sender, t0 + 259_199);
    assert_eq!(early, Err(ErrorCode::ResolutionTimeNotReached));
    assert_eq!(
        store.get_record(&addr).unwrap().status,
        RequestStatus::SpamConfirmed
    );

    let payout = store
        .resolve_spam(&addr, &vault, &sender, t0 + 259_200)
        .unwrap();
    assert_eq!(payout, 3_000_000);
    let rec = store.get_record(&addr).unwrap();
    assert_eq!(rec.status, RequestStatus::SpamResolved);
    assert_eq!(rec.amount, 0);
    assert_eq!(store.get_vault(&addr).unwrap().balance, 0);
}

#[test]
fn scenario_c_reclaim_time_gated() {
    let mut store = standard_store();
    let sender = id_of(1);
    let receiver = id_of(2);
    let t0: i64 = 77;

    let addr = store
        .send_connection_request(&sender, &receiver, "r1".to_string(), t0)
        .unwrap();
    let vault = vault_address_of(&store, &addr);

    let r = store.claim_back(&addr, &vault, &sender, t0 + 259_199);
    assert_eq!(r, Err(ErrorCode::RequestNotExpired));
    // at exactly created_at + three days the window has not yet passed
    let r = store.claim_back(&addr, &vault, &sender, t0 + 259_200);
    assert_eq!(r, Err(ErrorCode::RequestNotExpired));

    let payout = store
        .claim_back(&addr, &vault, &sender, t0 + 259_201)
        .unwrap();
    assert_eq!(payout, 3_000_000);
    let rec = store.get_record(&addr).unwrap();
    assert_eq!(rec.status, RequestStatus::Expired);
    assert_eq!(rec.amount, 0);
    assert_eq!(store.get_vault(&addr).unwrap().balance, 0);
}

#[test]
fn scenario_d_duplicate_request() {
    let mut store = standard_store();
    let sender = id_of(1);
    let receiver = id_of(2);

    store
        .send_connection_request(&sender, &receiver, "r1".to_string(), 5)
        .unwrap();
    let again = store.send_connection_request(&sender, &receiver, "r1".to_string(), 9);
    assert_eq!(again, Err(ErrorCode::DuplicateRequest));

    // a different request id is a different escrow
    let other = store.send_connection_request(&sender, &receiver, "r2".to_string(), 9);
    assert!(other.is_ok());
}

#[test]
fn derivation_round_trip() {
    let sender = id_of(1);
    let receiver = id_of(2);
    let rid = "r1".to_string();

    let (ea, eb) = derive_escrow_address(&sender, &receiver, &rid, &PROGRAM_ID).unwrap();
    let (ea2, eb2) = derive_escrow_address(&sender, &receiver, &rid, &PROGRAM_ID).unwrap();
    assert_eq!(ea, ea2);
    assert_eq!(eb, eb2);

    let (va, vb) = derive_vault_address(&sender, &receiver, &rid, &PROGRAM_ID).unwrap();
    let (va2, _) = derive_vault_address(&sender, &receiver, &rid, &PROGRAM_ID).unwrap();
    assert_eq!(va, va2);

    // the two domain tags give distinct addresses, and neither echoes an input
    assert_ne!(ea, va);
    assert_ne!(ea, sender.0);
    assert_ne!(va, receiver.0);

    // the single-bump re-derivation reproduces the searched address
    assert_eq!(
        rederive_vault_address(&sender, &receiver, &rid, vb, &PROGRAM_ID),
        Some(va)
    );

    // the store records exactly the derived addresses and bumps
    let mut store = standard_store();
    let addr = store
        .send_connection_request(&sender, &receiver, rid, 0)
        .unwrap();
    assert_eq!(addr, ea);
    let rec = store.get_record(&addr).unwrap();
    assert_eq!(rec.bump, eb);
    assert_eq!(store.get_vault(&addr).unwrap().address, va);
}

#[test]
fn wrong_receiver_is_rejected() {
    let mut store = standard_store();
    let sender = id_of(1);
    let receiver = id_of(2);
    let stranger = id_of(9);

    let addr = store
        .send_connection_request(&sender, &receiver, "r1".to_string(), 0)
        .unwrap();
    let vault = vault_address_of(&store, &addr);

    assert_eq!(
        store.accept_request(&addr, &vault, &sender),
        Err(ErrorCode::InvalidReceiver)
    );
    assert_eq!(
        store.mark_as_spam(&addr, &stranger, 0),
        Err(ErrorCode::InvalidReceiver)
    );
    assert_eq!(store.get_record(&addr).unwrap().status, RequestStatus::Pending);
}

#[test]
fn terminal_states_admit_no_transition() {
    let mut store = standard_store();
    let sender = id_of(1);
    let receiver = id_of(2);

    let addr = store
        .send_connection_request(&sender, &receiver, "r1".to_string(), 0)
        .unwrap();
    let vault = vault_address_of(&store, &addr);
    store.accept_request(&addr, &vault, &receiver).unwrap();

    assert_eq!(
        store.accept_request(&addr, &vault, &receiver),
        Err(ErrorCode::InvalidRequestStatus)
    );
    assert_eq!(
        store.reject_request(&addr, &vault, &sender),
        Err(ErrorCode::InvalidRequestStatus)
    );
    assert_eq!(
        store.mark_as_spam(&addr, &receiver, 0),
        Err(ErrorCode::InvalidRequestStatus)
    );
    assert_eq!(
        store.claim_back(&addr, &vault, &sender, 10_000_000),
        Err(ErrorCode::InvalidRequestStatus)
    );
    assert_eq!(
        store.resolve_spam(&addr, &vault, &sender, 10_000_000),
        Err(ErrorCode::NotMarkedAsSpam)
    );
    assert_eq!(store.get_record(&addr).unwrap().status, RequestStatus::Accepted);
}

#[test]
fn resolved_spam_withdraws_only_once() {
    let mut store = standard_store();
    let sender = id_of(1);
    let receiver = id_of(2);
    let t0: i64 = 100;

    let addr = store
        .send_connection_request(&sender, &receiver, "r1".to_string(), t0)
        .unwrap();
    let vault = vault_address_of(&store, &addr);
    store.mark_as_spam(&addr, &receiver, t0).unwrap();
    let first = store
        .resolve_spam(&addr, &vault, &sender, t0 + THREE_DAYS)
        .unwrap();
    assert_eq!(first, 3_000_000);

    // resolving again releases nothing further and keeps the terminal status
    let second = store
        .resolve_spam(&addr, &vault, &sender, t0 + THREE_DAYS)
        .unwrap();
    assert_eq!(second, 0);
    assert_eq!(store.get_record(&addr).unwrap().status, RequestStatus::SpamResolved);
    assert_eq!(store.get_vault(&addr).unwrap().balance, 0);
    assert_eq!(store.entries[0].withdrawn, 3_000_000);
}

#[test]
fn reject_returns_deposit() {
    let mut store = standard_store();
    let sender = id_of(1);
    let receiver = id_of(2);

    let addr = store
        .send_connection_request(&sender, &receiver, "r1".to_string(), 0)
        .unwrap();
    let vault = vault_address_of(&store, &addr);
    let payout = store.reject_request(&addr, &vault, &sender).unwrap();
    assert_eq!(payout, 3_000_000);
    let rec = store.get_record(&addr).unwrap();
    assert_eq!(rec.status, RequestStatus::Rejected);
    assert_eq!(rec.amount, 0);
    assert_eq!(store.entries[0].withdrawn, 3_000_000);
}

#[test]
fn resolve_without_flag_fails() {
    let mut store = standard_store();
    let sender = id_of(1);
    let receiver = id_of(2);

    let addr = store
        .send_connection_request(&sender, &receiver, "r1".to_string(), 0)
        .unwrap();
    let vault = vault_address_of(&store, &addr);
    assert_eq!(
        store.resolve_spam(&addr, &vault, &sender, 10_000_000),
        Err(ErrorCode::NotMarkedAsSpam)
    );
}

#[test]
fn flagged_record_cannot_be_reclaimed() {
    let mut store = standard_store();
    let sender = id_of(1);
    let receiver = id_of(2);
    let t0: i64 = 0;

    let addr = store
        .send_connection_request(&sender, &receiver, "r1".to_string(), t0)
        .unwrap();
    let vault = vault_address_of(&store, &addr);
    store.mark_as_spam(&addr, &receiver, t0).unwrap();
    assert_eq!(
        store.claim_back(&addr, &vault, &sender, t0 + THREE_DAYS + 1),
        Err(ErrorCode::InvalidRequestStatus)
    );
}

#[test]
fn address_mismatch_paths() {
    let mut store = standard_store();
    let sender = id_of(1);
    let receiver = id_of(2);

    let addr = store
        .send_connection_request(&sender, &receiver, "r1".to_string(), 0)
        .unwrap();

    // unknown record address
    let unknown = [42u8; 32];
    assert_eq!(
        store.accept_request(&unknown, &unknown, &receiver),
        Err(ErrorCode::AddressMismatch)
    );
    assert_eq!(store.get_record(&unknown).map(|r| r.amount), None);

    // a vault address that does not re-derive (here: the record's address)
    assert_eq!(
        store.accept_request(&addr, &addr, &receiver),
        Err(ErrorCode::AddressMismatch)
    );
    assert_eq!(store.get_vault(&addr).unwrap().balance, 3_000_000);
}

#[test]
fn insufficient_funds_is_defensive() {
    let mut vault = Vault { address: [0u8; 32], balance: 5 };
    assert_eq!(vault_withdraw(&mut vault, 10), Err(ErrorCode::InsufficientFunds));
    assert_eq!(vault.balance, 5);
    assert_eq!(vault_withdraw(&mut vault, 5), Ok(()));
    assert_eq!(vault.balance, 0);
}

#[test]
fn configured_windows_gate_deterministically() {
    let config = ProtocolConfig {
        deposit: 10,
        spam_cooldown: 2,
        expiry_window: 5,
        program_id: PROGRAM_ID,
    };
    let mut store = EscrowStore::new(config);
    let sender = id_of(3);
    let receiver = id_of(4);

    let addr = store
        .send_connection_request(&sender, &receiver, "short".to_string(), 100)
        .unwrap();
    let vault = vault_address_of(&store, &addr);
    store.mark_as_spam(&addr, &receiver, 100).unwrap();
    assert_eq!(store.get_record(&addr).unwrap().spam_resolution_time, 102);
    assert_eq!(
        store.resolve_spam(&addr, &vault, &sender, 101),
        Err(ErrorCode::ResolutionTimeNotReached)
    );
    assert_eq!(store.resolve_spam(&addr, &vault, &sender, 102), Ok(10));

    let addr2 = store
        .send_connection_request(&sender, &receiver, "short2".to_string(), 100)
        .unwrap();
    let vault2 = vault_address_of(&store, &addr2);
    assert_eq!(
        store.claim_back(&addr2, &vault2, &sender, 105),
        Err(ErrorCode::RequestNotExpired)
    );
    assert_eq!(store.claim_back(&addr2, &vault2, &sender, 106), Ok(10));
}

#[test]
fn not_spam_is_reserved_and_unused() {
    // `NotSpam` exists in the taxonomy as a terminal value, but no
    // transition produces it: a fresh record never carries it.
    assert!(status_is_terminal(&RequestStatus::NotSpam));

    let mut store = standard_store();
    let addr = store
        .send_connection_request(&id_of(1), &id_of(2), "r1".to_string(), 0)
        .unwrap();
    assert_ne!(store.get_record(&addr).unwrap().status, RequestStatus::NotSpam);
}
