use anchor_lang::prelude::Pubkey;
use digital_signatures::{
    create_signature, escrow_amount, fits, MAX_ID_BYTES, escrow_transfer, initialize, registry_address,
    same_address, sign_as_counterparty, sign_legal_agreement, signature_address, AccountSlot,
    Address, CreateSignature, EscrowTransfer, Initialize, ProgramError, SignLegalAgreement,
    Signature, SignatureState, Storage,
};

const A: u64 = 10_000_000_000_000;

fn program() -> Address {
    Address { bytes: [7u8; 32] }
}

fn addr(b: u8) -> Address {
    Address { bytes: [b; 32] }
}

fn registry_data(id: &str) -> Storage {
    Storage {
        id: id.to_string(),
        name_storage: "Acme agreements".to_string(),
        initialized: false,
        counter: 0,
        bump: 0,
    }
}

fn record_data(id: &str) -> Signature {
    Signature {
        id: id.to_string(),
        name: "Services agreement".to_string(),
        url: "https://example.com/doc".to_string(),
        hash_verified: "c0ffee".to_string(),
        state: SignatureState::Signed,
        signature_account: addr(0),
        creator_account: addr(0),
        bump: 0,
    }
}

fn fresh_registry_ctx(id: &str) -> Initialize {
    let (key, _) = registry_address(&program(), &id.to_string()).unwrap();
    Initialize {
        program_id: program(),
        authority: addr(1),
        init_storage: AccountSlot { key: Address { bytes: key }, data: None },
    }
}

fn new_registry(id: &str) -> (Address, Storage) {
    let mut ctx = fresh_registry_ctx(id);
    assert_eq!(initialize(&mut ctx, registry_data(id), true), Ok(()));
    (ctx.init_storage.key, ctx.init_storage.data.unwrap())
}

fn creation_ctx(key: Address, storage: Storage, id: &str) -> CreateSignature {
    let (sig_key, _) = signature_address(&program(), &key, &id.to_string()).unwrap();
    CreateSignature {
        program_id: program(),
        authority: addr(1),
        storage_key: key,
        storage,
        signature: AccountSlot { key: Address { bytes: sig_key }, data: None },
        signer_account: addr(2),
        from_ata: addr(3),
        to_ata: addr(4),
    }
}

fn sign_ctx(record: Signature, authority: Address) -> SignLegalAgreement {
    SignLegalAgreement { authority, signature: record, from_ata: addr(5), to_ata: addr(6) }
}

#[test]
fn acme_scenario() {
    let (key, storage) = new_registry("acme-2024");
    assert_eq!(storage.counter, 0);
    assert!(storage.initialized);
    assert_eq!(storage.id, "acme-2024");

    let mut ctx = creation_ctx(key, storage, "doc-1");
    let transfer = create_signature(&mut ctx, record_data("doc-1"), true, true).unwrap();
    assert_eq!(transfer, EscrowTransfer { from: addr(3), to: addr(4), authority: addr(1), amount: A });
    assert_eq!(ctx.storage.counter, 1);
    let record = ctx.signature.data.clone().unwrap();
    assert_eq!(record.state, SignatureState::Unsigned);
    assert_eq!(record.id, "doc-1");
    assert_eq!(record.url, "https://example.com/doc");
    assert_eq!(record.hash_verified, "c0ffee");
    assert_eq!(record.signature_account, addr(1));
    assert_eq!(record.creator_account, addr(1));

    let mut sctx = sign_ctx(record, addr(1));
    let transfer = sign_legal_agreement(&mut sctx, true).unwrap();
    assert_eq!(transfer, EscrowTransfer { from: addr(5), to: addr(6), authority: addr(1), amount: A });
    assert_eq!(sctx.signature.state, SignatureState::Signed);

    assert_eq!(sign_legal_agreement(&mut sctx, true), Err(ProgramError::AlreadySigned));
    assert_eq!(sctx.signature.state, SignatureState::Signed);
}

#[test]
fn escrow_amount_is_ten_thousand_whole_units() {
    assert_eq!(escrow_amount(), 10_000 * 1_000_000_000);
    let t = escrow_transfer(addr(1), addr(2), addr(3));
    assert_eq!(t.amount, A);
    assert_eq!(t.from, addr(1));
    assert_eq!(t.to, addr(2));
    assert_eq!(t.authority, addr(3));
}

#[test]
fn derivation_matches_the_ledger_and_is_repeatable() {
    let pid = Pubkey::new_from_array(program().bytes);
    let (expected, bump) = Pubkey::find_program_address(&[b"storage", b"acme-2024"], &pid);
    let first = registry_address(&program(), &"acme-2024".to_string()).unwrap();
    let second = registry_address(&program(), &"acme-2024".to_string()).unwrap();
    assert_eq!(first, (expected.to_bytes(), bump));
    assert_eq!(first, second);
    assert_ne!(first.0, program().bytes);

    let reg = Address { bytes: expected.to_bytes() };
    let (rec, rec_bump) =
        Pubkey::find_program_address(&[b"signature", &reg.bytes, b"doc-1"], &pid);
    let a = signature_address(&program(), &reg, &"doc-1".to_string()).unwrap();
    let b = signature_address(&program(), &reg, &"doc-1".to_string()).unwrap();
    assert_eq!(a, (rec.to_bytes(), rec_bump));
    assert_eq!(a, b);
    let other = signature_address(&program(), &reg, &"doc-2".to_string()).unwrap();
    assert_ne!(a.0, other.0);
}

#[test]
fn overlong_ids_derive_nothing() {
    let long = "x".repeat(33);
    assert_eq!(registry_address(&program(), &long), None);
    assert_eq!(signature_address(&program(), &addr(9), &long), None);
    assert!(registry_address(&program(), &"x".repeat(32)).is_some());
}

#[test]
fn registry_is_created_once() {
    let mut ctx = fresh_registry_ctx("acme-2024");
    assert_eq!(initialize(&mut ctx, registry_data("acme-2024"), true), Ok(()));
    let before = ctx.init_storage.data.clone().unwrap();
    assert_eq!(
        initialize(&mut ctx, registry_data("acme-2024"), true),
        Err(ProgramError::AddressCollision)
    );
    let after = ctx.init_storage.data.clone().unwrap();
    assert_eq!(after.name_storage, before.name_storage);
    assert_eq!(after.counter, 0);
}

#[test]
fn registry_errors() {
    let mut ctx = fresh_registry_ctx("acme-2024");
    assert_eq!(
        initialize(&mut ctx, registry_data("acme-2024"), false),
        Err(ProgramError::InsufficientFunds)
    );
    assert!(ctx.init_storage.data.is_none());
    assert_eq!(
        initialize(&mut ctx, registry_data("other"), true),
        Err(ProgramError::AddressMismatch)
    );
    assert!(ctx.init_storage.data.is_none());
    assert_eq!(
        initialize(&mut ctx, registry_data(&"y".repeat(40)), true),
        Err(ProgramError::FieldTooLong)
    );
    assert!(ctx.init_storage.data.is_none());
}

#[test]
fn counter_counts_only_successes() {
    let (key, mut storage) = new_registry("acme-2024");
    let mut made = 0u32;
    for i in 0..5 {
        let id = format!("doc-{}", i);
        let transfer_ok = i % 2 == 0;
        let mut ctx = creation_ctx(key, storage, &id);
        let r = create_signature(&mut ctx, record_data(&id), true, transfer_ok);
        if transfer_ok {
            assert!(r.is_ok());
            made += 1;
        } else {
            assert_eq!(r, Err(ProgramError::TransferFailed));
            assert!(ctx.signature.data.is_none());
        }
        storage = ctx.storage;
        assert_eq!(storage.counter, made);
    }
    assert_eq!(storage.counter, 3);
}

#[test]
fn creation_errors() {
    let (key, storage) = new_registry("acme-2024");

    let mut uninit = storage.clone();
    uninit.initialized = false;
    let mut ctx = creation_ctx(key, uninit, "doc-1");
    assert_eq!(
        create_signature(&mut ctx, record_data("doc-1"), true, true),
        Err(ProgramError::RegistryNotInitialized)
    );
    assert!(ctx.signature.data.is_none());

    let mut ctx = creation_ctx(key, storage.clone(), "doc-1");
    assert!(create_signature(&mut ctx, record_data("doc-1"), true, true).is_ok());
    assert_eq!(
        create_signature(&mut ctx, record_data("doc-1"), true, true),
        Err(ProgramError::AddressCollision)
    );
    assert_eq!(ctx.storage.counter, 1);

    let mut ctx = creation_ctx(key, storage.clone(), "doc-1");
    assert_eq!(
        create_signature(&mut ctx, record_data("doc-2"), true, true),
        Err(ProgramError::AddressMismatch)
    );
    assert_eq!(
        create_signature(&mut ctx, record_data(&"z".repeat(33)), true, true),
        Err(ProgramError::FieldTooLong)
    );
    assert_eq!(
        create_signature(&mut ctx, record_data("doc-1"), false, true),
        Err(ProgramError::InsufficientFunds)
    );
    assert_eq!(ctx.storage.counter, 0);
    assert!(ctx.signature.data.is_none());

    let mut full = storage.clone();
    full.counter = u32::MAX;
    let mut ctx = creation_ctx(key, full, "doc-1");
    assert_eq!(
        create_signature(&mut ctx, record_data("doc-1"), true, true),
        Err(ProgramError::CounterOverflow)
    );
    assert_eq!(ctx.storage.counter, u32::MAX);
}

#[test]
fn failed_transfer_leaves_record_unsigned() {
    let (key, storage) = new_registry("acme-2024");
    let mut ctx = creation_ctx(key, storage, "doc-1");
    create_signature(&mut ctx, record_data("doc-1"), true, true).unwrap();
    let mut sctx = sign_ctx(ctx.signature.data.unwrap(), addr(1));
    assert_eq!(sign_legal_agreement(&mut sctx, false), Err(ProgramError::TransferFailed));
    assert_eq!(sctx.signature.state, SignatureState::Unsigned);
    assert!(sign_legal_agreement(&mut sctx, true).is_ok());
    assert_eq!(sctx.signature.state, SignatureState::Signed);
}

#[test]
fn only_the_counterparty_may_sign_when_checked() {
    let (key, storage) = new_registry("acme-2024");
    let mut ctx = creation_ctx(key, storage, "doc-1");
    create_signature(&mut ctx, record_data("doc-1"), true, true).unwrap();
    let record = ctx.signature.data.unwrap();

    let mut stranger = sign_ctx(record.clone(), addr(8));
    assert_eq!(sign_as_counterparty(&mut stranger, true), Err(ProgramError::NotCounterparty));
    assert_eq!(stranger.signature.state, SignatureState::Unsigned);

    let mut signer = sign_ctx(record.clone(), addr(2));
    assert_eq!(sign_as_counterparty(&mut signer, true), Err(ProgramError::NotCounterparty));

    let mut party = sign_ctx(record, addr(1));
    assert!(sign_as_counterparty(&mut party, true).is_ok());
    assert_eq!(party.signature.state, SignatureState::Signed);
    assert_eq!(sign_as_counterparty(&mut party, true), Err(ProgramError::AlreadySigned));
}

#[test]
fn same_address_compares_bytes() {
    let mut b = [4u8; 32];
    assert!(same_address(&Address { bytes: b }, &Address { bytes: b }));
    b[31] = 5;
    assert!(!same_address(&Address { bytes: [4u8; 32] }, &Address { bytes: b }));
}

#[test]
fn registry_strings_must_fit() {
    let mut ctx = fresh_registry_ctx("acme-2024");
    let mut data = registry_data("acme-2024");
    data.name_storage = "n".repeat(301);
    assert_eq!(initialize(&mut ctx, data, true), Err(ProgramError::FieldTooLong));
    assert!(ctx.init_storage.data.is_none());

    let mut data = registry_data("acme-2024");
    data.name_storage = "n".repeat(300);
    assert_eq!(initialize(&mut ctx, data, true), Ok(()));
    assert_eq!(ctx.init_storage.data.unwrap().name_storage.len(), 300);
}

#[test]
fn record_strings_must_fit() {
    let (key, storage) = new_registry("acme-2024");
    let cases: Vec<fn(&mut Signature)> = vec![
        |d| d.name = "n".repeat(65),
        |d| d.url = "u".repeat(201),
        |d| d.hash_verified = "h".repeat(65),
    ];
    for set in cases {
        let mut ctx = creation_ctx(key, storage.clone(), "doc-1");
        let mut data = record_data("doc-1");
        set(&mut data);
        assert_eq!(create_signature(&mut ctx, data, true, true), Err(ProgramError::FieldTooLong));
        assert_eq!(ctx.storage.counter, 0);
        assert!(ctx.signature.data.is_none());
    }

    let mut ctx = creation_ctx(key, storage, "doc-1");
    let mut data = record_data("doc-1");
    data.name = "n".repeat(64);
    data.url = "u".repeat(200);
    data.hash_verified = "h".repeat(64);
    assert!(create_signature(&mut ctx, data, true, true).is_ok());
    assert_eq!(ctx.storage.counter, 1);
}

#[test]
fn bounds_count_utf8_bytes() {
    assert!(fits(&"\u{e9}".repeat(16), MAX_ID_BYTES));
    assert!(!fits(&"\u{e9}".repeat(17), MAX_ID_BYTES));
    let mut ctx = fresh_registry_ctx("acme-2024");
    assert_eq!(
        initialize(&mut ctx, registry_data(&"\u{e9}".repeat(17)), true),
        Err(ProgramError::FieldTooLong)
    );
}
