use anchor_lang::prelude::Pubkey;
use privacy_devkit::accounts::{
    check_constraint, check_slot, validate, AccountRef, AccountSlot, Constraint, ValidationError,
};
use privacy_devkit::address::{derive_program_address, Address};

fn program_id() -> Address {
    Address::new([9u8; 32])
}

fn account(tag: u8, owner: u8, is_signer: bool, is_writable: bool) -> AccountRef {
    AccountRef {
        key: Address::new([tag; 32]),
        owner: Address::new([owner; 32]),
        is_signer,
        is_writable,
    }
}

fn pda(seed: &[u8]) -> (Vec<Vec<u8>>, Address) {
    let id = Pubkey::new_from_array([9u8; 32]);
    let (key, bump) = Pubkey::find_program_address(&[seed], &id);
    (vec![seed.to_vec(), vec![bump]], Address::new(key.to_bytes()))
}

#[test]
fn empty_schema_accepts_empty_list() {
    let ctx = validate(&Vec::new(), Vec::new(), &program_id()).unwrap();
    assert_eq!(ctx.len(), 0);
}

#[test]
fn empty_schema_rejects_extra_account() {
    let r = validate(&Vec::new(), vec![account(1, 0, true, true)], &program_id());
    assert_eq!(r.err(), Some(ValidationError::UnexpectedAccount { slot: 0 }));
}

#[test]
fn missing_account_is_reported_at_its_slot() {
    let schema = vec![
        AccountSlot::new(true, false, None, None),
        AccountSlot::new(false, false, None, None),
    ];
    let r = validate(&schema, vec![account(1, 0, true, false)], &program_id());
    assert_eq!(r.err(), Some(ValidationError::MissingAccount { slot: 1 }));
}

#[test]
fn surplus_account_after_full_schema_is_rejected() {
    let schema = vec![AccountSlot::new(false, false, None, None)];
    let accounts = vec![account(1, 0, false, false), account(2, 0, false, false)];
    let r = validate(&schema, accounts, &program_id());
    assert_eq!(r.err(), Some(ValidationError::UnexpectedAccount { slot: 1 }));
}

#[test]
fn unsigned_account_fails_signer_slot() {
    let schema = vec![AccountSlot::new(true, false, None, None)];
    let r = validate(&schema, vec![account(1, 0, false, true)], &program_id());
    assert_eq!(r.err(), Some(ValidationError::NotSigner { slot: 0 }));
}

#[test]
fn read_only_account_fails_writable_slot() {
    let schema = vec![
        AccountSlot::new(false, false, None, None),
        AccountSlot::new(true, true, None, None),
    ];
    let accounts = vec![account(1, 0, false, false), account(2, 0, true, false)];
    let r = validate(&schema, accounts, &program_id());
    assert_eq!(r.err(), Some(ValidationError::NotWritable { slot: 1 }));
}

#[test]
fn foreign_owner_fails_owner_slot() {
    let schema = vec![AccountSlot::new(false, false, Some(program_id()), None)];
    let r = validate(&schema, vec![account(1, 3, false, false)], &program_id());
    assert_eq!(r.err(), Some(ValidationError::OwnerMismatch { slot: 0 }));
    let r = validate(&schema, vec![account(1, 9, false, false)], &program_id());
    assert!(r.is_ok());
}

#[test]
fn signer_is_checked_before_writable_and_owner() {
    let schema = vec![AccountSlot::new(true, true, Some(program_id()), None)];
    let r = validate(&schema, vec![account(1, 3, false, false)], &program_id());
    assert_eq!(r.err(), Some(ValidationError::NotSigner { slot: 0 }));
    let r = validate(&schema, vec![account(1, 3, true, false)], &program_id());
    assert_eq!(r.err(), Some(ValidationError::NotWritable { slot: 0 }));
    let r = validate(&schema, vec![account(1, 3, true, true)], &program_id());
    assert_eq!(r.err(), Some(ValidationError::OwnerMismatch { slot: 0 }));
}

#[test]
fn derived_account_passes_derivation_slot() {
    let (seeds, key) = pda(b"vault");
    let schema = vec![AccountSlot::new(false, true, Some(program_id()), Some(seeds))];
    let supplied = AccountRef { key, owner: program_id(), is_signer: false, is_writable: true };
    let ctx = validate(&schema, vec![supplied], &program_id()).unwrap();
    assert_eq!(ctx.len(), 1);
    assert_eq!(ctx.get(0).key.bytes, key.bytes);
}

#[test]
fn other_address_fails_derivation_slot() {
    let (seeds, _) = pda(b"vault");
    let schema = vec![AccountSlot::new(false, false, None, Some(seeds))];
    let r = validate(&schema, vec![account(1, 9, false, false)], &program_id());
    assert_eq!(r.err(), Some(ValidationError::DerivationMismatch { slot: 0 }));
}

#[test]
fn too_many_seeds_fail_derivation_slot() {
    let seeds: Vec<Vec<u8>> = (0..17u8).map(|i| vec![i]).collect();
    assert!(derive_program_address(&seeds, &program_id()).is_none());
    let schema = vec![AccountSlot::new(false, false, None, Some(seeds))];
    let r = validate(&schema, vec![account(1, 9, false, false)], &program_id());
    assert_eq!(r.err(), Some(ValidationError::DerivationMismatch { slot: 0 }));
}

#[test]
fn overlong_seed_yields_no_address() {
    let seeds = vec![vec![1u8; 33]];
    assert!(derive_program_address(&seeds, &program_id()).is_none());
}

#[test]
fn derived_address_matches_outside_search() {
    let (seeds, key) = pda(b"state");
    let derived = derive_program_address(&seeds, &program_id()).unwrap();
    assert_eq!(derived.bytes, key.bytes);
    assert_ne!(derived.bytes, program_id().bytes);
}

#[test]
fn first_failing_slot_decides() {
    let schema = vec![
        AccountSlot::new(true, false, None, None),
        AccountSlot::new(false, true, None, None),
    ];
    let accounts = vec![account(1, 0, false, false), account(2, 0, false, false)];
    let r = validate(&schema, accounts, &program_id());
    assert_eq!(r.err(), Some(ValidationError::NotSigner { slot: 0 }));
}

#[test]
fn validation_repeats_identically() {
    let schema = vec![AccountSlot::new(true, true, None, None)];
    let accounts = vec![account(1, 0, true, false)];
    let r1 = validate(&schema, accounts.clone(), &program_id()).err();
    let r2 = validate(&schema, accounts, &program_id()).err();
    assert_eq!(r1, r2);
    assert_eq!(r1, Some(ValidationError::NotWritable { slot: 0 }));
}

#[test]
fn slot_builder_orders_constraints() {
    let slot = AccountSlot::new(true, true, Some(program_id()), Some(vec![vec![1u8]]));
    assert_eq!(slot.constraints.len(), 4);
    assert!(matches!(slot.constraints[0], Constraint::Signer));
    assert!(matches!(slot.constraints[1], Constraint::Writable));
    assert!(matches!(slot.constraints[2], Constraint::Owner(_)));
    assert!(matches!(slot.constraints[3], Constraint::Derived(_)));
    assert!(AccountSlot::new(false, false, None, None).constraints.is_empty());
}

#[test]
fn constraint_check_uses_given_derivation() {
    let a = account(5, 0, false, false);
    let c = Constraint::Derived(vec![vec![1u8]]);
    assert!(check_constraint(&c, &a, &Some(Address::new([5u8; 32]))));
    assert!(!check_constraint(&c, &a, &Some(Address::new([6u8; 32]))));
    assert!(!check_constraint(&c, &a, &None));
    assert!(!check_constraint(&Constraint::Signer, &a, &None));
    assert!(check_constraint(&Constraint::Owner(Address::new([0u8; 32])), &a, &None));
}

#[test]
fn check_slot_reports_given_position() {
    let slot = AccountSlot::new(false, true, None, None);
    let r = check_slot(&slot, 4, &account(1, 0, false, false), &program_id());
    assert_eq!(r, Err(ValidationError::NotWritable { slot: 4 }));
    assert_eq!(check_slot(&slot, 4, &account(1, 0, false, true), &program_id()), Ok(()));
}

#[test]
fn address_comparison_is_bytewise() {
    let mut b = [3u8; 32];
    assert!(Address::new(b).same_as(&Address::new([3u8; 32])));
    b[31] = 4;
    assert!(!Address::new(b).same_as(&Address::new([3u8; 32])));
}
