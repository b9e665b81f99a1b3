use exclusion_gate::derive_state_address;
use exclusion_gate::initial_record;
use exclusion_gate::process_initialize;
use exclusion_gate::process_set_smt_root;
use exclusion_gate::record_has_discriminator;
use exclusion_gate::set_record_root;
use exclusion_gate::ExclusionError;
use exclusion_gate::GateError;
use exclusion_gate::STATE_DISCRIMINATOR;
use exclusion_gate::STATE_SIZE;
use solana_program::pubkey::Pubkey;

fn identity(seed: u8) -> [u8; 32] {
    let mut a = [0u8; 32];
    for (i, byte) in a.iter_mut().enumerate() {
        *byte = seed.wrapping_add(i as u8).wrapping_mul(13);
    }
    a
}

#[test]
fn initial_record_layout() {
    let admin = identity(1);
    let record = initial_record(&admin);
    assert_eq!(record.len(), STATE_SIZE);
    assert_eq!(&record[0..8], &STATE_DISCRIMINATOR);
    assert_eq!(&record[8..40], &admin);
    assert_eq!(&record[40..72], &[0u8; 32]);
    assert!(record_has_discriminator(&record));
}

#[test]
fn derived_address_is_deterministic() {
    let admin = identity(2);
    let program = identity(3);
    let (addr1, bump1) = derive_state_address(&admin, &program).unwrap();
    let (addr2, bump2) = derive_state_address(&admin, &program).unwrap();
    assert_eq!(addr1, addr2);
    assert_eq!(bump1, bump2);
}

#[test]
fn derived_address_matches_ledger_derivation() {
    let admin = identity(4);
    let program = identity(5);
    let (addr, bump) = derive_state_address(&admin, &program).unwrap();
    let (expected, expected_bump) =
        Pubkey::find_program_address(&[b"state", &admin], &Pubkey::new_from_array(program));
    assert_eq!(addr, expected.to_bytes());
    assert_eq!(bump, expected_bump);
}

#[test]
fn initialize_requires_signature() {
    let admin = identity(6);
    let program = identity(7);
    let (addr, _) = derive_state_address(&admin, &program).unwrap();
    let r = process_initialize(&program, &admin, false, &addr);
    assert_eq!(r.unwrap_err(), GateError::MissingSignature);
}

#[test]
fn initialize_rejects_wrong_state_address() {
    let admin = identity(8);
    let program = identity(9);
    let (mut addr, _) = derive_state_address(&admin, &program).unwrap();
    addr[0] ^= 0xff;
    let r = process_initialize(&program, &admin, true, &addr);
    assert_eq!(
        r.unwrap_err(),
        GateError::Exclusion(ExclusionError::InvalidStatePda)
    );
}

#[test]
fn initialize_plans_record_and_bump() {
    let admin = identity(10);
    let program = identity(11);
    let (addr, bump) = derive_state_address(&admin, &program).unwrap();
    let plan = process_initialize(&program, &admin, true, &addr).unwrap();
    assert_eq!(plan.bump, bump);
    assert_eq!(plan.record, initial_record(&admin));
}

#[test]
fn set_root_requires_signature() {
    let admin = identity(12);
    let program = identity(13);
    let (addr, _) = derive_state_address(&admin, &program).unwrap();
    let mut record = initial_record(&admin);
    let before = record.clone();
    let r = process_set_smt_root(&program, &admin, false, &addr, &mut record, &[5u8; 32]);
    assert_eq!(r.unwrap_err(), GateError::MissingSignature);
    assert_eq!(record, before);
}

#[test]
fn set_root_rejects_mismatched_state_address() {
    let admin = identity(14);
    let program = identity(15);
    let (mut addr, _) = derive_state_address(&admin, &program).unwrap();
    addr[31] ^= 0x01;
    let mut record = initial_record(&admin);
    let before = record.clone();
    let r = process_set_smt_root(&program, &admin, true, &addr, &mut record, &[5u8; 32]);
    assert_eq!(
        r.unwrap_err(),
        GateError::Exclusion(ExclusionError::InvalidStatePda)
    );
    assert_eq!(record, before);
}

#[test]
fn set_root_rejects_foreign_signer() {
    // An address derived for one admin never matches another signer's
    // derivation, so a foreign signer is turned away before any read.
    let admin = identity(16);
    let intruder = identity(17);
    let program = identity(18);
    let (addr, _) = derive_state_address(&admin, &program).unwrap();
    let mut record = initial_record(&admin);
    let before = record.clone();
    let r = process_set_smt_root(&program, &intruder, true, &addr, &mut record, &[5u8; 32]);
    assert_eq!(
        r.unwrap_err(),
        GateError::Exclusion(ExclusionError::InvalidStatePda)
    );
    assert_eq!(record, before);
}

#[test]
fn set_root_rejects_bad_discriminator() {
    let admin = identity(19);
    let program = identity(20);
    let (addr, _) = derive_state_address(&admin, &program).unwrap();
    let mut record = initial_record(&admin);
    record[0] ^= 0x40;
    let before = record.clone();
    let r = process_set_smt_root(&program, &admin, true, &addr, &mut record, &[5u8; 32]);
    assert_eq!(
        r.unwrap_err(),
        GateError::Exclusion(ExclusionError::InvalidStateAccount)
    );
    assert_eq!(record, before);
}

#[test]
fn set_root_overwrites_only_the_root() {
    let admin = identity(21);
    let program = identity(22);
    let (addr, _) = derive_state_address(&admin, &program).unwrap();
    let mut record = initial_record(&admin);
    let root: Vec<u8> = (0u8..32).map(|i| i.wrapping_mul(9)).collect();
    let r = process_set_smt_root(&program, &admin, true, &addr, &mut record, &root);
    assert!(r.is_ok());
    assert_eq!(&record[0..8], &STATE_DISCRIMINATOR);
    assert_eq!(&record[8..40], &admin);
    assert_eq!(&record[40..72], root.as_slice());
}

#[test]
fn set_record_root_keeps_prefix() {
    let admin = identity(23);
    let mut record = initial_record(&admin);
    let before = record.clone();
    set_record_root(&mut record, &[0xaa; 32]);
    assert_eq!(&record[0..40], &before[0..40]);
    assert_eq!(&record[40..72], &[0xaa; 32]);
}
