use std::str::FromStr;
use anchor_lang::prelude::Pubkey;
use share_medical_records::addresses::ARCIUM_PROGRAM_ID;
use share_medical_records::addresses::COMPUTATION_SEED;
use share_medical_records::addresses::COMP_DEF_SEED;
use share_medical_records::addresses::PATIENT_DATA_SEED;
use share_medical_records::addresses::PROGRAM_ID;
use share_medical_records::addresses::SIGNER_DELEGATE_SEED;
use share_medical_records::addresses::derive_comp_def_address;
use share_medical_records::addresses::derive_computation_address;
use share_medical_records::addresses::derive_record_address;
use share_medical_records::addresses::derive_signer_delegate_address;
use share_medical_records::addresses::share_patient_data_comp_def_offset;

#[test]
fn domain_tags_spell_their_names() {
    assert_eq!(PATIENT_DATA_SEED, *b"patient_data");
    assert_eq!(SIGNER_DELEGATE_SEED, *b"ArciumSignerAccount");
    assert_eq!(COMP_DEF_SEED, *b"ComputationDefinitionAccount");
    assert_eq!(COMPUTATION_SEED, *b"ComputationAccount");
}

#[test]
fn program_id_matches_declared_identity() {
    let pk = Pubkey::from_str("5NqzyBVgHPSb7TMWT37r5vHBqhKE86wbnYYdqsSLRYgt").unwrap();
    assert_eq!(PROGRAM_ID, pk.to_bytes());
}

#[test]
fn arcium_program_id_matches_idl() {
    assert_eq!(ARCIUM_PROGRAM_ID, arcium_client::idl::arcium::ID_CONST.to_bytes());
}

#[test]
fn record_address_matches_ledger_derivation() {
    let owner = [7u8; 32];
    let program = Pubkey::new_from_array(PROGRAM_ID);
    let expected = Pubkey::find_program_address(&[b"patient_data", owner.as_ref()], &program);
    let (addr, bump) = derive_record_address(&owner).unwrap();
    assert_eq!(addr, expected.0.to_bytes());
    assert_eq!(bump, expected.1);
    let other = derive_record_address(&[8u8; 32]).unwrap();
    assert_ne!(addr, other.0);
}

#[test]
fn signer_delegate_address_matches_cluster_helper() {
    let program = Pubkey::new_from_array(PROGRAM_ID);
    let expected = arcium_client::pda::signer_acc_w_bump(&program);
    let (addr, bump) = derive_signer_delegate_address().unwrap();
    assert_eq!(addr, expected.0.to_bytes());
    assert_eq!(bump, expected.1);
}

#[test]
fn comp_def_offset_matches_cluster_helper() {
    let offset = share_patient_data_comp_def_offset();
    assert_eq!(offset, arcium_client::pda::comp_def_offset("share_patient_data"));
    assert_ne!(offset, arcium_client::pda::comp_def_offset("another_circuit"));
}

#[test]
fn comp_def_address_matches_cluster_helper() {
    let program = Pubkey::new_from_array(PROGRAM_ID);
    let offset = share_patient_data_comp_def_offset();
    let expected = arcium_client::pda::computation_definition_acc_w_bump(&program, offset);
    let (addr, bump) = derive_comp_def_address(offset).unwrap();
    assert_eq!(addr, expected.0.to_bytes());
    assert_eq!(bump, expected.1);
}

#[test]
fn computation_address_matches_cluster_helper() {
    let expected = arcium_client::pda::computation_acc_w_bump(3, 12345);
    let (addr, bump) = derive_computation_address(3, 12345).unwrap();
    assert_eq!(addr, expected.0.to_bytes());
    assert_eq!(bump, expected.1);
    let other = derive_computation_address(3, 12346).unwrap();
    assert_ne!(addr, other.0);
}

use share_medical_records::accounts::InitSharePatientDataCompDef;
use share_medical_records::accounts::SharePatientData;
use share_medical_records::accounts::SharePatientDataCallback;
use share_medical_records::accounts::StorePatientData;

#[test]
fn store_accounts_resolve_to_derived_addresses() {
    let payer = [5u8; 32];
    let a = StorePatientData::resolve(payer).unwrap();
    assert_eq!(a.payer, payer);
    assert_eq!(a.patient_data, derive_record_address(&payer).unwrap().0);
    assert_eq!(a.system_program, [0u8; 32]);
}

#[test]
fn share_accounts_resolve_to_cluster_helpers() {
    let a = SharePatientData::resolve([5u8; 32], 3, 42, [9u8; 32]).unwrap();
    let program = Pubkey::new_from_array(PROGRAM_ID);
    assert_eq!(a.sign_pda_account, arcium_client::pda::signer_acc(&program).to_bytes());
    assert_eq!(a.mxe_account, arcium_client::pda::mxe_acc(&program).to_bytes());
    assert_eq!(a.mempool_account, arcium_client::pda::mempool_acc(3).to_bytes());
    assert_eq!(a.executing_pool, arcium_client::pda::execpool_acc(3).to_bytes());
    assert_eq!(a.computation_account, arcium_client::pda::computation_acc(3, 42).to_bytes());
    let offset = share_patient_data_comp_def_offset();
    assert_eq!(
        a.comp_def_account,
        arcium_client::pda::computation_definition_acc(&program, offset).to_bytes()
    );
    assert_eq!(a.cluster_account, arcium_client::pda::cluster_acc(3).to_bytes());
    assert_eq!(a.pool_account, arcium_client::pda::fee_pool_acc().to_bytes());
    assert_eq!(a.clock_account, arcium_client::pda::clock_acc().to_bytes());
    assert_eq!(a.arcium_program, arcium_client::idl::arcium::ID_CONST.to_bytes());
    assert_eq!(a.patient_data, [9u8; 32]);
}

#[test]
fn callback_and_init_accounts_resolve() {
    let cb = SharePatientDataCallback::resolve().unwrap();
    assert_eq!(
        cb.instructions_sysvar,
        anchor_lang::solana_program::sysvar::instructions::ID.to_bytes()
    );
    assert_eq!(cb.arcium_program, ARCIUM_PROGRAM_ID);
    let init = InitSharePatientDataCompDef::resolve([1u8; 32]).unwrap();
    let program = Pubkey::new_from_array(PROGRAM_ID);
    assert_eq!(init.mxe_account, arcium_client::pda::mxe_acc(&program).to_bytes());
    assert_eq!(init.comp_def_account, cb.comp_def_account);
    assert_eq!(init.system_program, [0u8; 32]);
}
