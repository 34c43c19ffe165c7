use share_medical_records::callback::ComputationOutputs;
use share_medical_records::callback::SharePatientDataOutput;
use share_medical_records::callback::share_patient_data_callback;
use share_medical_records::dispatch::Argument;
use share_medical_records::dispatch::ComputationQueue;
use share_medical_records::dispatch::RequestStatus;
use share_medical_records::dispatch::SignerAccount;
use share_medical_records::dispatch::share_patient_data;
use share_medical_records::registry::CompDefRegistry;
use share_medical_records::registry::init_share_patient_data_comp_def;
use share_medical_records::store::RecordStore;
use share_medical_records::store::store_patient_data;
use share_medical_records::types::ErrorCode;
use share_medical_records::types::LedgerError;
use share_medical_records::types::PATIENT_DATA_PAYLOAD_BYTES;
use share_medical_records::types::PATIENT_DATA_PAYLOAD_OFFSET;

fn ct(b: u8) -> [u8; 32] {
    [b; 32]
}

#[test]
fn store_then_second_store_fails_and_bytes_survive() {
    let mut store = RecordStore::new();
    let payer = ct(9);
    let allergies = [ct(20), ct(21), ct(22), ct(23), ct(24)];
    let r = store_patient_data(
        &mut store,
        payer,
        ct(1),
        ct(2),
        ct(3),
        ct(4),
        ct(5),
        ct(6),
        allergies,
    );
    assert!(r.is_ok());
    let r2 = store_patient_data(
        &mut store,
        payer,
        ct(7),
        ct(7),
        ct(7),
        ct(7),
        ct(7),
        ct(7),
        [ct(7); 5],
    );
    assert_eq!(r2, Err(LedgerError::AddressAlreadyInUse));
    let rec = store.get_record(&payer).expect("first record must remain");
    assert_eq!(rec.patient_id, ct(1));
    assert_eq!(rec.age, ct(2));
    assert_eq!(rec.gender, ct(3));
    assert_eq!(rec.blood_type, ct(4));
    assert_eq!(rec.weight, ct(5));
    assert_eq!(rec.height, ct(6));
    assert_eq!(rec.allergies, allergies);
}

#[test]
fn distinct_identities_each_get_a_record() {
    let mut store = RecordStore::new();
    let a = ct(1);
    let b = ct(2);
    assert!(store.get_record(&a).is_none());
    let all = [ct(0); 5];
    assert!(store_patient_data(&mut store, a, ct(3), ct(3), ct(3), ct(3), ct(3), ct(3), all)
        .is_ok());
    assert!(store_patient_data(&mut store, b, ct(4), ct(4), ct(4), ct(4), ct(4), ct(4), all)
        .is_ok());
    assert_eq!(store.get_record(&a).unwrap().patient_id, ct(3));
    assert_eq!(store.get_record(&b).unwrap().patient_id, ct(4));
}

#[test]
fn register_circuit_definition_only_once() {
    let mut registry = CompDefRegistry::new();
    assert!(init_share_patient_data_comp_def(&mut registry).is_ok());
    assert_eq!(
        init_share_patient_data_comp_def(&mut registry),
        Err(LedgerError::AlreadyInitialized)
    );
}

#[test]
fn share_fresh_offset_succeeds_and_reuse_fails() {
    let mut queue = ComputationQueue::new();
    let mut sign_pda = SignerAccount { bump: 0 };
    let record_key = ct(40);
    let r = share_patient_data(
        &mut queue,
        &mut sign_pda,
        254,
        1,
        ct(10),
        111,
        ct(11),
        222,
        record_key,
    );
    assert!(r.is_ok());
    assert_eq!(sign_pda.bump, 254);
    let slot = queue.get_slot(1).expect("exactly one pending request");
    assert_eq!(slot.status, RequestStatus::Queued);
    assert_eq!(
        slot.args,
        vec![
            Argument::ArcisPubkey(ct(10)),
            Argument::PlaintextU128(111),
            Argument::ArcisPubkey(ct(11)),
            Argument::PlaintextU128(222),
            Argument::Account(record_key, PATIENT_DATA_PAYLOAD_OFFSET, PATIENT_DATA_PAYLOAD_BYTES),
        ]
    );
    assert_eq!(PATIENT_DATA_PAYLOAD_OFFSET, 8);
    assert_eq!(PATIENT_DATA_PAYLOAD_BYTES, 352);
    let reuse = share_patient_data(
        &mut queue,
        &mut sign_pda,
        254,
        1,
        ct(12),
        333,
        ct(13),
        444,
        record_key,
    );
    assert_eq!(reuse, Err(LedgerError::AddressAlreadyInUse));
    let slot = queue.get_slot(1).unwrap();
    assert_eq!(slot.receiver, ct(10));
    assert_eq!(slot.receiver_nonce, 111);
    let r2 = share_patient_data(
        &mut queue,
        &mut sign_pda,
        254,
        u64::MAX,
        ct(14),
        555,
        ct(15),
        666,
        record_key,
    );
    assert!(r2.is_ok());
}

fn queue_with_request(offset: u64) -> ComputationQueue {
    let mut queue = ComputationQueue::new();
    let mut sign_pda = SignerAccount { bump: 0 };
    share_patient_data(
        &mut queue,
        &mut sign_pda,
        1,
        offset,
        ct(10),
        111,
        ct(11),
        222,
        ct(40),
    )
    .unwrap();
    queue
}

#[test]
fn callback_success_emits_event_with_exact_fields() {
    let mut queue = queue_with_request(5);
    let nonce: u128 = 0x0102030405060708090a0b0c0d0e0f10;
    let mut ciphertexts = Vec::new();
    for i in 0..11u8 {
        ciphertexts.push(ct(100 + i));
    }
    let output = ComputationOutputs::Success(SharePatientDataOutput { nonce, ciphertexts });
    let ev = share_patient_data_callback(&mut queue, 5, output).expect("well-formed result");
    assert_eq!(ev.nonce, nonce.to_le_bytes());
    assert_eq!(
        ev.nonce,
        [0x10, 0x0f, 0x0e, 0x0d, 0x0c, 0x0b, 0x0a, 0x09, 0x08, 0x07, 0x06, 0x05, 0x04, 0x03,
            0x02, 0x01]
    );
    assert_eq!(ev.patient_id, ct(100));
    assert_eq!(ev.age, ct(101));
    assert_eq!(ev.gender, ct(102));
    assert_eq!(ev.blood_type, ct(103));
    assert_eq!(ev.weight, ct(104));
    assert_eq!(ev.height, ct(105));
    assert_eq!(ev.allergies, [ct(106), ct(107), ct(108), ct(109), ct(110)]);
    assert_eq!(queue.get_slot(5).unwrap().status, RequestStatus::ResolvedSuccess);
}

#[test]
fn callback_zero_and_max_nonce_encodings() {
    let mut queue = queue_with_request(1);
    let mut ciphertexts = Vec::new();
    for _ in 0..11 {
        ciphertexts.push(ct(0));
    }
    let output = ComputationOutputs::Success(SharePatientDataOutput {
        nonce: 0,
        ciphertexts: ciphertexts.clone(),
    });
    let ev = share_patient_data_callback(&mut queue, 1, output).unwrap();
    assert_eq!(ev.nonce, [0u8; 16]);

    let mut queue = queue_with_request(2);
    let output = ComputationOutputs::Success(SharePatientDataOutput {
        nonce: u128::MAX,
        ciphertexts,
    });
    let ev = share_patient_data_callback(&mut queue, 2, output).unwrap();
    assert_eq!(ev.nonce, [0xffu8; 16]);
}

#[test]
fn callback_short_payload_fails_without_event() {
    let mut queue = queue_with_request(5);
    let mut ciphertexts = Vec::new();
    for i in 0..10u8 {
        ciphertexts.push(ct(i));
    }
    let output = ComputationOutputs::Success(SharePatientDataOutput { nonce: 7, ciphertexts });
    let r = share_patient_data_callback(&mut queue, 5, output);
    assert_eq!(r, Err(ErrorCode::InvalidAllergyData));
    assert_eq!(queue.get_slot(5).unwrap().status, RequestStatus::ResolvedMalformed);
}

#[test]
fn callback_empty_payload_fails_without_event() {
    let mut queue = queue_with_request(5);
    let output = ComputationOutputs::Success(SharePatientDataOutput {
        nonce: 7,
        ciphertexts: Vec::new(),
    });
    let r = share_patient_data_callback(&mut queue, 5, output);
    assert_eq!(r, Err(ErrorCode::InvalidAllergyData));
}

#[test]
fn callback_aborted_fails_and_records_survive() {
    let mut store = RecordStore::new();
    let payer = ct(9);
    let all = [ct(20), ct(21), ct(22), ct(23), ct(24)];
    store_patient_data(&mut store, payer, ct(1), ct(2), ct(3), ct(4), ct(5), ct(6), all).unwrap();
    let mut queue = queue_with_request(5);
    let r = share_patient_data_callback(&mut queue, 5, ComputationOutputs::Failure);
    assert_eq!(r, Err(ErrorCode::AbortedComputation));
    assert_eq!(queue.get_slot(5).unwrap().status, RequestStatus::ResolvedAborted);
    let rec = store.get_record(&payer).expect("record untouched by abort");
    assert_eq!(rec.patient_id, ct(1));
    assert_eq!(rec.allergies, all);
}

#[test]
fn distinct_offsets_keep_their_own_snapshots() {
    let mut queue = ComputationQueue::new();
    let mut sign_pda = SignerAccount { bump: 0 };
    share_patient_data(&mut queue, &mut sign_pda, 1, 1, ct(10), 111, ct(11), 222, ct(40))
        .unwrap();
    share_patient_data(&mut queue, &mut sign_pda, 1, 2, ct(50), 777, ct(51), 888, ct(60))
        .unwrap();
    let mut ciphertexts = Vec::new();
    for i in 0..11u8 {
        ciphertexts.push(ct(i));
    }
    let output = ComputationOutputs::Success(SharePatientDataOutput { nonce: 1, ciphertexts });
    share_patient_data_callback(&mut queue, 2, output).unwrap();

    let first = queue.get_slot(1).unwrap();
    assert_eq!(first.status, RequestStatus::Queued);
    assert_eq!(first.receiver, ct(10));
    assert_eq!(first.receiver_nonce, 111);
    assert_eq!(first.sender_pub_key, ct(11));
    assert_eq!(first.nonce, 222);
    assert_eq!(first.record_key, ct(40));

    let second = queue.get_slot(2).unwrap();
    assert_eq!(second.status, RequestStatus::ResolvedSuccess);
    assert_eq!(second.receiver, ct(50));
    assert_eq!(second.receiver_nonce, 777);
    assert_eq!(second.sender_pub_key, ct(51));
    assert_eq!(second.nonce, 888);
    assert_eq!(second.record_key, ct(60));
}
