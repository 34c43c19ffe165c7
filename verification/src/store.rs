//! The encrypted record store.
//!
//! One record per owning identity, durable and address-derived: creation
//! fails if a record already exists for the identity, and no update or
//! delete path exists, so a stored record's bytes never change.

use vstd::prelude::*;
use crate::types::LedgerError;
use crate::types::PatientData;

verus! {

/// One stored record together with its owning identity, whose key the
/// record's address is derived from.
pub struct RecordEntry {
    pub owner: [u8; 32],
    pub data: PatientData,
}

/// Whether an identity already owns a record.
pub open spec fn has_record(entries: Seq<RecordEntry>, owner: Seq<u8>) -> bool {
    exists|i: int| 0 <= i < entries.len() && entries[i].owner@ == owner
}

/// At most one record per identity: the store's invariant.
pub open spec fn store_wf(entries: Seq<RecordEntry>) -> bool {
    forall|i: int, j: int|
        0 <= i < j < entries.len() ==> entries[i].owner@ != entries[j].owner@
}

/// A successful store of `data` for `owner`: one entry appended, every
/// earlier entry byte-for-byte untouched.
pub open spec fn store_transition(
    pre: Seq<RecordEntry>,
    post: Seq<RecordEntry>,
    owner: [u8; 32],
    data: PatientData,
) -> bool {
    &&& post.len() == pre.len() + 1
    &&& forall|i: int| 0 <= i < pre.len() ==> post[i] == pre[i]
    &&& post.last().owner == owner
    &&& post.last().data == data
}

/// The encrypted record store, modelling the ledger's record accounts.
pub struct RecordStore {
    entries: Vec<RecordEntry>,
}

impl View for RecordStore {
    type V = Seq<RecordEntry>;

    closed spec fn view(&self) -> Seq<RecordEntry> {
        self.entries@
    }
}

/// Byte-wise equality of two 32-byte keys.
fn bytes32_eq(a: &[u8; 32], b: &[u8; 32]) -> (r: bool)
    ensures
        r == (a@ == b@),
{
    let mut i: usize = 0;
    while i < 32
        invariant
            i <= 32,
            forall|j: int| 0 <= j < i ==> a@[j] == b@[j],
        decreases 32 - i,
    {
        if a[i] != b[i] {
            return false;
        }
        i += 1;
    }
    proof {
        assert(a@ =~= b@);
    }
    true
}

impl RecordStore {
    /// An empty store.
    pub fn new() -> (r: RecordStore)
        ensures
            r@ == Seq::<RecordEntry>::empty(),
            store_wf(r@),
    {
        RecordStore { entries: Vec::new() }
    }

    /// The stored record of `owner`, if any.
    pub fn get_record(&self, owner: &[u8; 32]) -> (r: Option<&PatientData>)
        ensures
            match r {
                Some(data) => exists|i: int|
                    0 <= i < self@.len() && self@[i].owner@ == owner@ && *data == self@[i].data,
                None => !has_record(self@, owner@),
            },
    {
        let mut i: usize = 0;
        while i < self.entries.len()
            invariant
                i <= self@.len(),
                forall|j: int| 0 <= j < i ==> self@[j].owner@ != owner@,
            decreases self@.len() - i,
        {
            if bytes32_eq(&self.entries[i].owner, owner) {
                return Some(&self.entries[i].data);
            }
            i += 1;
        }
        None
    }
}

/// Stores one encrypted medical record for `payer`.
///
/// Every field is accepted as an opaque ciphertext; nothing of the
/// plaintext is, or can be, validated. Creation is not idempotent: if a
/// record already exists for this identity the call fails with
/// `AddressAlreadyInUse` and the store is unchanged, so a stored record's
/// bytes can never be overwritten.
pub fn store_patient_data(
    store: &mut RecordStore,
    payer: [u8; 32],
    patient_id: [u8; 32],
    age: [u8; 32],
    gender: [u8; 32],
    blood_type: [u8; 32],
    weight: [u8; 32],
    height: [u8; 32],
    allergies: [[u8; 32]; 5],
) -> (r: Result<(), LedgerError>)
    requires
        store_wf(old(store)@),
    ensures
        store_wf(final(store)@),
        r is Ok <==> !has_record(old(store)@, payer@),
        r is Err ==> final(store)@ == old(store)@ && r == Err::<(), LedgerError>(
            LedgerError::AddressAlreadyInUse,
        ),
        r is Ok ==> store_transition(
            old(store)@,
            final(store)@,
            payer,
            PatientData { patient_id, age, gender, blood_type, weight, height, allergies },
        ),
{
    if store.get_record(&payer).is_some() {
        return Err(LedgerError::AddressAlreadyInUse);
    }
    let entry = RecordEntry {
        owner: payer,
        data: PatientData { patient_id, age, gender, blood_type, weight, height, allergies },
    };
    store.entries.push(entry);
    proof {
        assert forall|i: int, j: int|
            0 <= i < j < store@.len() implies store@[i].owner@ != store@[j].owner@ by {
            if j < store@.len() - 1 {
            } else {
                assert(!has_record(old(store)@, payer@));
            }
        }
    }
    Ok(())
}

} // verus!
