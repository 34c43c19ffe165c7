//! Data model: the encrypted record, the circuit calling convention, the
//! cluster's result shape, the emitted event, and the error taxonomy.

use vstd::prelude::*;

verus! {

/// Byte length of one encrypted record's payload: six 32-byte ciphertext
/// fields plus five 32-byte allergy ciphertexts.
pub const PATIENT_DATA_PAYLOAD_BYTES: u32 = 352;

/// Byte offset of the payload inside a stored record account: the ledger
/// prefixes every account with an 8-byte discriminator.
pub const PATIENT_DATA_PAYLOAD_OFFSET: u32 = 8;

/// One encrypted medical record. Every field is an opaque 32-byte
/// ciphertext; the core never inspects or validates plaintext content.
#[derive(Clone, Copy)]
pub struct PatientData {
    /// Encrypted unique patient identifier.
    pub patient_id: [u8; 32],
    /// Encrypted patient age.
    pub age: [u8; 32],
    /// Encrypted gender information.
    pub gender: [u8; 32],
    /// Encrypted blood type.
    pub blood_type: [u8; 32],
    /// Encrypted weight measurement.
    pub weight: [u8; 32],
    /// Encrypted height measurement.
    pub height: [u8; 32],
    /// Encrypted allergy information, always exactly five entries.
    pub allergies: [[u8; 32]; 5],
}

/// Errors raised by the core's own logic, mirroring the program's error
/// codes.
#[derive(Clone, Copy, Debug, PartialEq, Eq, Structural)]
pub enum ErrorCode {
    /// The cluster reported that the computation was aborted.
    AbortedComputation,
    /// The cluster's result did not carry the expected allergy entries.
    InvalidAllergyData,
    /// Declared for interface completeness; no path in this core raises it.
    ClusterNotSet,
}

/// Errors raised by the ledger's account-creation rules, surfaced here as
/// explicit preconditions turned into results.
#[derive(Clone, Copy, Debug, PartialEq, Eq, Structural)]
pub enum LedgerError {
    /// An account already exists at the derived address.
    AddressAlreadyInUse,
    /// A computation definition was already registered under this name.
    AlreadyInitialized,
}

} // verus!
