//! The callback verifier and event emitter.
//!
//! The cluster resolves each queued request with exactly one callback:
//! either an abort, or an ordered sequence of re-encrypted ciphertexts.
//! The verifier checks the sequence's shape and turns it into the public
//! event; a malformed or aborted result emits nothing and leaves every
//! stored record untouched.

use vstd::prelude::*;
use vstd::bytes::spec_u128_to_le_bytes;
use vstd::bytes::u128_to_le_bytes;
use crate::dispatch::ComputationQueue;
use crate::dispatch::RequestStatus;
use crate::dispatch::has_queued;
use crate::dispatch::has_offset;
use crate::dispatch::queue_wf;
use crate::dispatch::resolve_transition;
use crate::types::ErrorCode;

verus! {

/// Number of ciphertexts a well-formed result carries: the sender nonce's
/// re-encryption, six record fields, and five allergy entries.
pub const EXPECTED_CIPHERTEXTS: usize = 11;

/// The raw result of the re-encryption circuit: a fresh nonce and the
/// ordered ciphertexts `[patient id, age, gender, blood type, weight,
/// height, allergies 0 through 4]`, each re-encrypted for the recipient.
pub struct SharePatientDataOutput {
    /// Nonce under which the ciphertexts were re-encrypted.
    pub nonce: u128,
    /// The ordered ciphertexts; well-formed when at least eleven.
    pub ciphertexts: Vec<[u8; 32]>,
}

/// A resolved computation, as the cluster's callback delivers it.
pub enum ComputationOutputs {
    /// The circuit ran to completion with this output.
    Success(SharePatientDataOutput),
    /// The cluster aborted the computation.
    Failure,
}

/// The public event carrying the re-encrypted record for the recipient;
/// the only path by which re-encrypted data leaves the system.
#[derive(Clone, Copy, Debug, PartialEq, Eq)]
pub struct ReceivedPatientDataEvent {
    /// The result nonce, as its little-endian 16-byte encoding.
    pub nonce: [u8; 16],
    /// Re-encrypted patient identifier.
    pub patient_id: [u8; 32],
    /// Re-encrypted age.
    pub age: [u8; 32],
    /// Re-encrypted gender information.
    pub gender: [u8; 32],
    /// Re-encrypted blood type.
    pub blood_type: [u8; 32],
    /// Re-encrypted weight.
    pub weight: [u8; 32],
    /// Re-encrypted height.
    pub height: [u8; 32],
    /// Re-encrypted allergy entries.
    pub allergies: [[u8; 32]; 5],
}

/// The terminal status a result resolves its request to.
pub open spec fn resolved_status(output: ComputationOutputs) -> RequestStatus {
    match output {
        ComputationOutputs::Success(o) => if o.ciphertexts@.len()
            >= EXPECTED_CIPHERTEXTS as int {
            RequestStatus::ResolvedSuccess
        } else {
            RequestStatus::ResolvedMalformed
        },
        ComputationOutputs::Failure => RequestStatus::ResolvedAborted,
    }
}

/// Consumes the cluster's result for the request queued under
/// `computation_offset`.
///
/// An abort fails with `AbortedComputation`; a result with fewer than
/// eleven ciphertexts fails with `InvalidAllergyData`; in both cases no
/// event is produced. A well-formed result yields the event, with the
/// nonce's little-endian encoding and the ciphertexts in their fixed
/// order, the trailing five as the allergy array. Whatever the outcome,
/// exactly this request leaves the queued state, its argument snapshot and
/// every other slot stay untouched, and no stored record is reachable
/// from here at all.
pub fn share_patient_data_callback(
    queue: &mut ComputationQueue,
    computation_offset: u64,
    output: ComputationOutputs,
) -> (r: Result<ReceivedPatientDataEvent, ErrorCode>)
    requires
        queue_wf(old(queue)@),
        has_queued(old(queue)@, computation_offset),
    ensures
        queue_wf(final(queue)@),
        output is Failure ==> r == Err::<ReceivedPatientDataEvent, ErrorCode>(
            ErrorCode::AbortedComputation,
        ),
        output matches ComputationOutputs::Success(o) ==> (o.ciphertexts@.len()
            < EXPECTED_CIPHERTEXTS as int ==> r == Err::<ReceivedPatientDataEvent, ErrorCode>(
            ErrorCode::InvalidAllergyData,
        )),
        output matches ComputationOutputs::Success(o) ==> (o.ciphertexts@.len()
            >= EXPECTED_CIPHERTEXTS as int ==> (r matches Ok(ev) && {
            &&& ev.nonce@ == spec_u128_to_le_bytes(o.nonce)
            &&& ev.patient_id == o.ciphertexts@[0]
            &&& ev.age == o.ciphertexts@[1]
            &&& ev.gender == o.ciphertexts@[2]
            &&& ev.blood_type == o.ciphertexts@[3]
            &&& ev.weight == o.ciphertexts@[4]
            &&& ev.height == o.ciphertexts@[5]
            &&& ev.allergies@ == o.ciphertexts@.subrange(6, 11)
        })),
        resolve_transition(old(queue)@, final(queue)@, computation_offset, resolved_status(output)),
{
    proof {
        assert(has_offset(old(queue)@, computation_offset));
    }
    let o = match output {
        ComputationOutputs::Success(o) => o,
        ComputationOutputs::Failure => {
            queue.resolve(computation_offset, RequestStatus::ResolvedAborted);
            return Err(ErrorCode::AbortedComputation);
        },
    };
    if o.ciphertexts.len() < EXPECTED_CIPHERTEXTS {
        queue.resolve(computation_offset, RequestStatus::ResolvedMalformed);
        return Err(ErrorCode::InvalidAllergyData);
    }
    let nonce_bytes = u128_to_le_bytes(o.nonce);
    let nonce: [u8; 16] = [
        nonce_bytes[0],
        nonce_bytes[1],
        nonce_bytes[2],
        nonce_bytes[3],
        nonce_bytes[4],
        nonce_bytes[5],
        nonce_bytes[6],
        nonce_bytes[7],
        nonce_bytes[8],
        nonce_bytes[9],
        nonce_bytes[10],
        nonce_bytes[11],
        nonce_bytes[12],
        nonce_bytes[13],
        nonce_bytes[14],
        nonce_bytes[15],
    ];
    let allergies: [[u8; 32]; 5] = [
        o.ciphertexts[6],
        o.ciphertexts[7],
        o.ciphertexts[8],
        o.ciphertexts[9],
        o.ciphertexts[10],
    ];
    let event = ReceivedPatientDataEvent {
        nonce,
        patient_id: o.ciphertexts[0],
        age: o.ciphertexts[1],
        gender: o.ciphertexts[2],
        blood_type: o.ciphertexts[3],
        weight: o.ciphertexts[4],
        height: o.ciphertexts[5],
        allergies,
    };
    proof {
        assert(nonce@ =~= spec_u128_to_le_bytes(o.nonce));
        assert(allergies@ =~= o.ciphertexts@.subrange(6, 11));
    }
    queue.resolve(computation_offset, RequestStatus::ResolvedSuccess);
    Ok(event)
}

} // verus!
