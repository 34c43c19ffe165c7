//! The computation dispatcher.
//!
//! A dispatch assembles the circuit's fixed-order argument list, refreshes
//! the shared signer delegate's freshness token, and queues one request
//! under a client-chosen computation offset. The offset derives the queue
//! slot's address, so reusing one collides and fails; distinct offsets
//! yield logically independent requests whose argument snapshots never
//! touch each other.

use vstd::prelude::*;
use crate::types::LedgerError;
use crate::types::PATIENT_DATA_PAYLOAD_BYTES;
use crate::types::PATIENT_DATA_PAYLOAD_OFFSET;

verus! {

/// One tagged argument of the circuit's fixed calling convention.
#[derive(Clone, Copy, Debug, PartialEq, Eq)]
pub enum Argument {
    /// A public key the circuit re-encrypts for.
    ArcisPubkey([u8; 32]),
    /// A plaintext 128-bit value.
    PlaintextU128(u128),
    /// A reference into a stored account: address, byte offset, byte
    /// length.
    Account([u8; 32], u32, u32),
}

/// The single shared signer delegate. It authorizes this program to act on
/// the queue and carries only a freshness token, no per-request state:
/// every dispatch stamps it anew.
pub struct SignerAccount {
    /// The freshness token, re-stamped on each dispatch.
    pub bump: u8,
}

/// Lifecycle of one computation request. All three resolved states are
/// terminal; a retry is a new request under a fresh offset.
#[derive(Clone, Copy, Debug, PartialEq, Eq, Structural)]
pub enum RequestStatus {
    /// Dispatched and awaiting the cluster's callback.
    Queued,
    /// The callback delivered a well-formed result.
    ResolvedSuccess,
    /// The cluster reported an abort.
    ResolvedAborted,
    /// The callback's payload was malformed.
    ResolvedMalformed,
}

/// One queue slot: the immutable snapshot of a dispatch, resolved by
/// exactly one callback.
pub struct RequestSlot {
    /// The client-chosen identifier this slot's address derives from.
    pub computation_offset: u64,
    /// Public key of the designated recipient.
    pub receiver: [u8; 32],
    /// Recipient-side encryption nonce.
    pub receiver_nonce: u128,
    /// Public key of the sender.
    pub sender_pub_key: [u8; 32],
    /// Sender-side encryption nonce.
    pub nonce: u128,
    /// Address of the record account the circuit reads.
    pub record_key: [u8; 32],
    /// The argument list, snapshotted at dispatch.
    pub args: Vec<Argument>,
    /// Where in its lifecycle the request stands.
    pub status: RequestStatus,
}

/// The circuit's fixed calling convention: recipient key, recipient nonce,
/// sender key, sender nonce, then the reference to the stored record's
/// payload. Order and tagging must match what the circuit expects.
pub open spec fn share_args(
    receiver: [u8; 32],
    receiver_nonce: u128,
    sender_pub_key: [u8; 32],
    nonce: u128,
    record_key: [u8; 32],
) -> Seq<Argument> {
    seq![
        Argument::ArcisPubkey(receiver),
        Argument::PlaintextU128(receiver_nonce),
        Argument::ArcisPubkey(sender_pub_key),
        Argument::PlaintextU128(nonce),
        Argument::Account(record_key, PATIENT_DATA_PAYLOAD_OFFSET, PATIENT_DATA_PAYLOAD_BYTES),
    ]
}

/// Whether some slot carries `off`.
pub open spec fn has_offset(slots: Seq<RequestSlot>, off: u64) -> bool {
    exists|i: int| 0 <= i < slots.len() && slots[i].computation_offset == off
}

/// Whether the slot of `off` exists and still awaits its callback.
pub open spec fn has_queued(slots: Seq<RequestSlot>, off: u64) -> bool {
    exists|i: int|
        0 <= i < slots.len() && slots[i].computation_offset == off && slots[i].status
            is Queued
}

/// A successful dispatch: one queued slot appended carrying the dispatch's
/// snapshot, every other slot untouched.
pub open spec fn share_transition(
    pre: Seq<RequestSlot>,
    post: Seq<RequestSlot>,
    computation_offset: u64,
    receiver: [u8; 32],
    receiver_nonce: u128,
    sender_pub_key: [u8; 32],
    nonce: u128,
    record_key: [u8; 32],
) -> bool {
    &&& post.len() == pre.len() + 1
    &&& forall|i: int| 0 <= i < pre.len() ==> post[i] == pre[i]
    &&& post.last().computation_offset == computation_offset
    &&& post.last().receiver == receiver
    &&& post.last().receiver_nonce == receiver_nonce
    &&& post.last().sender_pub_key == sender_pub_key
    &&& post.last().nonce == nonce
    &&& post.last().record_key == record_key
    &&& post.last().args@ == share_args(receiver, receiver_nonce, sender_pub_key, nonce, record_key)
    &&& post.last().status is Queued
}

/// A resolution of the slot of `computation_offset` to `status`: the
/// slot's snapshot and every other slot untouched.
pub open spec fn resolve_transition(
    pre: Seq<RequestSlot>,
    post: Seq<RequestSlot>,
    computation_offset: u64,
    status: RequestStatus,
) -> bool {
    &&& post.len() == pre.len()
    &&& forall|j: int|
        0 <= j < pre.len() && pre[j].computation_offset != computation_offset ==> post[j] == pre[j]
    &&& forall|j: int|
        0 <= j < pre.len() && pre[j].computation_offset == computation_offset ==> {
            &&& post[j].status == status
            &&& post[j].computation_offset == pre[j].computation_offset
            &&& post[j].receiver == pre[j].receiver
            &&& post[j].receiver_nonce == pre[j].receiver_nonce
            &&& post[j].sender_pub_key == pre[j].sender_pub_key
            &&& post[j].nonce == pre[j].nonce
            &&& post[j].record_key == pre[j].record_key
            &&& post[j].args == pre[j].args
        }
}

/// At most one slot per offset: the queue's invariant.
pub open spec fn queue_wf(slots: Seq<RequestSlot>) -> bool {
    forall|i: int, j: int|
        0 <= i < j < slots.len() ==> slots[i].computation_offset != slots[
            j
        ].computation_offset
}

/// The ledger-mediated computation queue, modelling one slot account per
/// outstanding request.
pub struct ComputationQueue {
    slots: Vec<RequestSlot>,
}

impl View for ComputationQueue {
    type V = Seq<RequestSlot>;

    closed spec fn view(&self) -> Seq<RequestSlot> {
        self.slots@
    }
}

impl ComputationQueue {
    /// An empty queue.
    pub fn new() -> (r: ComputationQueue)
        ensures
            r@ == Seq::<RequestSlot>::empty(),
            queue_wf(r@),
    {
        ComputationQueue { slots: Vec::new() }
    }

    /// Whether some slot carries `computation_offset`.
    pub fn contains_offset(&self, computation_offset: u64) -> (r: bool)
        ensures
            r == has_offset(self@, computation_offset),
    {
        let mut i: usize = 0;
        while i < self.slots.len()
            invariant
                i <= self@.len(),
                forall|j: int| 0 <= j < i ==> self@[j].computation_offset != computation_offset,
            decreases self@.len() - i,
        {
            if self.slots[i].computation_offset == computation_offset {
                return true;
            }
            i += 1;
        }
        false
    }

    /// The slot carrying `computation_offset`, if any.
    pub fn get_slot(&self, computation_offset: u64) -> (r: Option<&RequestSlot>)
        ensures
            match r {
                Some(slot) => exists|i: int|
                    0 <= i < self@.len() && self@[i].computation_offset == computation_offset
                        && *slot == self@[i],
                None => !has_offset(self@, computation_offset),
            },
    {
        let mut i: usize = 0;
        while i < self.slots.len()
            invariant
                i <= self@.len(),
                forall|j: int| 0 <= j < i ==> self@[j].computation_offset != computation_offset,
            decreases self@.len() - i,
        {
            if self.slots[i].computation_offset == computation_offset {
                return Some(&self.slots[i]);
            }
            i += 1;
        }
        None
    }

    /// Marks the slot of `computation_offset` resolved with `status`,
    /// leaving every other slot, and the slot's own snapshot, untouched.
    pub fn resolve(&mut self, computation_offset: u64, status: RequestStatus)
        requires
            queue_wf(old(self)@),
            has_offset(old(self)@, computation_offset),
        ensures
            queue_wf(final(self)@),
            resolve_transition(old(self)@, final(self)@, computation_offset, status),
    {
        let mut i: usize = 0;
        while i < self.slots.len()
            invariant
                self@ == old(self)@,
                queue_wf(old(self)@),
                has_offset(old(self)@, computation_offset),
                i <= self@.len(),
                forall|j: int| 0 <= j < i ==> self@[j].computation_offset != computation_offset,
            decreases self@.len() - i,
        {
            if self.slots[i].computation_offset == computation_offset {
                self.slots[i].status = status;
                proof {
                    assert(self@ == old(self)@.update(i as int, self@[i as int]));
                    assert forall|j: int|
                        0 <= j < old(self)@.len() && old(self)@[j].computation_offset
                            == computation_offset implies j == i as int by {
                        if j != i as int {
                            assert(old(self)@[j].computation_offset != old(self)@[
                                i as int
                            ].computation_offset);
                        }
                    }
                }
                return;
            }
            i += 1;
        }
        proof {
            // The precondition puts the offset in the queue, so the
            // search cannot fall through.
            assert(false);
        }
    }
}

/// Dispatches one re-encryption of the stored record at
/// `patient_data_key` to `receiver`.
///
/// The argument list is assembled in the circuit's fixed order and
/// snapshotted atomically with the enqueue: either the whole request is
/// queued under `computation_offset`, or nothing changes. A reused offset
/// collides with the existing slot and fails with `AddressAlreadyInUse`.
/// The shared signer delegate is re-stamped with `sign_pda_bump`, the
/// freshness token the ledger derived for it.
pub fn share_patient_data(
    queue: &mut ComputationQueue,
    sign_pda: &mut SignerAccount,
    sign_pda_bump: u8,
    computation_offset: u64,
    receiver: [u8; 32],
    receiver_nonce: u128,
    sender_pub_key: [u8; 32],
    nonce: u128,
    patient_data_key: [u8; 32],
) -> (r: Result<(), LedgerError>)
    requires
        queue_wf(old(queue)@),
    ensures
        queue_wf(final(queue)@),
        r is Ok <==> !has_offset(old(queue)@, computation_offset),
        r is Err ==> final(queue)@ == old(queue)@ && *final(sign_pda) == *old(sign_pda) && r
            == Err::<(), LedgerError>(LedgerError::AddressAlreadyInUse),
        r is Ok ==> final(sign_pda).bump == sign_pda_bump && share_transition(
            old(queue)@,
            final(queue)@,
            computation_offset,
            receiver,
            receiver_nonce,
            sender_pub_key,
            nonce,
            patient_data_key,
        ),
{
    if queue.contains_offset(computation_offset) {
        return Err(LedgerError::AddressAlreadyInUse);
    }
    let mut args: Vec<Argument> = Vec::new();
    args.push(Argument::ArcisPubkey(receiver));
    args.push(Argument::PlaintextU128(receiver_nonce));
    args.push(Argument::ArcisPubkey(sender_pub_key));
    args.push(Argument::PlaintextU128(nonce));
    args.push(Argument::Account(
        patient_data_key,
        PATIENT_DATA_PAYLOAD_OFFSET,
        PATIENT_DATA_PAYLOAD_BYTES,
    ));
    proof {
        assert(args@ =~= share_args(
            receiver,
            receiver_nonce,
            sender_pub_key,
            nonce,
            patient_data_key,
        ));
    }
    sign_pda.bump = sign_pda_bump;
    let slot = RequestSlot {
        computation_offset,
        receiver,
        receiver_nonce,
        sender_pub_key,
        nonce,
        record_key: patient_data_key,
        args,
        status: RequestStatus::Queued,
    };
    queue.slots.push(slot);
    proof {
        assert forall|i: int, j: int|
            0 <= i < j < queue@.len() implies queue@[i].computation_offset != queue@[
            j
        ].computation_offset by {
            if j == queue@.len() - 1 {
                assert(!has_offset(old(queue)@, computation_offset));
            }
        }
    }
    Ok(())
}

} // verus!
