//! The protocol's cross-operation guarantees, proved over the state
//! transitions that the operations' contracts establish.

use vstd::prelude::*;
use crate::dispatch::RequestStatus;
use crate::dispatch::RequestSlot;
use crate::dispatch::has_offset;
use crate::dispatch::has_queued;
use crate::dispatch::queue_wf;
use crate::dispatch::resolve_transition;
use crate::dispatch::share_args;
use crate::dispatch::share_transition;
use crate::registry::ComputationDefinition;
use crate::registry::has_comp_def;
use crate::registry::register_transition;
use crate::store::RecordEntry;
use crate::store::has_record;
use crate::store::store_transition;
use crate::store::store_wf;
use crate::types::PatientData;

verus! {

/// A record is created exactly once. After a store for a fresh identity,
/// that identity is occupied and holds exactly the stored bytes, so the
/// contract of `store_patient_data` forces any second store for the same
/// identity to fail with `AddressAlreadyInUse` and leave the store, and
/// with it the first record's bytes, unchanged.
pub proof fn lemma_store_is_create_once(
    pre: Seq<RecordEntry>,
    post: Seq<RecordEntry>,
    owner: [u8; 32],
    data: PatientData,
)
    requires
        store_wf(pre),
        !has_record(pre, owner@),
        store_transition(pre, post, owner, data),
    ensures
        store_wf(post),
        has_record(post, owner@),
        forall|i: int| 0 <= i < post.len() && post[i].owner@ == owner@ ==> post[i].data == data,
{
    assert(post[post.len() - 1].owner@ == owner@);
    assert forall|i: int, j: int|
        0 <= i < j < post.len() implies post[i].owner@ != post[j].owner@ by {
        if j < post.len() - 1 {
        } else {
            assert(post[i] == pre[i]);
        }
    }
    assert forall|i: int|
        0 <= i < post.len() && post[i].owner@ == owner@ implies post[i].data == data by {
        if i < pre.len() {
            assert(post[i] == pre[i]);
        }
    }
}

/// A circuit definition is registered at most once. After a registration
/// under a fresh offset, that offset is occupied, so the contract of
/// `init_share_patient_data_comp_def` forces any second registration to
/// fail with `AlreadyInitialized` and leave the registry unchanged.
pub proof fn lemma_register_is_once(
    pre: Seq<ComputationDefinition>,
    post: Seq<ComputationDefinition>,
    offset: u32,
)
    requires
        register_transition(pre, post, offset),
    ensures
        has_comp_def(post, offset),
{
    assert(post[post.len() - 1].offset == offset);
}

/// A dispatch under a fresh offset produces exactly one pending request:
/// the new slot is queued, no other slot carries the offset, and the
/// contract of `share_patient_data` forces a dispatch reusing the offset
/// before resolution to fail with `AddressAlreadyInUse`.
pub proof fn lemma_share_fresh_offset_pends_once(
    pre: Seq<RequestSlot>,
    post: Seq<RequestSlot>,
    computation_offset: u64,
    receiver: [u8; 32],
    receiver_nonce: u128,
    sender_pub_key: [u8; 32],
    nonce: u128,
    record_key: [u8; 32],
)
    requires
        queue_wf(pre),
        !has_offset(pre, computation_offset),
        share_transition(
            pre,
            post,
            computation_offset,
            receiver,
            receiver_nonce,
            sender_pub_key,
            nonce,
            record_key,
        ),
    ensures
        queue_wf(post),
        has_offset(post, computation_offset),
        has_queued(post, computation_offset),
        forall|i: int, j: int|
            0 <= i < post.len() && 0 <= j < post.len() && post[i].computation_offset
                == computation_offset && post[j].computation_offset == computation_offset ==> i
                == j,
{
    assert(post[post.len() - 1].computation_offset == computation_offset);
    assert(post[post.len() - 1].status is Queued);
    assert forall|i: int, j: int|
        0 <= i < j < post.len() implies post[i].computation_offset != post[
        j
    ].computation_offset by {
        if j < post.len() - 1 {
        } else {
            assert(post[i] == pre[i]);
        }
    }
}

/// Requests under distinct offsets are independent. After one dispatch, a
/// second dispatch under another offset, and the resolution of the second
/// request, the first request's slot still carries exactly its own keys,
/// nonces and argument list and is still queued; and the resolved slot
/// carries exactly the second dispatch's snapshot. No callback can ever
/// answer with another request's argument snapshot.
pub proof fn lemma_snapshots_independent(
    s0: Seq<RequestSlot>,
    s1: Seq<RequestSlot>,
    s2: Seq<RequestSlot>,
    s3: Seq<RequestSlot>,
    off_a: u64,
    receiver_a: [u8; 32],
    receiver_nonce_a: u128,
    sender_a: [u8; 32],
    nonce_a: u128,
    key_a: [u8; 32],
    off_b: u64,
    receiver_b: [u8; 32],
    receiver_nonce_b: u128,
    sender_b: [u8; 32],
    nonce_b: u128,
    key_b: [u8; 32],
    status_b: RequestStatus,
)
    requires
        queue_wf(s0),
        !has_offset(s0, off_a),
        share_transition(s0, s1, off_a, receiver_a, receiver_nonce_a, sender_a, nonce_a, key_a),
        !has_offset(s1, off_b),
        share_transition(s1, s2, off_b, receiver_b, receiver_nonce_b, sender_b, nonce_b, key_b),
        resolve_transition(s2, s3, off_b, status_b),
    ensures
        off_a != off_b,
        has_queued(s3, off_a),
        forall|i: int|
            0 <= i < s3.len() && s3[i].computation_offset == off_a ==> {
                &&& s3[i].receiver == receiver_a
                &&& s3[i].receiver_nonce == receiver_nonce_a
                &&& s3[i].sender_pub_key == sender_a
                &&& s3[i].nonce == nonce_a
                &&& s3[i].record_key == key_a
                &&& s3[i].args@ == share_args(
                    receiver_a,
                    receiver_nonce_a,
                    sender_a,
                    nonce_a,
                    key_a,
                )
                &&& s3[i].status is Queued
            },
        forall|i: int|
            0 <= i < s3.len() && s3[i].computation_offset == off_b ==> {
                &&& s3[i].receiver == receiver_b
                &&& s3[i].receiver_nonce == receiver_nonce_b
                &&& s3[i].sender_pub_key == sender_b
                &&& s3[i].nonce == nonce_b
                &&& s3[i].record_key == key_b
                &&& s3[i].args@ == share_args(
                    receiver_b,
                    receiver_nonce_b,
                    sender_b,
                    nonce_b,
                    key_b,
                )
                &&& s3[i].status == status_b
            },
{
    let a = s0.len() as int;
    let b = s1.len() as int;
    assert(s1[a].computation_offset == off_a);
    assert(off_a != off_b);
    assert(s2[a] == s1[a]);
    assert(s3[a] == s2[a]);
    assert(has_queued(s3, off_a)) by {
        assert(0 <= a < s3.len() && s3[a].computation_offset == off_a && s3[a].status
            is Queued);
    }
    assert forall|i: int|
        0 <= i < s3.len() && s3[i].computation_offset == off_a implies {
        &&& s3[i].receiver == receiver_a
        &&& s3[i].receiver_nonce == receiver_nonce_a
        &&& s3[i].sender_pub_key == sender_a
        &&& s3[i].nonce == nonce_a
        &&& s3[i].record_key == key_a
        &&& s3[i].args@ == share_args(receiver_a, receiver_nonce_a, sender_a, nonce_a, key_a)
        &&& s3[i].status is Queued
    } by {
        assert(s3[i] == s2[i]);
        if i < a {
            assert(s2[i] == s1[i]);
            assert(s1[i] == s0[i]);
            assert(has_offset(s0, off_a)) by {
                assert(0 <= i < s0.len() && s0[i].computation_offset == off_a);
            }
        } else if i == b {
            assert(s2[i].computation_offset == off_b);
        } else {
            assert(i == a);
            assert(s2[i] == s1[i]);
        }
    }
    assert forall|i: int|
        0 <= i < s3.len() && s3[i].computation_offset == off_b implies {
        &&& s3[i].receiver == receiver_b
        &&& s3[i].receiver_nonce == receiver_nonce_b
        &&& s3[i].sender_pub_key == sender_b
        &&& s3[i].nonce == nonce_b
        &&& s3[i].record_key == key_b
        &&& s3[i].args@ == share_args(receiver_b, receiver_nonce_b, sender_b, nonce_b, key_b)
        &&& s3[i].status == status_b
    } by {
        assert(s2[i].computation_offset == off_b);
        if i < b {
            assert(s2[i] == s1[i]);
            assert(has_offset(s1, off_b)) by {
                assert(0 <= i < s1.len() && s1[i].computation_offset == off_b);
            }
        } else {
            assert(i == b);
        }
    }
}

} // verus!
