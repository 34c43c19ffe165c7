//! Deterministic address derivation.
//!
//! Every durable object of the protocol lives at an address derived from a
//! domain tag and key material: the record account from `"patient_data"`
//! and its owner's key, the shared signer delegate from a fixed tag, the
//! computation definition from this program's key and the circuit-name
//! offset, and each queue slot from the client-chosen computation offset.
//! The hash itself is the ledger's program-address derivation, reached
//! through one trusted call; the seed layouts are stated and verified here.

use vstd::prelude::*;
use vstd::bytes::spec_u32_to_le_bytes;
use vstd::bytes::spec_u64_to_le_bytes;
use vstd::bytes::u32_to_le_bytes;
use vstd::bytes::u64_to_le_bytes;
use vstd::slice::slice_to_vec;

verus! {

/// This program's 32-byte on-ledger identity.
pub const PROGRAM_ID: [u8; 32] = [
    65, 7, 89, 59, 78, 125, 192, 39, 56, 162, 125, 15, 184, 129, 241, 179, 74, 161, 152, 55, 247,
    11, 224, 242, 252, 146, 74, 9, 84, 255, 135, 117,
];

/// The MPC orchestration program's 32-byte on-ledger identity.
pub const ARCIUM_PROGRAM_ID: [u8; 32] = [
    146, 111, 9, 170, 109, 72, 125, 226, 216, 140, 55, 106, 22, 29, 7, 127, 176, 129, 11, 19, 35,
    107, 124, 118, 71, 160, 112, 40, 3, 250, 93, 137,
];

/// Domain tag of record accounts: the bytes of `"patient_data"`.
pub const PATIENT_DATA_SEED: [u8; 12] = [112, 97, 116, 105, 101, 110, 116, 95, 100, 97, 116, 97];

/// Domain tag of the shared signer delegate: the bytes of
/// `"ArciumSignerAccount"`.
pub const SIGNER_DELEGATE_SEED: [u8; 19] = [
    65, 114, 99, 105, 117, 109, 83, 105, 103, 110, 101, 114, 65, 99, 99, 111, 117, 110, 116,
];

/// Domain tag of computation-definition accounts: the bytes of
/// `"ComputationDefinitionAccount"`.
pub const COMP_DEF_SEED: [u8; 28] = [
    67, 111, 109, 112, 117, 116, 97, 116, 105, 111, 110, 68, 101, 102, 105, 110, 105, 116, 105,
    111, 110, 65, 99, 99, 111, 117, 110, 116,
];

/// Domain tag of per-request queue slots: the bytes of
/// `"ComputationAccount"`.
pub const COMPUTATION_SEED: [u8; 18] = [
    67, 111, 109, 112, 117, 116, 97, 116, 105, 111, 110, 65, 99, 99, 111, 117, 110, 116,
];

/// Domain tag of the MPC execution environment's account: the bytes of
/// `"MXEAccount"`.
pub const MXE_SEED: [u8; 10] = [77, 88, 69, 65, 99, 99, 111, 117, 110, 116];

/// Domain tag of a cluster's mempool account: the bytes of `"Mempool"`.
pub const MEMPOOL_SEED: [u8; 7] = [77, 101, 109, 112, 111, 111, 108];

/// Domain tag of a cluster's executing pool: the bytes of `"Execpool"`.
pub const EXECPOOL_SEED: [u8; 8] = [69, 120, 101, 99, 112, 111, 111, 108];

/// Domain tag of a cluster account: the bytes of `"Cluster"`.
pub const CLUSTER_SEED: [u8; 7] = [67, 108, 117, 115, 116, 101, 114];

/// Domain tag of the orchestration program's fee pool: the bytes of
/// `"FeePool"`.
pub const FEE_POOL_SEED: [u8; 7] = [70, 101, 101, 80, 111, 111, 108];

/// Domain tag of the orchestration program's clock account: the bytes of
/// `"ClockAccount"`.
pub const CLOCK_SEED: [u8; 12] = [67, 108, 111, 99, 107, 65, 99, 99, 111, 117, 110, 116];

/// The views of a list of seed buffers, in order.
pub open spec fn seed_views(seeds: Seq<Vec<u8>>) -> Seq<Seq<u8>> {
    Seq::new(seeds.len(), |i: int| seeds[i]@)
}

/// The program address and bump seed that the ledger derives from a seed
/// list and a program identity; a function of those two alone.
pub uninterp spec fn program_address_of(seeds: Seq<Seq<u8>>, program_id: Seq<u8>) -> Option<
    ([u8; 32], u8),
>;

/// Relies on `Pubkey::try_find_program_address` (anchor_lang's re-export of
/// the ledger's derivation): the derived address and bump depend on the
/// seeds and the program identity alone; `None` comes when the seed list
/// is refused (more than sixteen seeds, or one longer than 32 bytes) or in
/// the statistically improbable case that no bump seed yields a valid
/// address.
#[verifier::external_body]
fn find_program_address(seeds: &Vec<Vec<u8>>, program_id: &[u8; 32]) -> (r: Option<([u8; 32], u8)>)
    ensures
        r == program_address_of(seed_views(seeds@), program_id@),
{
    let seed_slices: Vec<&[u8]> = seeds.iter().map(|s| s.as_slice()).collect();
    let program = anchor_lang::prelude::Pubkey::new_from_array(*program_id);
    anchor_lang::prelude::Pubkey::try_find_program_address(&seed_slices, &program)
        .map(|(address, bump)| (address.to_bytes(), bump))
}

/// The offset under which a circuit definition is filed, derived from the
/// circuit's name alone (the leading bytes of its digest).
pub uninterp spec fn comp_def_offset_of(name: Seq<char>) -> u32;

/// Relies on `arcium_anchor::comp_def_offset`: the first four bytes, little
/// endian, of the SHA-256 digest of the circuit name, a function of the
/// name alone.
#[verifier::external_body]
fn circuit_offset(name: &str) -> (r: u32)
    ensures
        r == comp_def_offset_of(name@),
{
    arcium_anchor::comp_def_offset(name)
}

/// The definition offset of the fixed re-encryption circuit,
/// `"share_patient_data"`.
pub fn share_patient_data_comp_def_offset() -> (r: u32)
    ensures
        r == comp_def_offset_of("share_patient_data"@),
{
    circuit_offset("share_patient_data")
}

/// Address of the record account owned by `owner`: derived from the
/// `"patient_data"` tag and the owner's key under this program, so at most
/// one record exists per identity.
pub fn derive_record_address(owner: &[u8; 32]) -> (r: Option<([u8; 32], u8)>)
    ensures
        r == program_address_of(seq![PATIENT_DATA_SEED@, owner@], PROGRAM_ID@),
{
    let mut seeds: Vec<Vec<u8>> = Vec::new();
    seeds.push(slice_to_vec(PATIENT_DATA_SEED.as_slice()));
    seeds.push(slice_to_vec(owner.as_slice()));
    proof {
        assert(seed_views(seeds@) =~= seq![PATIENT_DATA_SEED@, owner@]);
    }
    find_program_address(&seeds, &PROGRAM_ID)
}

/// Address of the single shared signer delegate: derived from its fixed
/// tag under this program, the same for every dispatch.
pub fn derive_signer_delegate_address() -> (r: Option<([u8; 32], u8)>)
    ensures
        r == program_address_of(seq![SIGNER_DELEGATE_SEED@], PROGRAM_ID@),
{
    let mut seeds: Vec<Vec<u8>> = Vec::new();
    seeds.push(slice_to_vec(SIGNER_DELEGATE_SEED.as_slice()));
    proof {
        assert(seed_views(seeds@) =~= seq![SIGNER_DELEGATE_SEED@]);
    }
    find_program_address(&seeds, &PROGRAM_ID)
}

/// Address of a circuit's computation-definition account: derived from its
/// tag, this program's key and the circuit's definition offset, under the
/// orchestration program.
pub fn derive_comp_def_address(comp_def_offset: u32) -> (r: Option<([u8; 32], u8)>)
    ensures
        r == program_address_of(
            seq![COMP_DEF_SEED@, PROGRAM_ID@, spec_u32_to_le_bytes(comp_def_offset)],
            ARCIUM_PROGRAM_ID@,
        ),
{
    let mut seeds: Vec<Vec<u8>> = Vec::new();
    seeds.push(slice_to_vec(COMP_DEF_SEED.as_slice()));
    seeds.push(slice_to_vec(PROGRAM_ID.as_slice()));
    seeds.push(u32_to_le_bytes(comp_def_offset));
    proof {
        assert(seed_views(seeds@) =~= seq![
            COMP_DEF_SEED@,
            PROGRAM_ID@,
            spec_u32_to_le_bytes(comp_def_offset),
        ]);
    }
    find_program_address(&seeds, &ARCIUM_PROGRAM_ID)
}

/// Address of the queue slot of one computation request: derived from its
/// tag, the cluster's offset and the client-chosen computation offset,
/// under the orchestration program. Reusing a computation offset collides
/// here.
pub fn derive_computation_address(cluster_offset: u32, computation_offset: u64) -> (r: Option<
    ([u8; 32], u8),
>)
    ensures
        r == program_address_of(
            seq![
                COMPUTATION_SEED@,
                spec_u32_to_le_bytes(cluster_offset),
                spec_u64_to_le_bytes(computation_offset),
            ],
            ARCIUM_PROGRAM_ID@,
        ),
{
    let mut seeds: Vec<Vec<u8>> = Vec::new();
    seeds.push(slice_to_vec(COMPUTATION_SEED.as_slice()));
    seeds.push(u32_to_le_bytes(cluster_offset));
    seeds.push(u64_to_le_bytes(computation_offset));
    proof {
        assert(seed_views(seeds@) =~= seq![
            COMPUTATION_SEED@,
            spec_u32_to_le_bytes(cluster_offset),
            spec_u64_to_le_bytes(computation_offset),
        ]);
    }
    find_program_address(&seeds, &ARCIUM_PROGRAM_ID)
}

/// Address of this program's MPC execution environment account: derived
/// from its tag and this program's key, under the orchestration program.
pub fn derive_mxe_address() -> (r: Option<([u8; 32], u8)>)
    ensures
        r == program_address_of(seq![MXE_SEED@, PROGRAM_ID@], ARCIUM_PROGRAM_ID@),
{
    let mut seeds: Vec<Vec<u8>> = Vec::new();
    seeds.push(slice_to_vec(MXE_SEED.as_slice()));
    seeds.push(slice_to_vec(PROGRAM_ID.as_slice()));
    proof {
        assert(seed_views(seeds@) =~= seq![MXE_SEED@, PROGRAM_ID@]);
    }
    find_program_address(&seeds, &ARCIUM_PROGRAM_ID)
}

/// Address of the mempool of the cluster at `cluster_offset`.
pub fn derive_mempool_address(cluster_offset: u32) -> (r: Option<([u8; 32], u8)>)
    ensures
        r == program_address_of(
            seq![MEMPOOL_SEED@, spec_u32_to_le_bytes(cluster_offset)],
            ARCIUM_PROGRAM_ID@,
        ),
{
    let mut seeds: Vec<Vec<u8>> = Vec::new();
    seeds.push(slice_to_vec(MEMPOOL_SEED.as_slice()));
    seeds.push(u32_to_le_bytes(cluster_offset));
    proof {
        assert(seed_views(seeds@) =~= seq![MEMPOOL_SEED@, spec_u32_to_le_bytes(cluster_offset)]);
    }
    find_program_address(&seeds, &ARCIUM_PROGRAM_ID)
}

/// Address of the executing pool of the cluster at `cluster_offset`.
pub fn derive_execpool_address(cluster_offset: u32) -> (r: Option<([u8; 32], u8)>)
    ensures
        r == program_address_of(
            seq![EXECPOOL_SEED@, spec_u32_to_le_bytes(cluster_offset)],
            ARCIUM_PROGRAM_ID@,
        ),
{
    let mut seeds: Vec<Vec<u8>> = Vec::new();
    seeds.push(slice_to_vec(EXECPOOL_SEED.as_slice()));
    seeds.push(u32_to_le_bytes(cluster_offset));
    proof {
        assert(seed_views(seeds@) =~= seq![EXECPOOL_SEED@, spec_u32_to_le_bytes(cluster_offset)]);
    }
    find_program_address(&seeds, &ARCIUM_PROGRAM_ID)
}

/// Address of the cluster account at `cluster_offset`.
pub fn derive_cluster_address(cluster_offset: u32) -> (r: Option<([u8; 32], u8)>)
    ensures
        r == program_address_of(
            seq![CLUSTER_SEED@, spec_u32_to_le_bytes(cluster_offset)],
            ARCIUM_PROGRAM_ID@,
        ),
{
    let mut seeds: Vec<Vec<u8>> = Vec::new();
    seeds.push(slice_to_vec(CLUSTER_SEED.as_slice()));
    seeds.push(u32_to_le_bytes(cluster_offset));
    proof {
        assert(seed_views(seeds@) =~= seq![CLUSTER_SEED@, spec_u32_to_le_bytes(cluster_offset)]);
    }
    find_program_address(&seeds, &ARCIUM_PROGRAM_ID)
}

/// Address of the orchestration program's fee pool.
pub fn derive_fee_pool_address() -> (r: Option<([u8; 32], u8)>)
    ensures
        r == program_address_of(seq![FEE_POOL_SEED@], ARCIUM_PROGRAM_ID@),
{
    let mut seeds: Vec<Vec<u8>> = Vec::new();
    seeds.push(slice_to_vec(FEE_POOL_SEED.as_slice()));
    proof {
        assert(seed_views(seeds@) =~= seq![FEE_POOL_SEED@]);
    }
    find_program_address(&seeds, &ARCIUM_PROGRAM_ID)
}

/// Address of the orchestration program's clock account.
pub fn derive_clock_address() -> (r: Option<([u8; 32], u8)>)
    ensures
        r == program_address_of(seq![CLOCK_SEED@], ARCIUM_PROGRAM_ID@),
{
    let mut seeds: Vec<Vec<u8>> = Vec::new();
    seeds.push(slice_to_vec(CLOCK_SEED.as_slice()));
    proof {
        assert(seed_views(seeds@) =~= seq![CLOCK_SEED@]);
    }
    find_program_address(&seeds, &ARCIUM_PROGRAM_ID)
}

} // verus!
