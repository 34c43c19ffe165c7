//! The account bundles each instruction touches.
//!
//! The deployed program declares these as constraint-checked account
//! lists; the runtime resolves and verifies every address before the
//! handler runs. Here the same constraints stand as ordinary code: each
//! bundle's well-formedness predicate pins the derivable addresses to
//! their derivations, and `resolve` computes a bundle that satisfies it.

use vstd::prelude::*;
use crate::addresses::ARCIUM_PROGRAM_ID;
use crate::addresses::CLOCK_SEED;
use crate::addresses::CLUSTER_SEED;
use crate::addresses::COMPUTATION_SEED;
use crate::addresses::COMP_DEF_SEED;
use crate::addresses::EXECPOOL_SEED;
use crate::addresses::FEE_POOL_SEED;
use crate::addresses::MEMPOOL_SEED;
use crate::addresses::MXE_SEED;
use crate::addresses::PATIENT_DATA_SEED;
use crate::addresses::PROGRAM_ID;
use crate::addresses::SIGNER_DELEGATE_SEED;
use crate::addresses::comp_def_offset_of;
use crate::addresses::derive_clock_address;
use crate::addresses::derive_cluster_address;
use crate::addresses::derive_comp_def_address;
use crate::addresses::derive_computation_address;
use crate::addresses::derive_execpool_address;
use crate::addresses::derive_fee_pool_address;
use crate::addresses::derive_mempool_address;
use crate::addresses::derive_mxe_address;
use crate::addresses::derive_record_address;
use crate::addresses::derive_signer_delegate_address;
use crate::addresses::program_address_of;
use crate::addresses::share_patient_data_comp_def_offset;
use vstd::bytes::spec_u32_to_le_bytes;
use vstd::bytes::spec_u64_to_le_bytes;

verus! {

/// The system program's fixed identity: the all-zero key.
pub const SYSTEM_PROGRAM_ID: [u8; 32] = [
    0, 0, 0, 0, 0, 0, 0, 0, 0, 0, 0, 0, 0, 0, 0, 0, 0, 0, 0, 0, 0, 0, 0, 0, 0, 0, 0, 0, 0, 0, 0,
    0,
];

/// The instruction-introspection sysvar's fixed identity.
pub const INSTRUCTIONS_SYSVAR_ID: [u8; 32] = [
    6, 167, 213, 23, 24, 123, 209, 102, 53, 218, 212, 4, 85, 253, 194, 192, 193, 36, 198, 143, 33,
    86, 117, 165, 219, 186, 203, 95, 8, 0, 0, 0,
];

/// The accounts the record-store instruction touches.
pub struct StorePatientData {
    /// The owning identity, who signs and pays for the record account.
    pub payer: [u8; 32],
    /// The system program, which allocates the account.
    pub system_program: [u8; 32],
    /// The record account, at the address derived from the payer's key.
    pub patient_data: [u8; 32],
}

/// The record account stands at its derived address and the system
/// program is the real one.
pub open spec fn store_accounts_wf(a: StorePatientData) -> bool {
    &&& program_address_of(seq![PATIENT_DATA_SEED@, a.payer@], PROGRAM_ID@) matches Some(p)
        && p.0 == a.patient_data
    &&& a.system_program == SYSTEM_PROGRAM_ID
}

impl StorePatientData {
    /// Resolves the store instruction's accounts for `payer`. Resolution
    /// succeeds exactly when the record address's derivation is viable.
    pub fn resolve(payer: [u8; 32]) -> (r: Option<StorePatientData>)
        ensures
            r is Some <==> program_address_of(seq![PATIENT_DATA_SEED@, payer@], PROGRAM_ID@)
                is Some,
            r matches Some(a) ==> a.payer == payer && store_accounts_wf(a),
    {
        let (patient_data, _bump) = match derive_record_address(&payer) {
            Some(x) => x,
            None => {
                return None;
            },
        };
        Some(StorePatientData { payer, system_program: SYSTEM_PROGRAM_ID, patient_data })
    }
}

/// The accounts the dispatch instruction touches, one address per queue
/// participant.
pub struct SharePatientData {
    /// The dispatching identity, who signs and pays.
    pub payer: [u8; 32],
    /// The shared signer delegate.
    pub sign_pda_account: [u8; 32],
    /// This program's MPC execution environment account.
    pub mxe_account: [u8; 32],
    /// The cluster's mempool, where the request waits.
    pub mempool_account: [u8; 32],
    /// The cluster's executing pool.
    pub executing_pool: [u8; 32],
    /// The queue slot of this request, derived from the computation
    /// offset.
    pub computation_account: [u8; 32],
    /// The registered circuit definition.
    pub comp_def_account: [u8; 32],
    /// The executing cluster's account.
    pub cluster_account: [u8; 32],
    /// The orchestration program's fee pool.
    pub pool_account: [u8; 32],
    /// The orchestration program's clock account.
    pub clock_account: [u8; 32],
    /// The system program.
    pub system_program: [u8; 32],
    /// The orchestration program.
    pub arcium_program: [u8; 32],
    /// The record account whose payload the circuit reads.
    pub patient_data: [u8; 32],
}

/// Every derivable address stands at its derivation for the given cluster
/// and computation offsets, and the fixed identities are the real ones.
pub open spec fn share_accounts_wf(
    a: SharePatientData,
    cluster_offset: u32,
    computation_offset: u64,
) -> bool {
    &&& program_address_of(seq![SIGNER_DELEGATE_SEED@], PROGRAM_ID@) matches Some(p) && p.0
        == a.sign_pda_account
    &&& program_address_of(seq![MXE_SEED@, PROGRAM_ID@], ARCIUM_PROGRAM_ID@) matches Some(p)
        && p.0 == a.mxe_account
    &&& program_address_of(
        seq![MEMPOOL_SEED@, spec_u32_to_le_bytes(cluster_offset)],
        ARCIUM_PROGRAM_ID@,
    ) matches Some(p) && p.0 == a.mempool_account
    &&& program_address_of(
        seq![EXECPOOL_SEED@, spec_u32_to_le_bytes(cluster_offset)],
        ARCIUM_PROGRAM_ID@,
    ) matches Some(p) && p.0 == a.executing_pool
    &&& program_address_of(
        seq![
            COMPUTATION_SEED@,
            spec_u32_to_le_bytes(cluster_offset),
            spec_u64_to_le_bytes(computation_offset),
        ],
        ARCIUM_PROGRAM_ID@,
    ) matches Some(p) && p.0 == a.computation_account
    &&& program_address_of(
        seq![
            COMP_DEF_SEED@,
            PROGRAM_ID@,
            spec_u32_to_le_bytes(comp_def_offset_of("share_patient_data"@)),
        ],
        ARCIUM_PROGRAM_ID@,
    ) matches Some(p) && p.0 == a.comp_def_account
    &&& program_address_of(
        seq![CLUSTER_SEED@, spec_u32_to_le_bytes(cluster_offset)],
        ARCIUM_PROGRAM_ID@,
    ) matches Some(p) && p.0 == a.cluster_account
    &&& program_address_of(seq![FEE_POOL_SEED@], ARCIUM_PROGRAM_ID@) matches Some(p) && p.0
        == a.pool_account
    &&& program_address_of(seq![CLOCK_SEED@], ARCIUM_PROGRAM_ID@) matches Some(p) && p.0
        == a.clock_account
    &&& a.system_program == SYSTEM_PROGRAM_ID
    &&& a.arcium_program == ARCIUM_PROGRAM_ID
}

/// Every address the dispatch instruction needs has a viable derivation
/// for the given cluster and computation offsets.
pub open spec fn share_accounts_derivable(cluster_offset: u32, computation_offset: u64) -> bool {
    &&& program_address_of(seq![SIGNER_DELEGATE_SEED@], PROGRAM_ID@) is Some
    &&& program_address_of(seq![MXE_SEED@, PROGRAM_ID@], ARCIUM_PROGRAM_ID@) is Some
    &&& program_address_of(
        seq![MEMPOOL_SEED@, spec_u32_to_le_bytes(cluster_offset)],
        ARCIUM_PROGRAM_ID@,
    ) is Some
    &&& program_address_of(
        seq![EXECPOOL_SEED@, spec_u32_to_le_bytes(cluster_offset)],
        ARCIUM_PROGRAM_ID@,
    ) is Some
    &&& program_address_of(
        seq![
            COMPUTATION_SEED@,
            spec_u32_to_le_bytes(cluster_offset),
            spec_u64_to_le_bytes(computation_offset),
        ],
        ARCIUM_PROGRAM_ID@,
    ) is Some
    &&& program_address_of(
        seq![
            COMP_DEF_SEED@,
            PROGRAM_ID@,
            spec_u32_to_le_bytes(comp_def_offset_of("share_patient_data"@)),
        ],
        ARCIUM_PROGRAM_ID@,
    ) is Some
    &&& program_address_of(
        seq![CLUSTER_SEED@, spec_u32_to_le_bytes(cluster_offset)],
        ARCIUM_PROGRAM_ID@,
    ) is Some
    &&& program_address_of(seq![FEE_POOL_SEED@], ARCIUM_PROGRAM_ID@) is Some
    &&& program_address_of(seq![CLOCK_SEED@], ARCIUM_PROGRAM_ID@) is Some
}

impl SharePatientData {
    /// Resolves the dispatch instruction's accounts: the queue slot from
    /// the computation offset, the pools from the cluster's offset, the
    /// definition from the circuit name, and the record account as
    /// handed in. Resolution succeeds exactly when every derivation is
    /// viable.
    pub fn resolve(
        payer: [u8; 32],
        cluster_offset: u32,
        computation_offset: u64,
        patient_data: [u8; 32],
    ) -> (r: Option<SharePatientData>)
        ensures
            r is Some <==> share_accounts_derivable(cluster_offset, computation_offset),
            r matches Some(a) ==> a.payer == payer && a.patient_data == patient_data
                && share_accounts_wf(a, cluster_offset, computation_offset),
    {
        let (sign_pda_account, _) = match derive_signer_delegate_address() {
            Some(x) => x,
            None => {
                return None;
            },
        };
        let (mxe_account, _) = match derive_mxe_address() {
            Some(x) => x,
            None => {
                return None;
            },
        };
        let (mempool_account, _) = match derive_mempool_address(cluster_offset) {
            Some(x) => x,
            None => {
                return None;
            },
        };
        let (executing_pool, _) = match derive_execpool_address(cluster_offset) {
            Some(x) => x,
            None => {
                return None;
            },
        };
        let (computation_account, _) = match derive_computation_address(
            cluster_offset,
            computation_offset,
        ) {
            Some(x) => x,
            None => {
                return None;
            },
        };
        let (comp_def_account, _) = match derive_comp_def_address(
            share_patient_data_comp_def_offset(),
        ) {
            Some(x) => x,
            None => {
                return None;
            },
        };
        let (cluster_account, _) = match derive_cluster_address(cluster_offset) {
            Some(x) => x,
            None => {
                return None;
            },
        };
        let (pool_account, _) = match derive_fee_pool_address() {
            Some(x) => x,
            None => {
                return None;
            },
        };
        let (clock_account, _) = match derive_clock_address() {
            Some(x) => x,
            None => {
                return None;
            },
        };
        Some(
            SharePatientData {
                payer,
                sign_pda_account,
                mxe_account,
                mempool_account,
                executing_pool,
                computation_account,
                comp_def_account,
                cluster_account,
                pool_account,
                clock_account,
                system_program: SYSTEM_PROGRAM_ID,
                arcium_program: ARCIUM_PROGRAM_ID,
                patient_data,
            },
        )
    }
}

/// The accounts the callback instruction touches.
pub struct SharePatientDataCallback {
    /// The orchestration program, the only caller allowed to resolve a
    /// request.
    pub arcium_program: [u8; 32],
    /// The registered circuit definition the result answers.
    pub comp_def_account: [u8; 32],
    /// The instruction-introspection sysvar the runtime checks the
    /// caller against.
    pub instructions_sysvar: [u8; 32],
}

/// The definition stands at its derived address and the fixed identities
/// are the real ones.
pub open spec fn callback_accounts_wf(a: SharePatientDataCallback) -> bool {
    &&& program_address_of(
        seq![
            COMP_DEF_SEED@,
            PROGRAM_ID@,
            spec_u32_to_le_bytes(comp_def_offset_of("share_patient_data"@)),
        ],
        ARCIUM_PROGRAM_ID@,
    ) matches Some(p) && p.0 == a.comp_def_account
    &&& a.arcium_program == ARCIUM_PROGRAM_ID
    &&& a.instructions_sysvar == INSTRUCTIONS_SYSVAR_ID
}

/// The circuit definition's address has a viable derivation.
pub open spec fn comp_def_derivable() -> bool {
    program_address_of(
        seq![
            COMP_DEF_SEED@,
            PROGRAM_ID@,
            spec_u32_to_le_bytes(comp_def_offset_of("share_patient_data"@)),
        ],
        ARCIUM_PROGRAM_ID@,
    ) is Some
}

impl SharePatientDataCallback {
    /// Resolves the callback instruction's accounts. Resolution succeeds
    /// exactly when the definition's derivation is viable.
    pub fn resolve() -> (r: Option<SharePatientDataCallback>)
        ensures
            r is Some <==> comp_def_derivable(),
            r matches Some(a) ==> callback_accounts_wf(a),
    {
        let (comp_def_account, _) = match derive_comp_def_address(
            share_patient_data_comp_def_offset(),
        ) {
            Some(x) => x,
            None => {
                return None;
            },
        };
        Some(
            SharePatientDataCallback {
                arcium_program: ARCIUM_PROGRAM_ID,
                comp_def_account,
                instructions_sysvar: INSTRUCTIONS_SYSVAR_ID,
            },
        )
    }
}

/// The accounts the registration instruction touches.
pub struct InitSharePatientDataCompDef {
    /// The registering identity, who signs and pays.
    pub payer: [u8; 32],
    /// This program's MPC execution environment account.
    pub mxe_account: [u8; 32],
    /// The definition account about to be created; its address is only
    /// checked by the orchestration program on creation.
    pub comp_def_account: [u8; 32],
    /// The orchestration program.
    pub arcium_program: [u8; 32],
    /// The system program.
    pub system_program: [u8; 32],
}

/// The environment account and the definition stand at their derived
/// addresses and the fixed identities are the real ones.
pub open spec fn init_comp_def_accounts_wf(a: InitSharePatientDataCompDef) -> bool {
    &&& program_address_of(seq![MXE_SEED@, PROGRAM_ID@], ARCIUM_PROGRAM_ID@) matches Some(p)
        && p.0 == a.mxe_account
    &&& program_address_of(
        seq![
            COMP_DEF_SEED@,
            PROGRAM_ID@,
            spec_u32_to_le_bytes(comp_def_offset_of("share_patient_data"@)),
        ],
        ARCIUM_PROGRAM_ID@,
    ) matches Some(p) && p.0 == a.comp_def_account
    &&& a.arcium_program == ARCIUM_PROGRAM_ID
    &&& a.system_program == SYSTEM_PROGRAM_ID
}

/// Every address the registration instruction needs has a viable
/// derivation.
pub open spec fn init_comp_def_accounts_derivable() -> bool {
    &&& program_address_of(seq![MXE_SEED@, PROGRAM_ID@], ARCIUM_PROGRAM_ID@) is Some
    &&& comp_def_derivable()
}

impl InitSharePatientDataCompDef {
    /// Resolves the registration instruction's accounts for `payer`.
    /// Resolution succeeds exactly when every derivation is viable.
    pub fn resolve(payer: [u8; 32]) -> (r: Option<InitSharePatientDataCompDef>)
        ensures
            r is Some <==> init_comp_def_accounts_derivable(),
            r matches Some(a) ==> a.payer == payer && init_comp_def_accounts_wf(a),
    {
        let (mxe_account, _) = match derive_mxe_address() {
            Some(x) => x,
            None => {
                return None;
            },
        };
        let (comp_def_account, _) = match derive_comp_def_address(
            share_patient_data_comp_def_offset(),
        ) {
            Some(x) => x,
            None => {
                return None;
            },
        };
        Some(
            InitSharePatientDataCompDef {
                payer,
                mxe_account,
                comp_def_account,
                arcium_program: ARCIUM_PROGRAM_ID,
                system_program: SYSTEM_PROGRAM_ID,
            },
        )
    }
}

} // verus!
