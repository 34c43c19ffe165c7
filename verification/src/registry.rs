//! The computation-definition registry.
//!
//! A circuit is registered at most once, under an offset derived from its
//! name; registration binds the name to an executable source descriptor
//! and is immutable afterwards.

use vstd::prelude::*;
use crate::addresses::comp_def_offset_of;
use crate::addresses::share_patient_data_comp_def_offset;
use crate::types::LedgerError;

verus! {

/// Where a circuit's executable source lives.
pub enum CircuitSource {
    /// Bytecode stored on the ledger itself.
    OnChain(Vec<u8>),
    /// A URL the cluster fetches the circuit from, with the digest the
    /// fetched bytes must match.
    OffChain { url: String, hash: [u8; 32] },
}

/// One registered circuit definition; immutable after creation.
pub struct ComputationDefinition {
    /// The offset derived from the circuit's name.
    pub offset: u32,
    /// Whether the definition was finalized as part of registration.
    pub finalize_on_init: bool,
    /// The cluster-side finality delay for results of this circuit.
    pub finality_delay: u32,
    /// The circuit's executable source descriptor.
    pub source: CircuitSource,
}

/// Whether a definition is already registered under `offset`.
pub open spec fn has_comp_def(defs: Seq<ComputationDefinition>, offset: u32) -> bool {
    exists|i: int| 0 <= i < defs.len() && defs[i].offset == offset
}

/// A successful registration under `offset`: one definition appended,
/// every earlier definition untouched.
pub open spec fn register_transition(
    pre: Seq<ComputationDefinition>,
    post: Seq<ComputationDefinition>,
    offset: u32,
) -> bool {
    &&& post.len() == pre.len() + 1
    &&& forall|i: int| 0 <= i < pre.len() ==> post[i] == pre[i]
    &&& post.last().offset == offset
}

/// The registry of circuit definitions, modelling the ledger's
/// computation-definition accounts.
pub struct CompDefRegistry {
    defs: Vec<ComputationDefinition>,
}

impl View for CompDefRegistry {
    type V = Seq<ComputationDefinition>;

    closed spec fn view(&self) -> Seq<ComputationDefinition> {
        self.defs@
    }
}

impl CompDefRegistry {
    /// An empty registry.
    pub fn new() -> (r: CompDefRegistry)
        ensures
            r@ == Seq::<ComputationDefinition>::empty(),
    {
        CompDefRegistry { defs: Vec::new() }
    }

    /// Whether a definition is registered under `offset`.
    pub fn contains_offset(&self, offset: u32) -> (r: bool)
        ensures
            r == has_comp_def(self@, offset),
    {
        let mut i: usize = 0;
        while i < self.defs.len()
            invariant
                i <= self@.len(),
                forall|j: int| 0 <= j < i ==> self@[j].offset != offset,
            decreases self@.len() - i,
        {
            if self.defs[i].offset == offset {
                return true;
            }
            i += 1;
        }
        false
    }
}

/// Registers the `"share_patient_data"` re-encryption circuit, once.
///
/// The definition binds the circuit name's derived offset to an off-chain
/// source descriptor and is finalized immediately, with no finality delay.
/// A second registration fails with `AlreadyInitialized` and leaves the
/// registry unchanged. The source's integrity hash is a zero placeholder:
/// the cluster has no way to check the fetched circuit against it, a known
/// limitation of the current design, kept deliberately.
pub fn init_share_patient_data_comp_def(registry: &mut CompDefRegistry) -> (r: Result<
    (),
    LedgerError,
>)
    ensures
        r is Ok <==> !has_comp_def(old(registry)@, comp_def_offset_of("share_patient_data"@)),
        r is Err ==> final(registry)@ == old(registry)@ && r == Err::<(), LedgerError>(
            LedgerError::AlreadyInitialized,
        ),
        r is Ok ==> {
            &&& register_transition(
                old(registry)@,
                final(registry)@,
                comp_def_offset_of("share_patient_data"@),
            )
            &&& final(registry)@.last().finalize_on_init == true
            &&& final(registry)@.last().finality_delay == 0
            &&& final(registry)@.last().source matches CircuitSource::OffChain { url, hash }
                && url@ == "https://your-storage.com/share_patient_data_testnet.arcis"@
                && hash@ == Seq::new(32, |i: int| 0u8)
        },
{
    let offset = share_patient_data_comp_def_offset();
    if registry.contains_offset(offset) {
        return Err(LedgerError::AlreadyInitialized);
    }
    let url = "https://your-storage.com/share_patient_data_testnet.arcis".to_owned();
    // Zero placeholder: circuit-hash integrity is not enforced yet.
    let hash = [0u8; 32];
    proof {
        assert(hash@ =~= Seq::new(32, |i: int| 0u8));
    }
    let def = ComputationDefinition {
        offset,
        finalize_on_init: true,
        finality_delay: 0,
        source: CircuitSource::OffChain { url, hash },
    };
    registry.defs.push(def);
    Ok(())
}

} // verus!
