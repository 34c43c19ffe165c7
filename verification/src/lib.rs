//! Confidential medical-record sharing over a ledger-mediated MPC queue.
//!
//! A party stores a medical record in encrypted form (every field an opaque
//! 32-byte ciphertext) and later triggers a re-encryption of that record for
//! a designated recipient, performed by an external multi-party-computation
//! cluster. This crate holds the verified core: the encrypted record store,
//! the one-time circuit-definition registry, the computation dispatcher that
//! snapshots the circuit arguments and queues a request, and the callback
//! verifier that turns a cluster result into a public event. The ledger
//! runtime and the cluster itself are external collaborators, reached only
//! through the trusted address-derivation calls declared in `addresses`.

pub mod accounts;
pub mod addresses;
pub mod callback;
pub mod dispatch;
pub mod laws;
pub mod registry;
pub mod store;
pub mod types;
