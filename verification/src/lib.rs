//! A lifecycle manager for two-phase anonymous-credential proofs.
//!
//! A *Prepare* proof binds an issued claim to a device key; a later *Show* proof
//! presents that binding without revealing the claim again. The two are linked by
//! a commitment to the witness values they share, computed under one set of
//! blinding scalars; everything else in a proof is randomized anew each time.
//!
//! The library keeps the artifacts of both circuits in an [`store::ArtifactStore`]
//! and decides
//!
//! - what each operation of the protocol makes of them ([`protocol`]) and what
//!   holds across operations ([`laws`]),
//! - how a complete run of both circuits proceeds ([`pipeline`]),
//! - how artifacts are encoded for their files ([`codec`]),
//! - where a circuit finds its inputs and what it reads from them
//!   ([`statement`], [`inputs`], [`wtns`]),
//! - how the working directory is borrowed for an operation ([`scope`]).
//!
//! The long-running work of the proving backend (key generation, proving,
//! verification) is the caller's, as is every access to files. The backend's
//! commitment primitives are called from here ([`backend`]).

use vstd::prelude::*;

pub mod backend;
pub mod circuit;
pub mod codec;
pub mod error;
pub mod inputs;
pub mod inspect;
pub mod laws;
pub mod pipeline;
pub mod protocol;
pub mod report;
pub mod scope;
pub mod statement;
pub mod store;
pub mod text;
pub mod wtns;

pub use crate::error::ZkProofError;
pub use crate::inspect::{extract_comm_w_shared, get_comm_w_shared, get_proof_size};
pub use crate::pipeline::run_complete_benchmark;
pub use crate::protocol::{
    generate_shared_blinds, prove_prepare, prove_show, reblind_prepare, reblind_show,
    setup_prepare_keys, setup_show_keys, verify_prepare, verify_show,
};
pub use crate::report::{BenchmarkResults, ProofResult};
pub use crate::scope::with_working_dir;
pub use crate::statement::{MobileJWTCircuit, PrepareCircuit, ShowCircuit};

verus! {

/// Returns the fixed greeting by which a host checks that the library is linked
/// and callable.
pub fn mopro_hello_world() -> (greeting: String)
    ensures
        greeting@ == "Hello, World!"@,
{
    "Hello, World!".to_string()
}

} // verus!
