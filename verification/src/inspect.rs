//! Questions that can be asked of a store without changing it.

use crate::circuit::{
    artifact_key, spec_artifact_key, spec_invalid_selector_message, spec_parse_kind, ArtifactKind,
    CircuitKind,
};
use crate::backend::{scalar_views, ScalarBytes};
use crate::codec::{
    spec_bytes_section, spec_encode_instance, spec_encode_witness, spec_scalars_section,
};
use crate::error::{ErrorKind, ZkProofError};
use crate::store::{spec_load_failure, ArtifactStore, ArtifactStoreView, Slot, SlotView};
use crate::text::{hex, spec_hex};
use vstd::prelude::*;
use vstd::string::*;

verus! {

/// What asking for the shared commitment of `kind` is answered with: the
/// commitment of the stored instance in hexadecimal, or why the instance cannot
/// be loaded.
pub open spec fn spec_comm_w_shared(
    store: ArtifactStoreView,
    kind: CircuitKind,
) -> Result<Seq<char>, (ErrorKind, Seq<char>)> {
    match store.of(kind).instance {
        SlotView::Present { value } => Ok(spec_hex(value.comm_shared)),
        _ => Err(
            spec_load_failure(
                store.of(kind).instance,
                "instance"@,
                spec_artifact_key(kind, ArtifactKind::Instance),
            ).unwrap(),
        ),
    }
}

/// The class and message of a failure, or the text of a success.
pub open spec fn spec_text_outcome(
    outcome: Result<String, ZkProofError>,
) -> Result<Seq<char>, (ErrorKind, Seq<char>)> {
    match outcome {
        Ok(text) => Ok(text@),
        Err(e) => Err((e.spec_kind(), e.spec_message())),
    }
}

/// Reads the shared commitment from the stored instance of `kind` and encodes it
/// in lower-case hexadecimal. Fails with `FileNotFound` when there is no instance
/// and with `IoError` when the stored one is malformed.
pub fn extract_comm_w_shared(
    store: &ArtifactStore,
    kind: CircuitKind,
) -> (outcome: Result<String, ZkProofError>)
    ensures
        spec_text_outcome(outcome) == spec_comm_w_shared(store@, kind),
{
    match store.load_instance(kind) {
        Ok(instance) => Ok(hex(&instance.comm_shared)),
        Err(e) => Err(e),
    }
}

/// What [`get_comm_w_shared`] is answered with.
pub open spec fn spec_get_comm_w_shared(
    store: ArtifactStoreView,
    circuit_type: Seq<char>,
) -> Result<Seq<char>, (ErrorKind, Seq<char>)> {
    match spec_parse_kind(circuit_type) {
        Some(kind) => spec_comm_w_shared(store, kind),
        None => Err((ErrorKind::InvalidInput, spec_invalid_selector_message(circuit_type))),
    }
}

/// Returns the shared commitment of the circuit that `circuit_type` names, in
/// hexadecimal: the token by which a verifier links a Show proof to a Prepare
/// proof.
///
/// A selector other than `prepare` and `show` is rejected with `InvalidInput`,
/// whatever the store holds.
pub fn get_comm_w_shared(
    store: &ArtifactStore,
    circuit_type: String,
) -> (outcome: Result<String, ZkProofError>)
    ensures
        spec_text_outcome(outcome) == spec_get_comm_w_shared(store@, circuit_type@),
        spec_parse_kind(circuit_type@) is None ==> outcome is Err && outcome->Err_0.spec_kind()
            == ErrorKind::InvalidInput,
{
    match CircuitKind::parse(circuit_type.as_str()) {
        Ok(kind) => extract_comm_w_shared(store, kind),
        Err(e) => Err(e),
    }
}

/// A length as a `u64`, and `u64::MAX` if it is more than a `u64` holds.
pub open spec fn spec_saturated(len: nat) -> u64 {
    if len > u64::MAX {
        u64::MAX
    } else {
        len as u64
    }
}

/// The bytes that make up an artifact in its file: a key or a proof as the
/// backend encoded it, a witness or an instance in the encoding of
/// [`crate::codec`].
pub open spec fn spec_artifact_bytes(
    store: ArtifactStoreView,
    kind: CircuitKind,
    artifact: ArtifactKind,
) -> Option<Seq<u8>> {
    let artifacts = store.of(kind);
    match artifact {
        ArtifactKind::ProvingKey => match artifacts.proving_key {
            SlotView::Present { value } => Some(value),
            _ => None,
        },
        ArtifactKind::VerifyingKey => match artifacts.verifying_key {
            SlotView::Present { value } => Some(value),
            _ => None,
        },
        ArtifactKind::Proof => match artifacts.proof {
            SlotView::Present { value } => Some(value),
            _ => None,
        },
        ArtifactKind::Witness => match artifacts.witness {
            SlotView::Present { value } => Some(
                spec_encode_witness(scalar_views(value.shared), scalar_views(value.rest)),
            ),
            _ => None,
        },
        ArtifactKind::Instance => match artifacts.instance {
            SlotView::Present { value } => Some(
                spec_encode_instance(scalar_views(value.public_values), value.comm_shared),
            ),
            _ => None,
        },
    }
}

/// The size in bytes that is reported for an artifact: the length of its file,
/// that is of [`spec_artifact_bytes`].
pub open spec fn spec_artifact_size(
    store: ArtifactStoreView,
    kind: CircuitKind,
    artifact: ArtifactKind,
) -> Option<u64> {
    match spec_artifact_bytes(store, kind, artifact) {
        Some(bytes) => Some(spec_saturated(bytes.len())),
        None => None,
    }
}

/// The length of an encoded witness: four bytes that name it, four bytes for each
/// of its two counts, and 32 bytes for each scalar.
pub proof fn lemma_witness_length(shared: Seq<ScalarBytes>, rest: Seq<ScalarBytes>)
    ensures
        spec_encode_witness(scalar_views(shared), scalar_views(rest)).len() == 12 + 32 * (
        shared.len() + rest.len()),
{
    assert(scalar_views(shared).len() == shared.len());
    assert(scalar_views(rest).len() == rest.len());
    assert(spec_scalars_section(scalar_views(shared)).len() == 4 + 32 * shared.len());
    assert(spec_scalars_section(scalar_views(rest)).len() == 4 + 32 * rest.len());
}

/// The length of an encoded instance: four bytes that name it, four bytes for
/// each of its two counts, 32 bytes for each public value, and the commitment.
pub proof fn lemma_instance_length(public_values: Seq<ScalarBytes>, comm_shared: Seq<u8>)
    ensures
        spec_encode_instance(scalar_views(public_values), comm_shared).len() == 12 + 32
            * public_values.len() + comm_shared.len(),
{
    assert(scalar_views(public_values).len() == public_values.len());
    assert(spec_scalars_section(scalar_views(public_values)).len() == 4 + 32
        * public_values.len());
    assert(spec_bytes_section(comm_shared).len() == 4 + comm_shared.len());
}

/// The message of the failure that a size query on a missing artifact is answered with.
pub open spec fn spec_size_failure_message(key: Seq<char>) -> Seq<char> {
    "Failed to get proof size from '"@ + key + "': no such artifact"@
}

/// What [`get_proof_size`] is answered with: the size when the artifact is there,
/// else `FileNotFound`.
pub open spec fn spec_get_proof_size(
    store: ArtifactStoreView,
    kind: CircuitKind,
    artifact: ArtifactKind,
) -> Result<u64, (ErrorKind, Seq<char>)> {
    match spec_artifact_size(store, kind, artifact) {
        Some(size) => Ok(size),
        None => Err(
            (
                ErrorKind::FileNotFound,
                spec_size_failure_message(spec_artifact_key(kind, artifact)),
            ),
        ),
    }
}

/// The class and message of a failure, or the number of a success.
pub open spec fn spec_size_outcome(
    outcome: Result<u64, ZkProofError>,
) -> Result<u64, (ErrorKind, Seq<char>)> {
    match outcome {
        Ok(size) => Ok(size),
        Err(e) => Err((e.spec_kind(), e.spec_message())),
    }
}

/// Twelve bytes, 32 bytes for each of `scalars` scalars, and `bytes` bytes more,
/// saturating.
fn encoded_size(scalars_a: usize, scalars_b: usize, bytes: usize) -> (size: u64)
    ensures
        size == spec_saturated((12 + 32 * (scalars_a + scalars_b) + bytes) as nat),
{
    let total: u128 = 12 + 32 * (scalars_a as u128 + scalars_b as u128) + bytes as u128;
    if total > u64::MAX as u128 {
        u64::MAX
    } else {
        total as u64
    }
}

/// Returns the size in bytes of a stored artifact as it lies in its file, or
/// `FileNotFound` if it is not there or cannot be read.
pub fn get_proof_size(
    store: &ArtifactStore,
    kind: CircuitKind,
    artifact: ArtifactKind,
) -> (outcome: Result<u64, ZkProofError>)
    ensures
        spec_size_outcome(outcome) == spec_get_proof_size(store@, kind, artifact),
{
    let artifacts = store.artifacts(kind);
    let size = match artifact {
        ArtifactKind::ProvingKey => match &artifacts.proving_key {
            Slot::Present { value } => Some(value.len() as u64),
            _ => None,
        },
        ArtifactKind::VerifyingKey => match &artifacts.verifying_key {
            Slot::Present { value } => Some(value.len() as u64),
            _ => None,
        },
        ArtifactKind::Proof => match &artifacts.proof {
            Slot::Present { value } => Some(value.len() as u64),
            _ => None,
        },
        ArtifactKind::Witness => match &artifacts.witness {
            Slot::Present { value } => {
                proof {
                    lemma_witness_length(value@.shared, value@.rest);
                }
                Some(encoded_size(value.shared.len(), value.rest.len(), 0))
            },
            _ => None,
        },
        ArtifactKind::Instance => match &artifacts.instance {
            Slot::Present { value } => {
                proof {
                    lemma_instance_length(value@.public_values, value@.comm_shared);
                }
                Some(encoded_size(value.public_values.len(), 0, value.comm_shared.len()))
            },
            _ => None,
        },
    };
    match size {
        Some(size) => Ok(size),
        None => {
            let mut message = String::from_str("Failed to get proof size from '");
            message.append(artifact_key(kind, artifact));
            message.append("': no such artifact");
            Err(ZkProofError::FileNotFound { message })
        },
    }
}

} // verus!
