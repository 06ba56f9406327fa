//! The artifact store: what is kept for each circuit between operations.
//!
//! The store is a value. An application that persists artifacts fills it from its
//! files before an operation and writes it back afterwards; the keys under which
//! the artifacts live are those of [`crate::circuit::artifact_key`].

use crate::backend::ScalarBytes;
use crate::circuit::{
    artifact_key, shared_blinds_key, spec_artifact_key, spec_shared_blinds_key, ArtifactKind,
    CircuitKind,
};
use crate::error::{ErrorKind, ZkProofError};
use vstd::prelude::*;
use vstd::string::*;

verus! {

/// The public output of a proving operation.
#[derive(Debug)]
pub struct Instance {
    /// The values that the circuit makes public.
    pub public_values: Vec<ScalarBytes>,
    /// The commitment to the shared witness values, in the backend's encoding.
    pub comm_shared: Vec<u8>,
}

/// The mathematical content of an [`Instance`].
pub struct InstanceView {
    pub public_values: Seq<ScalarBytes>,
    pub comm_shared: Seq<u8>,
}

impl View for Instance {
    type V = InstanceView;

    open spec fn view(&self) -> InstanceView {
        InstanceView { public_values: self.public_values@, comm_shared: self.comm_shared@ }
    }
}

/// The private assignment of a circuit: the values it shares with the other
/// circuit, then all the others.
#[derive(Debug)]
pub struct Witness {
    /// The values that both circuits must commit to identically.
    pub shared: Vec<ScalarBytes>,
    /// The rest of the assignment.
    pub rest: Vec<ScalarBytes>,
}

/// The mathematical content of a [`Witness`].
pub struct WitnessView {
    pub shared: Seq<ScalarBytes>,
    pub rest: Seq<ScalarBytes>,
}

impl View for Witness {
    type V = WitnessView;

    open spec fn view(&self) -> WitnessView {
        WitnessView { shared: self.shared@, rest: self.rest@ }
    }
}

/// One place in the store.
#[derive(Debug)]
pub enum Slot<T> {
    /// Nothing has been saved here.
    Absent,
    /// Something was saved here, but its bytes could not be decoded.
    Malformed { reason: String },
    /// The artifact.
    Present { value: T },
}

/// The mathematical content of a [`Slot`].
pub enum SlotView<V> {
    Absent,
    Malformed { reason: Seq<char> },
    Present { value: V },
}

impl<T: View> View for Slot<T> {
    type V = SlotView<T::V>;

    open spec fn view(&self) -> SlotView<T::V> {
        match self {
            Slot::Absent => SlotView::Absent,
            Slot::Malformed { reason } => SlotView::Malformed { reason: reason@ },
            Slot::Present { value } => SlotView::Present { value: value@ },
        }
    }
}

/// The message of the failure that a loader answers an absent artifact with.
pub open spec fn spec_absent_message(what: Seq<char>, key: Seq<char>) -> Seq<char> {
    "Failed to load "@ + what + " from '"@ + key + "': no such artifact"@
}

/// The message of the failure that a loader answers a malformed artifact with.
pub open spec fn spec_malformed_message(what: Seq<char>, key: Seq<char>, reason: Seq<char>) -> Seq<
    char,
> {
    "Failed to decode "@ + what + " from '"@ + key + "': "@ + reason
}

/// What a loader reports for a slot that holds no usable artifact: `FileNotFound`
/// for an absent one, `IoError` for a malformed one.
pub open spec fn spec_load_failure<V>(slot: SlotView<V>, what: Seq<char>, key: Seq<char>) -> Option<
    (ErrorKind, Seq<char>),
> {
    match slot {
        SlotView::Absent => Some((ErrorKind::FileNotFound, spec_absent_message(what, key))),
        SlotView::Malformed { reason } => Some(
            (ErrorKind::IoError, spec_malformed_message(what, key, reason)),
        ),
        SlotView::Present { .. } => None,
    }
}

impl<T: View> Slot<T> {
    /// Reads the slot as a loader does: the artifact if it is there, else the
    /// failure that says why it is not. `what` names the artifact in the message
    /// and `key` is the key that it is kept under.
    pub fn load(&self, what: &str, key: &str) -> (loaded: Result<&T, ZkProofError>)
        ensures
            match loaded {
                Ok(value) => self@ == (SlotView::Present { value: value@ }) && *self == (
                Slot::Present { value: *value }),
                Err(e) => spec_load_failure(self@, what@, key@) == Some(
                    (e.spec_kind(), e.spec_message()),
                ),
            },
    {
        match self {
            Slot::Present { value } => Ok(value),
            Slot::Absent => {
                let mut message = String::from_str("Failed to load ");
                message.append(what);
                message.append(" from '");
                message.append(key);
                message.append("': no such artifact");
                Err(ZkProofError::FileNotFound { message })
            },
            Slot::Malformed { reason } => {
                let mut message = String::from_str("Failed to decode ");
                message.append(what);
                message.append(" from '");
                message.append(key);
                message.append("': ");
                message.append(reason.as_str());
                Err(ZkProofError::IoError { message })
            },
        }
    }
}

/// Where a circuit stands in its lifecycle.
#[derive(Clone, Copy, Debug, PartialEq, Eq, Structural)]
pub enum Phase {
    /// No keys have been set up.
    Unset,
    /// Keys exist; nothing has been proved with them yet.
    KeysReady,
    /// The last operation produced a proof from the circuit's inputs.
    Proved,
    /// The last operation produced a fresh proof from the stored witness.
    Reblinded,
    /// The last operation verified the stored proof.
    Verified,
}

/// What the store keeps for one circuit.
#[derive(Debug)]
pub struct CircuitArtifacts {
    pub proving_key: Slot<Vec<u8>>,
    pub verifying_key: Slot<Vec<u8>>,
    pub instance: Slot<Instance>,
    pub witness: Slot<Witness>,
    pub proof: Slot<Vec<u8>>,
    pub phase: Phase,
}

/// The mathematical content of a [`CircuitArtifacts`].
pub struct CircuitArtifactsView {
    pub proving_key: SlotView<Seq<u8>>,
    pub verifying_key: SlotView<Seq<u8>>,
    pub instance: SlotView<InstanceView>,
    pub witness: SlotView<WitnessView>,
    pub proof: SlotView<Seq<u8>>,
    pub phase: Phase,
}

impl View for CircuitArtifacts {
    type V = CircuitArtifactsView;

    open spec fn view(&self) -> CircuitArtifactsView {
        CircuitArtifactsView {
            proving_key: self.proving_key@,
            verifying_key: self.verifying_key@,
            instance: self.instance@,
            witness: self.witness@,
            proof: self.proof@,
            phase: self.phase,
        }
    }
}

impl CircuitArtifactsView {
    /// The artifacts of a circuit for which nothing has been done.
    pub open spec fn empty() -> CircuitArtifactsView {
        CircuitArtifactsView {
            proving_key: SlotView::Absent,
            verifying_key: SlotView::Absent,
            instance: SlotView::Absent,
            witness: SlotView::Absent,
            proof: SlotView::Absent,
            phase: Phase::Unset,
        }
    }
}

/// The artifacts of both circuits and the blinding scalars that they share.
#[derive(Debug)]
pub struct ArtifactStore {
    /// The documents root that the artifacts' keys are relative to.
    pub documents_path: String,
    pub prepare: CircuitArtifacts,
    pub show: CircuitArtifacts,
    /// One blinding scalar for each row of the shared commitment.
    pub shared_blinds: Slot<Vec<ScalarBytes>>,
}

/// The mathematical content of an [`ArtifactStore`].
pub struct ArtifactStoreView {
    pub documents_path: Seq<char>,
    pub prepare: CircuitArtifactsView,
    pub show: CircuitArtifactsView,
    pub shared_blinds: SlotView<Seq<ScalarBytes>>,
}

impl View for ArtifactStore {
    type V = ArtifactStoreView;

    open spec fn view(&self) -> ArtifactStoreView {
        ArtifactStoreView {
            documents_path: self.documents_path@,
            prepare: self.prepare@,
            show: self.show@,
            shared_blinds: self.shared_blinds@,
        }
    }
}

impl ArtifactStoreView {
    /// The store of a documents root in which nothing has been saved.
    pub open spec fn empty(documents_path: Seq<char>) -> ArtifactStoreView {
        ArtifactStoreView {
            documents_path,
            prepare: CircuitArtifactsView::empty(),
            show: CircuitArtifactsView::empty(),
            shared_blinds: SlotView::Absent,
        }
    }

    /// What the store keeps for `kind`.
    pub open spec fn of(self, kind: CircuitKind) -> CircuitArtifactsView {
        match kind {
            CircuitKind::Prepare => self.prepare,
            CircuitKind::Show => self.show,
        }
    }

    /// The store with the artifacts of `kind` replaced.
    pub open spec fn with(
        self,
        kind: CircuitKind,
        artifacts: CircuitArtifactsView,
    ) -> ArtifactStoreView {
        match kind {
            CircuitKind::Prepare => ArtifactStoreView { prepare: artifacts, ..self },
            CircuitKind::Show => ArtifactStoreView { show: artifacts, ..self },
        }
    }

    /// The store with the shared blinding scalars replaced.
    pub open spec fn with_blinds(self, blinds: Seq<ScalarBytes>) -> ArtifactStoreView {
        ArtifactStoreView { shared_blinds: SlotView::Present { value: blinds }, ..self }
    }
}

impl ArtifactStore {
    /// The store of a documents root in which nothing has been saved yet.
    pub fn new(documents_path: String) -> (store: ArtifactStore)
        ensures
            store@ == ArtifactStoreView::empty(documents_path@),
    {
        ArtifactStore {
            documents_path,
            prepare: CircuitArtifacts {
                proving_key: Slot::Absent,
                verifying_key: Slot::Absent,
                instance: Slot::Absent,
                witness: Slot::Absent,
                proof: Slot::Absent,
                phase: Phase::Unset,
            },
            show: CircuitArtifacts {
                proving_key: Slot::Absent,
                verifying_key: Slot::Absent,
                instance: Slot::Absent,
                witness: Slot::Absent,
                proof: Slot::Absent,
                phase: Phase::Unset,
            },
            shared_blinds: Slot::Absent,
        }
    }

    /// What the store keeps for `kind`.
    pub fn artifacts(&self, kind: CircuitKind) -> (artifacts: &CircuitArtifacts)
        ensures
            artifacts@ == self@.of(kind),
    {
        match kind {
            CircuitKind::Prepare => &self.prepare,
            CircuitKind::Show => &self.show,
        }
    }

    /// Where `kind` stands in its lifecycle.
    pub fn phase(&self, kind: CircuitKind) -> (phase: Phase)
        ensures
            phase == self@.of(kind).phase,
    {
        self.artifacts(kind).phase
    }

    /// Loads the proving key of `kind`.
    pub fn load_proving_key(&self, kind: CircuitKind) -> (loaded: Result<&Vec<u8>, ZkProofError>)
        ensures
            match loaded {
                Ok(key) => self@.of(kind).proving_key == (SlotView::Present { value: key@ }),
                Err(e) => spec_load_failure(
                    self@.of(kind).proving_key,
                    "proving key"@,
                    spec_artifact_key(kind, ArtifactKind::ProvingKey),
                ) == Some((e.spec_kind(), e.spec_message())),
            },
    {
        self.artifacts(kind).proving_key.load(
            "proving key",
            artifact_key(kind, ArtifactKind::ProvingKey),
        )
    }

    /// Loads the verifying key of `kind`.
    pub fn load_verifying_key(&self, kind: CircuitKind) -> (loaded: Result<&Vec<u8>, ZkProofError>)
        ensures
            match loaded {
                Ok(key) => self@.of(kind).verifying_key == (SlotView::Present { value: key@ }),
                Err(e) => spec_load_failure(
                    self@.of(kind).verifying_key,
                    "verifying key"@,
                    spec_artifact_key(kind, ArtifactKind::VerifyingKey),
                ) == Some((e.spec_kind(), e.spec_message())),
            },
    {
        self.artifacts(kind).verifying_key.load(
            "verifying key",
            artifact_key(kind, ArtifactKind::VerifyingKey),
        )
    }

    /// Loads the instance of `kind`.
    pub fn load_instance(&self, kind: CircuitKind) -> (loaded: Result<&Instance, ZkProofError>)
        ensures
            match loaded {
                Ok(instance) => self@.of(kind).instance == (SlotView::Present { value: instance@ }),
                Err(e) => spec_load_failure(
                    self@.of(kind).instance,
                    "instance"@,
                    spec_artifact_key(kind, ArtifactKind::Instance),
                ) == Some((e.spec_kind(), e.spec_message())),
            },
    {
        self.artifacts(kind).instance.load("instance", artifact_key(kind, ArtifactKind::Instance))
    }

    /// Loads the witness of `kind`.
    pub fn load_witness(&self, kind: CircuitKind) -> (loaded: Result<&Witness, ZkProofError>)
        ensures
            match loaded {
                Ok(witness) => self@.of(kind).witness == (SlotView::Present { value: witness@ }),
                Err(e) => spec_load_failure(
                    self@.of(kind).witness,
                    "witness"@,
                    spec_artifact_key(kind, ArtifactKind::Witness),
                ) == Some((e.spec_kind(), e.spec_message())),
            },
    {
        self.artifacts(kind).witness.load("witness", artifact_key(kind, ArtifactKind::Witness))
    }

    /// Loads the proof of `kind`.
    pub fn load_proof(&self, kind: CircuitKind) -> (loaded: Result<&Vec<u8>, ZkProofError>)
        ensures
            match loaded {
                Ok(proof) => self@.of(kind).proof == (SlotView::Present { value: proof@ }),
                Err(e) => spec_load_failure(
                    self@.of(kind).proof,
                    "proof"@,
                    spec_artifact_key(kind, ArtifactKind::Proof),
                ) == Some((e.spec_kind(), e.spec_message())),
            },
    {
        self.artifacts(kind).proof.load("proof", artifact_key(kind, ArtifactKind::Proof))
    }

    /// Loads the shared blinding scalars.
    pub fn load_shared_blinds(&self) -> (loaded: Result<&Vec<ScalarBytes>, ZkProofError>)
        ensures
            match loaded {
                Ok(blinds) => self@.shared_blinds == (SlotView::Present { value: blinds@ }),
                Err(e) => spec_load_failure(
                    self@.shared_blinds,
                    "shared blinds"@,
                    spec_shared_blinds_key(),
                ) == Some((e.spec_kind(), e.spec_message())),
            },
    {
        self.shared_blinds.load("shared blinds", shared_blinds_key())
    }
}

} // verus!
