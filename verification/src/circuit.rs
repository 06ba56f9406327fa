//! The two circuit statements of the protocol and the names under which their
//! artifacts are kept.

use crate::error::{ErrorKind, ZkProofError};
use vstd::prelude::*;
use vstd::string::*;

verus! {

/// The phase of the protocol that a circuit statement belongs to.
#[derive(Clone, Copy, Debug, PartialEq, Eq, Structural)]
pub enum CircuitKind {
    /// Proves possession of an issued claim bound to a device key.
    Prepare,
    /// Presents that binding later, without revealing the claim again.
    Show,
}

/// The kinds of artifact that are kept for each circuit.
#[derive(Clone, Copy, Debug, PartialEq, Eq, Structural)]
pub enum ArtifactKind {
    ProvingKey,
    VerifyingKey,
    Instance,
    Witness,
    Proof,
}

/// The key under which an artifact of a circuit is kept, relative to the documents root.
pub open spec fn spec_artifact_key(kind: CircuitKind, artifact: ArtifactKind) -> Seq<char> {
    match (kind, artifact) {
        (CircuitKind::Prepare, ArtifactKind::ProvingKey) => "keys/prepare_proving.key"@,
        (CircuitKind::Prepare, ArtifactKind::VerifyingKey) => "keys/prepare_verifying.key"@,
        (CircuitKind::Prepare, ArtifactKind::Instance) => "keys/prepare_instance.bin"@,
        (CircuitKind::Prepare, ArtifactKind::Witness) => "keys/prepare_witness.bin"@,
        (CircuitKind::Prepare, ArtifactKind::Proof) => "keys/prepare_proof.bin"@,
        (CircuitKind::Show, ArtifactKind::ProvingKey) => "keys/show_proving.key"@,
        (CircuitKind::Show, ArtifactKind::VerifyingKey) => "keys/show_verifying.key"@,
        (CircuitKind::Show, ArtifactKind::Instance) => "keys/show_instance.bin"@,
        (CircuitKind::Show, ArtifactKind::Witness) => "keys/show_witness.bin"@,
        (CircuitKind::Show, ArtifactKind::Proof) => "keys/show_proof.bin"@,
    }
}

/// The key under which the shared blinding scalars are kept.
pub open spec fn spec_shared_blinds_key() -> Seq<char> {
    "keys/shared_blinds.bin"@
}

/// The key under which an artifact of a circuit is kept, relative to the documents root.
pub fn artifact_key(kind: CircuitKind, artifact: ArtifactKind) -> (key: &'static str)
    ensures
        key@ == spec_artifact_key(kind, artifact),
{
    match kind {
        CircuitKind::Prepare => match artifact {
            ArtifactKind::ProvingKey => "keys/prepare_proving.key",
            ArtifactKind::VerifyingKey => "keys/prepare_verifying.key",
            ArtifactKind::Instance => "keys/prepare_instance.bin",
            ArtifactKind::Witness => "keys/prepare_witness.bin",
            ArtifactKind::Proof => "keys/prepare_proof.bin",
        },
        CircuitKind::Show => match artifact {
            ArtifactKind::ProvingKey => "keys/show_proving.key",
            ArtifactKind::VerifyingKey => "keys/show_verifying.key",
            ArtifactKind::Instance => "keys/show_instance.bin",
            ArtifactKind::Witness => "keys/show_witness.bin",
            ArtifactKind::Proof => "keys/show_proof.bin",
        },
    }
}

/// The key under which the shared blinding scalars are kept.
pub fn shared_blinds_key() -> (key: &'static str)
    ensures
        key@ == spec_shared_blinds_key(),
{
    "keys/shared_blinds.bin"
}

/// The place of an artifact below a documents root: the root, a slash, the key.
pub open spec fn spec_artifact_path(root: Seq<char>, key: Seq<char>) -> Seq<char> {
    root + "/"@ + key
}

/// Resolves an artifact key against a documents root. The result depends on the
/// two arguments alone, so operations on different roots never interfere.
pub fn artifact_path(root: &str, key: &str) -> (path: String)
    ensures
        path@ == spec_artifact_path(root@, key@),
{
    let mut path = String::from_str(root);
    path.append("/");
    path.append(key);
    path
}

/// The circuit that a selector names, if it names one.
pub open spec fn spec_parse_kind(selector: Seq<char>) -> Option<CircuitKind> {
    if selector == "prepare"@ {
        Some(CircuitKind::Prepare)
    } else if selector == "show"@ {
        Some(CircuitKind::Show)
    } else {
        None
    }
}

/// The message of the failure that an unrecognised selector is answered with.
pub open spec fn spec_invalid_selector_message(selector: Seq<char>) -> Seq<char> {
    "Invalid circuit_type '"@ + selector + "'. Must be 'prepare' or 'show'"@
}

impl CircuitKind {
    /// The name of the circuit as it appears in messages.
    pub open spec fn spec_title(self) -> Seq<char> {
        match self {
            CircuitKind::Prepare => "Prepare"@,
            CircuitKind::Show => "Show"@,
        }
    }

    /// The name of the circuit as it appears in messages.
    pub fn title(self) -> (title: &'static str)
        ensures
            title@ == self.spec_title(),
    {
        match self {
            CircuitKind::Prepare => "Prepare",
            CircuitKind::Show => "Show",
        }
    }

    /// The name of the circuit as it appears inside a sentence.
    pub open spec fn spec_label(self) -> Seq<char> {
        match self {
            CircuitKind::Prepare => "prepare"@,
            CircuitKind::Show => "show"@,
        }
    }

    /// The name of the circuit as it appears inside a sentence.
    pub fn label(self) -> (label: &'static str)
        ensures
            label@ == self.spec_label(),
    {
        match self {
            CircuitKind::Prepare => "prepare",
            CircuitKind::Show => "show",
        }
    }

    /// Reads a kind selector: `prepare` and `show` name the two circuits, and
    /// anything else is rejected as invalid input.
    pub fn parse(selector: &str) -> (parsed: Result<CircuitKind, ZkProofError>)
        ensures
            match parsed {
                Ok(kind) => spec_parse_kind(selector@) == Some(kind),
                Err(e) => spec_parse_kind(selector@) is None && e.spec_kind()
                    == ErrorKind::InvalidInput && e.spec_message()
                    == spec_invalid_selector_message(selector@),
            },
    {
        let given = String::from_str(selector);
        if given == String::from_str("prepare") {
            Ok(CircuitKind::Prepare)
        } else if given == String::from_str("show") {
            Ok(CircuitKind::Show)
        } else {
            let mut message = String::from_str("Invalid circuit_type '");
            message.append(selector);
            message.append("'. Must be 'prepare' or 'show'");
            Err(ZkProofError::InvalidInput { message })
        }
    }
}

} // verus!
