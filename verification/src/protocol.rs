//! The proving protocol: setup, blind generation, prove, reblind and verify.
//!
//! The long-running work of the proving backend (key generation, witness
//! synthesis, proving, verification) is done by the caller, who hands its outcome
//! to the operation as a *reply*. Each operation checks what the store must
//! already hold, derives the shared commitment, records the new artifacts and says
//! what happened. An operation that fails leaves the store as it found it.

use crate::backend::{
    all_canonical, backend_accepts_scalar, backend_commit, backend_generate_blinds,
    blind_rows_fit, hyrax_commitment, is_canonical, rows_needed, scalar_views,
    word_is_64_bits, ScalarBytes,
};
use crate::circuit::{artifact_key, spec_artifact_key, ArtifactKind, CircuitKind};
use crate::error::{ErrorKind, ZkProofError};
use crate::report::{spec_proof_result, ProofResult};
use crate::store::{
    spec_load_failure, ArtifactStore, ArtifactStoreView, CircuitArtifactsView, Instance,
    InstanceView, Phase, Slot, SlotView, Witness,
};
use crate::text::{decimal, spec_decimal};
use vstd::prelude::*;
use vstd::string::*;

verus! {

/// The number of commitment rows that the shared values of a credential occupy,
/// and so the number of blinding scalars that are generated.
pub const NUM_SHARED_ROWS: usize = 1;

/// How many shared values are batched into one commitment row.
pub const SHARED_ROW_WIDTH: usize = 128;

/// The label from which the generators of the shared commitment are derived.
pub open spec fn spec_commitment_label() -> Seq<char> {
    "comm_W_shared"@
}

/// The number of commitment rows that `count` shared values occupy.
pub open spec fn spec_shared_rows(count: nat) -> nat {
    rows_needed(count, SHARED_ROW_WIDTH as nat)
}

/// The operations of the protocol that rely on the backend.
#[derive(Clone, Copy, Debug, PartialEq, Eq, Structural)]
pub enum Operation {
    Setup,
    Prove,
    Reblind,
    Verify,
}

impl Operation {
    /// The name of the operation as it appears in messages.
    pub open spec fn spec_title(self) -> Seq<char> {
        match self {
            Operation::Setup => "Setup"@,
            Operation::Prove => "Prove"@,
            Operation::Reblind => "Reblind"@,
            Operation::Verify => "Verify"@,
        }
    }

    /// The name of the operation as it appears in messages.
    pub fn title(self) -> (title: &'static str)
        ensures
            title@ == self.spec_title(),
    {
        match self {
            Operation::Setup => "Setup",
            Operation::Prove => "Prove",
            Operation::Reblind => "Reblind",
            Operation::Verify => "Verify",
        }
    }
}

/// The message of a failure of the backend: it names the operation and the
/// circuit, and then gives the backend's own words.
pub open spec fn spec_failure_message(
    operation: Operation,
    kind: CircuitKind,
    reason: Seq<char>,
) -> Seq<char> {
    operation.spec_title() + " of the "@ + kind.spec_label() + " circuit failed: "@ + reason
}

/// Writes the message of a failure of the backend.
fn failure_message(operation: Operation, kind: CircuitKind, reason: &str) -> (message: String)
    ensures
        message@ == spec_failure_message(operation, kind, reason@),
{
    let mut message = String::from_str(operation.title());
    message.append(" of the ");
    message.append(kind.label());
    message.append(" circuit failed: ");
    message.append(reason);
    message
}

/// Why the backend could not do what it was asked.
#[derive(Debug)]
pub enum BackendFailure {
    /// No input document was found in any of the places that are tried.
    InputNotFound { reason: String },
    /// The input document could not be parsed, or lacks a required field.
    InvalidInput { reason: String },
    /// The witness does not satisfy the circuit, or the backend failed while proving.
    Synthesis { reason: String },
    /// The backend could not decode a key or a witness that the store holds.
    UnreadableArtifact { reason: String },
}

impl BackendFailure {
    /// The class of failure that this is reported as.
    pub open spec fn spec_error_kind(self) -> ErrorKind {
        match self {
            BackendFailure::InputNotFound { .. } => ErrorKind::FileNotFound,
            BackendFailure::InvalidInput { .. } => ErrorKind::InvalidInput,
            BackendFailure::Synthesis { .. } => ErrorKind::ProofGenerationFailed,
            BackendFailure::UnreadableArtifact { .. } => ErrorKind::IoError,
        }
    }

    /// The backend's own words.
    pub open spec fn spec_reason(self) -> Seq<char> {
        match self {
            BackendFailure::InputNotFound { reason } => reason@,
            BackendFailure::InvalidInput { reason } => reason@,
            BackendFailure::Synthesis { reason } => reason@,
            BackendFailure::UnreadableArtifact { reason } => reason@,
        }
    }

    /// The class of the failure and the backend's own words.
    pub open spec fn spec_report(self) -> (ErrorKind, Seq<char>) {
        (self.spec_error_kind(), self.spec_reason())
    }

    /// The class and message that the failure is reported with when it ends
    /// `operation` on the circuit `kind`.
    pub open spec fn spec_reported(self, operation: Operation, kind: CircuitKind) -> (
        ErrorKind,
        Seq<char>,
    ) {
        (self.spec_error_kind(), spec_failure_message(operation, kind, self.spec_reason()))
    }

    /// Turns the backend's failure into the failure that `operation` on `kind`
    /// reports: a missing input document is `FileNotFound`, a malformed one
    /// `InvalidInput`, a synthesis or proving failure `ProofGenerationFailed`,
    /// and an artifact that the backend cannot decode `IoError`. The message
    /// says which operation on which circuit failed.
    pub fn into_error(self, operation: Operation, kind: CircuitKind) -> (e: ZkProofError)
        ensures
            (e.spec_kind(), e.spec_message()) == self.spec_reported(operation, kind),
    {
        match self {
            BackendFailure::InputNotFound { reason } => ZkProofError::FileNotFound {
                message: failure_message(operation, kind, reason.as_str()),
            },
            BackendFailure::InvalidInput { reason } => ZkProofError::InvalidInput {
                message: failure_message(operation, kind, reason.as_str()),
            },
            BackendFailure::Synthesis { reason } => ZkProofError::ProofGenerationFailed {
                message: failure_message(operation, kind, reason.as_str()),
            },
            BackendFailure::UnreadableArtifact { reason } => ZkProofError::IoError {
                message: failure_message(operation, kind, reason.as_str()),
            },
        }
    }
}

/// What the backend's key generation came back with.
#[derive(Debug)]
pub enum SetupReply {
    Keys { proving_key: Vec<u8>, verifying_key: Vec<u8> },
    Failed { failure: BackendFailure },
}

/// What the backend's prover came back with for a circuit's inputs.
#[derive(Debug)]
pub enum ProveReply {
    Proved { public_values: Vec<ScalarBytes>, witness: Witness, proof: Vec<u8> },
    Failed { failure: BackendFailure },
}

/// What the backend's prover came back with for a stored witness.
#[derive(Debug)]
pub enum ReblindReply {
    Reblinded { proof: Vec<u8> },
    Failed { failure: BackendFailure },
}

/// What the backend's verifier said of a proof.
#[derive(Debug)]
pub enum VerifyReply {
    /// The proof is valid.
    Accepted,
    /// The proof is not valid.
    Rejected { reason: String },
    /// The backend could not decode the proof or the key, so there is no verdict.
    Unreadable { reason: String },
}

/// The message that reports a finished key generation.
pub open spec fn spec_setup_message(kind: CircuitKind, elapsed_ms: u128) -> Seq<char> {
    kind.spec_title() + " circuit keys setup completed in "@ + spec_decimal(elapsed_ms as nat)
        + "ms"@
}

/// The message that reports finished blind generation.
pub open spec fn spec_blinds_message() -> Seq<char> {
    "Shared blinds generated successfully"@
}

/// The message of the failure that an operation without its keys is answered with.
pub open spec fn spec_setup_required_message(
    kind: CircuitKind,
    artifact: ArtifactKind,
) -> Seq<char> {
    "No key at '"@ + spec_artifact_key(kind, artifact) + "': set up the "@ + kind.spec_label()
        + " circuit first"@
}

/// The message of the failure that too few blinding scalars are answered with.
pub open spec fn spec_too_few_blinds_message() -> Seq<char> {
    "The shared values need more commitment rows than there are shared blinds"@
}

/// The message of the failure that a scalar outside the field is answered with.
pub open spec fn spec_not_canonical_message() -> Seq<char> {
    "A shared value or a shared blind is not a canonical field element"@
}

/// What is reported for a key slot that holds no usable key: `SetupRequired` when
/// the key is absent, `IoError` when it is malformed.
pub open spec fn spec_key_failure(
    slot: SlotView<Seq<u8>>,
    kind: CircuitKind,
    artifact: ArtifactKind,
) -> Option<(ErrorKind, Seq<char>)> {
    match slot {
        SlotView::Absent => Some(
            (ErrorKind::SetupRequired, spec_setup_required_message(kind, artifact)),
        ),
        SlotView::Malformed { .. } => spec_load_failure(
            slot,
            "key"@,
            spec_artifact_key(kind, artifact),
        ),
        SlotView::Present { .. } => None,
    }
}

/// The store after the keys of `kind` have been saved: both keys are there and
/// the circuit is ready to prove. Nothing else changes.
pub open spec fn spec_store_with_keys(
    store: ArtifactStoreView,
    kind: CircuitKind,
    proving_key: Seq<u8>,
    verifying_key: Seq<u8>,
) -> ArtifactStoreView {
    store.with(
        kind,
        CircuitArtifactsView {
            proving_key: SlotView::Present { value: proving_key },
            verifying_key: SlotView::Present { value: verifying_key },
            phase: Phase::KeysReady,
            ..store.of(kind)
        },
    )
}

/// Why a slot holding a key cannot be used, if it cannot.
fn check_key(
    slot: &Slot<Vec<u8>>,
    kind: CircuitKind,
    artifact: ArtifactKind,
) -> (checked: Result<(), ZkProofError>)
    ensures
        match checked {
            Ok(_) => spec_key_failure(slot@, kind, artifact) is None,
            Err(e) => spec_key_failure(slot@, kind, artifact) == Some(
                (e.spec_kind(), e.spec_message()),
            ),
        },
{
    match slot {
        Slot::Present { .. } => Ok(()),
        Slot::Absent => {
            let mut message = String::from_str("No key at '");
            message.append(artifact_key(kind, artifact));
            message.append("': set up the ");
            message.append(kind.label());
            message.append(" circuit first");
            Err(ZkProofError::SetupRequired { message })
        },
        Slot::Malformed { .. } => {
            match slot.load("key", artifact_key(kind, artifact)) {
                Ok(_) => Ok(()),
                Err(e) => Err(e),
            }
        },
    }
}

/// Saves the keys of `kind`, replacing any that were there.
pub fn save_keys(
    store: &mut ArtifactStore,
    kind: CircuitKind,
    proving_key: Vec<u8>,
    verifying_key: Vec<u8>,
)
    ensures
        final(store)@ == spec_store_with_keys(old(store)@, kind, proving_key@, verifying_key@),
{
    match kind {
        CircuitKind::Prepare => {
            store.prepare.proving_key = Slot::Present { value: proving_key };
            store.prepare.verifying_key = Slot::Present { value: verifying_key };
            store.prepare.phase = Phase::KeysReady;
        },
        CircuitKind::Show => {
            store.show.proving_key = Slot::Present { value: proving_key };
            store.show.verifying_key = Slot::Present { value: verifying_key };
            store.show.phase = Phase::KeysReady;
        },
    }
}

/// The class and message of a failure.
pub open spec fn spec_report_of(e: ZkProofError) -> (ErrorKind, Seq<char>) {
    (e.spec_kind(), e.spec_message())
}

/// Takes the keys of `kind` out of the backend's reply without saving them: the
/// two keys as the backend made them, or the backend's failure as a failed Setup
/// of that circuit.
pub fn setup_circuit_keys_no_save(
    kind: CircuitKind,
    reply: SetupReply,
) -> (keys: Result<(Vec<u8>, Vec<u8>), ZkProofError>)
    ensures
        match reply {
            SetupReply::Keys { proving_key, verifying_key } => keys == Ok::<
                (Vec<u8>, Vec<u8>),
                ZkProofError,
            >((proving_key, verifying_key)),
            SetupReply::Failed { failure } => keys is Err && spec_report_of(keys->Err_0)
                == failure.spec_reported(Operation::Setup, kind),
        },
{
    match reply {
        SetupReply::Keys { proving_key, verifying_key } => Ok((proving_key, verifying_key)),
        SetupReply::Failed { failure } => Err(failure.into_error(Operation::Setup, kind)),
    }
}

/// What a Setup of `kind` owes its caller: with keys from the backend, both are
/// saved and the message names the circuit and the time; with a failure from the
/// backend, that failure is reported and the store is unchanged.
pub open spec fn spec_setup_post(
    before: ArtifactStoreView,
    kind: CircuitKind,
    reply: SetupReply,
    elapsed_ms: u128,
    after: ArtifactStoreView,
    done: Result<String, ZkProofError>,
) -> bool {
    match reply {
        SetupReply::Keys { proving_key, verifying_key } => {
            &&& done is Ok
            &&& done->Ok_0@ == spec_setup_message(kind, elapsed_ms)
            &&& after == spec_store_with_keys(before, kind, proving_key@, verifying_key@)
        },
        SetupReply::Failed { failure } => {
            &&& done is Err
            &&& spec_report_of(done->Err_0) == failure.spec_reported(Operation::Setup, kind)
            &&& after == before
        },
    }
}

/// Records the outcome of key generation for `kind`, which took `elapsed_ms`.
///
/// Setup needs nothing of the store and may be repeated: new keys replace the
/// old ones, and whatever was proved before stays where it is.
pub fn setup_circuit_keys(
    store: &mut ArtifactStore,
    kind: CircuitKind,
    reply: SetupReply,
    elapsed_ms: u128,
) -> (done: Result<String, ZkProofError>)
    ensures
        spec_setup_post(old(store)@, kind, reply, elapsed_ms, final(store)@, done),
{
    match setup_circuit_keys_no_save(kind, reply) {
        Ok(keys) => {
            save_keys(store, kind, keys.0, keys.1);
            let mut message = String::from_str(kind.title());
            message.append(" circuit keys setup completed in ");
            message.append(decimal(elapsed_ms).as_str());
            message.append("ms");
            Ok(message)
        },
        Err(e) => Err(e),
    }
}

/// Records the outcome of key generation for the Prepare circuit. See
/// [`setup_circuit_keys`].
pub fn setup_prepare_keys(
    store: &mut ArtifactStore,
    reply: SetupReply,
    elapsed_ms: u128,
) -> (done: Result<String, ZkProofError>)
    ensures
        spec_setup_post(old(store)@, CircuitKind::Prepare, reply, elapsed_ms, final(store)@, done),
{
    setup_circuit_keys(store, CircuitKind::Prepare, reply, elapsed_ms)
}

/// Records the outcome of key generation for the Show circuit. See
/// [`setup_circuit_keys`].
pub fn setup_show_keys(
    store: &mut ArtifactStore,
    reply: SetupReply,
    elapsed_ms: u128,
) -> (done: Result<String, ZkProofError>)
    ensures
        spec_setup_post(old(store)@, CircuitKind::Show, reply, elapsed_ms, final(store)@, done),
{
    setup_circuit_keys(store, CircuitKind::Show, reply, elapsed_ms)
}

/// The message of the failure that a request for too many rows is answered with.
pub open spec fn spec_too_many_rows_message() -> Seq<char> {
    "More blinding rows were asked for than the backend can draw at once"@
}

/// Draws `rows` fresh blinding scalars, one for each row of the shared
/// commitment, and saves them over any earlier set. `rows` counts commitment
/// rows, each of which holds up to [`SHARED_ROW_WIDTH`] shared values; it does
/// not count the shared values.
///
/// Fails with `InvalidInput`, leaving the store unchanged, exactly when the
/// machine cannot hold the backend's buffer for so many rows
/// ([`blind_rows_fit`]). The scalars are random, so the contract says only what
/// holds of every draw: there are `rows` of them, each a canonical field
/// element, and nothing else in the store changes.
pub fn generate_blinds(
    store: &mut ArtifactStore,
    rows: usize,
) -> (done: Result<String, ZkProofError>)
    ensures
        match done {
            Ok(message) => {
                &&& blind_rows_fit(rows as nat)
                &&& message@ == spec_blinds_message()
                &&& final(store)@.shared_blinds is Present
                &&& final(store)@.shared_blinds->value.len() == rows
                &&& all_canonical(final(store)@.shared_blinds->value)
                &&& final(store)@ == old(store)@.with_blinds(final(store)@.shared_blinds->value)
            },
            Err(e) => {
                &&& !blind_rows_fit(rows as nat)
                &&& e.spec_kind() == ErrorKind::InvalidInput
                &&& e.spec_message() == spec_too_many_rows_message()
                &&& final(store)@ == old(store)@
            },
        },
{
    if rows > usize::MAX / 128 {
        return Err(
            ZkProofError::InvalidInput {
                message: String::from_str(
                    "More blinding rows were asked for than the backend can draw at once",
                ),
            },
        );
    }
    let blinds = backend_generate_blinds(rows);
    store.shared_blinds = Slot::Present { value: blinds };
    Ok(String::from_str("Shared blinds generated successfully"))
}

/// Draws the blinding scalars of a credential, [`NUM_SHARED_ROWS`] of them, and
/// saves them over any earlier set. Proofs made under the earlier set are no
/// longer linked to proofs made from now on.
///
/// This cannot fail. See [`generate_blinds`] for what is known of the scalars.
pub fn generate_shared_blinds(store: &mut ArtifactStore) -> (done: Result<String, ZkProofError>)
    ensures
        match done {
            Ok(message) => message@ == spec_blinds_message(),
            Err(_) => false,
        },
        final(store)@.shared_blinds is Present,
        final(store)@.shared_blinds->value.len() == NUM_SHARED_ROWS,
        all_canonical(final(store)@.shared_blinds->value),
        final(store)@ == old(store)@.with_blinds(final(store)@.shared_blinds->value),
{
    generate_blinds(store, NUM_SHARED_ROWS)
}

/// The message of the failure that is reported when the backend gives no
/// commitment to scalars that are all canonical.
pub open spec fn spec_no_commitment_message() -> Seq<char> {
    "The backend could not commit to the shared values"@
}

/// Why the shared values cannot be committed to under the blinds, if they cannot:
/// there are fewer blinds than rows, or some scalar lies outside the field, or
/// the backend gives no commitment.
pub open spec fn spec_commit_failure(
    shared: Seq<ScalarBytes>,
    blinds: Seq<ScalarBytes>,
) -> Option<Seq<char>> {
    if spec_shared_rows(shared.len()) > blinds.len() {
        Some(spec_too_few_blinds_message())
    } else if !(all_canonical(shared) && all_canonical(blinds)) {
        Some(spec_not_canonical_message())
    } else if hyrax_commitment(
        spec_commitment_label(),
        SHARED_ROW_WIDTH as nat,
        scalar_views(shared),
        scalar_views(blinds),
    ) is None {
        Some(spec_no_commitment_message())
    } else {
        None
    }
}

/// The commitment to the shared values under the blinds. It depends on these two
/// alone: that is what links a Show proof to a Prepare proof.
pub open spec fn spec_shared_commitment(
    shared: Seq<ScalarBytes>,
    blinds: Seq<ScalarBytes>,
) -> Seq<u8> {
    hyrax_commitment(
        spec_commitment_label(),
        SHARED_ROW_WIDTH as nat,
        scalar_views(shared),
        scalar_views(blinds),
    ).unwrap()
}

/// Whether the field accepts every scalar of the list.
fn all_accepted(scalars: &Vec<ScalarBytes>) -> (accepted: bool)
    ensures
        accepted == all_canonical(scalars@),
{
    let mut i: usize = 0;
    while i < scalars.len()
        invariant
            i <= scalars.len(),
            forall|k: int| 0 <= k < i ==> is_canonical(#[trigger] scalars@[k]@),
        decreases scalars.len() - i,
    {
        if !backend_accepts_scalar(&scalars[i]) {
            return false;
        }
        i += 1;
    }
    true
}

/// Commits to the shared values under the blinds, one blind for each row of
/// [`SHARED_ROW_WIDTH`] values.
///
/// This commitment is the protocol's own. Its generators are derived from the
/// protocol's label, not taken from a proving key, and it is computed here, from
/// the values that the reply carries, not inside the backend's prover. It is
/// what links the instances that this library keeps; it is not the commitment
/// that the backend binds into its proof, which the backend does not hand out,
/// and a verifier of the proof alone does not see it.
///
/// Fails when there are fewer blinds than rows, when a scalar is not canonical,
/// and when the backend gives no commitment, each with its own words; succeeds
/// otherwise. On a machine whose words have 64 bits the backend always gives a
/// commitment to canonical scalars, so only the first two failures occur there.
pub fn commit_shared(
    shared: &Vec<ScalarBytes>,
    blinds: &Vec<ScalarBytes>,
) -> (committed: Result<Vec<u8>, BackendFailure>)
    ensures
        match committed {
            Ok(commitment) => spec_commit_failure(shared@, blinds@) is None && commitment@
                == spec_shared_commitment(shared@, blinds@),
            Err(failure) => failure is Synthesis && spec_commit_failure(shared@, blinds@) == Some(
                failure.spec_reason(),
            ),
        },
        word_is_64_bits() ==> (committed is Ok) == (spec_shared_rows(shared@.len())
            <= blinds@.len() && all_canonical(shared@) && all_canonical(blinds@)),
{
    let full_rows = shared.len() / SHARED_ROW_WIDTH;
    let rows = if shared.len() % SHARED_ROW_WIDTH == 0 {
        full_rows
    } else {
        full_rows + 1
    };
    assert(rows == spec_shared_rows(shared@.len()));
    if rows > blinds.len() {
        return Err(
            BackendFailure::Synthesis {
                reason: String::from_str(
                    "The shared values need more commitment rows than there are shared blinds",
                ),
            },
        );
    }
    if !all_accepted(shared) || !all_accepted(blinds) {
        return Err(
            BackendFailure::Synthesis {
                reason: String::from_str(
                    "A shared value or a shared blind is not a canonical field element",
                ),
            },
        );
    }
    match backend_commit("comm_W_shared", SHARED_ROW_WIDTH, shared, blinds) {
        Some(commitment) => Ok(commitment),
        None => Err(
            BackendFailure::Synthesis {
                reason: String::from_str("The backend could not commit to the shared values"),
            },
        ),
    }
}

/// A fault with a message that names the operation and the circuit it ended.
pub open spec fn spec_staged(
    fault: Option<(ErrorKind, Seq<char>)>,
    operation: Operation,
    kind: CircuitKind,
) -> Option<(ErrorKind, Seq<char>)> {
    match fault {
        Some(found) => Some((found.0, spec_failure_message(operation, kind, found.1))),
        None => None,
    }
}

/// Puts the operation and the circuit before the message of a failure, and keeps
/// its class.
fn staged(e: ZkProofError, operation: Operation, kind: CircuitKind) -> (named: ZkProofError)
    ensures
        named.spec_kind() == e.spec_kind(),
        named.spec_message() == spec_failure_message(operation, kind, e.spec_message()),
{
    let message = failure_message(operation, kind, e.message().as_str());
    ZkProofError::new(e.kind(), message)
}

/// What is wrong when a Prove of `kind` fails, if it does. The checks are made in
/// this order: the proving key (`SetupRequired` when absent), the shared blinds
/// (`FileNotFound` when absent), the backend's reply, the commitment
/// (`ProofGenerationFailed`).
pub open spec fn spec_prove_fault(
    store: ArtifactStoreView,
    kind: CircuitKind,
    reply: ProveReply,
) -> Option<(ErrorKind, Seq<char>)> {
    let key_failure = spec_key_failure(
        store.of(kind).proving_key,
        kind,
        ArtifactKind::ProvingKey,
    );
    let blinds_failure = spec_load_failure(
        store.shared_blinds,
        "shared blinds"@,
        crate::circuit::spec_shared_blinds_key(),
    );
    if key_failure is Some {
        key_failure
    } else if blinds_failure is Some {
        blinds_failure
    } else {
        match reply {
            ProveReply::Failed { failure } => Some(failure.spec_report()),
            ProveReply::Proved { witness, .. } => match spec_commit_failure(
                witness.shared@,
                store.shared_blinds->value,
            ) {
                Some(reason) => Some((ErrorKind::ProofGenerationFailed, reason)),
                None => None,
            },
        }
    }
}

/// The failure that a Prove of `kind` reports, if it fails: what is wrong
/// ([`spec_prove_fault`]), under a message that says that it was the Prove of
/// this circuit that failed.
pub open spec fn spec_prove_failure(
    store: ArtifactStoreView,
    kind: CircuitKind,
    reply: ProveReply,
) -> Option<(ErrorKind, Seq<char>)> {
    spec_staged(spec_prove_fault(store, kind, reply), Operation::Prove, kind)
}

/// The store after a successful Prove of `kind`: the instance holds the public
/// values and the commitment to the witness's shared values under the current
/// blinds; witness and proof are those of the reply; the circuit is `Proved`.
pub open spec fn spec_store_after_prove(
    store: ArtifactStoreView,
    kind: CircuitKind,
    reply: ProveReply,
) -> ArtifactStoreView {
    match reply {
        ProveReply::Proved { public_values, witness, proof } => store.with(
            kind,
            CircuitArtifactsView {
                instance: SlotView::Present {
                    value: InstanceView {
                        public_values: public_values@,
                        comm_shared: spec_shared_commitment(
                            witness.shared@,
                            store.shared_blinds->value,
                        ),
                    },
                },
                witness: SlotView::Present { value: witness@ },
                proof: SlotView::Present { value: proof@ },
                phase: Phase::Proved,
                ..store.of(kind)
            },
        ),
        ProveReply::Failed { .. } => store,
    }
}

/// What a Prove of `kind` owes its caller.
pub open spec fn spec_prove_post(
    before: ArtifactStoreView,
    kind: CircuitKind,
    reply: ProveReply,
    elapsed_ms: u64,
    after: ArtifactStoreView,
    done: Result<ProofResult, ZkProofError>,
) -> bool {
    match done {
        Ok(result) => {
            &&& spec_prove_failure(before, kind, reply) is None
            &&& after == spec_store_after_prove(before, kind, reply)
            &&& after.of(kind).instance is Present
            &&& after.of(kind).proof is Present
            &&& result@ == spec_proof_result(
                elapsed_ms,
                after.of(kind).proof->value.len(),
                after.of(kind).instance->value.comm_shared,
            )
        },
        Err(e) => {
            &&& spec_prove_failure(before, kind, reply) == Some((e.spec_kind(), e.spec_message()))
            &&& after == before
        },
    }
}

/// Records the outcome of proving `kind` from its inputs, which took `elapsed_ms`.
///
/// Requires nothing of the store: without a proving key the answer is
/// `SetupRequired`, without shared blinds `FileNotFound`. A failure of the backend
/// is reported in the class that [`BackendFailure::into_error`] gives it.
/// Otherwise the shared commitment is derived from the witness's shared values
/// and the current blinds, and instance, witness and proof are saved. Every
/// failure says in its message that it was the Prove of this circuit that failed.
pub fn prove(
    store: &mut ArtifactStore,
    kind: CircuitKind,
    reply: ProveReply,
    elapsed_ms: u64,
) -> (done: Result<ProofResult, ZkProofError>)
    ensures
        spec_prove_post(old(store)@, kind, reply, elapsed_ms, final(store)@, done),
        old(store)@.of(kind).proving_key is Absent ==> done is Err && done->Err_0.spec_kind()
            == ErrorKind::SetupRequired,
{
    match check_key(&store.artifacts(kind).proving_key, kind, ArtifactKind::ProvingKey) {
        Ok(_) => {},
        Err(e) => {
            return Err(staged(e, Operation::Prove, kind));
        },
    }
    match reply {
        ProveReply::Failed { failure } => match store.load_shared_blinds() {
            Err(e) => Err(staged(e, Operation::Prove, kind)),
            Ok(_) => Err(failure.into_error(Operation::Prove, kind)),
        },
        ProveReply::Proved { public_values, witness, proof } => {
            let committed = match store.load_shared_blinds() {
                Err(e) => Err(staged(e, Operation::Prove, kind)),
                Ok(blinds) => match commit_shared(&witness.shared, blinds) {
                    Ok(commitment) => Ok(commitment),
                    Err(failure) => Err(failure.into_error(Operation::Prove, kind)),
                },
            };
            match committed {
                Err(e) => Err(e),
                Ok(comm_shared) => {
                    let result = ProofResult::new(elapsed_ms, &proof, &comm_shared);
                    let instance = Instance { public_values, comm_shared };
                    match kind {
                        CircuitKind::Prepare => {
                            store.prepare.instance = Slot::Present { value: instance };
                            store.prepare.witness = Slot::Present { value: witness };
                            store.prepare.proof = Slot::Present { value: proof };
                            store.prepare.phase = Phase::Proved;
                        },
                        CircuitKind::Show => {
                            store.show.instance = Slot::Present { value: instance };
                            store.show.witness = Slot::Present { value: witness };
                            store.show.proof = Slot::Present { value: proof };
                            store.show.phase = Phase::Proved;
                        },
                    }
                    Ok(result)
                },
            }
        },
    }
}

/// Records the outcome of proving the Prepare circuit. See [`prove`].
pub fn prove_prepare(
    store: &mut ArtifactStore,
    reply: ProveReply,
    elapsed_ms: u64,
) -> (done: Result<ProofResult, ZkProofError>)
    ensures
        spec_prove_post(old(store)@, CircuitKind::Prepare, reply, elapsed_ms, final(store)@, done),
        old(store)@.of(CircuitKind::Prepare).proving_key is Absent ==> done is Err
            && done->Err_0.spec_kind() == ErrorKind::SetupRequired,
{
    prove(store, CircuitKind::Prepare, reply, elapsed_ms)
}

/// Records the outcome of proving the Show circuit. See [`prove`].
pub fn prove_show(
    store: &mut ArtifactStore,
    reply: ProveReply,
    elapsed_ms: u64,
) -> (done: Result<ProofResult, ZkProofError>)
    ensures
        spec_prove_post(old(store)@, CircuitKind::Show, reply, elapsed_ms, final(store)@, done),
        old(store)@.of(CircuitKind::Show).proving_key is Absent ==> done is Err
            && done->Err_0.spec_kind() == ErrorKind::SetupRequired,
{
    prove(store, CircuitKind::Show, reply, elapsed_ms)
}

/// Copies a sequence of scalars.
fn copy_scalars(scalars: &Vec<ScalarBytes>) -> (copy: Vec<ScalarBytes>)
    ensures
        copy@ == scalars@,
{
    let mut copy: Vec<ScalarBytes> = Vec::new();
    let mut i: usize = 0;
    while i < scalars.len()
        invariant
            i <= scalars.len(),
            copy@ == scalars@.take(i as int),
        decreases scalars.len() - i,
    {
        copy.push(scalars[i]);
        assert(copy@ =~= scalars@.take(i + 1));
        i += 1;
    }
    assert(scalars@.take(i as int) =~= scalars@);
    copy
}

/// Whether two byte strings are the same.
fn same_bytes(a: &Vec<u8>, b: &Vec<u8>) -> (same: bool)
    ensures
        same == (a@ == b@),
{
    if a.len() != b.len() {
        return false;
    }
    let mut i: usize = 0;
    while i < a.len()
        invariant
            i <= a.len(),
            a@.len() == b@.len(),
            forall|k: int| 0 <= k < i ==> a@[k] == b@[k],
        decreases a.len() - i,
    {
        if a[i] != b[i] {
            return false;
        }
        i += 1;
    }
    assert(a@ =~= b@);
    true
}

/// The message of the failure that a proof is answered with that is, byte for
/// byte, the proof that the store holds already.
pub open spec fn spec_stale_proof_message() -> Seq<char> {
    "The backend handed over the proof that was there before"@
}

/// What is wrong when a Reblind of `kind` fails, if it does. The checks are made
/// in this order: the proving key (`SetupRequired` when absent), then instance,
/// witness and shared blinds (`FileNotFound` when absent), the backend's reply,
/// the proof (`ProofGenerationFailed` when it is the stored proof over again),
/// the commitment (`ProofGenerationFailed`).
pub open spec fn spec_reblind_fault(
    store: ArtifactStoreView,
    kind: CircuitKind,
    reply: ReblindReply,
) -> Option<(ErrorKind, Seq<char>)> {
    let key_failure = spec_key_failure(
        store.of(kind).proving_key,
        kind,
        ArtifactKind::ProvingKey,
    );
    let instance_failure = spec_load_failure(
        store.of(kind).instance,
        "instance"@,
        spec_artifact_key(kind, ArtifactKind::Instance),
    );
    let witness_failure = spec_load_failure(
        store.of(kind).witness,
        "witness"@,
        spec_artifact_key(kind, ArtifactKind::Witness),
    );
    let blinds_failure = spec_load_failure(
        store.shared_blinds,
        "shared blinds"@,
        crate::circuit::spec_shared_blinds_key(),
    );
    if key_failure is Some {
        key_failure
    } else if instance_failure is Some {
        instance_failure
    } else if witness_failure is Some {
        witness_failure
    } else if blinds_failure is Some {
        blinds_failure
    } else {
        match reply {
            ReblindReply::Failed { failure } => Some(failure.spec_report()),
            ReblindReply::Reblinded { proof } => if store.of(kind).proof == (SlotView::Present {
                value: proof@,
            }) {
                Some((ErrorKind::ProofGenerationFailed, spec_stale_proof_message()))
            } else {
                match spec_commit_failure(
                    store.of(kind).witness->value.shared,
                    store.shared_blinds->value,
                ) {
                    Some(reason) => Some((ErrorKind::ProofGenerationFailed, reason)),
                    None => None,
                }
            },
        }
    }
}

/// The failure that a Reblind of `kind` reports, if it fails: what is wrong
/// ([`spec_reblind_fault`]), under a message that says that it was the Reblind of
/// this circuit that failed.
pub open spec fn spec_reblind_failure(
    store: ArtifactStoreView,
    kind: CircuitKind,
    reply: ReblindReply,
) -> Option<(ErrorKind, Seq<char>)> {
    spec_staged(spec_reblind_fault(store, kind, reply), Operation::Reblind, kind)
}

/// The store after a successful Reblind of `kind`: the proof is the fresh one, the
/// instance keeps its public values and holds the commitment derived anew from the
/// stored witness's shared values and the current blinds; the witness is
/// untouched; the circuit is `Reblinded`.
pub open spec fn spec_store_after_reblind(
    store: ArtifactStoreView,
    kind: CircuitKind,
    reply: ReblindReply,
) -> ArtifactStoreView {
    match reply {
        ReblindReply::Reblinded { proof } => store.with(
            kind,
            CircuitArtifactsView {
                instance: SlotView::Present {
                    value: InstanceView {
                        public_values: store.of(kind).instance->value.public_values,
                        comm_shared: spec_shared_commitment(
                            store.of(kind).witness->value.shared,
                            store.shared_blinds->value,
                        ),
                    },
                },
                proof: SlotView::Present { value: proof@ },
                phase: Phase::Reblinded,
                ..store.of(kind)
            },
        ),
        ReblindReply::Failed { .. } => store,
    }
}

/// What a Reblind of `kind` owes its caller.
pub open spec fn spec_reblind_post(
    before: ArtifactStoreView,
    kind: CircuitKind,
    reply: ReblindReply,
    elapsed_ms: u64,
    after: ArtifactStoreView,
    done: Result<ProofResult, ZkProofError>,
) -> bool {
    match done {
        Ok(result) => {
            &&& spec_reblind_failure(before, kind, reply) is None
            &&& after == spec_store_after_reblind(before, kind, reply)
            &&& after.of(kind).instance is Present
            &&& after.of(kind).proof is Present
            &&& result@ == spec_proof_result(
                elapsed_ms,
                after.of(kind).proof->value.len(),
                after.of(kind).instance->value.comm_shared,
            )
        },
        Err(e) => {
            &&& spec_reblind_failure(before, kind, reply) == Some(
                (e.spec_kind(), e.spec_message()),
            )
            &&& after == before
        },
    }
}

/// Whether the slot holds exactly these bytes.
fn holds_bytes(slot: &Slot<Vec<u8>>, bytes: &Vec<u8>) -> (holds: bool)
    ensures
        holds == (slot@ == (SlotView::Present { value: bytes@ })),
{
    match slot {
        Slot::Present { value } => same_bytes(value, bytes),
        _ => false,
    }
}

/// Records the outcome of proving `kind` again from its stored witness and
/// instance, which took `elapsed_ms`.
///
/// The backend draws fresh randomness for the proof, so the proof is a new one:
/// a reply that carries, byte for byte, the proof that the store holds is
/// refused, and a Reblind that succeeds always changes the stored proof. The
/// shared commitment is derived anew from the stored shared values and the
/// current blinds, so it is the one the instance already had as long as the
/// blinds have not been replaced. Every failure says in its message that it was
/// the Reblind of this circuit that failed.
pub fn reblind(
    store: &mut ArtifactStore,
    kind: CircuitKind,
    reply: ReblindReply,
    elapsed_ms: u64,
) -> (done: Result<ProofResult, ZkProofError>)
    ensures
        spec_reblind_post(old(store)@, kind, reply, elapsed_ms, final(store)@, done),
        done is Ok ==> final(store)@.of(kind).proof != old(store)@.of(kind).proof,
{
    match check_key(&store.artifacts(kind).proving_key, kind, ArtifactKind::ProvingKey) {
        Ok(_) => {},
        Err(e) => {
            return Err(staged(e, Operation::Reblind, kind));
        },
    }
    let public_values = match store.load_instance(kind) {
        Err(e) => {
            return Err(staged(e, Operation::Reblind, kind));
        },
        Ok(instance) => copy_scalars(&instance.public_values),
    };
    let committed = match store.load_witness(kind) {
        Err(e) => {
            return Err(staged(e, Operation::Reblind, kind));
        },
        Ok(witness) => match store.load_shared_blinds() {
            Err(e) => {
                return Err(staged(e, Operation::Reblind, kind));
            },
            Ok(blinds) => match reply {
                ReblindReply::Failed { failure } => {
                    return Err(failure.into_error(Operation::Reblind, kind));
                },
                ReblindReply::Reblinded { proof } => {
                    if holds_bytes(&store.artifacts(kind).proof, &proof) {
                        let stale = BackendFailure::Synthesis {
                            reason: String::from_str(
                                "The backend handed over the proof that was there before",
                            ),
                        };
                        return Err(stale.into_error(Operation::Reblind, kind));
                    }
                    match commit_shared(&witness.shared, blinds) {
                        Err(failure) => {
                            return Err(failure.into_error(Operation::Reblind, kind));
                        },
                        Ok(comm_shared) => (proof, comm_shared),
                    }
                },
            },
        },
    };
    let proof = committed.0;
    let comm_shared = committed.1;
    let result = ProofResult::new(elapsed_ms, &proof, &comm_shared);
    let instance = Instance { public_values, comm_shared };
    match kind {
        CircuitKind::Prepare => {
            store.prepare.instance = Slot::Present { value: instance };
            store.prepare.proof = Slot::Present { value: proof };
            store.prepare.phase = Phase::Reblinded;
        },
        CircuitKind::Show => {
            store.show.instance = Slot::Present { value: instance };
            store.show.proof = Slot::Present { value: proof };
            store.show.phase = Phase::Reblinded;
        },
    }
    Ok(result)
}

/// Records the outcome of proving the Prepare circuit again. See [`reblind`].
pub fn reblind_prepare(
    store: &mut ArtifactStore,
    reply: ReblindReply,
    elapsed_ms: u64,
) -> (done: Result<ProofResult, ZkProofError>)
    ensures
        spec_reblind_post(
            old(store)@,
            CircuitKind::Prepare,
            reply,
            elapsed_ms,
            final(store)@,
            done,
        ),
        done is Ok ==> final(store)@.prepare.proof != old(store)@.prepare.proof,
{
    reblind(store, CircuitKind::Prepare, reply, elapsed_ms)
}

/// Records the outcome of proving the Show circuit again. See [`reblind`].
pub fn reblind_show(
    store: &mut ArtifactStore,
    reply: ReblindReply,
    elapsed_ms: u64,
) -> (done: Result<ProofResult, ZkProofError>)
    ensures
        spec_reblind_post(old(store)@, CircuitKind::Show, reply, elapsed_ms, final(store)@, done),
        done is Ok ==> final(store)@.show.proof != old(store)@.show.proof,
{
    reblind(store, CircuitKind::Show, reply, elapsed_ms)
}

/// The words for a proof that the backend rejected.
pub open spec fn spec_rejected_message(reason: Seq<char>) -> Seq<char> {
    "the backend rejected the proof: "@ + reason
}

/// What is wrong when a Verify of `kind` fails, if it does. The checks are made in
/// this order: the verifying key (`SetupRequired` when absent), the proof
/// (`FileNotFound` when absent), the backend's verdict (`VerificationFailed` when
/// it rejects, `IoError` when it could not decode what it was given).
pub open spec fn spec_verify_fault(
    store: ArtifactStoreView,
    kind: CircuitKind,
    reply: VerifyReply,
) -> Option<(ErrorKind, Seq<char>)> {
    let key_failure = spec_key_failure(
        store.of(kind).verifying_key,
        kind,
        ArtifactKind::VerifyingKey,
    );
    let proof_failure = spec_load_failure(
        store.of(kind).proof,
        "proof"@,
        spec_artifact_key(kind, ArtifactKind::Proof),
    );
    if key_failure is Some {
        key_failure
    } else if proof_failure is Some {
        proof_failure
    } else {
        match reply {
            VerifyReply::Accepted => None,
            VerifyReply::Rejected { reason } => Some(
                (ErrorKind::VerificationFailed, spec_rejected_message(reason@)),
            ),
            VerifyReply::Unreadable { reason } => Some((ErrorKind::IoError, reason@)),
        }
    }
}

/// The failure that a Verify of `kind` reports, if it fails: what is wrong
/// ([`spec_verify_fault`]), under a message that says that it was the Verify of
/// this circuit that failed.
pub open spec fn spec_verify_failure(
    store: ArtifactStoreView,
    kind: CircuitKind,
    reply: VerifyReply,
) -> Option<(ErrorKind, Seq<char>)> {
    spec_staged(spec_verify_fault(store, kind, reply), Operation::Verify, kind)
}

/// The store after a successful Verify of `kind`: only the phase changes.
pub open spec fn spec_store_after_verify(
    store: ArtifactStoreView,
    kind: CircuitKind,
) -> ArtifactStoreView {
    store.with(kind, CircuitArtifactsView { phase: Phase::Verified, ..store.of(kind) })
}

/// What a Verify of `kind` owes its caller.
pub open spec fn spec_verify_post(
    before: ArtifactStoreView,
    kind: CircuitKind,
    reply: VerifyReply,
    after: ArtifactStoreView,
    done: Result<bool, ZkProofError>,
) -> bool {
    match done {
        Ok(valid) => {
            &&& valid
            &&& spec_verify_failure(before, kind, reply) is None
            &&& after == spec_store_after_verify(before, kind)
        },
        Err(e) => {
            &&& spec_verify_failure(before, kind, reply) == Some(
                (e.spec_kind(), e.spec_message()),
            )
            &&& after == before
        },
    }
}

/// Records the backend's verdict on the stored proof of `kind`.
///
/// The answer is `Ok(true)` exactly when key and proof are there and the backend
/// accepted. A rejection is never `Ok(false)`: it is the failure
/// `VerificationFailed`, so that it cannot be mistaken for a missing proof, which
/// is `FileNotFound`, nor for a proof or key that cannot be decoded, which is
/// `IoError`. Every failure says in its message that it was the Verify of this
/// circuit that failed.
pub fn verify(
    store: &mut ArtifactStore,
    kind: CircuitKind,
    reply: VerifyReply,
) -> (done: Result<bool, ZkProofError>)
    ensures
        spec_verify_post(old(store)@, kind, reply, final(store)@, done),
{
    match check_key(&store.artifacts(kind).verifying_key, kind, ArtifactKind::VerifyingKey) {
        Ok(_) => {},
        Err(e) => {
            return Err(staged(e, Operation::Verify, kind));
        },
    }
    match store.load_proof(kind) {
        Ok(_) => {},
        Err(e) => {
            return Err(staged(e, Operation::Verify, kind));
        },
    }
    match reply {
        VerifyReply::Accepted => {
            match kind {
                CircuitKind::Prepare => {
                    store.prepare.phase = Phase::Verified;
                },
                CircuitKind::Show => {
                    store.show.phase = Phase::Verified;
                },
            }
            Ok(true)
        },
        VerifyReply::Rejected { reason } => {
            let mut detail = String::from_str("the backend rejected the proof: ");
            detail.append(reason.as_str());
            Err(
                ZkProofError::VerificationFailed {
                    message: failure_message(Operation::Verify, kind, detail.as_str()),
                },
            )
        },
        VerifyReply::Unreadable { reason } => Err(
            ZkProofError::IoError {
                message: failure_message(Operation::Verify, kind, reason.as_str()),
            },
        ),
    }
}

/// Records the backend's verdict on the stored Prepare proof. See [`verify`].
pub fn verify_prepare(
    store: &mut ArtifactStore,
    reply: VerifyReply,
) -> (done: Result<bool, ZkProofError>)
    ensures
        spec_verify_post(old(store)@, CircuitKind::Prepare, reply, final(store)@, done),
{
    verify(store, CircuitKind::Prepare, reply)
}

/// Records the backend's verdict on the stored Show proof. See [`verify`].
pub fn verify_show(
    store: &mut ArtifactStore,
    reply: VerifyReply,
) -> (done: Result<bool, ZkProofError>)
    ensures
        spec_verify_post(old(store)@, CircuitKind::Show, reply, final(store)@, done),
{
    verify(store, CircuitKind::Show, reply)
}

} // verus!
