//! The complete run of both circuits, step by step.
//!
//! A run goes through nine measured steps: key setup for both circuits, blind
//! generation, then prove and reblind for each circuit, then verification of
//! both proofs. The caller does the backend's work for the step it is asked to
//! perform, measures it, and reports the outcome; the run records it in its store
//! and says what comes next. A step that fails ends the run and leaves the
//! artifacts of the steps before it in the store.

use crate::backend::all_canonical;
use crate::circuit::{ArtifactKind, CircuitKind};
use crate::error::{ErrorKind, ZkProofError};
use crate::inspect::{get_proof_size, spec_get_proof_size};
use crate::protocol::{
    generate_shared_blinds, prove, reblind, save_keys, setup_circuit_keys_no_save,
    spec_prove_failure,
    spec_reblind_failure, spec_store_after_prove, spec_store_after_reblind,
    spec_store_after_verify, spec_store_with_keys, spec_verify_failure, verify, Operation,
    ProveReply, ReblindReply, SetupReply, VerifyReply, NUM_SHARED_ROWS,
};
use crate::report::BenchmarkResults;
use crate::store::{ArtifactStore, ArtifactStoreView};
use vstd::prelude::*;
use vstd::string::*;

verus! {

/// The steps of a complete run, in the order in which they are performed.
#[derive(Clone, Copy, Debug, PartialEq, Eq, Structural)]
pub enum PipelineStep {
    SetupPrepare,
    SetupShow,
    GenerateBlinds,
    ProvePrepare,
    ReblindPrepare,
    ProveShow,
    ReblindShow,
    VerifyPrepare,
    VerifyShow,
    /// The run is over.
    Done,
}

impl PipelineStep {
    /// The place of the step in the run, counted from 0; `Done` is 9.
    pub open spec fn spec_index(self) -> nat {
        match self {
            PipelineStep::SetupPrepare => 0,
            PipelineStep::SetupShow => 1,
            PipelineStep::GenerateBlinds => 2,
            PipelineStep::ProvePrepare => 3,
            PipelineStep::ReblindPrepare => 4,
            PipelineStep::ProveShow => 5,
            PipelineStep::ReblindShow => 6,
            PipelineStep::VerifyPrepare => 7,
            PipelineStep::VerifyShow => 8,
            PipelineStep::Done => 9,
        }
    }

    /// The step that follows this one.
    pub open spec fn spec_next(self) -> PipelineStep {
        match self {
            PipelineStep::SetupPrepare => PipelineStep::SetupShow,
            PipelineStep::SetupShow => PipelineStep::GenerateBlinds,
            PipelineStep::GenerateBlinds => PipelineStep::ProvePrepare,
            PipelineStep::ProvePrepare => PipelineStep::ReblindPrepare,
            PipelineStep::ReblindPrepare => PipelineStep::ProveShow,
            PipelineStep::ProveShow => PipelineStep::ReblindShow,
            PipelineStep::ReblindShow => PipelineStep::VerifyPrepare,
            PipelineStep::VerifyPrepare => PipelineStep::VerifyShow,
            PipelineStep::VerifyShow => PipelineStep::Done,
            PipelineStep::Done => PipelineStep::Done,
        }
    }

    /// The step that follows this one.
    pub fn next(self) -> (next: PipelineStep)
        ensures
            next == self.spec_next(),
    {
        match self {
            PipelineStep::SetupPrepare => PipelineStep::SetupShow,
            PipelineStep::SetupShow => PipelineStep::GenerateBlinds,
            PipelineStep::GenerateBlinds => PipelineStep::ProvePrepare,
            PipelineStep::ProvePrepare => PipelineStep::ReblindPrepare,
            PipelineStep::ReblindPrepare => PipelineStep::ProveShow,
            PipelineStep::ProveShow => PipelineStep::ReblindShow,
            PipelineStep::ReblindShow => PipelineStep::VerifyPrepare,
            PipelineStep::VerifyPrepare => PipelineStep::VerifyShow,
            PipelineStep::VerifyShow => PipelineStep::Done,
            PipelineStep::Done => PipelineStep::Done,
        }
    }
}

/// The outcome of the step that the caller was asked to perform.
#[derive(Debug)]
#[allow(inconsistent_fields)]
pub enum StageReply {
    Setup { reply: SetupReply },
    BlindsGenerated,
    Prove { reply: ProveReply },
    Reblind { reply: ReblindReply },
    Verify { reply: VerifyReply },
}

/// What the run asks of its caller.
#[derive(Debug)]
pub enum PipelineAction {
    /// Perform this step and report its outcome.
    Perform { step: PipelineStep },
    /// The run is over: here are its measurements, or the failure that ended it.
    Finished { outcome: Result<BenchmarkResults, ZkProofError> },
}

/// The mathematical content of a [`PipelineAction`].
pub enum PipelineActionView {
    Perform { step: PipelineStep },
    Finished { outcome: Result<BenchmarkResults, (ErrorKind, Seq<char>)> },
}

impl View for PipelineAction {
    type V = PipelineActionView;

    open spec fn view(&self) -> PipelineActionView {
        match self {
            PipelineAction::Perform { step } => PipelineActionView::Perform { step: *step },
            PipelineAction::Finished { outcome } => PipelineActionView::Finished {
                outcome: match outcome {
                    Ok(results) => Ok(*results),
                    Err(e) => Err((e.spec_kind(), e.spec_message())),
                },
            },
        }
    }
}

/// A complete run in progress. Only the functions of this module change a run,
/// so what they keep true of it stays true.
#[derive(Debug)]
pub struct BenchmarkRun {
    /// The artifacts that the steps so far have produced.
    store: ArtifactStore,
    /// The step whose outcome the run is waiting for.
    next: PipelineStep,
    /// Whether this run has generated its shared blinds.
    blinds_generated: bool,
    /// Whether this run has gone through all its steps and reported its results.
    completed: bool,
    /// What has been measured so far.
    results: BenchmarkResults,
}

/// The mathematical content of a [`BenchmarkRun`].
pub struct BenchmarkRunView {
    pub store: ArtifactStoreView,
    pub next: PipelineStep,
    pub blinds_generated: bool,
    pub completed: bool,
    pub results: BenchmarkResults,
}

impl View for BenchmarkRun {
    type V = BenchmarkRunView;

    closed spec fn view(&self) -> BenchmarkRunView {
        BenchmarkRunView {
            store: self.store@,
            next: self.next,
            blinds_generated: self.blinds_generated,
            completed: self.completed,
            results: self.results,
        }
    }
}

/// The measurements with the time of `step` set to `elapsed_ms`.
pub open spec fn spec_record(
    results: BenchmarkResults,
    step: PipelineStep,
    elapsed_ms: u64,
) -> BenchmarkResults {
    match step {
        PipelineStep::SetupPrepare => BenchmarkResults { prepare_setup_ms: elapsed_ms, ..results },
        PipelineStep::SetupShow => BenchmarkResults { show_setup_ms: elapsed_ms, ..results },
        PipelineStep::GenerateBlinds => BenchmarkResults {
            generate_blinds_ms: elapsed_ms,
            ..results
        },
        PipelineStep::ProvePrepare => BenchmarkResults { prove_prepare_ms: elapsed_ms, ..results },
        PipelineStep::ReblindPrepare => BenchmarkResults {
            reblind_prepare_ms: elapsed_ms,
            ..results
        },
        PipelineStep::ProveShow => BenchmarkResults { prove_show_ms: elapsed_ms, ..results },
        PipelineStep::ReblindShow => BenchmarkResults { reblind_show_ms: elapsed_ms, ..results },
        PipelineStep::VerifyPrepare => BenchmarkResults {
            verify_prepare_ms: elapsed_ms,
            ..results
        },
        PipelineStep::VerifyShow => BenchmarkResults { verify_show_ms: elapsed_ms, ..results },
        PipelineStep::Done => results,
    }
}

/// The measurements with the sizes of the artifacts in the store filled in, or
/// the failure of the first artifact that is missing. The sizes are taken in this
/// order: both keys of Prepare, both keys of Show, the two proofs, the two
/// witnesses.
pub open spec fn spec_with_sizes(
    store: ArtifactStoreView,
    results: BenchmarkResults,
) -> Result<BenchmarkResults, (ErrorKind, Seq<char>)> {
    let prepare_pk = spec_get_proof_size(store, CircuitKind::Prepare, ArtifactKind::ProvingKey);
    let prepare_vk = spec_get_proof_size(store, CircuitKind::Prepare, ArtifactKind::VerifyingKey);
    let show_pk = spec_get_proof_size(store, CircuitKind::Show, ArtifactKind::ProvingKey);
    let show_vk = spec_get_proof_size(store, CircuitKind::Show, ArtifactKind::VerifyingKey);
    let prepare_proof = spec_get_proof_size(store, CircuitKind::Prepare, ArtifactKind::Proof);
    let show_proof = spec_get_proof_size(store, CircuitKind::Show, ArtifactKind::Proof);
    let prepare_witness = spec_get_proof_size(store, CircuitKind::Prepare, ArtifactKind::Witness);
    let show_witness = spec_get_proof_size(store, CircuitKind::Show, ArtifactKind::Witness);
    if prepare_pk is Err {
        Err(prepare_pk->Err_0)
    } else if prepare_vk is Err {
        Err(prepare_vk->Err_0)
    } else if show_pk is Err {
        Err(show_pk->Err_0)
    } else if show_vk is Err {
        Err(show_vk->Err_0)
    } else if prepare_proof is Err {
        Err(prepare_proof->Err_0)
    } else if show_proof is Err {
        Err(show_proof->Err_0)
    } else if prepare_witness is Err {
        Err(prepare_witness->Err_0)
    } else if show_witness is Err {
        Err(show_witness->Err_0)
    } else {
        Ok(
            BenchmarkResults {
                prepare_proving_key_bytes: prepare_pk->Ok_0,
                prepare_verifying_key_bytes: prepare_vk->Ok_0,
                show_proving_key_bytes: show_pk->Ok_0,
                show_verifying_key_bytes: show_vk->Ok_0,
                prepare_proof_bytes: prepare_proof->Ok_0,
                show_proof_bytes: show_proof->Ok_0,
                prepare_witness_bytes: prepare_witness->Ok_0,
                show_witness_bytes: show_witness->Ok_0,
                ..results
            },
        )
    }
}

/// The words for a step: the operation and the circuit it works on.
pub open spec fn spec_step_description(step: PipelineStep) -> Seq<char> {
    match step {
        PipelineStep::SetupPrepare => "the Setup of the prepare circuit"@,
        PipelineStep::SetupShow => "the Setup of the show circuit"@,
        PipelineStep::GenerateBlinds => "the generation of the shared blinds"@,
        PipelineStep::ProvePrepare => "the Prove of the prepare circuit"@,
        PipelineStep::ReblindPrepare => "the Reblind of the prepare circuit"@,
        PipelineStep::ProveShow => "the Prove of the show circuit"@,
        PipelineStep::ReblindShow => "the Reblind of the show circuit"@,
        PipelineStep::VerifyPrepare => "the Verify of the prepare circuit"@,
        PipelineStep::VerifyShow => "the Verify of the show circuit"@,
        PipelineStep::Done => "no step, for it is over"@,
    }
}

/// The words for a step: the operation and the circuit it works on.
pub fn step_description(step: PipelineStep) -> (words: &'static str)
    ensures
        words@ == spec_step_description(step),
{
    match step {
        PipelineStep::SetupPrepare => "the Setup of the prepare circuit",
        PipelineStep::SetupShow => "the Setup of the show circuit",
        PipelineStep::GenerateBlinds => "the generation of the shared blinds",
        PipelineStep::ProvePrepare => "the Prove of the prepare circuit",
        PipelineStep::ReblindPrepare => "the Reblind of the prepare circuit",
        PipelineStep::ProveShow => "the Prove of the show circuit",
        PipelineStep::ReblindShow => "the Reblind of the show circuit",
        PipelineStep::VerifyPrepare => "the Verify of the prepare circuit",
        PipelineStep::VerifyShow => "the Verify of the show circuit",
        PipelineStep::Done => "no step, for it is over",
    }
}

/// The message of the failure that a reply for another step is answered with: it
/// names the step that the run waits for.
pub open spec fn spec_unexpected_reply_message(step: PipelineStep) -> Seq<char> {
    "The run waits for the outcome of "@ + spec_step_description(step)
        + ", and the reply is for something else"@
}

/// The message of the failure that ends a run whose sizes cannot be measured
/// after its last step.
pub open spec fn spec_measuring_failure_message(detail: Seq<char>) -> Seq<char> {
    "After the Verify of the show circuit the sizes could not be measured: "@ + detail
}

/// The message of the failure that a run without fresh blinds is answered with.
pub open spec fn spec_blinds_not_generated_message() -> Seq<char> {
    "The run waits for the generation of the shared blinds, and it has drawn none"@
}

/// The circuit that a step works on; blind generation and `Done` work on neither.
pub open spec fn spec_step_kind(step: PipelineStep) -> Option<CircuitKind> {
    match step {
        PipelineStep::SetupPrepare => Some(CircuitKind::Prepare),
        PipelineStep::ProvePrepare => Some(CircuitKind::Prepare),
        PipelineStep::ReblindPrepare => Some(CircuitKind::Prepare),
        PipelineStep::VerifyPrepare => Some(CircuitKind::Prepare),
        PipelineStep::SetupShow => Some(CircuitKind::Show),
        PipelineStep::ProveShow => Some(CircuitKind::Show),
        PipelineStep::ReblindShow => Some(CircuitKind::Show),
        PipelineStep::VerifyShow => Some(CircuitKind::Show),
        PipelineStep::GenerateBlinds => None,
        PipelineStep::Done => None,
    }
}

/// What the step that the run waits for makes of the store on `reply`: the new
/// store, or the failure that ends the run.
pub open spec fn spec_stage(
    run: BenchmarkRunView,
    reply: StageReply,
) -> Result<ArtifactStoreView, (ErrorKind, Seq<char>)> {
    let store = run.store;
    let mismatch = Err((ErrorKind::InvalidInput, spec_unexpected_reply_message(run.next)));
    match reply {
        StageReply::Setup { reply } => if run.next == PipelineStep::SetupPrepare || run.next
            == PipelineStep::SetupShow {
            match reply {
                SetupReply::Keys { proving_key, verifying_key } => Ok(
                    spec_store_with_keys(
                        store,
                        spec_step_kind(run.next).unwrap(),
                        proving_key@,
                        verifying_key@,
                    ),
                ),
                SetupReply::Failed { failure } => Err(
                    failure.spec_reported(Operation::Setup, spec_step_kind(run.next).unwrap()),
                ),
            }
        } else {
            mismatch
        },
        StageReply::BlindsGenerated => if run.next == PipelineStep::GenerateBlinds {
            if run.blinds_generated {
                Ok(store)
            } else {
                Err((ErrorKind::InvalidInput, spec_blinds_not_generated_message()))
            }
        } else {
            mismatch
        },
        StageReply::Prove { reply } => if run.next == PipelineStep::ProvePrepare || run.next
            == PipelineStep::ProveShow {
            let kind = spec_step_kind(run.next).unwrap();
            match spec_prove_failure(store, kind, reply) {
                Some(failure) => Err(failure),
                None => Ok(spec_store_after_prove(store, kind, reply)),
            }
        } else {
            mismatch
        },
        StageReply::Reblind { reply } => if run.next == PipelineStep::ReblindPrepare || run.next
            == PipelineStep::ReblindShow {
            let kind = spec_step_kind(run.next).unwrap();
            match spec_reblind_failure(store, kind, reply) {
                Some(failure) => Err(failure),
                None => Ok(spec_store_after_reblind(store, kind, reply)),
            }
        } else {
            mismatch
        },
        StageReply::Verify { reply } => if run.next == PipelineStep::VerifyPrepare || run.next
            == PipelineStep::VerifyShow {
            let kind = spec_step_kind(run.next).unwrap();
            match spec_verify_failure(store, kind, reply) {
                Some(failure) => Err(failure),
                None => Ok(spec_store_after_verify(store, kind)),
            }
        } else {
            mismatch
        },
    }
}

/// The run after `reply` has been reported for the step it waited for, and what
/// it asks next.
///
/// A step that succeeds is recorded with its time and the run moves on; after the
/// last step the sizes of the artifacts are measured and the run finishes. A step
/// that fails, or a reply that belongs to another step, finishes the run with the
/// failure and leaves the store as it was before that step. Every failure says
/// in its message which step it ended.
pub open spec fn spec_advance(
    run: BenchmarkRunView,
    reply: StageReply,
    elapsed_ms: u64,
) -> (BenchmarkRunView, PipelineActionView) {
    match spec_stage(run, reply) {
        Err(failure) => (
            BenchmarkRunView { next: PipelineStep::Done, ..run },
            PipelineActionView::Finished { outcome: Err(failure) },
        ),
        Ok(store) => {
            let results = spec_record(run.results, run.next, elapsed_ms);
            if run.next == PipelineStep::VerifyShow {
                match spec_with_sizes(store, results) {
                    Ok(complete) => (
                        BenchmarkRunView {
                            store,
                            next: PipelineStep::Done,
                            completed: true,
                            results: complete,
                            ..run
                        },
                        PipelineActionView::Finished { outcome: Ok(complete) },
                    ),
                    Err(failure) => (
                        BenchmarkRunView { store, next: PipelineStep::Done, results, ..run },
                        PipelineActionView::Finished {
                            outcome: Err((failure.0, spec_measuring_failure_message(failure.1))),
                        },
                    ),
                }
            } else {
                (
                    BenchmarkRunView { store, next: run.next.spec_next(), results, ..run },
                    PipelineActionView::Perform { step: run.next.spec_next() },
                )
            }
        },
    }
}

/// Sets the time of `step` in the measurements.
fn record(results: &mut BenchmarkResults, step: PipelineStep, elapsed_ms: u64)
    ensures
        *final(results) == spec_record(*old(results), step, elapsed_ms),
{
    match step {
        PipelineStep::SetupPrepare => {
            results.prepare_setup_ms = elapsed_ms;
        },
        PipelineStep::SetupShow => {
            results.show_setup_ms = elapsed_ms;
        },
        PipelineStep::GenerateBlinds => {
            results.generate_blinds_ms = elapsed_ms;
        },
        PipelineStep::ProvePrepare => {
            results.prove_prepare_ms = elapsed_ms;
        },
        PipelineStep::ReblindPrepare => {
            results.reblind_prepare_ms = elapsed_ms;
        },
        PipelineStep::ProveShow => {
            results.prove_show_ms = elapsed_ms;
        },
        PipelineStep::ReblindShow => {
            results.reblind_show_ms = elapsed_ms;
        },
        PipelineStep::VerifyPrepare => {
            results.verify_prepare_ms = elapsed_ms;
        },
        PipelineStep::VerifyShow => {
            results.verify_show_ms = elapsed_ms;
        },
        PipelineStep::Done => {},
    }
}

/// The class and message of a failure, or the measurements of a success.
pub open spec fn spec_results_outcome(
    outcome: Result<BenchmarkResults, ZkProofError>,
) -> Result<BenchmarkResults, (ErrorKind, Seq<char>)> {
    match outcome {
        Ok(results) => Ok(results),
        Err(e) => Err((e.spec_kind(), e.spec_message())),
    }
}

/// Fills the sizes of the stored artifacts into the measurements.
pub fn measure_sizes(
    store: &ArtifactStore,
    results: BenchmarkResults,
) -> (outcome: Result<BenchmarkResults, ZkProofError>)
    ensures
        spec_results_outcome(outcome) == spec_with_sizes(store@, results),
{
    let prepare_pk = match get_proof_size(store, CircuitKind::Prepare, ArtifactKind::ProvingKey) {
        Ok(size) => size,
        Err(e) => {
            return Err(e);
        },
    };
    let prepare_vk = match get_proof_size(store, CircuitKind::Prepare, ArtifactKind::VerifyingKey) {
        Ok(size) => size,
        Err(e) => {
            return Err(e);
        },
    };
    let show_pk = match get_proof_size(store, CircuitKind::Show, ArtifactKind::ProvingKey) {
        Ok(size) => size,
        Err(e) => {
            return Err(e);
        },
    };
    let show_vk = match get_proof_size(store, CircuitKind::Show, ArtifactKind::VerifyingKey) {
        Ok(size) => size,
        Err(e) => {
            return Err(e);
        },
    };
    let prepare_proof = match get_proof_size(store, CircuitKind::Prepare, ArtifactKind::Proof) {
        Ok(size) => size,
        Err(e) => {
            return Err(e);
        },
    };
    let show_proof = match get_proof_size(store, CircuitKind::Show, ArtifactKind::Proof) {
        Ok(size) => size,
        Err(e) => {
            return Err(e);
        },
    };
    let prepare_witness = match get_proof_size(store, CircuitKind::Prepare, ArtifactKind::Witness) {
        Ok(size) => size,
        Err(e) => {
            return Err(e);
        },
    };
    let show_witness = match get_proof_size(store, CircuitKind::Show, ArtifactKind::Witness) {
        Ok(size) => size,
        Err(e) => {
            return Err(e);
        },
    };
    let mut complete = results;
    complete.prepare_proving_key_bytes = prepare_pk;
    complete.prepare_verifying_key_bytes = prepare_vk;
    complete.show_proving_key_bytes = show_pk;
    complete.show_verifying_key_bytes = show_vk;
    complete.prepare_proof_bytes = prepare_proof;
    complete.show_proof_bytes = show_proof;
    complete.prepare_witness_bytes = prepare_witness;
    complete.show_witness_bytes = show_witness;
    Ok(complete)
}

impl BenchmarkRun {
    /// A run that has not started: its store is empty and it waits for the first step.
    pub open spec fn spec_new(documents_path: Seq<char>) -> BenchmarkRunView {
        BenchmarkRunView {
            store: ArtifactStoreView::empty(documents_path),
            next: PipelineStep::SetupPrepare,
            blinds_generated: false,
            completed: false,
            results: BenchmarkResults::spec_zero(),
        }
    }

    /// Starts a run on the documents root `documents_path`. The first step to
    /// perform is `SetupPrepare`.
    pub fn new(documents_path: String) -> (run: BenchmarkRun)
        ensures
            run@ == BenchmarkRun::spec_new(documents_path@),
    {
        BenchmarkRun {
            store: ArtifactStore::new(documents_path),
            next: PipelineStep::SetupPrepare,
            blinds_generated: false,
            completed: false,
            results: BenchmarkResults::zero(),
        }
    }

    /// The artifacts that the steps so far have produced.
    pub fn store(&self) -> (store: &ArtifactStore)
        ensures
            store@ == self@.store,
    {
        &self.store
    }

    /// The step whose outcome the run is waiting for; `Done` when it is over.
    pub fn next_step(&self) -> (step: PipelineStep)
        ensures
            step == self@.next,
    {
        self.next
    }

    /// Whether the run has drawn its shared blinds.
    pub fn has_generated_blinds(&self) -> (generated: bool)
        ensures
            generated == self@.blinds_generated,
    {
        self.blinds_generated
    }

    /// Whether the run has gone through all its steps and reported its results.
    pub fn is_completed(&self) -> (completed: bool)
        ensures
            completed == self@.completed,
    {
        self.completed
    }

    /// What has been measured so far.
    pub fn results(&self) -> (results: BenchmarkResults)
        ensures
            results == self@.results,
    {
        self.results
    }

    /// Performs the blind-generation step: draws the run's shared blinds. It does
    /// so only while the run waits for that step, so that the blinds are always
    /// drawn after both setups and before any proof; at any other time nothing
    /// happens and the answer is `false`.
    pub fn generate_shared_blinds(&mut self) -> (generated: bool)
        ensures
            generated == (old(self)@.next == PipelineStep::GenerateBlinds),
            !generated ==> final(self)@ == old(self)@,
            generated ==> final(self)@ == (BenchmarkRunView {
                store: old(self)@.store.with_blinds(final(self)@.store.shared_blinds->value),
                blinds_generated: true,
                ..old(self)@
            }) && final(self)@.store.shared_blinds is Present,
            generated ==> final(self)@.store.shared_blinds->value.len() == NUM_SHARED_ROWS
                && all_canonical(final(self)@.store.shared_blinds->value),
    {
        match self.next {
            PipelineStep::GenerateBlinds => {
                let _ = generate_shared_blinds(&mut self.store);
                self.blinds_generated = true;
                true
            },
            _ => false,
        }
    }
}

/// Ends the run with a failure.
fn finish_with(run: &mut BenchmarkRun, e: ZkProofError) -> (action: PipelineAction)
    ensures
        final(run)@ == (BenchmarkRunView { next: PipelineStep::Done, ..old(run)@ }),
        action@ == (PipelineActionView::Finished {
            outcome: Err((e.spec_kind(), e.spec_message())),
        }),
{
    run.next = PipelineStep::Done;
    PipelineAction::Finished { outcome: Err(e) }
}

/// Ends the run because the reply belongs to another step.
fn finish_unexpected(run: &mut BenchmarkRun) -> (action: PipelineAction)
    ensures
        final(run)@ == (BenchmarkRunView { next: PipelineStep::Done, ..old(run)@ }),
        action@ == (PipelineActionView::Finished {
            outcome: Err(
                (ErrorKind::InvalidInput, spec_unexpected_reply_message(old(run)@.next)),
            ),
        }),
{
    let mut message = String::from_str("The run waits for the outcome of ");
    message.append(step_description(run.next));
    message.append(", and the reply is for something else");
    finish_with(run, ZkProofError::InvalidInput { message })
}

/// Records a step that succeeded and says what comes next.
fn move_on(run: &mut BenchmarkRun, elapsed_ms: u64) -> (action: PipelineAction)
    ensures
        (final(run)@, action@) == spec_move_on(old(run)@, elapsed_ms),
{
    let step = run.next;
    record(&mut run.results, step, elapsed_ms);
    match step {
        PipelineStep::VerifyShow => {
            run.next = PipelineStep::Done;
            match measure_sizes(&run.store, run.results) {
                Ok(complete) => {
                    run.results = complete;
                    run.completed = true;
                    PipelineAction::Finished { outcome: Ok(complete) }
                },
                Err(e) => {
                    let mut message = String::from_str(
                        "After the Verify of the show circuit the sizes could not be measured: ",
                    );
                    message.append(e.message().as_str());
                    PipelineAction::Finished { outcome: Err(ZkProofError::new(e.kind(), message)) }
                },
            }
        },
        _ => {
            run.next = step.next();
            PipelineAction::Perform { step: step.next() }
        },
    }
}

/// The run after a step that succeeded and left `run.store`, and what it asks next.
pub open spec fn spec_move_on(
    run: BenchmarkRunView,
    elapsed_ms: u64,
) -> (BenchmarkRunView, PipelineActionView) {
    let results = spec_record(run.results, run.next, elapsed_ms);
    if run.next == PipelineStep::VerifyShow {
        match spec_with_sizes(run.store, results) {
            Ok(complete) => (
                BenchmarkRunView {
                    next: PipelineStep::Done,
                    completed: true,
                    results: complete,
                    ..run
                },
                PipelineActionView::Finished { outcome: Ok(complete) },
            ),
            Err(failure) => (
                BenchmarkRunView { next: PipelineStep::Done, results, ..run },
                PipelineActionView::Finished {
                    outcome: Err((failure.0, spec_measuring_failure_message(failure.1))),
                },
            ),
        }
    } else {
        (
            BenchmarkRunView { next: run.next.spec_next(), results, ..run },
            PipelineActionView::Perform { step: run.next.spec_next() },
        )
    }
}

/// Takes the outcome of the step that the run waits for, which took
/// `elapsed_ms`, and answers with the next step to perform or with the end of the
/// run. See [`spec_advance`] for what happens in each case.
pub fn run_complete_benchmark(
    run: &mut BenchmarkRun,
    reply: StageReply,
    elapsed_ms: u64,
) -> (action: PipelineAction)
    ensures
        (final(run)@, action@) == spec_advance(old(run)@, reply, elapsed_ms),
{
    let step = run.next;
    match reply {
        StageReply::Setup { reply } => {
            let kind = match step {
                PipelineStep::SetupPrepare => CircuitKind::Prepare,
                PipelineStep::SetupShow => CircuitKind::Show,
                _ => {
                    return finish_unexpected(run);
                },
            };
            // The keys are saved after the step has been timed.
            match setup_circuit_keys_no_save(kind, reply) {
                Ok(keys) => {
                    save_keys(&mut run.store, kind, keys.0, keys.1);
                    move_on(run, elapsed_ms)
                },
                Err(e) => finish_with(run, e),
            }
        },
        StageReply::BlindsGenerated => {
            match step {
                PipelineStep::GenerateBlinds => {},
                _ => {
                    return finish_unexpected(run);
                },
            }
            if run.blinds_generated {
                move_on(run, elapsed_ms)
            } else {
                finish_with(
                    run,
                    ZkProofError::InvalidInput {
                        message: String::from_str(
                            "The run waits for the generation of the shared blinds, and it has drawn none",
                        ),
                    },
                )
            }
        },
        StageReply::Prove { reply } => {
            let kind = match step {
                PipelineStep::ProvePrepare => CircuitKind::Prepare,
                PipelineStep::ProveShow => CircuitKind::Show,
                _ => {
                    return finish_unexpected(run);
                },
            };
            match prove(&mut run.store, kind, reply, elapsed_ms) {
                Ok(_) => move_on(run, elapsed_ms),
                Err(e) => finish_with(run, e),
            }
        },
        StageReply::Reblind { reply } => {
            let kind = match step {
                PipelineStep::ReblindPrepare => CircuitKind::Prepare,
                PipelineStep::ReblindShow => CircuitKind::Show,
                _ => {
                    return finish_unexpected(run);
                },
            };
            match reblind(&mut run.store, kind, reply, elapsed_ms) {
                Ok(_) => move_on(run, elapsed_ms),
                Err(e) => finish_with(run, e),
            }
        },
        StageReply::Verify { reply } => {
            let kind = match step {
                PipelineStep::VerifyPrepare => CircuitKind::Prepare,
                PipelineStep::VerifyShow => CircuitKind::Show,
                _ => {
                    return finish_unexpected(run);
                },
            };
            match verify(&mut run.store, kind, reply) {
                Ok(_) => move_on(run, elapsed_ms),
                Err(e) => finish_with(run, e),
            }
        },
    }
}

} // verus!
