//! What holds across several operations of the protocol.

use crate::backend::{all_canonical, ScalarBytes};
use crate::circuit::{ArtifactKind, CircuitKind};
use crate::error::{ErrorKind, ZkProofError};
use crate::inspect::{lemma_witness_length, spec_artifact_bytes, spec_saturated};
use crate::pipeline::{
    spec_advance, spec_blinds_not_generated_message, spec_measuring_failure_message, spec_record,
    spec_stage, spec_step_kind, spec_unexpected_reply_message, spec_with_sizes, BenchmarkRun,
    BenchmarkRunView, PipelineStep, StageReply,
};
use crate::protocol::{
    spec_failure_message, spec_prove_fault, spec_prove_post, spec_reblind_fault,
    spec_reblind_post, spec_setup_post, spec_shared_commitment, spec_verify_fault,
    spec_verify_post, Operation, ProveReply, ReblindReply, SetupReply, VerifyReply,
    NUM_SHARED_ROWS,
};
use crate::report::{BenchmarkResults, ProofResult};
use crate::store::{ArtifactStoreView, Phase, SlotView};
use vstd::prelude::*;

verus! {

/// The stored instance of `kind` carries the commitment to the stored witness's
/// shared values under the blinds that the store holds now. This is so from a
/// Prove on, until the blinds are replaced.
pub open spec fn spec_linked(store: ArtifactStoreView, kind: CircuitKind) -> bool {
    &&& store.of(kind).instance is Present
    &&& store.of(kind).witness is Present
    &&& store.shared_blinds is Present
    &&& store.of(kind).instance->value.comm_shared == spec_shared_commitment(
        store.of(kind).witness->value.shared,
        store.shared_blinds->value,
    )
}

/// The shared values of the witness that a successful reply carries.
pub open spec fn spec_reply_shared(reply: ProveReply) -> Seq<ScalarBytes> {
    match reply {
        ProveReply::Proved { witness, .. } => witness.shared@,
        ProveReply::Failed { .. } => Seq::empty(),
    }
}

/// A successful Prove leaves the circuit linked: its instance commits to its
/// witness's shared values under the current blinds.
pub proof fn law_prove_links(
    before: ArtifactStoreView,
    kind: CircuitKind,
    reply: ProveReply,
    elapsed_ms: u64,
    after: ArtifactStoreView,
    done: Result<ProofResult, ZkProofError>,
)
    requires
        spec_prove_post(before, kind, reply, elapsed_ms, after, done),
        done is Ok,
    ensures
        spec_linked(after, kind),
        after.shared_blinds == before.shared_blinds,
        after.of(kind).witness->value.shared == spec_reply_shared(reply),
{
}

/// Linkage. When the Prepare circuit and then the Show circuit are proved from
/// the same shared values, with no change of the blinds in between, the two
/// instances carry the same shared commitment, and so do the two reports.
pub proof fn law_linkage(
    start: ArtifactStoreView,
    prepare_reply: ProveReply,
    prepare_ms: u64,
    between: ArtifactStoreView,
    prepare_done: Result<ProofResult, ZkProofError>,
    show_reply: ProveReply,
    show_ms: u64,
    end: ArtifactStoreView,
    show_done: Result<ProofResult, ZkProofError>,
)
    requires
        spec_prove_post(
            start,
            CircuitKind::Prepare,
            prepare_reply,
            prepare_ms,
            between,
            prepare_done,
        ),
        spec_prove_post(between, CircuitKind::Show, show_reply, show_ms, end, show_done),
        prepare_done is Ok,
        show_done is Ok,
        spec_reply_shared(prepare_reply) == spec_reply_shared(show_reply),
    ensures
        end.prepare.instance is Present,
        end.show.instance is Present,
        end.prepare.instance->value.comm_shared == end.show.instance->value.comm_shared,
        prepare_done->Ok_0@.comm_w_shared == show_done->Ok_0@.comm_w_shared,
{
}

/// Reblinding keeps the shared commitment and changes the proof. When a linked
/// circuit is reblinded twice, both resulting instances carry the commitment that
/// the instance had before, the witness is untouched, and each time the stored
/// proof is the one that the backend handed over. The two proofs differ byte for
/// byte, and the first differs from the proof that was there before: a Reblind
/// does not succeed on a proof that the store holds already. (That the backend
/// hands over a new proof each time is its doing: it draws fresh randomness.)
pub proof fn law_reblind_keeps_commitment(
    start: ArtifactStoreView,
    kind: CircuitKind,
    first_reply: ReblindReply,
    first_ms: u64,
    between: ArtifactStoreView,
    first_done: Result<ProofResult, ZkProofError>,
    second_reply: ReblindReply,
    second_ms: u64,
    end: ArtifactStoreView,
    second_done: Result<ProofResult, ZkProofError>,
)
    requires
        spec_linked(start, kind),
        spec_reblind_post(start, kind, first_reply, first_ms, between, first_done),
        spec_reblind_post(between, kind, second_reply, second_ms, end, second_done),
        first_done is Ok,
        second_done is Ok,
    ensures
        between.of(kind).instance->value.comm_shared == start.of(kind).instance->value.comm_shared,
        end.of(kind).instance->value.comm_shared == start.of(kind).instance->value.comm_shared,
        first_done->Ok_0@.comm_w_shared == second_done->Ok_0@.comm_w_shared,
        end.of(kind).witness == start.of(kind).witness,
        first_reply is Reblinded && between.of(kind).proof == (SlotView::Present {
            value: first_reply->proof@,
        }),
        second_reply is Reblinded && end.of(kind).proof == (SlotView::Present {
            value: second_reply->proof@,
        }),
        between.of(kind).proof != start.of(kind).proof,
        end.of(kind).proof != between.of(kind).proof,
        first_reply->proof@ != second_reply->proof@,
        spec_linked(end, kind),
{
}

/// Commitments follow the blinds. When the blinds are replaced between the proof
/// of the Prepare circuit and the proof of the Show circuit, the Prepare instance
/// carries the commitment under the old blinds and the Show instance the
/// commitment under the new ones. Whether the two differ is then a matter of the
/// backend's commitments alone.
pub proof fn law_commitments_follow_blinds(
    start: ArtifactStoreView,
    prepare_reply: ProveReply,
    prepare_ms: u64,
    proved: ArtifactStoreView,
    prepare_done: Result<ProofResult, ZkProofError>,
    new_blinds: Seq<ScalarBytes>,
    show_reply: ProveReply,
    show_ms: u64,
    end: ArtifactStoreView,
    show_done: Result<ProofResult, ZkProofError>,
)
    requires
        spec_prove_post(
            start,
            CircuitKind::Prepare,
            prepare_reply,
            prepare_ms,
            proved,
            prepare_done,
        ),
        spec_prove_post(
            proved.with_blinds(new_blinds),
            CircuitKind::Show,
            show_reply,
            show_ms,
            end,
            show_done,
        ),
        prepare_done is Ok,
        show_done is Ok,
    ensures
        start.shared_blinds is Present,
        end.prepare.instance->value.comm_shared == spec_shared_commitment(
            spec_reply_shared(prepare_reply),
            start.shared_blinds->value,
        ),
        end.show.instance->value.comm_shared == spec_shared_commitment(
            spec_reply_shared(show_reply),
            new_blinds,
        ),
{
}

/// The order of the lifecycle. A Prove succeeds only after a Setup has left a
/// proving key and blinds have been generated; a Reblind only after a Prove has
/// left an instance and a witness; a Verify only after a Setup has left a
/// verifying key and a Prove or Reblind a proof. Each leaves the circuit in the
/// phase that is named after it.
pub proof fn law_lifecycle_order(
    before: ArtifactStoreView,
    kind: CircuitKind,
    prove_reply: ProveReply,
    reblind_reply: ReblindReply,
    verify_reply: VerifyReply,
    elapsed_ms: u64,
    after_prove: ArtifactStoreView,
    proved: Result<ProofResult, ZkProofError>,
    after_reblind: ArtifactStoreView,
    reblinded: Result<ProofResult, ZkProofError>,
    after_verify: ArtifactStoreView,
    verified: Result<bool, ZkProofError>,
)
    requires
        spec_prove_post(before, kind, prove_reply, elapsed_ms, after_prove, proved),
        spec_reblind_post(before, kind, reblind_reply, elapsed_ms, after_reblind, reblinded),
        spec_verify_post(before, kind, verify_reply, after_verify, verified),
    ensures
        proved is Ok ==> before.of(kind).proving_key is Present && before.shared_blinds
            is Present && after_prove.of(kind).phase == Phase::Proved,
        reblinded is Ok ==> before.of(kind).proving_key is Present && before.of(kind).instance
            is Present && before.of(kind).witness is Present && before.shared_blinds is Present
            && after_reblind.of(kind).phase == Phase::Reblinded,
        verified is Ok ==> before.of(kind).verifying_key is Present && before.of(kind).proof
            is Present && after_verify.of(kind).phase == Phase::Verified,
{
}

/// Operations on one circuit leave the other circuit's artifacts alone: a Prove
/// or a Reblind of `kind` changes nothing that is kept for the other kind, nor
/// the blinds.
pub proof fn law_circuits_are_independent(
    before: ArtifactStoreView,
    kind: CircuitKind,
    other: CircuitKind,
    prove_reply: ProveReply,
    reblind_reply: ReblindReply,
    elapsed_ms: u64,
    after_prove: ArtifactStoreView,
    proved: Result<ProofResult, ZkProofError>,
    after_reblind: ArtifactStoreView,
    reblinded: Result<ProofResult, ZkProofError>,
)
    requires
        kind != other,
        spec_prove_post(before, kind, prove_reply, elapsed_ms, after_prove, proved),
        spec_reblind_post(before, kind, reblind_reply, elapsed_ms, after_reblind, reblinded),
    ensures
        after_prove.of(other) == before.of(other),
        after_prove.shared_blinds == before.shared_blinds,
        after_reblind.of(other) == before.of(other),
        after_reblind.shared_blinds == before.shared_blinds,
{
}

/// Missing prerequisites. Without a proving key a Prove fails with
/// `SetupRequired`, whatever the backend replied, and the store is unchanged.
pub proof fn law_prove_needs_setup(
    before: ArtifactStoreView,
    kind: CircuitKind,
    reply: ProveReply,
    elapsed_ms: u64,
    after: ArtifactStoreView,
    done: Result<ProofResult, ZkProofError>,
)
    requires
        before.of(kind).proving_key is Absent,
        spec_prove_post(before, kind, reply, elapsed_ms, after, done),
    ensures
        done is Err,
        done->Err_0.spec_kind() == ErrorKind::SetupRequired,
        after == before,
{
}

/// Round trip, as far as the protocol goes. Once keys are set up and a circuit
/// is proved, and however often it is reblinded after that, a verification that
/// the backend accepts is answered with `Ok(true)`: nothing that the protocol
/// keeps stands between a proof and its acceptance. (That the backend accepts the
/// proofs it makes is the backend's doing.)
pub proof fn law_accepted_proofs_verify(
    start: ArtifactStoreView,
    kind: CircuitKind,
    setup_reply: SetupReply,
    setup_ms: u128,
    ready: ArtifactStoreView,
    set_up: Result<String, ZkProofError>,
    prove_reply: ProveReply,
    prove_ms: u64,
    proved: ArtifactStoreView,
    prove_done: Result<ProofResult, ZkProofError>,
    reblind_reply: ReblindReply,
    reblind_ms: u64,
    reblinded: ArtifactStoreView,
    reblind_done: Result<ProofResult, ZkProofError>,
    after_first: ArtifactStoreView,
    first_verdict: Result<bool, ZkProofError>,
    after_second: ArtifactStoreView,
    second_verdict: Result<bool, ZkProofError>,
)
    requires
        spec_setup_post(start, kind, setup_reply, setup_ms, ready, set_up),
        spec_prove_post(ready, kind, prove_reply, prove_ms, proved, prove_done),
        spec_reblind_post(proved, kind, reblind_reply, reblind_ms, reblinded, reblind_done),
        spec_verify_post(proved, kind, VerifyReply::Accepted, after_first, first_verdict),
        spec_verify_post(reblinded, kind, VerifyReply::Accepted, after_second, second_verdict),
        set_up is Ok,
        prove_done is Ok,
        reblind_done is Ok,
    ensures
        first_verdict == Ok::<bool, ZkProofError>(true),
        second_verdict == Ok::<bool, ZkProofError>(true),
        after_first.of(kind).proof == proved.of(kind).proof,
        after_second.of(kind).proof == reblinded.of(kind).proof,
{
}

/// A verdict is never silent. Verify answers `Ok(true)` or fails: a rejection by
/// the backend is `VerificationFailed`, a missing proof is `FileNotFound`, and
/// the two cannot be confused.
pub proof fn law_verdicts_are_distinct(
    before: ArtifactStoreView,
    kind: CircuitKind,
    reply: VerifyReply,
    after: ArtifactStoreView,
    done: Result<bool, ZkProofError>,
)
    requires
        spec_verify_post(before, kind, reply, after, done),
    ensures
        done is Ok ==> done->Ok_0 && reply is Accepted,
        done is Err && done->Err_0.spec_kind() == ErrorKind::VerificationFailed ==> reply
            is Rejected && before.of(kind).proof is Present,
        before.of(kind).verifying_key is Present && before.of(kind).proof is Absent ==> done
            is Err && done->Err_0.spec_kind() == ErrorKind::FileNotFound,
{
}

/// Whether a run has the step with the index `step` behind it: it waits for a
/// later step, or it has gone through them all.
pub open spec fn spec_past(run: BenchmarkRunView, step: nat) -> bool {
    step < run.next.spec_index() <= 8 || run.completed
}

/// What a run can rely on: the keys of the setups behind it; blinds that it has
/// drawn itself once it is past that step; for each circuit proved so far a proof
/// and an instance linked to its witness; for each circuit verified so far the
/// phase that says so; and, once it has gone through all its steps, results that
/// hold the sizes of the artifacts in its store.
pub open spec fn spec_run_consistent(run: BenchmarkRunView) -> bool {
    &&& spec_past(run, 0) ==> run.store.prepare.proving_key is Present
        && run.store.prepare.verifying_key is Present
    &&& spec_past(run, 1) ==> run.store.show.proving_key is Present
        && run.store.show.verifying_key is Present
    &&& run.blinds_generated ==> run.store.shared_blinds is Present
        && run.store.shared_blinds->value.len() == NUM_SHARED_ROWS && all_canonical(
        run.store.shared_blinds->value,
    )
    &&& spec_past(run, 2) ==> run.blinds_generated
    &&& spec_past(run, 3) ==> run.store.prepare.proof is Present && spec_linked(
        run.store,
        CircuitKind::Prepare,
    )
    &&& spec_past(run, 5) ==> run.store.show.proof is Present && spec_linked(
        run.store,
        CircuitKind::Show,
    )
    &&& spec_past(run, 7) ==> run.store.prepare.phase == Phase::Verified
    &&& run.completed ==> run.next == PipelineStep::Done && run.store.show.phase
        == Phase::Verified && spec_with_sizes(run.store, run.results) == Ok::<
        BenchmarkResults,
        (ErrorKind, Seq<char>),
    >(run.results)
}

/// What a caller can do to a run: report the outcome of a step, or have the run
/// draw its blinds (`drawn` stands for the scalars that came out).
pub enum RunEvent {
    Report { reply: StageReply, elapsed_ms: u64 },
    DrawBlinds { drawn: Seq<ScalarBytes> },
}

/// Whether an event can occur: a draw yields one canonical scalar for each row
/// of the shared commitment.
pub open spec fn spec_event_possible(event: RunEvent) -> bool {
    match event {
        RunEvent::Report { .. } => true,
        RunEvent::DrawBlinds { drawn } => drawn.len() == NUM_SHARED_ROWS && all_canonical(drawn),
    }
}

/// Whether every event of a sequence can occur.
pub open spec fn spec_events_possible(events: Seq<RunEvent>) -> bool {
    forall|i: int| 0 <= i < events.len() ==> spec_event_possible(#[trigger] events[i])
}

/// The run after one event.
pub open spec fn spec_run_after_event(run: BenchmarkRunView, event: RunEvent) -> BenchmarkRunView {
    match event {
        RunEvent::Report { reply, elapsed_ms } => spec_advance(run, reply, elapsed_ms).0,
        RunEvent::DrawBlinds { drawn } => if run.next == PipelineStep::GenerateBlinds {
            BenchmarkRunView { store: run.store.with_blinds(drawn), blinds_generated: true, ..run }
        } else {
            run
        },
    }
}

/// The run after a sequence of events, from a fresh run on `documents_path`.
pub open spec fn spec_run_after(
    documents_path: Seq<char>,
    events: Seq<RunEvent>,
) -> BenchmarkRunView
    decreases events.len(),
{
    if events.len() == 0 {
        BenchmarkRun::spec_new(documents_path)
    } else {
        spec_run_after_event(spec_run_after(documents_path, events.drop_last()), events.last())
    }
}

/// One event keeps a consistent run consistent.
pub proof fn law_event_keeps_run_consistent(run: BenchmarkRunView, event: RunEvent)
    requires
        spec_run_consistent(run),
        spec_event_possible(event),
    ensures
        spec_run_consistent(spec_run_after_event(run, event)),
{
}

/// Ordering. Whatever a caller reports and in whatever order, a run that waits
/// for a Prove, a Reblind or a Verify, and a run that has finished with results,
/// has both pairs of keys and has drawn its blinds itself, after the setups:
/// blind generation always lies between the two setups and the first proof.
pub proof fn law_run_is_consistent(documents_path: Seq<char>, events: Seq<RunEvent>)
    requires
        spec_events_possible(events),
    ensures
        spec_run_consistent(spec_run_after(documents_path, events)),
    decreases events.len(),
{
    if events.len() > 0 {
        let earlier = events.drop_last();
        assert(spec_events_possible(earlier)) by {
            assert forall|i: int| 0 <= i < earlier.len() implies spec_event_possible(
                #[trigger] earlier[i],
            ) by {
                assert(earlier[i] == events[i]);
            }
        }
        law_run_is_consistent(documents_path, earlier);
        law_event_keeps_run_consistent(spec_run_after(documents_path, earlier), events.last());
    }
}

/// No rollback. A step that fails ends the run and leaves the store as the steps
/// before it made it; and a run ends well only with its last step.
pub proof fn law_failed_step_keeps_artifacts(
    run: BenchmarkRunView,
    reply: StageReply,
    elapsed_ms: u64,
)
    ensures
        ({
            let (after, action) = spec_advance(run, reply, elapsed_ms);
            &&& action is Finished ==> after.next == PipelineStep::Done
            &&& action is Finished && action->outcome is Err && run.next
                != PipelineStep::VerifyShow ==> after.store == run.store
            &&& action is Finished && action->outcome is Ok ==> run.next
                == PipelineStep::VerifyShow && after.completed && after.results
                == action->outcome->Ok_0
            &&& action is Perform ==> action->step == run.next.spec_next() && after.next
                == action->step && action->step != PipelineStep::Done
        }),
{
}

/// The operation that a step stands for; blind generation and `Done` stand for none.
pub open spec fn spec_step_operation(step: PipelineStep) -> Option<Operation> {
    match step {
        PipelineStep::SetupPrepare => Some(Operation::Setup),
        PipelineStep::SetupShow => Some(Operation::Setup),
        PipelineStep::ProvePrepare => Some(Operation::Prove),
        PipelineStep::ProveShow => Some(Operation::Prove),
        PipelineStep::ReblindPrepare => Some(Operation::Reblind),
        PipelineStep::ReblindShow => Some(Operation::Reblind),
        PipelineStep::VerifyPrepare => Some(Operation::Verify),
        PipelineStep::VerifyShow => Some(Operation::Verify),
        PipelineStep::GenerateBlinds => None,
        PipelineStep::Done => None,
    }
}

/// Whether a message says that it was `step` at which a run ended: it names the
/// operation and the circuit of the step, or the step that the run waited for.
pub open spec fn spec_names_step(step: PipelineStep, message: Seq<char>) -> bool {
    ||| message == spec_unexpected_reply_message(step)
    ||| step == PipelineStep::GenerateBlinds && message == spec_blinds_not_generated_message()
    ||| step == PipelineStep::VerifyShow && exists|detail: Seq<char>|
        message == #[trigger] spec_measuring_failure_message(detail)
    ||| spec_step_operation(step) is Some && exists|detail: Seq<char>|
        message == #[trigger] spec_failure_message(
            spec_step_operation(step).unwrap(),
            spec_step_kind(step).unwrap(),
            detail,
        )
}

/// A failed step names itself: what a step reports when it fails says which
/// step it was.
pub proof fn lemma_stage_failure_names_step(run: BenchmarkRunView, reply: StageReply)
    requires
        spec_stage(run, reply) is Err,
    ensures
        spec_names_step(run.next, spec_stage(run, reply)->Err_0.1),
{
    let message = spec_stage(run, reply)->Err_0.1;
    let step = run.next;
    match reply {
        StageReply::Setup { reply } => {
            if step == PipelineStep::SetupPrepare || step == PipelineStep::SetupShow {
                let detail = reply->failure.spec_reason();
                assert(message == spec_failure_message(
                    spec_step_operation(step).unwrap(),
                    spec_step_kind(step).unwrap(),
                    detail,
                ));
            }
        },
        StageReply::BlindsGenerated => {},
        StageReply::Prove { reply } => {
            if step == PipelineStep::ProvePrepare || step == PipelineStep::ProveShow {
                let kind = spec_step_kind(step).unwrap();
                let detail = spec_prove_fault(run.store, kind, reply)->Some_0.1;
                assert(message == spec_failure_message(
                    spec_step_operation(step).unwrap(),
                    spec_step_kind(step).unwrap(),
                    detail,
                ));
            }
        },
        StageReply::Reblind { reply } => {
            if step == PipelineStep::ReblindPrepare || step == PipelineStep::ReblindShow {
                let kind = spec_step_kind(step).unwrap();
                let detail = spec_reblind_fault(run.store, kind, reply)->Some_0.1;
                assert(message == spec_failure_message(
                    spec_step_operation(step).unwrap(),
                    spec_step_kind(step).unwrap(),
                    detail,
                ));
            }
        },
        StageReply::Verify { reply } => {
            if step == PipelineStep::VerifyPrepare || step == PipelineStep::VerifyShow {
                let kind = spec_step_kind(step).unwrap();
                let detail = spec_verify_fault(run.store, kind, reply)->Some_0.1;
                assert(message == spec_failure_message(
                    spec_step_operation(step).unwrap(),
                    spec_step_kind(step).unwrap(),
                    detail,
                ));
            }
        },
    }
}

/// A failed run says where it failed. Whatever ends a run with a failure, the
/// message of the failure names the step that the run was at.
pub proof fn law_failure_names_step(run: BenchmarkRunView, reply: StageReply, elapsed_ms: u64)
    ensures
        ({
            let (after, action) = spec_advance(run, reply, elapsed_ms);
            action is Finished && action->outcome is Err ==> spec_names_step(
                run.next,
                action->outcome->Err_0.1,
            )
        }),
{
    let (after, action) = spec_advance(run, reply, elapsed_ms);
    if action is Finished && action->outcome is Err {
        let message = action->outcome->Err_0.1;
        match spec_stage(run, reply) {
            Ok(store) => {
                let results = spec_record(run.results, run.next, elapsed_ms);
                let detail = spec_with_sizes(store, results)->Err_0.1;
                assert(run.next == PipelineStep::VerifyShow);
                assert(message == spec_measuring_failure_message(detail));
            },
            Err(failure) => {
                assert(message == failure.1);
                lemma_stage_failure_names_step(run, reply);
            },
        }
    }
}

/// The last step decides. A run that waits for its last step and is told that the
/// backend accepted the Show proof finishes with results: no size can be missing.
pub proof fn law_last_step_finishes(run: BenchmarkRunView, elapsed_ms: u64)
    requires
        spec_run_consistent(run),
        run.next == PipelineStep::VerifyShow,
    ensures
        ({
            let reply = StageReply::Verify { reply: VerifyReply::Accepted };
            let (after, action) = spec_advance(run, reply, elapsed_ms);
            action is Finished && action->outcome is Ok && after.completed
        }),
{
}

/// Linkage in a run. Once both circuits have been proved in a run, and still
/// when the run has finished with results, their instances carry the same shared
/// commitment whenever their witnesses share the same values.
pub proof fn law_run_links_circuits(documents_path: Seq<char>, events: Seq<RunEvent>)
    requires
        spec_events_possible(events),
        spec_past(spec_run_after(documents_path, events), 5),
        spec_run_after(documents_path, events).store.prepare.witness->value.shared
            == spec_run_after(documents_path, events).store.show.witness->value.shared,
    ensures
        spec_run_after(documents_path, events).store.prepare.instance->value.comm_shared
            == spec_run_after(documents_path, events).store.show.instance->value.comm_shared,
{
    law_run_is_consistent(documents_path, events);
}

/// A finished run. A run that has gone through all its steps holds both pairs of
/// keys, both proofs, both witnesses and both instances, each instance linked to
/// its witness under the blinds that the run drew, and both circuits verified.
/// Each of the eight sizes it reports is the length of the file of its own
/// artifact: of the bytes of a key or a proof, and of the encoding of a witness.
pub proof fn law_finished_run(documents_path: Seq<char>, events: Seq<RunEvent>)
    requires
        spec_events_possible(events),
        spec_run_after(documents_path, events).completed,
    ensures
        ({
            let run = spec_run_after(documents_path, events);
            let store = run.store;
            let size = |kind: CircuitKind, artifact: ArtifactKind|
                spec_saturated(spec_artifact_bytes(store, kind, artifact)->Some_0.len());
            &&& run.next == PipelineStep::Done
            &&& store.prepare.proving_key is Present && store.prepare.verifying_key is Present
            &&& store.show.proving_key is Present && store.show.verifying_key is Present
            &&& store.prepare.proof is Present && store.show.proof is Present
            &&& spec_linked(store, CircuitKind::Prepare) && spec_linked(store, CircuitKind::Show)
            &&& store.prepare.phase == Phase::Verified && store.show.phase == Phase::Verified
            &&& run.results.prepare_proving_key_bytes == size(
                CircuitKind::Prepare,
                ArtifactKind::ProvingKey,
            )
            &&& run.results.prepare_verifying_key_bytes == size(
                CircuitKind::Prepare,
                ArtifactKind::VerifyingKey,
            )
            &&& run.results.show_proving_key_bytes == size(
                CircuitKind::Show,
                ArtifactKind::ProvingKey,
            )
            &&& run.results.show_verifying_key_bytes == size(
                CircuitKind::Show,
                ArtifactKind::VerifyingKey,
            )
            &&& run.results.prepare_proof_bytes == size(CircuitKind::Prepare, ArtifactKind::Proof)
            &&& run.results.show_proof_bytes == size(CircuitKind::Show, ArtifactKind::Proof)
            &&& run.results.prepare_witness_bytes == size(
                CircuitKind::Prepare,
                ArtifactKind::Witness,
            )
            &&& run.results.show_witness_bytes == size(CircuitKind::Show, ArtifactKind::Witness)
            &&& run.results.prepare_witness_bytes >= 12 && run.results.show_witness_bytes >= 12
        }),
{
    law_run_is_consistent(documents_path, events);
    let store = spec_run_after(documents_path, events).store;
    lemma_witness_length(store.prepare.witness->value.shared, store.prepare.witness->value.rest);
    lemma_witness_length(store.show.witness->value.shared, store.show.witness->value.rest);
}

} // verus!
