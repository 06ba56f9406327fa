use zk_credential::backend::ScalarBytes;
use zk_credential::codec::{persist_blob, persist_witness};
use zk_credential::error::ZkProofError;
use zk_credential::pipeline::{
    measure_sizes, run_complete_benchmark, BenchmarkRun, PipelineAction, PipelineStep, StageReply,
};
use zk_credential::protocol::{BackendFailure, ProveReply, ReblindReply, SetupReply, VerifyReply};
use zk_credential::report::BenchmarkResults;
use zk_credential::store::{ArtifactStore, Slot, Witness};

fn scalar(n: u8) -> ScalarBytes {
    let mut bytes = [0u8; 32];
    bytes[0] = n;
    bytes
}

fn keys(pk: usize, vk: usize) -> StageReply {
    StageReply::Setup {
        reply: SetupReply::Keys { proving_key: vec![1; pk], verifying_key: vec![2; vk] },
    }
}

fn proved(proof: usize, rest: usize) -> StageReply {
    StageReply::Prove {
        reply: ProveReply::Proved {
            public_values: vec![],
            witness: Witness { shared: vec![scalar(5), scalar(6)], rest: vec![scalar(0); rest] },
            proof: vec![3; proof],
        },
    }
}

fn reblinded(proof: usize) -> StageReply {
    StageReply::Reblind { reply: ReblindReply::Reblinded { proof: vec![4; proof] } }
}

fn accepted() -> StageReply {
    StageReply::Verify { reply: VerifyReply::Accepted }
}

fn expect_step(action: PipelineAction, step: PipelineStep) {
    match action {
        PipelineAction::Perform { step: asked } => assert_eq!(asked, step),
        PipelineAction::Finished { outcome } => panic!("finished early: {:?}", outcome),
    }
}

#[test]
fn a_complete_run_measures_every_step() {
    let mut run = BenchmarkRun::new("docs".to_string());
    assert_eq!(run.next_step(), PipelineStep::SetupPrepare);
    expect_step(run_complete_benchmark(&mut run, keys(100, 10), 11), PipelineStep::SetupShow);
    expect_step(run_complete_benchmark(&mut run, keys(200, 20), 12), PipelineStep::GenerateBlinds);
    assert!(run.generate_shared_blinds());
    expect_step(
        run_complete_benchmark(&mut run, StageReply::BlindsGenerated, 13),
        PipelineStep::ProvePrepare,
    );
    expect_step(run_complete_benchmark(&mut run, proved(50, 3), 14), PipelineStep::ReblindPrepare);
    expect_step(run_complete_benchmark(&mut run, reblinded(51), 15), PipelineStep::ProveShow);
    expect_step(run_complete_benchmark(&mut run, proved(60, 4), 16), PipelineStep::ReblindShow);
    expect_step(run_complete_benchmark(&mut run, reblinded(61), 17), PipelineStep::VerifyPrepare);
    expect_step(run_complete_benchmark(&mut run, accepted(), 18), PipelineStep::VerifyShow);
    let outcome = match run_complete_benchmark(&mut run, accepted(), 19) {
        PipelineAction::Finished { outcome } => outcome.unwrap(),
        PipelineAction::Perform { step } => panic!("asked for {:?}", step),
    };
    let expected = BenchmarkResults {
        prepare_setup_ms: 11,
        show_setup_ms: 12,
        generate_blinds_ms: 13,
        prove_prepare_ms: 14,
        reblind_prepare_ms: 15,
        prove_show_ms: 16,
        reblind_show_ms: 17,
        verify_prepare_ms: 18,
        verify_show_ms: 19,
        prepare_proving_key_bytes: 100,
        prepare_verifying_key_bytes: 10,
        show_proving_key_bytes: 200,
        show_verifying_key_bytes: 20,
        prepare_proof_bytes: 51,
        show_proof_bytes: 61,
        prepare_witness_bytes: 12 + 5 * 32,
        show_witness_bytes: 12 + 6 * 32,
    };
    assert_eq!(outcome, expected);
    assert_eq!(run.results(), expected);
    assert_eq!(run.next_step(), PipelineStep::Done);
    assert!(run.is_completed());
    // Each size is the length of what is written into the artifact's file.
    let written = |bytes: Option<Vec<u8>>| bytes.unwrap().len() as u64;
    assert_eq!(outcome.prepare_witness_bytes, written(persist_witness(&run.store().prepare.witness)));
    assert_eq!(outcome.show_witness_bytes, written(persist_witness(&run.store().show.witness)));
    assert_eq!(
        outcome.prepare_proof_bytes,
        persist_blob(&run.store().prepare.proof).unwrap().len() as u64
    );
    assert_eq!(
        outcome.show_proving_key_bytes,
        persist_blob(&run.store().show.proving_key).unwrap().len() as u64
    );
    let prepare = run.store().load_instance(zk_credential::circuit::CircuitKind::Prepare).unwrap();
    let show = run.store().load_instance(zk_credential::circuit::CircuitKind::Show).unwrap();
    assert_eq!(prepare.comm_shared, show.comm_shared);
}

#[test]
fn a_failing_step_ends_the_run_and_keeps_earlier_artifacts() {
    let mut run = BenchmarkRun::new("docs".to_string());
    run_complete_benchmark(&mut run, keys(100, 10), 11);
    run_complete_benchmark(&mut run, keys(200, 20), 12);
    run.generate_shared_blinds();
    run_complete_benchmark(&mut run, StageReply::BlindsGenerated, 13);
    run_complete_benchmark(&mut run, proved(50, 3), 14);
    let failed = StageReply::Reblind {
        reply: ReblindReply::Failed {
            failure: BackendFailure::Synthesis { reason: "boom".to_string() },
        },
    };
    match run_complete_benchmark(&mut run, failed, 15) {
        PipelineAction::Finished { outcome: Err(ZkProofError::ProofGenerationFailed { message }) } => {
            assert_eq!(message, "Reblind of the prepare circuit failed: boom")
        },
        other => panic!("unexpected {:?}", other),
    }
    assert_eq!(run.next_step(), PipelineStep::Done);
    assert_eq!(run.store().load_proof(zk_credential::circuit::CircuitKind::Prepare).unwrap().len(), 50);
    assert_eq!(run.results().prove_prepare_ms, 14);
    assert_eq!(run.results().reblind_prepare_ms, 0);
    assert!(!run.is_completed());
    match run_complete_benchmark(&mut run, accepted(), 1) {
        PipelineAction::Finished { outcome: Err(ZkProofError::InvalidInput { .. }) } => {},
        other => panic!("unexpected {:?}", other),
    }
}

#[test]
fn a_reply_for_another_step_ends_the_run() {
    let mut run = BenchmarkRun::new("docs".to_string());
    match run_complete_benchmark(&mut run, accepted(), 1) {
        PipelineAction::Finished { outcome: Err(ZkProofError::InvalidInput { message }) } => {
            assert_eq!(
                message,
                "The run waits for the outcome of the Setup of the prepare circuit, and the reply is for something else"
            )
        },
        other => panic!("unexpected {:?}", other),
    }
    assert!(matches!(run.store().prepare.proving_key, Slot::Absent));
}

#[test]
fn blinds_are_drawn_only_at_their_step() {
    let mut run = BenchmarkRun::new("docs".to_string());
    assert!(!run.generate_shared_blinds());
    assert!(matches!(run.store().shared_blinds, Slot::Absent));
    run_complete_benchmark(&mut run, keys(1, 1), 1);
    assert!(!run.generate_shared_blinds());
    run_complete_benchmark(&mut run, keys(1, 1), 1);
    match run_complete_benchmark(&mut run, StageReply::BlindsGenerated, 1) {
        PipelineAction::Finished { outcome: Err(ZkProofError::InvalidInput { message }) } => {
            assert_eq!(
                message,
                "The run waits for the generation of the shared blinds, and it has drawn none"
            )
        },
        other => panic!("unexpected {:?}", other),
    }
}

#[test]
fn steps_follow_one_another() {
    let order = [
        PipelineStep::SetupPrepare,
        PipelineStep::SetupShow,
        PipelineStep::GenerateBlinds,
        PipelineStep::ProvePrepare,
        PipelineStep::ReblindPrepare,
        PipelineStep::ProveShow,
        PipelineStep::ReblindShow,
        PipelineStep::VerifyPrepare,
        PipelineStep::VerifyShow,
        PipelineStep::Done,
    ];
    for pair in order.windows(2) {
        assert_eq!(pair[0].next(), pair[1]);
    }
    assert_eq!(PipelineStep::Done.next(), PipelineStep::Done);
}

#[test]
fn sizes_need_every_artifact() {
    let store = ArtifactStore::new("docs".to_string());
    match measure_sizes(&store, BenchmarkResults::zero()) {
        Err(ZkProofError::FileNotFound { message }) => assert_eq!(
            message,
            "Failed to get proof size from 'keys/prepare_proving.key': no such artifact"
        ),
        other => panic!("unexpected {:?}", other),
    }
}

#[test]
fn a_failed_step_says_which_step_it_was() {
    let mut run = BenchmarkRun::new("docs".to_string());
    run_complete_benchmark(&mut run, keys(100, 10), 11);
    run_complete_benchmark(&mut run, keys(200, 20), 12);
    run.generate_shared_blinds();
    run_complete_benchmark(&mut run, StageReply::BlindsGenerated, 13);
    // 129 shared values take two rows, and the run has drawn one blind.
    let too_many = StageReply::Prove {
        reply: ProveReply::Proved {
            public_values: vec![],
            witness: Witness { shared: vec![scalar(1); 129], rest: vec![] },
            proof: vec![3; 5],
        },
    };
    match run_complete_benchmark(&mut run, too_many, 14) {
        PipelineAction::Finished { outcome: Err(ZkProofError::ProofGenerationFailed { message }) } => {
            assert_eq!(
                message,
                "Prove of the prepare circuit failed: The shared values need more commitment rows than there are shared blinds"
            )
        },
        other => panic!("unexpected {:?}", other),
    }
    match run_complete_benchmark(&mut run, accepted(), 1) {
        PipelineAction::Finished { outcome: Err(ZkProofError::InvalidInput { message }) } => {
            assert_eq!(
                message,
                "The run waits for the outcome of no step, for it is over, and the reply is for something else"
            )
        },
        other => panic!("unexpected {:?}", other),
    }
}
