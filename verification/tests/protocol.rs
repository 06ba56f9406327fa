use zk_credential::backend::ScalarBytes;
use zk_credential::circuit::{artifact_key, artifact_path, shared_blinds_key, ArtifactKind, CircuitKind};
use zk_credential::codec::{persist_instance, persist_witness};
use zk_credential::error::ZkProofError;
use zk_credential::inspect::{extract_comm_w_shared, get_comm_w_shared, get_proof_size};
use zk_credential::protocol::{
    commit_shared, generate_blinds, generate_shared_blinds, prove, prove_prepare, prove_show,
    reblind,
    reblind_prepare, reblind_show, save_keys, setup_circuit_keys_no_save, setup_prepare_keys,
    setup_show_keys, verify_prepare, verify_show, BackendFailure, ProveReply, ReblindReply,
    SetupReply, VerifyReply,
};
use zk_credential::store::{ArtifactStore, Phase, Slot, Witness};
use zk_credential::text::hex;

fn scalar(n: u8) -> ScalarBytes {
    let mut bytes = [0u8; 32];
    bytes[0] = n;
    bytes
}

fn keys(tag: u8) -> SetupReply {
    SetupReply::Keys { proving_key: vec![tag; 5], verifying_key: vec![tag; 3] }
}

fn proved(shared: Vec<ScalarBytes>, proof: Vec<u8>) -> ProveReply {
    ProveReply::Proved {
        public_values: vec![scalar(9)],
        witness: Witness { shared, rest: vec![scalar(1), scalar(2), scalar(3)] },
        proof,
    }
}

fn ready_store() -> ArtifactStore {
    let mut store = ArtifactStore::new("docs".to_string());
    setup_prepare_keys(&mut store, keys(1), 12).unwrap();
    setup_show_keys(&mut store, keys(2), 34).unwrap();
    generate_shared_blinds(&mut store).unwrap();
    store
}

fn blinds_of(store: &ArtifactStore) -> Vec<ScalarBytes> {
    store.load_shared_blinds().unwrap().clone()
}

#[test]
fn setup_saves_both_keys_and_reports_the_time() {
    let mut store = ArtifactStore::new("docs".to_string());
    assert_eq!(store.phase(CircuitKind::Prepare), Phase::Unset);
    let message = setup_prepare_keys(&mut store, keys(1), 1234).unwrap();
    assert_eq!(message, "Prepare circuit keys setup completed in 1234ms");
    assert_eq!(store.load_proving_key(CircuitKind::Prepare).unwrap(), &vec![1u8; 5]);
    assert_eq!(store.load_verifying_key(CircuitKind::Prepare).unwrap(), &vec![1u8; 3]);
    assert_eq!(store.phase(CircuitKind::Prepare), Phase::KeysReady);
    assert_eq!(store.phase(CircuitKind::Show), Phase::Unset);
    let message = setup_show_keys(&mut store, keys(2), 0).unwrap();
    assert_eq!(message, "Show circuit keys setup completed in 0ms");
    assert_eq!(store.load_proving_key(CircuitKind::Show).unwrap(), &vec![2u8; 5]);
}

#[test]
fn setup_failure_is_the_backends_failure() {
    let mut store = ArtifactStore::new("docs".to_string());
    let reply = SetupReply::Failed {
        failure: BackendFailure::Synthesis { reason: "unsatisfied".to_string() },
    };
    let e = setup_prepare_keys(&mut store, reply, 5).unwrap_err();
    assert!(matches!(e, ZkProofError::ProofGenerationFailed { .. }));
    assert_eq!(e.message(), "Setup of the prepare circuit failed: unsatisfied");
    assert_eq!(
        e.to_string(),
        "Proof generation failed: Setup of the prepare circuit failed: unsatisfied"
    );
    assert!(matches!(store.prepare.proving_key, Slot::Absent));
    let reply = SetupReply::Failed {
        failure: BackendFailure::InvalidInput { reason: "no deviceKeyX".to_string() },
    };
    assert!(matches!(
        setup_circuit_keys_no_save(CircuitKind::Show, reply),
        Err(ZkProofError::InvalidInput { .. })
    ));
    let reply = SetupReply::Failed {
        failure: BackendFailure::InputNotFound { reason: "no input".to_string() },
    };
    match setup_circuit_keys_no_save(CircuitKind::Show, reply) {
        Err(ZkProofError::FileNotFound { message }) => {
            assert_eq!(message, "Setup of the show circuit failed: no input")
        },
        other => panic!("unexpected {:?}", other),
    }
}

#[test]
fn generated_blinds_are_one_canonical_row() {
    let mut store = ArtifactStore::new("docs".to_string());
    let message = generate_shared_blinds(&mut store).unwrap();
    assert_eq!(message, "Shared blinds generated successfully");
    let blinds = blinds_of(&store);
    assert_eq!(blinds.len(), 1);
    assert!(commit_shared(&vec![scalar(1)], &blinds).is_ok());
    assert!(matches!(store.prepare.proving_key, Slot::Absent));
}

#[test]
fn generated_blinds_differ_from_draw_to_draw() {
    let mut store = ArtifactStore::new("docs".to_string());
    generate_shared_blinds(&mut store).unwrap();
    let first = blinds_of(&store);
    generate_shared_blinds(&mut store).unwrap();
    let second = blinds_of(&store);
    assert_ne!(first, second);
}

#[test]
fn commitment_depends_on_values_and_blinds_alone() {
    let values = vec![scalar(3), scalar(4)];
    let blinds = vec![scalar(7)];
    let first = commit_shared(&values, &blinds).unwrap();
    let second = commit_shared(&values.clone(), &blinds.clone()).unwrap();
    assert_eq!(first, second);
    assert!(!first.is_empty());
    let other_values = commit_shared(&vec![scalar(3), scalar(5)], &blinds).unwrap();
    assert_ne!(first, other_values);
    let other_blinds = commit_shared(&values, &vec![scalar(8)]).unwrap();
    assert_ne!(first, other_blinds);
}

#[test]
fn commitment_is_not_its_input() {
    let values = vec![scalar(3)];
    let blinds = vec![scalar(7)];
    let commitment = commit_shared(&values, &blinds).unwrap();
    assert_ne!(commitment, values[0].to_vec());
    assert_ne!(commitment, blinds[0].to_vec());
}

#[test]
fn commitment_needs_a_blind_for_each_row() {
    let one_row: Vec<ScalarBytes> = (0..128).map(|i| scalar(i as u8)).collect();
    let two_rows: Vec<ScalarBytes> = (0..129).map(|i| scalar(i as u8)).collect();
    assert!(commit_shared(&one_row, &vec![scalar(1)]).is_ok());
    match commit_shared(&two_rows, &vec![scalar(1)]).unwrap_err() {
        BackendFailure::Synthesis { reason } => assert_eq!(
            reason,
            "The shared values need more commitment rows than there are shared blinds"
        ),
        other => panic!("unexpected {:?}", other),
    }
    assert!(commit_shared(&two_rows, &vec![scalar(1), scalar(2)]).is_ok());
    assert!(commit_shared(&vec![], &vec![]).is_ok());
    assert!(commit_shared(&vec![scalar(1)], &vec![]).is_err());
}

#[test]
fn commitment_rejects_scalars_outside_the_field() {
    match commit_shared(&vec![[0xffu8; 32]], &vec![scalar(1)]).unwrap_err() {
        BackendFailure::Synthesis { reason } => assert_eq!(
            reason,
            "A shared value or a shared blind is not a canonical field element"
        ),
        other => panic!("unexpected {:?}", other),
    }
    assert!(commit_shared(&vec![scalar(1)], &vec![[0xffu8; 32]]).is_err());
}

#[test]
fn prove_without_keys_requires_setup() {
    let mut store = ArtifactStore::new("docs".to_string());
    generate_shared_blinds(&mut store).unwrap();
    let e = prove_prepare(&mut store, proved(vec![scalar(5)], vec![1, 2, 3]), 10).unwrap_err();
    assert!(matches!(e, ZkProofError::SetupRequired { .. }));
    assert_eq!(
        e.message(),
        "Prove of the prepare circuit failed: No key at 'keys/prepare_proving.key': set up the prepare circuit first"
    );
    assert!(matches!(store.prepare.proof, Slot::Absent));
    let e = prove_show(&mut store, proved(vec![scalar(5)], vec![1, 2, 3]), 10).unwrap_err();
    assert!(matches!(e, ZkProofError::SetupRequired { .. }));
}

#[test]
fn prove_without_blinds_finds_no_file() {
    let mut store = ArtifactStore::new("docs".to_string());
    setup_prepare_keys(&mut store, keys(1), 1).unwrap();
    let e = prove_prepare(&mut store, proved(vec![scalar(5)], vec![1, 2, 3]), 10).unwrap_err();
    assert!(matches!(e, ZkProofError::FileNotFound { .. }));
    assert_eq!(
        e.message(),
        "Prove of the prepare circuit failed: Failed to load shared blinds from 'keys/shared_blinds.bin': no such artifact"
    );
}

#[test]
fn prove_reports_backend_failures() {
    let mut store = ready_store();
    let reply = ProveReply::Failed {
        failure: BackendFailure::Synthesis { reason: "constraint 7 unsatisfied".to_string() },
    };
    let e = prove_prepare(&mut store, reply, 10).unwrap_err();
    assert!(matches!(e, ZkProofError::ProofGenerationFailed { .. }));
    assert_eq!(e.message(), "Prove of the prepare circuit failed: constraint 7 unsatisfied");
    assert_eq!(store.phase(CircuitKind::Prepare), Phase::KeysReady);
    assert!(matches!(store.prepare.instance, Slot::Absent));
}

#[test]
fn prove_saves_artifacts_and_reports() {
    let mut store = ready_store();
    let shared = vec![scalar(5), scalar(6)];
    let result = prove_prepare(&mut store, proved(shared.clone(), vec![7; 40]), 321).unwrap();
    assert_eq!(result.prep_ms, 0);
    assert_eq!(result.prove_ms, 321);
    assert_eq!(result.total_ms, 321);
    assert_eq!(result.proof_size_bytes, 40);
    let expected = commit_shared(&shared, &blinds_of(&store)).unwrap();
    assert_eq!(result.comm_w_shared, hex(&expected));
    assert_eq!(store.load_instance(CircuitKind::Prepare).unwrap().comm_shared, expected);
    assert_eq!(store.load_instance(CircuitKind::Prepare).unwrap().public_values, vec![scalar(9)]);
    assert_eq!(store.load_witness(CircuitKind::Prepare).unwrap().shared, shared);
    assert_eq!(store.load_proof(CircuitKind::Prepare).unwrap(), &vec![7u8; 40]);
    assert_eq!(store.phase(CircuitKind::Prepare), Phase::Proved);
    assert_eq!(store.phase(CircuitKind::Show), Phase::KeysReady);
    assert_eq!(extract_comm_w_shared(&store, CircuitKind::Prepare).unwrap(), hex(&expected));
    assert_eq!(get_comm_w_shared(&store, "prepare".to_string()).unwrap(), hex(&expected));
}

#[test]
fn prepare_and_show_are_linked() {
    let mut store = ready_store();
    let shared = vec![scalar(5), scalar(6)];
    let prepare = prove_prepare(&mut store, proved(shared.clone(), vec![1; 10]), 1).unwrap();
    let show = prove_show(&mut store, proved(shared.clone(), vec![2; 20]), 2).unwrap();
    assert_eq!(prepare.comm_w_shared, show.comm_w_shared);
    assert_eq!(
        get_comm_w_shared(&store, "prepare".to_string()).unwrap(),
        get_comm_w_shared(&store, "show".to_string()).unwrap()
    );
    assert_eq!(
        store.load_instance(CircuitKind::Prepare).unwrap().comm_shared,
        store.load_instance(CircuitKind::Show).unwrap().comm_shared
    );
}

#[test]
fn new_blinds_break_the_link() {
    let mut store = ready_store();
    let shared = vec![scalar(5), scalar(6)];
    let prepare = prove_prepare(&mut store, proved(shared.clone(), vec![1; 10]), 1).unwrap();
    generate_shared_blinds(&mut store).unwrap();
    let show = prove_show(&mut store, proved(shared.clone(), vec![2; 20]), 2).unwrap();
    assert_ne!(prepare.comm_w_shared, show.comm_w_shared);
}

#[test]
fn reblind_keeps_the_commitment_and_takes_the_new_proof() {
    let mut store = ready_store();
    let shared = vec![scalar(5), scalar(6)];
    let first = prove_prepare(&mut store, proved(shared.clone(), vec![1; 10]), 1).unwrap();
    let second =
        reblind_prepare(&mut store, ReblindReply::Reblinded { proof: vec![2; 11] }, 50).unwrap();
    assert_eq!(second.comm_w_shared, first.comm_w_shared);
    assert_eq!(second.prove_ms, 50);
    assert_eq!(second.total_ms, 50);
    assert_eq!(second.prep_ms, 0);
    assert_eq!(second.proof_size_bytes, 11);
    assert_eq!(store.load_proof(CircuitKind::Prepare).unwrap(), &vec![2u8; 11]);
    assert_eq!(store.phase(CircuitKind::Prepare), Phase::Reblinded);
    let third =
        reblind_prepare(&mut store, ReblindReply::Reblinded { proof: vec![3; 12] }, 60).unwrap();
    assert_eq!(third.comm_w_shared, first.comm_w_shared);
    assert_eq!(store.load_proof(CircuitKind::Prepare).unwrap(), &vec![3u8; 12]);
    assert_eq!(store.load_witness(CircuitKind::Prepare).unwrap().shared, shared);
    assert_eq!(store.load_instance(CircuitKind::Prepare).unwrap().public_values, vec![scalar(9)]);
}

#[test]
fn reblind_needs_what_prove_left() {
    let mut store = ready_store();
    let e = reblind_show(&mut store, ReblindReply::Reblinded { proof: vec![2; 11] }, 50)
        .unwrap_err();
    assert!(matches!(e, ZkProofError::FileNotFound { .. }));
    assert_eq!(
        e.message(),
        "Reblind of the show circuit failed: Failed to load instance from 'keys/show_instance.bin': no such artifact"
    );
    let mut empty = ArtifactStore::new("docs".to_string());
    let e = reblind(&mut empty, CircuitKind::Show, ReblindReply::Reblinded { proof: vec![] }, 1)
        .unwrap_err();
    assert!(matches!(e, ZkProofError::SetupRequired { .. }));
}

#[test]
fn reblind_reports_backend_failures_and_keeps_the_proof() {
    let mut store = ready_store();
    prove_show(&mut store, proved(vec![scalar(5)], vec![1; 10]), 1).unwrap();
    let reply = ReblindReply::Failed {
        failure: BackendFailure::Synthesis { reason: "out of memory".to_string() },
    };
    let e = reblind_show(&mut store, reply, 5).unwrap_err();
    assert!(matches!(e, ZkProofError::ProofGenerationFailed { .. }));
    assert_eq!(e.message(), "Reblind of the show circuit failed: out of memory");
    assert_eq!(store.load_proof(CircuitKind::Show).unwrap(), &vec![1u8; 10]);
    assert_eq!(store.phase(CircuitKind::Show), Phase::Proved);
}

#[test]
fn malformed_artifacts_are_io_errors() {
    let mut store = ready_store();
    prove_show(&mut store, proved(vec![scalar(5)], vec![1; 10]), 1).unwrap();
    store.show.witness = Slot::Malformed { reason: "unexpected end of file".to_string() };
    let e = reblind_show(&mut store, ReblindReply::Reblinded { proof: vec![2; 11] }, 50)
        .unwrap_err();
    assert!(matches!(e, ZkProofError::IoError { .. }));
    assert_eq!(
        e.message(),
        "Reblind of the show circuit failed: Failed to decode witness from 'keys/show_witness.bin': unexpected end of file"
    );
    store.show.proving_key = Slot::Malformed { reason: "bad length".to_string() };
    let e = prove(&mut store, CircuitKind::Show, proved(vec![scalar(5)], vec![1; 10]), 1)
        .unwrap_err();
    assert!(matches!(e, ZkProofError::IoError { .. }));
}

#[test]
fn verify_reports_acceptance_and_rejection_apart() {
    let mut store = ready_store();
    let e = verify_prepare(&mut store, VerifyReply::Accepted).unwrap_err();
    assert!(matches!(e, ZkProofError::FileNotFound { .. }));
    prove_prepare(&mut store, proved(vec![scalar(5)], vec![1; 10]), 1).unwrap();
    assert_eq!(verify_prepare(&mut store, VerifyReply::Accepted).unwrap(), true);
    assert_eq!(store.phase(CircuitKind::Prepare), Phase::Verified);
    let e = verify_prepare(&mut store, VerifyReply::Rejected { reason: "bad sum-check".to_string() })
        .unwrap_err();
    assert!(matches!(e, ZkProofError::VerificationFailed { .. }));
    assert_eq!(
        e.message(),
        "Verify of the prepare circuit failed: the backend rejected the proof: bad sum-check"
    );
    assert_eq!(
        e.to_string(),
        "Verification failed: Verify of the prepare circuit failed: the backend rejected the proof: bad sum-check"
    );
    let mut empty = ArtifactStore::new("docs".to_string());
    let e = verify_show(&mut empty, VerifyReply::Accepted).unwrap_err();
    assert!(matches!(e, ZkProofError::SetupRequired { .. }));
    assert_eq!(
        e.message(),
        "Verify of the show circuit failed: No key at 'keys/show_verifying.key': set up the show circuit first"
    );
}

#[test]
fn commitment_query_needs_an_instance() {
    let store = ready_store();
    let e = get_comm_w_shared(&store, "show".to_string()).unwrap_err();
    assert!(matches!(e, ZkProofError::FileNotFound { .. }));
    assert_eq!(
        e.message(),
        "Failed to load instance from 'keys/show_instance.bin': no such artifact"
    );
    let e = get_comm_w_shared(&store, "Prepare".to_string()).unwrap_err();
    assert!(matches!(e, ZkProofError::InvalidInput { .. }));
    assert_eq!(e.message(), "Invalid circuit_type 'Prepare'. Must be 'prepare' or 'show'");
}

#[test]
fn sizes_are_measured_in_bytes() {
    let mut store = ready_store();
    assert_eq!(get_proof_size(&store, CircuitKind::Prepare, ArtifactKind::ProvingKey).unwrap(), 5);
    assert_eq!(get_proof_size(&store, CircuitKind::Show, ArtifactKind::VerifyingKey).unwrap(), 3);
    let e = get_proof_size(&store, CircuitKind::Show, ArtifactKind::Proof).unwrap_err();
    assert!(matches!(e, ZkProofError::FileNotFound { .. }));
    assert_eq!(
        e.message(),
        "Failed to get proof size from 'keys/show_proof.bin': no such artifact"
    );
    prove_show(&mut store, proved(vec![scalar(5)], vec![1; 10]), 1).unwrap();
    assert_eq!(get_proof_size(&store, CircuitKind::Show, ArtifactKind::Proof).unwrap(), 10);
    assert_eq!(
        get_proof_size(&store, CircuitKind::Show, ArtifactKind::Witness).unwrap(),
        12 + 4 * 32
    );
    assert_eq!(
        get_proof_size(&store, CircuitKind::Show, ArtifactKind::Witness).unwrap(),
        persist_witness(&store.show.witness).unwrap().len() as u64
    );
    let comm_len = store.load_instance(CircuitKind::Show).unwrap().comm_shared.len() as u64;
    assert_eq!(
        get_proof_size(&store, CircuitKind::Show, ArtifactKind::Instance).unwrap(),
        12 + 32 + comm_len
    );
    assert_eq!(
        get_proof_size(&store, CircuitKind::Show, ArtifactKind::Instance).unwrap(),
        persist_instance(&store.show.instance).unwrap().len() as u64
    );
}

#[test]
fn keys_can_be_saved_apart_from_setup() {
    let mut store = ArtifactStore::new("docs".to_string());
    let (pk, vk) = setup_circuit_keys_no_save(CircuitKind::Show, keys(4)).unwrap();
    assert!(matches!(store.show.proving_key, Slot::Absent));
    save_keys(&mut store, CircuitKind::Show, pk, vk);
    assert_eq!(store.load_proving_key(CircuitKind::Show).unwrap(), &vec![4u8; 5]);
    assert_eq!(store.phase(CircuitKind::Show), Phase::KeysReady);
}

#[test]
fn artifact_keys_and_paths() {
    assert_eq!(artifact_key(CircuitKind::Prepare, ArtifactKind::ProvingKey), "keys/prepare_proving.key");
    assert_eq!(artifact_key(CircuitKind::Show, ArtifactKind::Instance), "keys/show_instance.bin");
    assert_eq!(shared_blinds_key(), "keys/shared_blinds.bin");
    assert_eq!(artifact_path("/data/docs", "keys/show_proof.bin"), "/data/docs/keys/show_proof.bin");
    assert!(matches!(CircuitKind::parse("prepare"), Ok(CircuitKind::Prepare)));
    assert!(matches!(CircuitKind::parse("show"), Ok(CircuitKind::Show)));
    assert!(matches!(CircuitKind::parse(""), Err(ZkProofError::InvalidInput { .. })));
}

#[test]
fn blinds_are_generated_row_by_row() {
    let mut store = ArtifactStore::new("docs".to_string());
    generate_blinds(&mut store, 3).unwrap();
    let blinds = blinds_of(&store);
    assert_eq!(blinds.len(), 3);
    assert_ne!(blinds[0], blinds[1]);
    let three_rows: Vec<ScalarBytes> = (0..300).map(|i| scalar(i as u8)).collect();
    assert!(commit_shared(&three_rows, &blinds).is_ok());
    generate_blinds(&mut store, 0).unwrap();
    assert!(blinds_of(&store).is_empty());
    let e = generate_blinds(&mut store, usize::MAX / 128 + 1).unwrap_err();
    assert!(matches!(e, ZkProofError::InvalidInput { .. }));
    assert_eq!(e.message(), "More blinding rows were asked for than the backend can draw at once");
    assert!(generate_blinds(&mut store, usize::MAX).is_err());
    assert!(blinds_of(&store).is_empty());
}

#[test]
fn what_the_backend_cannot_decode_is_an_io_error() {
    let mut store = ready_store();
    let reply = ProveReply::Failed {
        failure: BackendFailure::UnreadableArtifact { reason: "unexpected end of key".to_string() },
    };
    let e = prove_show(&mut store, reply, 1).unwrap_err();
    assert!(matches!(e, ZkProofError::IoError { .. }));
    assert_eq!(e.message(), "Prove of the show circuit failed: unexpected end of key");
    prove_show(&mut store, proved(vec![scalar(5)], vec![1; 10]), 1).unwrap();
    let e = verify_show(&mut store, VerifyReply::Unreadable { reason: "bad proof".to_string() })
        .unwrap_err();
    assert!(matches!(e, ZkProofError::IoError { .. }));
    assert_eq!(e.message(), "Verify of the show circuit failed: bad proof");
    assert_eq!(e.to_string(), "IO error: Verify of the show circuit failed: bad proof");
    assert_eq!(store.phase(CircuitKind::Show), Phase::Proved);
    let e = verify_show(&mut store, VerifyReply::Rejected { reason: "bad proof".to_string() })
        .unwrap_err();
    assert!(matches!(e, ZkProofError::VerificationFailed { .. }));
}

#[test]
fn a_failed_proof_names_its_stage() {
    let mut store = ArtifactStore::new("docs".to_string());
    setup_prepare_keys(&mut store, keys(1), 1).unwrap();
    store.shared_blinds = Slot::Present { value: vec![] };
    let e = prove_prepare(&mut store, proved(vec![scalar(5)], vec![1, 2, 3]), 10).unwrap_err();
    assert!(matches!(e, ZkProofError::ProofGenerationFailed { .. }));
    assert_eq!(
        e.message(),
        "Prove of the prepare circuit failed: The shared values need more commitment rows than there are shared blinds"
    );
    store.shared_blinds = Slot::Present { value: vec![[0xffu8; 32]] };
    let e = prove_prepare(&mut store, proved(vec![scalar(5)], vec![1, 2, 3]), 10).unwrap_err();
    assert_eq!(
        e.message(),
        "Prove of the prepare circuit failed: A shared value or a shared blind is not a canonical field element"
    );
}

#[test]
fn reblind_refuses_the_proof_that_is_there() {
    let mut store = ready_store();
    prove_show(&mut store, proved(vec![scalar(5)], vec![1; 10]), 1).unwrap();
    let e = reblind_show(&mut store, ReblindReply::Reblinded { proof: vec![1; 10] }, 2)
        .unwrap_err();
    assert!(matches!(e, ZkProofError::ProofGenerationFailed { .. }));
    assert_eq!(
        e.message(),
        "Reblind of the show circuit failed: The backend handed over the proof that was there before"
    );
    assert_eq!(store.phase(CircuitKind::Show), Phase::Proved);
    reblind_show(&mut store, ReblindReply::Reblinded { proof: vec![2; 10] }, 2).unwrap();
    let e = reblind_show(&mut store, ReblindReply::Reblinded { proof: vec![2; 10] }, 2)
        .unwrap_err();
    assert!(matches!(e, ZkProofError::ProofGenerationFailed { .. }));
    assert_eq!(store.load_proof(CircuitKind::Show).unwrap(), &vec![2u8; 10]);
    reblind_show(&mut store, ReblindReply::Reblinded { proof: vec![1; 10] }, 2).unwrap();
    assert_eq!(store.load_proof(CircuitKind::Show).unwrap(), &vec![1u8; 10]);
}
