use zk_credential::error::ZkProofError;
use zk_credential::inspect::get_comm_w_shared;
use zk_credential::mopro_hello_world;
use zk_credential::store::ArtifactStore;

#[test]
fn test_mopro_hello_world() {
    assert_eq!(mopro_hello_world(), "Hello, World!");
}

#[test]
fn test_invalid_circuit_type() {
    let store = ArtifactStore::new(".".to_string());
    let result = get_comm_w_shared(&store, "invalid".to_string());
    assert!(matches!(result, Err(ZkProofError::InvalidInput { .. })));
}
