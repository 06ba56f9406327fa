use bellpepper_core::{num::AllocatedNum, ConstraintSystem, SynthesisError};
use ff::{Field, PrimeField};
use spartan2::provider::T256HyraxEngine;
use spartan2::spartan_zk::{SpartanProverKey, SpartanVerifierKey, SpartanZkSNARK};
use spartan2::traits::circuit::SpartanCircuit;
use spartan2::traits::snark::R1CSSNARKTrait;
use spartan2::traits::Engine;
use zk_credential::backend::ScalarBytes;
use zk_credential::circuit::CircuitKind;
use zk_credential::error::ZkProofError;
use zk_credential::protocol::{
    generate_shared_blinds, prove_prepare, reblind_prepare, setup_prepare_keys, verify_prepare,
    ProveReply, ReblindReply, SetupReply, VerifyReply,
};
use zk_credential::store::{ArtifactStore, Phase, Witness};

type E = T256HyraxEngine;
type Scalar = <E as Engine>::Scalar;
type Snark = SpartanZkSNARK<E>;

// Proves knowledge of x with x^3 + x + 5 = y, and makes y public.
#[derive(Clone, Debug)]
struct CubicCircuit {
    x: u64,
}

impl CubicCircuit {
    fn y(&self) -> u64 {
        self.x * self.x * self.x + self.x + 5
    }
}

impl SpartanCircuit<E> for CubicCircuit {
    fn public_values(&self) -> Result<Vec<Scalar>, SynthesisError> {
        Ok(vec![Scalar::from(self.y())])
    }

    fn shared<CS: ConstraintSystem<Scalar>>(
        &self,
        _: &mut CS,
    ) -> Result<Vec<AllocatedNum<Scalar>>, SynthesisError> {
        Ok(vec![])
    }

    fn precommitted<CS: ConstraintSystem<Scalar>>(
        &self,
        _: &mut CS,
        _: &[AllocatedNum<Scalar>],
    ) -> Result<Vec<AllocatedNum<Scalar>>, SynthesisError> {
        Ok(vec![])
    }

    fn num_challenges(&self) -> usize {
        0
    }

    fn synthesize<CS: ConstraintSystem<Scalar>>(
        &self,
        cs: &mut CS,
        _: &[AllocatedNum<Scalar>],
        _: &[AllocatedNum<Scalar>],
        _: Option<&[Scalar]>,
    ) -> Result<(), SynthesisError> {
        let value = Scalar::from(self.x);
        let x = AllocatedNum::alloc(cs.namespace(|| "x"), || Ok(value))?;
        let x_sq = x.square(cs.namespace(|| "x_sq"))?;
        let x_cu = x_sq.mul(cs.namespace(|| "x_cu"), &x)?;
        let y = AllocatedNum::alloc(cs.namespace(|| "y"), || {
            Ok(x_cu.get_value().unwrap() + x.get_value().unwrap() + Scalar::from(5u64))
        })?;
        cs.enforce(
            || "y = x^3 + x + 5",
            |lc| {
                lc + x_cu.get_variable()
                    + x.get_variable()
                    + CS::one()
                    + CS::one()
                    + CS::one()
                    + CS::one()
                    + CS::one()
            },
            |lc| lc + CS::one(),
            |lc| lc + y.get_variable(),
        );
        let _ = y.inputize(cs.namespace(|| "output"));
        Ok(())
    }
}

fn bytes_of(scalar: Scalar) -> ScalarBytes {
    scalar.to_repr().into()
}

fn backend_prove(key: &[u8], circuit: &CubicCircuit) -> Vec<u8> {
    let pk: SpartanProverKey<E> = bincode::deserialize(key).unwrap();
    let prepared = Snark::prep_prove(&pk, circuit.clone(), false).unwrap();
    let (proof, _) = Snark::prove(&pk, circuit.clone(), prepared, false).unwrap();
    bincode::serialize(&proof).unwrap()
}

fn backend_verify(proof: &[u8], key: &[u8]) -> VerifyReply {
    let vk: SpartanVerifierKey<E> = bincode::deserialize(key).unwrap();
    let proof: Snark = match bincode::deserialize(proof) {
        Ok(proof) => proof,
        Err(e) => return VerifyReply::Unreadable { reason: e.to_string() },
    };
    match proof.verify(&vk) {
        Ok(_) => VerifyReply::Accepted,
        Err(e) => VerifyReply::Rejected { reason: e.to_string() },
    }
}

#[test]
fn proofs_of_the_backend_go_through_the_whole_lifecycle() {
    let circuit = CubicCircuit { x: 2 };
    let mut store = ArtifactStore::new("docs".to_string());

    let (pk, vk) = Snark::setup(circuit.clone()).unwrap();
    let keys = SetupReply::Keys {
        proving_key: bincode::serialize(&pk).unwrap(),
        verifying_key: bincode::serialize(&vk).unwrap(),
    };
    setup_prepare_keys(&mut store, keys, 1).unwrap();
    generate_shared_blinds(&mut store).unwrap();

    let x = Scalar::from(circuit.x);
    let proof = backend_prove(store.load_proving_key(CircuitKind::Prepare).unwrap(), &circuit);
    let reply = ProveReply::Proved {
        public_values: vec![bytes_of(Scalar::from(circuit.y()))],
        witness: Witness {
            shared: vec![bytes_of(x)],
            rest: vec![bytes_of(x.square()), bytes_of(x.square() * x)],
        },
        proof: proof.clone(),
    };
    let proved = prove_prepare(&mut store, reply, 2).unwrap();
    assert_eq!(proved.proof_size_bytes, proof.len() as u64);

    let verdict = backend_verify(
        store.load_proof(CircuitKind::Prepare).unwrap(),
        store.load_verifying_key(CircuitKind::Prepare).unwrap(),
    );
    assert_eq!(verify_prepare(&mut store, verdict).unwrap(), true);
    assert_eq!(store.phase(CircuitKind::Prepare), Phase::Verified);

    // A second proof of the same statement draws fresh randomness.
    let fresh = backend_prove(store.load_proving_key(CircuitKind::Prepare).unwrap(), &circuit);
    assert_ne!(fresh, proof);
    let reblinded =
        reblind_prepare(&mut store, ReblindReply::Reblinded { proof: fresh.clone() }, 3).unwrap();
    assert_eq!(reblinded.comm_w_shared, proved.comm_w_shared);
    assert_eq!(store.load_proof(CircuitKind::Prepare).unwrap(), &fresh);
    let verdict = backend_verify(
        store.load_proof(CircuitKind::Prepare).unwrap(),
        store.load_verifying_key(CircuitKind::Prepare).unwrap(),
    );
    assert_eq!(verify_prepare(&mut store, verdict).unwrap(), true);

    // A proof that the backend cannot decode is not a rejected proof: it is an I/O failure.
    let verdict = backend_verify(
        &fresh[..fresh.len() / 2],
        store.load_verifying_key(CircuitKind::Prepare).unwrap(),
    );
    let e = verify_prepare(&mut store, verdict).unwrap_err();
    assert!(matches!(e, ZkProofError::IoError { .. }));
}
