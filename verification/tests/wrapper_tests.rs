use plonky2_examples::targets::{
    ExtensionTarget, FriInitialTreeProofTarget, FriProofTarget, FriQueryRoundTarget,
    FriQueryStepTarget, HashOutTarget, MerkleCapTarget, MerkleProofTarget, OpeningSetTarget,
    PolynomialCoeffsExtTarget, ProofTarget, ProofWithPublicInputsTarget, Target,
    VerifierCircuitTarget, Wire,
};
use plonky2_examples::wrapper::Wrapper;
use std::collections::hash_map::DefaultHasher;
use std::hash::{Hash, Hasher};

fn vt(i: usize) -> Target {
    Target::VirtualTarget { index: i }
}

fn cap(i: usize) -> MerkleCapTarget {
    MerkleCapTarget(vec![HashOutTarget { elements: [vt(i); 4] }])
}

fn empty_openings() -> OpeningSetTarget<2> {
    OpeningSetTarget {
        constants: vec![],
        plonk_sigmas: vec![],
        wires: vec![],
        plonk_zs: vec![],
        plonk_zs_next: vec![],
        lookup_zs: vec![],
        next_lookup_zs: vec![],
        partial_products: vec![],
        quotient_polys: vec![],
    }
}

fn simple_proof() -> ProofWithPublicInputsTarget<2> {
    ProofWithPublicInputsTarget {
        proof: ProofTarget {
            wires_cap: cap(1),
            plonk_zs_partial_products_cap: cap(2),
            quotient_polys_cap: cap(3),
            openings: empty_openings(),
            opening_proof: FriProofTarget {
                commit_phase_merkle_caps: vec![],
                query_round_proofs: vec![],
                final_poly: PolynomialCoeffsExtTarget(vec![]),
                pow_witness: vt(4),
            },
        },
        public_inputs: vec![vt(5), vt(6)],
    }
}

fn ext(i: usize) -> ExtensionTarget<2> {
    ExtensionTarget([vt(i), vt(i + 1)])
}

fn full_proof() -> ProofWithPublicInputsTarget<2> {
    let mut openings = empty_openings();
    openings.constants = vec![ext(10)];
    openings.wires = vec![ext(12), ext(14)];
    openings.quotient_polys = vec![ext(16)];
    let round = FriQueryRoundTarget {
        initial_trees_proof: FriInitialTreeProofTarget {
            evals_proofs: vec![(
                vec![vt(20), Target::Wire(Wire { row: 1, column: 2 })],
                MerkleProofTarget { siblings: vec![HashOutTarget { elements: [vt(21); 4] }] },
            )],
        },
        steps: vec![FriQueryStepTarget {
            evals: vec![ext(22)],
            merkle_proof: MerkleProofTarget { siblings: vec![HashOutTarget { elements: [vt(24); 4] }] },
        }],
    };
    ProofWithPublicInputsTarget {
        proof: ProofTarget {
            wires_cap: cap(1),
            plonk_zs_partial_products_cap: cap(2),
            quotient_polys_cap: cap(3),
            openings,
            opening_proof: FriProofTarget {
                commit_phase_merkle_caps: vec![cap(30), cap(31)],
                query_round_proofs: vec![round],
                final_poly: PolynomialCoeffsExtTarget(vec![ext(40), ext(42)]),
                pow_witness: vt(4),
            },
        },
        public_inputs: vec![vt(5), vt(6)],
    }
}

fn two_hash_verifier() -> VerifierCircuitTarget {
    VerifierCircuitTarget {
        constants_sigmas_cap: MerkleCapTarget(vec![
            HashOutTarget { elements: [vt(0), vt(1), vt(2), vt(3)] },
            HashOutTarget { elements: [vt(4), vt(5), vt(6), vt(7)] },
        ]),
    }
}

fn hash_of<T: Hash>(v: &T) -> u64 {
    let mut h = DefaultHasher::new();
    v.hash(&mut h);
    h.finish()
}

#[test]
fn proof_target_clone_keeps_each_field() {
    let w = Wrapper(simple_proof());
    let c = w.clone();
    assert_eq!(c.0.proof.wires_cap, cap(1));
    assert_eq!(c.0.proof.plonk_zs_partial_products_cap, cap(2));
    assert_eq!(c.0.proof.quotient_polys_cap, cap(3));
    assert_eq!(c.0.proof.opening_proof.pow_witness, vt(4));
    assert_eq!(c.0.public_inputs, vec![vt(5), vt(6)]);
    assert_eq!(c.0.proof.openings, empty_openings());
    assert!(c.0.proof.opening_proof.commit_phase_merkle_caps.is_empty());
    assert!(c.0.proof.opening_proof.query_round_proofs.is_empty());
    assert!(c.0.proof.opening_proof.final_poly.0.is_empty());
    assert_eq!(c, w);
}

#[test]
fn full_proof_target_clone_equals_original() {
    let w = Wrapper(full_proof());
    let c = w.clone();
    assert_eq!(c, w);
    assert_eq!(c.0.proof.opening_proof.commit_phase_merkle_caps, vec![cap(30), cap(31)]);
    assert_eq!(c.0.proof.opening_proof.final_poly.0, vec![ext(40), ext(42)]);
    assert_eq!(c.0.proof.openings.wires, vec![ext(12), ext(14)]);
    let round = &c.0.proof.opening_proof.query_round_proofs[0];
    assert_eq!(
        round.initial_trees_proof.evals_proofs[0].0,
        vec![vt(20), Target::Wire(Wire { row: 1, column: 2 })]
    );
    assert_eq!(round.steps[0].evals, vec![ext(22)]);
}

#[test]
fn proof_target_clone_is_a_deep_copy() {
    let w = Wrapper(full_proof());
    let mut c = w.clone();
    c.0.public_inputs.push(vt(99));
    c.0.proof.wires_cap.0[0].elements[0] = vt(98);
    c.0.proof.opening_proof.query_round_proofs[0].steps.clear();
    assert_ne!(c, w);
    assert_eq!(w, Wrapper(full_proof()));
}

#[test]
fn cloning_twice_gives_the_same_proof_target() {
    let w = Wrapper(full_proof());
    let c1 = w.clone();
    let c2 = c1.clone();
    assert_eq!(c2, c1);
    assert_eq!(c2, w);
}

#[test]
fn verifier_target_clone_keeps_the_cap_in_order() {
    let w = Wrapper(two_hash_verifier());
    let c = w.clone();
    assert_eq!(c.0.constants_sigmas_cap, two_hash_verifier().constants_sigmas_cap);
    assert_eq!(c.0.constants_sigmas_cap.0[1].elements, [vt(4), vt(5), vt(6), vt(7)]);
    assert_eq!(c, w);
    let c2 = c.clone();
    assert_eq!(c2, w);
}

#[test]
fn verifier_target_clone_of_empty_cap() {
    let w = Wrapper(VerifierCircuitTarget { constants_sigmas_cap: MerkleCapTarget(vec![]) });
    let c = w.clone();
    assert!(c.0.constants_sigmas_cap.0.is_empty());
    assert_eq!(c, w);
}

#[test]
fn wrappers_compare_as_their_content() {
    assert_eq!(Wrapper(two_hash_verifier()), Wrapper(two_hash_verifier()));
    assert_ne!(
        Wrapper(two_hash_verifier()),
        Wrapper(VerifierCircuitTarget { constants_sigmas_cap: cap(0) })
    );
    assert_ne!(Wrapper(simple_proof()), Wrapper(full_proof()));
}

#[test]
fn equal_wrappers_hash_alike() {
    assert_eq!(hash_of(&Wrapper(vt(3))), hash_of(&Wrapper(vt(3))));
    assert_eq!(hash_of(&Wrapper(ext(1))), hash_of(&Wrapper(ext(1))));
}

#[test]
fn wrapper_prints_its_content() {
    assert_eq!(format!("{:?}", Wrapper(vt(5))), "Wrapper(VirtualTarget { index: 5 })");
}
