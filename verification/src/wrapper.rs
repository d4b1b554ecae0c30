use crate::targets::{
    FriProofTarget, PolynomialCoeffsExtTarget, ProofTarget, ProofWithPublicInputsTarget,
    VerifierCircuitTarget,
};
use vstd::prelude::*;

verus! {

/// A transparent wrapper around a value.
///
/// It compares, hashes and prints as the wrapped value does. Wrapping a proof target
/// or a verifier data target gives it a `Clone` that copies every field, so that the
/// copy names the very same targets as the original.
#[derive(Debug, PartialEq, Eq, Hash)]
pub struct Wrapper<T>(pub T);

impl<const D: usize> Clone for Wrapper<ProofWithPublicInputsTarget<D>> {
    /// A field-by-field copy of the wrapped proof target: the same Merkle caps, openings
    /// and FRI proof, and the same public inputs in the same order.
    fn clone(&self) -> (res: Self)
        ensures
            res.0@ == self.0@,
    {
        let res = Wrapper(
            ProofWithPublicInputsTarget {
                proof: ProofTarget {
                    wires_cap: self.0.proof.wires_cap.clone(),
                    plonk_zs_partial_products_cap: self.0.proof.plonk_zs_partial_products_cap.clone(),
                    quotient_polys_cap: self.0.proof.quotient_polys_cap.clone(),
                    openings: self.0.proof.openings.clone(),
                    opening_proof: FriProofTarget {
                        commit_phase_merkle_caps: self.0.proof.opening_proof.commit_phase_merkle_caps.clone(),
                        query_round_proofs: self.0.proof.opening_proof.query_round_proofs.clone(),
                        final_poly: PolynomialCoeffsExtTarget(
                            self.0.proof.opening_proof.final_poly.0.clone(),
                        ),
                        pow_witness: self.0.proof.opening_proof.pow_witness.clone(),
                    },
                },
                public_inputs: self.0.public_inputs.clone(),
            },
        );
        assert(res.0@.proof.opening_proof.commit_phase_merkle_caps
            =~= self.0@.proof.opening_proof.commit_phase_merkle_caps);
        assert(res.0@.proof.opening_proof.query_round_proofs
            =~= self.0@.proof.opening_proof.query_round_proofs);
        res
    }
}

impl Clone for Wrapper<VerifierCircuitTarget> {
    /// A copy of the wrapped verifier data target: the same constants-and-sigmas cap,
    /// hash by hash, in the same order.
    fn clone(&self) -> (res: Self)
        ensures
            res.0@ == self.0@,
    {
        Wrapper(
            VerifierCircuitTarget { constants_sigmas_cap: self.0.constants_sigmas_cap.clone() },
        )
    }
}

/// Any chain of clones of a wrapped proof target holds the targets of the original:
/// a clone of a clone equals the original.
pub proof fn lemma_proof_target_clones_agree<const D: usize>(
    w: Wrapper<ProofWithPublicInputsTarget<D>>,
    c1: Wrapper<ProofWithPublicInputsTarget<D>>,
    c2: Wrapper<ProofWithPublicInputsTarget<D>>,
)
    requires
        cloned(w, c1),
        cloned(c1, c2),
    ensures
        c1.0@ == w.0@,
        c2.0@ == w.0@,
{
}

/// Any chain of clones of a wrapped verifier data target holds the cap of the
/// original: a clone of a clone equals the original.
pub proof fn lemma_verifier_target_clones_agree(
    w: Wrapper<VerifierCircuitTarget>,
    c1: Wrapper<VerifierCircuitTarget>,
    c2: Wrapper<VerifierCircuitTarget>,
)
    requires
        cloned(w, c1),
        cloned(c1, c2),
    ensures
        c1.0@ == w.0@,
        c2.0@ == w.0@,
{
}

} // verus!
