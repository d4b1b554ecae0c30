use vstd::prelude::*;

verus! {

/// The number of field elements in a hash output.
pub const NUM_HASH_OUT_ELTS: usize = 4;

/// A wire of the circuit, seen as a cell of a `degree x num_wires` table.
#[derive(Copy, Clone, Eq, PartialEq, Hash, Debug)]
pub struct Wire {
    pub row: usize,
    pub column: usize,
}

/// A location in the witness.
#[derive(Copy, Clone, Eq, PartialEq, Hash, Debug)]
pub enum Target {
    /// A cell of the wire table.
    Wire(Wire),
    /// A target with no place in the wire table, which can be copied to one that has.
    VirtualTarget { index: usize },
}

/// The targets of a hash output.
#[derive(Copy, Clone, Debug, Eq, PartialEq)]
pub struct HashOutTarget {
    pub elements: [Target; NUM_HASH_OUT_ELTS],
}

/// The targets of an element of a degree-`D` extension field.
#[derive(Copy, Clone, Eq, PartialEq, Hash, Debug)]
pub struct ExtensionTarget<const D: usize>(pub [Target; D]);

/// The targets of a Merkle cap: the hashes of the roots of its subtrees, in order.
#[derive(Debug, Eq, PartialEq)]
pub struct MerkleCapTarget(pub Vec<HashOutTarget>);

impl View for MerkleCapTarget {
    type V = Seq<HashOutTarget>;

    open spec fn view(&self) -> Seq<HashOutTarget> {
        self.0@
    }
}

impl Clone for MerkleCapTarget {
    /// A copy with the same hashes in the same order.
    fn clone(&self) -> (res: Self)
        ensures
            res@ == self@,
    {
        MerkleCapTarget(self.0.clone())
    }
}


/// The targets of a Merkle proof: the digests of the sibling subtrees, from the
/// bottommost layer up.
#[derive(Debug, Eq, PartialEq)]
pub struct MerkleProofTarget {
    pub siblings: Vec<HashOutTarget>,
}

impl View for MerkleProofTarget {
    type V = Seq<HashOutTarget>;

    open spec fn view(&self) -> Seq<HashOutTarget> {
        self.siblings@
    }
}

impl Clone for MerkleProofTarget {
    /// A copy with the same sibling digests in the same order.
    fn clone(&self) -> (res: Self)
        ensures
            res@ == self@,
    {
        MerkleProofTarget { siblings: self.siblings.clone() }
    }
}

/// The targets of the coefficients of a polynomial over the extension field.
#[derive(Debug, Eq, PartialEq)]
pub struct PolynomialCoeffsExtTarget<const D: usize>(pub Vec<ExtensionTarget<D>>);

impl<const D: usize> View for PolynomialCoeffsExtTarget<D> {
    type V = Seq<ExtensionTarget<D>>;

    open spec fn view(&self) -> Seq<ExtensionTarget<D>> {
        self.0@
    }
}

impl<const D: usize> Clone for PolynomialCoeffsExtTarget<D> {
    /// A copy with the same coefficients in the same order.
    fn clone(&self) -> (res: Self)
        ensures
            res@ == self@,
    {
        PolynomialCoeffsExtTarget(self.0.clone())
    }
}

/// The opened values of an opening set: one sequence of extension targets per
/// group of polynomials.
pub struct OpeningSetModel<const D: usize> {
    pub constants: Seq<ExtensionTarget<D>>,
    pub plonk_sigmas: Seq<ExtensionTarget<D>>,
    pub wires: Seq<ExtensionTarget<D>>,
    pub plonk_zs: Seq<ExtensionTarget<D>>,
    pub plonk_zs_next: Seq<ExtensionTarget<D>>,
    pub lookup_zs: Seq<ExtensionTarget<D>>,
    pub next_lookup_zs: Seq<ExtensionTarget<D>>,
    pub partial_products: Seq<ExtensionTarget<D>>,
    pub quotient_polys: Seq<ExtensionTarget<D>>,
}

/// The targets of the purported values of each polynomial at a single point.
#[derive(Debug, Eq, PartialEq)]
pub struct OpeningSetTarget<const D: usize> {
    pub constants: Vec<ExtensionTarget<D>>,
    pub plonk_sigmas: Vec<ExtensionTarget<D>>,
    pub wires: Vec<ExtensionTarget<D>>,
    pub plonk_zs: Vec<ExtensionTarget<D>>,
    pub plonk_zs_next: Vec<ExtensionTarget<D>>,
    pub lookup_zs: Vec<ExtensionTarget<D>>,
    pub next_lookup_zs: Vec<ExtensionTarget<D>>,
    pub partial_products: Vec<ExtensionTarget<D>>,
    pub quotient_polys: Vec<ExtensionTarget<D>>,
}

impl<const D: usize> View for OpeningSetTarget<D> {
    type V = OpeningSetModel<D>;

    open spec fn view(&self) -> OpeningSetModel<D> {
        OpeningSetModel {
            constants: self.constants@,
            plonk_sigmas: self.plonk_sigmas@,
            wires: self.wires@,
            plonk_zs: self.plonk_zs@,
            plonk_zs_next: self.plonk_zs_next@,
            lookup_zs: self.lookup_zs@,
            next_lookup_zs: self.next_lookup_zs@,
            partial_products: self.partial_products@,
            quotient_polys: self.quotient_polys@,
        }
    }
}

impl<const D: usize> Clone for OpeningSetTarget<D> {
    /// A copy with the same opened values, group by group, in the same order.
    fn clone(&self) -> (res: Self)
        ensures
            res@ == self@,
    {
        OpeningSetTarget {
            constants: self.constants.clone(),
            plonk_sigmas: self.plonk_sigmas.clone(),
            wires: self.wires.clone(),
            plonk_zs: self.plonk_zs.clone(),
            plonk_zs_next: self.plonk_zs_next.clone(),
            lookup_zs: self.lookup_zs.clone(),
            next_lookup_zs: self.next_lookup_zs.clone(),
            partial_products: self.partial_products.clone(),
            quotient_polys: self.quotient_polys.clone(),
        }
    }
}


/// The targets of one step of a FRI query: the evaluations at the step and the
/// Merkle proof that opens them.
#[derive(Debug, Eq, PartialEq)]
pub struct FriQueryStepTarget<const D: usize> {
    pub evals: Vec<ExtensionTarget<D>>,
    pub merkle_proof: MerkleProofTarget,
}

impl<const D: usize> View for FriQueryStepTarget<D> {
    type V = (Seq<ExtensionTarget<D>>, Seq<HashOutTarget>);

    open spec fn view(&self) -> (Seq<ExtensionTarget<D>>, Seq<HashOutTarget>) {
        (self.evals@, self.merkle_proof@)
    }
}

impl<const D: usize> Clone for FriQueryStepTarget<D> {
    /// A copy with the same evaluations and the same Merkle proof.
    fn clone(&self) -> (res: Self)
        ensures
            res@ == self@,
    {
        FriQueryStepTarget { evals: self.evals.clone(), merkle_proof: self.merkle_proof.clone() }
    }
}

/// The targets of the evaluations of the original polynomials, each with the Merkle
/// proof that opens it.
#[derive(Debug, Eq, PartialEq)]
pub struct FriInitialTreeProofTarget {
    pub evals_proofs: Vec<(Vec<Target>, MerkleProofTarget)>,
}

/// The model of one evaluation with its Merkle proof.
pub open spec fn eval_proof_view(e: (Vec<Target>, MerkleProofTarget)) -> (
    Seq<Target>,
    Seq<HashOutTarget>,
) {
    (e.0@, e.1@)
}

impl View for FriInitialTreeProofTarget {
    type V = Seq<(Seq<Target>, Seq<HashOutTarget>)>;

    open spec fn view(&self) -> Seq<(Seq<Target>, Seq<HashOutTarget>)> {
        self.evals_proofs@.map_values(|e: (Vec<Target>, MerkleProofTarget)| eval_proof_view(e))
    }
}

impl Clone for FriInitialTreeProofTarget {
    /// A copy with the same evaluations and Merkle proofs, in the same order.
    fn clone(&self) -> (res: Self)
        ensures
            res@ == self@,
    {
        let mut evals_proofs: Vec<(Vec<Target>, MerkleProofTarget)> = Vec::new();
        let n = self.evals_proofs.len();
        for i in 0..n
            invariant
                n == self.evals_proofs.len(),
                evals_proofs.len() == i,
                forall|j: int|
                    0 <= j < i ==> eval_proof_view(#[trigger] evals_proofs@[j]) == eval_proof_view(
                        self.evals_proofs@[j],
                    ),
        {
            let e = &self.evals_proofs[i];
            evals_proofs.push((e.0.clone(), e.1.clone()));
        }
        let res = FriInitialTreeProofTarget { evals_proofs };
        assert(res@ =~= self@);
        res
    }
}

/// The model of a FRI query round: the initial evaluations with their proofs, then
/// the steps.
pub struct FriQueryRoundModel<const D: usize> {
    pub initial_trees_proof: Seq<(Seq<Target>, Seq<HashOutTarget>)>,
    pub steps: Seq<(Seq<ExtensionTarget<D>>, Seq<HashOutTarget>)>,
}

/// The targets of one FRI query round.
#[derive(Debug, Eq, PartialEq)]
pub struct FriQueryRoundTarget<const D: usize> {
    pub initial_trees_proof: FriInitialTreeProofTarget,
    pub steps: Vec<FriQueryStepTarget<D>>,
}

impl<const D: usize> View for FriQueryRoundTarget<D> {
    type V = FriQueryRoundModel<D>;

    open spec fn view(&self) -> FriQueryRoundModel<D> {
        FriQueryRoundModel {
            initial_trees_proof: self.initial_trees_proof@,
            steps: self.steps@.map_values(|s: FriQueryStepTarget<D>| s@),
        }
    }
}

impl<const D: usize> Clone for FriQueryRoundTarget<D> {
    /// A copy with the same initial tree proof and the same steps, in the same order.
    fn clone(&self) -> (res: Self)
        ensures
            res@ == self@,
    {
        let steps = self.steps.clone();
        let res = FriQueryRoundTarget {
            initial_trees_proof: self.initial_trees_proof.clone(),
            steps,
        };
        assert(res.steps@.map_values(|s: FriQueryStepTarget<D>| s@) =~= self.steps@.map_values(
            |s: FriQueryStepTarget<D>| s@,
        ));
        res
    }
}


/// The model of a FRI proof.
pub struct FriProofModel<const D: usize> {
    pub commit_phase_merkle_caps: Seq<Seq<HashOutTarget>>,
    pub query_round_proofs: Seq<FriQueryRoundModel<D>>,
    pub final_poly: Seq<ExtensionTarget<D>>,
    pub pow_witness: Target,
}

/// The targets of a FRI proof.
#[derive(Debug, Eq, PartialEq)]
pub struct FriProofTarget<const D: usize> {
    pub commit_phase_merkle_caps: Vec<MerkleCapTarget>,
    pub query_round_proofs: Vec<FriQueryRoundTarget<D>>,
    pub final_poly: PolynomialCoeffsExtTarget<D>,
    pub pow_witness: Target,
}

impl<const D: usize> View for FriProofTarget<D> {
    type V = FriProofModel<D>;

    open spec fn view(&self) -> FriProofModel<D> {
        FriProofModel {
            commit_phase_merkle_caps: self.commit_phase_merkle_caps@.map_values(
                |c: MerkleCapTarget| c@,
            ),
            query_round_proofs: self.query_round_proofs@.map_values(
                |q: FriQueryRoundTarget<D>| q@,
            ),
            final_poly: self.final_poly@,
            pow_witness: self.pow_witness,
        }
    }
}

impl<const D: usize> Clone for FriProofTarget<D> {
    /// A copy with the same commit-phase caps, query rounds, final polynomial and
    /// proof-of-work witness.
    fn clone(&self) -> (res: Self)
        ensures
            res@ == self@,
    {
        let res = FriProofTarget {
            commit_phase_merkle_caps: self.commit_phase_merkle_caps.clone(),
            query_round_proofs: self.query_round_proofs.clone(),
            final_poly: PolynomialCoeffsExtTarget(self.final_poly.0.clone()),
            pow_witness: self.pow_witness.clone(),
        };
        assert(res@.commit_phase_merkle_caps =~= self@.commit_phase_merkle_caps);
        assert(res@.query_round_proofs =~= self@.query_round_proofs);
        res
    }
}

/// The model of a proof.
pub struct ProofModel<const D: usize> {
    pub wires_cap: Seq<HashOutTarget>,
    pub plonk_zs_partial_products_cap: Seq<HashOutTarget>,
    pub quotient_polys_cap: Seq<HashOutTarget>,
    pub openings: OpeningSetModel<D>,
    pub opening_proof: FriProofModel<D>,
}

/// The targets of a proof: the three Merkle caps, the openings and the FRI proof.
#[derive(Debug, Eq, PartialEq)]
pub struct ProofTarget<const D: usize> {
    pub wires_cap: MerkleCapTarget,
    pub plonk_zs_partial_products_cap: MerkleCapTarget,
    pub quotient_polys_cap: MerkleCapTarget,
    pub openings: OpeningSetTarget<D>,
    pub opening_proof: FriProofTarget<D>,
}

impl<const D: usize> View for ProofTarget<D> {
    type V = ProofModel<D>;

    open spec fn view(&self) -> ProofModel<D> {
        ProofModel {
            wires_cap: self.wires_cap@,
            plonk_zs_partial_products_cap: self.plonk_zs_partial_products_cap@,
            quotient_polys_cap: self.quotient_polys_cap@,
            openings: self.openings@,
            opening_proof: self.opening_proof@,
        }
    }
}

impl<const D: usize> Clone for ProofTarget<D> {
    /// A copy with the same caps, openings and FRI proof.
    fn clone(&self) -> (res: Self)
        ensures
            res@ == self@,
    {
        ProofTarget {
            wires_cap: self.wires_cap.clone(),
            plonk_zs_partial_products_cap: self.plonk_zs_partial_products_cap.clone(),
            quotient_polys_cap: self.quotient_polys_cap.clone(),
            openings: self.openings.clone(),
            opening_proof: self.opening_proof.clone(),
        }
    }
}

/// The model of a proof with its public inputs.
pub struct ProofWithPublicInputsModel<const D: usize> {
    pub proof: ProofModel<D>,
    pub public_inputs: Seq<Target>,
}

/// The targets of a proof together with the targets of its public inputs: what a
/// recursive circuit verifies.
#[derive(Debug, Eq, PartialEq)]
pub struct ProofWithPublicInputsTarget<const D: usize> {
    pub proof: ProofTarget<D>,
    pub public_inputs: Vec<Target>,
}

impl<const D: usize> View for ProofWithPublicInputsTarget<D> {
    type V = ProofWithPublicInputsModel<D>;

    open spec fn view(&self) -> ProofWithPublicInputsModel<D> {
        ProofWithPublicInputsModel { proof: self.proof@, public_inputs: self.public_inputs@ }
    }
}

impl<const D: usize> Clone for ProofWithPublicInputsTarget<D> {
    /// A copy with the same proof targets and the same public inputs, in the same order.
    fn clone(&self) -> (res: Self)
        ensures
            res@ == self@,
    {
        ProofWithPublicInputsTarget {
            proof: self.proof.clone(),
            public_inputs: self.public_inputs.clone(),
        }
    }
}

/// The targets of the verifier data of an inner circuit: the Merkle cap of its
/// constant and permutation polynomials.
#[derive(Debug, Eq, PartialEq)]
pub struct VerifierCircuitTarget {
    pub constants_sigmas_cap: MerkleCapTarget,
}

impl View for VerifierCircuitTarget {
    type V = Seq<HashOutTarget>;

    open spec fn view(&self) -> Seq<HashOutTarget> {
        self.constants_sigmas_cap@
    }
}

impl Clone for VerifierCircuitTarget {
    /// A copy with the same constants-and-sigmas cap.
    fn clone(&self) -> (res: Self)
        ensures
            res@ == self@,
    {
        VerifierCircuitTarget { constants_sigmas_cap: self.constants_sigmas_cap.clone() }
    }
}

} // verus!
