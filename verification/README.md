# plonky2_examples

A small Verus library around the targets that a recursive PLONK circuit works with.

- `src/targets.rs`: the targets themselves (`Target`, `HashOutTarget`,
  `MerkleCapTarget`, the opening set, the FRI proof, `ProofWithPublicInputsTarget`,
  `VerifierCircuitTarget`), each with a view that maps its vectors to sequences and a
  `Clone` proved to keep that view.
- `src/wrapper.rs`: `Wrapper<T>`, a transparent newtype whose `Clone` for a wrapped
  proof target or verifier data target copies it field by field; its contract states
  that the copy names exactly the targets of the original, and two lemmas state that
  any chain of clones does too.
- `tests/`: the same properties on concrete targets.

Run `verus` on `src/lib.rs` to check the proofs.
