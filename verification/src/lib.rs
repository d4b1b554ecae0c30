//! The in-circuit targets of a recursive proof (a proof with its public inputs, the
//! verifier data of an inner circuit), and a transparent `Wrapper` that gives them a
//! field-by-field `Clone`, proved to keep every target of the original.

pub mod targets;
pub mod wrapper;
