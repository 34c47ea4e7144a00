//! The interpreter: outcomes, the node contract, tree definitions and live trees.
pub mod laws;
pub mod lemmas;
pub mod powered;
