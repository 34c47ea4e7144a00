//! The ground: what the scene is built of, and who stands on it.
pub mod entity;
pub mod grounded;
