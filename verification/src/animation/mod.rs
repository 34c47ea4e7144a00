//! Sprite animations: rows of frames, sampled by the time that has passed.
pub mod component_types;
pub mod data_types;
pub mod hitboxes;
pub mod systems;
