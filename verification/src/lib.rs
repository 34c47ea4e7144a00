//! A small platform game's rules, with the resumable behaviour-tree
//! interpreter that drives them at their centre.
//!
//! `ai` holds the interpreter: outcomes, the node contract, tree definitions
//! and live trees, and the laws that hold of every tree. `minions` and
//! `player` hold the two vocabularies built on it, the minions' decision
//! trees and the player's attack scripts, with the drivers that tick them.
//! The other modules hold what surrounds them in the course of a tick:
//! footing, combat, animations, hitboxes and the descriptions of what the
//! physics is to make.
//!
//! All quantities are whole numbers: lengths and speeds in steps of a
//! thousandth of a unit, times in microseconds.
pub mod ai;
pub mod animation;
pub mod base_bundles;
pub mod combat;
pub mod geometry;
pub mod minions;
pub mod player;
pub mod sensors;
pub mod terrain;
