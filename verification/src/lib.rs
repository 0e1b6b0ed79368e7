//! Deterministic gameplay simulation core of a 2D action game engine:
//! fixed-point physics primitives, per-actor state machines, composite
//! (boss) actors, the spawn queue, and player-vs-actor collision
//! judging with its side-effect dispatch.

pub mod common;
pub mod rng;
pub mod physics;
pub mod npc;
pub mod state;
pub mod inventory;
pub mod player;
pub mod player_hit;
pub mod booster;
pub mod balfrog;
