//! Combat resolution and AI decision core of a two-combatant fighting
//! simulation.
//!
//! The engine turns per-tick intents (human input signals or archetype
//! behaviour) into attack volumes, resolves those volumes against opposing
//! hurtboxes, applies damage, blocking and knockback, tracks combo and
//! fight-outcome state, and decides for each non-human archetype how to move
//! and when to attack each tick.
//!
//! Rendering, audio, menus, asset loading, raw input polling and the physics
//! integrator are external collaborators: the library consumes plain values
//! from them (elapsed time, positions, overlap reports, edge-triggered input
//! flags) and emits plain values back (movement commands, impulses, damage
//! messages, outcome changes). All timing is in milliseconds and all spatial
//! quantities are integer world units or thousandths thereof.

pub mod ai;
pub mod combat;
pub mod game_state;
pub mod intent;
pub mod menu;
pub mod outcome;
pub mod player;
pub mod progress;
pub mod rng;
pub mod session;
