//! Turn-based combat resolution and monster decision core of a dungeon-crawling
//! roguelike.
//!
//! Every actor submits one `Action` per turn; `action_system` resolves them into
//! stat changes, stance transitions and log events, and `monster_ai` chooses the
//! next action of each monster. Actors live in an arena (`world::World`) keyed by a
//! stable index, which is also the order in which actions resolve.
//!
//! Counters that the rules only ever add to or take from (hit points, food, coin)
//! saturate at the bounds of `i32` instead of wrapping.

pub mod components;
pub mod rng;
pub mod combat;
pub mod rules;
pub mod map;
pub mod world;
pub mod action_system;
pub mod monster_ai;
pub mod player;
pub mod spawner;
