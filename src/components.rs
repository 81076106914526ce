//! The data that combat reads and writes: stats, stances, commands and actions.

use vstd::prelude::*;

verus! {

/// Bound on the magnitude of `power` and `defense` in a well-formed `CombatStats`.
/// Within it every damage value, adjustments included, fits in an `i32`.
pub const STAT_LIMIT: i32 = 100_000_000;

/// A cell of the map.
#[derive(PartialEq, Eq, Structural, Debug, Clone, Copy)]
pub struct Position {
    pub x: i32,
    pub y: i32,
}

/// Inventory of the player actor.
#[derive(PartialEq, Eq, Structural, Debug, Clone, Copy)]
pub struct Player {
    pub food: i32,
    pub max_food: i32,
    pub coin: i32,
    pub potions: i32,
    pub atk_bonus: i32,
    pub def_bonus: i32,
    pub has_amulet: bool,
}

/// What a ground item gives when it is picked up.
#[derive(PartialEq, Eq, Structural, Debug, Clone, Copy)]
pub enum Items {
    Coin(i32),
    Food(i32),
    Potion,
    Amulet,
}

#[derive(PartialEq, Eq, Structural, Debug, Clone, Copy)]
pub struct Item {
    pub item: Items,
}

/// Posture of a combatant; gates the legal commands and modulates damage.
#[derive(PartialEq, Eq, Structural, Debug, Clone, Copy)]
pub enum CombatStance {
    Guard,
    Ready,
    Power,
    Stun,
}

#[derive(PartialEq, Eq, Structural, Debug, Clone, Copy)]
pub enum ActionType {
    Move,
    Wait,
    Attack,
}

#[derive(PartialEq, Eq, Structural, Debug, Clone, Copy)]
pub enum AttackMove {
    Melee,
    Slash,
    Smash,
    Bash,
    Poke,
}

#[derive(PartialEq, Eq, Structural, Debug, Clone, Copy)]
pub enum WaitMove {
    Wait,
    Fend,
    Block,
    Brace,
}

#[derive(PartialEq, Eq, Structural, Debug, Clone, Copy)]
pub enum Command {
    MoveCommand,
    WaitCommand(WaitMove),
    AttackCommand(AttackMove),
}

/// An entry of the command catalog.
#[derive(PartialEq, Eq, Structural, Debug, Clone, Copy)]
pub struct MenuCommand {
    pub command: Command,
    pub cost: i32,
    pub stance_after: CombatStance,
    pub enabled: bool,
}

/// One turn's submitted intent. `target` is the index of an actor in the world;
/// a negative `cost` is energy recovered.
#[derive(PartialEq, Eq, Structural, Debug, Clone, Copy)]
pub struct Action {
    pub command: Command,
    pub cost: i32,
    pub stance_after: CombatStance,
    pub target: Option<usize>,
    pub position: Option<Position>,
}

/// Combat-relevant stats of an actor. `current_target` and `visible_targets` hold
/// actor indices.
#[derive(Debug)]
pub struct CombatStats {
    pub max_hp: i32,
    pub hp: i32,
    pub hp_regen: i32,
    pub max_ep: i32,
    pub ep: i32,
    pub ep_regen: i32,
    pub defense: i32,
    pub power: i32,
    pub attack_cost: i32,
    pub stance: CombatStance,
    pub visible_targets: Vec<usize>,
    pub current_target: Option<usize>,
    pub last_command: Option<Command>,
}

impl CombatStats {
    /// Energy stays within `[0, max_ep]`.
    pub open spec fn energy_wf(&self) -> bool {
        0 <= self.ep <= self.max_ep
    }

    /// Hit points never exceed their maximum, energy stays within `[0, max_ep]`,
    /// and power and defense stay within `STAT_LIMIT`.
    pub open spec fn wf(&self) -> bool {
        &&& self.hp <= self.max_hp
        &&& 0 <= self.ep <= self.max_ep
        &&& -STAT_LIMIT <= self.power <= STAT_LIMIT
        &&& -STAT_LIMIT <= self.defense <= STAT_LIMIT
    }
}

#[derive(PartialEq, Eq, Structural, Debug, Clone, Copy)]
pub enum SmartMonsterState {
    Asleep,
    Attacking,
    Recovering,
    Idle,
}

/// Per-monster decision memory and constants. The three chances are in parts per
/// thousand: a draw `u` in `[0, 1000)` succeeds when `u < chance`.
/// `state` and `time_in_current_state` are kept for future use; no decision reads them.
#[derive(PartialEq, Eq, Structural, Debug, Clone, Copy)]
pub struct SmartMonster {
    pub state: SmartMonsterState,
    pub time_in_current_state: i32,
    pub target_location: Option<Position>,
    pub primary_stance: CombatStance,
    pub primary_attack: AttackMove,
    pub primary_attack_cost: i32,
    pub recover_ep_threshold: i32,
    pub recover_ep_chance: u32,
    pub visible_chase_chance: u32,
    pub invisible_chase_chance: u32,
}

/// What an actor sees. `visible_tiles` is computed outside this crate.
#[derive(Debug)]
pub struct Viewshed {
    pub visible_tiles: Vec<Position>,
    pub range: i32,
    pub dirty: bool,
}

} // verus!
