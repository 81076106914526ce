//! Starting stats of the player and of each monster species, and ground items.

use vstd::prelude::*;

use crate::components::{
    AttackMove, CombatStance, CombatStats, Item, Items, Player, Position, STAT_LIMIT, SmartMonster,
    SmartMonsterState, Viewshed,
};
use crate::world::{Actor, GroundItem};

verus! {

/// The inventory a new run starts with.
pub open spec fn starting_inventory() -> Player {
    Player {
        food: 10,
        max_food: 10,
        coin: 0,
        potions: 0,
        atk_bonus: 0,
        def_bonus: 0,
        has_amulet: false,
    }
}

/// The player actor at `(player_x, player_y)`, with full stats raised by the
/// inventory's bonuses; a new run's inventory when none is given.
pub fn player(player_x: i32, player_y: i32, player_state: Option<Player>) -> (r: Actor)
    requires
        player_state matches Some(p) ==> (-STAT_LIMIT <= 4 + p.atk_bonus <= STAT_LIMIT
            && -STAT_LIMIT <= p.def_bonus <= STAT_LIMIT),
    ensures
        r.stats.wf(),
        r.position == (Position { x: player_x, y: player_y }),
        r.player == Some(
            match player_state {
                Some(p) => p,
                None => starting_inventory(),
            },
        ),
        r.stats.max_hp == 30 && r.stats.hp == 30 && r.stats.hp_regen == -10,
        r.stats.max_ep == 40 && r.stats.ep == 40 && r.stats.ep_regen == -5,
        r.stats.defense == r.player->0.def_bonus,
        r.stats.power == 4 + r.player->0.atk_bonus,
        r.stats.stance == CombatStance::Ready,
        r.stats.current_target is None,
        r.stats.visible_targets@.len() == 0,
        r.stats.last_command is None,
        r.monster is None,
        r.action is None,
{
    let inv = match player_state {
        Some(p) => p,
        None => Player {
            food: 10,
            max_food: 10,
            coin: 0,
            potions: 0,
            atk_bonus: 0,
            def_bonus: 0,
            has_amulet: false,
        },
    };
    Actor {
        name: "You".to_owned(),
        position: Position { x: player_x, y: player_y },
        stats: CombatStats {
            max_hp: 30,
            hp: 30,
            hp_regen: -10,
            max_ep: 40,
            ep: 40,
            ep_regen: -5,
            defense: inv.def_bonus,
            power: 4 + inv.atk_bonus,
            attack_cost: 5,
            stance: CombatStance::Ready,
            visible_targets: Vec::new(),
            current_target: None,
            last_command: None,
        },
        viewshed: Viewshed { visible_tiles: Vec::new(), range: 8, dirty: true },
        player: Some(inv),
        monster: None,
        action: None,
    }
}

/// A monster's combat stats: full hit points and energy, `Ready`.
pub open spec fn monster_stats_ok(s: CombatStats, hp: int, ep: int, pow: int, def: int) -> bool {
    &&& s.max_hp == hp && s.hp == hp && s.hp_regen == -5
    &&& s.max_ep == ep && s.ep == ep && s.ep_regen == -10
    &&& s.power == pow && s.defense == def && s.attack_cost == 5
    &&& s.stance == CombatStance::Ready
    &&& s.current_target is None
    &&& s.visible_targets@.len() == 0
    &&& s.last_command is None
}

/// A monster's decision memory: asleep, remembering nothing, and chasing what it
/// sees with chance 900 in 1000.
pub open spec fn memory_of(
    stance: CombatStance,
    attack: AttackMove,
    cost: int,
    chase_chance: int,
    ep_threshold: int,
    recover_ep_chance: int,
) -> SmartMonster {
    SmartMonster {
        state: SmartMonsterState::Asleep,
        time_in_current_state: 0,
        target_location: None,
        primary_stance: stance,
        primary_attack: attack,
        primary_attack_cost: cost as i32,
        recover_ep_threshold: ep_threshold as i32,
        recover_ep_chance: recover_ep_chance as u32,
        visible_chase_chance: 900,
        invisible_chase_chance: chase_chance as u32,
    }
}

fn monster(
    loc: Position,
    hp: i32,
    ep: i32,
    cost: i32,
    pow: i32,
    def: i32,
    name: &str,
    stance: CombatStance,
    attack: AttackMove,
    chase_chance: u32,
    ep_threshold: i32,
    recover_ep_chance: u32,
) -> (r: Actor)
    requires
        0 <= ep,
        -STAT_LIMIT <= pow <= STAT_LIMIT,
        -STAT_LIMIT <= def <= STAT_LIMIT,
    ensures
        r.stats.wf(),
        monster_stats_ok(r.stats, hp as int, ep as int, pow as int, def as int),
        r.monster == Some(
            memory_of(
                stance,
                attack,
                cost as int,
                chase_chance as int,
                ep_threshold as int,
                recover_ep_chance as int,
            ),
        ),
        r.position == loc,
        r.player is None,
        r.action is None,
{
    Actor {
        name: name.to_owned(),
        position: loc,
        stats: CombatStats {
            max_hp: hp,
            hp: hp,
            hp_regen: -5,
            max_ep: ep,
            ep: ep,
            ep_regen: -10,
            defense: def,
            power: pow,
            attack_cost: 5,
            stance: CombatStance::Ready,
            visible_targets: Vec::new(),
            current_target: None,
            last_command: None,
        },
        viewshed: Viewshed { visible_tiles: Vec::new(), range: 8, dirty: true },
        player: None,
        monster: Some(
            SmartMonster {
                state: SmartMonsterState::Asleep,
                time_in_current_state: 0,
                target_location: None,
                primary_stance: stance,
                primary_attack: attack,
                primary_attack_cost: cost,
                recover_ep_threshold: ep_threshold,
                recover_ep_chance: recover_ep_chance,
                visible_chase_chance: 900,
                invisible_chase_chance: chase_chance,
            },
        ),
        action: None,
    }
}

pub fn orc(loc: Position) -> (r: Actor)
    ensures
        r.stats.wf(),
        monster_stats_ok(r.stats, 15, 30, 4, 1),
        r.monster == Some(memory_of(CombatStance::Power, AttackMove::Smash, 15, 200, 0, 1000)),
        r.position == loc,
{
    monster(loc, 15, 30, 15, 4, 1, "Orc", CombatStance::Power, AttackMove::Smash, 200, 0, 1000)
}

pub fn goblin(loc: Position) -> (r: Actor)
    ensures
        r.stats.wf(),
        monster_stats_ok(r.stats, 18, 20, 3, 1),
        r.monster == Some(memory_of(CombatStance::Ready, AttackMove::Melee, 5, 400, 0, 1000)),
        r.position == loc,
{
    monster(loc, 18, 20, 5, 3, 1, "Goblin", CombatStance::Ready, AttackMove::Melee, 400, 0, 1000)
}

pub fn hobgoblin(loc: Position) -> (r: Actor)
    ensures
        r.stats.wf(),
        monster_stats_ok(r.stats, 25, 45, 5, 1),
        r.monster == Some(memory_of(CombatStance::Guard, AttackMove::Bash, 15, 500, 20, 300)),
        r.position == loc,
{
    monster(loc, 25, 45, 15, 5, 1, "Hobgoblin", CombatStance::Guard, AttackMove::Bash, 500, 20, 300)
}

pub fn ogre(loc: Position) -> (r: Actor)
    ensures
        r.stats.wf(),
        monster_stats_ok(r.stats, 40, 45, 6, 3),
        r.monster == Some(memory_of(CombatStance::Ready, AttackMove::Melee, 5, 400, 30, 700)),
        r.position == loc,
{
    monster(loc, 40, 45, 5, 6, 3, "Ogre", CombatStance::Ready, AttackMove::Melee, 400, 30, 700)
}

pub fn troll(loc: Position) -> (r: Actor)
    ensures
        r.stats.wf(),
        monster_stats_ok(r.stats, 40, 30, 5, 2),
        r.monster == Some(memory_of(CombatStance::Power, AttackMove::Smash, 15, 300, 0, 1000)),
        r.position == loc,
{
    monster(loc, 40, 30, 15, 5, 2, "Troll", CombatStance::Power, AttackMove::Smash, 300, 0, 1000)
}

pub fn kobold(loc: Position) -> (r: Actor)
    ensures
        r.stats.wf(),
        monster_stats_ok(r.stats, 25, 30, 4, 1),
        r.monster == Some(memory_of(CombatStance::Ready, AttackMove::Melee, 5, 200, 10, 600)),
        r.position == loc,
{
    monster(loc, 25, 30, 5, 4, 1, "Kobold", CombatStance::Ready, AttackMove::Melee, 200, 10, 600)
}

pub fn goblin_knight(loc: Position) -> (r: Actor)
    ensures
        r.stats.wf(),
        monster_stats_ok(r.stats, 35, 45, 6, 2),
        r.monster == Some(memory_of(CombatStance::Guard, AttackMove::Bash, 15, 500, 20, 300)),
        r.position == loc,
{
    monster(loc, 35, 45, 15, 6, 2, "Goblin Knight", CombatStance::Guard, AttackMove::Bash, 500, 20, 300)
}

pub fn barrow_lord(loc: Position) -> (r: Actor)
    ensures
        r.stats.wf(),
        monster_stats_ok(r.stats, 40, 45, 6, 3),
        r.monster == Some(memory_of(CombatStance::Power, AttackMove::Smash, 15, 400, 30, 700)),
        r.position == loc,
{
    monster(loc, 40, 45, 15, 6, 3, "Barrow-Lord", CombatStance::Power, AttackMove::Smash, 400, 30, 700)
}

/// The monster for a d6 `roll`: an orc on 1 to 3, a goblin otherwise.
pub fn random_monster(roll: i32, loc: Position) -> (r: Actor)
    ensures
        r.stats.wf(),
        r.position == loc,
        1 <= roll <= 3 ==> monster_stats_ok(r.stats, 15, 30, 4, 1),
        !(1 <= roll <= 3) ==> monster_stats_ok(r.stats, 18, 20, 3, 1),
{
    if 1 <= roll && roll <= 3 {
        orc(loc)
    } else {
        goblin(loc)
    }
}

/// A pile of `amount` coins.
pub fn coins(loc: Position, amount: i32) -> (r: GroundItem)
    ensures
        r == (GroundItem { position: loc, item: Item { item: Items::Coin(amount) } }),
{
    GroundItem { position: loc, item: Item { item: Items::Coin(amount) } }
}

/// The amulet.
pub fn amulet(loc: Position) -> (r: GroundItem)
    ensures
        r == (GroundItem { position: loc, item: Item { item: Items::Amulet } }),
{
    GroundItem { position: loc, item: Item { item: Items::Amulet } }
}

} // verus!
