//! Fixed tables of the combat rules and the per-stance command catalog.

use vstd::prelude::*;

use crate::components::{
    AttackMove, CombatStance, CombatStats, Command, MenuCommand, WaitMove,
};

verus! {

/// Stance synergy that a resolved attack calls out in the log.
#[derive(PartialEq, Eq, Structural, Debug, Clone, Copy)]
pub enum Synergy {
    /// A bash against a guard that blocked last turn: the block pays off.
    BlockEffective,
    /// A bash against a guard.
    BashEffective,
    /// A smash against a target that fended last turn.
    FendEffective,
    /// Any attack against a stunned target.
    StunnedTarget,
}

/// Adjustment to the attacker's power by attack kind and target stance.
pub open spec fn power_adjustment_of(a: AttackMove, target_stance: CombatStance) -> int {
    let guard = target_stance == CombatStance::Guard;
    match a {
        AttackMove::Melee => if guard { -1 } else { 0 },
        AttackMove::Slash => if guard { -1 } else { 1 },
        AttackMove::Smash => if guard { 1 } else { 2 },
        AttackMove::Bash => if guard { 1 } else { 0 },
        AttackMove::Poke => -1,
    }
}

/// Reaction table: defense bonus of a target by what it did last turn.
pub open spec fn defense_adjustment_of(a: AttackMove, last: Option<Command>) -> int {
    match last {
        Some(Command::WaitCommand(WaitMove::Block)) => 1,
        Some(Command::WaitCommand(WaitMove::Fend)) => if a == AttackMove::Smash { 3 } else { 1 },
        _ => 0,
    }
}

/// Energy damage that an attack kind deals by target stance.
pub open spec fn attack_ep_damage_of(a: AttackMove, target_stance: CombatStance) -> int {
    match a {
        AttackMove::Smash => 5,
        AttackMove::Bash => if target_stance == CombatStance::Guard { 15 } else { 10 },
        _ => 0,
    }
}

/// Energy damage added by the target's last command: a block loses energy to any
/// attack but a bash, which it turns into a recovery.
pub open spec fn reaction_ep_damage_of(a: AttackMove, last: Option<Command>) -> int {
    match last {
        Some(Command::WaitCommand(WaitMove::Block)) => if a == AttackMove::Bash { -10 } else { 5 },
        _ => 0,
    }
}

/// The synergy line, if any, for an attack.
pub open spec fn synergy_of(a: AttackMove, target_stance: CombatStance, last: Option<Command>) -> Option<Synergy> {
    let blocked = last == Some(Command::WaitCommand(WaitMove::Block));
    let fended = last == Some(Command::WaitCommand(WaitMove::Fend));
    if a == AttackMove::Bash && target_stance == CombatStance::Guard {
        if blocked { Some(Synergy::BlockEffective) } else { Some(Synergy::BashEffective) }
    } else if a == AttackMove::Smash && fended {
        Some(Synergy::FendEffective)
    } else if target_stance == CombatStance::Stun {
        Some(Synergy::StunnedTarget)
    } else {
        None
    }
}

pub fn power_adjustment(a: AttackMove, target_stance: CombatStance) -> (r: i32)
    ensures
        r == power_adjustment_of(a, target_stance),
        -1 <= r <= 2,
{
    let guard = target_stance == CombatStance::Guard;
    match a {
        AttackMove::Melee => if guard { -1 } else { 0 },
        AttackMove::Slash => if guard { -1 } else { 1 },
        AttackMove::Smash => if guard { 1 } else { 2 },
        AttackMove::Bash => if guard { 1 } else { 0 },
        AttackMove::Poke => -1,
    }
}

pub fn defense_adjustment(a: AttackMove, last: Option<Command>) -> (r: i32)
    ensures
        r == defense_adjustment_of(a, last),
        0 <= r <= 3,
{
    match last {
        Some(Command::WaitCommand(WaitMove::Block)) => 1,
        Some(Command::WaitCommand(WaitMove::Fend)) => if a == AttackMove::Smash { 3 } else { 1 },
        _ => 0,
    }
}

pub fn attack_ep_damage(a: AttackMove, target_stance: CombatStance) -> (r: i32)
    ensures
        r == attack_ep_damage_of(a, target_stance),
{
    match a {
        AttackMove::Smash => 5,
        AttackMove::Bash => if target_stance == CombatStance::Guard { 15 } else { 10 },
        _ => 0,
    }
}

pub fn reaction_ep_damage(a: AttackMove, last: Option<Command>) -> (r: i32)
    ensures
        r == reaction_ep_damage_of(a, last),
{
    match last {
        Some(Command::WaitCommand(WaitMove::Block)) => if a == AttackMove::Bash { -10 } else { 5 },
        _ => 0,
    }
}

pub fn synergy(a: AttackMove, target_stance: CombatStance, last: Option<Command>) -> (r: Option<Synergy>)
    ensures
        r == synergy_of(a, target_stance, last),
{
    let blocked = last == Some(Command::WaitCommand(WaitMove::Block));
    let fended = last == Some(Command::WaitCommand(WaitMove::Fend));
    if a == AttackMove::Bash && target_stance == CombatStance::Guard {
        if blocked { Some(Synergy::BlockEffective) } else { Some(Synergy::BashEffective) }
    } else if a == AttackMove::Smash && fended {
        Some(Synergy::FendEffective)
    } else if target_stance == CombatStance::Stun {
        Some(Synergy::StunnedTarget)
    } else {
        None
    }
}

pub open spec fn menu(command: Command, cost: int, stance_after: CombatStance, enabled: bool) -> MenuCommand {
    MenuCommand { command, cost: cost as i32, stance_after, enabled }
}

/// The command catalog: for each stance, the six commands in menu order, with
/// their cost, the stance they leave the actor in, and whether they are legal.
pub open spec fn catalog(stance: CombatStance) -> Seq<MenuCommand> {
    let wait = Command::WaitCommand(WaitMove::Wait);
    let melee = Command::AttackCommand(AttackMove::Melee);
    let smash = Command::AttackCommand(AttackMove::Smash);
    let bash = Command::AttackCommand(AttackMove::Bash);
    let fend = Command::WaitCommand(WaitMove::Fend);
    let block = Command::WaitCommand(WaitMove::Block);
    match stance {
        CombatStance::Ready => seq![
            menu(wait, -10, CombatStance::Ready, true),
            menu(melee, 0, CombatStance::Ready, true),
            menu(smash, 15, CombatStance::Power, true),
            menu(bash, 10, CombatStance::Guard, true),
            menu(fend, 0, CombatStance::Ready, true),
            menu(block, 0, CombatStance::Guard, true),
        ],
        CombatStance::Power => seq![
            menu(wait, -10, CombatStance::Ready, true),
            menu(melee, 0, CombatStance::Ready, true),
            menu(smash, 15, CombatStance::Power, true),
            menu(bash, 10, CombatStance::Guard, false),
            menu(fend, 0, CombatStance::Ready, false),
            menu(block, -5, CombatStance::Guard, false),
        ],
        CombatStance::Guard => seq![
            menu(wait, -10, CombatStance::Ready, true),
            menu(melee, 0, CombatStance::Ready, true),
            menu(smash, 15, CombatStance::Guard, false),
            menu(bash, 10, CombatStance::Guard, true),
            menu(fend, 0, CombatStance::Ready, false),
            menu(block, 0, CombatStance::Guard, true),
        ],
        CombatStance::Stun => seq![
            menu(wait, -10, CombatStance::Ready, true),
            menu(melee, 0, CombatStance::Ready, false),
            menu(smash, 15, CombatStance::Power, false),
            menu(bash, 10, CombatStance::Guard, false),
            menu(fend, 0, CombatStance::Ready, false),
            menu(block, -5, CombatStance::Guard, false),
        ],
    }
}

fn entry(command: Command, cost: i32, stance_after: CombatStance, enabled: bool) -> (r: MenuCommand)
    ensures
        r == menu(command, cost as int, stance_after, enabled),
{
    MenuCommand { command, cost, stance_after, enabled }
}

/// The commands offered to a combatant in its current stance.
pub fn get_available_moves(player_stats: &CombatStats) -> (r: Vec<MenuCommand>)
    ensures
        r@ == catalog(player_stats.stance),
        r@.len() == 6,
{
    let wait = Command::WaitCommand(WaitMove::Wait);
    let melee = Command::AttackCommand(AttackMove::Melee);
    let smash = Command::AttackCommand(AttackMove::Smash);
    let bash = Command::AttackCommand(AttackMove::Bash);
    let fend = Command::WaitCommand(WaitMove::Fend);
    let block = Command::WaitCommand(WaitMove::Block);
    let ready = CombatStance::Ready;
    let power = CombatStance::Power;
    let guard = CombatStance::Guard;
    let r = match player_stats.stance {
        CombatStance::Ready => vec![
            entry(wait, -10, ready, true),
            entry(melee, 0, ready, true),
            entry(smash, 15, power, true),
            entry(bash, 10, guard, true),
            entry(fend, 0, ready, true),
            entry(block, 0, guard, true),
        ],
        CombatStance::Power => vec![
            entry(wait, -10, ready, true),
            entry(melee, 0, ready, true),
            entry(smash, 15, power, true),
            entry(bash, 10, guard, false),
            entry(fend, 0, ready, false),
            entry(block, -5, guard, false),
        ],
        CombatStance::Guard => vec![
            entry(wait, -10, ready, true),
            entry(melee, 0, ready, true),
            entry(smash, 15, guard, false),
            entry(bash, 10, guard, true),
            entry(fend, 0, ready, false),
            entry(block, 0, guard, true),
        ],
        CombatStance::Stun => vec![
            entry(wait, -10, ready, true),
            entry(melee, 0, ready, false),
            entry(smash, 15, power, false),
            entry(bash, 10, guard, false),
            entry(fend, 0, ready, false),
            entry(block, -5, guard, false),
        ],
    };
    assert(r@ =~= catalog(player_stats.stance));
    r
}

} // verus!
