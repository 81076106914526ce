//! The action resolution engine: drains every actor's pending action once per turn.
//!
//! Policy, fixed here and tested:
//! - The override check reads a snapshot of each actor's stance and energy taken
//!   before any action of the turn resolves. A stunned actor, or one whose action
//!   costs more than its energy, rests instead (`forced_rest`): the rest keeps the
//!   actor's stance, except that a stunned actor recovers to `Ready`.
//! - A resolved command leaves the actor in the command's `stance_after` unless
//!   paying for it left the actor stunned.
//! - An attack on itself, or on an actor that is gone or died earlier this turn, is
//!   an anomaly: it is logged and changes nothing.

use vstd::prelude::*;

use crate::combat::{
    apply_ep_damage, apply_hp_damage, damage_from_roll, damage_value, ep_damaged, fed,
    hp_damaged, lemma_bounded_damage_fits, move_regen, move_regenerated, random_ceiling,
    rest_heals, rest_or_default, rested, roll_ceiling,
};
use crate::components::{
    Action, AttackMove, CombatStance, CombatStats, Command, Items, Player, Position, Viewshed,
    WaitMove,
};
use crate::map::GameMap;
use crate::rng::draw_range;
use crate::rules::{
    attack_ep_damage, attack_ep_damage_of, defense_adjustment, defense_adjustment_of,
    power_adjustment, power_adjustment_of, reaction_ep_damage, reaction_ep_damage_of, synergy,
    synergy_of,
};
use crate::world::{Actor, AnomalyKind, GroundItem, LogEntry, World};

verus! {

/// The rest that replaces an action the actor cannot perform.
pub open spec fn forced_rest(pre_stance: CombatStance) -> Action {
    Action {
        command: Command::WaitCommand(WaitMove::Wait),
        cost: -10i32,
        stance_after: if pre_stance == CombatStance::Stun { CombatStance::Ready } else { pre_stance },
        target: None,
        position: None,
    }
}

/// Whether the override check replaces `action`, judged on the turn's snapshot.
pub open spec fn overridden(action: Action, pre_stance: CombatStance, pre_ep: int) -> bool {
    pre_stance == CombatStance::Stun || action.cost > pre_ep
}

/// The action that is actually dispatched.
pub open spec fn effective_action(action: Action, pre_stance: CombatStance, pre_ep: int) -> Action {
    if overridden(action, pre_stance, pre_ep) {
        forced_rest(pre_stance)
    } else {
        action
    }
}

/// The log line of the override check.
pub open spec fn override_entries(i: int, action: Action, pre_stance: CombatStance, pre_ep: int) -> Seq<LogEntry> {
    if pre_stance == CombatStance::Stun {
        seq![LogEntry::Stunned { actor: i as usize }]
    } else if action.cost > pre_ep {
        seq![LogEntry::InsufficientEnergy { actor: i as usize }]
    } else {
        seq![]
    }
}

/// Where an effective action goes.
#[derive(PartialEq, Eq, Structural, Debug, Clone, Copy)]
pub enum Dispatch {
    Attack { target: usize, attack: AttackMove },
    Rest { wait: WaitMove },
    Step { to: Position },
    Incoherent { kind: AnomalyKind },
}

/// Classification of the effective action `eff` of actor `i`.
pub open spec fn dispatch_of(w: World, i: int, eff: Action) -> Dispatch {
    match eff.command {
        Command::AttackCommand(attack) => match eff.target {
            None => Dispatch::Incoherent { kind: AnomalyKind::AttackWithoutTarget },
            Some(t) => if t == i {
                Dispatch::Incoherent { kind: AnomalyKind::SelfTarget }
            } else if !w.present(t as int) || w.actors@[t as int]->0.stats.hp < 1 {
                Dispatch::Incoherent { kind: AnomalyKind::TargetGone }
            } else {
                Dispatch::Attack { target: t, attack }
            },
        },
        Command::WaitCommand(wait) => if eff.target is Some {
            Dispatch::Incoherent { kind: AnomalyKind::WaitWithTarget }
        } else {
            Dispatch::Rest { wait }
        },
        Command::MoveCommand => if eff.target is Some {
            Dispatch::Incoherent { kind: AnomalyKind::MoveWithTarget }
        } else {
            match eff.position {
                None => Dispatch::Incoherent { kind: AnomalyKind::MoveWithoutPosition },
                Some(p) => if w.map.in_bounds(p.x as int, p.y as int) {
                    Dispatch::Step { to: p }
                } else {
                    Dispatch::Incoherent { kind: AnomalyKind::MoveOutOfBounds }
                },
            }
        },
    }
}

/// Stats after a resolved command: `stance_after` unless left stunned, and the
/// command remembered for next turn's reactions.
pub open spec fn finished(s: CombatStats, stance_after: CombatStance, command: Command) -> CombatStats {
    CombatStats {
        stance: if s.stance == CombatStance::Stun { CombatStance::Stun } else { stance_after },
        last_command: Some(command),
        ..s
    }
}

/// Effective power and defense of an attack.
pub open spec fn attack_powers(s: CombatStats, ts: CombatStats, a: AttackMove) -> (int, int) {
    (
        s.power + power_adjustment_of(a, ts.stance),
        ts.defense + defense_adjustment_of(a, ts.last_command),
    )
}

/// Energy damage of an attack: by target stance plus the reaction to the target's
/// last command.
pub open spec fn attack_ep_total(a: AttackMove, ts: CombatStats) -> int {
    attack_ep_damage_of(a, ts.stance) + reaction_ep_damage_of(a, ts.last_command)
}

pub open spec fn attacker_after(a: Actor, eff: Action, attack: AttackMove) -> Actor {
    Actor {
        stats: finished(
            ep_damaged(a.stats, eff.cost as int),
            eff.stance_after,
            Command::AttackCommand(attack),
        ),
        ..a
    }
}

pub open spec fn target_after(t: Actor, damage: int, ep_damage: int) -> Actor {
    Actor { stats: ep_damaged(hp_damaged(t.stats, damage), ep_damage), ..t }
}

pub open spec fn synergy_entries(i: int, t: int, a: AttackMove, ts: CombatStats) -> Seq<LogEntry> {
    match synergy_of(a, ts.stance, ts.last_command) {
        Some(s) => seq![LogEntry::Highlight { attacker: i as usize, target: t as usize, synergy: s }],
        None => seq![],
    }
}

pub open spec fn rester_after(a: Actor, eff: Action, wait: WaitMove) -> Actor {
    Actor {
        stats: finished(
            rested(a.stats, eff.cost as int),
            eff.stance_after,
            Command::WaitCommand(wait),
        ),
        player: if rest_heals(a.stats) && a.player is Some {
            Some(fed(a.player->0))
        } else {
            a.player
        },
        ..a
    }
}

pub open spec fn rest_entries(i: int, a: Actor, eff: Action) -> Seq<LogEntry> {
    if eff.cost != 0 && a.stats.ep != a.stats.max_ep {
        seq![LogEntry::Recovered { actor: i as usize, cost: eff.cost }]
    } else {
        seq![]
    }
}

/// `x` clamped to the range of `i32`.
pub open spec fn saturate(x: int) -> int {
    if x > i32::MAX {
        i32::MAX as int
    } else if x < i32::MIN {
        i32::MIN as int
    } else {
        x
    }
}

/// Whether the mover picks up the item in this slot: coins and the amulet at the
/// destination.
pub open spec fn pickable(g: Option<GroundItem>, p: Position) -> bool {
    g matches Some(x) && x.position == p && (x.item.item is Coin || x.item.item is Amulet)
}

pub open spec fn collect_one(inv: Player, g: GroundItem) -> Player {
    match g.item.item {
        Items::Coin(n) => Player { coin: saturate(inv.coin + n) as i32, ..inv },
        Items::Amulet => Player { has_amulet: true, ..inv },
        _ => inv,
    }
}

/// The inventory after picking up what lies at `p` among `items[0..n]`.
pub open spec fn collected(inv: Player, items: Seq<Option<GroundItem>>, p: Position, n: int) -> Player
    decreases n,
{
    if n <= 0 {
        inv
    } else if pickable(items[n - 1], p) {
        collect_one(collected(inv, items, p, n - 1), items[n - 1]->0)
    } else {
        collected(inv, items, p, n - 1)
    }
}

pub open spec fn pickup_entries(items: Seq<Option<GroundItem>>, p: Position, n: int) -> Seq<LogEntry>
    decreases n,
{
    if n <= 0 {
        seq![]
    } else if pickable(items[n - 1], p) {
        pickup_entries(items, p, n - 1) + seq![
            match items[n - 1]->0.item.item {
                Items::Coin(c) => LogEntry::PickedUpCoins { amount: c },
                _ => LogEntry::PickedUpAmulet,
            },
        ]
    } else {
        pickup_entries(items, p, n - 1)
    }
}

/// The items left after picking up at `p`.
pub open spec fn remaining(items: Seq<Option<GroundItem>>, p: Position) -> Seq<Option<GroundItem>> {
    Seq::new(items.len(), |j: int| if pickable(items[j], p) { None } else { items[j] })
}

pub open spec fn mover_after(a: Actor, eff: Action, p: Position, items: Seq<Option<GroundItem>>) -> Actor {
    Actor {
        position: p,
        viewshed: Viewshed { dirty: true, ..a.viewshed },
        stats: finished(move_regenerated(a.stats), eff.stance_after, Command::MoveCommand),
        player: match a.player {
            Some(inv) => Some(collected(inv, items, p, items.len() as int)),
            None => None,
        },
        ..a
    }
}

/// The map layers other than `blocked` are equal.
pub open spec fn same_but_blocked(m1: GameMap, m2: GameMap) -> bool {
    &&& m1.tiles == m2.tiles
    &&& m1.width == m2.width
    &&& m1.height == m2.height
    &&& m1.revealed_tiles == m2.revealed_tiles
    &&& m1.visible_tiles == m2.visible_tiles
    &&& m1.tile_content == m2.tile_content
}

/// Whether actor `i` has an action pending.
pub open spec fn pending(w: World, i: int) -> bool {
    w.present(i) && w.actors@[i]->0.action is Some
}

/// Effective power and defense of the attack that actor `i` will resolve, if its
/// effective action is a coherent attack.
pub open spec fn attack_profile_of(w: World, i: int, pre_stance: CombatStance, pre_ep: int) -> Option<(int, int)> {
    if pending(w, i) {
        let a = w.actors@[i]->0;
        let eff = effective_action(a.action->0, pre_stance, pre_ep);
        match dispatch_of(w, i, eff) {
            Dispatch::Attack { target, attack } => Some(
                attack_powers(a.stats, w.actors@[target as int]->0.stats, attack),
            ),
            _ => None,
        }
    } else {
        None
    }
}

/// The world `w2` is `w` after actor `i` resolved its pending action, given the
/// turn's snapshot of its stance and energy and, for an attack, the damage bonus
/// draw `roll`. The pending action itself stays in place.
pub open spec fn resolved(w: World, w2: World, i: int, pre_stance: CombatStance, pre_ep: int, roll: int) -> bool {
    &&& w2.player == w.player
    &&& w2.run_state == w.run_state
    &&& if !pending(w, i) {
        &&& w2.actors == w.actors
        &&& w2.items == w.items
        &&& w2.map == w.map
        &&& w2.log == w.log
    } else {
        let a = w.actors@[i]->0;
        let action = a.action->0;
        let eff = effective_action(action, pre_stance, pre_ep);
        let log0 = w.log.entries@ + override_entries(i, action, pre_stance, pre_ep);
        match dispatch_of(w, i, eff) {
            Dispatch::Attack { target, attack } => {
                let t = target as int;
                let ts = w.actors@[t]->0.stats;
                let (pow, def) = attack_powers(a.stats, ts, attack);
                let damage = damage_value(pow, def, roll);
                let ep_damage = attack_ep_total(attack, ts);
                &&& w2.actors@ == w.actors@.update(i, Some(attacker_after(a, eff, attack))).update(
                    t,
                    Some(target_after(w.actors@[t]->0, damage, ep_damage)),
                )
                &&& w2.items == w.items
                &&& w2.map == w.map
                &&& w2.log.entries@ == log0 + seq![
                    LogEntry::Attacked {
                        attacker: i as usize,
                        attack,
                        target,
                        damage: damage as i32,
                        ep_damage: ep_damage as i32,
                    },
                ] + synergy_entries(i, t, attack, ts)
            },
            Dispatch::Rest { wait } => {
                &&& w2.actors@ == w.actors@.update(i, Some(rester_after(a, eff, wait)))
                &&& w2.items == w.items
                &&& w2.map == w.map
                &&& w2.log.entries@ == log0 + rest_entries(i, a, eff)
            },
            Dispatch::Step { to } => {
                let items = w.items@;
                &&& w2.actors@ == w.actors@.update(i, Some(mover_after(a, eff, to, items)))
                &&& same_but_blocked(w.map, w2.map)
                &&& w2.map.blocked@ == if i != w.player {
                    w.map.blocked@.update(w.map.idx(to.x as int, to.y as int), true)
                } else {
                    w.map.blocked@
                }
                &&& if a.player is Some {
                    &&& w2.items@ == remaining(items, to)
                    &&& w2.log.entries@ == log0 + pickup_entries(items, to, items.len() as int)
                } else {
                    &&& w2.items == w.items
                    &&& w2.log.entries@ == log0
                }
            },
            Dispatch::Incoherent { kind } => {
                &&& w2.actors == w.actors
                &&& w2.items == w.items
                &&& w2.map == w.map
                &&& w2.log.entries@ == log0 + seq![LogEntry::Anomaly { actor: i as usize, kind }]
            },
        }
    }
}

/// The override check.
pub fn effective(action: Action, pre_stance: CombatStance, pre_ep: i32) -> (r: Action)
    ensures
        r == effective_action(action, pre_stance, pre_ep as int),
{
    if pre_stance == CombatStance::Stun || action.cost > pre_ep {
        Action {
            command: Command::WaitCommand(WaitMove::Wait),
            cost: -10,
            stance_after: if pre_stance == CombatStance::Stun {
                CombatStance::Ready
            } else {
                pre_stance
            },
            target: None,
            position: None,
        }
    } else {
        action
    }
}

/// Classifies the effective action `eff` of actor `i`.
pub fn classify(w: &World, i: usize, eff: &Action) -> (r: Dispatch)
    requires
        w.wf(),
    ensures
        r == dispatch_of(*w, i as int, *eff),
{
    match eff.command {
        Command::AttackCommand(attack) => match eff.target {
            None => Dispatch::Incoherent { kind: AnomalyKind::AttackWithoutTarget },
            Some(t) => {
                if t == i {
                    Dispatch::Incoherent { kind: AnomalyKind::SelfTarget }
                } else if t >= w.actors.len() {
                    Dispatch::Incoherent { kind: AnomalyKind::TargetGone }
                } else {
                    match &w.actors[t] {
                        None => Dispatch::Incoherent { kind: AnomalyKind::TargetGone },
                        Some(ta) => if ta.stats.hp < 1 {
                            Dispatch::Incoherent { kind: AnomalyKind::TargetGone }
                        } else {
                            Dispatch::Attack { target: t, attack }
                        },
                    }
                }
            },
        },
        Command::WaitCommand(wait) => if eff.target.is_some() {
            Dispatch::Incoherent { kind: AnomalyKind::WaitWithTarget }
        } else {
            Dispatch::Rest { wait }
        },
        Command::MoveCommand => if eff.target.is_some() {
            Dispatch::Incoherent { kind: AnomalyKind::MoveWithTarget }
        } else {
            match eff.position {
                None => Dispatch::Incoherent { kind: AnomalyKind::MoveWithoutPosition },
                Some(p) => if 0 <= p.x && p.x < w.map.width && 0 <= p.y && p.y < w.map.height {
                    Dispatch::Step { to: p }
                } else {
                    Dispatch::Incoherent { kind: AnomalyKind::MoveOutOfBounds }
                },
            }
        },
    }
}

/// Takes actor `i` out of its slot, leaving `None` behind.
fn take_actor(w: &mut World, i: usize) -> (r: Actor)
    requires
        old(w).present(i as int),
    ensures
        Some(r) == old(w).actors@[i as int],
        final(w).actors@ == old(w).actors@.update(i as int, None),
        final(w).items == old(w).items,
        final(w).player == old(w).player,
        final(w).map == old(w).map,
        final(w).log == old(w).log,
        final(w).run_state == old(w).run_state,
{
    let mut slot: Option<Actor> = None;
    w.actors.set_and_swap(i, &mut slot);
    slot.unwrap()
}

/// Effective power and defense of the attack that actor `i` will resolve, if any.
pub fn attack_profile(w: &World, i: usize, pre_stance: CombatStance, pre_ep: i32) -> (r: Option<(i32, i32)>)
    requires
        w.wf(),
        i < w.actors@.len(),
    ensures
        match attack_profile_of(*w, i as int, pre_stance, pre_ep as int) {
            Some((pow, def)) => r matches Some((p, d)) && p == pow && d == def,
            None => r is None,
        },
{
    let a = match &w.actors[i] {
        Some(a) => a,
        None => return None,
    };
    let action = match a.action {
        Some(act) => act,
        None => return None,
    };
    let eff = effective(action, pre_stance, pre_ep);
    match classify(w, i, &eff) {
        Dispatch::Attack { target, attack } => {
            let ts = match &w.actors[target] {
                Some(t) => &t.stats,
                None => return None,
            };
            assert(a.stats.wf() && ts.wf()) by {
                assert(w.actors@[i as int] matches Some(x) ==> x.stats.wf());
                assert(w.actors@[target as int] matches Some(x) ==> x.stats.wf());
            }
            let pow = a.stats.power + power_adjustment(attack, ts.stance);
            let def = ts.defense + defense_adjustment(attack, ts.last_command);
            Some((pow, def))
        },
        _ => None,
    }
}

/// Resolves the attack of actor `i` on actor `t`.
fn resolve_attack(w: &mut World, i: usize, t: usize, attack: AttackMove, eff: &Action, roll: i32)
    requires
        old(w).wf(),
        old(w).present(i as int),
        old(w).present(t as int),
        i != t,
        ({
            let (pow, def) = attack_powers(
                old(w).actors@[i as int]->0.stats,
                old(w).actors@[t as int]->0.stats,
                attack,
            );
            0 <= roll < random_ceiling(pow, def)
        }),
    ensures
        final(w).wf(),
        ({
            let a = old(w).actors@[i as int]->0;
            let ta = old(w).actors@[t as int]->0;
            let ts = ta.stats;
            let (pow, def) = attack_powers(a.stats, ts, attack);
            let damage = damage_value(pow, def, roll as int);
            let ep_damage = attack_ep_total(attack, ts);
            &&& final(w).actors@ == old(w).actors@.update(
                i as int,
                Some(attacker_after(a, *eff, attack)),
            ).update(t as int, Some(target_after(ta, damage, ep_damage)))
            &&& final(w).log.entries@ == old(w).log.entries@ + seq![
                LogEntry::Attacked {
                    attacker: i,
                    attack,
                    target: t,
                    damage: damage as i32,
                    ep_damage: ep_damage as i32,
                },
            ] + synergy_entries(i as int, t as int, attack, ts)
        }),
        final(w).items == old(w).items,
        final(w).player == old(w).player,
        final(w).map == old(w).map,
        final(w).run_state == old(w).run_state,
{
    let ghost w0 = *old(w);
    assert(w0.actors@[i as int] matches Some(x) ==> x.stats.wf());
    assert(w0.actors@[t as int] matches Some(x) ==> x.stats.wf());
    let mut a = take_actor(w, i);
    let mut ta = take_actor(w, t);
    let ts_stance = ta.stats.stance;
    let ts_last = ta.stats.last_command;
    let pow = a.stats.power + power_adjustment(attack, ts_stance);
    let def = ta.stats.defense + defense_adjustment(attack, ts_last);
    proof {
        lemma_bounded_damage_fits(pow as int, def as int);
    }
    let damage = damage_from_roll(pow, def, roll);
    let ep_damage = attack_ep_damage(attack, ts_stance) + reaction_ep_damage(attack, ts_last);
    w.log.entries.push(
        LogEntry::Attacked { attacker: i, attack, target: t, damage, ep_damage },
    );
    match synergy(attack, ts_stance, ts_last) {
        Some(s) => w.log.entries.push(LogEntry::Highlight { attacker: i, target: t, synergy: s }),
        None => {},
    }
    apply_ep_damage(&mut a.stats, eff.cost);
    if a.stats.stance != CombatStance::Stun {
        a.stats.stance = eff.stance_after;
    }
    a.stats.last_command = Some(Command::AttackCommand(attack));
    apply_hp_damage(&mut ta.stats, damage);
    apply_ep_damage(&mut ta.stats, ep_damage);
    w.actors.set(i, Some(a));
    w.actors.set(t, Some(ta));
    proof {
        assert(w.actors@ =~= w0.actors@.update(i as int, Some(a)).update(t as int, Some(ta)));
        assert(w.log.entries@ =~= w0.log.entries@ + seq![
            LogEntry::Attacked { attacker: i, attack, target: t, damage, ep_damage },
        ] + synergy_entries(i as int, t as int, attack, w0.actors@[t as int]->0.stats));
        assert forall|j: int| 0 <= j < w.actors@.len() implies (#[trigger] w.actors@[j] matches Some(x)
            ==> x.stats.wf()) by {
            if j != i && j != t {
                assert(w.actors@[j] == w0.actors@[j]);
            }
        }
    }
}

/// Resolves a rest of actor `i`.
fn resolve_wait(w: &mut World, i: usize, wait: WaitMove, eff: &Action)
    requires
        old(w).wf(),
        old(w).present(i as int),
    ensures
        final(w).wf(),
        final(w).actors@ == old(w).actors@.update(
            i as int,
            Some(rester_after(old(w).actors@[i as int]->0, *eff, wait)),
        ),
        final(w).log.entries@ == old(w).log.entries@ + rest_entries(
            i as int,
            old(w).actors@[i as int]->0,
            *eff,
        ),
        final(w).items == old(w).items,
        final(w).player == old(w).player,
        final(w).map == old(w).map,
        final(w).run_state == old(w).run_state,
{
    let ghost w0 = *old(w);
    assert(w0.actors@[i as int] matches Some(x) ==> x.stats.wf());
    let mut a = take_actor(w, i);
    if eff.cost != 0 && a.stats.ep != a.stats.max_ep {
        w.log.entries.push(LogEntry::Recovered { actor: i, cost: eff.cost });
    }
    rest_or_default(&mut a.stats, wait, eff.cost, &mut a.player);
    if a.stats.stance != CombatStance::Stun {
        a.stats.stance = eff.stance_after;
    }
    a.stats.last_command = Some(Command::WaitCommand(wait));
    w.actors.set(i, Some(a));
    proof {
        assert(w.actors@ =~= w0.actors@.update(i as int, Some(a)));
        assert(w.log.entries@ =~= w0.log.entries@ + rest_entries(i as int, w0.actors@[i as int]->0, *eff));
        assert forall|j: int| 0 <= j < w.actors@.len() implies (#[trigger] w.actors@[j] matches Some(x)
            ==> x.stats.wf()) by {
            if j != i {
                assert(w.actors@[j] == w0.actors@[j]);
            }
        }
    }
}

/// Picks up the coins and the amulet lying at `p`, in item order.
fn pick_up(items: &mut Vec<Option<GroundItem>>, inv: &mut Player, log: &mut Vec<LogEntry>, p: Position)
    ensures
        final(items)@ == remaining(old(items)@, p),
        *final(inv) == collected(*old(inv), old(items)@, p, old(items)@.len() as int),
        final(log)@ == old(log)@ + pickup_entries(old(items)@, p, old(items)@.len() as int),
{
    let ghost items0 = old(items)@;
    let n = items.len();
    let mut j: usize = 0;
    while j < n
        invariant
            n == items0.len(),
            items@.len() == n,
            j <= n,
            items0 == old(items)@,
            forall|k: int| 0 <= k < j ==> #[trigger] items@[k] == remaining(items0, p)[k],
            forall|k: int| j <= k < n ==> #[trigger] items@[k] == items0[k],
            *inv == collected(*old(inv), items0, p, j as int),
            log@ == old(log)@ + pickup_entries(items0, p, j as int),
        decreases n - j,
    {
        let here = match items[j] {
            Some(g) => g.position == p,
            None => false,
        };
        if here {
            let g = items[j].unwrap();
            match g.item.item {
                Items::Coin(c) => {
                    let sum: i64 = inv.coin as i64 + c as i64;
                    inv.coin = if sum > i32::MAX as i64 {
                        i32::MAX
                    } else if sum < i32::MIN as i64 {
                        i32::MIN
                    } else {
                        sum as i32
                    };
                    items.set(j, None);
                    log.push(LogEntry::PickedUpCoins { amount: c });
                },
                Items::Amulet => {
                    inv.has_amulet = true;
                    items.set(j, None);
                    log.push(LogEntry::PickedUpAmulet);
                },
                _ => {},
            }
        }
        proof {
            assert(log@ =~= old(log)@ + pickup_entries(items0, p, j + 1));
        }
        j = j + 1;
    }
    proof {
        assert(items@ =~= remaining(items0, p));
    }
}

/// Resolves a move of actor `i` to the in-bounds cell `p`.
fn resolve_move(w: &mut World, i: usize, p: Position, eff: &Action)
    requires
        old(w).wf(),
        old(w).present(i as int),
        old(w).map.in_bounds(p.x as int, p.y as int),
    ensures
        final(w).wf(),
        ({
            let a = old(w).actors@[i as int]->0;
            let items = old(w).items@;
            &&& final(w).actors@ == old(w).actors@.update(i as int, Some(mover_after(a, *eff, p, items)))
            &&& same_but_blocked(old(w).map, final(w).map)
            &&& final(w).map.blocked@ == if i != old(w).player {
                old(w).map.blocked@.update(old(w).map.idx(p.x as int, p.y as int), true)
            } else {
                old(w).map.blocked@
            }
            &&& if a.player is Some {
                &&& final(w).items@ == remaining(items, p)
                &&& final(w).log.entries@ == old(w).log.entries@ + pickup_entries(items, p, items.len() as int)
            } else {
                &&& final(w).items == old(w).items
                &&& final(w).log == old(w).log
            }
        }),
        final(w).player == old(w).player,
        final(w).run_state == old(w).run_state,
{
    let ghost w0 = *old(w);
    assert(w0.actors@[i as int] matches Some(x) ==> x.stats.wf());
    let mut a = take_actor(w, i);
    a.position = p;
    let idx = w.map.xy_idx(p.x, p.y);
    if i != w.player {
        w.map.blocked.set(idx, true);
    }
    a.viewshed.dirty = true;
    move_regen(&mut a.stats);
    if a.stats.stance != CombatStance::Stun {
        a.stats.stance = eff.stance_after;
    }
    a.stats.last_command = Some(Command::MoveCommand);
    match &mut a.player {
        Some(inv) => {
            pick_up(&mut w.items, inv, &mut w.log.entries, p);
        },
        None => {},
    }
    w.actors.set(i, Some(a));
    proof {
        assert(w.actors@ =~= w0.actors@.update(i as int, Some(a)));
        assert forall|j: int| 0 <= j < w.actors@.len() implies (#[trigger] w.actors@[j] matches Some(x)
            ==> x.stats.wf()) by {
            if j != i {
                assert(w.actors@[j] == w0.actors@[j]);
            }
        }
    }
}

/// Resolves the pending action of actor `i` (if any) against the turn's snapshot
/// `pre_stance`, `pre_ep` of its stance and energy; `roll` is the damage bonus
/// draw when the effective action is an attack.
pub fn resolve_action(world: &mut World, i: usize, pre_stance: CombatStance, pre_ep: i32, roll: i32)
    requires
        old(world).wf(),
        i < old(world).actors@.len(),
        attack_profile_of(*old(world), i as int, pre_stance, pre_ep as int) matches Some(
            (pow, def),
        ) ==> 0 <= roll < random_ceiling(pow, def),
    ensures
        final(world).wf(),
        resolved(*old(world), *final(world), i as int, pre_stance, pre_ep as int, roll as int),
        final(world).actors@.len() == old(world).actors@.len(),
        forall|j: int| #[trigger] final(world).present(j) == old(world).present(j),
        forall|j: int|
            0 <= j < final(world).actors@.len() && j != i ==> (#[trigger] final(world).actors@[j]
                matches Some(x) ==> x.action == old(world).actors@[j]->0.action),
        old(world).log.entries@.is_prefix_of(final(world).log.entries@),
{
    let ghost w0 = *old(world);
    let action = match &world.actors[i] {
        Some(a) => match a.action {
            Some(act) => act,
            None => return ,
        },
        None => return ,
    };
    if pre_stance == CombatStance::Stun {
        world.log.entries.push(LogEntry::Stunned { actor: i });
    } else if action.cost > pre_ep {
        world.log.entries.push(LogEntry::InsufficientEnergy { actor: i });
    }
    let eff = effective(action, pre_stance, pre_ep);
    let ghost w1 = *world;
    assert(w1.log.entries@ =~= w0.log.entries@ + override_entries(i as int, action, pre_stance, pre_ep as int));
    let d = classify(world, i, &eff);
    assert(d == dispatch_of(w0, i as int, eff));
    match d {
        Dispatch::Attack { target, attack } => {
            resolve_attack(world, i, target, attack, &eff, roll);
            assert(world.log.entries@ =~= w1.log.entries@ + seq![
                LogEntry::Attacked {
                    attacker: i,
                    attack,
                    target,
                    damage: damage_value(
                        attack_powers(w0.actors@[i as int]->0.stats, w0.actors@[target as int]->0.stats, attack).0,
                        attack_powers(w0.actors@[i as int]->0.stats, w0.actors@[target as int]->0.stats, attack).1,
                        roll as int,
                    ) as i32,
                    ep_damage: attack_ep_total(attack, w0.actors@[target as int]->0.stats) as i32,
                },
            ] + synergy_entries(i as int, target as int, attack, w0.actors@[target as int]->0.stats));
        },
        Dispatch::Rest { wait } => {
            resolve_wait(world, i, wait, &eff);
        },
        Dispatch::Step { to } => {
            resolve_move(world, i, to, &eff);
        },
        Dispatch::Incoherent { kind } => {
            world.log.entries.push(LogEntry::Anomaly { actor: i, kind });
        },
    }
    proof {
        assert(w0.log.entries@.is_prefix_of(world.log.entries@)) by {
            assert(world.log.entries@.subrange(0, w0.log.entries@.len() as int) =~= w0.log.entries@);
        }
        assert forall|j: int| #[trigger] world.present(j) == w0.present(j) by {
            if 0 <= j < w0.actors@.len() {
                assert(world.actors@[j] is Some == w0.actors@[j] is Some);
            }
        }
    }
}

/// An action that costs more than the actor's energy is replaced by a rest before
/// dispatch: no other actor, no item and no map cell changes, and the log says why.
pub proof fn unaffordable_action_only_rests(
    w: World,
    w2: World,
    i: int,
    pre_stance: CombatStance,
    pre_ep: int,
    roll: int,
)
    requires
        resolved(w, w2, i, pre_stance, pre_ep, roll),
        pending(w, i),
        w.actors@[i]->0.action->0.cost > pre_ep,
    ensures
        effective_action(w.actors@[i]->0.action->0, pre_stance, pre_ep).command
            == Command::WaitCommand(WaitMove::Wait),
        w2.actors@.len() == w.actors@.len(),
        forall|j: int| 0 <= j < w.actors@.len() && j != i ==> #[trigger] w2.actors@[j] == w.actors@[j],
        w2.items == w.items,
        w2.map == w.map,
        pre_stance != CombatStance::Stun ==> w2.log.entries@[w.log.entries@.len() as int]
            == (LogEntry::InsufficientEnergy { actor: i as usize }),
{
}

/// Stance of actor `k` in the turn's snapshot (`Ready` for an empty slot).
pub open spec fn snapshot_stance(w: World, k: int) -> CombatStance {
    match w.actors@[k] {
        Some(a) => a.stats.stance,
        None => CombatStance::Ready,
    }
}

/// Energy of actor `k` in the turn's snapshot (0 for an empty slot).
pub open spec fn snapshot_ep(w: World, k: int) -> int {
    match w.actors@[k] {
        Some(a) => a.stats.ep as int,
        None => 0,
    }
}

/// Step `k` of a turn that started from `w0`: `ws[k + 1]` is `ws[k]` after actor
/// `k` resolved its action against the snapshot, with a damage draw in range.
pub open spec fn turn_step(w0: World, ws: Seq<World>, rolls: Seq<int>, k: int) -> bool {
    let ps = snapshot_stance(w0, k);
    let pe = snapshot_ep(w0, k);
    &&& (attack_profile_of(ws[k], k, ps, pe) matches Some((pow, def)) ==> 0 <= rolls[k]
        < random_ceiling(pow, def))
    &&& resolved(ws[k], ws[k + 1], k, ps, pe, rolls[k])
}

/// `ws` are the worlds of a turn that started from `w0`, one more than the steps
/// taken; every actor index below `ws.len() - 1` has had its step.
pub open spec fn turn_so_far(w0: World, ws: Seq<World>, rolls: Seq<int>) -> bool {
    &&& ws.len() == rolls.len() + 1
    &&& ws[0] == w0
    &&& forall|k: int| 0 <= k < rolls.len() ==> #[trigger] turn_step(w0, ws, rolls, k)
}

/// `w2` is `w` with every pending action cleared.
pub open spec fn actions_cleared(w: World, w2: World) -> bool {
    &&& w2.actors@.len() == w.actors@.len()
    &&& forall|j: int|
        0 <= j < w.actors@.len() ==> #[trigger] w2.actors@[j] == match w.actors@[j] {
            Some(a) => Some(Actor { action: None, ..a }),
            None => None,
        }
    &&& w2.items == w.items
    &&& w2.map == w.map
    &&& w2.log == w.log
    &&& w2.player == w.player
    &&& w2.run_state == w.run_state
}

/// Within a turn, an actor whose action costs more than its snapshot energy only
/// rests: its step leaves every other actor, every item and the map as they were,
/// so the target of the unaffordable command is untouched.
pub proof fn unaffordable_step_spares_others(w0: World, ws: Seq<World>, rolls: Seq<int>, k: int)
    requires
        turn_so_far(w0, ws, rolls),
        0 <= k < rolls.len(),
        pending(ws[k], k),
        ws[k].actors@[k]->0.action->0.cost > snapshot_ep(w0, k),
    ensures
        ws[k + 1].actors@.len() == ws[k].actors@.len(),
        forall|j: int| 0 <= j < ws[k].actors@.len() && j != k ==> #[trigger] ws[k + 1].actors@[j] == ws[k].actors@[j],
        ws[k + 1].items == ws[k].items,
        ws[k + 1].map == ws[k].map,
{
    assert(turn_step(w0, ws, rolls, k));
    unaffordable_action_only_rests(ws[k], ws[k + 1], k, snapshot_stance(w0, k), snapshot_ep(w0, k), rolls[k]);
}

/// The turn's resolution system.
pub struct ActionSystem {}

impl ActionSystem {
    /// Resolves every pending action once, in index order, each against the
    /// snapshot of its actor's stance and energy taken before the turn, with damage
    /// bonuses drawn from `rng`; then clears every pending action. No actor is
    /// added or removed.
    pub fn run(&mut self, ecs: &mut World, rng: &mut rltk::RandomNumberGenerator)
        requires
            old(ecs).wf(),
        ensures
            final(ecs).wf(),
            exists|ws: Seq<World>, rolls: Seq<int>|
                #[trigger] turn_so_far(*old(ecs), ws, rolls) && rolls.len() == old(
                    ecs,
                ).actors@.len() && actions_cleared(ws.last(), *final(ecs)),
            final(ecs).actors@.len() == old(ecs).actors@.len(),
            forall|j: int| #[trigger] final(ecs).present(j) == old(ecs).present(j),
            forall|j: int|
                0 <= j < final(ecs).actors@.len() ==> (#[trigger] final(ecs).actors@[j] matches Some(
                    x,
                ) ==> x.action is None),
            final(ecs).player == old(ecs).player,
            final(ecs).run_state == old(ecs).run_state,
            old(ecs).log.entries@.is_prefix_of(final(ecs).log.entries@),
    {
        let ghost w0 = *old(ecs);
        let n = ecs.actors.len();
        let mut pre_stance: Vec<CombatStance> = Vec::new();
        let mut pre_ep: Vec<i32> = Vec::new();
        let mut j: usize = 0;
        while j < n
            invariant
                *ecs == w0,
                n == ecs.actors@.len(),
                j <= n,
                pre_stance@.len() == j,
                pre_ep@.len() == j,
                forall|k: int| 0 <= k < j ==> #[trigger] pre_stance@[k] == snapshot_stance(w0, k),
                forall|k: int| 0 <= k < j ==> #[trigger] pre_ep@[k] == snapshot_ep(w0, k),
            decreases n - j,
        {
            match &ecs.actors[j] {
                Some(a) => {
                    pre_stance.push(a.stats.stance);
                    pre_ep.push(a.stats.ep);
                },
                None => {
                    pre_stance.push(CombatStance::Ready);
                    pre_ep.push(0);
                },
            }
            j = j + 1;
        }
        let ghost mut ws: Seq<World> = seq![w0];
        let ghost mut rolls: Seq<int> = seq![];
        let mut i: usize = 0;
        while i < n
            invariant
                ecs.wf(),
                n == ecs.actors@.len(),
                n == w0.actors@.len(),
                i <= n,
                pre_stance@.len() == n,
                pre_ep@.len() == n,
                forall|k: int| 0 <= k < n ==> #[trigger] pre_stance@[k] == snapshot_stance(w0, k),
                forall|k: int| 0 <= k < n ==> #[trigger] pre_ep@[k] == snapshot_ep(w0, k),
                turn_so_far(w0, ws, rolls),
                rolls.len() == i,
                ws.last() == *ecs,
                forall|k: int| #[trigger] ecs.present(k) == w0.present(k),
                ecs.player == w0.player,
                ecs.run_state == w0.run_state,
                w0.log.entries@.is_prefix_of(ecs.log.entries@),
            decreases n - i,
        {
            let roll = match attack_profile(ecs, i, pre_stance[i], pre_ep[i]) {
                Some((pow, def)) => {
                    assert(ecs.actors@[i as int] matches Some(x) ==> x.stats.wf());
                    let ghost t = dispatch_of(
                        *ecs,
                        i as int,
                        effective_action(ecs.actors@[i as int]->0.action->0, pre_stance@[i as int], pre_ep@[i as int] as int),
                    )->target;
                    assert(ecs.actors@[t as int] matches Some(x) ==> x.stats.wf());
                    proof {
                        lemma_bounded_damage_fits(pow as int, def as int);
                    }
                    let ceiling = roll_ceiling(pow, def);
                    draw_range(rng, 0, ceiling)
                },
                None => 0,
            };
            let ghost before = *ecs;
            resolve_action(ecs, i, pre_stance[i], pre_ep[i], roll);
            proof {
                assert(w0.log.entries@.is_prefix_of(ecs.log.entries@)) by {
                    assert(ecs.log.entries@.subrange(0, w0.log.entries@.len() as int) =~= before.log.entries@.subrange(
                        0,
                        w0.log.entries@.len() as int,
                    ));
                }
                let ghost ws2 = ws.push(*ecs);
                let ghost rolls2 = rolls.push(roll as int);
                assert forall|k: int| 0 <= k < rolls2.len() implies #[trigger] turn_step(w0, ws2, rolls2, k) by {
                    assert(ws2[k] == ws[k]);
                    if k < rolls.len() {
                        assert(turn_step(w0, ws, rolls, k));
                        assert(ws2[k + 1] == ws[k + 1]);
                        assert(rolls2[k] == rolls[k]);
                    } else {
                        assert(ws2[k + 1] == *ecs);
                        assert(ws[k] == before);
                    }
                }
                ws = ws2;
                rolls = rolls2;
            }
            i = i + 1;
        }
        let ghost w1 = *ecs;
        let mut k: usize = 0;
        while k < n
            invariant
                ecs.wf(),
                n == ecs.actors@.len(),
                n == w1.actors@.len(),
                k <= n,
                forall|m: int| #[trigger] ecs.present(m) == w0.present(m),
                forall|m: int|
                    0 <= m < k ==> #[trigger] ecs.actors@[m] == match w1.actors@[m] {
                        Some(a) => Some(Actor { action: None, ..a }),
                        None => None,
                    },
                forall|m: int| k <= m < n ==> #[trigger] ecs.actors@[m] == w1.actors@[m],
                ecs.items == w1.items,
                ecs.map == w1.map,
                ecs.player == w1.player,
                ecs.run_state == w1.run_state,
                ecs.log == w1.log,
                w1.player == w0.player,
                w1.run_state == w0.run_state,
                w0.log.entries@.is_prefix_of(w1.log.entries@),
            decreases n - k,
        {
            if ecs.actors[k].is_some() {
                let ghost w2 = *ecs;
                assert(w2.actors@[k as int] matches Some(x) ==> x.stats.wf());
                let mut a = take_actor(ecs, k);
                a.action = None;
                ecs.actors.set(k, Some(a));
                proof {
                    assert(ecs.actors@ =~= w2.actors@.update(k as int, Some(a)));
                    assert forall|m: int| #[trigger] ecs.present(m) == w2.present(m) by {}
                    assert forall|m: int| 0 <= m < ecs.actors@.len() implies (#[trigger] ecs.actors@[m] matches Some(x)
                        ==> x.stats.wf()) by {
                        if m != k {
                            assert(ecs.actors@[m] == w2.actors@[m]);
                        }
                    }
                }
            }
            k = k + 1;
        }
        proof {
            assert(actions_cleared(ws.last(), *ecs));
            assert(turn_so_far(w0, ws, rolls));
            assert forall|m: int| 0 <= m < ecs.actors@.len() implies (#[trigger] ecs.actors@[m] matches Some(x)
                ==> x.action is None) by {
                assert(ecs.actors@[m] == match w1.actors@[m] {
                    Some(a) => Some(Actor { action: None, ..a }),
                    None => None,
                });
            }
        }
    }
}

} // verus!
