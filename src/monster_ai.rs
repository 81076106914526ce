//! The monster decision procedure.
//!
//! Each monster turn runs in two steps per monster, because the path search runs
//! outside this crate against the current blocking layer:
//! 1. `MonsterAI::observe` refreshes the monster's memory and targets and returns
//!    the cell that a path should be sought to, if the decision needs one;
//! 2. `MonsterAI::act` takes the first step of that path (if one was found) and
//!    submits the monster's action.

use vstd::prelude::*;

use crate::components::{Action, CombatStance, Command, Position, SmartMonster, WaitMove};
use crate::rng::draw_range;
use crate::world::{RunState, World};

verus! {

/// Draws for the monster's chances are in `[0, CHANCE_SCALE)`.
pub const CHANCE_SCALE: i32 = 1000;

/// Euclidean distance below 1.5: `dx² + dy² < 2.25`.
pub open spec fn adjacent(a: Position, b: Position) -> bool {
    let dx = a.x - b.x;
    let dy = a.y - b.y;
    4 * (dx * dx + dy * dy) < 9
}

/// Two cells are adjacent exactly when they differ by at most one in each coordinate.
pub proof fn lemma_adjacent_iff_neighbour(a: Position, b: Position)
    ensures
        adjacent(a, b) <==> (-1 <= a.x - b.x <= 1 && -1 <= a.y - b.y <= 1),
{
    let dx = a.x - b.x;
    let dy = a.y - b.y;
    assert(dx * dx >= 0 && dy * dy >= 0) by (nonlinear_arith);
    if dx < -1 || dx > 1 {
        assert(dx * dx >= 4) by (nonlinear_arith)
            requires
                dx < -1 || dx > 1,
        ;
    }
    if dy < -1 || dy > 1 {
        assert(dy * dy >= 4) by (nonlinear_arith)
            requires
                dy < -1 || dy > 1,
        ;
    }
    if -1 <= dx <= 1 && -1 <= dy <= 1 {
        assert(dx * dx <= 1 && dy * dy <= 1) by (nonlinear_arith)
            requires
                -1 <= dx <= 1,
                -1 <= dy <= 1,
        ;
    }
}

/// Whether two cells are within reach of a melee attack (Euclidean distance < 1.5).
pub fn is_adjacent(a: Position, b: Position) -> (r: bool)
    ensures
        r == adjacent(a, b),
{
    proof {
        lemma_adjacent_iff_neighbour(a, b);
    }
    let dx: i64 = a.x as i64 - b.x as i64;
    let dy: i64 = a.y as i64 - b.y as i64;
    -1 <= dx && dx <= 1 && -1 <= dy && dy <= 1
}

/// The monster's memory after looking around: a reached destination is forgotten,
/// and a visible player is remembered where it stands.
pub open spec fn observed(m: SmartMonster, pos: Position, player_pos: Position, visible: bool) -> SmartMonster {
    let kept = if m.target_location == Some(pos) { None } else { m.target_location };
    SmartMonster { target_location: if visible { Some(player_pos) } else { kept }, ..m }
}

/// Where the decision needs a path to: none when adjacent, the player when
/// visible, else the remembered location.
pub open spec fn path_goal(m: SmartMonster, pos: Position, player_pos: Position, visible: bool) -> Option<Position> {
    if adjacent(pos, player_pos) {
        None
    } else if visible {
        Some(player_pos)
    } else {
        m.target_location
    }
}

pub open spec fn primary_attack_action(m: SmartMonster, player: usize) -> Action {
    Action {
        command: Command::AttackCommand(m.primary_attack),
        cost: m.primary_attack_cost,
        stance_after: m.primary_stance,
        target: Some(player),
        position: None,
    }
}

pub open spec fn recovery_action(stance: CombatStance) -> Action {
    Action {
        command: Command::WaitCommand(WaitMove::Wait),
        cost: -10i32,
        stance_after: stance,
        target: None,
        position: None,
    }
}

pub open spec fn step_action(p: Position, stance: CombatStance) -> Action {
    Action {
        command: Command::MoveCommand,
        cost: 0i32,
        stance_after: stance,
        target: None,
        position: Some(p),
    }
}

/// The decision, in priority order, for a monster with memory `m` (already
/// observed), energy `ep`, at `pos`; `next_step` is the first step of the path to
/// `path_goal` if one was found; `roll` is a draw in `[0, CHANCE_SCALE)`.
pub open spec fn monster_choice(
    m: SmartMonster,
    ep: int,
    pos: Position,
    player_pos: Position,
    player: usize,
    visible: bool,
    next_step: Option<Position>,
    roll: int,
) -> Action {
    if adjacent(pos, player_pos) {
        if ep >= m.recover_ep_threshold {
            primary_attack_action(m, player)
        } else if ep >= m.primary_attack_cost {
            if roll < m.recover_ep_chance {
                recovery_action(m.primary_stance)
            } else {
                primary_attack_action(m, player)
            }
        } else {
            recovery_action(m.primary_stance)
        }
    } else if visible {
        match next_step {
            Some(p) => step_action(p, m.primary_stance),
            None => recovery_action(CombatStance::Ready),
        }
    } else if m.target_location is Some {
        match next_step {
            Some(p) => if roll < m.invisible_chase_chance {
                step_action(p, m.primary_stance)
            } else {
                recovery_action(m.primary_stance)
            },
            None => recovery_action(m.primary_stance),
        }
    } else {
        recovery_action(CombatStance::Ready)
    }
}

/// The decision procedure of `monster_choice`.
pub fn choose_action(
    m: &SmartMonster,
    ep: i32,
    pos: Position,
    player_pos: Position,
    player: usize,
    visible: bool,
    next_step: Option<Position>,
    roll: i32,
) -> (r: Action)
    ensures
        r == monster_choice(*m, ep as int, pos, player_pos, player, visible, next_step, roll as int),
{
    let attack = Action {
        command: Command::AttackCommand(m.primary_attack),
        cost: m.primary_attack_cost,
        stance_after: m.primary_stance,
        target: Some(player),
        position: None,
    };
    let recover = Action {
        command: Command::WaitCommand(WaitMove::Wait),
        cost: -10,
        stance_after: m.primary_stance,
        target: None,
        position: None,
    };
    let idle = Action {
        command: Command::WaitCommand(WaitMove::Wait),
        cost: -10,
        stance_after: CombatStance::Ready,
        target: None,
        position: None,
    };
    if is_adjacent(pos, player_pos) {
        if ep >= m.recover_ep_threshold {
            attack
        } else if ep >= m.primary_attack_cost {
            if roll >= 0 && (roll as u32) < m.recover_ep_chance {
                recover
            } else if roll < 0 {
                recover
            } else {
                attack
            }
        } else {
            recover
        }
    } else if visible {
        match next_step {
            Some(p) => Action {
                command: Command::MoveCommand,
                cost: 0,
                stance_after: m.primary_stance,
                target: None,
                position: Some(p),
            },
            None => idle,
        }
    } else if m.target_location.is_some() {
        match next_step {
            Some(p) => if roll < 0 || (roll as u32) < m.invisible_chase_chance {
                Action {
                    command: Command::MoveCommand,
                    cost: 0,
                    stance_after: m.primary_stance,
                    target: None,
                    position: Some(p),
                }
            } else {
                recover
            },
            None => recover,
        }
    } else {
        idle
    }
}

fn contains_position(v: &Vec<Position>, p: Position) -> (r: bool)
    ensures
        r == v@.contains(p),
{
    let n = v.len();
    let mut k: usize = 0;
    while k < n
        invariant
            n == v@.len(),
            k <= n,
            forall|j: int| 0 <= j < k ==> v@[j] != p,
        decreases n - k,
    {
        if v[k] == p {
            return true;
        }
        k = k + 1;
    }
    false
}

pub(crate) fn contains_index(v: &Vec<usize>, x: usize) -> (r: bool)
    ensures
        r == v@.contains(x),
{
    let n = v.len();
    let mut k: usize = 0;
    while k < n
        invariant
            n == v@.len(),
            k <= n,
            forall|j: int| 0 <= j < k ==> v@[j] != x,
        decreases n - k,
    {
        if v[k] == x {
            return true;
        }
        k = k + 1;
    }
    false
}

/// Whether actor `m` is a monster that can take part in the monster turn.
pub open spec fn is_monster(w: World, m: int) -> bool {
    w.present(m) && w.actors@[m]->0.monster is Some && m != w.player
}

/// Whether actor `m` sees the player.
pub open spec fn sees_player(w: World, m: int) -> bool {
    w.actors@[m]->0.viewshed.visible_tiles@.contains(w.actors@[w.player as int]->0.position)
}

/// `w2` is `w` after monster `m` submitted the action of `monster_choice` for
/// the draw `roll`, unblocking its cell if it steps away.
pub open spec fn acted(w: World, w2: World, m: int, next_step: Option<Position>, roll: int) -> bool {
    let a = w.actors@[m]->0;
    let pp = w.actors@[w.player as int]->0.position;
    let visible = a.stats.visible_targets@.contains(w.player);
    let chosen = monster_choice(a.monster->0, a.stats.ep as int, a.position, pp, w.player, visible, next_step, roll);
    &&& w2.actors@ == w.actors@.update(m, Some(crate::world::Actor { action: Some(chosen), ..a }))
    &&& w2.map.tiles == w.map.tiles
    &&& w2.map.width == w.map.width
    &&& w2.map.height == w.map.height
    &&& w2.map.blocked@ == if chosen.command == Command::MoveCommand && w.map.in_bounds(
        a.position.x as int,
        a.position.y as int,
    ) {
        w.map.blocked@.update(w.map.idx(a.position.x as int, a.position.y as int), false)
    } else {
        w.map.blocked@
    }
}

/// Whether the decision depends on a chance draw: a monster next to the player
/// whose energy lies between its attack cost and its recovery threshold, or one
/// chasing a remembered location it cannot see.
pub open spec fn draw_needed_for(m: SmartMonster, ep: int, pos: Position, player_pos: Position, visible: bool) -> bool {
    if adjacent(pos, player_pos) {
        m.primary_attack_cost <= ep < m.recover_ep_threshold
    } else {
        !visible && m.target_location is Some
    }
}

/// `draw_needed_for` for monster `m` of world `w`, as `act` sees it.
pub open spec fn draw_needed_in(w: World, m: int) -> bool {
    let a = w.actors@[m]->0;
    draw_needed_for(
        a.monster->0,
        a.stats.ep as int,
        a.position,
        w.actors@[w.player as int]->0.position,
        a.stats.visible_targets@.contains(w.player),
    )
}

/// Without a needed draw, the decision is the same whatever the draw.
pub proof fn lemma_choice_without_draw(
    m: SmartMonster,
    ep: int,
    pos: Position,
    player_pos: Position,
    player: usize,
    visible: bool,
    next_step: Option<Position>,
    roll: int,
)
    requires
        !draw_needed_for(m, ep, pos, player_pos, visible),
    ensures
        monster_choice(m, ep, pos, player_pos, player, visible, next_step, roll) == monster_choice(
            m,
            ep,
            pos,
            player_pos,
            player,
            visible,
            next_step,
            0,
        ),
{
}

fn draw_needed(m: &SmartMonster, ep: i32, pos: Position, player_pos: Position, visible: bool) -> (r: bool)
    ensures
        r == draw_needed_for(*m, ep as int, pos, player_pos, visible),
{
    if is_adjacent(pos, player_pos) {
        m.primary_attack_cost <= ep && ep < m.recover_ep_threshold
    } else {
        !visible && m.target_location.is_some()
    }
}

/// `w2` is `w` after monster `m` looked around: its memory is `observed`, it
/// targets the player exactly when it sees the player, and `goal` is where a path
/// should be sought.
pub open spec fn looked_around(w: World, w2: World, m: int, goal: Option<Position>) -> bool {
    let a = w.actors@[m]->0;
    let pp = w.actors@[w.player as int]->0.position;
    let visible = sees_player(w, m);
    let mem = observed(a.monster->0, a.position, pp, visible);
    let a2 = w2.actors@[m]->0;
    &&& w2.actors@ == w.actors@.update(m, Some(a2))
    &&& a2.monster == Some(mem)
    &&& a2.stats.visible_targets@ == (if visible { seq![w.player] } else { seq![] })
    &&& a2.stats.current_target == (if visible { Some(w.player) } else { None })
    &&& a2.position == a.position
    &&& a2.action == a.action
    &&& a2.player == a.player
    &&& a2.stats.hp == a.stats.hp
    &&& a2.stats.ep == a.stats.ep
    &&& a2.stats.stance == a.stats.stance
    &&& goal == path_goal(mem, a.position, pp, visible)
}

/// A monster standing on its remembered destination that does not see the player
/// has no destination after looking around.
pub proof fn looking_around_forgets_reached_destination(w: World, w2: World, m: int, goal: Option<Position>)
    requires
        looked_around(w, w2, m, goal),
        w.actors@[m]->0.monster->0.target_location == Some(w.actors@[m]->0.position),
        !sees_player(w, m),
    ensures
        w2.actors@[m]->0.monster->0.target_location is None,
{
}

/// The monster turn's decision system.
pub struct MonsterAI {}

impl MonsterAI {
    /// First step for monster `m`: clears its visible targets, forgets a reached
    /// destination, and, if it sees the player, remembers the player's cell and
    /// targets the player (else it has no current target). Returns the cell a path
    /// should be sought to. Outside the monster turn nothing happens.
    pub fn observe(&mut self, ecs: &mut World, m: usize) -> (goal: Option<Position>)
        requires
            old(ecs).wf(),
        ensures
            final(ecs).wf(),
            final(ecs).actors@.len() == old(ecs).actors@.len(),
            final(ecs).items == old(ecs).items,
            final(ecs).map == old(ecs).map,
            final(ecs).log == old(ecs).log,
            final(ecs).player == old(ecs).player,
            final(ecs).run_state == old(ecs).run_state,
            !(old(ecs).run_state == RunState::MonsterTurn && is_monster(*old(ecs), m as int)) ==> (
            final(ecs).actors == old(ecs).actors && goal is None),
            old(ecs).run_state == RunState::MonsterTurn && is_monster(*old(ecs), m as int)
                ==> looked_around(*old(ecs), *final(ecs), m as int, goal),
    {
        let in_turn = match ecs.run_state {
            RunState::MonsterTurn => true,
            _ => false,
        };
        if !in_turn || m >= ecs.actors.len() || m == ecs.player {
            return None;
        }
        let is_mon = match &ecs.actors[m] {
            Some(a) => a.monster.is_some(),
            None => false,
        };
        if !is_mon {
            return None;
        }
        let player = ecs.player;
        let pp = match &ecs.actors[player] {
            Some(p) => p.position,
            None => return None,
        };
        let ghost w0 = *ecs;
        assert(w0.actors@[m as int] matches Some(x) ==> x.stats.wf());
        let mut slot: Option<crate::world::Actor> = None;
        ecs.actors.set_and_swap(m, &mut slot);
        let mut a = slot.unwrap();
        let visible = contains_position(&a.viewshed.visible_tiles, pp);
        let mut mem = a.monster.unwrap();
        if mem.target_location == Some(a.position) {
            mem.target_location = None;
        }
        a.stats.visible_targets = Vec::new();
        if visible {
            mem.target_location = Some(pp);
            a.stats.current_target = Some(player);
            a.stats.visible_targets.push(player);
        } else {
            a.stats.current_target = None;
        }
        a.monster = Some(mem);
        let adj = is_adjacent(a.position, pp);
        let goal = if adj {
            None
        } else if visible {
            Some(pp)
        } else {
            mem.target_location
        };
        assert(a.stats.visible_targets@ =~= (if visible { seq![player] } else { seq![] }));
        ecs.actors.set(m, Some(a));
        proof {
            assert(ecs.actors@ =~= w0.actors@.update(m as int, Some(a)));
            assert forall|j: int| 0 <= j < ecs.actors@.len() implies (#[trigger] ecs.actors@[j] matches Some(x)
                ==> x.stats.wf()) by {
                if j != m {
                    assert(ecs.actors@[j] == w0.actors@[j]);
                }
            }
        }
        goal
    }

    /// Second step for monster `m`: submits the action of `monster_choice` for the
    /// first path step `next_step` (if a path to the goal was found), drawing the
    /// chance roll from `rng`. A monster that steps away unblocks its cell.
    pub fn act(&mut self, ecs: &mut World, m: usize, next_step: Option<Position>, rng: &mut rltk::RandomNumberGenerator)
        requires
            old(ecs).wf(),
        ensures
            final(ecs).wf(),
            final(ecs).actors@.len() == old(ecs).actors@.len(),
            final(ecs).items == old(ecs).items,
            final(ecs).log == old(ecs).log,
            final(ecs).player == old(ecs).player,
            final(ecs).run_state == old(ecs).run_state,
            !(old(ecs).run_state == RunState::MonsterTurn && is_monster(*old(ecs), m as int)) ==> (
            final(ecs).actors == old(ecs).actors && final(ecs).map == old(ecs).map),
            old(ecs).run_state == RunState::MonsterTurn && is_monster(*old(ecs), m as int) ==> exists|
                roll: int,
            |
                0 <= roll < CHANCE_SCALE && #[trigger] acted(*old(ecs), *final(ecs), m as int, next_step, roll),
            !(old(ecs).run_state == RunState::MonsterTurn && is_monster(*old(ecs), m as int)
                && draw_needed_in(*old(ecs), m as int)) ==> *final(rng) == *old(rng),
            old(ecs).run_state == RunState::MonsterTurn && is_monster(*old(ecs), m as int)
                && !draw_needed_in(*old(ecs), m as int) ==> acted(*old(ecs), *final(ecs), m as int, next_step, 0),
    {
        let in_turn = match ecs.run_state {
            RunState::MonsterTurn => true,
            _ => false,
        };
        if !in_turn || m >= ecs.actors.len() || m == ecs.player {
            return ;
        }
        let is_mon = match &ecs.actors[m] {
            Some(a) => a.monster.is_some(),
            None => false,
        };
        if !is_mon {
            return ;
        }
        let player = ecs.player;
        let pp = match &ecs.actors[player] {
            Some(p) => p.position,
            None => return ,
        };
        let ghost w0 = *ecs;
        assert(w0.actors@[m as int] matches Some(x) ==> x.stats.wf());
        let mut slot: Option<crate::world::Actor> = None;
        ecs.actors.set_and_swap(m, &mut slot);
        let mut a = slot.unwrap();
        let visible = contains_index(&a.stats.visible_targets, player);
        let mem = a.monster.unwrap();
        let roll = if draw_needed(&mem, a.stats.ep, a.position, pp, visible) {
            draw_range(rng, 0, CHANCE_SCALE)
        } else {
            0
        };
        let chosen = choose_action(&mem, a.stats.ep, a.position, pp, player, visible, next_step, roll);
        let moving = match chosen.command {
            Command::MoveCommand => true,
            _ => false,
        };
        if moving && 0 <= a.position.x && a.position.x < ecs.map.width && 0 <= a.position.y
            && a.position.y < ecs.map.height {
            let idx = ecs.map.xy_idx(a.position.x, a.position.y);
            ecs.map.blocked.set(idx, false);
        }
        a.action = Some(chosen);
        ecs.actors.set(m, Some(a));
        proof {
            assert(ecs.actors@ =~= w0.actors@.update(m as int, Some(a)));
            assert forall|j: int| 0 <= j < ecs.actors@.len() implies (#[trigger] ecs.actors@[j] matches Some(x)
                ==> x.stats.wf()) by {
                if j != m {
                    assert(ecs.actors@[j] == w0.actors@[j]);
                }
            }
            assert(acted(w0, *ecs, m as int, next_step, roll as int));
        }
    }
}

/// A monster standing on its remembered destination, that does not see the
/// player, forgets the destination when it looks around.
pub proof fn reached_destination_is_forgotten(m: SmartMonster, pos: Position, player_pos: Position)
    requires
        m.target_location == Some(pos),
    ensures
        observed(m, pos, player_pos, false).target_location is None,
{
}

/// A monster next to the player with energy at or above its primary attack cost
/// but below its recovery threshold attacks when the draw is not below its
/// recovery chance.
pub proof fn cornered_monster_attacks(
    m: SmartMonster,
    ep: int,
    pos: Position,
    player_pos: Position,
    player: usize,
    visible: bool,
    next_step: Option<Position>,
    roll: int,
)
    requires
        adjacent(pos, player_pos),
        m.primary_attack_cost <= ep < m.recover_ep_threshold,
        roll >= m.recover_ep_chance,
    ensures
        monster_choice(m, ep, pos, player_pos, player, visible, next_step, roll).command
            == Command::AttackCommand(m.primary_attack),
{
}

} // verus!
