//! Turning the player's choices into actions, and keeping the player's targets.

use vstd::prelude::*;

use crate::components::{Action, AttackMove, CombatStance, CombatStats, Command, MenuCommand, Position, WaitMove};
use crate::monster_ai::{adjacent, contains_index, is_adjacent};
use crate::rules::{catalog, get_available_moves};
use crate::world::{Actor, RunState, World};

verus! {

/// The first actor other than the player, at index `k` or above, standing on `p`.
pub open spec fn first_occupant(actors: Seq<Option<Actor>>, player: int, p: Position, k: int) -> Option<int>
    decreases actors.len() - k,
{
    if k < 0 || k >= actors.len() {
        None
    } else if k != player && (actors[k] matches Some(a) && a.position == p) {
        Some(k)
    } else {
        first_occupant(actors, player, p, k + 1)
    }
}

/// The action a step by `(dx, dy)` asks for: a melee attack on whoever stands on
/// the destination, else a move there if it is open; nothing when the destination
/// leaves the map's inner area or is blocked.
pub open spec fn move_intent(w: World, dx: int, dy: int) -> Option<Action> {
    let pos = w.actors@[w.player as int]->0.position;
    let x = pos.x + dx;
    let y = pos.y + dy;
    if x < 1 || x > w.map.width - 1 || y < 1 || y > w.map.height - 1 {
        None
    } else {
        let dest = Position { x: x as i32, y: y as i32 };
        match first_occupant(w.actors@, w.player as int, dest, 0) {
            Some(t) => Some(
                Action {
                    command: Command::AttackCommand(AttackMove::Melee),
                    cost: 0i32,
                    stance_after: CombatStance::Ready,
                    target: Some(t as usize),
                    position: None,
                },
            ),
            None => if !w.map.blocked@[w.map.idx(x, y)] {
                Some(
                    Action {
                        command: Command::MoveCommand,
                        cost: -2i32,
                        stance_after: CombatStance::Ready,
                        target: None,
                        position: Some(dest),
                    },
                )
            } else {
                None
            },
        }
    }
}

/// `w2` is `w` with the player's pending action set to `a`.
pub open spec fn with_player_action(w: World, w2: World, a: Action) -> bool {
    let p = w.actors@[w.player as int]->0;
    &&& w2.actors@ == w.actors@.update(w.player as int, Some(Actor { action: Some(a), ..p }))
    &&& w2.items == w.items
    &&& w2.map == w.map
    &&& w2.log == w.log
    &&& w2.player == w.player
    &&& w2.run_state == w.run_state
}

/// Sets the player's pending action.
fn set_player_action(ecs: &mut World, a: Action)
    requires
        old(ecs).wf(),
    ensures
        final(ecs).wf(),
        with_player_action(*old(ecs), *final(ecs), a),
{
    let ghost w0 = *ecs;
    let player = ecs.player;
    assert(w0.actors@[player as int] matches Some(x) ==> x.stats.wf());
    let mut slot: Option<Actor> = None;
    ecs.actors.set_and_swap(player, &mut slot);
    let mut p = slot.unwrap();
    p.action = Some(a);
    ecs.actors.set(player, Some(p));
    proof {
        assert(ecs.actors@ =~= w0.actors@.update(player as int, Some(p)));
        assert forall|j: int| 0 <= j < ecs.actors@.len() implies (#[trigger] ecs.actors@[j] matches Some(x)
            ==> x.stats.wf()) by {
            if j != player {
                assert(ecs.actors@[j] == w0.actors@[j]);
            }
        }
    }
}

/// Queues the player's step by `(delta_x, delta_y)`: an attack on an occupant of
/// the destination, or a move onto it when it is open.
pub fn try_move_player(delta_x: i32, delta_y: i32, ecs: &mut World)
    requires
        old(ecs).wf(),
    ensures
        final(ecs).wf(),
        match move_intent(*old(ecs), delta_x as int, delta_y as int) {
            Some(a) => with_player_action(*old(ecs), *final(ecs), a),
            None => *final(ecs) == *old(ecs),
        },
{
    let pos = match &ecs.actors[ecs.player] {
        Some(p) => p.position,
        None => return ,
    };
    let x: i64 = pos.x as i64 + delta_x as i64;
    let y: i64 = pos.y as i64 + delta_y as i64;
    if x < 1 || x > ecs.map.width as i64 - 1 || y < 1 || y > ecs.map.height as i64 - 1 {
        return ;
    }
    let dest = Position { x: x as i32, y: y as i32 };
    let n = ecs.actors.len();
    let mut k: usize = 0;
    while k < n
        invariant
            ecs.wf(),
            n == ecs.actors@.len(),
            k <= n,
            first_occupant(ecs.actors@, ecs.player as int, dest, 0) == first_occupant(
                ecs.actors@,
                ecs.player as int,
                dest,
                k as int,
            ),
            *ecs == *old(ecs),
            pos == ecs.actors@[ecs.player as int]->0.position,
            x == pos.x + delta_x,
            y == pos.y + delta_y,
            1 <= x <= ecs.map.width - 1,
            1 <= y <= ecs.map.height - 1,
            dest.x == x,
            dest.y == y,
        decreases n - k,
    {
        let here = match &ecs.actors[k] {
            Some(a) => k != ecs.player && a.position == dest,
            None => false,
        };
        if here {
            assert(first_occupant(ecs.actors@, ecs.player as int, dest, k as int) == Some(k as int));
            let a = Action {
                command: Command::AttackCommand(AttackMove::Melee),
                cost: 0,
                stance_after: CombatStance::Ready,
                target: Some(k),
                position: None,
            };
            set_player_action(ecs, a);
            return ;
        }
        k = k + 1;
    }
    let idx = ecs.map.xy_idx(dest.x, dest.y);
    if !ecs.map.blocked[idx] {
        let a = Action {
            command: Command::MoveCommand,
            cost: -2,
            stance_after: CombatStance::Ready,
            target: None,
            position: Some(dest),
        };
        set_player_action(ecs, a);
    }
}

/// Whether actor slot `a` is a monster standing on a cell the player sees.
pub open spec fn seen_monster(m: crate::map::GameMap, a: Option<Actor>) -> bool {
    a matches Some(x) && (x.monster is Some && m.in_bounds(x.position.x as int, x.position.y as int)
        && m.visible_tiles@[m.idx(x.position.x as int, x.position.y as int)])
}

/// Indices below `n` of the monsters the player sees, in index order.
pub open spec fn seen_monsters(w: World, n: int) -> Seq<usize>
    decreases n,
{
    if n <= 0 {
        seq![]
    } else if seen_monster(w.map, w.actors@[n - 1]) {
        seen_monsters(w, n - 1).push((n - 1) as usize)
    } else {
        seen_monsters(w, n - 1)
    }
}

/// The player's target after a refresh: kept while seen, dropped when not, and
/// the first seen monster when there was none.
pub open spec fn refreshed_target(current: Option<usize>, seen: Seq<usize>) -> Option<usize> {
    match current {
        None => if seen.len() > 0 { Some(seen[0]) } else { None },
        Some(c) => if seen.contains(c) { Some(c) } else { None },
    }
}

/// Rebuilds the player's visible targets from the monsters on visible cells and
/// refreshes its current target.
pub fn update_targeting(ecs: &mut World)
    requires
        old(ecs).wf(),
    ensures
        final(ecs).wf(),
        ({
            let w = *old(ecs);
            let p = w.actors@[w.player as int]->0;
            let seen = seen_monsters(w, w.actors@.len() as int);
            let p2 = final(ecs).actors@[w.player as int]->0;
            &&& final(ecs).actors@ == w.actors@.update(w.player as int, Some(p2))
            &&& p2.stats.visible_targets@ == seen
            &&& p2.stats.current_target == refreshed_target(p.stats.current_target, seen)
            &&& p2.stats.hp == p.stats.hp
            &&& p2.stats.ep == p.stats.ep
            &&& p2.stats.stance == p.stats.stance
            &&& p2.position == p.position
            &&& p2.action == p.action
        }),
        final(ecs).items == old(ecs).items,
        final(ecs).map == old(ecs).map,
        final(ecs).log == old(ecs).log,
        final(ecs).player == old(ecs).player,
        final(ecs).run_state == old(ecs).run_state,
{
    let ghost w0 = *ecs;
    let n = ecs.actors.len();
    let mut seen: Vec<usize> = Vec::new();
    let mut k: usize = 0;
    while k < n
        invariant
            ecs.wf(),
            *ecs == w0,
            n == ecs.actors@.len(),
            k <= n,
            seen@ == seen_monsters(w0, k as int),
            forall|j: int| 0 <= j < seen@.len() ==> seen@[j] < k,
        decreases n - k,
    {
        let visible = match &ecs.actors[k] {
            Some(a) => {
                if a.monster.is_some() && 0 <= a.position.x && a.position.x < ecs.map.width && 0
                    <= a.position.y && a.position.y < ecs.map.height {
                    let idx = ecs.map.xy_idx(a.position.x, a.position.y);
                    ecs.map.visible_tiles[idx]
                } else {
                    false
                }
            },
            None => false,
        };
        if visible {
            seen.push(k);
        }
        k = k + 1;
    }
    let player = ecs.player;
    assert(w0.actors@[player as int] matches Some(x) ==> x.stats.wf());
    let mut slot: Option<Actor> = None;
    ecs.actors.set_and_swap(player, &mut slot);
    let mut p = slot.unwrap();
    let current = p.stats.current_target;
    let next = match current {
        None => if seen.len() > 0 {
            Some(seen[0])
        } else {
            None
        },
        Some(c) => {
            let found = contains_index(&seen, c);
            if found {
                Some(c)
            } else {
                None
            }
        },
    };
    p.stats.visible_targets = seen;
    p.stats.current_target = next;
    ecs.actors.set(player, Some(p));
    proof {
        assert(ecs.actors@ =~= w0.actors@.update(player as int, Some(p)));
        assert forall|j: int| 0 <= j < ecs.actors@.len() implies (#[trigger] ecs.actors@[j] matches Some(x)
            ==> x.stats.wf()) by {
            if j != player {
                assert(ecs.actors@[j] == w0.actors@[j]);
            }
        }
    }
}

/// Makes the `selection`-th visible target (counting from 1) the player's
/// current target, when there are that many.
pub fn try_select_target(selection: usize, ecs: &mut World) -> (r: RunState)
    requires
        old(ecs).wf(),
        selection >= 1,
    ensures
        final(ecs).wf(),
        r == RunState::AwaitingInput,
        ({
            let w = *old(ecs);
            let p = w.actors@[w.player as int]->0;
            if p.stats.visible_targets@.len() >= selection {
                &&& final(ecs).actors@ == w.actors@.update(
                    w.player as int,
                    Some(
                        Actor {
                            stats: CombatStats {
                                current_target: Some(p.stats.visible_targets@[selection - 1]),
                                ..p.stats
                            },
                            ..p
                        },
                    ),
                )
                &&& final(ecs).items == w.items
                &&& final(ecs).map == w.map
                &&& final(ecs).log == w.log
                &&& final(ecs).player == w.player
                &&& final(ecs).run_state == w.run_state
            } else {
                *final(ecs) == w
            }
        }),
{
    let player = ecs.player;
    let count = match &ecs.actors[player] {
        Some(p) => p.stats.visible_targets.len(),
        None => 0,
    };
    if count >= selection {
        let ghost w0 = *ecs;
        assert(w0.actors@[player as int] matches Some(x) ==> x.stats.wf());
        let mut slot: Option<Actor> = None;
        ecs.actors.set_and_swap(player, &mut slot);
        let mut p = slot.unwrap();
        p.stats.current_target = Some(p.stats.visible_targets[selection - 1]);
        ecs.actors.set(player, Some(p));
        proof {
            assert(ecs.actors@ =~= w0.actors@.update(player as int, Some(p)));
            assert forall|j: int| 0 <= j < ecs.actors@.len() implies (#[trigger] ecs.actors@[j] matches Some(x)
                ==> x.stats.wf()) by {
                if j != player {
                    assert(ecs.actors@[j] == w0.actors@[j]);
                }
            }
        }
    }
    RunState::AwaitingInput
}

/// The action that picking catalog entry `offset` asks for, given the player's
/// current target (with its position when it is still in the world): attacks
/// need a target within reach, rests need nothing, moves are not on the menu.
pub open spec fn menu_choice(
    stats: CombatStats,
    player_pos: Position,
    target: Option<(usize, Position)>,
    offset: int,
) -> Option<Action> {
    let c = catalog(stats.stance)[offset];
    if !c.enabled {
        None
    } else {
        match c.command {
            Command::AttackCommand(a) => match target {
                Some((t, tp)) => if adjacent(tp, player_pos) {
                    Some(Action { command: c.command, cost: c.cost, stance_after: c.stance_after, target: Some(t), position: None })
                } else {
                    None
                },
                None => None,
            },
            Command::WaitCommand(w) => Some(
                Action { command: c.command, cost: c.cost, stance_after: c.stance_after, target: None, position: None },
            ),
            Command::MoveCommand => None,
        }
    }
}

/// The player's current target with its position, if it is still in the world.
pub open spec fn target_with_position(w: World) -> Option<(usize, Position)> {
    match w.actors@[w.player as int]->0.stats.current_target {
        Some(t) => if w.present(t as int) {
            Some((t, w.actors@[t as int]->0.position))
        } else {
            None
        },
        None => None,
    }
}

/// Queues the catalog command at `offset` for the player; `PlayerTurn` when an
/// action was queued, `AwaitingInput` when the choice is not possible now.
pub fn try_attack_menu(offset: usize, ecs: &mut World) -> (r: RunState)
    requires
        old(ecs).wf(),
        offset < 6,
    ensures
        final(ecs).wf(),
        ({
            let w = *old(ecs);
            let p = w.actors@[w.player as int]->0;
            match menu_choice(p.stats, p.position, target_with_position(w), offset as int) {
                Some(a) => r == RunState::PlayerTurn && with_player_action(w, *final(ecs), a),
                None => r == RunState::AwaitingInput && *final(ecs) == w,
            }
        }),
{
    let player = ecs.player;
    let (commands, player_pos, current) = match &ecs.actors[player] {
        Some(p) => (get_available_moves(&p.stats), p.position, p.stats.current_target),
        None => return RunState::AwaitingInput,
    };
    let selected: MenuCommand = commands[offset];
    if !selected.enabled {
        return RunState::AwaitingInput;
    }
    let target: Option<(usize, Position)> = match current {
        Some(t) => if t < ecs.actors.len() {
            match &ecs.actors[t] {
                Some(ta) => Some((t, ta.position)),
                None => None,
            }
        } else {
            None
        },
        None => None,
    };
    let action = match selected.command {
        Command::AttackCommand(_) => match target {
            Some((t, tp)) => if is_adjacent(tp, player_pos) {
                Action {
                    command: selected.command,
                    cost: selected.cost,
                    stance_after: selected.stance_after,
                    target: Some(t),
                    position: None,
                }
            } else {
                return RunState::AwaitingInput;
            },
            None => return RunState::AwaitingInput,
        },
        Command::WaitCommand(_) => Action {
            command: selected.command,
            cost: selected.cost,
            stance_after: selected.stance_after,
            target: None,
            position: None,
        },
        Command::MoveCommand => return RunState::AwaitingInput,
    };
    set_player_action(ecs, action);
    RunState::PlayerTurn
}

/// Queues a plain rest for the player.
pub fn rest(ecs: &mut World) -> (r: RunState)
    requires
        old(ecs).wf(),
    ensures
        final(ecs).wf(),
        r == RunState::PlayerTurn,
        with_player_action(
            *old(ecs),
            *final(ecs),
            Action {
                command: Command::WaitCommand(WaitMove::Wait),
                cost: -5i32,
                stance_after: CombatStance::Ready,
                target: None,
                position: None,
            },
        ),
{
    let a = Action {
        command: Command::WaitCommand(WaitMove::Wait),
        cost: -5,
        stance_after: CombatStance::Ready,
        target: None,
        position: None,
    };
    set_player_action(ecs, a);
    RunState::PlayerTurn
}

/// The scheduler's phase after the systems have run in `state`: the player's and
/// the monsters' turns alternate with waiting for input.
pub open spec fn phase_after_systems(state: RunState) -> RunState {
    match state {
        RunState::PreRun => RunState::AwaitingInput,
        RunState::PlayerTurn => RunState::MonsterTurn,
        RunState::MonsterTurn => RunState::AwaitingInput,
        _ => state,
    }
}

pub fn next_phase(state: RunState) -> (r: RunState)
    ensures
        r == phase_after_systems(state),
{
    match state {
        RunState::PreRun => RunState::AwaitingInput,
        RunState::PlayerTurn => RunState::MonsterTurn,
        RunState::MonsterTurn => RunState::AwaitingInput,
        _ => state,
    }
}

} // verus!
