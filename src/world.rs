//! The arena of actors and items, the game log, the run state, and the death sweep.

use vstd::prelude::*;

use crate::components::{Action, AttackMove, CombatStats, Item, Player, Position, SmartMonster, Viewshed};
use crate::map::GameMap;
use crate::rules::Synergy;

verus! {

/// Everything the core knows of one actor. The player carries `player`, a monster
/// carries `monster`. `action` is the intent pending for this turn.
#[derive(Debug)]
pub struct Actor {
    pub name: String,
    pub position: Position,
    pub stats: CombatStats,
    pub viewshed: Viewshed,
    pub player: Option<Player>,
    pub monster: Option<SmartMonster>,
    pub action: Option<Action>,
}

/// An item lying on the map.
#[derive(PartialEq, Eq, Structural, Debug, Clone, Copy)]
pub struct GroundItem {
    pub position: Position,
    pub item: Item,
}

/// Why an action could not be carried out.
#[derive(PartialEq, Eq, Structural, Debug, Clone, Copy)]
pub enum AnomalyKind {
    AttackWithoutTarget,
    SelfTarget,
    /// The target is not in the world, or died earlier this turn.
    TargetGone,
    WaitWithTarget,
    MoveWithTarget,
    MoveWithoutPosition,
    MoveOutOfBounds,
}

/// One line of the game log. Actors are named by their index in the world.
#[derive(PartialEq, Eq, Structural, Debug, Clone, Copy)]
pub enum LogEntry {
    /// A stunned actor rests instead of acting.
    Stunned { actor: usize },
    /// An actor without the energy for its command rests instead.
    InsufficientEnergy { actor: usize },
    Attacked { attacker: usize, attack: AttackMove, target: usize, damage: i32, ep_damage: i32 },
    Highlight { attacker: usize, target: usize, synergy: Synergy },
    /// An actor rests; `cost` is the (usually negative) energy cost of the rest.
    Recovered { actor: usize, cost: i32 },
    PickedUpCoins { amount: i32 },
    PickedUpAmulet,
    Anomaly { actor: usize, kind: AnomalyKind },
    Died { actor: usize },
    PlayerDied,
}

/// The game log: append-only, in order.
#[derive(Debug)]
pub struct GameLog {
    pub entries: Vec<LogEntry>,
}

#[derive(PartialEq, Eq, Structural, Debug, Clone, Copy)]
pub enum MainMenuSelection {
    NewGame,
    CheatMode,
    Quit,
}

/// Phase of the run, advanced by the turn scheduler.
#[allow(inconsistent_fields)]
#[derive(PartialEq, Eq, Structural, Debug, Clone, Copy)]
pub enum RunState {
    AwaitingInput,
    PreRun,
    Ascend { depth: i32 },
    Descend { depth: i32 },
    PlayerTurn,
    MonsterTurn,
    Shopping { menu_selection: i32 },
    MainMenu { menu_selection: MainMenuSelection },
    GameOver,
}

/// The arena: actors and items keyed by stable indices (a removed one leaves
/// `None` behind), the map, the log, and the run state. Index order is the order
/// in which actions resolve.
#[derive(Debug)]
pub struct World {
    pub actors: Vec<Option<Actor>>,
    pub items: Vec<Option<GroundItem>>,
    pub player: usize,
    pub map: GameMap,
    pub log: GameLog,
    pub run_state: RunState,
}

impl World {
    /// The map is well formed, the player is present, and every actor's stats are
    /// well formed.
    pub open spec fn wf(&self) -> bool {
        &&& self.map.wf()
        &&& self.player < self.actors@.len()
        &&& self.actors@[self.player as int] is Some
        &&& forall|j: int|
            0 <= j < self.actors@.len() ==> (#[trigger] self.actors@[j] matches Some(a) ==> a.stats.wf())
    }

    /// Whether index `j` names an actor that is present.
    pub open spec fn present(&self, j: int) -> bool {
        0 <= j < self.actors@.len() && self.actors@[j] is Some
    }

    /// A world holding only the player, at index 0.
    pub fn new(map: GameMap, player: Actor) -> (r: World)
        requires
            map.wf(),
            player.stats.wf(),
        ensures
            r.wf(),
            r.player == 0,
            r.actors@ == seq![Some(player)],
            r.items@.len() == 0,
            r.log.entries@.len() == 0,
            r.run_state == RunState::PreRun,
            r.map == map,
    {
        let mut actors: Vec<Option<Actor>> = Vec::new();
        actors.push(Some(player));
        let r = World {
            actors,
            items: Vec::new(),
            player: 0,
            map,
            log: GameLog { entries: Vec::new() },
            run_state: RunState::PreRun,
        };
        assert(r.actors@ =~= seq![Some(player)]);
        r
    }

    /// Adds an actor and returns its index.
    pub fn add_actor(&mut self, a: Actor) -> (r: usize)
        requires
            old(self).wf(),
            a.stats.wf(),
            old(self).actors@.len() < usize::MAX,
        ensures
            final(self).wf(),
            r == old(self).actors@.len(),
            final(self).actors@ == old(self).actors@.push(Some(a)),
            final(self).items == old(self).items,
            final(self).player == old(self).player,
            final(self).map == old(self).map,
            final(self).log == old(self).log,
            final(self).run_state == old(self).run_state,
    {
        let r = self.actors.len();
        self.actors.push(Some(a));
        proof {
            assert forall|j: int| 0 <= j < self.actors@.len() implies (#[trigger] self.actors@[j] matches Some(b) ==> b.stats.wf()) by {
                if j < r {
                    assert(self.actors@[j] == old(self).actors@[j]);
                }
            }
        }
        r
    }

    /// Puts an item on the map and returns its index.
    pub fn add_item(&mut self, g: GroundItem) -> (r: usize)
        requires
            old(self).wf(),
        ensures
            final(self).wf(),
            r == old(self).items@.len(),
            final(self).items@ == old(self).items@.push(Some(g)),
            final(self).actors == old(self).actors,
            final(self).player == old(self).player,
            final(self).map == old(self).map,
            final(self).log == old(self).log,
            final(self).run_state == old(self).run_state,
    {
        let r = self.items.len();
        self.items.push(Some(g));
        r
    }
}

/// Whether actor `j` of `w` stands on cell `c` of the map.
pub open spec fn stands_on(w: World, j: int, c: int) -> bool {
    w.actors@[j] matches Some(a) && (w.map.in_bounds(a.position.x as int, a.position.y as int)
        && w.map.idx(a.position.x as int, a.position.y as int) == c)
}

/// Whether an actor other than the player, below index `n`, stands on cell `c`.
pub open spec fn occupied_below(w: World, c: int, n: int) -> bool {
    exists|j: int| 0 <= j < n && j != w.player && #[trigger] stands_on(w, j, c)
}

/// Indices below `n` of the actors standing on cell `c`, in index order.
pub open spec fn occupants(w: World, c: int, n: int) -> Seq<usize>
    decreases n,
{
    if n <= 0 {
        seq![]
    } else if stands_on(w, n - 1, c) {
        occupants(w, c, n - 1).push((n - 1) as usize)
    } else {
        occupants(w, c, n - 1)
    }
}

proof fn lemma_occupied_step(w: World, c: int, k: int)
    requires
        0 <= k,
    ensures
        occupied_below(w, c, k + 1) == (occupied_below(w, c, k) || (k != w.player && stands_on(
            w,
            k,
            c,
        ))),
{
    if occupied_below(w, c, k + 1) {
        let j = choose|j: int| 0 <= j < k + 1 && j != w.player && #[trigger] stands_on(w, j, c);
        if j < k {
            assert(occupied_below(w, c, k));
        }
    }
    if occupied_below(w, c, k) {
        let j = choose|j: int| 0 <= j < k && j != w.player && #[trigger] stands_on(w, j, c);
        assert(0 <= j < k + 1 && j != w.player && stands_on(w, j, c));
    }
    if k != w.player && stands_on(w, k, c) {
        assert(0 <= k < k + 1 && k != w.player && stands_on(w, k, c));
    }
}

impl World {
    /// Rebuilds the map's blocking layer and per-cell contents: a cell blocks when
    /// it is a wall or an actor other than the player stands on it, and lists the
    /// actors standing on it in index order. This also clears any cell that a
    /// monster unblocked for a move that was then not made.
    pub fn index_map(&mut self)
        requires
            old(self).wf(),
        ensures
            final(self).wf(),
            final(self).actors == old(self).actors,
            final(self).items == old(self).items,
            final(self).log == old(self).log,
            final(self).player == old(self).player,
            final(self).run_state == old(self).run_state,
            final(self).map.tiles == old(self).map.tiles,
            final(self).map.width == old(self).map.width,
            final(self).map.height == old(self).map.height,
            final(self).map.revealed_tiles == old(self).map.revealed_tiles,
            final(self).map.visible_tiles == old(self).map.visible_tiles,
            forall|c: int|
                0 <= c < final(self).map.blocked@.len() ==> #[trigger] final(self).map.blocked@[c] == (
                old(self).map.tiles@[c] == crate::map::TileType::Wall || occupied_below(
                    *old(self),
                    c,
                    old(self).actors@.len() as int,
                )),
            forall|c: int|
                0 <= c < final(self).map.tile_content@.len() ==> #[trigger] final(self).map.tile_content@[c]@
                    == occupants(*old(self), c, old(self).actors@.len() as int),
    {
        let ghost w0 = *old(self);
        self.map.populate_blocked();
        self.map.clear_content_index();
        let cells = self.map.blocked.len();
        proof {
            assert forall|c: int| 0 <= c < cells implies #[trigger] self.map.tile_content@[c]@ =~= occupants(w0, c, 0) by {}
        }
        let n = self.actors.len();
        let mut k: usize = 0;
        while k < n
            invariant
                self.wf(),
                n == self.actors@.len(),
                k <= n,
                cells == self.map.blocked@.len(),
                cells == self.map.tile_content@.len(),
                self.actors == w0.actors,
                self.items == w0.items,
                self.log == w0.log,
                self.player == w0.player,
                self.run_state == w0.run_state,
                self.map.tiles == w0.map.tiles,
                self.map.width == w0.map.width,
                self.map.height == w0.map.height,
                self.map.revealed_tiles == w0.map.revealed_tiles,
                self.map.visible_tiles == w0.map.visible_tiles,
                forall|c: int|
                    0 <= c < cells ==> #[trigger] self.map.blocked@[c] == (w0.map.tiles@[c]
                        == crate::map::TileType::Wall || occupied_below(w0, c, k as int)),
                forall|c: int| 0 <= c < cells ==> #[trigger] self.map.tile_content@[c]@ == occupants(w0, c, k as int),
            decreases n - k,
        {
            let here = match &self.actors[k] {
                Some(a) => if 0 <= a.position.x && a.position.x < self.map.width && 0 <= a.position.y
                    && a.position.y < self.map.height {
                    Some(self.map.xy_idx(a.position.x, a.position.y))
                } else {
                    None
                },
                None => None,
            };
            let ghost blocked0 = self.map.blocked@;
            let ghost content0 = self.map.tile_content@;
            match here {
                Some(idx) => {
                    if k != self.player {
                        self.map.blocked.set(idx, true);
                    }
                    let mut cell: Vec<usize> = Vec::new();
                    self.map.tile_content.set_and_swap(idx, &mut cell);
                    cell.push(k);
                    self.map.tile_content.set(idx, cell);
                },
                None => {},
            }
            proof {
                assert forall|c: int| 0 <= c < cells implies #[trigger] self.map.blocked@[c] == (
                w0.map.tiles@[c] == crate::map::TileType::Wall || occupied_below(w0, c, k + 1)) by {
                    lemma_occupied_step(w0, c, k as int);
                    assert(blocked0[c] == (w0.map.tiles@[c] == crate::map::TileType::Wall
                        || occupied_below(w0, c, k as int)));
                }
                assert forall|c: int| 0 <= c < cells implies #[trigger] self.map.tile_content@[c]@
                    == occupants(w0, c, k + 1) by {
                    assert(content0[c]@ == occupants(w0, c, k as int));
                }
            }
            k = k + 1;
        }
    }
}

/// Whether the actor in slot `a` is dead: present with `hp < 1`.
pub open spec fn is_dead(a: Option<Actor>) -> bool {
    a matches Some(x) && x.stats.hp < 1
}

/// The slot after the death sweep: dead non-player actors are removed.
pub open spec fn swept(a: Option<Actor>, j: int, player: int) -> Option<Actor> {
    if is_dead(a) && j != player {
        None
    } else {
        a
    }
}

/// Log lines of the death sweep for slot `j`.
pub open spec fn death_entry(a: Option<Actor>, j: int, player: int, already_over: bool) -> Seq<LogEntry> {
    if !is_dead(a) {
        seq![]
    } else if j != player {
        seq![LogEntry::Died { actor: j as usize }]
    } else if already_over {
        seq![]
    } else {
        seq![LogEntry::PlayerDied]
    }
}

/// Log lines of the death sweep for slots `[0, n)`, in index order.
pub open spec fn death_entries(actors: Seq<Option<Actor>>, player: int, already_over: bool, n: int) -> Seq<LogEntry>
    decreases n,
{
    if n <= 0 {
        seq![]
    } else {
        death_entries(actors, player, already_over, n - 1) + death_entry(actors[n - 1], n - 1, player, already_over)
    }
}

/// Removes every dead non-player actor, logging each death in index order. A
/// dead player is kept; the run becomes `GameOver`, logged only on the tick
/// where that happens.
pub fn delete_the_dead(ecs: &mut World)
    requires
        old(ecs).wf(),
    ensures
        final(ecs).wf(),
        final(ecs).actors@.len() == old(ecs).actors@.len(),
        forall|j: int|
            0 <= j < old(ecs).actors@.len() ==> #[trigger] final(ecs).actors@[j] == swept(
                old(ecs).actors@[j],
                j,
                old(ecs).player as int,
            ),
        final(ecs).log.entries@ == old(ecs).log.entries@ + death_entries(
            old(ecs).actors@,
            old(ecs).player as int,
            old(ecs).run_state == RunState::GameOver,
            old(ecs).actors@.len() as int,
        ),
        final(ecs).run_state == (if is_dead(old(ecs).actors@[old(ecs).player as int]) {
            RunState::GameOver
        } else {
            old(ecs).run_state
        }),
        final(ecs).items == old(ecs).items,
        final(ecs).player == old(ecs).player,
        final(ecs).map == old(ecs).map,
{
    let n = ecs.actors.len();
    let player = ecs.player;
    let already_over = match ecs.run_state {
        RunState::GameOver => true,
        _ => false,
    };
    let ghost old_actors = ecs.actors@;
    let ghost old_log = ecs.log.entries@;
    let mut j: usize = 0;
    while j < n
        invariant
            ecs.wf(),
            n == ecs.actors@.len(),
            n == old_actors.len(),
            player == ecs.player,
            j <= n,
            already_over == (old(ecs).run_state == RunState::GameOver),
            old_actors == old(ecs).actors@,
            old_log == old(ecs).log.entries@,
            player == old(ecs).player,
            forall|k: int| 0 <= k < j ==> #[trigger] ecs.actors@[k] == swept(old_actors[k], k, player as int),
            forall|k: int| j <= k < n ==> #[trigger] ecs.actors@[k] == old_actors[k],
            ecs.log.entries@ == old_log + death_entries(old_actors, player as int, already_over, j as int),
            ecs.run_state == (if is_dead(old_actors[player as int]) && player < j {
                RunState::GameOver
            } else {
                old(ecs).run_state
            }),
            ecs.items == old(ecs).items,
            ecs.map == old(ecs).map,
        decreases n - j,
    {
        let dead = match &ecs.actors[j] {
            Some(a) => a.stats.hp < 1,
            None => false,
        };
        if dead {
            if j != player {
                ecs.actors.set(j, None);
                ecs.log.entries.push(LogEntry::Died { actor: j });
            } else {
                if !already_over {
                    ecs.log.entries.push(LogEntry::PlayerDied);
                }
                ecs.run_state = RunState::GameOver;
            }
        }
        proof {
            assert(death_entries(old_actors, player as int, already_over, j + 1) == death_entries(
                old_actors,
                player as int,
                already_over,
                j as int,
            ) + death_entry(old_actors[j as int], j as int, player as int, already_over));
            assert(ecs.log.entries@ =~= old_log + death_entries(old_actors, player as int, already_over, j + 1));
            assert forall|k: int| 0 <= k < n implies (#[trigger] ecs.actors@[k] matches Some(a) ==> a.stats.wf()) by {
                assert(ecs.actors@[k] is None || ecs.actors@[k] == old_actors[k]);
            }
        }
        j = j + 1;
    }
}

/// After the sweep no dead actor but the player remains, the player is still
/// present, and a dead player has ended the run.
pub proof fn sweep_leaves_no_dead_monsters(before: Seq<Option<Actor>>, after: Seq<Option<Actor>>, player: int)
    requires
        0 <= player < before.len(),
        before[player] is Some,
        after.len() == before.len(),
        forall|j: int| 0 <= j < before.len() ==> #[trigger] after[j] == swept(before[j], j, player),
    ensures
        forall|j: int| 0 <= j < after.len() && j != player ==> !is_dead(#[trigger] after[j]),
        after[player] is Some,
{
    assert(after[player] == swept(before[player], player, player));
    assert forall|j: int| 0 <= j < after.len() && j != player implies !is_dead(#[trigger] after[j]) by {
        assert(after[j] == swept(before[j], j, player));
    }
}

/// A second sweep is silent: once only the player can be dead and the run is
/// already over, the sweep logs nothing.
pub proof fn sweep_again_logs_nothing(actors: Seq<Option<Actor>>, player: int, n: int)
    requires
        0 <= n <= actors.len(),
        forall|j: int| 0 <= j < actors.len() && j != player ==> !is_dead(#[trigger] actors[j]),
    ensures
        death_entries(actors, player, true, n) == Seq::<LogEntry>::empty(),
    decreases n,
{
    if n > 0 {
        sweep_again_logs_nothing(actors, player, n - 1);
        if n - 1 != player {
            assert(!is_dead(actors[n - 1]));
        }
        assert(death_entries(actors, player, true, n) =~= Seq::<LogEntry>::empty());
    }
}

} // verus!
