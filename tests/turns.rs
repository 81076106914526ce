use barrow::action_system::{resolve_action, ActionSystem};
use barrow::components::{
    Action, AttackMove, CombatStance, CombatStats, Command, Item, Items, Player, Position,
    SmartMonster, SmartMonsterState, Viewshed, WaitMove,
};
use barrow::map::{GameMap, TileType};
use barrow::monster_ai::{choose_action, MonsterAI};
use barrow::player::{next_phase, rest, try_attack_menu, try_move_player, try_select_target, update_targeting};
use barrow::world::{delete_the_dead, Actor, AnomalyKind, GroundItem, LogEntry, RunState, World};

fn stats(hp: i32, ep: i32, power: i32, defense: i32, stance: CombatStance) -> CombatStats {
    CombatStats {
        max_hp: 30,
        hp,
        hp_regen: -10,
        max_ep: 40,
        ep,
        ep_regen: -5,
        defense,
        power,
        attack_cost: 5,
        stance,
        visible_targets: vec![],
        current_target: None,
        last_command: None,
    }
}

fn actor(x: i32, y: i32, s: CombatStats) -> Actor {
    Actor {
        name: String::from("Goblin"),
        position: Position { x, y },
        stats: s,
        viewshed: Viewshed { visible_tiles: vec![], range: 8, dirty: false },
        player: None,
        monster: None,
        action: None,
    }
}

fn goblin_memory() -> SmartMonster {
    SmartMonster {
        state: SmartMonsterState::Asleep,
        time_in_current_state: 0,
        target_location: None,
        primary_stance: CombatStance::Guard,
        primary_attack: AttackMove::Bash,
        primary_attack_cost: 15,
        recover_ep_threshold: 20,
        recover_ep_chance: 300,
        visible_chase_chance: 900,
        invisible_chase_chance: 500,
    }
}

fn floor_map(w: i32, h: i32) -> GameMap {
    let mut m = GameMap::new(w, h);
    for t in m.tiles.iter_mut() {
        *t = TileType::Floor;
    }
    m
}

fn player_actor(x: i32, y: i32, s: CombatStats) -> Actor {
    let mut a = actor(x, y, s);
    a.player = Some(Player { food: 10, max_food: 10, coin: 0, potions: 0, atk_bonus: 0, def_bonus: 0, has_amulet: false });
    a
}

fn attack(kind: AttackMove, cost: i32, stance_after: CombatStance, target: usize) -> Action {
    Action { command: Command::AttackCommand(kind), cost, stance_after, target: Some(target), position: None }
}

fn stats_of(w: &World, i: usize) -> &CombatStats {
    &w.actors[i].as_ref().unwrap().stats
}

#[test]
fn melee_on_guard_deals_effective_attack_with_zero_roll() {
    let mut w = World::new(floor_map(10, 10), player_actor(2, 2, stats(30, 40, 4, 0, CombatStance::Ready)));
    let m = w.add_actor(actor(3, 2, stats(20, 20, 3, 1, CombatStance::Guard)));
    w.actors[0].as_mut().unwrap().action = Some(attack(AttackMove::Melee, 0, CombatStance::Ready, m));
    resolve_action(&mut w, 0, CombatStance::Ready, 40, 0);
    assert_eq!(stats_of(&w, m).hp, 18);
    assert_eq!(stats_of(&w, m).ep, 20);
    assert_eq!(stats_of(&w, 0).last_command, Some(Command::AttackCommand(AttackMove::Melee)));
    assert_eq!(
        w.log.entries,
        vec![LogEntry::Attacked { attacker: 0, attack: AttackMove::Melee, target: m, damage: 2, ep_damage: 0 }]
    );
}

#[test]
fn insufficient_energy_rests_and_spares_the_target() {
    let mut w = World::new(floor_map(10, 10), player_actor(2, 2, stats(30, 5, 4, 0, CombatStance::Ready)));
    let m = w.add_actor(actor(3, 2, stats(20, 20, 3, 1, CombatStance::Ready)));
    w.actors[0].as_mut().unwrap().action = Some(attack(AttackMove::Smash, 10, CombatStance::Power, m));
    resolve_action(&mut w, 0, CombatStance::Ready, 5, 0);
    let t = stats_of(&w, m);
    assert_eq!((t.hp, t.ep, t.stance, t.last_command), (20, 20, CombatStance::Ready, None));
    assert_eq!(w.log.entries[0], LogEntry::InsufficientEnergy { actor: 0 });
    assert_eq!(w.log.entries[1], LogEntry::Recovered { actor: 0, cost: -10 });
    let s = stats_of(&w, 0);
    assert_eq!(s.ep, 15);
    assert_eq!(s.stance, CombatStance::Ready);
    assert_eq!(s.last_command, Some(Command::WaitCommand(WaitMove::Wait)));
}

#[test]
fn stunned_actor_rests_back_to_ready() {
    let mut w = World::new(floor_map(10, 10), player_actor(2, 2, stats(30, 0, 4, 0, CombatStance::Stun)));
    let m = w.add_actor(actor(3, 2, stats(20, 20, 3, 1, CombatStance::Ready)));
    w.actors[0].as_mut().unwrap().action = Some(attack(AttackMove::Melee, 0, CombatStance::Ready, m));
    resolve_action(&mut w, 0, CombatStance::Stun, 0, 0);
    assert_eq!(w.log.entries[0], LogEntry::Stunned { actor: 0 });
    assert_eq!(stats_of(&w, 0).stance, CombatStance::Ready);
    assert_eq!(stats_of(&w, 0).ep, 10);
    assert_eq!(stats_of(&w, m).hp, 20);
}

#[test]
fn bash_on_blocking_guard_logs_synergy_and_energy() {
    let mut w = World::new(floor_map(10, 10), player_actor(2, 2, stats(30, 40, 4, 0, CombatStance::Ready)));
    let mut target = stats(20, 20, 3, 1, CombatStance::Guard);
    target.last_command = Some(Command::WaitCommand(WaitMove::Block));
    let m = w.add_actor(actor(3, 2, target));
    w.actors[0].as_mut().unwrap().action = Some(attack(AttackMove::Bash, 10, CombatStance::Guard, m));
    resolve_action(&mut w, 0, CombatStance::Ready, 40, 1);
    // power 4+1 against defense 1+1: 3 plus the bonus 1
    assert_eq!(stats_of(&w, m).hp, 16);
    // 15 for bashing a guard, -10 because the target blocked
    assert_eq!(stats_of(&w, m).ep, 15);
    assert_eq!(stats_of(&w, 0).ep, 30);
    assert_eq!(stats_of(&w, 0).stance, CombatStance::Guard);
    assert_eq!(w.log.entries.len(), 2);
    assert!(matches!(w.log.entries[1], LogEntry::Highlight { synergy: barrow::rules::Synergy::BlockEffective, .. }));
}

#[test]
fn incoherent_actions_are_anomalies() {
    let mut w = World::new(floor_map(10, 10), player_actor(2, 2, stats(30, 40, 4, 0, CombatStance::Ready)));
    let m = w.add_actor(actor(3, 2, stats(20, 20, 3, 1, CombatStance::Ready)));
    let cases = vec![
        (Action { command: Command::AttackCommand(AttackMove::Melee), cost: 0, stance_after: CombatStance::Ready, target: None, position: None }, AnomalyKind::AttackWithoutTarget),
        (attack(AttackMove::Melee, 0, CombatStance::Ready, 0), AnomalyKind::SelfTarget),
        (attack(AttackMove::Melee, 0, CombatStance::Ready, 7), AnomalyKind::TargetGone),
        (Action { command: Command::WaitCommand(WaitMove::Wait), cost: 0, stance_after: CombatStance::Ready, target: Some(m), position: None }, AnomalyKind::WaitWithTarget),
        (Action { command: Command::MoveCommand, cost: 0, stance_after: CombatStance::Ready, target: Some(m), position: None }, AnomalyKind::MoveWithTarget),
        (Action { command: Command::MoveCommand, cost: 0, stance_after: CombatStance::Ready, target: None, position: None }, AnomalyKind::MoveWithoutPosition),
        (Action { command: Command::MoveCommand, cost: 0, stance_after: CombatStance::Ready, target: None, position: Some(Position { x: 10, y: 0 }) }, AnomalyKind::MoveOutOfBounds),
    ];
    for (a, kind) in cases {
        w.log.entries.clear();
        w.actors[0].as_mut().unwrap().action = Some(a);
        resolve_action(&mut w, 0, CombatStance::Ready, 40, 0);
        assert_eq!(w.log.entries, vec![LogEntry::Anomaly { actor: 0, kind }]);
        assert_eq!(stats_of(&w, 0).ep, 40);
        assert_eq!(stats_of(&w, m).hp, 20);
    }
}

#[test]
fn attack_on_target_killed_this_turn_is_an_anomaly() {
    let mut w = World::new(floor_map(10, 10), player_actor(2, 2, stats(30, 40, 4, 0, CombatStance::Ready)));
    let m = w.add_actor(actor(3, 2, stats(0, 20, 3, 1, CombatStance::Ready)));
    w.actors[0].as_mut().unwrap().action = Some(attack(AttackMove::Melee, 0, CombatStance::Ready, m));
    resolve_action(&mut w, 0, CombatStance::Ready, 40, 0);
    assert_eq!(w.log.entries, vec![LogEntry::Anomaly { actor: 0, kind: AnomalyKind::TargetGone }]);
}

#[test]
fn monster_move_blocks_destination_and_player_picks_up() {
    let mut w = World::new(floor_map(10, 10), player_actor(2, 2, stats(30, 30, 4, 0, CombatStance::Ready)));
    let m = w.add_actor(actor(6, 6, stats(20, 20, 3, 1, CombatStance::Ready)));
    w.add_item(GroundItem { position: Position { x: 3, y: 2 }, item: Item { item: Items::Coin(7) } });
    w.add_item(GroundItem { position: Position { x: 3, y: 2 }, item: Item { item: Items::Potion } });
    w.add_item(GroundItem { position: Position { x: 3, y: 2 }, item: Item { item: Items::Amulet } });
    w.actors[0].as_mut().unwrap().action = Some(Action { command: Command::MoveCommand, cost: -2, stance_after: CombatStance::Ready, target: None, position: Some(Position { x: 3, y: 2 }) });
    w.actors[m].as_mut().unwrap().action = Some(Action { command: Command::MoveCommand, cost: 0, stance_after: CombatStance::Guard, target: None, position: Some(Position { x: 5, y: 6 }) });
    resolve_action(&mut w, 0, CombatStance::Ready, 30, 0);
    resolve_action(&mut w, m, CombatStance::Ready, 20, 0);
    let p = w.actors[0].as_ref().unwrap();
    assert_eq!(p.position, Position { x: 3, y: 2 });
    assert!(p.viewshed.dirty);
    assert_eq!(p.stats.ep, 35);
    assert_eq!(p.player.unwrap().coin, 7);
    assert!(p.player.unwrap().has_amulet);
    assert_eq!(w.items[0], None);
    assert!(w.items[1].is_some());
    assert_eq!(w.items[2], None);
    assert_eq!(w.log.entries, vec![LogEntry::PickedUpCoins { amount: 7 }, LogEntry::PickedUpAmulet]);
    assert!(!w.map.blocked[w.map.xy_idx(3, 2)]);
    assert!(w.map.blocked[w.map.xy_idx(5, 6)]);
    assert_eq!(stats_of(&w, m).stance, CombatStance::Guard);
    assert_eq!(stats_of(&w, m).ep, 25);
}

#[test]
fn turn_resolves_everyone_then_clears_actions() {
    let mut w = World::new(floor_map(10, 10), player_actor(2, 2, stats(30, 40, 4, 0, CombatStance::Ready)));
    let m = w.add_actor(actor(3, 2, stats(20, 40, 3, 1, CombatStance::Ready)));
    w.actors[0].as_mut().unwrap().action = Some(attack(AttackMove::Smash, 15, CombatStance::Power, m));
    w.actors[m].as_mut().unwrap().action = Some(attack(AttackMove::Melee, 0, CombatStance::Ready, 0));
    let mut rng = rltk::RandomNumberGenerator::seeded(7);
    ActionSystem {}.run(&mut w, &mut rng);
    assert!(w.actors.iter().flatten().all(|a| a.action.is_none()));
    // smash: power 4+2 against defense 1, so 5 plus a bonus below 2 + 4
    let hp = stats_of(&w, m).hp;
    assert!(hp <= 15 && hp > 9, "hp {}", hp);
    assert_eq!(stats_of(&w, m).ep, 35);
    // melee: power 3 against defense 0, so 3 plus a bonus below 4
    let php = stats_of(&w, 0).hp;
    assert!(php <= 27 && php > 23, "player hp {}", php);
    assert_eq!(stats_of(&w, 0).stance, CombatStance::Power);
    assert_eq!(w.log.entries.len(), 2);
}

#[test]
fn dead_monsters_leave_and_player_death_ends_the_run_once() {
    let mut w = World::new(floor_map(10, 10), player_actor(2, 2, stats(0, 40, 4, 0, CombatStance::Ready)));
    let m = w.add_actor(actor(3, 2, stats(0, 20, 3, 1, CombatStance::Ready)));
    let alive = w.add_actor(actor(4, 2, stats(1, 20, 3, 1, CombatStance::Ready)));
    w.run_state = RunState::MonsterTurn;
    delete_the_dead(&mut w);
    assert!(w.actors[m].is_none());
    assert!(w.actors[alive].is_some());
    assert!(w.actors[0].is_some());
    assert_eq!(w.run_state, RunState::GameOver);
    assert_eq!(w.log.entries, vec![LogEntry::PlayerDied, LogEntry::Died { actor: m }]);
    delete_the_dead(&mut w);
    assert_eq!(w.log.entries.len(), 2);
    assert_eq!(w.run_state, RunState::GameOver);
}

fn monster_world(player_at: (i32, i32), monster_at: (i32, i32), ep: i32) -> (World, usize) {
    let mut w = World::new(floor_map(12, 12), player_actor(player_at.0, player_at.1, stats(30, 40, 4, 0, CombatStance::Ready)));
    let mut a = actor(monster_at.0, monster_at.1, stats(25, ep, 5, 1, CombatStance::Ready));
    a.monster = Some(goblin_memory());
    let m = w.add_actor(a);
    w.run_state = RunState::MonsterTurn;
    (w, m)
}

#[test]
fn cornered_monster_attacks_on_high_roll() {
    let m = goblin_memory();
    let p = Position { x: 5, y: 5 };
    let next = Position { x: 4, y: 4 };
    let a = choose_action(&m, 15, next, p, 0, true, None, 900);
    assert_eq!(a.command, Command::AttackCommand(AttackMove::Bash));
    assert_eq!(a.cost, 15);
    assert_eq!(a.target, Some(0));
    let b = choose_action(&m, 15, next, p, 0, true, None, 100);
    assert_eq!(b.command, Command::WaitCommand(WaitMove::Wait));
    assert_eq!(b.cost, -10);
    let c = choose_action(&m, 10, next, p, 0, true, None, 900);
    assert_eq!(c.command, Command::WaitCommand(WaitMove::Wait));
    let d = choose_action(&m, 20, next, p, 0, true, None, 0);
    assert_eq!(d.command, Command::AttackCommand(AttackMove::Bash));
}

#[test]
fn monster_chases_or_idles() {
    let mut m = goblin_memory();
    let p = Position { x: 9, y: 9 };
    let here = Position { x: 2, y: 2 };
    let step = Some(Position { x: 3, y: 3 });
    let a = choose_action(&m, 40, here, p, 0, true, step, 999);
    assert_eq!(a.command, Command::MoveCommand);
    assert_eq!(a.position, step);
    let b = choose_action(&m, 40, here, p, 0, true, None, 0);
    assert_eq!((b.command, b.stance_after), (Command::WaitCommand(WaitMove::Wait), CombatStance::Ready));
    let idle = choose_action(&m, 40, here, p, 0, false, step, 0);
    assert_eq!(idle.command, Command::WaitCommand(WaitMove::Wait));
    m.target_location = Some(Position { x: 6, y: 6 });
    let chase = choose_action(&m, 40, here, p, 0, false, step, 499);
    assert_eq!(chase.command, Command::MoveCommand);
    let lose = choose_action(&m, 40, here, p, 0, false, step, 500);
    assert_eq!(lose.command, Command::WaitCommand(WaitMove::Wait));
}

#[test]
fn monster_forgets_reached_destination() {
    let (mut w, m) = monster_world((9, 9), (3, 3), 40);
    w.actors[m].as_mut().unwrap().monster.as_mut().unwrap().target_location = Some(Position { x: 3, y: 3 });
    let goal = MonsterAI {}.observe(&mut w, m);
    assert_eq!(goal, None);
    let a = w.actors[m].as_ref().unwrap();
    assert_eq!(a.monster.unwrap().target_location, None);
    assert_eq!(a.stats.current_target, None);
}

#[test]
fn monster_that_sees_player_remembers_and_targets() {
    let (mut w, m) = monster_world((9, 9), (3, 3), 40);
    w.actors[m].as_mut().unwrap().viewshed.visible_tiles = vec![Position { x: 8, y: 8 }, Position { x: 9, y: 9 }];
    let goal = MonsterAI {}.observe(&mut w, m);
    assert_eq!(goal, Some(Position { x: 9, y: 9 }));
    let a = w.actors[m].as_ref().unwrap();
    assert_eq!(a.monster.unwrap().target_location, Some(Position { x: 9, y: 9 }));
    assert_eq!(a.stats.current_target, Some(0));
    assert_eq!(a.stats.visible_targets, vec![0]);
    let idx = w.map.xy_idx(3, 3);
    w.map.blocked[idx] = true;
    let mut rng = rltk::RandomNumberGenerator::seeded(1);
    MonsterAI {}.act(&mut w, m, Some(Position { x: 4, y: 4 }), &mut rng);
    let a = w.actors[m].as_ref().unwrap();
    assert_eq!(a.action.unwrap().position, Some(Position { x: 4, y: 4 }));
    assert!(!w.map.blocked[idx]);
}

#[test]
fn monsters_rest_outside_their_turn() {
    let (mut w, m) = monster_world((9, 9), (3, 3), 40);
    w.run_state = RunState::AwaitingInput;
    w.actors[m].as_mut().unwrap().viewshed.visible_tiles = vec![Position { x: 9, y: 9 }];
    assert_eq!(MonsterAI {}.observe(&mut w, m), None);
    assert_eq!(w.actors[m].as_ref().unwrap().monster.unwrap().target_location, None);
}

#[test]
fn player_step_attacks_occupant_or_moves() {
    let (mut w, m) = monster_world((3, 3), (4, 3), 40);
    try_move_player(1, 0, &mut w);
    assert_eq!(w.actors[0].as_ref().unwrap().action, Some(attack(AttackMove::Melee, 0, CombatStance::Ready, m)));
    try_move_player(0, 1, &mut w);
    let a = w.actors[0].as_ref().unwrap().action.unwrap();
    assert_eq!((a.command, a.cost, a.position), (Command::MoveCommand, -2, Some(Position { x: 3, y: 4 })));
    w.actors[0].as_mut().unwrap().action = None;
    let idx = w.map.xy_idx(2, 3);
    w.map.blocked[idx] = true;
    try_move_player(-1, 0, &mut w);
    assert_eq!(w.actors[0].as_ref().unwrap().action, None);
    try_move_player(0, -3, &mut w);
    assert_eq!(w.actors[0].as_ref().unwrap().action, None);
}

#[test]
fn player_targets_visible_monsters() {
    let (mut w, m) = monster_world((3, 3), (5, 3), 40);
    let mut b = actor(6, 6, stats(10, 10, 2, 0, CombatStance::Ready));
    b.monster = Some(goblin_memory());
    let m2 = w.add_actor(b);
    let i1 = w.map.xy_idx(5, 3);
    let i2 = w.map.xy_idx(6, 6);
    w.map.visible_tiles[i1] = true;
    w.map.visible_tiles[i2] = true;
    update_targeting(&mut w);
    assert_eq!(stats_of(&w, 0).visible_targets, vec![m, m2]);
    assert_eq!(stats_of(&w, 0).current_target, Some(m));
    assert_eq!(try_select_target(2, &mut w), RunState::AwaitingInput);
    assert_eq!(stats_of(&w, 0).current_target, Some(m2));
    assert_eq!(try_select_target(3, &mut w), RunState::AwaitingInput);
    assert_eq!(stats_of(&w, 0).current_target, Some(m2));
    w.map.visible_tiles[i2] = false;
    update_targeting(&mut w);
    assert_eq!(stats_of(&w, 0).current_target, None);
}

#[test]
fn attack_menu_needs_reach_and_legal_command() {
    let (mut w, m) = monster_world((3, 3), (4, 4), 40);
    w.actors[0].as_mut().unwrap().stats.current_target = Some(m);
    assert_eq!(try_attack_menu(2, &mut w), RunState::PlayerTurn);
    assert_eq!(w.actors[0].as_ref().unwrap().action, Some(attack(AttackMove::Smash, 15, CombatStance::Power, m)));
    w.actors[0].as_mut().unwrap().stats.stance = CombatStance::Stun;
    w.actors[0].as_mut().unwrap().action = None;
    assert_eq!(try_attack_menu(1, &mut w), RunState::AwaitingInput);
    assert_eq!(w.actors[0].as_ref().unwrap().action, None);
    assert_eq!(try_attack_menu(0, &mut w), RunState::PlayerTurn);
    w.actors[0].as_mut().unwrap().stats.stance = CombatStance::Ready;
    w.actors[m].as_mut().unwrap().position = Position { x: 6, y: 6 };
    w.actors[0].as_mut().unwrap().action = None;
    assert_eq!(try_attack_menu(1, &mut w), RunState::AwaitingInput);
    assert_eq!(try_attack_menu(5, &mut w), RunState::PlayerTurn);
    let a = w.actors[0].as_ref().unwrap().action.unwrap();
    assert_eq!((a.command, a.target), (Command::WaitCommand(WaitMove::Block), None));
    assert_eq!(rest(&mut w), RunState::PlayerTurn);
    assert_eq!(w.actors[0].as_ref().unwrap().action.unwrap().cost, -5);
}

#[test]
fn scheduler_alternates_turns() {
    assert_eq!(next_phase(RunState::PreRun), RunState::AwaitingInput);
    assert_eq!(next_phase(RunState::PlayerTurn), RunState::MonsterTurn);
    assert_eq!(next_phase(RunState::MonsterTurn), RunState::AwaitingInput);
    assert_eq!(next_phase(RunState::GameOver), RunState::GameOver);
}

#[test]
fn map_indexing_and_exits() {
    let mut m = GameMap::new(5, 4);
    assert_eq!(m.xy_idx(2, 3), 17);
    assert!(m.is_opaque(0));
    let centre = m.xy_idx(2, 2);
    m.tiles[centre] = TileType::Floor;
    m.populate_blocked();
    assert!(!m.blocked[m.xy_idx(2, 2)]);
    assert!(m.blocked[m.xy_idx(1, 1)]);
    let exits = m.get_available_exits(m.xy_idx(1, 1));
    assert_eq!(exits, vec![(m.xy_idx(2, 2), 145)]);
    for b in m.blocked.iter_mut() {
        *b = false;
    }
    let exits = m.get_available_exits(m.xy_idx(2, 2));
    assert_eq!(exits.len(), 8);
    assert_eq!(exits[0], (m.xy_idx(1, 2), 100));
    assert!(!m.is_exit_valid(0, 2));
    assert!(!m.is_exit_valid(2, 4));
    m.tile_content[3].push(1);
    m.clear_content_index();
    assert!(m.tile_content.iter().all(|c| c.is_empty()));
}

#[test]
fn seeded_turns_are_deterministic() {
    let mut logs = Vec::new();
    for _ in 0..2 {
        let mut w = World::new(floor_map(10, 10), player_actor(2, 2, stats(30, 40, 6, 0, CombatStance::Ready)));
        let m = w.add_actor(actor(3, 2, stats(30, 40, 5, 0, CombatStance::Ready)));
        let mut rng = rltk::RandomNumberGenerator::seeded(42);
        for _ in 0..5 {
            w.actors[0].as_mut().unwrap().action = Some(attack(AttackMove::Melee, 0, CombatStance::Ready, m));
            w.actors[m].as_mut().unwrap().action = Some(attack(AttackMove::Melee, 0, CombatStance::Ready, 0));
            ActionSystem {}.run(&mut w, &mut rng);
        }
        logs.push(w.log.entries.clone());
    }
    assert_eq!(logs[0].len(), 10);
    assert_eq!(logs[0], logs[1]);
}

#[test]
fn monster_acts_without_drawing_when_no_chance_is_involved() {
    // adjacent and at full energy: attacks without a draw
    let (mut w, m) = monster_world((4, 4), (5, 5), 40);
    MonsterAI {}.observe(&mut w, m);
    let mut rng = rltk::RandomNumberGenerator::seeded(5);
    MonsterAI {}.act(&mut w, m, None, &mut rng);
    assert_eq!(w.actors[m].as_ref().unwrap().action.unwrap().command, Command::AttackCommand(AttackMove::Bash));
    assert_eq!(rng.next_u64(), rltk::RandomNumberGenerator::seeded(5).next_u64());
    // outside the monster turn nothing is drawn either
    w.run_state = RunState::AwaitingInput;
    let mut rng = rltk::RandomNumberGenerator::seeded(6);
    MonsterAI {}.act(&mut w, m, None, &mut rng);
    assert_eq!(rng.next_u64(), rltk::RandomNumberGenerator::seeded(6).next_u64());
}

#[test]
fn cornered_monster_draws_its_chance() {
    let (mut w, m) = monster_world((4, 4), (5, 5), 15);
    MonsterAI {}.observe(&mut w, m);
    let mut rng = rltk::RandomNumberGenerator::seeded(5);
    MonsterAI {}.act(&mut w, m, None, &mut rng);
    assert_ne!(rng.next_u64(), rltk::RandomNumberGenerator::seeded(5).next_u64());
    let c = w.actors[m].as_ref().unwrap().action.unwrap().command;
    assert!(c == Command::AttackCommand(AttackMove::Bash) || c == Command::WaitCommand(WaitMove::Wait));
}

#[test]
fn resting_monster_heals_out_of_combat() {
    let mut w = World::new(floor_map(10, 10), player_actor(2, 2, stats(30, 40, 4, 0, CombatStance::Ready)));
    let m = w.add_actor(actor(6, 6, stats(15, 20, 3, 1, CombatStance::Ready)));
    w.actors[m].as_mut().unwrap().action = Some(Action { command: Command::WaitCommand(WaitMove::Wait), cost: -10, stance_after: CombatStance::Ready, target: None, position: None });
    resolve_action(&mut w, m, CombatStance::Ready, 20, 0);
    assert_eq!(stats_of(&w, m).hp, 25);
    assert_eq!(stats_of(&w, m).ep, 30);
    assert!(w.actors[m].as_ref().unwrap().player.is_none());
}

#[test]
fn index_map_blocks_walls_and_monsters_only() {
    let (mut w, m) = monster_world((3, 3), (5, 6), 40);
    let wall = w.map.xy_idx(0, 0);
    w.map.tiles[wall] = TileType::Wall;
    let stale = w.map.xy_idx(7, 7);
    w.map.blocked[stale] = true;
    let idx_m = w.map.xy_idx(5, 6);
    let idx_p = w.map.xy_idx(3, 3);
    w.map.blocked[idx_m] = false;
    w.index_map();
    assert!(w.map.blocked[wall]);
    assert!(!w.map.blocked[stale]);
    assert!(w.map.blocked[idx_m]);
    assert!(!w.map.blocked[idx_p]);
    assert_eq!(w.map.tile_content[idx_m], vec![m]);
    assert_eq!(w.map.tile_content[idx_p], vec![0]);
    assert!(w.map.tile_content[stale].is_empty());
}
