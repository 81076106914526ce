use barrow::combat::{
    apply_ep_damage, apply_hp_damage, damage_formula, damage_from_roll, move_regen,
    rest_or_default, roll_ceiling,
};
use barrow::components::{
    AttackMove, CombatStance, CombatStats, Command, Player, WaitMove,
};
use barrow::rules::{
    attack_ep_damage, defense_adjustment, get_available_moves, power_adjustment,
    reaction_ep_damage, synergy, Synergy,
};

fn stats(hp: i32, ep: i32, power: i32, defense: i32, stance: CombatStance) -> CombatStats {
    CombatStats {
        max_hp: 30,
        hp,
        hp_regen: -10,
        max_ep: 40,
        ep,
        ep_regen: -5,
        defense,
        power,
        attack_cost: 5,
        stance,
        visible_targets: vec![],
        current_target: None,
        last_command: None,
    }
}

fn inventory() -> Player {
    Player { food: 10, max_food: 10, coin: 0, potions: 0, atk_bonus: 0, def_bonus: 0, has_amulet: false }
}

#[test]
fn melee_against_guard_with_zero_draw() {
    // power 4 Melee against a guarding target of defense 1 that did nothing last turn
    let pow = 4 + power_adjustment(AttackMove::Melee, CombatStance::Guard);
    let def = 1 + defense_adjustment(AttackMove::Melee, None);
    assert_eq!(pow, 3);
    assert_eq!(def, 1);
    assert_eq!(roll_ceiling(pow, def), 4);
    assert_eq!(damage_from_roll(pow, def, 0), 2);
    assert_eq!(damage_from_roll(pow, def, 3), 5);
}

#[test]
fn damage_formula_stays_in_its_range() {
    let mut seen = [false; 4];
    for seed in 0..200u64 {
        let mut rng = rltk::RandomNumberGenerator::seeded(seed);
        let d = damage_formula(&mut rng, 3, 1);
        assert!((2..6).contains(&d), "damage {} out of [2, 6)", d);
        seen[(d - 2) as usize] = true;
    }
    // every bonus in [0, 4) shows up, so the draw is neither fixed nor the bound itself
    assert!(seen.iter().all(|s| *s));
}

#[test]
fn damage_below_two_when_defense_wins() {
    for seed in 0..100u64 {
        let mut rng = rltk::RandomNumberGenerator::seeded(seed);
        let d = damage_formula(&mut rng, 1, 5);
        assert!(d >= 0 && d < 2);
    }
    assert_eq!(roll_ceiling(1, 5), 2);
    assert_eq!(roll_ceiling(0, 0), 2);
}

#[test]
fn ceiling_rounds_two_thirds_up() {
    assert_eq!(roll_ceiling(10, 0), 2 + 7);
    assert_eq!(roll_ceiling(9, 0), 2 + 6);
    assert_eq!(roll_ceiling(1, 0), 2 + 1);
}

#[test]
fn hp_damage_caps_at_max_without_floor() {
    let mut s = stats(25, 20, 4, 0, CombatStance::Ready);
    apply_hp_damage(&mut s, -10);
    assert_eq!(s.hp, 30);
    apply_hp_damage(&mut s, 45);
    assert_eq!(s.hp, -15);
}

#[test]
fn ep_damage_stuns_and_floors_at_zero() {
    let mut s = stats(30, 5, 4, 0, CombatStance::Ready);
    apply_ep_damage(&mut s, 10);
    assert_eq!(s.ep, 0);
    assert_eq!(s.stance, CombatStance::Stun);
}

#[test]
fn ep_damage_to_exactly_zero_does_not_stun() {
    let mut s = stats(30, 10, 4, 0, CombatStance::Guard);
    apply_ep_damage(&mut s, 10);
    assert_eq!(s.ep, 0);
    assert_eq!(s.stance, CombatStance::Guard);
}

#[test]
fn ep_recovery_caps_at_max() {
    let mut s = stats(30, 35, 4, 0, CombatStance::Power);
    apply_ep_damage(&mut s, -10);
    assert_eq!(s.ep, 40);
    assert_eq!(s.stance, CombatStance::Power);
}

#[test]
fn stunned_absorbs_damage_and_recovers_to_ready() {
    let mut s = stats(30, 0, 4, 0, CombatStance::Stun);
    apply_ep_damage(&mut s, 15);
    assert_eq!(s.ep, 0);
    assert_eq!(s.stance, CombatStance::Stun);
    apply_ep_damage(&mut s, -10);
    assert_eq!(s.ep, 10);
    assert_eq!(s.stance, CombatStance::Ready);
}

#[test]
fn move_regen_by_stance_and_target() {
    let mut s = stats(30, 10, 4, 0, CombatStance::Ready);
    move_regen(&mut s);
    assert_eq!(s.ep, 15);
    s.current_target = Some(3);
    move_regen(&mut s);
    // half of -5, rounded toward zero, is -2
    assert_eq!(s.ep, 17);
    s.stance = CombatStance::Guard;
    move_regen(&mut s);
    assert_eq!(s.ep, 17);
}

#[test]
fn rest_heals_hurt_player_for_food() {
    let mut s = stats(15, 10, 4, 0, CombatStance::Ready);
    let mut inv = Some(inventory());
    rest_or_default(&mut s, WaitMove::Wait, -10, &mut inv);
    assert_eq!(s.hp, 25);
    assert_eq!(s.ep, 20);
    assert_eq!(inv.unwrap().food, 9);
}

#[test]
fn rest_in_combat_only_recovers_energy() {
    let mut s = stats(15, 10, 4, 0, CombatStance::Ready);
    s.current_target = Some(1);
    let mut inv = Some(inventory());
    rest_or_default(&mut s, WaitMove::Wait, -10, &mut inv);
    assert_eq!(s.hp, 15);
    assert_eq!(s.ep, 20);
    assert_eq!(inv.unwrap().food, 10);
}

#[test]
fn rest_heals_any_hurt_combatant_out_of_combat() {
    let mut none: Option<Player> = None;
    let mut m = stats(15, 10, 4, 0, CombatStance::Ready);
    rest_or_default(&mut m, WaitMove::Wait, -10, &mut none);
    assert_eq!(m.hp, 25);
    assert_eq!(m.ep, 20);
    assert!(none.is_none());
}

#[test]
fn tables_match_the_rules() {
    assert_eq!(power_adjustment(AttackMove::Slash, CombatStance::Ready), 1);
    assert_eq!(power_adjustment(AttackMove::Smash, CombatStance::Power), 2);
    assert_eq!(power_adjustment(AttackMove::Bash, CombatStance::Guard), 1);
    assert_eq!(power_adjustment(AttackMove::Poke, CombatStance::Stun), -1);
    let block = Some(Command::WaitCommand(WaitMove::Block));
    let fend = Some(Command::WaitCommand(WaitMove::Fend));
    assert_eq!(defense_adjustment(AttackMove::Smash, fend), 3);
    assert_eq!(defense_adjustment(AttackMove::Melee, fend), 1);
    assert_eq!(defense_adjustment(AttackMove::Smash, block), 1);
    assert_eq!(attack_ep_damage(AttackMove::Bash, CombatStance::Guard), 15);
    assert_eq!(attack_ep_damage(AttackMove::Bash, CombatStance::Ready), 10);
    assert_eq!(attack_ep_damage(AttackMove::Smash, CombatStance::Guard), 5);
    assert_eq!(attack_ep_damage(AttackMove::Melee, CombatStance::Guard), 0);
    assert_eq!(reaction_ep_damage(AttackMove::Bash, block), -10);
    assert_eq!(reaction_ep_damage(AttackMove::Melee, block), 5);
    assert_eq!(reaction_ep_damage(AttackMove::Melee, fend), 0);
    assert_eq!(synergy(AttackMove::Bash, CombatStance::Guard, block), Some(Synergy::BlockEffective));
    assert_eq!(synergy(AttackMove::Bash, CombatStance::Guard, None), Some(Synergy::BashEffective));
    assert_eq!(synergy(AttackMove::Smash, CombatStance::Ready, fend), Some(Synergy::FendEffective));
    assert_eq!(synergy(AttackMove::Melee, CombatStance::Stun, None), Some(Synergy::StunnedTarget));
    assert_eq!(synergy(AttackMove::Melee, CombatStance::Guard, None), None);
}

#[test]
fn catalog_by_stance() {
    let ready = get_available_moves(&stats(30, 40, 4, 0, CombatStance::Ready));
    assert_eq!(ready.len(), 6);
    assert!(ready.iter().all(|c| c.enabled));
    assert_eq!(ready[2].command, Command::AttackCommand(AttackMove::Smash));
    assert_eq!(ready[2].cost, 15);
    assert_eq!(ready[2].stance_after, CombatStance::Power);
    let stun = get_available_moves(&stats(30, 0, 4, 0, CombatStance::Stun));
    let enabled: Vec<_> = stun.iter().filter(|c| c.enabled).map(|c| c.command).collect();
    assert_eq!(enabled, vec![Command::WaitCommand(WaitMove::Wait)]);
    let guard = get_available_moves(&stats(30, 40, 4, 0, CombatStance::Guard));
    assert!(!guard[2].enabled);
    assert!(guard[3].enabled);
    let power = get_available_moves(&stats(30, 40, 4, 0, CombatStance::Power));
    assert_eq!(power[5].cost, -5);
    assert!(!power[5].enabled);
}
