//! Damage formula and energy ledger.

use vstd::prelude::*;

use crate::components::{CombatStance, CombatStats, Player, STAT_LIMIT, WaitMove};
use crate::rng::draw_range;

verus! {

/// `max(0, power - defense)`.
pub open spec fn effective_attack(power: int, defense: int) -> int {
    if power > defense {
        power - defense
    } else {
        0
    }
}

/// `ceil(2 * e / 3)` for `e >= 0`.
pub open spec fn ceil_two_thirds(e: int) -> int {
    (2 * e + 2) / 3
}

/// Exclusive upper bound of the random bonus: `2 + ceil(2 * effective_attack / 3)`.
pub open spec fn random_ceiling(power: int, defense: int) -> int {
    2 + ceil_two_thirds(effective_attack(power, defense))
}

/// Damage dealt for a bonus draw `roll` in `[0, random_ceiling)`.
pub open spec fn damage_value(power: int, defense: int, roll: int) -> int {
    effective_attack(power, defense) + roll
}

/// The largest damage the formula can give fits in an `i32`.
pub open spec fn damage_fits(power: int, defense: int) -> bool {
    effective_attack(power, defense) + random_ceiling(power, defense) <= i32::MAX
}

/// Inputs within `STAT_LIMIT` (plus room for adjustments) always fit.
pub proof fn lemma_bounded_damage_fits(power: int, defense: int)
    requires
        -STAT_LIMIT - 8 <= power <= STAT_LIMIT + 8,
        -STAT_LIMIT - 8 <= defense <= STAT_LIMIT + 8,
    ensures
        damage_fits(power, defense),
{
}

/// The exclusive bound of the random bonus for this attack.
pub fn roll_ceiling(power: i32, defense: i32) -> (r: i32)
    requires
        damage_fits(power as int, defense as int),
    ensures
        r == random_ceiling(power as int, defense as int),
        r >= 2,
{
    let diff: i64 = power as i64 - defense as i64;
    let eff: i64 = if diff > 0 { diff } else { 0 };
    (2 + (2 * eff + 2) / 3) as i32
}

/// The damage formula with its random bonus given: `max(0, power - defense) + roll`.
pub fn damage_from_roll(power: i32, defense: i32, roll: i32) -> (r: i32)
    requires
        damage_fits(power as int, defense as int),
        0 <= roll < random_ceiling(power as int, defense as int),
    ensures
        r == damage_value(power as int, defense as int, roll as int),
{
    let diff: i64 = power as i64 - defense as i64;
    let eff: i64 = if diff > 0 { diff } else { 0 };
    (eff + roll as i64) as i32
}

/// Stochastic damage of an attack of `attacker_pow` against `target_def`: the
/// effective attack plus a bonus drawn uniformly from `[0, random_ceiling)`.
pub fn damage_formula(rng: &mut rltk::RandomNumberGenerator, attacker_pow: i32, target_def: i32) -> (r: i32)
    requires
        damage_fits(attacker_pow as int, target_def as int),
    ensures
        exists|roll: int|
            0 <= roll < random_ceiling(attacker_pow as int, target_def as int) && r
                == damage_value(attacker_pow as int, target_def as int, roll),
        r >= 0,
        attacker_pow > target_def ==> r < (attacker_pow - target_def) + 2 + ceil_two_thirds(
            attacker_pow - target_def,
        ),
        attacker_pow <= target_def ==> r < 2,
{
    let ceiling = roll_ceiling(attacker_pow, target_def);
    let roll = draw_range(rng, 0, ceiling);
    damage_from_roll(attacker_pow, target_def, roll)
}

/// Damage is never negative, and stays below
/// `(power - defense) + 2 + ceil(2 (power - defense) / 3)` when `power > defense`,
/// below 2 otherwise, whatever the draw.
pub proof fn damage_is_bounded(power: int, defense: int, roll: int)
    requires
        0 <= power,
        0 <= defense,
        0 <= roll < random_ceiling(power, defense),
    ensures
        damage_value(power, defense, roll) >= 0,
        power > defense ==> damage_value(power, defense, roll) < (power - defense) + 2
            + ceil_two_thirds(power - defense),
        power <= defense ==> damage_value(power, defense, roll) < 2,
{
}

/// `stats` after taking `amount` hit points of damage (negative heals): the result
/// is capped at `max_hp` but has no floor, so death shows as `hp < 1`.
pub open spec fn hp_damaged(s: CombatStats, amount: int) -> CombatStats {
    let raw = s.hp - amount;
    let capped = if raw >= s.max_hp { s.max_hp as int } else { raw };
    CombatStats { hp: (if capped < i32::MIN { i32::MIN as int } else { capped }) as i32, ..s }
}

/// `stats` after losing `amount` energy (negative recovers).
/// While stunned, positive amounts are absorbed and any recovery ends the stun
/// (the actor returns to `Ready`). Otherwise energy that would go negative is
/// floored at 0 and stuns the actor. Energy never exceeds `max_ep`.
pub open spec fn ep_damaged(s: CombatStats, amount: int) -> CombatStats {
    let raw = s.ep - amount;
    if s.stance == CombatStance::Stun {
        if amount < 0 {
            CombatStats {
                ep: (if raw >= s.max_ep { s.max_ep as int } else { raw }) as i32,
                stance: CombatStance::Ready,
                ..s
            }
        } else {
            s
        }
    } else if raw < 0 {
        CombatStats { ep: 0, stance: CombatStance::Stun, ..s }
    } else {
        CombatStats { ep: (if raw >= s.max_ep { s.max_ep as int } else { raw }) as i32, ..s }
    }
}

/// Rust's `x / 2`, which rounds toward zero.
pub open spec fn half_toward_zero(x: int) -> int {
    if x >= 0 {
        x / 2
    } else {
        -((-x) / 2)
    }
}

/// Energy recovered by moving: none in `Guard`; `ep_regen` with no current
/// target, half of it (rounded toward zero) with one.
pub open spec fn move_regenerated(s: CombatStats) -> CombatStats {
    if s.stance == CombatStance::Guard {
        s
    } else if s.current_target is None {
        ep_damaged(s, s.ep_regen as int)
    } else {
        ep_damaged(s, half_toward_zero(s.ep_regen as int))
    }
}

/// Whether resting also heals: the combatant has no current target and is hurt.
pub open spec fn rest_heals(s: CombatStats) -> bool {
    s.current_target is None && s.hp < s.max_hp
}

/// `stats` after resting at energy cost `cost`.
pub open spec fn rested(s: CombatStats, cost: int) -> CombatStats {
    if rest_heals(s) {
        ep_damaged(hp_damaged(s, s.hp_regen as int), cost)
    } else {
        ep_damaged(s, cost)
    }
}

/// The player's inventory after a rest that heals: one food is eaten.
pub open spec fn fed(p: Player) -> Player {
    Player { food: (if p.food > i32::MIN { p.food - 1 } else { p.food as int }) as i32, ..p }
}

/// Subtracts `amount` from `hp`, capping at `max_hp`; there is no floor.
pub fn apply_hp_damage(stats: &mut CombatStats, amount: i32)
    ensures
        *final(stats) == hp_damaged(*old(stats), amount as int),
{
    let raw: i64 = stats.hp as i64 - amount as i64;
    if raw >= stats.max_hp as i64 {
        stats.hp = stats.max_hp;
    } else if raw < i32::MIN as i64 {
        stats.hp = i32::MIN;
    } else {
        stats.hp = raw as i32;
    }
}

/// Subtracts `amount` from `ep` under the stun rules of `ep_damaged`.
pub fn apply_ep_damage(stats: &mut CombatStats, amount: i32)
    requires
        old(stats).energy_wf(),
    ensures
        *final(stats) == ep_damaged(*old(stats), amount as int),
        final(stats).energy_wf(),
        old(stats).wf() ==> final(stats).wf(),
{
    let raw: i64 = stats.ep as i64 - amount as i64;
    if stats.stance == CombatStance::Stun {
        if amount < 0 {
            stats.ep = if raw >= stats.max_ep as i64 { stats.max_ep } else { raw as i32 };
            stats.stance = CombatStance::Ready;
        }
    } else if raw < 0 {
        stats.ep = 0;
        stats.stance = CombatStance::Stun;
    } else {
        stats.ep = if raw >= stats.max_ep as i64 { stats.max_ep } else { raw as i32 };
    }
}

/// Energy recovery of a move.
pub fn move_regen(stats: &mut CombatStats)
    requires
        old(stats).energy_wf(),
    ensures
        *final(stats) == move_regenerated(*old(stats)),
        final(stats).energy_wf(),
        old(stats).wf() ==> final(stats).wf(),
{
    if stats.stance == CombatStance::Guard {
        return ;
    }
    if stats.current_target.is_none() {
        let amount = stats.ep_regen;
        apply_ep_damage(stats, amount);
    } else {
        let amount: i32 = if stats.ep_regen >= 0 {
            stats.ep_regen / 2
        } else {
            (-((-(stats.ep_regen as i64)) / 2)) as i32
        };
        apply_ep_damage(stats, amount);
    }
}

/// Rest: recovers `cost` energy (negative cost) and, for a hurt combatant with no
/// current target, also `hp_regen` hit points; a player record then loses one food.
pub fn rest_or_default(
    stats: &mut CombatStats,
    _wait_move: WaitMove,
    cost: i32,
    player: &mut Option<Player>,
)
    requires
        old(stats).energy_wf(),
    ensures
        *final(stats) == rested(*old(stats), cost as int),
        final(stats).energy_wf(),
        old(stats).wf() ==> final(stats).wf(),
        rest_heals(*old(stats)) && old(player).is_some() ==> *final(player) == Some(
            fed(old(player)->0),
        ),
        !(rest_heals(*old(stats)) && old(player).is_some()) ==> *final(player) == *old(player),
{
    if stats.current_target.is_none() && stats.hp < stats.max_hp {
        let regen = stats.hp_regen;
        apply_hp_damage(stats, regen);
        apply_ep_damage(stats, cost);
        match player {
            Some(p) => {
                if p.food > i32::MIN {
                    p.food = p.food - 1;
                }
            },
            None => {},
        }
    } else {
        apply_ep_damage(stats, cost);
    }
}

/// Energy never leaves `[0, max_ep]`; a combatant that is not stunned becomes
/// stunned exactly when the unclamped energy would be negative.
pub proof fn ep_damage_keeps_bounds(s: CombatStats, amount: int)
    requires
        s.energy_wf(),
    ensures
        0 <= ep_damaged(s, amount).ep <= ep_damaged(s, amount).max_ep,
        s.stance != CombatStance::Stun ==> (ep_damaged(s, amount).stance == CombatStance::Stun
            <==> s.ep - amount < 0),
        s.stance == CombatStance::Stun ==> (ep_damaged(s, amount).stance == CombatStance::Stun
            <==> amount >= 0),
{
}

} // verus!
