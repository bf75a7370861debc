//! Monsters and the damage formula of a blow.

use vstd::prelude::*;
use crate::dice::{draw, draw_in_bound, is_shift, roll};
use crate::items::{capped, valid_level, MAX_LEVEL};

verus! {

/// Largest magnitude of an attacker's damage that the damage formula takes;
/// beyond it the doubled and scaled value leaves `i32`.
pub const DAMAGE_CAP: i32 = 15_000_000;

/// Integer division that rounds toward zero, as `/` does on `i32`.
pub open spec fn trunc_div(a: int, b: int) -> int {
    let q: int = (vstd::math::abs(a) / vstd::math::abs(b)) as int;
    if (a >= 0) == (b > 0) {
        q
    } else {
        -q
    }
}

/// Halves toward zero.
fn half(x: i32) -> (r: i32)
    ensures
        r == trunc_div(x as int, 2),
        x >= 0 ==> 0 <= r <= x && r == x / 2,
{
    if x >= 0 {
        x / 2
    } else {
        -((-(x as i64)) / 2) as i32
    }
}

pub open spec fn is_spread(s: int) -> bool {
    -5 <= s < 10
}

pub open spec fn is_crit_roll(c: int) -> bool {
    0 <= c < 101
}

/// The damage of one blow: `damage + spread`, doubled when the critical
/// roll is below `luck`, scaled by `70 / (70 + armor)` rounding toward zero,
/// and never below 0.
pub open spec fn blow(damage: int, luck: int, armor: int, spread: int, crit: int) -> int {
    let base = damage + spread;
    let hit = if crit < luck {
        2 * base
    } else {
        base
    };
    vstd::math::max(0, trunc_div(hit * 70, 70 + armor))
}

/// `r` is the damage of a blow for some spread and critical roll.
pub open spec fn is_blow(r: int, damage: int, luck: int, armor: int) -> bool {
    exists|s: int, c: int|
        is_spread(s) && is_crit_roll(c) && r == #[trigger] blow(damage, luck, armor, s, c)
}

pub open spec fn blow_ok(damage: int, armor: int) -> bool {
    &&& -DAMAGE_CAP <= damage <= DAMAGE_CAP
    &&& 70 + armor != 0
    &&& armor <= i32::MAX - 70
}

/// The damage of one blow once the spread and the critical roll are known.
/// The blow is doubled exactly when `crit < luck`; it is never negative.
pub fn damage_from_rolls(damage: i32, luck: i32, armor: i32, spread: i32, crit: i32) -> (r: i32)
    requires
        blow_ok(damage as int, armor as int),
        is_spread(spread as int),
    ensures
        r == blow(damage as int, luck as int, armor as int, spread as int, crit as int),
        r >= 0,
{
    let mut dmg = damage + spread;
    if crit < luck {
        dmg = dmg * 2;
    }
    dmg = dmg * 70;
    let div = 70 + armor;
    if (dmg > 0 && div > 0) || (dmg < 0 && div < 0) {
        let a: i32 = if dmg > 0 { dmg } else { -dmg };
        let b: i32 = if div > 0 { div } else { -div };
        a / b
    } else {
        0
    }
}

/// One blow: `damage + uniform[-5, 10)`, doubled when `uniform[0, 101)` is
/// below `luck`, scaled by armor as `damage_from_rolls` states.
pub fn calculate_dmg(damage: i32, luck: i32, armor: i32) -> (r: i32)
    requires
        blow_ok(damage as int, armor as int),
    ensures
        r >= 0,
        is_blow(r as int, damage as int, luck as int, armor as int),
{
    let spread = roll(-5, 10);
    let crit = roll(0, 101);
    let r = damage_from_rolls(damage, luck, armor, spread, crit);
    assert(is_spread(spread as int) && is_crit_roll(crit as int) && r == blow(
        damage as int,
        luck as int,
        armor as int,
        spread as int,
        crit as int,
    ));
    r
}

#[derive(Clone, Copy, Debug, PartialEq, Eq, Structural)]
pub enum MonsterTypes {
    Small,
    Big,
}

pub open spec fn multiplier(kind: MonsterTypes) -> int {
    match kind {
        MonsterTypes::Small => 2,
        MonsterTypes::Big => 5,
    }
}

impl MonsterTypes {
    /// How many budget points each player level is worth for this kind.
    pub fn into_budget(&self) -> (r: i32)
        ensures
            r == multiplier(*self),
    {
        match self {
            MonsterTypes::Small => 2,
            MonsterTypes::Big => 5,
        }
    }
}

#[derive(Clone, Copy, Debug, PartialEq, Eq)]
pub struct Monster {
    pub health: i32,
    pub damage: i32,
    pub armor: i32,
    pub reward: i32,
}

impl Monster {
    pub open spec fn wf(self) -> bool {
        &&& capped(self.health as int)
        &&& capped(self.damage as int)
        &&& capped(self.armor as int)
        &&& capped(self.reward as int)
    }

    /// One outcome of generation at `level`: the budget is
    /// `level * multiplier + shift + 5`, split into health, damage, then
    /// armor; the reward is half the budget; health then gains
    /// `level / 2 + 10`, which the reward does not count.
    pub open spec fn rolled_at(self, level: int, kind: MonsterTypes) -> bool {
        let base_health = self.health - (trunc_div(level, 2) + 10);
        let budget = base_health + self.damage + self.armor;
        &&& is_shift(budget - 5 - level * multiplier(kind))
        &&& draw_in_bound(base_health, budget)
        &&& draw_in_bound(self.damage as int, budget - base_health)
        &&& self.reward == trunc_div(budget, 2)
    }

    /// The monster that generation at `player_level` makes from its draws:
    /// the budget shift, then health and damage drawn in turn from what the
    /// budget has left.
    pub fn from_draws(
        player_level: i32,
        kind: MonsterTypes,
        shift: i32,
        health: i32,
        damage: i32,
    ) -> (m: Monster)
        requires
            valid_level(player_level as int),
            is_shift(shift as int),
            draw_in_bound(health as int, player_level * multiplier(kind) + shift + 5),
            draw_in_bound(damage as int, player_level * multiplier(kind) + shift + 5 - health),
        ensures
            m.wf(),
            m.rolled_at(player_level as int, kind),
            m.health == health + trunc_div(player_level as int, 2) + 10,
            m.damage == damage,
            m.armor == player_level * multiplier(kind) + shift + 5 - health - damage,
            m.reward == trunc_div(player_level * multiplier(kind) + shift + 5, 2),
    {
        let mult = kind.into_budget();
        assert(2 <= player_level * mult <= 5 * MAX_LEVEL) by (nonlinear_arith)
            requires
                1 <= player_level <= MAX_LEVEL,
                2 <= mult <= 5,
        ;
        let budget = player_level * mult + shift + 5;
        assert(budget == player_level * multiplier(kind) + shift + 5);
        assert(0 <= health < budget && 0 <= damage < budget - health);
        let armor = budget - health - damage;
        let reward = half(budget);
        let health = health + half(player_level) + 10;
        Monster { health, damage, armor, reward }
    }

    pub fn new(player_level: i32, kind: MonsterTypes) -> (m: Monster)
        requires
            valid_level(player_level as int),
        ensures
            m.wf(),
            m.rolled_at(player_level as int, kind),
    {
        let mult = kind.into_budget();
        assert(2 <= player_level * mult <= 5 * MAX_LEVEL) by (nonlinear_arith)
            requires
                1 <= player_level <= MAX_LEVEL,
                2 <= mult <= 5,
        ;
        let shift = roll(-5, 6);
        let budget = player_level * mult + shift + 5;
        let health = draw(budget);
        let damage = draw(budget - health);
        Monster::from_draws(player_level, kind, shift, health, damage)
    }
}

} // verus!
