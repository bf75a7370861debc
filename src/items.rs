//! Equipment: the four slot types, their generation on a stat budget,
//! resale value, wear, and the combined stats of what is worn.

use vstd::prelude::*;
use crate::dice::{draw, draw_in_bound, is_shift, roll};
use vstd::string::StringExecFns;

verus! {

/// Highest player level that item and monster generation accept; it keeps
/// every derived stat far inside `i32`. Levels start at 1.
pub const MAX_LEVEL: i32 = 1_000_000;

/// Bound on any stat, cost or durability of an item or a monster.
pub const STAT_CAP: i32 = 6_000_000;

pub open spec fn valid_level(level: int) -> bool {
    1 <= level <= MAX_LEVEL
}

pub open spec fn capped(x: int) -> bool {
    0 <= x <= STAT_CAP
}

/// Durability at generation: the rolled value, raised to 1 where the roll
/// would leave a freshly made item already destroyed.
pub open spec fn lasting(base: int) -> int {
    if base >= 1 {
        base
    } else {
        1
    }
}

fn make_lasting(base: i32) -> (r: i32)
    ensures
        r == lasting(base as int),
{
    if base >= 1 {
        base
    } else {
        1
    }
}

/// Rounds `n / d` to the nearest integer, halves away from zero.
pub open spec fn round_div(n: int, d: int) -> int {
    if n >= 0 {
        (2 * n + d) / (2 * d)
    } else {
        -((-2 * n + d) / (2 * d))
    }
}

proof fn lemma_round_div_bounded(c: int, dur: int, od: int)
    requires
        od > 0,
        0 <= dur <= od,
    ensures
        c >= 0 ==> 0 <= round_div(c * dur, od) <= c,
        c < 0 ==> c <= round_div(c * dur, od) <= 0,
        dur == od ==> round_div(c * dur, od) == c,
{
    let n = c * dur;
    if c >= 0 {
        assert(0 <= n <= c * od) by (nonlinear_arith)
            requires
                c >= 0,
                0 <= dur <= od,
                n == c * dur,
        ;
        assert(0 <= (2 * n + od) / (2 * od) <= c) by (nonlinear_arith)
            requires
                0 <= n <= c * od,
                od > 0,
                c >= 0,
        ;
        if dur == od {
            assert((2 * (c * od) + od) / (2 * od) == c) by (nonlinear_arith)
                requires
                    od > 0,
            ;
        }
    } else {
        let m = -c;
        assert(0 <= -n <= m * od) by (nonlinear_arith)
            requires
                m > 0,
                c == -m,
                0 <= dur <= od,
                n == c * dur,
        ;
        assert(0 <= (-2 * n + od) / (2 * od) <= m) by (nonlinear_arith)
            requires
                0 <= -n <= m * od,
                od > 0,
        ;
        if n == 0 {
            assert(od / (2 * od) == 0) by (nonlinear_arith)
                requires
                    od > 0,
            ;
        }
        if dur == od {
            assert(n == -(m * od)) by (nonlinear_arith)
                requires
                    m == -c,
                    n == c * dur,
                    dur == od,
            ;
            assert((2 * (m * od) + od) / (2 * od) == m) by (nonlinear_arith)
                requires
                    od > 0,
            ;
            if n == 0 {
                assert(m * od > 0) by (nonlinear_arith)
                    requires
                        m > 0,
                        od > 0,
                ;
            }
        }
    }
}

/// What an item is worth at its current durability:
/// `round(original * durability / original_durability)`.
pub fn calculate_cost(original: i32, durability: i32, original_durability: i32) -> (r: i32)
    requires
        original_durability > 0,
        0 <= durability <= original_durability,
    ensures
        r == round_div(original * durability, original_durability as int),
        durability == original_durability ==> r == original,
        original >= 0 ==> 0 <= r <= original,
{
    proof {
        lemma_round_div_bounded(original as int, durability as int, original_durability as int);
    }
    assert(-0x3FFF_FFFF_8000_0000 <= original * durability <= 0x3FFF_FFFF_8000_0000)
        by (nonlinear_arith)
        requires
            0 <= durability <= 0x7FFF_FFFF,
            -0x8000_0000 <= original <= 0x8000_0000,
    ;
    let n: i64 = original as i64 * durability as i64;
    let d: i64 = original_durability as i64;
    let ghost p: int = original * durability;
    assert(n == p);
    if n >= 0 {
        let q: i64 = (2 * n + d) / (2 * d);
        assert(q == round_div(p, original_durability as int));
        q as i32
    } else {
        let m: i64 = -n;
        let q: i64 = (2 * m + d) / (2 * d);
        assert(-q == round_div(p, original_durability as int));
        (-q) as i32
    }
}

/// The equipment slots a character or the shop can fill.
#[derive(Clone, Copy, Debug, PartialEq, Eq, Structural)]
pub enum Slot {
    Weapon,
    Body,
    Head,
    Legs,
}

#[derive(Clone, Copy, Debug, PartialEq, Eq)]
pub struct Weapon {
    pub damage: i32,
    pub luck: i32,
    pub durability: i32,
    pub original_durability: i32,
    pub cost: i32,
}

#[derive(Clone, Copy, Debug, PartialEq, Eq)]
pub struct Body {
    pub armor: i32,
    pub health: i32,
    pub damage: i32,
    pub speed: i32,
    pub durability: i32,
    pub original_durability: i32,
    pub cost: i32,
}

#[derive(Clone, Copy, Debug, PartialEq, Eq)]
pub struct Head {
    pub luck: i32,
    pub armor: i32,
    pub damage: i32,
    pub durability: i32,
    pub original_durability: i32,
    pub cost: i32,
}

#[derive(Clone, Copy, Debug, PartialEq, Eq)]
pub struct Legs {
    pub speed: i32,
    pub armor: i32,
    pub health: i32,
    pub luck: i32,
    pub durability: i32,
    pub original_durability: i32,
    pub cost: i32,
}

/// Durability that lies in `1..=original_durability`, all of it within the cap.
pub open spec fn durable(durability: int, original_durability: int) -> bool {
    1 <= durability <= original_durability <= STAT_CAP
}

impl Weapon {
    pub open spec fn wf(self) -> bool {
        &&& durable(self.durability as int, self.original_durability as int)
        &&& capped(self.damage as int)
        &&& capped(self.luck as int)
        &&& capped(self.cost as int)
    }

    /// The fields are one outcome of generation at `level`: budget and cost
    /// are each `level + 10` plus a shift in `[-5, 6)`, the budget is split
    /// into damage then luck, and durability is three times
    /// `level + 10 + cost - budget`, raised to at least 1.
    pub open spec fn rolled_at(self, level: int) -> bool {
        let budget = self.damage + self.luck;
        &&& is_shift(budget - (level + 10))
        &&& is_shift(self.cost - (level + 10))
        &&& draw_in_bound(self.damage as int, budget)
        &&& self.durability == self.original_durability
        &&& self.original_durability == lasting(3 * (level + 10 + self.cost - budget))
    }

    /// The weapon that generation at `player_level` makes from its draws:
    /// the budget and cost shifts, then the damage drawn from the budget.
    pub fn from_draws(player_level: i32, budget_shift: i32, cost_shift: i32, damage: i32) -> (w: Weapon)
        requires
            valid_level(player_level as int),
            is_shift(budget_shift as int),
            is_shift(cost_shift as int),
            draw_in_bound(damage as int, player_level + 10 + budget_shift),
        ensures
            w.wf(),
            w.rolled_at(player_level as int),
            w.damage == damage,
            w.damage + w.luck == player_level + 10 + budget_shift,
            w.cost == player_level + 10 + cost_shift,
    {
        let budget = player_level + 10 + budget_shift;
        let cost = player_level + 10 + cost_shift;
        let luck = budget - damage;
        let durability = make_lasting(3 * (player_level + 10 + cost - budget));
        Weapon { damage, luck, durability, original_durability: durability, cost }
    }

    pub fn new(player_level: i32) -> (w: Weapon)
        requires
            valid_level(player_level as int),
        ensures
            w.wf(),
            w.rolled_at(player_level as int),
    {
        let budget_shift = roll(-5, 6);
        let cost_shift = roll(-5, 6);
        let damage = draw(player_level + 10 + budget_shift);
        Weapon::from_draws(player_level, budget_shift, cost_shift, damage)
    }

    /// What the shop pays for this weapon at its current durability.
    pub fn resale_value(&self) -> (r: i32)
        requires
            self.wf(),
        ensures
            r == round_div(self.cost * self.durability, self.original_durability as int),
    {
        calculate_cost(self.cost, self.durability, self.original_durability)
    }
}

impl Body {
    pub open spec fn wf(self) -> bool {
        &&& durable(self.durability as int, self.original_durability as int)
        &&& capped(self.armor as int)
        &&& capped(self.health as int)
        &&& capped(self.damage as int)
        &&& capped(self.speed as int)
        &&& capped(self.cost as int)
    }

    /// One outcome of generation at `level`: the budget is split into armor,
    /// health, damage, then speed; durability is `level + 10 + cost - budget`,
    /// raised to at least 1.
    pub open spec fn rolled_at(self, level: int) -> bool {
        let budget = self.armor + self.health + self.damage + self.speed;
        &&& is_shift(budget - (level + 10))
        &&& is_shift(self.cost - (level + 10))
        &&& draw_in_bound(self.armor as int, budget)
        &&& draw_in_bound(self.health as int, budget - self.armor)
        &&& draw_in_bound(self.damage as int, budget - self.armor - self.health)
        &&& self.durability == self.original_durability
        &&& self.original_durability == lasting(level + 10 + self.cost - budget)
    }

    /// The body piece that generation at `player_level` makes from its
    /// draws: the budget and cost shifts, then armor, health and damage
    /// drawn in turn from what the budget has left.
    pub fn from_draws(
        player_level: i32,
        budget_shift: i32,
        cost_shift: i32,
        armor: i32,
        health: i32,
        damage: i32,
    ) -> (b: Body)
        requires
            valid_level(player_level as int),
            is_shift(budget_shift as int),
            is_shift(cost_shift as int),
            draw_in_bound(armor as int, player_level + 10 + budget_shift),
            draw_in_bound(health as int, player_level + 10 + budget_shift - armor),
            draw_in_bound(damage as int, player_level + 10 + budget_shift - armor - health),
        ensures
            b.wf(),
            b.rolled_at(player_level as int),
            b.armor == armor && b.health == health && b.damage == damage,
            b.armor + b.health + b.damage + b.speed == player_level + 10 + budget_shift,
            b.cost == player_level + 10 + cost_shift,
    {
        let budget = player_level + 10 + budget_shift;
        let cost = player_level + 10 + cost_shift;
        let speed = budget - armor - health - damage;
        let durability = make_lasting(player_level + 10 + cost - budget);
        Body { armor, health, damage, speed, durability, original_durability: durability, cost }
    }

    pub fn new(player_level: i32) -> (b: Body)
        requires
            valid_level(player_level as int),
        ensures
            b.wf(),
            b.rolled_at(player_level as int),
    {
        let budget_shift = roll(-5, 6);
        let cost_shift = roll(-5, 6);
        let budget = player_level + 10 + budget_shift;
        let armor = draw(budget);
        let health = draw(budget - armor);
        let damage = draw(budget - armor - health);
        Body::from_draws(player_level, budget_shift, cost_shift, armor, health, damage)
    }

    /// What the shop pays for this body piece at its current durability.
    pub fn resale_value(&self) -> (r: i32)
        requires
            self.wf(),
        ensures
            r == round_div(self.cost * self.durability, self.original_durability as int),
    {
        calculate_cost(self.cost, self.durability, self.original_durability)
    }
}

impl Head {
    pub open spec fn wf(self) -> bool {
        &&& durable(self.durability as int, self.original_durability as int)
        &&& capped(self.luck as int)
        &&& capped(self.armor as int)
        &&& capped(self.damage as int)
        &&& capped(self.cost as int)
    }

    /// One outcome of generation at `level`: the budget is split into luck,
    /// armor, then damage; durability as for a body piece.
    pub open spec fn rolled_at(self, level: int) -> bool {
        let budget = self.luck + self.armor + self.damage;
        &&& is_shift(budget - (level + 10))
        &&& is_shift(self.cost - (level + 10))
        &&& draw_in_bound(self.luck as int, budget)
        &&& draw_in_bound(self.armor as int, budget - self.luck)
        &&& self.durability == self.original_durability
        &&& self.original_durability == lasting(level + 10 + self.cost - budget)
    }

    /// The head piece that generation at `player_level` makes from its
    /// draws: the budget and cost shifts, then luck and armor drawn in turn
    /// from what the budget has left.
    pub fn from_draws(player_level: i32, budget_shift: i32, cost_shift: i32, luck: i32, armor: i32) -> (h: Head)
        requires
            valid_level(player_level as int),
            is_shift(budget_shift as int),
            is_shift(cost_shift as int),
            draw_in_bound(luck as int, player_level + 10 + budget_shift),
            draw_in_bound(armor as int, player_level + 10 + budget_shift - luck),
        ensures
            h.wf(),
            h.rolled_at(player_level as int),
            h.luck == luck && h.armor == armor,
            h.luck + h.armor + h.damage == player_level + 10 + budget_shift,
            h.cost == player_level + 10 + cost_shift,
    {
        let budget = player_level + 10 + budget_shift;
        let cost = player_level + 10 + cost_shift;
        let damage = budget - luck - armor;
        let durability = make_lasting(player_level + 10 + cost - budget);
        Head { luck, armor, damage, durability, original_durability: durability, cost }
    }

    pub fn new(player_level: i32) -> (h: Head)
        requires
            valid_level(player_level as int),
        ensures
            h.wf(),
            h.rolled_at(player_level as int),
    {
        let budget_shift = roll(-5, 6);
        let cost_shift = roll(-5, 6);
        let budget = player_level + 10 + budget_shift;
        let luck = draw(budget);
        let armor = draw(budget - luck);
        Head::from_draws(player_level, budget_shift, cost_shift, luck, armor)
    }

    /// What the shop pays for this head piece at its current durability.
    pub fn resale_value(&self) -> (r: i32)
        requires
            self.wf(),
        ensures
            r == round_div(self.cost * self.durability, self.original_durability as int),
    {
        calculate_cost(self.cost, self.durability, self.original_durability)
    }
}

impl Legs {
    pub open spec fn wf(self) -> bool {
        &&& durable(self.durability as int, self.original_durability as int)
        &&& capped(self.speed as int)
        &&& capped(self.armor as int)
        &&& capped(self.health as int)
        &&& capped(self.luck as int)
        &&& capped(self.cost as int)
    }

    /// One outcome of generation at `level`: the budget is split into speed,
    /// armor, health, then luck; durability as for a body piece.
    pub open spec fn rolled_at(self, level: int) -> bool {
        let budget = self.speed + self.armor + self.health + self.luck;
        &&& is_shift(budget - (level + 10))
        &&& is_shift(self.cost - (level + 10))
        &&& draw_in_bound(self.speed as int, budget)
        &&& draw_in_bound(self.armor as int, budget - self.speed)
        &&& draw_in_bound(self.health as int, budget - self.speed - self.armor)
        &&& self.durability == self.original_durability
        &&& self.original_durability == lasting(level + 10 + self.cost - budget)
    }

    /// The leg pieces that generation at `player_level` makes from its
    /// draws: the budget and cost shifts, then speed, armor and health drawn
    /// in turn from what the budget has left.
    pub fn from_draws(
        player_level: i32,
        budget_shift: i32,
        cost_shift: i32,
        speed: i32,
        armor: i32,
        health: i32,
    ) -> (l: Legs)
        requires
            valid_level(player_level as int),
            is_shift(budget_shift as int),
            is_shift(cost_shift as int),
            draw_in_bound(speed as int, player_level + 10 + budget_shift),
            draw_in_bound(armor as int, player_level + 10 + budget_shift - speed),
            draw_in_bound(health as int, player_level + 10 + budget_shift - speed - armor),
        ensures
            l.wf(),
            l.rolled_at(player_level as int),
            l.speed == speed && l.armor == armor && l.health == health,
            l.speed + l.armor + l.health + l.luck == player_level + 10 + budget_shift,
            l.cost == player_level + 10 + cost_shift,
    {
        let budget = player_level + 10 + budget_shift;
        let cost = player_level + 10 + cost_shift;
        let luck = budget - speed - armor - health;
        let durability = make_lasting(player_level + 10 + cost - budget);
        Legs { speed, armor, health, luck, durability, original_durability: durability, cost }
    }

    pub fn new(player_level: i32) -> (l: Legs)
        requires
            valid_level(player_level as int),
        ensures
            l.wf(),
            l.rolled_at(player_level as int),
    {
        let budget_shift = roll(-5, 6);
        let cost_shift = roll(-5, 6);
        let budget = player_level + 10 + budget_shift;
        let speed = draw(budget);
        let armor = draw(budget - speed);
        let health = draw(budget - speed - armor);
        Legs::from_draws(player_level, budget_shift, cost_shift, speed, armor, health)
    }

    /// What the shop pays for these leg pieces at their current durability.
    pub fn resale_value(&self) -> (r: i32)
        requires
            self.wf(),
        ensures
            r == round_div(self.cost * self.durability, self.original_durability as int),
    {
        calculate_cost(self.cost, self.durability, self.original_durability)
    }
}


/// The combined stats of what a character wears.
#[derive(Clone, Copy, Debug, PartialEq, Eq)]
pub struct Stats {
    pub damage: i32,
    pub luck: i32,
    pub armor: i32,
    pub speed: i32,
    pub health: i32,
}

/// At most one item in each slot.
#[derive(Clone, Copy, Debug, PartialEq, Eq)]
pub struct Gear {
    pub weapon: Option<Weapon>,
    pub body: Option<Body>,
    pub head: Option<Head>,
    pub legs: Option<Legs>,
}

/// Name of the piece lost when an armor slot is destroyed.
pub open spec fn piece_name(slot: Slot) -> Seq<char> {
    match slot {
        Slot::Weapon => "weapon"@,
        Slot::Body => "body armor"@,
        Slot::Head => "head armor"@,
        Slot::Legs => "legs armor"@,
    }
}

pub open spec fn is_armor_slot(slot: Slot) -> bool {
    slot != Slot::Weapon
}

impl Gear {
    pub open spec fn wf(self) -> bool {
        &&& (self.weapon matches Some(w) ==> w.wf())
        &&& (self.body matches Some(b) ==> b.wf())
        &&& (self.head matches Some(h) ==> h.wf())
        &&& (self.legs matches Some(l) ==> l.wf())
    }

    pub open spec fn holds(self, slot: Slot) -> bool {
        match slot {
            Slot::Weapon => self.weapon is Some,
            Slot::Body => self.body is Some,
            Slot::Head => self.head is Some,
            Slot::Legs => self.legs is Some,
        }
    }

    /// Base damage 5 plus the damage of weapon and body piece.
    pub open spec fn total_damage(self) -> int {
        5 + (match self.weapon { Some(w) => w.damage as int, None => 0 })
          + (match self.body { Some(b) => b.damage as int, None => 0 })
    }

    /// Luck of weapon and legs, and twice the luck of the head piece.
    pub open spec fn total_luck(self) -> int {
        (match self.weapon { Some(w) => w.luck as int, None => 0 })
          + (match self.head { Some(h) => 2 * h.luck, None => 0 })
          + (match self.legs { Some(l) => l.luck as int, None => 0 })
    }

    pub open spec fn total_armor(self) -> int {
        (match self.body { Some(b) => b.armor as int, None => 0 })
          + (match self.head { Some(h) => h.armor as int, None => 0 })
          + (match self.legs { Some(l) => l.armor as int, None => 0 })
    }

    pub open spec fn total_speed(self) -> int {
        (match self.body { Some(b) => b.speed as int, None => 0 })
          + (match self.legs { Some(l) => l.speed as int, None => 0 })
    }

    /// Base health 100 plus the health of body and leg pieces.
    pub open spec fn total_health(self) -> int {
        100 + (match self.body { Some(b) => b.health as int, None => 0 })
          + (match self.legs { Some(l) => l.health as int, None => 0 })
    }

    /// Whether one hit on `slot` destroys what it holds.
    pub open spec fn breaks(self, slot: Slot) -> bool {
        match slot {
            Slot::Weapon => self.weapon matches Some(w) && w.durability == 1,
            Slot::Body => self.body matches Some(b) && b.durability == 1,
            Slot::Head => self.head matches Some(h) && h.durability == 1,
            Slot::Legs => self.legs matches Some(l) && l.durability == 1,
        }
    }

    /// The gear after one hit on `slot`: the item there loses one point of
    /// durability and leaves the slot when none is left; an empty slot stays empty.
    pub open spec fn worn(self, slot: Slot) -> Gear {
        match slot {
            Slot::Weapon => Gear {
                weapon: match self.weapon {
                    Some(w) => if w.durability == 1 { None } else {
                        Some(Weapon { durability: (w.durability - 1) as i32, ..w })
                    },
                    None => None,
                },
                ..self
            },
            Slot::Body => Gear {
                body: match self.body {
                    Some(b) => if b.durability == 1 { None } else {
                        Some(Body { durability: (b.durability - 1) as i32, ..b })
                    },
                    None => None,
                },
                ..self
            },
            Slot::Head => Gear {
                head: match self.head {
                    Some(h) => if h.durability == 1 { None } else {
                        Some(Head { durability: (h.durability - 1) as i32, ..h })
                    },
                    None => None,
                },
                ..self
            },
            Slot::Legs => Gear {
                legs: match self.legs {
                    Some(l) => if l.durability == 1 { None } else {
                        Some(Legs { durability: (l.durability - 1) as i32, ..l })
                    },
                    None => None,
                },
                ..self
            },
        }
    }

    pub fn is_empty(&self) -> (r: bool)
        ensures
            r == (self.weapon is None && self.body is None && self.head is None
                && self.legs is None),
    {
        self.weapon.is_none() && self.body.is_none() && self.head.is_none() && self.legs.is_none()
    }

    pub fn holds_item(&self, slot: Slot) -> (r: bool)
        ensures
            r == self.holds(slot),
    {
        match slot {
            Slot::Weapon => self.weapon.is_some(),
            Slot::Body => self.body.is_some(),
            Slot::Head => self.head.is_some(),
            Slot::Legs => self.legs.is_some(),
        }
    }

    /// The stats that the worn items add up to; recomputed on each call.
    pub fn final_stats(&self) -> (r: Stats)
        requires
            self.wf(),
        ensures
            r.damage == self.total_damage(),
            r.luck == self.total_luck(),
            r.armor == self.total_armor(),
            r.speed == self.total_speed(),
            r.health == self.total_health(),
    {
        let mut damage: i32 = 5;
        let mut luck: i32 = 0;
        let mut armor: i32 = 0;
        let mut speed: i32 = 0;
        let mut health: i32 = 100;
        if let Some(weapon) = &self.weapon {
            damage += weapon.damage;
            luck += weapon.luck;
        }
        if let Some(body) = &self.body {
            armor += body.armor;
            speed += body.speed;
            health += body.health;
            damage += body.damage;
        }
        if let Some(head) = &self.head {
            armor += head.armor;
            luck += head.luck;
            luck += head.luck;
        }
        if let Some(legs) = &self.legs {
            armor += legs.armor;
            speed += legs.speed;
            health += legs.health;
            luck += legs.luck;
        }
        Stats { damage, luck, armor, speed, health }
    }

    /// One hit on `slot`; returns whether it destroyed the item there.
    pub fn wear(&mut self, slot: Slot) -> (destroyed: bool)
        requires
            old(self).wf(),
        ensures
            *final(self) == old(self).worn(slot),
            final(self).wf(),
            destroyed == old(self).breaks(slot),
    {
        match slot {
            Slot::Weapon => match self.weapon {
                Some(w) => if w.durability == 1 {
                    self.weapon = None;
                    true
                } else {
                    self.weapon = Some(Weapon { durability: w.durability - 1, ..w });
                    false
                },
                None => false,
            },
            Slot::Body => match self.body {
                Some(b) => if b.durability == 1 {
                    self.body = None;
                    true
                } else {
                    self.body = Some(Body { durability: b.durability - 1, ..b });
                    false
                },
                None => false,
            },
            Slot::Head => match self.head {
                Some(h) => if h.durability == 1 {
                    self.head = None;
                    true
                } else {
                    self.head = Some(Head { durability: h.durability - 1, ..h });
                    false
                },
                None => false,
            },
            Slot::Legs => match self.legs {
                Some(l) => if l.durability == 1 {
                    self.legs = None;
                    true
                } else {
                    self.legs = Some(Legs { durability: l.durability - 1, ..l });
                    false
                },
                None => false,
            },
        }
    }

    /// A monster's hit lands on one armor slot drawn uniformly from body,
    /// head and legs, whether or not it is occupied. Returns the name of the
    /// piece it destroyed, if any.
    pub fn take_damage(&mut self) -> (r: Option<String>)
        requires
            old(self).wf(),
        ensures
            final(self).wf(),
            exists|slot: Slot|
                #![auto]
                is_armor_slot(slot) && *final(self) == old(self).worn(slot) && (r is Some
                    <==> old(self).breaks(slot)) && (r matches Some(name) ==> name@ == piece_name(
                    slot,
                )),
    {
        let pick = roll(1, 4);
        let slot = if pick == 1 {
            Slot::Body
        } else if pick == 2 {
            Slot::Head
        } else {
            Slot::Legs
        };
        let ghost before = *self;
        let r = if self.wear(slot) {
            Some(String::from_str(piece_label(slot)))
        } else {
            None
        };
        assert(is_armor_slot(slot) && *self == before.worn(slot));
        r
    }

    /// The weapon wears by one point on each attack the player makes.
    /// Returns `"weapon"` when that destroyed it.
    pub fn weapon_take_dmg(&mut self) -> (r: Option<String>)
        requires
            old(self).wf(),
        ensures
            final(self).wf(),
            *final(self) == old(self).worn(Slot::Weapon),
            r is Some <==> old(self).breaks(Slot::Weapon),
            r matches Some(name) ==> name@ == piece_name(Slot::Weapon),
    {
        if self.wear(Slot::Weapon) {
            Some(String::from_str(piece_label(Slot::Weapon)))
        } else {
            None
        }
    }
}

fn piece_label(slot: Slot) -> (r: &'static str)
    ensures
        r@ == piece_name(slot),
{
    match slot {
        Slot::Weapon => "weapon",
        Slot::Body => "body armor",
        Slot::Head => "head armor",
        Slot::Legs => "legs armor",
    }
}


impl Gear {
    /// Purchase price of the item in `slot`, 0 when the slot is empty.
    pub open spec fn cost_in(self, slot: Slot) -> int {
        match slot {
            Slot::Weapon => match self.weapon { Some(w) => w.cost as int, None => 0 },
            Slot::Body => match self.body { Some(b) => b.cost as int, None => 0 },
            Slot::Head => match self.head { Some(h) => h.cost as int, None => 0 },
            Slot::Legs => match self.legs { Some(l) => l.cost as int, None => 0 },
        }
    }

    /// Resale value of the item in `slot`, 0 when the slot is empty.
    pub open spec fn resale_in(self, slot: Slot) -> int {
        match slot {
            Slot::Weapon => match self.weapon {
                Some(w) => round_div(w.cost * w.durability, w.original_durability as int),
                None => 0,
            },
            Slot::Body => match self.body {
                Some(b) => round_div(b.cost * b.durability, b.original_durability as int),
                None => 0,
            },
            Slot::Head => match self.head {
                Some(h) => round_div(h.cost * h.durability, h.original_durability as int),
                None => 0,
            },
            Slot::Legs => match self.legs {
                Some(l) => round_div(l.cost * l.durability, l.original_durability as int),
                None => 0,
            },
        }
    }

    /// This gear with `slot` emptied.
    pub open spec fn without(self, slot: Slot) -> Gear {
        match slot {
            Slot::Weapon => Gear { weapon: None, ..self },
            Slot::Body => Gear { body: None, ..self },
            Slot::Head => Gear { head: None, ..self },
            Slot::Legs => Gear { legs: None, ..self },
        }
    }

    /// This gear with `slot` holding what `src` holds there.
    pub open spec fn with_slot_from(self, src: Gear, slot: Slot) -> Gear {
        match slot {
            Slot::Weapon => Gear { weapon: src.weapon, ..self },
            Slot::Body => Gear { body: src.body, ..self },
            Slot::Head => Gear { head: src.head, ..self },
            Slot::Legs => Gear { legs: src.legs, ..self },
        }
    }

    pub fn cost_of(&self, slot: Slot) -> (r: Option<i32>)
        ensures
            r == (if self.holds(slot) { Some(self.cost_in(slot) as i32) } else { None }),
    {
        match slot {
            Slot::Weapon => match &self.weapon { Some(w) => Some(w.cost), None => None },
            Slot::Body => match &self.body { Some(b) => Some(b.cost), None => None },
            Slot::Head => match &self.head { Some(h) => Some(h.cost), None => None },
            Slot::Legs => match &self.legs { Some(l) => Some(l.cost), None => None },
        }
    }

    /// What the shop pays for the item in `slot` at its current durability.
    pub fn resale_of(&self, slot: Slot) -> (r: Option<i32>)
        requires
            self.wf(),
        ensures
            r == (if self.holds(slot) { Some(self.resale_in(slot) as i32) } else { None }),
            r matches Some(v) ==> v == self.resale_in(slot) && 0 <= v <= self.cost_in(slot),
    {
        match slot {
            Slot::Weapon => match &self.weapon {
                Some(w) => Some(calculate_cost(w.cost, w.durability, w.original_durability)),
                None => None,
            },
            Slot::Body => match &self.body {
                Some(b) => Some(calculate_cost(b.cost, b.durability, b.original_durability)),
                None => None,
            },
            Slot::Head => match &self.head {
                Some(h) => Some(calculate_cost(h.cost, h.durability, h.original_durability)),
                None => None,
            },
            Slot::Legs => match &self.legs {
                Some(l) => Some(calculate_cost(l.cost, l.durability, l.original_durability)),
                None => None,
            },
        }
    }

    pub fn clear(&mut self, slot: Slot)
        ensures
            *final(self) == old(self).without(slot),
    {
        match slot {
            Slot::Weapon => self.weapon = None,
            Slot::Body => self.body = None,
            Slot::Head => self.head = None,
            Slot::Legs => self.legs = None,
        }
    }

    pub fn put_from(&mut self, src: &Gear, slot: Slot)
        ensures
            *final(self) == old(self).with_slot_from(*src, slot),
    {
        match slot {
            Slot::Weapon => self.weapon = src.weapon,
            Slot::Body => self.body = src.body,
            Slot::Head => self.head = src.head,
            Slot::Legs => self.legs = src.legs,
        }
    }
}


pub open spec fn slot_label(slot: Slot) -> Seq<char> {
    match slot {
        Slot::Weapon => "Weapon"@,
        Slot::Body => "Body"@,
        Slot::Head => "Head"@,
        Slot::Legs => "Legs"@,
    }
}

pub fn slot_name(slot: Slot) -> (r: String)
    ensures
        r@ == slot_label(slot),
{
    match slot {
        Slot::Weapon => String::from_str("Weapon"),
        Slot::Body => String::from_str("Body"),
        Slot::Head => String::from_str("Head"),
        Slot::Legs => String::from_str("Legs"),
    }
}

impl Gear {
    /// The occupied slots, in the order weapon, body, head, legs.
    pub open spec fn held(self) -> Seq<Slot> {
        (if self.weapon is Some { seq![Slot::Weapon] } else { Seq::empty() })
            + (if self.body is Some { seq![Slot::Body] } else { Seq::empty() })
            + (if self.head is Some { seq![Slot::Head] } else { Seq::empty() })
            + (if self.legs is Some { seq![Slot::Legs] } else { Seq::empty() })
    }

    pub fn held_slots(&self) -> (r: Vec<Slot>)
        ensures
            r@ == self.held(),
    {
        let mut r: Vec<Slot> = Vec::new();
        if self.weapon.is_some() {
            r.push(Slot::Weapon);
        }
        if self.body.is_some() {
            r.push(Slot::Body);
        }
        if self.head.is_some() {
            r.push(Slot::Head);
        }
        if self.legs.is_some() {
            r.push(Slot::Legs);
        }
        assert(r@ =~= self.held());
        r
    }
}

/// A worn item never sits in its slot with no durability left: the hit that
/// takes its last point also takes it out of the slot.
pub proof fn lemma_worn_out_leaves_slot(g: Gear, slot: Slot)
    requires
        g.wf(),
    ensures
        g.worn(slot).wf(),
        g.breaks(slot) ==> !g.worn(slot).holds(slot),
        g.holds(slot) && !g.breaks(slot) ==> g.worn(slot).holds(slot),
        g.worn(slot).weapon matches Some(w) ==> w.durability > 0,
        g.worn(slot).body matches Some(b) ==> b.durability > 0,
        g.worn(slot).head matches Some(h) ==> h.durability > 0,
        g.worn(slot).legs matches Some(l) ==> l.durability > 0,
{
}

/// An item at full durability resells for exactly its price.
pub proof fn lemma_full_durability_resale(cost: int, original_durability: int)
    requires
        original_durability > 0,
    ensures
        round_div(cost * original_durability, original_durability) == cost,
{
    lemma_round_div_bounded(cost, original_durability, original_durability);
}


/// A generated weapon's stats are non-negative and add up to its budget,
/// which lies in `[level + 5, level + 16)`; the damage draw stays below it.
pub proof fn lemma_weapon_budget(w: Weapon, level: int)
    requires
        valid_level(level),
        w.rolled_at(level),
    ensures
        0 <= w.damage < w.damage + w.luck,
        0 < w.luck,
        level + 5 <= w.damage + w.luck < level + 16,
{
}

/// A generated body piece's stats are non-negative and add up to its
/// budget; each draw stays below what the earlier ones left.
pub proof fn lemma_body_budget(b: Body, level: int)
    requires
        valid_level(level),
        b.rolled_at(level),
    ensures
        level + 5 <= b.armor + b.health + b.damage + b.speed < level + 16,
        0 <= b.armor < b.armor + b.health + b.damage + b.speed,
        0 <= b.health < b.health + b.damage + b.speed,
        0 <= b.damage < b.damage + b.speed,
        0 < b.speed,
{
}

/// A generated head piece's stats are non-negative and add up to its
/// budget; each draw stays below what the earlier ones left.
pub proof fn lemma_head_budget(h: Head, level: int)
    requires
        valid_level(level),
        h.rolled_at(level),
    ensures
        level + 5 <= h.luck + h.armor + h.damage < level + 16,
        0 <= h.luck < h.luck + h.armor + h.damage,
        0 <= h.armor < h.armor + h.damage,
        0 < h.damage,
{
}

/// Generated leg pieces' stats are non-negative and add up to their
/// budget; each draw stays below what the earlier ones left.
pub proof fn lemma_legs_budget(l: Legs, level: int)
    requires
        valid_level(level),
        l.rolled_at(level),
    ensures
        level + 5 <= l.speed + l.armor + l.health + l.luck < level + 16,
        0 <= l.speed < l.speed + l.armor + l.health + l.luck,
        0 <= l.armor < l.armor + l.health + l.luck,
        0 <= l.health < l.health + l.luck,
        0 < l.luck,
{
}

} // verus!
