//! The game state: purse, pantry, stamina, levelling, the shop and the
//! cooking station.

use vstd::prelude::*;
use crate::items::{valid_level, Body, Gear, Head, Legs, Slot, Weapon, MAX_LEVEL};

verus! {

/// Bound on the magnitude of the counters a game keeps (money, food,
/// stamina, experience, wins); well inside `i32` so that one step of play
/// cannot overflow.
pub const MAX_AMOUNT: i32 = 100_000_000;

pub const START_MONEY: i32 = 15;
pub const START_FOOD: i32 = 10;
pub const START_STAMINA: i32 = 100;
pub const START_LVL: i32 = 1;
pub const START_EXP: i32 = 33;

pub open spec fn amount_ok(x: int) -> bool {
    -MAX_AMOUNT <= x <= MAX_AMOUNT
}

/// Food in the pantry and the batch on the fire, if any. Times are seconds
/// on a clock that the caller reads.
#[derive(Clone, Copy, Debug, PartialEq, Eq)]
pub struct FoodInfo {
    pub quantity: i32,
    pub currently_cooking: Option<i32>,
    pub cooking_end_time: Option<u64>,
}

#[derive(Clone, Copy, Debug, PartialEq, Eq)]
pub struct Shop {
    pub gear: Gear,
    pub food: i32,
    pub last_update: i32,
}

/// Stamina carried through one dungeon visit.
#[derive(Clone, Copy, Debug, PartialEq, Eq)]
pub struct ExplorationState {
    pub stamina: i32,
}

#[derive(Clone, Copy, Debug, PartialEq, Eq)]
pub struct GameState {
    pub gear: Gear,
    pub money: i32,
    pub food: FoodInfo,
    pub shop: Shop,
    pub stamina: i32,
    pub won: i32,
    pub level: i32,
    pub exp: i32,
}

/// Experience needed to leave `level`.
pub open spec fn threshold(level: int) -> int {
    100 + 3 * level
}

/// Level and experience after the experience on hand is spent on as many
/// level thresholds as it covers.
pub open spec fn level_up(level: int, exp: int) -> (int, int)
    decreases exp,
{
    if threshold(level) > 0 && exp >= threshold(level) {
        level_up(level + 1, exp - threshold(level))
    } else {
        (level, exp)
    }
}

/// Levelling never lowers the level, and stops with less experience left
/// than the next threshold; when it raised the level, what is left is not
/// negative.
pub proof fn lemma_level_up_settles(level: int, exp: int)
    requires
        threshold(level) > 0,
    ensures
        level_up(level, exp).0 >= level,
        level_up(level, exp).1 < threshold(level_up(level, exp).0),
        level_up(level, exp).0 > level ==> level_up(level, exp).1 >= 0,
        exp >= 0 ==> level_up(level, exp).1 >= 0,
    decreases exp,
{
    if exp >= threshold(level) {
        lemma_level_up_settles(level + 1, exp - threshold(level));
    }
}

impl FoodInfo {
    /// A batch on the fire always has an end time, and a positive size.
    pub open spec fn wf(self) -> bool {
        &&& (self.currently_cooking is Some) == (self.cooking_end_time is Some)
        &&& (self.currently_cooking matches Some(a) ==> 0 < a <= MAX_AMOUNT)
    }

    pub open spec fn counters_ok(self) -> bool {
        amount_ok(self.quantity as int)
    }
}

impl Shop {
    pub open spec fn wf(self) -> bool {
        &&& self.gear.wf()
        &&& valid_level(self.last_update as int)
    }

    pub open spec fn counters_ok(self) -> bool {
        amount_ok(self.food as int)
    }

    /// Fresh stock for `lvl`: four items generated at that level and
    /// `3 * lvl` food.
    pub open spec fn restocked(self, lvl: int) -> bool {
        &&& self.last_update == lvl
        &&& self.food == 3 * lvl
        &&& self.gear.weapon matches Some(w) && w.rolled_at(lvl)
        &&& self.gear.body matches Some(b) && b.rolled_at(lvl)
        &&& self.gear.head matches Some(h) && h.rolled_at(lvl)
        &&& self.gear.legs matches Some(l) && l.rolled_at(lvl)
    }

    /// `after` is what `update(lvl)` may leave of `before`: fresh stock when
    /// `lvl` is above the level of the last restock, else `before` itself.
    pub open spec fn updated(before: Shop, after: Shop, lvl: int) -> bool {
        if before.last_update < lvl {
            after.restocked(lvl)
        } else {
            after == before
        }
    }

    /// Restocks the shop when the player's level has risen past the level of
    /// the last restock; otherwise leaves it as it is.
    pub fn update(&mut self, lvl: i32)
        requires
            old(self).wf(),
            valid_level(lvl as int),
        ensures
            final(self).wf(),
            Shop::updated(*old(self), *final(self), lvl as int),
    {
        if self.last_update < lvl {
            self.last_update = lvl;
            self.food = lvl * 3;
            self.gear.weapon = Some(Weapon::new(lvl));
            self.gear.body = Some(Body::new(lvl));
            self.gear.head = Some(Head::new(lvl));
            self.gear.legs = Some(Legs::new(lvl));
        }
    }
}

/// Restocking twice at one level changes nothing after the first time.
pub proof fn lemma_update_idempotent(s0: Shop, s1: Shop, s2: Shop, lvl: int)
    requires
        Shop::updated(s0, s1, lvl),
        Shop::updated(s1, s2, lvl),
    ensures
        s2 == s1,
{
}

impl GameState {
    /// The shape that every operation keeps: well-formed gear in both
    /// hands, a well-formed pantry and a level of at least 1.
    pub open spec fn wf(self) -> bool {
        &&& self.gear.wf()
        &&& self.shop.wf()
        &&& self.food.wf()
        &&& 1 <= self.level
    }

    /// Every counter far enough from the edge of `i32` for one more step,
    /// and a level that generation accepts.
    pub open spec fn counters_ok(self) -> bool {
        &&& self.level <= MAX_LEVEL
        &&& amount_ok(self.money as int)
        &&& amount_ok(self.stamina as int)
        &&& amount_ok(self.won as int)
        &&& amount_ok(self.exp as int)
        &&& self.food.counters_ok()
        &&& self.shop.counters_ok()
    }

    pub open spec fn roomy(self) -> bool {
        self.wf() && self.counters_ok()
    }

    /// Whether the counters leave room for another step of play.
    pub fn within_limits(&self) -> (r: bool)
        ensures
            r == self.counters_ok(),
    {
        self.level <= MAX_LEVEL
            && -MAX_AMOUNT <= self.money && self.money <= MAX_AMOUNT
            && -MAX_AMOUNT <= self.stamina && self.stamina <= MAX_AMOUNT
            && -MAX_AMOUNT <= self.won && self.won <= MAX_AMOUNT
            && -MAX_AMOUNT <= self.exp && self.exp <= MAX_AMOUNT
            && -MAX_AMOUNT <= self.food.quantity && self.food.quantity <= MAX_AMOUNT
            && -MAX_AMOUNT <= self.shop.food && self.shop.food <= MAX_AMOUNT
    }

    /// A new game: a level 1 weapon, nothing else worn, the starting
    /// purse, pantry and stamina, and a shop stocked at level 1.
    pub fn new() -> (g: GameState)
        ensures
            g.roomy(),
            g.gear.weapon matches Some(w) && w.rolled_at(1),
            g.gear.body is None && g.gear.head is None && g.gear.legs is None,
            g.money == START_MONEY,
            g.stamina == START_STAMINA,
            g.won == 0,
            g.level == START_LVL,
            g.exp == START_EXP,
            g.food == (FoodInfo {
                quantity: START_FOOD,
                currently_cooking: None,
                cooking_end_time: None,
            }),
            g.shop.gear.weapon matches Some(w) && w.rolled_at(1),
            g.shop.gear.body matches Some(b) && b.rolled_at(1),
            g.shop.gear.head matches Some(h) && h.rolled_at(1),
            g.shop.gear.legs matches Some(l) && l.rolled_at(1),
            g.shop.food == 1,
            g.shop.last_update == 1,
    {
        GameState {
            gear: Gear { weapon: Some(Weapon::new(1)), body: None, head: None, legs: None },
            money: START_MONEY,
            stamina: START_STAMINA,
            won: 0,
            level: START_LVL,
            exp: START_EXP,
            food: FoodInfo { quantity: START_FOOD, currently_cooking: None, cooking_end_time: None },
            shop: Shop {
                gear: Gear {
                    weapon: Some(Weapon::new(1)),
                    body: Some(Body::new(1)),
                    head: Some(Head::new(1)),
                    legs: Some(Legs::new(1)),
                },
                food: 1,
                last_update: 1,
            },
        }
    }

    /// Adds experience, then levels up for as long as the experience covers
    /// the threshold `100 + 3 * level`, spending the threshold each time.
    pub fn get_exp(&mut self, exp: i32)
        requires
            old(self).roomy(),
            amount_ok(exp as int),
        ensures
            (final(self).level as int, final(self).exp as int) == level_up(
                old(self).level as int,
                old(self).exp + exp,
            ),
            *final(self) == (GameState { level: final(self).level, exp: final(self).exp, ..*old(self) }),
            final(self).level >= old(self).level,
            final(self).exp < threshold(final(self).level as int),
            final(self).level > old(self).level ==> final(self).exp >= 0,
    {
        proof {
            lemma_level_up_settles(old(self).level as int, old(self).exp + exp);
        }
        let ghost l0 = self.level as int;
        let ghost e0 = self.exp + exp;
        self.exp = self.exp + exp;
        while self.exp >= 100 + self.level * 3
            invariant
                level_up(self.level as int, self.exp as int) == level_up(l0, e0),
                *self == (GameState { level: self.level, exp: self.exp, ..*old(self) }),
                l0 == old(self).level,
                1 <= l0 <= MAX_LEVEL,
                -2 * MAX_AMOUNT <= e0 <= 2 * MAX_AMOUNT,
                l0 <= self.level,
                100 * (self.level - l0) <= e0 - self.exp,
                self.exp <= e0,
                self.exp >= 0 || self.exp == e0,
            decreases self.exp,
        {
            self.exp = self.exp - (100 + self.level * 3);
            self.level = self.level + 1;
        }
    }
}


/// Seconds that cooking one unit of food takes.
pub const COOK_SECONDS: u64 = 30;

/// Why a purchase or a sale was refused; nothing changes when one is.
#[derive(Clone, Copy, Debug, PartialEq, Eq, Structural)]
pub enum TradeError {
    /// The shop holds nothing in that slot.
    SoldOut,
    NotEnoughMoney,
    /// The player already wears an item there and did not trade it in.
    SlotTaken,
    NothingToSell,
    /// A negative quantity.
    InvalidAmount,
    /// The shop has less food than asked for.
    NotEnoughStock,
}

/// Why eating or cooking was refused; nothing changes when one is.
#[derive(Clone, Copy, Debug, PartialEq, Eq, Structural)]
pub enum FoodError {
    /// A quantity below what the action takes (below 1 to eat, below 0 to cook).
    InvalidAmount,
    NotEnoughFood,
    NotEnoughMoney,
    /// A batch is still on the fire.
    StillCooking,
    /// Cooking nothing: leave the station.
    NoAmount,
}

impl FoodInfo {
    /// The pantry once a batch whose end time has come is taken off the
    /// fire: it yields three food per unit cooked.
    pub open spec fn settled(self, now: u64) -> FoodInfo {
        match (self.currently_cooking, self.cooking_end_time) {
            (Some(a), Some(end)) => if end <= now {
                FoodInfo {
                    quantity: (self.quantity + 3 * a) as i32,
                    currently_cooking: None,
                    cooking_end_time: None,
                }
            } else {
                self
            },
            _ => self,
        }
    }

    /// Takes a finished batch off the fire; returns how much was cooked.
    /// Calling it again at the same time changes nothing.
    pub fn settle(&mut self, now: u64) -> (done: Option<i32>)
        requires
            old(self).wf(),
            old(self).counters_ok(),
        ensures
            *final(self) == old(self).settled(now),
            final(self).wf(),
            done == (if *final(self) != *old(self) { old(self).currently_cooking } else { None }),
    {
        match (self.currently_cooking, self.cooking_end_time) {
            (Some(a), Some(end)) => if end <= now {
                self.quantity = self.quantity + 3 * a;
                self.currently_cooking = None;
                self.cooking_end_time = None;
                Some(a)
            } else {
                None
            },
            _ => None,
        }
    }

    /// Seconds until the batch on the fire is done, while it is not.
    pub fn seconds_left(&self, now: u64) -> (r: Option<u64>)
        ensures
            r == (match self.cooking_end_time {
                Some(end) => if end > now { Some((end - now) as u64) } else { None },
                None => None,
            }),
    {
        match self.cooking_end_time {
            Some(end) => if end > now {
                Some(end - now)
            } else {
                None
            },
            None => None,
        }
    }
}

impl GameState {
    pub open spec fn buy_outcome(self, slot: Slot, trade_in: bool) -> Result<(), TradeError> {
        if !self.shop.gear.holds(slot) {
            Err(TradeError::SoldOut)
        } else if self.shop.gear.cost_in(slot) > self.money {
            Err(TradeError::NotEnoughMoney)
        } else if self.gear.holds(slot) && !trade_in {
            Err(TradeError::SlotTaken)
        } else {
            Ok(())
        }
    }

    /// The state after buying the shop's item in `slot`: the worn item there,
    /// if any, is sold back at its resale value, the shop's item moves over
    /// and its price is paid.
    pub open spec fn bought(self, slot: Slot) -> GameState {
        GameState {
            money: (self.money + self.gear.resale_in(slot) - self.shop.gear.cost_in(slot)) as i32,
            gear: self.gear.with_slot_from(self.shop.gear, slot),
            shop: Shop { gear: self.shop.gear.without(slot), ..self.shop },
            ..self
        }
    }

    /// Buys the shop's item in `slot`. An item already worn there is traded
    /// in at its resale value, and only when `trade_in` says so.
    pub fn buy_gear(&mut self, slot: Slot, trade_in: bool) -> (r: Result<(), TradeError>)
        requires
            old(self).roomy(),
        ensures
            r == old(self).buy_outcome(slot, trade_in),
            r is Ok ==> *final(self) == old(self).bought(slot),
            r is Err ==> *final(self) == *old(self),
            final(self).wf(),
    {
        let price = match self.shop.gear.cost_of(slot) {
            Some(p) => p,
            None => return Err(TradeError::SoldOut),
        };
        if price > self.money {
            return Err(TradeError::NotEnoughMoney);
        }
        let trade = self.gear.resale_of(slot);
        if trade.is_some() && !trade_in {
            return Err(TradeError::SlotTaken);
        }
        if let Some(v) = trade {
            self.money = self.money + v;
        }
        self.money = self.money - price;
        let src = self.shop.gear;
        self.gear.put_from(&src, slot);
        self.shop.gear.clear(slot);
        Ok(())
    }

    /// Sells the worn item in `slot` at its resale value,
    /// `round(cost * durability / original_durability)`; returns what was paid.
    pub fn sell_gear(&mut self, slot: Slot) -> (r: Result<i32, TradeError>)
        requires
            old(self).roomy(),
        ensures
            r == (if old(self).gear.holds(slot) {
                Ok::<i32, TradeError>(old(self).gear.resale_in(slot) as i32)
            } else {
                Err(TradeError::NothingToSell)
            }),
            r is Ok ==> *final(self) == (GameState {
                money: (old(self).money + old(self).gear.resale_in(slot)) as i32,
                gear: old(self).gear.without(slot),
                ..*old(self)
            }),
            r is Err ==> *final(self) == *old(self),
            final(self).wf(),
    {
        match self.gear.resale_of(slot) {
            Some(price) => {
                self.money = self.money + price;
                self.gear.clear(slot);
                Ok(price)
            },
            None => Err(TradeError::NothingToSell),
        }
    }

    pub open spec fn food_purchase(self, amount: int) -> Result<(), TradeError> {
        if amount < 0 {
            Err(TradeError::InvalidAmount)
        } else if amount > self.shop.food {
            Err(TradeError::NotEnoughStock)
        } else if 2 * amount > self.money {
            Err(TradeError::NotEnoughMoney)
        } else {
            Ok(())
        }
    }

    /// Buys `amount` food from the shop at 2 money each.
    pub fn buy_food(&mut self, amount: i32) -> (r: Result<(), TradeError>)
        requires
            old(self).roomy(),
        ensures
            r == old(self).food_purchase(amount as int),
            r is Ok ==> *final(self) == (GameState {
                money: (old(self).money - 2 * amount) as i32,
                food: FoodInfo { quantity: (old(self).food.quantity + amount) as i32, ..old(self).food },
                shop: Shop { food: (old(self).shop.food - amount) as i32, ..old(self).shop },
                ..*old(self)
            }),
            r is Err ==> *final(self) == *old(self),
            final(self).wf(),
    {
        if amount < 0 {
            return Err(TradeError::InvalidAmount);
        }
        if amount > self.shop.food {
            return Err(TradeError::NotEnoughStock);
        }
        if 2 * amount > self.money {
            return Err(TradeError::NotEnoughMoney);
        }
        self.shop.food = self.shop.food - amount;
        self.food.quantity = self.food.quantity + amount;
        self.money = self.money - 2 * amount;
        Ok(())
    }

    pub open spec fn eat_outcome(self, amount: int) -> Result<(), FoodError> {
        if amount < 1 {
            Err(FoodError::InvalidAmount)
        } else if amount > self.food.quantity {
            Err(FoodError::NotEnoughFood)
        } else {
            Ok(())
        }
    }

    /// The state after eating `amount` food: `amount - 1` stamina gained.
    pub open spec fn fed(self, amount: int) -> GameState {
        GameState {
            food: FoodInfo { quantity: (self.food.quantity - amount) as i32, ..self.food },
            stamina: (self.stamina + amount - 1) as i32,
            ..self
        }
    }

    /// Eats `amount` food, between 1 and what the pantry holds.
    pub fn eat(&mut self, amount: i32) -> (r: Result<(), FoodError>)
        requires
            old(self).roomy(),
        ensures
            r == old(self).eat_outcome(amount as int),
            r is Ok ==> *final(self) == old(self).fed(amount as int),
            r is Err ==> *final(self) == *old(self),
            final(self).wf(),
    {
        if amount < 1 {
            return Err(FoodError::InvalidAmount);
        }
        if amount > self.food.quantity {
            return Err(FoodError::NotEnoughFood);
        }
        self.food.quantity = self.food.quantity - amount;
        self.stamina = self.stamina + (amount - 1);
        Ok(())
    }

    pub open spec fn cook_outcome(self, amount: int) -> Result<(), FoodError> {
        if self.food.currently_cooking is Some {
            Err(FoodError::StillCooking)
        } else if amount < 0 {
            Err(FoodError::InvalidAmount)
        } else if amount > self.food.quantity {
            Err(FoodError::NotEnoughFood)
        } else if 2 * amount > self.money {
            Err(FoodError::NotEnoughMoney)
        } else if amount == 0 {
            Err(FoodError::NoAmount)
        } else {
            Ok(())
        }
    }

    /// Puts `amount` food on the fire at time `now`, for 2 money each; it is
    /// done `30 * amount` seconds later.
    pub fn cook(&mut self, amount: i32, now: u64) -> (r: Result<(), FoodError>)
        requires
            old(self).roomy(),
            now + COOK_SECONDS * MAX_AMOUNT <= u64::MAX,
        ensures
            r == old(self).cook_outcome(amount as int),
            r is Ok ==> *final(self) == (GameState {
                money: (old(self).money - 2 * amount) as i32,
                food: FoodInfo {
                    quantity: (old(self).food.quantity - amount) as i32,
                    currently_cooking: Some(amount),
                    cooking_end_time: Some((now + COOK_SECONDS * amount) as u64),
                },
                ..*old(self)
            }),
            r is Err ==> *final(self) == *old(self),
            final(self).wf(),
    {
        if self.food.currently_cooking.is_some() {
            return Err(FoodError::StillCooking);
        }
        if amount < 0 {
            return Err(FoodError::InvalidAmount);
        }
        if amount > self.food.quantity {
            return Err(FoodError::NotEnoughFood);
        }
        if 2 * amount > self.money {
            return Err(FoodError::NotEnoughMoney);
        }
        if amount == 0 {
            return Err(FoodError::NoAmount);
        }
        self.food.quantity = self.food.quantity - amount;
        self.food.currently_cooking = Some(amount);
        self.food.cooking_end_time = Some(now + COOK_SECONDS * (amount as u64));
        self.money = self.money - 2 * amount;
        Ok(())
    }
}

} // verus!
