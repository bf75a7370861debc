//! The turn-based fight: the monster's strike, the player's attack, eating,
//! fleeing and hiding, and how a fight ends.

use vstd::prelude::*;
use vstd::string::StringExecFns;
use crate::dice::roll;
use crate::items::{is_armor_slot, piece_name, Gear, Slot};
use crate::monster::{calculate_dmg, is_blow, trunc_div, Monster, MonsterTypes};
use crate::state::{level_up, FoodError, GameState};

verus! {

/// Bound on the health a player has in a fight.
pub const HEALTH_CAP: i32 = 1_000_000_000;

/// How a fight ended.
#[derive(Clone, Copy, Debug, PartialEq, Eq, Structural)]
pub enum CombatEnd {
    /// The monster fell; its reward was paid.
    Won,
    /// The player's health ran out.
    Died,
    /// The player had no stamina left to act.
    Exhausted,
    GaveUp,
    Fled,
    /// The player hid and the monster lost track of them.
    Hid,
}

/// Whether the player walks away from a fight that ended so.
pub open spec fn survived(e: CombatEnd) -> bool {
    e == CombatEnd::Won || e == CombatEnd::Fled || e == CombatEnd::Hid
}

pub fn survives(e: CombatEnd) -> (r: bool)
    ensures
        r == survived(e),
{
    match e {
        CombatEnd::Won | CombatEnd::Fled | CombatEnd::Hid => true,
        _ => false,
    }
}

#[derive(Clone, Copy, Debug, PartialEq, Eq, Structural)]
pub enum CombatAction {
    Attack,
    Eat,
    GiveUp,
    Flee,
    Hide,
}

/// The action at position `i` of the fight menu: attack, eat and give up,
/// then flee and hide where fleeing is allowed.
pub open spec fn action_of(can_flee: bool, i: int) -> Option<CombatAction> {
    if i == 0 {
        Some(CombatAction::Attack)
    } else if i == 1 {
        Some(CombatAction::Eat)
    } else if i == 2 {
        Some(CombatAction::GiveUp)
    } else if can_flee && i == 3 {
        Some(CombatAction::Flee)
    } else if can_flee && i == 4 {
        Some(CombatAction::Hide)
    } else {
        None
    }
}

pub open spec fn action_label(a: CombatAction) -> Seq<char> {
    match a {
        CombatAction::Attack => "Attack"@,
        CombatAction::Eat => "Eat"@,
        CombatAction::GiveUp => "Give up"@,
        CombatAction::Flee => "Flee"@,
        CombatAction::Hide => "Hide"@,
    }
}

/// The cost shown beside an action in the fight menu.
pub open spec fn action_cost(a: CombatAction) -> Seq<char> {
    match a {
        CombatAction::Attack => "1 stamina"@,
        CombatAction::Eat => "1 stamina"@,
        CombatAction::GiveUp => "0 stamina"@,
        CombatAction::Flee => "5 stamina"@,
        CombatAction::Hide => "3 stamina"@,
    }
}

/// Percent chance to hide: half of the player's luck, with luck counted up
/// to 100.
pub open spec fn hide_chance(luck: int) -> int {
    trunc_div(vstd::math::min(luck, 100), 2)
}

/// Whether a hiding attempt succeeds on a draw `r` from `[0, 100)`.
pub open spec fn hides(luck: int, r: int) -> bool {
    r < hide_chance(luck)
}

pub fn hide_succeeds(luck: i32, r: i32) -> (ok: bool)
    ensures
        ok == hides(luck as int, r as int),
{
    let capped: i32 = if luck < 100 { luck } else { 100 };
    let chance: i32 = if capped >= 0 { capped / 2 } else { -((-(capped as i64)) / 2) as i32 };
    r < chance
}

/// Health regained by eating `amount` food: `amount * 1.5`, rounded half up.
pub open spec fn meal_health(amount: int) -> int {
    (3 * amount + 1) / 2
}

/// How a player's blow of `dealt` on a monster with `health` left ends the
/// fight: it wins once the monster's health is gone.
pub open spec fn blow_outcome(health: int, dealt: int) -> Option<CombatEnd> {
    if health - dealt <= 0 {
        Some(CombatEnd::Won)
    } else {
        None
    }
}

/// A blow that takes a monster with 1 health left to 0 or below wins the fight.
pub proof fn lemma_lethal_blow(dealt: int)
    requires
        dealt >= 1,
    ensures
        blow_outcome(1, dealt) == Some(CombatEnd::Won),
{
}

/// The monster's blow on the player.
pub struct Strike {
    pub dealt: i32,
    /// The armor piece the blow destroyed, if any.
    pub destroyed: Option<String>,
    pub killed: bool,
}

/// What happens at the top of a round.
pub struct RoundStart {
    /// The monster's blow, when it attacked this round.
    pub strike: Option<Strike>,
    /// The end of the fight, when the round ended it.
    pub end: Option<CombatEnd>,
}

/// The player's blow on the monster.
pub struct AttackReport {
    pub dealt: i32,
    /// `"weapon"` when the blow wore the weapon out.
    pub destroyed: Option<String>,
    pub end: Option<CombatEnd>,
}

/// A fight in progress.
pub struct Combat {
    pub monster: Monster,
    /// The player's health in this fight; it starts at the gear's health.
    pub health: i32,
    /// Whether the monster attacks at the top of the next round.
    pub should_attack: bool,
    pub can_flee: bool,
}

impl GameState {
    /// The state after the player's blow: one stamina spent and the weapon
    /// worn; when the blow won, the monster's reward paid in money and ten
    /// times over in experience.
    pub open spec fn after_attack(self, reward: int, won: bool) -> GameState {
        let worn = GameState {
            stamina: (self.stamina - 1) as i32,
            gear: self.gear.worn(Slot::Weapon),
            ..self
        };
        if won {
            let (l, e) = level_up(worn.level as int, worn.exp + 10 * reward);
            GameState {
                level: l as i32,
                exp: e as i32,
                money: (worn.money + reward) as i32,
                ..worn
            }
        } else {
            worn
        }
    }
}

impl Combat {
    pub open spec fn wf(self) -> bool {
        &&& self.monster.wf()
        &&& -HEALTH_CAP <= self.health <= HEALTH_CAP
    }

    /// A fight with a fresh monster of `kind` at the player's level. The
    /// monster strikes first.
    pub fn start(game: &GameState, kind: MonsterTypes, can_flee: bool) -> (c: Combat)
        requires
            game.roomy(),
        ensures
            c.wf(),
            c.monster.rolled_at(game.level as int, kind),
            c.health == game.gear.total_health(),
            c.should_attack,
            c.can_flee == can_flee,
    {
        let monster = Monster::new(game.level, kind);
        let health = game.gear.final_stats().health;
        Combat { monster, health, should_attack: true, can_flee }
    }

    /// The labels and costs of the fight menu.
    pub fn menu(&self) -> (m: Vec<(String, String)>)
        ensures
            m@.len() == (if self.can_flee { 5int } else { 3 }),
            forall|i: int|
                0 <= i < m@.len() ==> #[trigger] m@[i].0@ == action_label(
                    action_of(self.can_flee, i)->0,
                ) && m@[i].1@ == action_cost(action_of(self.can_flee, i)->0),
    {
        let mut m: Vec<(String, String)> = Vec::new();
        m.push((String::from_str("Attack"), String::from_str("1 stamina")));
        m.push((String::from_str("Eat"), String::from_str("1 stamina")));
        m.push((String::from_str("Give up"), String::from_str("0 stamina")));
        if self.can_flee {
            m.push((String::from_str("Flee"), String::from_str("5 stamina")));
            m.push((String::from_str("Hide"), String::from_str("3 stamina")));
        }
        m
    }

    pub fn action_at(&self, index: usize) -> (a: Option<CombatAction>)
        ensures
            a == action_of(self.can_flee, index as int),
    {
        if index == 0 {
            Some(CombatAction::Attack)
        } else if index == 1 {
            Some(CombatAction::Eat)
        } else if index == 2 {
            Some(CombatAction::GiveUp)
        } else if self.can_flee && index == 3 {
            Some(CombatAction::Flee)
        } else if self.can_flee && index == 4 {
            Some(CombatAction::Hide)
        } else {
            None
        }
    }

    /// The monster strikes: `calculate_dmg(monster.damage, 0, armor)` off the
    /// player's health. Unless that kills, one armor slot takes a hit.
    pub fn monster_attack(&mut self, gear: &mut Gear) -> (s: Strike)
        requires
            old(self).wf(),
            old(gear).wf(),
            old(self).health > 0,
        ensures
            final(gear).wf(),
            is_blow(s.dealt as int, old(self).monster.damage as int, 0, old(gear).total_armor()),
            *final(self) == (Combat { health: (old(self).health - s.dealt) as i32, ..*old(self) }),
            s.killed == (final(self).health <= 0),
            s.killed ==> *final(gear) == *old(gear) && s.destroyed is None,
            !s.killed ==> exists|slot: Slot|
                #![auto]
                is_armor_slot(slot) && *final(gear) == old(gear).worn(slot) && (s.destroyed is Some
                    <==> old(gear).breaks(slot)) && (s.destroyed matches Some(name) ==> name@
                    == piece_name(slot)),
    {
        let armor = gear.final_stats().armor;
        let dealt = calculate_dmg(self.monster.damage, 0, armor);
        self.health = self.health - dealt;
        if self.health <= 0 {
            Strike { dealt, destroyed: None, killed: true }
        } else {
            let destroyed = gear.take_damage();
            Strike { dealt, destroyed, killed: false }
        }
    }

    /// The top of a round: the monster strikes if it is its turn, then the
    /// player must have more than 1 stamina to act.
    pub fn open_round(&mut self, game: &mut GameState) -> (r: RoundStart)
        requires
            old(self).wf(),
            old(game).roomy(),
            old(self).health > 0,
        ensures
            final(game).roomy(),
            final(self).monster == old(self).monster,
            final(self).can_flee == old(self).can_flee,
            r.strike is Some == old(self).should_attack,
            r.strike is None ==> final(self).health == old(self).health && *final(game) == *old(game),
            r.strike matches Some(s) ==> final(self).health == old(self).health - s.dealt && s.dealt
                >= 0 && (*final(game) == (GameState { gear: final(game).gear, ..*old(game) }))
                && is_blow(
                s.dealt as int,
                old(self).monster.damage as int,
                0,
                old(game).gear.total_armor(),
            ) && s.killed == (final(self).health <= 0),
            r.strike matches Some(s) && s.killed ==> final(game).gear == old(game).gear,
            r.strike matches Some(s) ==> (!s.killed ==> exists|slot: Slot|
                #![auto]
                is_armor_slot(slot) && final(game).gear == old(game).gear.worn(slot) && (
                s.destroyed is Some <==> old(game).gear.breaks(slot))),
            r.end == (if r.strike matches Some(s) && s.killed {
                Some(CombatEnd::Died)
            } else if old(game).stamina <= 1 {
                Some(CombatEnd::Exhausted)
            } else {
                None
            }),
            r.end is None ==> final(self).should_attack && final(self).wf() && final(self).health > 0,
    {
        let mut strike = None;
        if self.should_attack {
            let s = self.monster_attack(&mut game.gear);
            if s.killed {
                return RoundStart { strike: Some(s), end: Some(CombatEnd::Died) };
            }
            strike = Some(s);
        }
        self.should_attack = true;
        if game.stamina <= 1 {
            return RoundStart { strike, end: Some(CombatEnd::Exhausted) };
        }
        RoundStart { strike, end: None }
    }

    /// The player's blow once its damage is known: it comes off the monster's
    /// health, costs one stamina and wears the weapon; when the monster's
    /// health is gone the fight is won and its reward paid.
    pub fn strike_back(&mut self, game: &mut GameState, dealt: i32) -> (r: (
        Option<String>,
        Option<CombatEnd>,
    ))
        requires
            old(self).wf(),
            old(game).roomy(),
            old(game).stamina > 1,
            dealt >= 0,
        ensures
            final(self).monster.health == old(self).monster.health - dealt,
            final(self).monster.reward == old(self).monster.reward,
            final(self).health == old(self).health,
            r.1 == blow_outcome(old(self).monster.health as int, dealt as int),
            *final(game) == old(game).after_attack(
                old(self).monster.reward as int,
                r.1 == Some(CombatEnd::Won),
            ),
            final(game).wf(),
            r.0 is Some <==> old(game).gear.breaks(Slot::Weapon),
            r.0 matches Some(name) ==> name@ == piece_name(Slot::Weapon),
            r.1 is None ==> final(self).wf() && final(game).roomy(),
    {
        self.monster.health = self.monster.health - dealt;
        game.stamina = game.stamina - 1;
        let destroyed = game.gear.weapon_take_dmg();
        if self.monster.health <= 0 {
            let reward = self.monster.reward;
            game.get_exp(reward * 10);
            game.money = game.money + reward;
            (destroyed, Some(CombatEnd::Won))
        } else {
            (destroyed, None)
        }
    }

    /// The player attacks: `calculate_dmg` of the gear's damage and luck
    /// against the monster's armor.
    pub fn attack(&mut self, game: &mut GameState) -> (r: AttackReport)
        requires
            old(self).wf(),
            old(game).roomy(),
            old(game).stamina > 1,
        ensures
            is_blow(
                r.dealt as int,
                old(game).gear.total_damage(),
                old(game).gear.total_luck(),
                old(self).monster.armor as int,
            ),
            final(self).monster.health == old(self).monster.health - r.dealt,
            final(self).health == old(self).health,
            r.end == blow_outcome(old(self).monster.health as int, r.dealt as int),
            *final(game) == old(game).after_attack(
                old(self).monster.reward as int,
                r.end == Some(CombatEnd::Won),
            ),
            final(game).wf(),
            r.destroyed is Some <==> old(game).gear.breaks(Slot::Weapon),
            r.end is None ==> final(self).wf() && final(game).roomy(),
    {
        let stats = game.gear.final_stats();
        let dealt = calculate_dmg(stats.damage, stats.luck, self.monster.armor);
        let (destroyed, end) = self.strike_back(game, dealt);
        AttackReport { dealt, destroyed, end }
    }

    /// The player eats `amount` food in the fight: the meal restores
    /// `meal_health(amount)` health on top of what eating gives, and the
    /// monster does not strike next round.
    pub fn eat(&mut self, game: &mut GameState, amount: i32) -> (r: Result<(), FoodError>)
        requires
            old(self).wf(),
            old(game).roomy(),
        ensures
            r == old(game).eat_outcome(amount as int),
            r is Ok ==> *final(game) == old(game).fed(amount as int) && *final(self) == (Combat {
                health: (old(self).health + meal_health(amount as int)) as i32,
                should_attack: false,
                ..*old(self)
            }),
            r is Err ==> *final(game) == *old(game) && *final(self) == *old(self),
            final(game).wf(),
    {
        let r = game.eat(amount);
        if r.is_ok() {
            self.health = self.health + (3 * amount + 1) / 2;
            self.should_attack = false;
        }
        r
    }

    /// The monster does not strike next round (the player backed out of a
    /// choice that had no effect).
    pub fn skip_attack(&mut self)
        ensures
            *final(self) == (Combat { should_attack: false, ..*old(self) }),
    {
        self.should_attack = false;
    }

    /// Running away costs 5 stamina and needs at least 7. Without it the
    /// player stays, and the monster does not strike next round.
    pub fn flee(&mut self, game: &mut GameState) -> (r: Option<CombatEnd>)
        requires
            old(game).roomy(),
            old(self).can_flee,
        ensures
            r == (if old(game).stamina >= 7 { Some(CombatEnd::Fled) } else { None }),
            r is Some ==> *final(game) == (GameState {
                stamina: (old(game).stamina - 5) as i32,
                ..*old(game)
            }) && *final(self) == *old(self),
            r is None ==> *final(game) == *old(game) && *final(self) == (Combat {
                should_attack: false,
                ..*old(self)
            }),
    {
        if game.stamina < 7 {
            self.should_attack = false;
            return None;
        }
        game.stamina = game.stamina - 5;
        Some(CombatEnd::Fled)
    }

    /// Hiding once the draw `r` from `[0, 100)` is known: it costs 3 stamina
    /// and needs at least 4; it succeeds when `r` is below the hiding chance.
    /// A failed attempt leaves the monster to strike; without the stamina the
    /// monster does not strike next round.
    pub fn hide_with_roll(&mut self, game: &mut GameState, r: i32) -> (end: Option<CombatEnd>)
        requires
            old(game).roomy(),
            old(self).can_flee,
        ensures
            old(game).stamina < 4 ==> end is None && *final(game) == *old(game) && *final(self)
                == (Combat { should_attack: false, ..*old(self) }),
            old(game).stamina >= 4 ==> *final(game) == (GameState {
                stamina: (old(game).stamina - 3) as i32,
                ..*old(game)
            }) && *final(self) == (Combat { should_attack: true, ..*old(self) }) && end == (if hides(
                old(game).gear.total_luck(),
                r as int,
            ) {
                Some(CombatEnd::Hid)
            } else {
                None
            }),
    {
        if game.stamina < 4 {
            self.should_attack = false;
            return None;
        }
        game.stamina = game.stamina - 3;
        self.should_attack = true;
        let luck = game.gear.final_stats().luck;
        if hide_succeeds(luck, r) {
            Some(CombatEnd::Hid)
        } else {
            None
        }
    }

    /// Tries to hide, with a draw from `[0, 100)`.
    pub fn attempt_hide(&mut self, game: &mut GameState) -> (end: Option<CombatEnd>)
        requires
            old(game).roomy(),
            old(self).can_flee,
        ensures
            old(game).stamina < 4 ==> end is None && *final(game) == *old(game) && *final(self)
                == (Combat { should_attack: false, ..*old(self) }),
            old(game).stamina >= 4 ==> *final(game) == (GameState {
                stamina: (old(game).stamina - 3) as i32,
                ..*old(game)
            }) && *final(self) == (Combat { should_attack: true, ..*old(self) }) && (exists|r: int|
                0 <= r < 100 && end == (if #[trigger] hides(old(game).gear.total_luck(), r) {
                    Some(CombatEnd::Hid)
                } else {
                    None
                })),
    {
        let r = roll(0, 100);
        let end = self.hide_with_roll(game, r);
        assert(old(game).stamina >= 4 ==> 0 <= r < 100 && end == (if hides(
            old(game).gear.total_luck(),
            r as int,
        ) {
            Some(CombatEnd::Hid)
        } else {
            None
        }));
        end
    }
}

} // verus!
