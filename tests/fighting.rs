use dungeon_rpg::combat::{hide_succeeds, Combat, CombatAction, CombatEnd};
use dungeon_rpg::items::{Gear, Weapon};
use dungeon_rpg::monster::{calculate_dmg, damage_from_rolls, Monster, MonsterTypes};
use dungeon_rpg::state::{FoodError, FoodInfo, GameState, Shop};

fn game_with(weapon: Option<Weapon>, stamina: i32, food: i32) -> GameState {
    GameState {
        gear: Gear { weapon, body: None, head: None, legs: None },
        money: 20,
        food: FoodInfo { quantity: food, currently_cooking: None, cooking_end_time: None },
        shop: Shop {
            gear: Gear { weapon: None, body: None, head: None, legs: None },
            food: 0,
            last_update: 1,
        },
        stamina,
        won: 0,
        level: 1,
        exp: 0,
    }
}

fn fight(monster: Monster, can_flee: bool) -> Combat {
    Combat { monster, health: 100, should_attack: true, can_flee }
}

#[test]
fn blow_formula_values() {
    assert_eq!(damage_from_rolls(10, 0, 0, 0, 50), 10);
    assert_eq!(damage_from_rolls(10, 100, 0, 0, 5), 20);
    assert_eq!(damage_from_rolls(10, 0, 70, 0, 50), 5);
    assert_eq!(damage_from_rolls(10, 0, 70, 3, 50), 6);
    assert_eq!(damage_from_rolls(0, 0, 0, -5, 50), 0);
    assert_eq!(damage_from_rolls(3, 0, 10, 9, 0), 10);
}

#[test]
fn blow_doubles_exactly_below_luck() {
    for luck in [0, 1, 37, 50, 100] {
        let doubled = (0..101).filter(|c| damage_from_rolls(20, luck, 0, 0, *c) == 40).count();
        assert_eq!(doubled, luck as usize);
    }
}

#[test]
fn blow_is_never_negative() {
    for _ in 0..5000 {
        assert!(calculate_dmg(0, 50, 0) >= 0);
        assert!(calculate_dmg(-3, 0, 200) >= 0);
        let d = calculate_dmg(10, 0, 0);
        assert!((5..20).contains(&d));
    }
}

#[test]
fn crit_frequency_follows_luck() {
    let trials = 100_000;
    let mut doubled = 0;
    for _ in 0..trials {
        if calculate_dmg(100, 50, 0) >= 190 {
            doubled += 1;
        }
    }
    let rate = doubled as f64 / trials as f64;
    assert!((rate - 50.0 / 101.0).abs() < 0.01);
}

#[test]
fn monster_budget_scales_with_kind() {
    assert_eq!(MonsterTypes::Small.into_budget(), 2);
    assert_eq!(MonsterTypes::Big.into_budget(), 5);
    for level in [1, 4, 9] {
        for kind in [MonsterTypes::Small, MonsterTypes::Big] {
            for _ in 0..300 {
                let m = Monster::new(level, kind);
                let base = m.health - (level / 2 + 10);
                let budget = base + m.damage + m.armor;
                let centre = level * kind.into_budget() + 5;
                assert!(budget >= centre - 5 && budget < centre + 6);
                assert!(base >= 0 && base < budget);
                assert!(m.damage >= 0 && m.damage < budget - base);
                assert_eq!(m.reward, budget / 2);
            }
        }
    }
}

#[test]
fn lethal_blow_on_last_health_wins() {
    let mut game = game_with(None, 10, 0);
    let mut c = fight(Monster { health: 1, damage: 3, armor: 0, reward: 7 }, true);
    let (_, end) = c.strike_back(&mut game, 1);
    assert_eq!(end, Some(CombatEnd::Won));
    assert_eq!(game.money, 27);
    assert_eq!(game.exp, 70);
    assert_eq!(game.stamina, 9);
}

#[test]
fn non_lethal_blow_keeps_fighting() {
    let mut game = game_with(Some(Weapon { damage: 2, luck: 0, durability: 1, original_durability: 4, cost: 5 }), 10, 0);
    let mut c = fight(Monster { health: 9, damage: 3, armor: 0, reward: 7 }, true);
    let (broken, end) = c.strike_back(&mut game, 4);
    assert_eq!(end, None);
    assert_eq!(broken, Some("weapon".to_string()));
    assert_eq!(c.monster.health, 5);
    assert_eq!(game.money, 20);
    assert!(game.gear.weapon.is_none());
}

#[test]
fn reward_levels_up_through_thresholds() {
    let mut game = game_with(None, 10, 0);
    let mut c = fight(Monster { health: 1, damage: 3, armor: 0, reward: 25 }, true);
    c.strike_back(&mut game, 5);
    assert_eq!(game.level, 3);
    assert_eq!(game.exp, 41);
}

#[test]
fn attack_with_overwhelming_damage_wins() {
    let mut game = game_with(Some(Weapon { damage: 500, luck: 0, durability: 9, original_durability: 9, cost: 5 }), 10, 0);
    let mut c = fight(Monster { health: 1, damage: 3, armor: 0, reward: 2 }, true);
    let report = c.attack(&mut game);
    assert!(report.dealt >= 1);
    assert_eq!(report.end, Some(CombatEnd::Won));
    assert_eq!(game.gear.weapon.unwrap().durability, 8);
}

#[test]
fn eating_in_combat_restores_health_and_skips_strike() {
    let mut game = game_with(None, 10, 5);
    let mut c = fight(Monster { health: 5, damage: 3, armor: 0, reward: 2 }, true);
    assert_eq!(c.eat(&mut game, 3), Ok(()));
    assert_eq!(c.health, 105);
    assert!(!c.should_attack);
    assert_eq!(game.food.quantity, 2);
    assert_eq!(game.stamina, 12);
    assert_eq!(c.eat(&mut game, 0), Err(FoodError::InvalidAmount));
    assert_eq!(c.eat(&mut game, 3), Err(FoodError::NotEnoughFood));
    assert_eq!(c.health, 105);
}

#[test]
fn round_without_stamina_is_exhaustion() {
    let mut game = game_with(None, 1, 0);
    let mut c = fight(Monster { health: 5, damage: 0, armor: 0, reward: 2 }, true);
    c.should_attack = false;
    let start = c.open_round(&mut game);
    assert!(start.strike.is_none());
    assert_eq!(start.end, Some(CombatEnd::Exhausted));
}

#[test]
fn monster_strike_takes_health() {
    let mut game = game_with(None, 10, 0);
    let mut c = fight(Monster { health: 5, damage: 20, armor: 0, reward: 2 }, true);
    let start = c.open_round(&mut game);
    let strike = start.strike.expect("the monster strikes first");
    assert!(strike.dealt >= 15 && strike.dealt < 30);
    assert_eq!(c.health, 100 - strike.dealt);
    assert_eq!(start.end, None);
    assert!(c.should_attack);
}

#[test]
fn lethal_monster_strike_is_death() {
    let mut game = game_with(None, 10, 0);
    let mut c = fight(Monster { health: 5, damage: 500, armor: 0, reward: 2 }, true);
    c.health = 1;
    let start = c.open_round(&mut game);
    assert!(start.strike.unwrap().killed);
    assert_eq!(start.end, Some(CombatEnd::Died));
}

#[test]
fn fleeing_needs_seven_stamina() {
    let mut game = game_with(None, 6, 0);
    let mut c = fight(Monster { health: 5, damage: 1, armor: 0, reward: 2 }, true);
    assert_eq!(c.flee(&mut game), None);
    assert!(!c.should_attack);
    assert_eq!(game.stamina, 6);
    game.stamina = 7;
    assert_eq!(c.flee(&mut game), Some(CombatEnd::Fled));
    assert_eq!(game.stamina, 2);
}

#[test]
fn hiding_depends_on_luck() {
    assert!(hide_succeeds(100, 49));
    assert!(!hide_succeeds(100, 50));
    assert!(hide_succeeds(500, 49));
    assert!(!hide_succeeds(500, 50));
    assert!(hide_succeeds(21, 9));
    assert!(!hide_succeeds(21, 10));
    assert!(!hide_succeeds(0, 0));
    let mut game = game_with(Some(Weapon { damage: 1, luck: 100, durability: 3, original_durability: 3, cost: 1 }), 4, 0);
    let mut c = fight(Monster { health: 5, damage: 1, armor: 0, reward: 2 }, true);
    c.should_attack = false;
    assert_eq!(c.hide_with_roll(&mut game, 10), Some(CombatEnd::Hid));
    assert_eq!(game.stamina, 1);
    let mut game = game_with(None, 3, 0);
    assert_eq!(c.hide_with_roll(&mut game, 10), None);
    assert!(!c.should_attack);
    assert_eq!(game.stamina, 3);
}

#[test]
fn failed_hiding_leaves_monster_to_strike() {
    let mut game = game_with(None, 9, 0);
    let mut c = fight(Monster { health: 5, damage: 1, armor: 0, reward: 2 }, true);
    c.should_attack = false;
    assert_eq!(c.attempt_hide(&mut game), None);
    assert!(c.should_attack);
    assert_eq!(game.stamina, 6);
}

#[test]
fn combat_menu_offers_escape_only_when_allowed() {
    let c = fight(Monster { health: 5, damage: 1, armor: 0, reward: 2 }, true);
    assert_eq!(c.menu().len(), 5);
    assert_eq!(c.action_at(3), Some(CombatAction::Flee));
    assert_eq!(c.action_at(4), Some(CombatAction::Hide));
    let c = fight(Monster { health: 5, damage: 1, armor: 0, reward: 2 }, false);
    assert_eq!(c.menu().len(), 3);
    assert_eq!(c.menu()[2].0, "Give up");
    assert_eq!(c.action_at(0), Some(CombatAction::Attack));
    assert_eq!(c.action_at(3), None);
}

#[test]
fn combat_starts_from_gear_health() {
    let game = GameState::new();
    let c = Combat::start(&game, MonsterTypes::Big, false);
    assert_eq!(c.health, game.gear.final_stats().health);
    assert!(c.should_attack);
    assert!(!c.can_flee);
}

#[test]
fn monster_from_given_draws() {
    assert_eq!(
        Monster::from_draws(4, MonsterTypes::Big, -3, 10, 5),
        Monster { health: 22, damage: 5, armor: 7, reward: 11 }
    );
    assert_eq!(
        Monster::from_draws(3, MonsterTypes::Small, 0, 0, 0),
        Monster { health: 11, damage: 0, armor: 11, reward: 5 }
    );
}
