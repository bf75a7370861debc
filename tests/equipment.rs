use dungeon_rpg::items::{calculate_cost, Body, Gear, Head, Legs, Slot, Weapon};

fn weapon(damage: i32, luck: i32, durability: i32, original: i32, cost: i32) -> Weapon {
    Weapon { damage, luck, durability, original_durability: original, cost }
}

fn body(durability: i32) -> Body {
    Body { armor: 4, health: 3, damage: 2, speed: 1, durability, original_durability: 8, cost: 12 }
}

fn head(durability: i32) -> Head {
    Head { luck: 5, armor: 2, damage: 1, durability, original_durability: 6, cost: 9 }
}

fn legs(durability: i32) -> Legs {
    Legs { speed: 3, armor: 2, health: 4, luck: 1, durability, original_durability: 5, cost: 11 }
}

#[test]
fn resale_rounds_to_nearest() {
    assert_eq!(calculate_cost(10, 5, 10), 5);
    assert_eq!(calculate_cost(7, 1, 2), 4);
    assert_eq!(calculate_cost(10, 1, 3), 3);
    assert_eq!(calculate_cost(11, 2, 3), 7);
    assert_eq!(calculate_cost(5, 1, 4), 1);
}

#[test]
fn resale_at_full_durability_is_cost() {
    for cost in 0..40 {
        for od in 1..20 {
            assert_eq!(calculate_cost(cost, od, od), cost);
        }
    }
}

#[test]
fn resale_at_no_durability_is_zero() {
    assert_eq!(calculate_cost(15, 0, 7), 0);
}

#[test]
fn generated_weapon_splits_its_budget() {
    for level in [1, 2, 5, 20, 100] {
        for _ in 0..500 {
            let w = Weapon::new(level);
            let budget = w.damage + w.luck;
            assert!(budget >= level + 5 && budget < level + 16);
            assert!(w.cost >= level + 5 && w.cost < level + 16);
            assert!(w.damage >= 0 && w.damage < budget);
            assert!(w.luck >= 1);
            assert_eq!(w.durability, w.original_durability);
            assert_eq!(w.durability, (3 * (level + 10 + w.cost - budget)).max(1));
        }
    }
}

#[test]
fn generated_body_splits_its_budget() {
    for level in [1, 3, 50] {
        for _ in 0..500 {
            let b = Body::new(level);
            let budget = b.armor + b.health + b.damage + b.speed;
            assert!(budget >= level + 5 && budget < level + 16);
            assert!(b.armor >= 0 && b.armor < budget);
            assert!(b.health >= 0 && b.health < budget - b.armor);
            assert!(b.damage >= 0 && b.damage < budget - b.armor - b.health);
            assert!(b.speed >= 1);
            assert_eq!(b.durability, (level + 10 + b.cost - budget).max(1));
        }
    }
}

#[test]
fn generated_head_and_legs_split_their_budget() {
    for level in [1, 7, 30] {
        for _ in 0..500 {
            let h = Head::new(level);
            let hb = h.luck + h.armor + h.damage;
            assert!(hb >= level + 5 && hb < level + 16);
            assert!(h.luck >= 0 && h.luck < hb);
            assert!(h.armor >= 0 && h.armor < hb - h.luck);
            assert!(h.damage >= 1);
            let l = Legs::new(level);
            let lb = l.speed + l.armor + l.health + l.luck;
            assert!(lb >= level + 5 && lb < level + 16);
            assert!(l.speed >= 0 && l.speed < lb);
            assert!(l.armor >= 0 && l.armor < lb - l.speed);
            assert!(l.health >= 0 && l.health < lb - l.speed - l.armor);
            assert!(l.luck >= 1);
            assert!(l.durability >= 1);
        }
    }
}

#[test]
fn final_stats_adds_worn_items() {
    let gear = Gear {
        weapon: Some(weapon(6, 4, 3, 3, 10)),
        body: Some(body(8)),
        head: Some(head(6)),
        legs: Some(legs(5)),
    };
    let s = gear.final_stats();
    assert_eq!(s.damage, 5 + 6 + 2);
    assert_eq!(s.luck, 4 + 2 * 5 + 1);
    assert_eq!(s.armor, 4 + 2 + 2);
    assert_eq!(s.speed, 1 + 3);
    assert_eq!(s.health, 100 + 3 + 4);
    let bare = Gear { weapon: None, body: None, head: None, legs: None };
    assert!(bare.is_empty());
    let b = bare.final_stats();
    assert_eq!((b.damage, b.luck, b.armor, b.speed, b.health), (5, 0, 0, 0, 100));
}

#[test]
fn weapon_breaks_at_last_point() {
    let mut gear = Gear { weapon: Some(weapon(6, 4, 2, 3, 10)), body: None, head: None, legs: None };
    assert_eq!(gear.weapon_take_dmg(), None);
    assert_eq!(gear.weapon.unwrap().durability, 1);
    assert_eq!(gear.weapon_take_dmg(), Some("weapon".to_string()));
    assert!(gear.weapon.is_none());
    assert_eq!(gear.weapon_take_dmg(), None);
}

#[test]
fn armor_hit_wears_one_slot() {
    let mut gear = Gear { weapon: None, body: Some(body(1)), head: Some(head(1)), legs: Some(legs(1)) };
    let msg = gear.take_damage().expect("every armor slot holds a piece with one point left");
    let left = [gear.body.is_some(), gear.head.is_some(), gear.legs.is_some()];
    assert_eq!(left.iter().filter(|x| **x).count(), 2);
    let expected = if gear.body.is_none() {
        "body armor"
    } else if gear.head.is_none() {
        "head armor"
    } else {
        "legs armor"
    };
    assert_eq!(msg, expected);
}

#[test]
fn armor_hit_on_empty_slots_changes_nothing() {
    let mut gear = Gear { weapon: Some(weapon(1, 1, 5, 5, 3)), body: None, head: None, legs: None };
    let before = gear;
    assert_eq!(gear.take_damage(), None);
    assert_eq!(gear, before);
}

#[test]
fn wear_decrements_and_removes() {
    let mut gear = Gear { weapon: None, body: Some(body(3)), head: None, legs: None };
    assert!(!gear.wear(Slot::Body));
    assert_eq!(gear.body.unwrap().durability, 2);
    assert!(!gear.wear(Slot::Head));
    assert!(!gear.wear(Slot::Body));
    assert!(gear.wear(Slot::Body));
    assert!(gear.body.is_none());
}

#[test]
fn slot_queries() {
    let gear = Gear { weapon: Some(weapon(1, 1, 1, 2, 8)), body: None, head: Some(head(3)), legs: None };
    assert_eq!(gear.held_slots(), vec![Slot::Weapon, Slot::Head]);
    assert_eq!(gear.cost_of(Slot::Head), Some(9));
    assert_eq!(gear.cost_of(Slot::Body), None);
    assert_eq!(gear.resale_of(Slot::Head), Some(5));
    assert_eq!(gear.resale_of(Slot::Weapon), Some(4));
    assert!(gear.holds_item(Slot::Weapon));
    assert!(!gear.holds_item(Slot::Legs));
}

#[test]
fn generation_from_given_draws() {
    assert_eq!(Weapon::from_draws(1, 0, 2, 4), weapon(4, 7, 39, 39, 13));
    assert_eq!(Weapon::from_draws(1, 5, -5, 0), weapon(0, 16, 3, 3, 6));
    assert_eq!(
        Body::from_draws(2, -1, 3, 4, 3, 2),
        Body { armor: 4, health: 3, damage: 2, speed: 2, durability: 16, original_durability: 16, cost: 15 }
    );
    assert_eq!(
        Head::from_draws(1, 0, 0, 5, 3),
        Head { luck: 5, armor: 3, damage: 3, durability: 11, original_durability: 11, cost: 11 }
    );
    assert_eq!(
        Legs::from_draws(3, 2, -2, 6, 4, 2),
        Legs { speed: 6, armor: 4, health: 2, luck: 3, durability: 9, original_durability: 9, cost: 11 }
    );
}
