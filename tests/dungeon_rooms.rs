use dungeon_rpg::dungeon::{
    chest_from_rolls, choice_at, dungeon_menu, get_rooms, plan_from_rolls, plan_room,
    potion_from_rolls, room_count_from_roll, room_from_roll, rooms_from_rolls, rooms_into_strings,
    ChestRound, DungeonChoice, Expedition, Loot, RoomPlan, RoomType, VisitStep,
};
use dungeon_rpg::items::{Gear, Legs};
use dungeon_rpg::monster::MonsterTypes;
use dungeon_rpg::state::{FoodInfo, GameState, Shop};

fn game(stamina: i32, legs: Option<Legs>) -> GameState {
    GameState {
        gear: Gear { weapon: None, body: None, head: None, legs },
        money: 0,
        food: FoodInfo { quantity: 0, currently_cooking: None, cooking_end_time: None },
        shop: Shop {
            gear: Gear { weapon: None, body: None, head: None, legs: None },
            food: 0,
            last_update: 1,
        },
        stamina,
        won: 0,
        level: 4,
        exp: 0,
    }
}

#[test]
fn room_weights_over_the_draw_range() {
    let mut counts = [0usize; 5];
    for r in 0..70 {
        let i = match room_from_roll(r) {
            RoomType::Treasure => 0,
            RoomType::Escape => 1,
            RoomType::Final => 2,
            RoomType::Big => 3,
            RoomType::Small => 4,
        };
        counts[i] += 1;
    }
    assert_eq!(counts, [10, 1, 5, 24, 30]);
}

#[test]
fn room_frequencies_converge() {
    let mut counts = [0usize; 5];
    let mut total = 0usize;
    while total < 100_000 {
        for room in get_rooms() {
            let i = match room {
                RoomType::Treasure => 0,
                RoomType::Escape => 1,
                RoomType::Final => 2,
                RoomType::Big => 3,
                RoomType::Small => 4,
            };
            counts[i] += 1;
            total += 1;
        }
    }
    let weights = [10.0, 1.0, 5.0, 24.0, 30.0];
    for i in 0..5 {
        let freq = counts[i] as f64 / total as f64;
        assert!((freq - weights[i] / 70.0).abs() < 0.01, "room kind {} at {}", i, freq);
    }
}

#[test]
fn room_count_is_two_or_three() {
    assert_eq!(room_count_from_roll(0), 2);
    assert_eq!(room_count_from_roll(3), 2);
    assert_eq!(room_count_from_roll(4), 3);
    assert_eq!(room_count_from_roll(10), 3);
    for _ in 0..1000 {
        let n = get_rooms().len();
        assert!(n == 2 || n == 3);
    }
}

#[test]
fn room_labels_and_menu() {
    let rooms = vec![RoomType::Small, RoomType::Escape, RoomType::Final];
    assert_eq!(rooms_into_strings(&rooms), vec!["Small Room", "Escape passage", "Final Room"]);
    let menu = dungeon_menu(&vec![RoomType::Big, RoomType::Treasure]);
    assert_eq!(menu, vec!["Big Room", "Treasure Room", "Flee", "Eat", "Inspect"]);
    let rooms = vec![RoomType::Big, RoomType::Treasure];
    assert_eq!(choice_at(&rooms, 1), Some(DungeonChoice::Room(RoomType::Treasure)));
    assert_eq!(choice_at(&rooms, 2), Some(DungeonChoice::Flee));
    assert_eq!(choice_at(&rooms, 3), Some(DungeonChoice::Eat));
    assert_eq!(choice_at(&rooms, 4), Some(DungeonChoice::Inspect));
    assert_eq!(choice_at(&rooms, 5), None);
}

#[test]
fn room_plans_by_draw() {
    let p = plan_from_rolls(RoomType::Small, 0, 0);
    assert_eq!((p.fight, p.can_flee, p.chest, p.wins), (Some(MonsterTypes::Small), true, Some(false), false));
    let p = plan_from_rolls(RoomType::Small, 1, 2);
    assert_eq!((p.fight, p.chest), (None, None));
    let p = plan_from_rolls(RoomType::Big, 0, 0);
    assert_eq!((p.fight, p.chest), (Some(MonsterTypes::Small), None));
    let p = plan_from_rolls(RoomType::Big, 1, 0);
    assert_eq!((p.fight, p.chest), (Some(MonsterTypes::Big), Some(true)));
    let p = plan_from_rolls(RoomType::Big, 2, 0);
    assert_eq!((p.fight, p.chest), (Some(MonsterTypes::Big), None));
    let p = plan_from_rolls(RoomType::Treasure, 1, 0);
    assert_eq!((p.fight, p.chest), (None, Some(true)));
    let p = plan_from_rolls(RoomType::Treasure, 0, 0);
    assert_eq!((p.fight, p.chest), (None, Some(false)));
    let p = plan_from_rolls(RoomType::Final, 0, 0);
    assert_eq!((p.fight, p.can_flee, p.chest, p.wins), (Some(MonsterTypes::Big), false, Some(true), true));
    let p = plan_room(RoomType::Escape);
    assert_eq!((p.fight, p.chest, p.wins), (None, None, false));
}

#[test]
fn entering_rooms_costs_stamina() {
    let mut g = game(20, None);
    let mut e = Expedition { room_count: 0, rooms: vec![RoomType::Small] };
    e.enter(&mut g, RoomType::Small);
    e.enter(&mut g, RoomType::Big);
    e.enter(&mut g, RoomType::Treasure);
    assert_eq!(g.stamina, 12);
    assert_eq!(e.room_count, 3);
    e.enter(&mut g, RoomType::Final);
    assert_eq!(g.stamina, 11);
    assert_eq!(e.room_count, 3);
}

#[test]
fn fleeing_the_dungeon_beyond_speed() {
    let legs = Legs { speed: 1, armor: 0, health: 0, luck: 0, durability: 2, original_durability: 2, cost: 3 };
    let mut g = game(10, Some(legs));
    let e = Expedition { room_count: 3, rooms: vec![] };
    assert!(e.flee(&mut g));
    assert_eq!(g.stamina, 8);
    let mut g = game(2, None);
    assert!(!e.flee(&mut g));
    assert_eq!(g.stamina, 2);
    let mut g = game(5, None);
    let e = Expedition { room_count: 0, rooms: vec![] };
    assert!(e.flee(&mut g));
    assert_eq!(g.stamina, 5);
}

#[test]
fn expedition_menu_and_reshuffle() {
    let mut e = Expedition::new();
    assert_eq!(e.room_count, 0);
    assert_eq!(e.menu().len(), e.rooms.len() + 3);
    e.room_count = 2;
    e.reshuffle();
    assert_eq!(e.room_count, 2);
    assert!(e.rooms.len() == 2 || e.rooms.len() == 3);
    assert_eq!(e.choice(e.rooms.len()), Some(DungeonChoice::Flee));
}

#[test]
fn small_chest_holds_one_draw() {
    for _ in 0..300 {
        let mut g = game(10, None);
        let before = g;
        let found = g.open_chest(false);
        assert_eq!(found.len(), 1);
        match found[0] {
            Loot::StaminaPotion(n) => assert!((3..10).contains(&n) && g.stamina == before.stamina + n),
            Loot::FoodPotion(n) => assert!((2..6).contains(&n) && g.food.quantity == n),
            Loot::WealthPotion(n) => assert!((5..10).contains(&n) && g.money == n),
            Loot::Coins(n) => assert!((0..14).contains(&n) && g.money == n),
            Loot::Nothing => assert_eq!(g, before),
        }
    }
}

#[test]
fn big_chest_holds_up_to_six_finds() {
    let mut sizes = [0usize; 7];
    for _ in 0..2000 {
        let mut g = game(10, None);
        let found = g.open_chest(true);
        assert!(found.len() <= 6);
        sizes[found.len()] += 1;
        let mut money = 0;
        let mut stamina = 10;
        let mut food = 0;
        for l in &found {
            match *l {
                Loot::StaminaPotion(n) => stamina += n,
                Loot::FoodPotion(n) => food += n,
                Loot::WealthPotion(n) => money += n,
                Loot::Coins(n) => {
                    assert!((0..24).contains(&n));
                    money += n;
                }
                Loot::Nothing => panic!("a big chest lists only what it gave"),
            }
        }
        assert_eq!((g.money, g.stamina, g.food.quantity), (money, stamina, food));
    }
    assert!(sizes[3] > sizes[0] && sizes[3] > sizes[6]);
    assert!(sizes[4] > 0 && sizes[2] > 0);
}

#[test]
fn potion_and_win_counter() {
    let mut g = game(10, None);
    let l = g.get_potion();
    assert!(matches!(l, Loot::StaminaPotion(_) | Loot::FoodPotion(_) | Loot::WealthPotion(_)));
    g.record_win();
    g.record_win();
    assert_eq!(g.won, 2);
}

fn round(first: i32, potion_kind: i32, potion_amount: i32, second: i32, coins: i32) -> ChestRound {
    ChestRound { first, potion_kind, potion_amount, second, coins }
}

#[test]
fn potions_by_draw() {
    assert_eq!(potion_from_rolls(0, 7), Loot::StaminaPotion(7));
    assert_eq!(potion_from_rolls(1, 3), Loot::FoodPotion(3));
    assert_eq!(potion_from_rolls(2, 9), Loot::WealthPotion(9));
}

#[test]
fn small_chest_by_draw() {
    assert_eq!(chest_from_rolls(false, &vec![round(0, 1, 4, 1, 0)]), vec![Loot::FoodPotion(4)]);
    assert_eq!(chest_from_rolls(false, &vec![round(1, 0, 3, 1, 12)]), vec![Loot::Coins(12)]);
    assert_eq!(chest_from_rolls(false, &vec![round(2, 0, 3, 0, 5)]), vec![Loot::Nothing]);
}

#[test]
fn big_chest_by_draw() {
    let rounds = vec![round(0, 2, 6, 0, 17), round(1, 0, 3, 1, 0), round(1, 0, 3, 0, 2)];
    assert_eq!(
        chest_from_rolls(true, &rounds),
        vec![Loot::WealthPotion(6), Loot::Coins(17), Loot::Coins(2)]
    );
    let rounds = vec![round(0, 0, 5, 1, 0), round(0, 1, 2, 1, 0), round(1, 0, 3, 1, 0)];
    assert_eq!(chest_from_rolls(true, &rounds), vec![Loot::StaminaPotion(5), Loot::FoodPotion(2)]);
}

#[test]
fn rooms_by_draw() {
    assert_eq!(rooms_from_rolls(2, &vec![5, 69, 0]), vec![RoomType::Treasure, RoomType::Small]);
    assert_eq!(
        rooms_from_rolls(9, &vec![10, 15, 39]),
        vec![RoomType::Escape, RoomType::Final, RoomType::Big]
    );
}

#[test]
fn finishing_a_room() {
    let plan = RoomPlan { fight: Some(MonsterTypes::Big), can_flee: false, chest: Some(true), wins: true };
    let mut g = game(10, None);
    let before = g;
    assert!(g.finish_room(plan, false).is_empty());
    assert_eq!(g, before);
    let found = g.finish_room(plan, true);
    assert!(found.len() <= 6);
    assert_eq!(g.won, 1);
    let plan = RoomPlan { fight: None, can_flee: true, chest: None, wins: false };
    let mut g = game(10, None);
    assert!(g.finish_room(plan, true).is_empty());
    assert_eq!(g, before);
}

#[test]
fn visit_after_a_room() {
    let mut e = Expedition { room_count: 2, rooms: vec![RoomType::Small, RoomType::Big] };
    assert_eq!(e.after_room(RoomType::Small, false), VisitStep::Lost);
    assert_eq!(e.after_room(RoomType::Final, true), VisitStep::Leave);
    assert_eq!(e.after_room(RoomType::Escape, true), VisitStep::Leave);
    assert_eq!(e.rooms, vec![RoomType::Small, RoomType::Big]);
    assert_eq!(e.after_room(RoomType::Treasure, true), VisitStep::Onward);
    assert_eq!(e.room_count, 2);
    assert!(e.rooms.len() == 2 || e.rooms.len() == 3);
}
