use dungeon_rpg::communication::{confirms, index_below, is_exit, match_command, select_choice, starts_with};
use dungeon_rpg::display::{cmp_color, cmp_color_inverse, int_text, paint_int};
use dungeon_rpg::communication::Colors;
use dungeon_rpg::items::{Body, Head, Legs, Stats, Weapon};
use dungeon_rpg::monster::Monster;

fn labels(v: &[&str]) -> Vec<String> {
    v.iter().map(|s| s.to_string()).collect()
}

#[test]
fn command_prefix_selects_one() {
    let camp = labels(&["Shop", "Cook", "Dungeon", "Inspect", "Exit"]);
    assert_eq!(match_command("sh", &camp), Some(0));
    assert_eq!(match_command("d", &camp), Some(2));
    assert_eq!(match_command("exit", &camp), Some(4));
    assert_eq!(match_command("", &camp), None);
    assert_eq!(match_command("x", &camp), None);
    assert_eq!(match_command("SH", &camp), Some(0));
    assert_eq!(match_command("dUn", &camp), Some(2));
}

#[test]
fn command_labels_are_lowercased() {
    let upper = labels(&["SHOP", "COOK"]);
    assert_eq!(match_command("sh", &upper), Some(0));
    assert_eq!(match_command("c", &upper), Some(1));
}

#[test]
fn ambiguous_command_selects_none() {
    let v = labels(&["Small Room", "Shop", "Big Room"]);
    assert_eq!(match_command("s", &v), None);
    assert_eq!(match_command("sm", &v), Some(0));
    assert_eq!(match_command("b", &v), Some(2));
}

#[test]
fn exit_aliases() {
    assert!(is_exit("exit"));
    assert!(is_exit("ex"));
    assert!(is_exit("q"));
    assert!(is_exit("quit"));
    assert!(!is_exit(""));
    assert!(!is_exit("exits"));
    assert!(!is_exit("help"));
    assert!(is_exit("EXIT"));
    assert!(is_exit("Qu"));
}

#[test]
fn yes_and_no() {
    assert!(confirms("y"));
    assert!(confirms("yes"));
    assert!(!confirms("n"));
    assert!(!confirms(""));
    assert!(!confirms("maybe"));
    assert!(confirms("YES"));
}

#[test]
fn choice_by_number_or_name() {
    let v = labels(&["Attack", "Eat", "Give up"]);
    assert_eq!(select_choice("2", &v), Some(2));
    assert_eq!(select_choice("+1", &v), Some(1));
    assert_eq!(select_choice("3", &v), None);
    assert_eq!(select_choice("-1", &v), None);
    assert_eq!(select_choice("g", &v), Some(2));
    assert_eq!(select_choice("ATT", &v), Some(0));
    assert_eq!(select_choice("", &v), None);
    assert_eq!(index_below("007", 10), Some(7));
    assert_eq!(index_below("18446744073709551616", usize::MAX), None);
    assert_eq!(index_below("1a", 10), None);
    assert_eq!(index_below("+", 10), None);
    assert!(starts_with("Shop", "Sh"));
    assert!(!starts_with("Sh", "Shop"));
}

#[test]
fn sheets_without_colour() {
    colored::control::set_override(false);
    let w = Weapon { damage: 3, luck: 9, durability: 6, original_durability: 12, cost: 10 };
    assert_eq!(w.to_string(), " - Damage: 3\n - Luck: 9\n - Durability: 6\n - Cost: 5");
    let b = Body { armor: 1, health: 2, damage: 3, speed: 4, durability: 5, original_durability: 5, cost: 7 };
    assert_eq!(
        b.to_string(),
        " - Armor: 1\n - Health: 2\n - Damage: 3\n - Speed: 4\n - Durability: 5\n - Cost: 7"
    );
    let h = Head { luck: 1, armor: 2, damage: 3, durability: 1, original_durability: 3, cost: 8 };
    assert_eq!(h.to_string(), " - Luck: 1\n - Armor: 2\n - Damage: 3\n - Durability: 1\n - Cost: 3");
    let l = Legs { speed: 1, armor: 2, health: 3, luck: 4, durability: 2, original_durability: 2, cost: 6 };
    assert_eq!(
        l.to_string(),
        " - Speed: 1\n - Armor: 2\n - Health: 3\n - Luck: 4\n - Durability: 2\n - Cost: 6"
    );
    let s = Stats { damage: 5, luck: -1, armor: 0, speed: 2, health: 100 };
    assert_eq!(s.to_string(), " - Damage: 5\n - Luck: -1\n - Armor: 0\n - Speed: 2\n - Health: 100");
    let m = Monster { health: 12, damage: 4, armor: 1, reward: 3 };
    assert_eq!(m.to_string(), " - Health: 12\n - Damage: 4\n - Armor: 1\n - Reward: 3");
}

#[test]
fn comparison_without_colour() {
    colored::control::set_override(false);
    let a = Weapon { damage: 3, luck: 9, durability: 6, original_durability: 12, cost: 10 };
    let b = Weapon { damage: 4, luck: 9, durability: 2, original_durability: 2, cost: 8 };
    assert_eq!(a.cmp(&b), " - Damage: 3 | 4\n - Luck: 9 | 9\n - Durability: 6 | 2\n - Cost: 10 | 8");
}

#[test]
fn comparison_colours() {
    colored::control::set_override(true);
    assert_eq!(cmp_color(3, 4), "\x1b[31m3\x1b[0m");
    assert_eq!(cmp_color(4, 4), "\x1b[33m4\x1b[0m");
    assert_eq!(cmp_color(5, 4), "\x1b[32m5\x1b[0m");
    assert_eq!(cmp_color_inverse(3, 4), "\x1b[32m3\x1b[0m");
    assert_eq!(cmp_color_inverse(5, 4), "\x1b[31m5\x1b[0m");
    assert_eq!(paint_int(-12, Colors::Cyan), "\x1b[36m-12\x1b[0m");
    let a = Head { luck: 1, armor: 2, damage: 3, durability: 1, original_durability: 3, cost: 8 };
    let b = Head { luck: 2, armor: 2, damage: 1, durability: 1, original_durability: 3, cost: 9 };
    assert_eq!(
        a.cmp(&b),
        " - Luck: \x1b[31m1\x1b[0m | \x1b[32m2\x1b[0m\n - Armor: \x1b[33m2\x1b[0m | \x1b[33m2\x1b[0m\n - Damage: \x1b[32m3\x1b[0m | \x1b[31m1\x1b[0m\n - Durability: \x1b[33m1\x1b[0m | \x1b[33m1\x1b[0m\n - Cost: \x1b[32m8\x1b[0m | \x1b[31m9\x1b[0m"
    );
}

#[test]
fn integers_in_decimal() {
    assert_eq!(int_text(0), "0");
    assert_eq!(int_text(7), "7");
    assert_eq!(int_text(1234), "1234");
    assert_eq!(int_text(-7), "-7");
    assert_eq!(int_text(i32::MIN), "-2147483648");
    assert_eq!(int_text(i32::MAX), "2147483647");
}
