//! Dungeon visits: room sampling, the fork menu, how each room plays out,
//! and treasure chests.

use vstd::prelude::*;
use vstd::string::StringExecFns;
use crate::dice::roll;
use crate::items::MAX_LEVEL;
use crate::monster::MonsterTypes;
use crate::state::{amount_ok, FoodInfo, GameState, MAX_AMOUNT};

verus! {

#[derive(Clone, Copy, Debug, PartialEq, Eq, Structural)]
pub enum RoomType {
    Small,
    Big,
    Treasure,
    Escape,
    Final,
}

/// The room that a draw from `[0, 70)` stands for: 10 in 70 treasure,
/// 1 in 70 escape, 5 in 70 final, 24 in 70 big, 30 in 70 small.
pub open spec fn room_of(r: int) -> RoomType {
    if r < 10 {
        RoomType::Treasure
    } else if r < 11 {
        RoomType::Escape
    } else if r < 16 {
        RoomType::Final
    } else if r < 40 {
        RoomType::Big
    } else {
        RoomType::Small
    }
}

/// How many rooms a visit offers for a draw from `[0, 11)`: three when the
/// draw is above 3, else two.
pub open spec fn rooms_for(r: int) -> int {
    if r > 3 {
        3
    } else {
        2
    }
}

pub fn room_from_roll(r: i32) -> (t: RoomType)
    ensures
        t == room_of(r as int),
{
    if r < 10 {
        RoomType::Treasure
    } else if r < 11 {
        RoomType::Escape
    } else if r < 16 {
        RoomType::Final
    } else if r < 40 {
        RoomType::Big
    } else {
        RoomType::Small
    }
}

pub fn room_count_from_roll(r: i32) -> (n: usize)
    ensures
        n == rooms_for(r as int),
{
    if r > 3 {
        3
    } else {
        2
    }
}

/// The rooms for a count draw `n` and room draws `rolls`: `rooms_for(n)`
/// rooms, the `i`-th being `room_of(rolls[i])`.
pub open spec fn rooms_of(n: int, rolls: Seq<i32>) -> Seq<RoomType> {
    Seq::new(rooms_for(n) as nat, |i: int| room_of(rolls[i] as int))
}

/// The rooms on offer once the draws are known.
pub fn rooms_from_rolls(count_roll: i32, rolls: &Vec<i32>) -> (rooms: Vec<RoomType>)
    requires
        rolls@.len() >= rooms_for(count_roll as int),
    ensures
        rooms@ == rooms_of(count_roll as int, rolls@),
{
    let room_num = room_count_from_roll(count_roll);
    let mut rooms: Vec<RoomType> = Vec::new();
    let mut room_count: usize = 0;
    while room_count < room_num
        invariant
            room_num == rooms_for(count_roll as int),
            rolls@.len() >= room_num,
            room_count <= room_num,
            rooms@ =~= rooms_of(count_roll as int, rolls@).take(room_count as int),
        decreases room_num - room_count,
    {
        rooms.push(room_from_roll(rolls[room_count]));
        room_count += 1;
    }
    assert(rooms@ =~= rooms_of(count_roll as int, rolls@));
    rooms
}

/// A fresh sample of the rooms ahead: the count drawn from `[0, 11)`, then
/// each room drawn on its own from `[0, 70)`, as `rooms_from_rolls` maps them.
pub fn get_rooms() -> (rooms: Vec<RoomType>)
    ensures
        rooms@.len() == 2 || rooms@.len() == 3,
        exists|n: int, rolls: Seq<i32>|
            0 <= n < 11 && rolls.len() == rooms_for(n) && (forall|i: int|
                0 <= i < rolls.len() ==> 0 <= #[trigger] rolls[i] < 70) && rooms@
                == #[trigger] rooms_of(n, rolls),
{
    let count_roll = roll(0, 11);
    let room_num = room_count_from_roll(count_roll);
    let mut rolls: Vec<i32> = Vec::new();
    let mut i: usize = 0;
    while i < room_num
        invariant
            room_num == rooms_for(count_roll as int),
            i <= room_num,
            rolls@.len() == i,
            forall|j: int| 0 <= j < i ==> 0 <= #[trigger] rolls@[j] < 70,
        decreases room_num - i,
    {
        rolls.push(roll(0, 70));
        i += 1;
    }
    let rooms = rooms_from_rolls(count_roll, &rolls);
    assert(0 <= count_roll < 11 && rolls@.len() == rooms_for(count_roll as int));
    rooms
}

pub open spec fn room_label(room: RoomType) -> Seq<char> {
    match room {
        RoomType::Small => "Small Room"@,
        RoomType::Big => "Big Room"@,
        RoomType::Treasure => "Treasure Room"@,
        RoomType::Escape => "Escape passage"@,
        RoomType::Final => "Final Room"@,
    }
}

fn room_name(room: RoomType) -> (r: &'static str)
    ensures
        r@ == room_label(room),
{
    match room {
        RoomType::Small => "Small Room",
        RoomType::Big => "Big Room",
        RoomType::Treasure => "Treasure Room",
        RoomType::Escape => "Escape passage",
        RoomType::Final => "Final Room",
    }
}

/// The menu label of each room, in order.
pub fn rooms_into_strings(rooms: &Vec<RoomType>) -> (names: Vec<String>)
    ensures
        names@.len() == rooms@.len(),
        forall|i: int| 0 <= i < rooms@.len() ==> #[trigger] names@[i]@ == room_label(rooms@[i]),
{
    let mut room_strings: Vec<String> = Vec::new();
    let mut i: usize = 0;
    while i < rooms.len()
        invariant
            i <= rooms@.len(),
            room_strings@.len() == i,
            forall|j: int| 0 <= j < i ==> #[trigger] room_strings@[j]@ == room_label(rooms@[j]),
        decreases rooms@.len() - i,
    {
        room_strings.push(String::from_str(room_name(rooms[i])));
        i += 1;
    }
    room_strings
}

/// What the player may do at a fork of the dungeon.
#[derive(Clone, Copy, Debug, PartialEq, Eq, Structural)]
pub enum DungeonChoice {
    Room(RoomType),
    Flee,
    Eat,
    Inspect,
}

/// The options after the rooms, always present and in this order.
pub open spec fn trailing_choice(k: int) -> DungeonChoice {
    if k == 0 {
        DungeonChoice::Flee
    } else if k == 1 {
        DungeonChoice::Eat
    } else {
        DungeonChoice::Inspect
    }
}

pub open spec fn choice_label(c: DungeonChoice) -> Seq<char> {
    match c {
        DungeonChoice::Room(room) => room_label(room),
        DungeonChoice::Flee => "Flee"@,
        DungeonChoice::Eat => "Eat"@,
        DungeonChoice::Inspect => "Inspect"@,
    }
}

/// The choice at position `i` of the menu over `rooms`.
pub open spec fn choice_of(rooms: Seq<RoomType>, i: int) -> Option<DungeonChoice> {
    if 0 <= i < rooms.len() {
        Some(DungeonChoice::Room(rooms[i]))
    } else if rooms.len() <= i < rooms.len() + 3 {
        Some(trailing_choice(i - rooms.len()))
    } else {
        None
    }
}

/// Labels of the fork's menu: the rooms, then Flee, Eat and Inspect.
pub fn dungeon_menu(rooms: &Vec<RoomType>) -> (labels: Vec<String>)
    requires
        rooms@.len() + 3 <= usize::MAX,
    ensures
        labels@.len() == rooms@.len() + 3,
        forall|i: int|
            0 <= i < labels@.len() ==> #[trigger] labels@[i]@ == choice_label(
                choice_of(rooms@, i)->0,
            ),
{
    let mut labels = rooms_into_strings(rooms);
    labels.push(String::from_str("Flee"));
    labels.push(String::from_str("Eat"));
    labels.push(String::from_str("Inspect"));
    assert forall|i: int| 0 <= i < labels@.len() implies #[trigger] labels@[i]@ == choice_label(
        choice_of(rooms@, i)->0,
    ) by {
        if i < rooms@.len() {
            assert(labels@[i]@ == room_label(rooms@[i]));
        }
    }
    labels
}

/// The choice at position `index` of the fork's menu, if there is one.
pub fn choice_at(rooms: &Vec<RoomType>, index: usize) -> (c: Option<DungeonChoice>)
    ensures
        c == choice_of(rooms@, index as int),
{
    let n = rooms.len();
    if index < n {
        Some(DungeonChoice::Room(rooms[index]))
    } else if index - n == 0 {
        Some(DungeonChoice::Flee)
    } else if index - n == 1 {
        Some(DungeonChoice::Eat)
    } else if index - n == 2 {
        Some(DungeonChoice::Inspect)
    } else {
        None
    }
}

/// Stamina that stepping into a room costs, paid before it is resolved.
pub open spec fn room_cost(room: RoomType) -> int {
    match room {
        RoomType::Small => 1,
        RoomType::Big => 2,
        RoomType::Treasure => 5,
        RoomType::Final => 1,
        RoomType::Escape => 0,
    }
}

/// Whether a room counts toward the rooms passed on this visit; the final
/// room ends the visit and does not.
pub open spec fn counts_as_passed(room: RoomType) -> bool {
    room == RoomType::Small || room == RoomType::Big || room == RoomType::Treasure
}

/// One visit to the dungeon: the rooms passed so far and the rooms on offer.
pub struct Expedition {
    pub room_count: i32,
    pub rooms: Vec<RoomType>,
}

impl Expedition {
    pub fn new() -> (e: Expedition)
        ensures
            e.room_count == 0,
            e.rooms@.len() == 2 || e.rooms@.len() == 3,
    {
        Expedition { room_count: 0, rooms: get_rooms() }
    }

    /// Draws the rooms on offer afresh, as after every room resolved.
    pub fn reshuffle(&mut self)
        ensures
            final(self).room_count == old(self).room_count,
            final(self).rooms@.len() == 2 || final(self).rooms@.len() == 3,
    {
        self.rooms = get_rooms();
    }

    pub fn menu(&self) -> (labels: Vec<String>)
        requires
            self.rooms@.len() <= 3,
        ensures
            labels@.len() == self.rooms@.len() + 3,
            forall|i: int|
                0 <= i < labels@.len() ==> #[trigger] labels@[i]@ == choice_label(
                    choice_of(self.rooms@, i)->0,
                ),
    {
        dungeon_menu(&self.rooms)
    }

    pub fn choice(&self, index: usize) -> (c: Option<DungeonChoice>)
        ensures
            c == choice_of(self.rooms@, index as int),
    {
        choice_at(&self.rooms, index)
    }

    /// Steps into `room`: its stamina cost is paid and, unless it is the
    /// final room or an escape, it counts as one more room passed.
    pub fn enter(&mut self, game: &mut GameState, room: RoomType)
        requires
            old(game).roomy(),
            0 <= old(self).room_count < MAX_AMOUNT,
        ensures
            *final(game) == (GameState {
                stamina: (old(game).stamina - room_cost(room)) as i32,
                ..*old(game)
            }),
            final(self).room_count == old(self).room_count + (if counts_as_passed(room) {
                1int
            } else {
                0
            }),
            final(self).rooms@ == old(self).rooms@,
    {
        let cost: i32 = match room {
            RoomType::Small => 1,
            RoomType::Big => 2,
            RoomType::Treasure => 5,
            RoomType::Final => 1,
            RoomType::Escape => 0,
        };
        game.stamina = game.stamina - cost;
        match room {
            RoomType::Small | RoomType::Big | RoomType::Treasure => {
                self.room_count = self.room_count + 1;
            },
            _ => {},
        }
    }

    /// Leaves the dungeon on foot. It takes at least as much stamina as rooms
    /// passed; it costs the rooms passed beyond the player's speed.
    /// Returns whether the player got out.
    pub fn flee(&self, game: &mut GameState) -> (fled: bool)
        requires
            old(game).roomy(),
            0 <= self.room_count <= MAX_AMOUNT,
        ensures
            fled == (self.room_count <= old(game).stamina),
            fled ==> *final(game) == (GameState {
                stamina: (old(game).stamina - vstd::math::max(
                    0,
                    self.room_count - old(game).gear.total_speed(),
                )) as i32,
                ..*old(game)
            }),
            !fled ==> *final(game) == *old(game),
    {
        if self.room_count > game.stamina {
            return false;
        }
        let speed = game.gear.final_stats().speed;
        let extra = self.room_count - speed;
        if extra > 0 {
            game.stamina = game.stamina - extra;
        }
        true
    }
}

/// How a room plays out: a fight (and whether it can be fled), then a chest
/// (big or small) if the player is still standing, and whether clearing it
/// wins the dungeon.
#[derive(Clone, Copy, Debug, PartialEq, Eq)]
pub struct RoomPlan {
    pub fight: Option<MonsterTypes>,
    pub can_flee: bool,
    pub chest: Option<bool>,
    pub wins: bool,
}

/// Range of the first draw that resolves a room: a coin for small rooms
/// and treasure rooms, one of three for big rooms.
pub open spec fn first_draw_range(room: RoomType) -> int {
    match room {
        RoomType::Small => 2,
        RoomType::Big => 3,
        RoomType::Treasure => 2,
        _ => 1,
    }
}

/// The plan of `room` for draws `a` in `[0, first_draw_range(room))` and
/// `b` in `[0, 3)`.
pub open spec fn plan_of(room: RoomType, a: int, b: int) -> RoomPlan {
    match room {
        RoomType::Small => RoomPlan {
            fight: if a == 0 { Some(MonsterTypes::Small) } else { None },
            can_flee: true,
            chest: if b == 0 { Some(false) } else { None },
            wins: false,
        },
        RoomType::Big => RoomPlan {
            fight: if a == 0 { Some(MonsterTypes::Small) } else { Some(MonsterTypes::Big) },
            can_flee: true,
            chest: if a == 1 { Some(true) } else { None },
            wins: false,
        },
        RoomType::Treasure => RoomPlan { fight: None, can_flee: true, chest: Some(a == 1), wins: false },
        RoomType::Final => RoomPlan {
            fight: Some(MonsterTypes::Big),
            can_flee: false,
            chest: Some(true),
            wins: true,
        },
        RoomType::Escape => RoomPlan { fight: None, can_flee: true, chest: None, wins: false },
    }
}

pub fn plan_from_rolls(room: RoomType, a: i32, b: i32) -> (p: RoomPlan)
    ensures
        p == plan_of(room, a as int, b as int),
{
    match room {
        RoomType::Small => RoomPlan {
            fight: if a == 0 { Some(MonsterTypes::Small) } else { None },
            can_flee: true,
            chest: if b == 0 { Some(false) } else { None },
            wins: false,
        },
        RoomType::Big => RoomPlan {
            fight: if a == 0 { Some(MonsterTypes::Small) } else { Some(MonsterTypes::Big) },
            can_flee: true,
            chest: if a == 1 { Some(true) } else { None },
            wins: false,
        },
        RoomType::Treasure => RoomPlan { fight: None, can_flee: true, chest: Some(a == 1), wins: false },
        RoomType::Final => RoomPlan {
            fight: Some(MonsterTypes::Big),
            can_flee: false,
            chest: Some(true),
            wins: true,
        },
        RoomType::Escape => RoomPlan { fight: None, can_flee: true, chest: None, wins: false },
    }
}

/// Draws how `room` plays out.
pub fn plan_room(room: RoomType) -> (p: RoomPlan)
    ensures
        exists|a: int, b: int|
            0 <= a < first_draw_range(room) && 0 <= b < 3 && p == #[trigger] plan_of(room, a, b),
{
    let range: i32 = match room {
        RoomType::Small => 2,
        RoomType::Big => 3,
        RoomType::Treasure => 2,
        _ => 1,
    };
    let a = roll(0, range);
    let b = roll(0, 3);
    let p = plan_from_rolls(room, a, b);
    assert(0 <= a < first_draw_range(room) && 0 <= b < 3 && p == plan_of(room, a as int, b as int));
    p
}


/// What one draw from a chest gives.
#[derive(Clone, Copy, Debug, PartialEq, Eq, Structural)]
pub enum Loot {
    /// A potion of stamina, worth `uniform[3, 10)` stamina.
    StaminaPotion(i32),
    /// A potion of saturation, worth `uniform[2, 6)` food.
    FoodPotion(i32),
    /// A potion of wealth, worth `uniform[5, 10)` money.
    WealthPotion(i32),
    /// A sack of coins.
    Coins(i32),
    /// An empty chest.
    Nothing,
}

pub open spec fn potion_ok(l: Loot) -> bool {
    match l {
        Loot::StaminaPotion(n) => 3 <= n < 10,
        Loot::FoodPotion(n) => 2 <= n < 6,
        Loot::WealthPotion(n) => 5 <= n < 10,
        _ => false,
    }
}

/// One draw of a small chest at `level`: a potion, coins in
/// `[0, level + 10)`, or nothing.
pub open spec fn small_loot_ok(l: Loot, level: int) -> bool {
    potion_ok(l) || (l matches Loot::Coins(c) && 0 <= c < level + 10) || l == Loot::Nothing
}

/// One draw of a big chest at `level`: a potion or coins in `[0, level + 20)`.
pub open spec fn big_loot_ok(l: Loot, level: int) -> bool {
    potion_ok(l) || (l matches Loot::Coins(c) && 0 <= c < level + 20)
}

/// What a chest holds at `level`, draw by draw: what a small or big chest
/// may give.
pub open spec fn loot_ok(l: Loot, big: bool, level: int) -> bool {
    if big {
        big_loot_ok(l, level)
    } else {
        small_loot_ok(l, level)
    }
}

/// Whether `v` lies in the range of potion kind `k`: stamina `[3, 10)`,
/// saturation `[2, 6)`, wealth `[5, 10)`.
pub open spec fn potion_amount_ok(k: int, v: int) -> bool {
    if k == 0 {
        3 <= v < 10
    } else if k == 1 {
        2 <= v < 6
    } else {
        5 <= v < 10
    }
}

/// The potion for a kind draw `k` from `[0, 3)` and an amount `v`.
pub open spec fn potion_of(k: int, v: int) -> Loot {
    if k == 0 {
        Loot::StaminaPotion(v as i32)
    } else if k == 1 {
        Loot::FoodPotion(v as i32)
    } else {
        Loot::WealthPotion(v as i32)
    }
}

pub fn potion_from_rolls(k: i32, v: i32) -> (l: Loot)
    ensures
        l == potion_of(k as int, v as int),
{
    if k == 0 {
        Loot::StaminaPotion(v)
    } else if k == 1 {
        Loot::FoodPotion(v)
    } else {
        Loot::WealthPotion(v)
    }
}

fn roll_potion() -> (r: (i32, i32))
    ensures
        0 <= r.0 < 3,
        potion_amount_ok(r.0 as int, r.1 as int),
{
    let k = roll(0, 3);
    let v = if k == 0 {
        roll(3, 10)
    } else if k == 1 {
        roll(2, 6)
    } else {
        roll(5, 10)
    };
    (k, v)
}

/// The draws of one round of a chest. In a small chest `first` picks a
/// potion (0), coins (1) or nothing (2). In a round of a big chest `first`
/// is 0 for a potion and, drawn on its own, `second` is 0 for coins.
#[derive(Clone, Copy, Debug, PartialEq, Eq)]
pub struct ChestRound {
    pub first: i32,
    pub potion_kind: i32,
    pub potion_amount: i32,
    pub second: i32,
    pub coins: i32,
}

/// The draws of a round lie in their ranges: coins below `level + 10` in a
/// small chest and below `level + 20` in a big one.
pub open spec fn round_ok(r: ChestRound, big: bool, level: int) -> bool {
    &&& 0 <= r.potion_kind < 3
    &&& potion_amount_ok(r.potion_kind as int, r.potion_amount as int)
    &&& if big {
        0 <= r.first < 2 && 0 <= r.second < 2 && 0 <= r.coins < level + 20
    } else {
        0 <= r.first < 3 && 0 <= r.coins < level + 10
    }
}

/// One round for a small chest, three for a big one, each in range.
pub open spec fn draws_ok(big: bool, level: int, rounds: Seq<ChestRound>) -> bool {
    &&& rounds.len() == (if big { 3int } else { 1 })
    &&& forall|i: int| 0 <= i < rounds.len() ==> round_ok(#[trigger] rounds[i], big, level)
}

pub open spec fn small_chest_of(r: ChestRound) -> Seq<Loot> {
    if r.first == 0 {
        seq![potion_of(r.potion_kind as int, r.potion_amount as int)]
    } else if r.first == 1 {
        seq![Loot::Coins(r.coins)]
    } else {
        seq![Loot::Nothing]
    }
}

/// One round of a big chest: a potion if its first draw says so, then
/// coins if its second does.
pub open spec fn big_round_of(r: ChestRound) -> Seq<Loot> {
    (if r.first == 0 {
        seq![potion_of(r.potion_kind as int, r.potion_amount as int)]
    } else {
        Seq::empty()
    }) + (if r.second == 0 {
        seq![Loot::Coins(r.coins)]
    } else {
        Seq::empty()
    })
}

pub open spec fn big_chest_of(rounds: Seq<ChestRound>) -> Seq<Loot>
    decreases rounds.len(),
{
    if rounds.len() == 0 {
        Seq::empty()
    } else {
        big_chest_of(rounds.drop_last()) + big_round_of(rounds.last())
    }
}

/// What a chest gives for its draws, in order.
pub open spec fn chest_of(big: bool, rounds: Seq<ChestRound>) -> Seq<Loot> {
    if big {
        big_chest_of(rounds)
    } else {
        small_chest_of(rounds[0])
    }
}

/// What a chest gives once its draws are known.
pub fn chest_from_rolls(big: bool, rounds: &Vec<ChestRound>) -> (found: Vec<Loot>)
    requires
        rounds@.len() >= 1,
    ensures
        found@ == chest_of(big, rounds@),
{
    let mut found: Vec<Loot> = Vec::new();
    if !big {
        let r = rounds[0];
        if r.first == 0 {
            found.push(potion_from_rolls(r.potion_kind, r.potion_amount));
        } else if r.first == 1 {
            found.push(Loot::Coins(r.coins));
        } else {
            found.push(Loot::Nothing);
        }
        assert(found@ =~= small_chest_of(r));
        return found;
    }
    let mut i: usize = 0;
    while i < rounds.len()
        invariant
            i <= rounds@.len(),
            found@ == big_chest_of(rounds@.take(i as int)),
        decreases rounds@.len() - i,
    {
        let r = rounds[i];
        let ghost before = found@;
        if r.first == 0 {
            found.push(potion_from_rolls(r.potion_kind, r.potion_amount));
        }
        if r.second == 0 {
            found.push(Loot::Coins(r.coins));
        }
        assert(found@ =~= before + big_round_of(r));
        assert(rounds@.take(i + 1).drop_last() =~= rounds@.take(i as int));
        i += 1;
    }
    assert(rounds@.take(rounds@.len() as int) =~= rounds@);
    found
}

fn roll_round(big: bool, level: i32) -> (r: ChestRound)
    requires
        1 <= level <= MAX_LEVEL,
    ensures
        round_ok(r, big, level as int),
{
    let first = if big { roll(0, 2) } else { roll(0, 3) };
    let (potion_kind, potion_amount) = if first == 0 {
        roll_potion()
    } else {
        (0, 3)
    };
    let second = if big { roll(0, 2) } else { 1 };
    let coins = if big {
        if second == 0 { roll(0, level + 20) } else { 0 }
    } else {
        if first == 1 { roll(0, level + 10) } else { 0 }
    };
    ChestRound { first, potion_kind, potion_amount, second, coins }
}

proof fn lemma_potion_ok(k: int, v: int)
    requires
        0 <= k < 3,
        potion_amount_ok(k, v),
    ensures
        potion_ok(potion_of(k, v)),
{
}

proof fn lemma_big_chest_ok(rounds: Seq<ChestRound>, level: int)
    requires
        forall|i: int| 0 <= i < rounds.len() ==> round_ok(#[trigger] rounds[i], true, level),
    ensures
        big_chest_of(rounds).len() <= 2 * rounds.len(),
        forall|j: int|
            0 <= j < big_chest_of(rounds).len() ==> big_loot_ok(
                #[trigger] big_chest_of(rounds)[j],
                level,
            ),
    decreases rounds.len(),
{
    if rounds.len() > 0 {
        let init = rounds.drop_last();
        assert forall|i: int| 0 <= i < init.len() implies round_ok(#[trigger] init[i], true, level) by {
            assert(init[i] == rounds[i]);
        }
        lemma_big_chest_ok(init, level);
        let r = rounds.last();
        assert(round_ok(rounds[rounds.len() - 1], true, level));
        lemma_potion_ok(r.potion_kind as int, r.potion_amount as int);
        let a = big_chest_of(init);
        let b = big_round_of(r);
        assert forall|j: int| 0 <= j < (a + b).len() implies big_loot_ok(#[trigger] (a + b)[j], level) by {
            if j >= a.len() {
                assert((a + b)[j] == b[j - a.len()]);
            } else {
                assert((a + b)[j] == a[j]);
            }
        }
    }
}

proof fn lemma_chest_loot_ok(big: bool, level: int, rounds: Seq<ChestRound>)
    requires
        draws_ok(big, level, rounds),
    ensures
        chest_of(big, rounds).len() <= 6,
        forall|j: int|
            0 <= j < chest_of(big, rounds).len() ==> loot_ok(
                #[trigger] chest_of(big, rounds)[j],
                big,
                level,
            ),
{
    if big {
        lemma_big_chest_ok(rounds, level);
    } else {
        let r = rounds[0];
        assert(round_ok(r, false, level));
        lemma_potion_ok(r.potion_kind as int, r.potion_amount as int);
    }
}

impl GameState {
    pub open spec fn with_loot(self, l: Loot) -> GameState {
        match l {
            Loot::StaminaPotion(n) => GameState { stamina: (self.stamina + n) as i32, ..self },
            Loot::FoodPotion(n) => GameState {
                food: FoodInfo { quantity: (self.food.quantity + n) as i32, ..self.food },
                ..self
            },
            Loot::WealthPotion(n) => GameState { money: (self.money + n) as i32, ..self },
            Loot::Coins(n) => GameState { money: (self.money + n) as i32, ..self },
            Loot::Nothing => self,
        }
    }

    /// The state after each draw in `found`, in order.
    pub open spec fn with_all_loot(self, found: Seq<Loot>) -> GameState
        decreases found.len(),
    {
        if found.len() == 0 {
            self
        } else {
            self.with_all_loot(found.drop_last()).with_loot(found.last())
        }
    }

    /// Counters still within twice the usual bound, the slack that a chest's
    /// few draws may use.
    pub open spec fn loot_room(self) -> bool {
        &&& -2 * MAX_AMOUNT <= self.money <= 2 * MAX_AMOUNT
        &&& -2 * MAX_AMOUNT <= self.stamina <= 2 * MAX_AMOUNT
        &&& -2 * MAX_AMOUNT <= self.food.quantity <= 2 * MAX_AMOUNT
    }

    fn take_loot(&mut self, l: Loot)
        requires
            old(self).loot_room(),
            potion_ok(l) || (l matches Loot::Coins(c) && 0 <= c <= MAX_LEVEL + 20) || l
                == Loot::Nothing,
        ensures
            *final(self) == old(self).with_loot(l),
    {
        match l {
            Loot::StaminaPotion(n) => self.stamina = self.stamina + n,
            Loot::FoodPotion(n) => self.food.quantity = self.food.quantity + n,
            Loot::WealthPotion(n) => self.money = self.money + n,
            Loot::Coins(n) => self.money = self.money + n,
            Loot::Nothing => {},
        }
    }

    /// Drinks a potion found in a chest: stamina, saturation or wealth,
    /// one time in three each, worth a draw from the kind's range.
    pub fn get_potion(&mut self) -> (l: Loot)
        requires
            old(self).loot_room(),
        ensures
            exists|k: int, v: int|
                0 <= k < 3 && potion_amount_ok(k, v) && l == #[trigger] potion_of(k, v),
            potion_ok(l),
            *final(self) == old(self).with_loot(l),
    {
        let (k, v) = roll_potion();
        let l = potion_from_rolls(k, v);
        assert(0 <= k < 3 && potion_amount_ok(k as int, v as int) && l == potion_of(
            k as int,
            v as int,
        ));
        self.take_loot(l);
        l
    }

    /// Opens a chest and takes what it holds, as `chest_from_rolls` gives it
    /// for draws in their ranges (`draws_ok`).
    pub fn open_chest(&mut self, big: bool) -> (found: Vec<Loot>)
        requires
            old(self).roomy(),
        ensures
            exists|rounds: Seq<ChestRound>|
                draws_ok(big, old(self).level as int, rounds) && found@ == #[trigger] chest_of(
                    big,
                    rounds,
                ),
            found@.len() <= 6,
            forall|i: int|
                0 <= i < found@.len() ==> loot_ok(#[trigger] found@[i], big, old(self).level as int),
            *final(self) == old(self).with_all_loot(found@),
    {
        let ghost start = *self;
        let n: usize = if big { 3 } else { 1 };
        let mut rounds: Vec<ChestRound> = Vec::new();
        let mut i: usize = 0;
        while i < n
            invariant
                n == (if big { 3usize } else { 1 }),
                i <= n,
                rounds@.len() == i,
                1 <= self.level <= MAX_LEVEL,
                forall|j: int|
                    0 <= j < i ==> round_ok(#[trigger] rounds@[j], big, self.level as int),
            decreases n - i,
        {
            rounds.push(roll_round(big, self.level));
            i += 1;
        }
        let found = chest_from_rolls(big, &rounds);
        proof {
            lemma_chest_loot_ok(big, self.level as int, rounds@);
        }
        let mut k: usize = 0;
        while k < found.len()
            invariant
                found@ == chest_of(big, rounds@),
                found@.len() <= 6,
                forall|j: int|
                    0 <= j < found@.len() ==> loot_ok(#[trigger] found@[j], big, start.level as int),
                start.roomy(),
                self.level == start.level,
                k <= found@.len(),
                start.money <= self.money <= start.money + (MAX_LEVEL + 20) * k,
                start.stamina <= self.stamina <= start.stamina + 10 * k,
                start.food.quantity <= self.food.quantity <= start.food.quantity + 10 * k,
                *self == start.with_all_loot(found@.take(k as int)),
            decreases found@.len() - k,
        {
            let l = found[k];
            assert(loot_ok(found@[k as int], big, start.level as int));
            assert(found@.take(k + 1).drop_last() =~= found@.take(k as int));
            assert((MAX_LEVEL + 20) * k <= 6 * (MAX_LEVEL + 20)) by (nonlinear_arith)
                requires
                    k < 6,
            ;
            self.take_loot(l);
            assert((MAX_LEVEL + 20) * (k + 1) == (MAX_LEVEL + 20) * k + (MAX_LEVEL + 20))
                by (nonlinear_arith);
            k += 1;
        }
        assert(found@.take(found@.len() as int) =~= found@);
        assert(draws_ok(big, start.level as int, rounds@));
        found
    }

    /// Counts one more dungeon won.
    pub fn record_win(&mut self)
        requires
            amount_ok(old(self).won as int),
        ensures
            *final(self) == (GameState { won: (old(self).won + 1) as i32, ..*old(self) }),
    {
        self.won = self.won + 1;
    }

    /// The end of a room whose fight (if it had one) is over: a player who
    /// survived opens the room's chest, if any, and clearing the final room
    /// counts one more dungeon won. A player who did not survive gets nothing.
    pub fn finish_room(&mut self, plan: RoomPlan, survived: bool) -> (found: Vec<Loot>)
        requires
            old(self).roomy(),
        ensures
            !survived ==> found@.len() == 0 && *final(self) == *old(self),
            survived && plan.chest is None ==> found@.len() == 0,
            survived ==> (plan.chest matches Some(big) ==> exists|rounds: Seq<ChestRound>|
                draws_ok(big, old(self).level as int, rounds) && found@ == #[trigger] chest_of(
                    big,
                    rounds,
                )),
            survived ==> *final(self) == (GameState {
                won: (old(self).won + (if plan.wins { 1int } else { 0 })) as i32,
                ..old(self).with_all_loot(found@)
            }),
    {
        if !survived {
            return Vec::new();
        }
        let ghost start = *self;
        let found = match plan.chest {
            Some(big) => self.open_chest(big),
            None => Vec::new(),
        };
        proof {
            lemma_loot_keeps(start, found@);
            if plan.chest is None {
                assert(start.with_all_loot(found@) == start);
            }
        }
        if plan.wins {
            self.record_win();
        }
        found
    }
}

/// Loot changes only money, stamina and the pantry's quantity.
proof fn lemma_loot_keeps(g: GameState, found: Seq<Loot>)
    ensures
        g.with_all_loot(found) == (GameState {
            money: g.with_all_loot(found).money,
            stamina: g.with_all_loot(found).stamina,
            food: FoodInfo { quantity: g.with_all_loot(found).food.quantity, ..g.food },
            ..g
        }),
    decreases found.len(),
{
    if found.len() > 0 {
        lemma_loot_keeps(g, found.drop_last());
    }
}

/// How a dungeon visit goes on after a room.
#[derive(Clone, Copy, Debug, PartialEq, Eq, Structural)]
pub enum VisitStep {
    /// On to a fresh choice of rooms.
    Onward,
    /// Out of the dungeon, alive.
    Leave,
    /// The player fell.
    Lost,
}

pub open spec fn step_after(room: RoomType, survived: bool) -> VisitStep {
    if !survived {
        VisitStep::Lost
    } else if room == RoomType::Final || room == RoomType::Escape {
        VisitStep::Leave
    } else {
        VisitStep::Onward
    }
}

impl Expedition {
    /// What follows a room: a fallen player's visit is lost; the final room
    /// and an escape passage end the visit; any other room leads on to a
    /// fresh draw of the rooms ahead.
    pub fn after_room(&mut self, room: RoomType, survived: bool) -> (step: VisitStep)
        ensures
            step == step_after(room, survived),
            final(self).room_count == old(self).room_count,
            step == VisitStep::Onward ==> final(self).rooms@.len() == 2 || final(self).rooms@.len() == 3,
            step != VisitStep::Onward ==> final(self).rooms@ == old(self).rooms@,
    {
        if !survived {
            return VisitStep::Lost;
        }
        match room {
            RoomType::Final | RoomType::Escape => VisitStep::Leave,
            _ => {
                self.reshuffle();
                VisitStep::Onward
            },
        }
    }
}

} // verus!
