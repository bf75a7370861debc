//! Stat sheets and side-by-side comparisons of items, stats and monsters.

use vstd::prelude::*;
use vstd::string::StringExecFns;
use crate::communication::{no_escape, paint, painted, views, Colors};
use crate::items::{round_div, Body, Head, Legs, Stats, Weapon};
use crate::monster::Monster;

verus! {

pub open spec fn digit_char(d: int) -> char {
    if d == 0 { '0' } else if d == 1 { '1' } else if d == 2 { '2' } else if d == 3 { '3' }
    else if d == 4 { '4' } else if d == 5 { '5' } else if d == 6 { '6' } else if d == 7 { '7' }
    else if d == 8 { '8' } else { '9' }
}

/// The decimal digits of a natural number, most significant first.
pub open spec fn digits(n: nat) -> Seq<char>
    decreases n,
{
    if n < 10 {
        seq![digit_char(n as int)]
    } else {
        digits(n / 10).push(digit_char((n % 10) as int))
    }
}

/// An integer in decimal, with a leading `-` when negative.
pub open spec fn decimal(n: int) -> Seq<char> {
    if n < 0 {
        seq!['-'] + digits((-n) as nat)
    } else {
        digits(n as nat)
    }
}

proof fn lemma_digits_plain(n: nat)
    ensures
        no_escape(digits(n)),
    decreases n,
{
    if n >= 10 {
        lemma_digits_plain(n / 10);
    }
}

proof fn lemma_decimal_plain(n: int)
    ensures
        no_escape(decimal(n)),
{
    if n < 0 {
        lemma_digits_plain((-n) as nat);
        assert(no_escape(seq!['-'] + digits((-n) as nat)));
    } else {
        lemma_digits_plain(n as nat);
    }
}

fn digit_str(d: u32) -> (r: &'static str)
    requires
        d < 10,
    ensures
        r@ == seq![digit_char(d as int)],
{
    proof {
        reveal_strlit("0");
        reveal_strlit("1");
        reveal_strlit("2");
        reveal_strlit("3");
        reveal_strlit("4");
        reveal_strlit("5");
        reveal_strlit("6");
        reveal_strlit("7");
        reveal_strlit("8");
        reveal_strlit("9");
    }
    if d == 0 {
        "0"
    } else if d == 1 {
        "1"
    } else if d == 2 {
        "2"
    } else if d == 3 {
        "3"
    } else if d == 4 {
        "4"
    } else if d == 5 {
        "5"
    } else if d == 6 {
        "6"
    } else if d == 7 {
        "7"
    } else if d == 8 {
        "8"
    } else {
        "9"
    }
}

fn digits_text(n: u32) -> (r: String)
    ensures
        r@ == digits(n as nat),
    decreases n,
{
    if n < 10 {
        String::from_str(digit_str(n))
    } else {
        let mut r = digits_text(n / 10);
        r.append(digit_str(n % 10));
        r
    }
}

/// An integer in decimal, with a leading `-` when negative.
pub fn int_text(n: i32) -> (r: String)
    ensures
        r@ == decimal(n as int),
{
    if n < 0 {
        let m: u32 = (-(n as i64)) as u32;
        let mut r = String::from_str("-");
        proof {
            reveal_strlit("-");
        }
        r.append(digits_text(m).as_str());
        r
    } else {
        digits_text(n as u32)
    }
}

/// A number shown in a colour.
pub fn paint_int(n: i32, color: Colors) -> (r: String)
    ensures
        painted(r@, decimal(n as int), color),
{
    let t = int_text(n);
    proof {
        lemma_decimal_plain(n as int);
    }
    paint(t.as_str(), color)
}

/// The colour of `a` next to `b`: green when it is the better of the two,
/// red when worse, yellow when equal. Higher is better, or lower where
/// `inverse` (as for a price).
pub open spec fn order_color(a: int, b: int, inverse: bool) -> Colors {
    if a == b {
        Colors::Yellow
    } else if (a > b) != inverse {
        Colors::Green
    } else {
        Colors::Red
    }
}

/// `a` coloured by how it compares with `b`, higher being better.
pub fn cmp_color(a: i32, b: i32) -> (r: String)
    ensures
        painted(r@, decimal(a as int), order_color(a as int, b as int, false)),
{
    let c = if a < b {
        Colors::Red
    } else if a == b {
        Colors::Yellow
    } else {
        Colors::Green
    };
    paint_int(a, c)
}

/// `a` coloured by how it compares with `b`, lower being better.
pub fn cmp_color_inverse(a: i32, b: i32) -> (r: String)
    ensures
        painted(r@, decimal(a as int), order_color(a as int, b as int, true)),
{
    let c = if a < b {
        Colors::Green
    } else if a == b {
        Colors::Yellow
    } else {
        Colors::Red
    };
    paint_int(a, c)
}

pub open spec fn row(label: Seq<char>, value: Seq<char>) -> Seq<char> {
    " - "@ + label + ": "@ + value
}

/// One ` - label: value` line per label, joined by newlines.
pub open spec fn sheet(labels: Seq<Seq<char>>, values: Seq<Seq<char>>) -> Seq<char>
    decreases labels.len(),
{
    if labels.len() == 0 {
        Seq::empty()
    } else if labels.len() == 1 {
        row(labels[0], values[0])
    } else {
        sheet(labels.drop_last(), values) + "\n"@ + row(labels.last(), values[labels.len() - 1])
    }
}

pub open spec fn str_views(v: Seq<&str>) -> Seq<Seq<char>> {
    v.map_values(|s: &str| s@)
}

pub open spec fn ints(v: Seq<i32>) -> Seq<int> {
    v.map_values(|x: i32| x as int)
}

/// Lays out labelled values, one per line.
pub fn stat_sheet(labels: &Vec<&str>, values: &Vec<String>) -> (r: String)
    requires
        labels@.len() == values@.len(),
    ensures
        r@ == sheet(str_views(labels@), views(values@)),
{
    let ghost ls = str_views(labels@);
    let ghost vs = views(values@);
    let mut r = String::new();
    let mut i: usize = 0;
    while i < labels.len()
        invariant
            ls == str_views(labels@),
            vs == views(values@),
            labels@.len() == values@.len(),
            i <= labels@.len(),
            r@ == sheet(ls.take(i as int), vs),
        decreases labels@.len() - i,
    {
        assert(ls.take(i + 1).drop_last() =~= ls.take(i as int));
        if i > 0 {
            r.append("\n");
        }
        r.append(" - ");
        r.append(labels[i]);
        r.append(": ");
        r.append(values[i].as_str());
        proof {
            if i == 0 {
                assert(r@ =~= row(ls[0], vs[0]));
            } else {
                assert(r@ =~= sheet(ls.take(i as int), vs) + "\n"@ + row(ls[i as int], vs[i as int]));
            }
        }
        i += 1;
    }
    assert(ls.take(labels@.len() as int) =~= ls);
    r
}

/// `values` shows each number in `nums` in the colour beside it.
pub open spec fn shows(values: Seq<Seq<char>>, nums: Seq<int>, colors: Seq<Colors>) -> bool {
    &&& values.len() == nums.len()
    &&& nums.len() == colors.len()
    &&& forall|i: int| 0 <= i < values.len() ==> painted(#[trigger] values[i], decimal(nums[i]), colors[i])
}

/// `r` is a sheet of `labels` whose values show `nums` in `colors`.
pub open spec fn described(
    r: Seq<char>,
    labels: Seq<Seq<char>>,
    nums: Seq<int>,
    colors: Seq<Colors>,
) -> bool {
    exists|v: Seq<Seq<char>>| shows(v, nums, colors) && r == #[trigger] sheet(labels, v)
}

/// A sheet of labelled numbers, each in its colour.
pub fn describe(labels: &Vec<&str>, nums: &Vec<i32>, colors: &Vec<Colors>) -> (r: String)
    requires
        labels@.len() == nums@.len(),
        nums@.len() == colors@.len(),
    ensures
        described(r@, str_views(labels@), ints(nums@), colors@),
{
    let mut values: Vec<String> = Vec::new();
    let mut i: usize = 0;
    while i < nums.len()
        invariant
            nums@.len() == colors@.len(),
            i <= nums@.len(),
            values@.len() == i,
            forall|j: int|
                0 <= j < i ==> painted(#[trigger] values@[j]@, decimal(nums@[j] as int), colors@[j]),
        decreases nums@.len() - i,
    {
        values.push(paint_int(nums[i], colors[i]));
        i += 1;
    }
    let r = stat_sheet(labels, &values);
    assert(shows(views(values@), ints(nums@), colors@));
    r
}

/// `cell` shows `a | b`, each side coloured by how it compares with the other.
pub open spec fn compared(cell: Seq<char>, a: int, b: int, inverse: bool) -> bool {
    exists|p: Seq<char>, q: Seq<char>|
        painted(p, decimal(a), order_color(a, b, inverse)) && painted(
            q,
            decimal(b),
            order_color(b, a, inverse),
        ) && cell == #[trigger] (p + " | "@ + q)
}

/// `r` is a sheet of `labels` whose values compare `mine` with `theirs`.
pub open spec fn compared_sheet(
    r: Seq<char>,
    labels: Seq<Seq<char>>,
    mine: Seq<int>,
    theirs: Seq<int>,
    inverse: Seq<bool>,
) -> bool {
    exists|v: Seq<Seq<char>>|
        v.len() == mine.len() && (forall|i: int|
            0 <= i < v.len() ==> compared(#[trigger] v[i], mine[i], theirs[i], inverse[i])) && r
            == #[trigger] sheet(labels, v)
}

/// A sheet that sets each of `mine` beside the matching one of `theirs`.
pub fn compare_sheet(
    labels: &Vec<&str>,
    mine: &Vec<i32>,
    theirs: &Vec<i32>,
    inverse: &Vec<bool>,
) -> (r: String)
    requires
        labels@.len() == mine@.len(),
        mine@.len() == theirs@.len(),
        theirs@.len() == inverse@.len(),
    ensures
        compared_sheet(r@, str_views(labels@), ints(mine@), ints(theirs@), inverse@),
{
    let mut values: Vec<String> = Vec::new();
    let mut i: usize = 0;
    while i < mine.len()
        invariant
            mine@.len() == theirs@.len(),
            theirs@.len() == inverse@.len(),
            i <= mine@.len(),
            values@.len() == i,
            forall|j: int|
                0 <= j < i ==> compared(
                    #[trigger] values@[j]@,
                    mine@[j] as int,
                    theirs@[j] as int,
                    inverse@[j],
                ),
        decreases mine@.len() - i,
    {
        let (p, q) = if inverse[i] {
            (cmp_color_inverse(mine[i], theirs[i]), cmp_color_inverse(theirs[i], mine[i]))
        } else {
            (cmp_color(mine[i], theirs[i]), cmp_color(theirs[i], mine[i]))
        };
        let mut cell = p;
        cell.append(" | ");
        cell.append(q.as_str());
        assert(cell@ == p@ + " | "@ + q@);
        values.push(cell);
        i += 1;
    }
    let r = stat_sheet(labels, &values);
    assert(forall|j: int|
        0 <= j < views(values@).len() ==> compared(
            #[trigger] views(values@)[j],
            ints(mine@)[j],
            ints(theirs@)[j],
            inverse@[j],
        ));
    r
}

impl Weapon {
    /// The weapon's sheet: damage and luck, durability, and what it would sell
    /// for now.
    pub fn to_string(&self) -> (r: String)
        requires
            self.wf(),
        ensures
            described(
                r@,
                seq!["Damage"@, "Luck"@, "Durability"@, "Cost"@],
                seq![self.damage as int, self.luck as int, self.durability as int, round_div(self.cost * self.durability, self.original_durability as int)],
                seq![Colors::Cyan, Colors::Cyan, Colors::Magenta, Colors::Yellow],
            ),
    {
        let mut labels: Vec<&str> = Vec::new();
        labels.push("Damage");
        labels.push("Luck");
        labels.push("Durability");
        labels.push("Cost");
        let mut nums: Vec<i32> = Vec::new();
        nums.push(self.damage);
        nums.push(self.luck);
        nums.push(self.durability);
        nums.push(self.resale_value());
        let mut colors: Vec<Colors> = Vec::new();
        colors.push(Colors::Cyan);
        colors.push(Colors::Cyan);
        colors.push(Colors::Magenta);
        colors.push(Colors::Yellow);
        let r = describe(&labels, &nums, &colors);
        assert(str_views(labels@) =~= seq!["Damage"@, "Luck"@, "Durability"@, "Cost"@]);
        assert(ints(nums@) =~= seq![self.damage as int, self.luck as int, self.durability as int, round_div(self.cost * self.durability, self.original_durability as int)]);
        assert(colors@ =~= seq![Colors::Cyan, Colors::Cyan, Colors::Magenta, Colors::Yellow]);
        r
    }

    /// This piece beside `other`, stat by stat: each value green where it is
    /// the better of the two, red where worse, yellow where equal; higher is
    /// better, except for the cost.
    pub fn cmp(&self, other: &Self) -> (r: String)
        ensures
            compared_sheet(
                r@,
                seq!["Damage"@, "Luck"@, "Durability"@, "Cost"@],
                seq![self.damage as int, self.luck as int, self.durability as int, self.cost as int],
                seq![other.damage as int, other.luck as int, other.durability as int, other.cost as int],
                seq![false, false, false, true],
            ),
    {
        let mut labels: Vec<&str> = Vec::new();
        labels.push("Damage");
        labels.push("Luck");
        labels.push("Durability");
        labels.push("Cost");
        let mut mine: Vec<i32> = Vec::new();
        mine.push(self.damage);
        mine.push(self.luck);
        mine.push(self.durability);
        mine.push(self.cost);
        let mut theirs: Vec<i32> = Vec::new();
        theirs.push(other.damage);
        theirs.push(other.luck);
        theirs.push(other.durability);
        theirs.push(other.cost);
        let mut inverse: Vec<bool> = Vec::new();
        inverse.push(false);
        inverse.push(false);
        inverse.push(false);
        inverse.push(true);
        let r = compare_sheet(&labels, &mine, &theirs, &inverse);
        assert(str_views(labels@) =~= seq!["Damage"@, "Luck"@, "Durability"@, "Cost"@]);
        assert(ints(mine@) =~= seq![self.damage as int, self.luck as int, self.durability as int, self.cost as int]);
        assert(ints(theirs@) =~= seq![other.damage as int, other.luck as int, other.durability as int, other.cost as int]);
        assert(inverse@ =~= seq![false, false, false, true]);
        r
    }
}

impl Body {
    /// The body piece's sheet: its stats, durability, and what it would sell
    /// for now.
    pub fn to_string(&self) -> (r: String)
        requires
            self.wf(),
        ensures
            described(
                r@,
                seq!["Armor"@, "Health"@, "Damage"@, "Speed"@, "Durability"@, "Cost"@],
                seq![self.armor as int, self.health as int, self.damage as int, self.speed as int, self.durability as int, round_div(self.cost * self.durability, self.original_durability as int)],
                seq![Colors::Cyan, Colors::Cyan, Colors::Cyan, Colors::Cyan, Colors::Magenta, Colors::Yellow],
            ),
    {
        let mut labels: Vec<&str> = Vec::new();
        labels.push("Armor");
        labels.push("Health");
        labels.push("Damage");
        labels.push("Speed");
        labels.push("Durability");
        labels.push("Cost");
        let mut nums: Vec<i32> = Vec::new();
        nums.push(self.armor);
        nums.push(self.health);
        nums.push(self.damage);
        nums.push(self.speed);
        nums.push(self.durability);
        nums.push(self.resale_value());
        let mut colors: Vec<Colors> = Vec::new();
        colors.push(Colors::Cyan);
        colors.push(Colors::Cyan);
        colors.push(Colors::Cyan);
        colors.push(Colors::Cyan);
        colors.push(Colors::Magenta);
        colors.push(Colors::Yellow);
        let r = describe(&labels, &nums, &colors);
        assert(str_views(labels@) =~= seq!["Armor"@, "Health"@, "Damage"@, "Speed"@, "Durability"@, "Cost"@]);
        assert(ints(nums@) =~= seq![self.armor as int, self.health as int, self.damage as int, self.speed as int, self.durability as int, round_div(self.cost * self.durability, self.original_durability as int)]);
        assert(colors@ =~= seq![Colors::Cyan, Colors::Cyan, Colors::Cyan, Colors::Cyan, Colors::Magenta, Colors::Yellow]);
        r
    }

    /// This piece beside `other`, stat by stat: each value green where it is
    /// the better of the two, red where worse, yellow where equal; higher is
    /// better, except for the cost.
    pub fn cmp(&self, other: &Self) -> (r: String)
        ensures
            compared_sheet(
                r@,
                seq!["Armor"@, "Health"@, "Damage"@, "Speed"@, "Durability"@, "Cost"@],
                seq![self.armor as int, self.health as int, self.damage as int, self.speed as int, self.durability as int, self.cost as int],
                seq![other.armor as int, other.health as int, other.damage as int, other.speed as int, other.durability as int, other.cost as int],
                seq![false, false, false, false, false, true],
            ),
    {
        let mut labels: Vec<&str> = Vec::new();
        labels.push("Armor");
        labels.push("Health");
        labels.push("Damage");
        labels.push("Speed");
        labels.push("Durability");
        labels.push("Cost");
        let mut mine: Vec<i32> = Vec::new();
        mine.push(self.armor);
        mine.push(self.health);
        mine.push(self.damage);
        mine.push(self.speed);
        mine.push(self.durability);
        mine.push(self.cost);
        let mut theirs: Vec<i32> = Vec::new();
        theirs.push(other.armor);
        theirs.push(other.health);
        theirs.push(other.damage);
        theirs.push(other.speed);
        theirs.push(other.durability);
        theirs.push(other.cost);
        let mut inverse: Vec<bool> = Vec::new();
        inverse.push(false);
        inverse.push(false);
        inverse.push(false);
        inverse.push(false);
        inverse.push(false);
        inverse.push(true);
        let r = compare_sheet(&labels, &mine, &theirs, &inverse);
        assert(str_views(labels@) =~= seq!["Armor"@, "Health"@, "Damage"@, "Speed"@, "Durability"@, "Cost"@]);
        assert(ints(mine@) =~= seq![self.armor as int, self.health as int, self.damage as int, self.speed as int, self.durability as int, self.cost as int]);
        assert(ints(theirs@) =~= seq![other.armor as int, other.health as int, other.damage as int, other.speed as int, other.durability as int, other.cost as int]);
        assert(inverse@ =~= seq![false, false, false, false, false, true]);
        r
    }
}

impl Head {
    /// The head piece's sheet: its stats, durability, and what it would sell
    /// for now.
    pub fn to_string(&self) -> (r: String)
        requires
            self.wf(),
        ensures
            described(
                r@,
                seq!["Luck"@, "Armor"@, "Damage"@, "Durability"@, "Cost"@],
                seq![self.luck as int, self.armor as int, self.damage as int, self.durability as int, round_div(self.cost * self.durability, self.original_durability as int)],
                seq![Colors::Cyan, Colors::Cyan, Colors::Cyan, Colors::Magenta, Colors::Yellow],
            ),
    {
        let mut labels: Vec<&str> = Vec::new();
        labels.push("Luck");
        labels.push("Armor");
        labels.push("Damage");
        labels.push("Durability");
        labels.push("Cost");
        let mut nums: Vec<i32> = Vec::new();
        nums.push(self.luck);
        nums.push(self.armor);
        nums.push(self.damage);
        nums.push(self.durability);
        nums.push(self.resale_value());
        let mut colors: Vec<Colors> = Vec::new();
        colors.push(Colors::Cyan);
        colors.push(Colors::Cyan);
        colors.push(Colors::Cyan);
        colors.push(Colors::Magenta);
        colors.push(Colors::Yellow);
        let r = describe(&labels, &nums, &colors);
        assert(str_views(labels@) =~= seq!["Luck"@, "Armor"@, "Damage"@, "Durability"@, "Cost"@]);
        assert(ints(nums@) =~= seq![self.luck as int, self.armor as int, self.damage as int, self.durability as int, round_div(self.cost * self.durability, self.original_durability as int)]);
        assert(colors@ =~= seq![Colors::Cyan, Colors::Cyan, Colors::Cyan, Colors::Magenta, Colors::Yellow]);
        r
    }

    /// This piece beside `other`, stat by stat: each value green where it is
    /// the better of the two, red where worse, yellow where equal; higher is
    /// better, except for the cost.
    pub fn cmp(&self, other: &Self) -> (r: String)
        ensures
            compared_sheet(
                r@,
                seq!["Luck"@, "Armor"@, "Damage"@, "Durability"@, "Cost"@],
                seq![self.luck as int, self.armor as int, self.damage as int, self.durability as int, self.cost as int],
                seq![other.luck as int, other.armor as int, other.damage as int, other.durability as int, other.cost as int],
                seq![false, false, false, false, true],
            ),
    {
        let mut labels: Vec<&str> = Vec::new();
        labels.push("Luck");
        labels.push("Armor");
        labels.push("Damage");
        labels.push("Durability");
        labels.push("Cost");
        let mut mine: Vec<i32> = Vec::new();
        mine.push(self.luck);
        mine.push(self.armor);
        mine.push(self.damage);
        mine.push(self.durability);
        mine.push(self.cost);
        let mut theirs: Vec<i32> = Vec::new();
        theirs.push(other.luck);
        theirs.push(other.armor);
        theirs.push(other.damage);
        theirs.push(other.durability);
        theirs.push(other.cost);
        let mut inverse: Vec<bool> = Vec::new();
        inverse.push(false);
        inverse.push(false);
        inverse.push(false);
        inverse.push(false);
        inverse.push(true);
        let r = compare_sheet(&labels, &mine, &theirs, &inverse);
        assert(str_views(labels@) =~= seq!["Luck"@, "Armor"@, "Damage"@, "Durability"@, "Cost"@]);
        assert(ints(mine@) =~= seq![self.luck as int, self.armor as int, self.damage as int, self.durability as int, self.cost as int]);
        assert(ints(theirs@) =~= seq![other.luck as int, other.armor as int, other.damage as int, other.durability as int, other.cost as int]);
        assert(inverse@ =~= seq![false, false, false, false, true]);
        r
    }
}

impl Legs {
    /// The leg pieces' sheet: their stats, durability, and what they would
    /// sell for now.
    pub fn to_string(&self) -> (r: String)
        requires
            self.wf(),
        ensures
            described(
                r@,
                seq!["Speed"@, "Armor"@, "Health"@, "Luck"@, "Durability"@, "Cost"@],
                seq![self.speed as int, self.armor as int, self.health as int, self.luck as int, self.durability as int, round_div(self.cost * self.durability, self.original_durability as int)],
                seq![Colors::Cyan, Colors::Cyan, Colors::Cyan, Colors::Cyan, Colors::Magenta, Colors::Yellow],
            ),
    {
        let mut labels: Vec<&str> = Vec::new();
        labels.push("Speed");
        labels.push("Armor");
        labels.push("Health");
        labels.push("Luck");
        labels.push("Durability");
        labels.push("Cost");
        let mut nums: Vec<i32> = Vec::new();
        nums.push(self.speed);
        nums.push(self.armor);
        nums.push(self.health);
        nums.push(self.luck);
        nums.push(self.durability);
        nums.push(self.resale_value());
        let mut colors: Vec<Colors> = Vec::new();
        colors.push(Colors::Cyan);
        colors.push(Colors::Cyan);
        colors.push(Colors::Cyan);
        colors.push(Colors::Cyan);
        colors.push(Colors::Magenta);
        colors.push(Colors::Yellow);
        let r = describe(&labels, &nums, &colors);
        assert(str_views(labels@) =~= seq!["Speed"@, "Armor"@, "Health"@, "Luck"@, "Durability"@, "Cost"@]);
        assert(ints(nums@) =~= seq![self.speed as int, self.armor as int, self.health as int, self.luck as int, self.durability as int, round_div(self.cost * self.durability, self.original_durability as int)]);
        assert(colors@ =~= seq![Colors::Cyan, Colors::Cyan, Colors::Cyan, Colors::Cyan, Colors::Magenta, Colors::Yellow]);
        r
    }

    /// This piece beside `other`, stat by stat: each value green where it is
    /// the better of the two, red where worse, yellow where equal; higher is
    /// better, except for the cost.
    pub fn cmp(&self, other: &Self) -> (r: String)
        ensures
            compared_sheet(
                r@,
                seq!["Speed"@, "Armor"@, "Health"@, "Luck"@, "Durability"@, "Cost"@],
                seq![self.speed as int, self.armor as int, self.health as int, self.luck as int, self.durability as int, self.cost as int],
                seq![other.speed as int, other.armor as int, other.health as int, other.luck as int, other.durability as int, other.cost as int],
                seq![false, false, false, false, false, true],
            ),
    {
        let mut labels: Vec<&str> = Vec::new();
        labels.push("Speed");
        labels.push("Armor");
        labels.push("Health");
        labels.push("Luck");
        labels.push("Durability");
        labels.push("Cost");
        let mut mine: Vec<i32> = Vec::new();
        mine.push(self.speed);
        mine.push(self.armor);
        mine.push(self.health);
        mine.push(self.luck);
        mine.push(self.durability);
        mine.push(self.cost);
        let mut theirs: Vec<i32> = Vec::new();
        theirs.push(other.speed);
        theirs.push(other.armor);
        theirs.push(other.health);
        theirs.push(other.luck);
        theirs.push(other.durability);
        theirs.push(other.cost);
        let mut inverse: Vec<bool> = Vec::new();
        inverse.push(false);
        inverse.push(false);
        inverse.push(false);
        inverse.push(false);
        inverse.push(false);
        inverse.push(true);
        let r = compare_sheet(&labels, &mine, &theirs, &inverse);
        assert(str_views(labels@) =~= seq!["Speed"@, "Armor"@, "Health"@, "Luck"@, "Durability"@, "Cost"@]);
        assert(ints(mine@) =~= seq![self.speed as int, self.armor as int, self.health as int, self.luck as int, self.durability as int, self.cost as int]);
        assert(ints(theirs@) =~= seq![other.speed as int, other.armor as int, other.health as int, other.luck as int, other.durability as int, other.cost as int]);
        assert(inverse@ =~= seq![false, false, false, false, false, true]);
        r
    }
}

impl Stats {
    /// The combined stats, one per line.
    pub fn to_string(&self) -> (r: String)
        ensures
            described(
                r@,
                seq!["Damage"@, "Luck"@, "Armor"@, "Speed"@, "Health"@],
                seq![self.damage as int, self.luck as int, self.armor as int, self.speed as int, self.health as int],
                seq![Colors::Cyan, Colors::Cyan, Colors::Cyan, Colors::Cyan, Colors::Cyan],
            ),
    {
        let mut labels: Vec<&str> = Vec::new();
        labels.push("Damage");
        labels.push("Luck");
        labels.push("Armor");
        labels.push("Speed");
        labels.push("Health");
        let mut nums: Vec<i32> = Vec::new();
        nums.push(self.damage);
        nums.push(self.luck);
        nums.push(self.armor);
        nums.push(self.speed);
        nums.push(self.health);
        let mut colors: Vec<Colors> = Vec::new();
        colors.push(Colors::Cyan);
        colors.push(Colors::Cyan);
        colors.push(Colors::Cyan);
        colors.push(Colors::Cyan);
        colors.push(Colors::Cyan);
        let r = describe(&labels, &nums, &colors);
        assert(str_views(labels@) =~= seq!["Damage"@, "Luck"@, "Armor"@, "Speed"@, "Health"@]);
        assert(ints(nums@) =~= seq![self.damage as int, self.luck as int, self.armor as int, self.speed as int, self.health as int]);
        assert(colors@ =~= seq![Colors::Cyan, Colors::Cyan, Colors::Cyan, Colors::Cyan, Colors::Cyan]);
        r
    }
}

impl Monster {
    /// The monster's sheet; the reward in yellow.
    pub fn to_string(&self) -> (r: String)
        ensures
            described(
                r@,
                seq!["Health"@, "Damage"@, "Armor"@, "Reward"@],
                seq![self.health as int, self.damage as int, self.armor as int, self.reward as int],
                seq![Colors::Cyan, Colors::Cyan, Colors::Cyan, Colors::Yellow],
            ),
    {
        let mut labels: Vec<&str> = Vec::new();
        labels.push("Health");
        labels.push("Damage");
        labels.push("Armor");
        labels.push("Reward");
        let mut nums: Vec<i32> = Vec::new();
        nums.push(self.health);
        nums.push(self.damage);
        nums.push(self.armor);
        nums.push(self.reward);
        let mut colors: Vec<Colors> = Vec::new();
        colors.push(Colors::Cyan);
        colors.push(Colors::Cyan);
        colors.push(Colors::Cyan);
        colors.push(Colors::Yellow);
        let r = describe(&labels, &nums, &colors);
        assert(str_views(labels@) =~= seq!["Health"@, "Damage"@, "Armor"@, "Reward"@]);
        assert(ints(nums@) =~= seq![self.health as int, self.damage as int, self.armor as int, self.reward as int]);
        assert(colors@ =~= seq![Colors::Cyan, Colors::Cyan, Colors::Cyan, Colors::Yellow]);
        r
    }
}

} // verus!
