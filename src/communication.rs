//! Reading the player's answers: commands picked by a unique prefix or by
//! number, the exit and yes/no words, and the colours text is shown in.

use colored::Colorize;
use vstd::prelude::*;
use vstd::string::{StrSliceExecFns, StringExecFns};

verus! {

/// What `str::to_lowercase` makes of a string.
pub uninterp spec fn lower_of(s: Seq<char>) -> Seq<char>;

/// Relies on `str::to_lowercase`: the lowercase form depends on the
/// characters alone.
#[verifier::external_body]
fn lowercase(s: &str) -> (r: String)
    ensures
        r@ == lower_of(s@),
{
    s.to_lowercase()
}

/// `command` begins the label at `i`.
pub open spec fn matches_at(command: Seq<char>, labels: Seq<Seq<char>>, i: int) -> bool {
    0 <= i < labels.len() && command.is_prefix_of(labels[i])
}

/// `command` is not empty and begins the label at `i` and no other.
pub open spec fn unique_match(command: Seq<char>, labels: Seq<Seq<char>>, i: int) -> bool {
    &&& command.len() > 0
    &&& matches_at(command, labels, i)
    &&& forall|j: int| #[trigger] matches_at(command, labels, j) ==> j == i
}

/// The label at the index that `command` picks out, if it picks one.
pub open spec fn picked(command: Seq<char>, labels: Seq<Seq<char>>, r: Option<usize>) -> bool {
    match r {
        Some(i) => unique_match(command, labels, i as int),
        None => forall|i: int| !unique_match(command, labels, i),
    }
}

pub open spec fn views(v: Seq<String>) -> Seq<Seq<char>> {
    v.map_values(|s: String| s@)
}

pub open spec fn lowered(v: Seq<String>) -> Seq<Seq<char>> {
    v.map_values(|s: String| lower_of(s@))
}

/// Whether `p` begins `s`.
pub fn starts_with(s: &str, p: &str) -> (r: bool)
    ensures
        r == p@.is_prefix_of(s@),
{
    let n = p.unicode_len();
    if n > s.unicode_len() {
        return false;
    }
    let mut i: usize = 0;
    while i < n
        invariant
            n == p@.len(),
            n <= s@.len(),
            i <= n,
            forall|j: int| 0 <= j < i ==> p@[j] == s@[j],
        decreases n - i,
    {
        if p.get_char(i) != s.get_char(i) {
            return false;
        }
        i += 1;
    }
    assert(p@ =~= s@.subrange(0, n as int));
    true
}

/// The index of the one label that `command` begins; `None` when the
/// command is empty, begins no label, or begins more than one.
pub fn match_labels(command: &str, labels: &Vec<String>) -> (r: Option<usize>)
    ensures
        picked(command@, views(labels@), r),
{
    let ghost ls = views(labels@);
    if command.unicode_len() == 0 {
        return None;
    }
    let mut idx: Option<usize> = None;
    let mut index: usize = 0;
    while index < labels.len()
        invariant
            ls == views(labels@),
            command@.len() > 0,
            index <= labels@.len(),
            idx matches Some(k) ==> k < index && matches_at(command@, ls, k as int),
            forall|j: int|
                0 <= j < index && #[trigger] matches_at(command@, ls, j) ==> idx == Some(j as usize),
        decreases labels@.len() - index,
    {
        if starts_with(labels[index].as_str(), command) {
            if idx.is_some() {
                let k = idx.unwrap();
                assert(matches_at(command@, ls, k as int) && matches_at(command@, ls, index as int));
                return None;
            }
            idx = Some(index);
        }
        index += 1;
    }
    match idx {
        Some(k) => {
            assert forall|j: int| #[trigger] matches_at(command@, ls, j) implies j == k by {}
        },
        None => {},
    }
    idx
}

/// Index of the command that `command` names, ignoring case: the one whose
/// lowercase form the lowercase command begins. It does not have to be the
/// whole word, but it must not be empty and it must fit exactly one command.
pub fn match_command(command: &str, commands: &Vec<String>) -> (r: Option<usize>)
    ensures
        picked(lower_of(command@), lowered(commands@), r),
{
    let mut lower: Vec<String> = Vec::new();
    let mut i: usize = 0;
    while i < commands.len()
        invariant
            i <= commands@.len(),
            lower@.len() == i,
            forall|j: int| 0 <= j < i ==> #[trigger] lower@[j]@ == lower_of(commands@[j]@),
        decreases commands@.len() - i,
    {
        lower.push(lowercase(commands[i].as_str()));
        i += 1;
    }
    assert(views(lower@) =~= lowered(commands@));
    let lowered_command = lowercase(command);
    match_labels(lowered_command.as_str(), &lower)
}

pub open spec fn exit_words() -> Seq<Seq<char>> {
    seq!["exit"@, "quit"@]
}

pub open spec fn answer_words() -> Seq<Seq<char>> {
    seq!["yes"@, "no"@]
}

fn word_list(a: &str, b: &str) -> (v: Vec<String>)
    ensures
        views(v@) == seq![a@, b@],
{
    let mut v: Vec<String> = Vec::new();
    v.push(String::from_str(a));
    v.push(String::from_str(b));
    assert(views(v@) =~= seq![a@, b@]);
    v
}

/// Whether the input asks to leave: in lowercase it begins `exit` or `quit`.
pub fn is_exit(input: &str) -> (r: bool)
    ensures
        r == exists|i: int| unique_match(lower_of(input@), exit_words(), i),
{
    let words = word_list("exit", "quit");
    let lower = lowercase(input);
    let m = match_labels(lower.as_str(), &words);
    if let Some(i) = m {
        assert(unique_match(lower_of(input@), exit_words(), i as int));
    }
    m.is_some()
}

/// Whether the answer is yes: in lowercase it begins `yes` and not `no`.
pub fn confirms(input: &str) -> (r: bool)
    ensures
        r == unique_match(lower_of(input@), answer_words(), 0),
{
    let words = word_list("yes", "no");
    let lower = lowercase(input);
    match match_labels(lower.as_str(), &words) {
        Some(i) => i == 0,
        None => false,
    }
}

pub open spec fn is_digit(c: char) -> bool {
    '0' <= c <= '9'
}

/// The value of a string of decimal digits.
pub open spec fn decimal_value(s: Seq<char>) -> int
    decreases s.len(),
{
    if s.len() == 0 {
        0
    } else {
        10 * decimal_value(s.drop_last()) + (s.last() as int - '0' as int)
    }
}

/// The digits of a number written with an optional leading `+`.
pub open spec fn unsigned_digits(s: Seq<char>) -> Seq<char> {
    if s.len() > 0 && s[0] == '+' {
        s.drop_first()
    } else {
        s
    }
}

/// Whether `s` reads as a non-negative integer: an optional `+`, then one
/// or more decimal digits.
pub open spec fn is_unsigned(s: Seq<char>) -> bool {
    let d = unsigned_digits(s);
    d.len() > 0 && forall|i: int| 0 <= i < d.len() ==> is_digit(#[trigger] d[i])
}

proof fn lemma_decimal_grows(s: Seq<char>, k: int)
    requires
        0 <= k <= s.len(),
        forall|i: int| 0 <= i < s.len() ==> is_digit(#[trigger] s[i]),
    ensures
        decimal_value(s.subrange(0, k)) <= decimal_value(s),
        0 <= decimal_value(s.subrange(0, k)),
    decreases s.len() - k,
{
    if k < s.len() {
        lemma_decimal_grows(s, k + 1);
        let t = s.subrange(0, k + 1);
        assert(t.drop_last() =~= s.subrange(0, k));
        lemma_decimal_nonneg(s.subrange(0, k));
    } else {
        assert(s.subrange(0, k) =~= s);
        lemma_decimal_nonneg(s);
    }
}

proof fn lemma_decimal_nonneg(s: Seq<char>)
    requires
        forall|i: int| 0 <= i < s.len() ==> is_digit(#[trigger] s[i]),
    ensures
        0 <= decimal_value(s),
    decreases s.len(),
{
    if s.len() > 0 {
        lemma_decimal_nonneg(s.drop_last());
    }
}

/// The number that `input` writes, when it is one below `bound`.
pub fn index_below(input: &str, bound: usize) -> (r: Option<usize>)
    ensures
        r == (if is_unsigned(input@) && decimal_value(unsigned_digits(input@)) < bound {
            Some(decimal_value(unsigned_digits(input@)) as usize)
        } else {
            None
        }),
{
    let ghost d = unsigned_digits(input@);
    let n = input.unicode_len();
    let mut i: usize = 0;
    if n > 0 && input.get_char(0) == '+' {
        i = 1;
    }
    let start = i;
    assert(d =~= input@.subrange(start as int, n as int));
    if i == n || bound == 0 {
        proof {
            if forall|j: int| 0 <= j < d.len() ==> is_digit(#[trigger] d[j]) {
                lemma_decimal_nonneg(d);
            }
        }
        return None;
    }
    let mut v: usize = 0;
    assert(d.subrange(0, 0) =~= Seq::<char>::empty());
    while i < n
        invariant
            d == unsigned_digits(input@),
            d =~= input@.subrange(start as int, n as int),
            n == input@.len(),
            start <= i <= n,
            start < n,
            forall|j: int| 0 <= j < i - start ==> is_digit(#[trigger] d[j]),
            v == decimal_value(d.subrange(0, i - start)),
            v < bound,
        decreases n - i,
    {
        let c = input.get_char(i);
        assert(c == d[i - start]);
        if !('0' <= c && c <= '9') {
            let ghost k: int = i - start;
            assert(0 <= k < d.len() && !is_digit(d[k]));
            assert(!(forall|j: int| 0 <= j < d.len() ==> is_digit(#[trigger] d[j])));
            assert(!is_unsigned(input@));
            return None;
        }
        let digit = (c as u32 - '0' as u32) as usize;
        let ghost pre = d.subrange(0, i - start + 1);
        assert(pre.drop_last() =~= d.subrange(0, i - start));
        assert(pre.last() == c);
        assert(decimal_value(pre) == 10 * v + digit);
        if digit >= bound || v > (bound - 1 - digit) / 10 {
            proof {
                assert(decimal_value(pre) >= bound) by (nonlinear_arith)
                    requires
                        decimal_value(pre) == 10 * v + digit,
                        v > (bound - 1 - digit) / 10 || digit >= bound,
                        0 <= digit <= 9,
                        v >= 0,
                        bound > 0,
                ;
                if forall|j: int| 0 <= j < d.len() ==> is_digit(#[trigger] d[j]) {
                    lemma_decimal_grows(d, i - start + 1);
                }
            }
            return None;
        }
        assert(10 * v + digit < bound) by (nonlinear_arith)
            requires
                v <= (bound - 1 - digit) / 10,
                digit < bound,
                0 <= digit <= 9,
        ;
        v = 10 * v + digit;
        i += 1;
    }
    assert(d.subrange(0, n - start) =~= d);
    Some(v)
}

/// The option that an input selects from `labels`: the one label it begins,
/// ignoring case, else the index it writes, when that is in range.
pub fn select_choice(input: &str, labels: &Vec<String>) -> (r: Option<usize>)
    ensures
        (exists|i: int| unique_match(lower_of(input@), lowered(labels@), i)) ==> picked(
            lower_of(input@),
            lowered(labels@),
            r,
        ),
        (forall|i: int| !unique_match(lower_of(input@), lowered(labels@), i)) ==> r == (if is_unsigned(
            input@,
        ) && decimal_value(unsigned_digits(input@)) < labels@.len() {
            Some(decimal_value(unsigned_digits(input@)) as usize)
        } else {
            None
        }),
{
    match match_command(input, labels) {
        Some(i) => Some(i),
        None => index_below(input, labels.len()),
    }
}


#[derive(Clone, Copy, Debug, PartialEq, Eq, Structural)]
pub enum Colors {
    Red,
    Green,
    Blue,
    Yellow,
    Magenta,
    Cyan,
    White,
    Black,
}

/// The code of a foreground colour in an ANSI escape sequence.
pub open spec fn ansi_code(c: Colors) -> Seq<char> {
    match c {
        Colors::Black => "30"@,
        Colors::Red => "31"@,
        Colors::Green => "32"@,
        Colors::Yellow => "33"@,
        Colors::Blue => "34"@,
        Colors::Magenta => "35"@,
        Colors::Cyan => "36"@,
        Colors::White => "37"@,
    }
}

pub open spec fn no_escape(t: Seq<char>) -> bool {
    forall|i: int| 0 <= i < t.len() ==> t[i] != '\x1b'
}

/// `r` shows `t` in colour `c`: either `t` itself, where the terminal or the
/// environment turns colour off, or `t` between the colour's escape
/// sequence and a reset.
pub open spec fn painted(r: Seq<char>, t: Seq<char>, c: Colors) -> bool {
    r == t || r == "\x1b["@ + ansi_code(c) + "m"@ + t + "\x1b[0m"@
}

/// Relies on `colored::Colorize` for `&str` and the `Display` of
/// `colored::ColoredString` (colored 2.2): with a foreground colour and no
/// other style it writes the input alone when colouring is off, else the
/// colour's escape sequence, the input and a reset. An input without an
/// escape character holds no reset to rewrite.
#[verifier::external_body]
pub(crate) fn paint(text: &str, color: Colors) -> (r: String)
    requires
        no_escape(text@),
    ensures
        painted(r@, text@, color),
{
    let c = match color {
        Colors::Red => colored::Color::Red,
        Colors::Green => colored::Color::Green,
        Colors::Blue => colored::Color::Blue,
        Colors::Yellow => colored::Color::Yellow,
        Colors::Magenta => colored::Color::Magenta,
        Colors::Cyan => colored::Color::Cyan,
        Colors::White => colored::Color::White,
        Colors::Black => colored::Color::Black,
    };
    text.color(c).to_string()
}

} // verus!
