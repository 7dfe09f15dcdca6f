//! Shapes that a captured field must have.
use vstd::prelude::*;
use crate::scan::{
    all_in, chars_of, class_contains, has_lit_at, in_class, is_digit, lit_at, run_end, scan_run,
    Class,
};

verus! {

/// Constraint on the text of one captured field.
#[derive(Clone, Copy, PartialEq, Eq, Debug)]
pub enum Check {
    /// Any text.
    Any,
    /// Any text without a line break.
    Line,
    /// An equipment name: `[A-Za-z0-9_]*`, optionally followed by `(digits)`.
    Token,
    /// An IPv4 address with a port: `d.d.d.d:p`.
    Address,
    /// A persistent id, `BOT` or `Console`.
    PlayerId,
    /// A persistent id or `BOT`.
    SteamOrBot,
    /// A word of a closed vocabulary.
    Word(Vocab),
    /// A list of equipment names, each followed by one space.
    Items,
}

/// Closed vocabularies of the grammar.
#[derive(Clone, Copy, PartialEq, Eq, Debug)]
pub enum Vocab {
    /// `""`, `Unassigned`, `TERRORIST`, `CT`, `Spectator`, `Console`.
    TeamAll,
    /// `""`, `Unassigned`, `TERRORIST`, `CT`, `Spectator`.
    TeamSide,
    /// `TERRORIST`, `CT`.
    Side,
    /// The nine body parts of a hit.
    HitGroup,
}

pub open spec fn vocab_words(v: Vocab) -> Seq<&'static str> {
    match v {
        Vocab::TeamAll => seq!["", "Unassigned", "TERRORIST", "CT", "Spectator", "Console"],
        Vocab::TeamSide => seq!["", "Unassigned", "TERRORIST", "CT", "Spectator"],
        Vocab::Side => seq!["TERRORIST", "CT"],
        Vocab::HitGroup => seq![
            "chest",
            "generic",
            "head",
            "left arm",
            "left leg",
            "neck",
            "right arm",
            "right leg",
            "stomach",
        ],
    }
}

pub open spec fn in_vocab(t: Seq<char>, v: Vocab) -> bool {
    exists|i: int| 0 <= i < vocab_words(v).len() && t == (#[trigger] vocab_words(v)[i])@
}

pub open spec fn token_ok(t: Seq<char>) -> bool {
    let w = run_end(t, 0, Class::Word);
    w == t.len() || (t[w] == '(' && run_end(t, w + 1, Class::Digit) > w + 1 && run_end(
        t,
        w + 1,
        Class::Digit,
    ) + 1 == t.len() && t[run_end(t, w + 1, Class::Digit)] == ')')
}

/// A run of one to `max` digits starts at `pos`.
pub open spec fn digit_group_ok(t: Seq<char>, pos: int, max: int) -> bool {
    pos < run_end(t, pos, Class::Digit) <= pos + max
}

pub open spec fn address_ok(t: Seq<char>) -> bool {
    let e1 = run_end(t, 0, Class::Digit);
    let e2 = run_end(t, e1 + 1, Class::Digit);
    let e3 = run_end(t, e2 + 1, Class::Digit);
    let e4 = run_end(t, e3 + 1, Class::Digit);
    let e5 = run_end(t, e4 + 1, Class::Digit);
    &&& digit_group_ok(t, 0, 3)
    &&& e1 < t.len() && t[e1] == '.'
    &&& digit_group_ok(t, e1 + 1, 3)
    &&& e2 < t.len() && t[e2] == '.'
    &&& digit_group_ok(t, e2 + 1, 3)
    &&& e3 < t.len() && t[e3] == '.'
    &&& digit_group_ok(t, e3 + 1, 3)
    &&& e4 < t.len() && t[e4] == ':'
    &&& digit_group_ok(t, e4 + 1, 5)
    &&& e5 == t.len()
}

/// `STEAM_d:d:digits`.
pub open spec fn steam_id_ok(t: Seq<char>) -> bool {
    &&& has_lit_at(t, 0, "STEAM_"@)
    &&& t.len() > 10
    &&& is_digit(t[6]) && t[7] == ':' && is_digit(t[8]) && t[9] == ':'
    &&& run_end(t, 10, Class::Digit) == t.len()
}

/// From `i` on, `t` is a run of equipment names each followed by one space.
pub open spec fn items_ok(t: Seq<char>, i: int) -> bool
    decreases t.len() - i,
{
    if i < 0 || i >= t.len() {
        true
    } else {
        let sp = run_end(t, i, Class::Not(' '));
        i <= sp < t.len() && token_ok(t.subrange(i, sp)) && items_ok(t, sp + 1)
    }
}

pub open spec fn check_ok(c: Check, t: Seq<char>) -> bool {
    match c {
        Check::Any => true,
        Check::Line => all_in(t, Class::Not('\n')),
        Check::Token => token_ok(t),
        Check::Address => address_ok(t),
        Check::PlayerId => steam_id_ok(t) || t == "BOT"@ || t == "Console"@,
        Check::SteamOrBot => steam_id_ok(t) || t == "BOT"@,
        Check::Word(v) => in_vocab(t, v),
        Check::Items => items_ok(t, 0),
    }
}

pub fn vocab_list(v: Vocab) -> (r: Vec<&'static str>)
    ensures
        r@ == vocab_words(v),
{
    match v {
        Vocab::TeamAll => vec!["", "Unassigned", "TERRORIST", "CT", "Spectator", "Console"],
        Vocab::TeamSide => vec!["", "Unassigned", "TERRORIST", "CT", "Spectator"],
        Vocab::Side => vec!["TERRORIST", "CT"],
        Vocab::HitGroup => vec![
            "chest",
            "generic",
            "head",
            "left arm",
            "left leg",
            "neck",
            "right arm",
            "right leg",
            "stomach",
        ],
    }
}

/// Whether `t` is exactly the literal `l`.
pub fn is_lit(t: &Vec<char>, l: &str) -> (r: bool)
    ensures
        r == (t@ == l@),
{
    if t.len() != l.unicode_len() {
        return false;
    }
    let r = lit_at(t, 0, l);
    assert(r ==> t@.subrange(0, t@.len() as int) =~= t@);
    assert(t@ == l@ ==> t@.subrange(0, t@.len() as int) =~= t@);
    r
}

/// Position of `t` in the vocabulary `v`, if it is one of its words.
pub fn vocab_index(t: &Vec<char>, v: Vocab) -> (r: Option<usize>)
    ensures
        r is Some <==> in_vocab(t@, v),
        r is Some ==> r->0 < vocab_words(v).len() && t@ == vocab_words(v)[r->0 as int]@,
{
    let ws = vocab_list(v);
    let mut i: usize = 0;
    while i < ws.len()
        invariant
            ws@ == vocab_words(v),
            i <= ws.len(),
            forall|j: int| 0 <= j < i ==> t@ != (#[trigger] ws@[j])@,
        decreases ws.len() - i,
    {
        if is_lit(t, ws[i]) {
            return Some(i);
        }
        i += 1;
    }
    None
}

pub fn token_check(t: &Vec<char>) -> (r: bool)
    ensures
        r == token_ok(t@),
{
    let w = scan_run(t, 0, Class::Word);
    if w == t.len() {
        return true;
    }
    if t[w] != '(' {
        return false;
    }
    let d = scan_run(t, w + 1, Class::Digit);
    d > w + 1 && d < t.len() && d + 1 == t.len() && t[d] == ')'
}

fn digit_group(t: &Vec<char>, pos: usize, max: usize, sep: char) -> (r: Option<usize>)
    requires
        pos <= t.len(),
        max <= 5,
    ensures
        r is Some <==> (digit_group_ok(t@, pos as int, max as int) && run_end(
            t@,
            pos as int,
            Class::Digit,
        ) < t.len() && t@[run_end(t@, pos as int, Class::Digit)] == sep),
        r is Some ==> r->0 == run_end(t@, pos as int, Class::Digit) + 1 && r->0 <= t.len(),
{
    let e = scan_run(t, pos, Class::Digit);
    if pos < e && e - pos <= max && e < t.len() && t[e] == sep {
        Some(e + 1)
    } else {
        None
    }
}

pub fn address_check(t: &Vec<char>) -> (r: bool)
    ensures
        r == address_ok(t@),
{
    let p1 = match digit_group(t, 0, 3, '.') {
        Some(p) => p,
        None => return false,
    };
    let p2 = match digit_group(t, p1, 3, '.') {
        Some(p) => p,
        None => return false,
    };
    let p3 = match digit_group(t, p2, 3, '.') {
        Some(p) => p,
        None => return false,
    };
    let p4 = match digit_group(t, p3, 3, ':') {
        Some(p) => p,
        None => return false,
    };
    let e = scan_run(t, p4, Class::Digit);
    p4 < e && e - p4 <= 5 && e == t.len()
}

pub fn steam_id_check(t: &Vec<char>) -> (r: bool)
    ensures
        r == steam_id_ok(t@),
{
    if !lit_at(t, 0, "STEAM_") {
        return false;
    }
    if t.len() <= 10 {
        return false;
    }
    if !(class_contains(t[6], Class::Digit) && t[7] == ':' && class_contains(t[8], Class::Digit)
        && t[9] == ':') {
        return false;
    }
    scan_run(t, 10, Class::Digit) == t.len()
}

/// The characters `t[a..b]`.
pub fn slice_of(t: &Vec<char>, a: usize, b: usize) -> (r: Vec<char>)
    requires
        a <= b <= t.len(),
    ensures
        r@ == t@.subrange(a as int, b as int),
{
    let mut r: Vec<char> = Vec::new();
    let mut i = a;
    while i < b
        invariant
            a <= i <= b <= t.len(),
            r@ == t@.subrange(a as int, i as int),
        decreases b - i,
    {
        r.push(t[i]);
        i += 1;
        assert(r@ =~= t@.subrange(a as int, i as int));
    }
    r
}

pub fn items_check(t: &Vec<char>) -> (r: bool)
    ensures
        r == items_ok(t@, 0),
{
    let mut i: usize = 0;
    while i < t.len()
        invariant
            i <= t.len(),
            items_ok(t@, i as int) == items_ok(t@, 0),
        decreases t.len() - i,
    {
        let sp = scan_run(t, i, Class::Not(' '));
        if sp >= t.len() {
            return false;
        }
        let tok = slice_of(t, i, sp);
        if !token_check(&tok) {
            return false;
        }
        i = sp + 1;
    }
    true
}

pub fn line_check(t: &Vec<char>) -> (r: bool)
    ensures
        r == all_in(t@, Class::Not('\n')),
{
    let e = scan_run(t, 0, Class::Not('\n'));
    proof {
        crate::scan::lemma_run_end_bounds(t@, 0, Class::Not('\n'));
        assert(t@.subrange(0, e as int) =~= t@ || e < t.len());
    }
    if e < t.len() {
        assert(!in_class(t@[e as int], Class::Not('\n')));
        false
    } else {
        assert(t@.subrange(0, e as int) =~= t@);
        true
    }
}

pub fn check_holds(c: Check, t: &Vec<char>) -> (r: bool)
    ensures
        r == check_ok(c, t@),
{
    match c {
        Check::Any => true,
        Check::Line => line_check(t),
        Check::Token => token_check(t),
        Check::Address => address_check(t),
        Check::PlayerId => steam_id_check(t) || is_lit(t, "BOT") || is_lit(t, "Console"),
        Check::SteamOrBot => steam_id_check(t) || is_lit(t, "BOT"),
        Check::Word(v) => vocab_index(t, v).is_some(),
        Check::Items => items_check(t),
    }
}

} // verus!
