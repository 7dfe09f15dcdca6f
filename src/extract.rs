//! Conversion of captured fields into typed values.
use vstd::prelude::*;
use crate::grammar::{caps_within, hi, lo, Cap};
use crate::model::{Duration, HitGroup, KillAttributes, LogPrefix, Player, PlayerID, TeamAll, Team, Vector3};
use crate::scan::{all_in, dec_value, digits_value, has_lit_at, run_end, scan_run, Class};
use crate::checks::{is_lit, slice_of};

verus! {

broadcast use vstd::string::group_string_axioms;


/// The text of field `i`, if it is present.
pub open spec fn txt_at(s: Seq<char>, c: Seq<Cap>, i: int) -> Option<Seq<char>> {
    if 0 <= i < c.len() && c[i] is Some {
        Some(s.subrange(lo(c[i]->0) as int, hi(c[i]->0) as int))
    } else {
        None
    }
}

/// Value of a run of digits, with an optional leading minus sign.
pub open spec fn signed_value(t: Seq<char>) -> int {
    if t.len() > 0 && t[0] == '-' {
        -dec_value(t.drop_first())
    } else {
        dec_value(t)
    }
}

/// `t` is one or more digits after an optional minus sign (if `signed`).
pub open spec fn numeral(t: Seq<char>, signed: bool) -> bool {
    if signed && t.len() > 0 && t[0] == '-' {
        t.len() > 1 && all_in(t.drop_first(), Class::Digit)
    } else {
        t.len() > 0 && all_in(t, Class::Digit)
    }
}

/// The non-negative integer of field `i`, where it fits in an `i32`.
pub open spec fn int_at(s: Seq<char>, c: Seq<Cap>, i: int) -> Option<i32> {
    match txt_at(s, c, i) {
        Some(t) => if numeral(t, false) && dec_value(t) <= i32::MAX {
            Some(dec_value(t) as i32)
        } else {
            None
        },
        None => None,
    }
}

/// The signed integer of field `i`, where it fits in an `i32`.
pub open spec fn sint_at(s: Seq<char>, c: Seq<Cap>, i: int) -> Option<i32> {
    match txt_at(s, c, i) {
        Some(t) => if numeral(t, true) && i32::MIN <= signed_value(t) <= i32::MAX {
            Some(signed_value(t) as i32)
        } else {
            None
        },
        None => None,
    }
}

/// The non-negative integer of field `i`, where it fits in a `u32`.
pub open spec fn u32_at(s: Seq<char>, c: Seq<Cap>, i: int) -> Option<u32> {
    match txt_at(s, c, i) {
        Some(t) => if numeral(t, false) && dec_value(t) <= u32::MAX {
            Some(dec_value(t) as u32)
        } else {
            None
        },
        None => None,
    }
}

/// The non-negative integer of field `i`, where it fits in a `u64`.
pub open spec fn u64_at(s: Seq<char>, c: Seq<Cap>, i: int) -> Option<u64> {
    match txt_at(s, c, i) {
        Some(t) => if numeral(t, false) && dec_value(t) <= u64::MAX {
            Some(dec_value(t) as u64)
        } else {
            None
        },
        None => None,
    }
}

/// The timestamp of a line: the first six fields.
pub open spec fn prefix_at(s: Seq<char>, c: Seq<Cap>) -> Option<LogPrefix> {
    if int_at(s, c, 0) is Some && int_at(s, c, 1) is Some && int_at(s, c, 2) is Some && int_at(
        s,
        c,
        3,
    ) is Some && int_at(s, c, 4) is Some && int_at(s, c, 5) is Some {
        Some(
            LogPrefix {
                month: int_at(s, c, 0)->0,
                day: int_at(s, c, 1)->0,
                year: int_at(s, c, 2)->0,
                hour: int_at(s, c, 3)->0,
                minute: int_at(s, c, 4)->0,
                second: int_at(s, c, 5)->0,
            },
        )
    } else {
        None
    }
}

/// Team tag named by `t`: the empty text and `Unassigned` both mean unassigned.
pub open spec fn team_all_of(t: Seq<char>) -> Option<TeamAll> {
    if t == ""@ || t == "Unassigned"@ {
        Some(TeamAll::UNASSIGNED)
    } else if t == "TERRORIST"@ {
        Some(TeamAll::TERRORIST)
    } else if t == "CT"@ {
        Some(TeamAll::CT)
    } else if t == "Spectator"@ {
        Some(TeamAll::SPECTATOR)
    } else if t == "Console"@ {
        Some(TeamAll::CONSOLE)
    } else {
        None
    }
}

pub open spec fn side_of(t: Seq<char>) -> Option<Team> {
    if t == "TERRORIST"@ {
        Some(Team::TERRORIST)
    } else if t == "CT"@ {
        Some(Team::CT)
    } else {
        None
    }
}

pub open spec fn hitgroup_of(t: Seq<char>) -> Option<HitGroup> {
    if t == "chest"@ {
        Some(HitGroup::Chest)
    } else if t == "generic"@ {
        Some(HitGroup::Generic)
    } else if t == "head"@ {
        Some(HitGroup::Head)
    } else if t == "left arm"@ {
        Some(HitGroup::LeftArm)
    } else if t == "left leg"@ {
        Some(HitGroup::LeftLeg)
    } else if t == "neck"@ {
        Some(HitGroup::Neck)
    } else if t == "right arm"@ {
        Some(HitGroup::RightArm)
    } else if t == "right leg"@ {
        Some(HitGroup::RightLeg)
    } else if t == "stomach"@ {
        Some(HitGroup::Stomach)
    } else {
        None
    }
}

/// Kill modifiers: none when the parenthetical is absent.
pub open spec fn kill_attributes_of(t: Option<Seq<char>>) -> Option<KillAttributes> {
    match t {
        None => Some(KillAttributes { headshot: false, penetrated: false }),
        Some(t) => if t == "headshot"@ {
            Some(KillAttributes { headshot: true, penetrated: false })
        } else if t == "penetrated"@ {
            Some(KillAttributes { headshot: false, penetrated: true })
        } else if t == "headshot penetrated"@ {
            Some(KillAttributes { headshot: true, penetrated: true })
        } else {
            None
        },
    }
}

/// `id` is the identity that `t` names: text starting with `STEAM_` is a persistent id.
pub open spec fn id_is(id: PlayerID, t: Seq<char>) -> bool {
    if has_lit_at(t, 0, "STEAM_"@) {
        id matches PlayerID::STAMID(x) && x@ == t
    } else if t == "BOT"@ {
        id == PlayerID::BOT
    } else if t == "Console"@ {
        id == PlayerID::CONSOLE
    } else {
        false
    }
}

/// `t` names an identity: a persistent id, `BOT` or `Console`.
pub open spec fn id_ok(t: Seq<char>) -> bool {
    has_lit_at(t, 0, "STEAM_"@) || t == "BOT"@ || t == "Console"@
}

/// The four fields from `i` describe a player.
pub open spec fn player_ok(s: Seq<char>, c: Seq<Cap>, i: int) -> bool {
    &&& txt_at(s, c, i) is Some
    &&& int_at(s, c, i + 1) is Some
    &&& txt_at(s, c, i + 2) is Some && id_ok(txt_at(s, c, i + 2)->0)
    &&& txt_at(s, c, i + 3) is Some && team_all_of(txt_at(s, c, i + 3)->0) is Some
}

/// The three fields from `i` describe a player without a team.
pub open spec fn player_no_team_ok(s: Seq<char>, c: Seq<Cap>, i: int) -> bool {
    &&& txt_at(s, c, i) is Some
    &&& int_at(s, c, i + 1) is Some
    &&& txt_at(s, c, i + 2) is Some && id_ok(txt_at(s, c, i + 2)->0)
}

/// `p` is the player described by the four fields from `i`.
pub open spec fn player_is(p: Player, s: Seq<char>, c: Seq<Cap>, i: int) -> bool {
    &&& txt_at(s, c, i) == Some(p.nick@)
    &&& int_at(s, c, i + 1) == Some(p.entity_index)
    &&& txt_at(s, c, i + 2) is Some && id_is(p.id, txt_at(s, c, i + 2)->0)
    &&& txt_at(s, c, i + 3) is Some && team_all_of(txt_at(s, c, i + 3)->0) == Some(p.team)
}

/// `p` is the player described by the three fields from `i`, with no team.
pub open spec fn player_no_team_is(p: Player, s: Seq<char>, c: Seq<Cap>, i: int) -> bool {
    &&& txt_at(s, c, i) == Some(p.nick@)
    &&& int_at(s, c, i + 1) == Some(p.entity_index)
    &&& txt_at(s, c, i + 2) is Some && id_is(p.id, txt_at(s, c, i + 2)->0)
    &&& p.team == TeamAll::UNASSIGNED
}

pub open spec fn vector_at(s: Seq<char>, c: Seq<Cap>, i: int) -> Option<Vector3> {
    if sint_at(s, c, i) is Some && sint_at(s, c, i + 1) is Some && sint_at(s, c, i + 2) is Some {
        Some(
            Vector3 {
                x: sint_at(s, c, i)->0,
                y: sint_at(s, c, i + 1)->0,
                z: sint_at(s, c, i + 2)->0,
            },
        )
    } else {
        None
    }
}

/// The pieces of `u` from `i` on, split at each space.
pub open spec fn split_from(u: Seq<char>, i: int) -> Seq<Seq<char>>
    decreases u.len() - i,
{
    let sp = run_end(u, i, Class::Not(' '));
    if i < 0 || i > u.len() {
        seq![]
    } else if sp >= u.len() || sp < i {
        seq![u.subrange(i, u.len() as int)]
    } else {
        seq![u.subrange(i, sp)] + split_from(u, sp + 1)
    }
}

/// The equipment list `item item ... ` : one trailing space stripped, then split
/// at spaces; the empty text is the empty list.
pub open spec fn items_of(t: Seq<char>) -> Seq<Seq<char>> {
    if t.len() == 0 {
        seq![]
    } else if t.last() == ' ' {
        split_from(t.drop_last(), 0)
    } else {
        split_from(t, 0)
    }
}

/// Duration of a blinding: whole seconds and hundredths, in milliseconds,
/// where that fits in a `u64`.
pub open spec fn blind_millis(s: Seq<char>, c: Seq<Cap>, i: int) -> Option<u64> {
    if u64_at(s, c, i) is Some && u32_at(s, c, i + 1) is Some && u64_at(s, c, i)->0 * 1000
        + u32_at(s, c, i + 1)->0 * 10 <= u64::MAX {
        Some((u64_at(s, c, i)->0 * 1000 + u32_at(s, c, i + 1)->0 * 10) as u64)
    } else {
        None
    }
}

/// Whole minutes, in milliseconds, where that fits in a `u64`.
pub open spec fn minutes_millis(s: Seq<char>, c: Seq<Cap>, i: int) -> Option<u64> {
    if u64_at(s, c, i) is Some && u64_at(s, c, i)->0 * 60000 <= u64::MAX {
        Some((u64_at(s, c, i)->0 * 60000) as u64)
    } else {
        None
    }
}

/// The integer type that an integer field of an entry is read into.
#[derive(Clone, Copy, PartialEq, Eq, Structural, Debug)]
pub enum Bound {
    /// A non-negative `i32`.
    Int,
    /// An `i32`.
    Signed,
    /// The duration of a blinding in milliseconds, from this field and the next.
    Blind,
    /// A number of minutes as a duration in milliseconds.
    Minutes,
    /// An optional non-negative `i32`.
    Count,
}

/// The integer field `i` of type `b` converts: its number fits in that type.
pub open spec fn field_fits(s: Seq<char>, c: Seq<Cap>, i: int, b: Bound) -> bool {
    match b {
        Bound::Int => int_at(s, c, i) is Some,
        Bound::Signed => sint_at(s, c, i) is Some,
        Bound::Blind => blind_millis(s, c, i) is Some,
        Bound::Minutes => minutes_millis(s, c, i) is Some,
        Bound::Count => count_or_zero(s, c, i) is Some,
    }
}

/// An optional count that is zero when absent.
pub open spec fn count_or_zero(s: Seq<char>, c: Seq<Cap>, i: int) -> Option<i32> {
    if 0 <= i < c.len() && c[i] is None {
        Some(0)
    } else {
        int_at(s, c, i)
    }
}

/// Whether the optional field `i` is present.
pub open spec fn present(c: Seq<Cap>, i: int) -> bool {
    0 <= i < c.len() && c[i] is Some
}

/// `o` is the optional text field `i`.
pub open spec fn opt_is(o: Option<String>, s: Seq<char>, c: Seq<Cap>, i: int) -> bool {
    0 <= i < c.len() && match o {
        None => c[i] is None,
        Some(x) => txt_at(s, c, i) == Some(x@),
    }
}

pub open spec fn strings_view(v: Seq<String>) -> Seq<Seq<char>> {
    v.map_values(|x: String| x@)
}

// Executable conversions. Each takes as given what the grammar guarantees of
// a matched line, so none of them can fail.

/// The text of field `i`.
pub fn cap_text(line: &str, s: &Vec<char>, c: &Vec<Cap>, i: usize) -> (r: String)
    requires
        line@ == s@,
        caps_within(c@, s@.len() as int),
        txt_at(s@, c@, i as int) is Some,
    ensures
        txt_at(s@, c@, i as int) == Some(r@),
{
    let (a, b) = c[i].unwrap();
    line.substring_char(a, b).to_owned()
}

fn numeral_at(s: &Vec<char>, a: usize, b: usize, signed: bool) -> (r: Option<(bool, u32)>)
    requires
        a <= b <= s.len(),
    ensures
        ({
            let t = s@.subrange(a as int, b as int);
            let neg = signed && t.len() > 0 && t[0] == '-';
            let d = if neg {
                t.drop_first()
            } else {
                t
            };
            if numeral(t, signed) && dec_value(d) <= u32::MAX {
                r == Some((neg, dec_value(d) as u32))
            } else {
                r is None
            }
        }),
{
    let ghost t = s@.subrange(a as int, b as int);
    let neg = signed && a < b && s[a] == '-';
    let start = if neg {
        a + 1
    } else {
        a
    };
    let ghost d = s@.subrange(start as int, b as int);
    assert(neg ==> t.drop_first() =~= d);
    assert(!neg ==> t =~= d);
    if start >= b {
        return None;
    }
    let e = scan_run(s, start, Class::Digit);
    proof {
        crate::scan::lemma_run_end_bounds(s@, start as int, Class::Digit);
    }
    if e < b {
        let ghost k = e - start;
        assert(e < s.len());
        assert(d[k] == s@[e as int]);
        return None;
    }
    assert(all_in(d, Class::Digit)) by {
        assert forall|j: int| 0 <= j < d.len() implies crate::scan::in_class(
            #[trigger] d[j],
            Class::Digit,
        ) by {
            assert(d[j] == s@.subrange(start as int, e as int)[j]);
        }
    }
    match digits_value(s, start, b) {
        Some(v) => Some((neg, v)),
        None => None,
    }
}

/// The value of `s[a..b]` where it is one or more digits and fits in a `u64`.
fn numeral_u64_at(s: &Vec<char>, a: usize, b: usize) -> (r: Option<u64>)
    requires
        a <= b <= s.len(),
    ensures
        ({
            let t = s@.subrange(a as int, b as int);
            if numeral(t, false) && dec_value(t) <= u64::MAX {
                r == Some(dec_value(t) as u64)
            } else {
                r is None
            }
        }),
{
    let ghost t = s@.subrange(a as int, b as int);
    if a >= b {
        return None;
    }
    let e = scan_run(s, a, Class::Digit);
    proof {
        crate::scan::lemma_run_end_bounds(s@, a as int, Class::Digit);
    }
    if e < b {
        assert(t[e - a] == s@[e as int]);
        return None;
    }
    assert(all_in(t, Class::Digit)) by {
        assert forall|j: int| 0 <= j < t.len() implies crate::scan::in_class(
            #[trigger] t[j],
            Class::Digit,
        ) by {
            assert(t[j] == s@.subrange(a as int, e as int)[j]);
        }
    }
    crate::scan::digits_value_u64(s, a, b)
}

/// Whether the integer field `i` of type `b` converts.
pub fn field_fits_at(s: &Vec<char>, c: &Vec<Cap>, i: usize, b: Bound) -> (r: bool)
    requires
        caps_within(c@, s@.len() as int),
    ensures
        r == field_fits(s@, c@, i as int, b),
{
    match b {
        Bound::Int => int_converts(s, c, i),
        Bound::Signed => sint_converts(s, c, i),
        Bound::Blind => {
            if c.len() == 0 || i >= c.len() - 1 {
                return false;
            }
            match (u64_field(s, c, i), u32_field(s, c, i + 1)) {
                (Some(secs), Some(hundredths)) => (secs as u128) * 1000 + (hundredths as u128) * 10
                    <= 18446744073709551615,
                _ => false,
            }
        },
        Bound::Minutes => match u64_field(s, c, i) {
            Some(m) => (m as u128) * 60000 <= 18446744073709551615,
            None => false,
        },
        Bound::Count => {
            if i < c.len() && c[i].is_none() {
                true
            } else {
                int_converts(s, c, i)
            }
        },
    }
}

fn u64_field(s: &Vec<char>, c: &Vec<Cap>, i: usize) -> (r: Option<u64>)
    requires
        caps_within(c@, s@.len() as int),
    ensures
        r == u64_at(s@, c@, i as int),
{
    if i >= c.len() {
        return None;
    }
    match c[i] {
        Some((a, b)) => {
            assert(c@[i as int] is Some);
            numeral_u64_at(s, a, b)
        },
        None => None,
    }
}

fn u32_field(s: &Vec<char>, c: &Vec<Cap>, i: usize) -> (r: Option<u32>)
    requires
        caps_within(c@, s@.len() as int),
    ensures
        r == u32_at(s@, c@, i as int),
{
    if i >= c.len() {
        return None;
    }
    match c[i] {
        Some((a, b)) => {
            assert(c@[i as int] is Some);
            match numeral_at(s, a, b, false) {
                Some((_, v)) => Some(v),
                None => None,
            }
        },
        None => None,
    }
}

fn int_converts(s: &Vec<char>, c: &Vec<Cap>, i: usize) -> (r: bool)
    requires
        caps_within(c@, s@.len() as int),
    ensures
        r == int_at(s@, c@, i as int) is Some,
{
    proof {
        if let Some(t) = txt_at(s@, c@, i as int) {
            if numeral(t, false) {
                crate::scan::lemma_dec_value_nonneg(t);
            }
        }
    }
    match u32_field(s, c, i) {
        Some(v) => v <= 2147483647,
        None => false,
    }
}

fn sint_converts(s: &Vec<char>, c: &Vec<Cap>, i: usize) -> (r: bool)
    requires
        caps_within(c@, s@.len() as int),
    ensures
        r == sint_at(s@, c@, i as int) is Some,
{
    if i >= c.len() {
        return false;
    }
    let (a, b) = match c[i] {
        Some(x) => x,
        None => return false,
    };
    assert(c@[i as int] is Some);
    let ghost t = s@.subrange(a as int, b as int);
    proof {
        if numeral(t, true) {
            if t[0] == '-' {
                crate::scan::lemma_dec_value_nonneg(t.drop_first());
            } else {
                crate::scan::lemma_dec_value_nonneg(t);
            }
        }
    }
    match numeral_at(s, a, b, true) {
        Some((neg, v)) => if neg {
            v <= 2147483648
        } else {
            v <= 2147483647
        },
        None => false,
    }
}

pub fn cap_u32(s: &Vec<char>, c: &Vec<Cap>, i: usize) -> (r: u32)
    requires
        caps_within(c@, s@.len() as int),
        u32_at(s@, c@, i as int) is Some,
    ensures
        u32_at(s@, c@, i as int) == Some(r),
{
    let (a, b) = c[i].unwrap();
    let (_, v) = numeral_at(s, a, b, false).unwrap();
    v
}

pub fn cap_int(s: &Vec<char>, c: &Vec<Cap>, i: usize) -> (r: i32)
    requires
        caps_within(c@, s@.len() as int),
        int_at(s@, c@, i as int) is Some,
    ensures
        int_at(s@, c@, i as int) == Some(r),
{
    proof {
        crate::scan::lemma_dec_value_nonneg(txt_at(s@, c@, i as int)->0);
    }
    let v = cap_u32(s, c, i);
    v as i32
}

pub fn cap_sint(s: &Vec<char>, c: &Vec<Cap>, i: usize) -> (r: i32)
    requires
        caps_within(c@, s@.len() as int),
        sint_at(s@, c@, i as int) is Some,
    ensures
        sint_at(s@, c@, i as int) == Some(r),
{
    let ghost t = txt_at(s@, c@, i as int)->0;
    proof {
        if t[0] == '-' {
            crate::scan::lemma_dec_value_nonneg(t.drop_first());
        } else {
            crate::scan::lemma_dec_value_nonneg(t);
        }
    }
    let (a, b) = c[i].unwrap();
    let (neg, v) = numeral_at(s, a, b, true).unwrap();
    if neg {
        (0 - (v as i64)) as i32
    } else {
        v as i32
    }
}

pub fn prefix_of(s: &Vec<char>, c: &Vec<Cap>) -> (r: LogPrefix)
    requires
        caps_within(c@, s@.len() as int),
        prefix_at(s@, c@) is Some,
    ensures
        prefix_at(s@, c@) == Some(r),
{
    LogPrefix {
        month: cap_int(s, c, 0),
        day: cap_int(s, c, 1),
        year: cap_int(s, c, 2),
        hour: cap_int(s, c, 3),
        minute: cap_int(s, c, 4),
        second: cap_int(s, c, 5),
    }
}

/// Team tag named by `t`: the empty text and `Unassigned` both mean unassigned.
pub fn team_all_from(t: &Vec<char>) -> (r: TeamAll)
    requires
        team_all_of(t@) is Some,
    ensures
        team_all_of(t@) == Some(r),
{
    if is_lit(t, "") || is_lit(t, "Unassigned") {
        TeamAll::UNASSIGNED
    } else if is_lit(t, "TERRORIST") {
        TeamAll::TERRORIST
    } else if is_lit(t, "CT") {
        TeamAll::CT
    } else if is_lit(t, "Spectator") {
        TeamAll::SPECTATOR
    } else {
        TeamAll::CONSOLE
    }
}

pub fn side_from(t: &Vec<char>) -> (r: Team)
    requires
        side_of(t@) is Some,
    ensures
        side_of(t@) == Some(r),
{
    if is_lit(t, "TERRORIST") {
        Team::TERRORIST
    } else {
        Team::CT
    }
}

pub fn hitgroup_from(t: &Vec<char>) -> (r: HitGroup)
    requires
        hitgroup_of(t@) is Some,
    ensures
        hitgroup_of(t@) == Some(r),
{
    if is_lit(t, "chest") {
        HitGroup::Chest
    } else if is_lit(t, "generic") {
        HitGroup::Generic
    } else if is_lit(t, "head") {
        HitGroup::Head
    } else if is_lit(t, "left arm") {
        HitGroup::LeftArm
    } else if is_lit(t, "left leg") {
        HitGroup::LeftLeg
    } else if is_lit(t, "neck") {
        HitGroup::Neck
    } else if is_lit(t, "right arm") {
        HitGroup::RightArm
    } else if is_lit(t, "right leg") {
        HitGroup::RightLeg
    } else {
        HitGroup::Stomach
    }
}

pub fn kill_attributes_from(t: Option<&Vec<char>>) -> (r: KillAttributes)
    requires
        kill_attributes_of(
            match t {
                Some(x) => Some(x@),
                None => None,
            },
        ) is Some,
    ensures
        kill_attributes_of(
            match t {
                Some(x) => Some(x@),
                None => None,
            },
        ) == Some(r),
{
    match t {
        None => KillAttributes { headshot: false, penetrated: false },
        Some(t) => if is_lit(t, "headshot") {
            KillAttributes { headshot: true, penetrated: false }
        } else if is_lit(t, "penetrated") {
            KillAttributes { headshot: false, penetrated: true }
        } else {
            KillAttributes { headshot: true, penetrated: true }
        },
    }
}

/// The identity that `s[a..b]` names: text starting with `STEAM_` is a persistent id.
pub fn player_id_from(line: &str, s: &Vec<char>, a: usize, b: usize) -> (r: PlayerID)
    requires
        line@ == s@,
        a <= b <= s.len(),
        id_ok(s@.subrange(a as int, b as int)),
    ensures
        id_is(r, s@.subrange(a as int, b as int)),
{
    let t = slice_of(s, a, b);
    proof {
        reveal_strlit("STEAM_");
    }
    if crate::scan::lit_at(&t, 0, "STEAM_") {
        PlayerID::STAMID(line.substring_char(a, b).to_owned())
    } else if is_lit(&t, "BOT") {
        PlayerID::BOT
    } else {
        PlayerID::CONSOLE
    }
}

fn cap_chars(s: &Vec<char>, c: &Vec<Cap>, i: usize) -> (r: Vec<char>)
    requires
        caps_within(c@, s@.len() as int),
        txt_at(s@, c@, i as int) is Some,
    ensures
        txt_at(s@, c@, i as int) == Some(r@),
{
    let (a, b) = c[i].unwrap();
    slice_of(s, a, b)
}

pub fn cap_team_all(s: &Vec<char>, c: &Vec<Cap>, i: usize) -> (r: TeamAll)
    requires
        caps_within(c@, s@.len() as int),
        txt_at(s@, c@, i as int) is Some,
        team_all_of(txt_at(s@, c@, i as int)->0) is Some,
    ensures
        team_all_of(txt_at(s@, c@, i as int)->0) == Some(r),
{
    team_all_from(&cap_chars(s, c, i))
}

pub fn cap_side(s: &Vec<char>, c: &Vec<Cap>, i: usize) -> (r: Team)
    requires
        caps_within(c@, s@.len() as int),
        txt_at(s@, c@, i as int) is Some,
        side_of(txt_at(s@, c@, i as int)->0) is Some,
    ensures
        side_of(txt_at(s@, c@, i as int)->0) == Some(r),
{
    side_from(&cap_chars(s, c, i))
}

pub fn cap_hitgroup(s: &Vec<char>, c: &Vec<Cap>, i: usize) -> (r: HitGroup)
    requires
        caps_within(c@, s@.len() as int),
        txt_at(s@, c@, i as int) is Some,
        hitgroup_of(txt_at(s@, c@, i as int)->0) is Some,
    ensures
        hitgroup_of(txt_at(s@, c@, i as int)->0) == Some(r),
{
    hitgroup_from(&cap_chars(s, c, i))
}

pub fn cap_kill_attributes(s: &Vec<char>, c: &Vec<Cap>, i: usize) -> (r: KillAttributes)
    requires
        caps_within(c@, s@.len() as int),
        i < c.len(),
        kill_attributes_of(txt_at(s@, c@, i as int)) is Some,
    ensures
        kill_attributes_of(txt_at(s@, c@, i as int)) == Some(r),
{
    if c[i].is_some() {
        kill_attributes_from(Some(&cap_chars(s, c, i)))
    } else {
        kill_attributes_from(None)
    }
}

pub fn cap_player(line: &str, s: &Vec<char>, c: &Vec<Cap>, i: usize) -> (r: Player)
    requires
        line@ == s@,
        caps_within(c@, s@.len() as int),
        player_ok(s@, c@, i as int),
    ensures
        player_is(r, s@, c@, i as int),
{
    let m = c.len();
    assert(txt_at(s@, c@, i + 3) is Some);
    assert(i + 1 < m);
    let nick = cap_text(line, s, c, i);
    let entity_index = cap_int(s, c, i + 1);
    let (a, b) = c[i + 2].unwrap();
    let id = player_id_from(line, s, a, b);
    let team = cap_team_all(s, c, i + 3);
    Player { nick, entity_index, id, team }
}

pub fn cap_player_no_team(line: &str, s: &Vec<char>, c: &Vec<Cap>, i: usize) -> (r: Player)
    requires
        line@ == s@,
        caps_within(c@, s@.len() as int),
        player_no_team_ok(s@, c@, i as int),
    ensures
        player_no_team_is(r, s@, c@, i as int),
{
    let m = c.len();
    assert(txt_at(s@, c@, i + 2) is Some);
    assert(i + 1 < m);
    let nick = cap_text(line, s, c, i);
    let entity_index = cap_int(s, c, i + 1);
    let (a, b) = c[i + 2].unwrap();
    let id = player_id_from(line, s, a, b);
    Player { nick, entity_index, id, team: TeamAll::UNASSIGNED }
}

pub fn cap_vector(s: &Vec<char>, c: &Vec<Cap>, i: usize) -> (r: Vector3)
    requires
        caps_within(c@, s@.len() as int),
        vector_at(s@, c@, i as int) is Some,
    ensures
        vector_at(s@, c@, i as int) == Some(r),
{
    let m = c.len();
    assert(sint_at(s@, c@, i + 2) is Some);
    assert(i + 1 < m);
    assert(txt_at(s@, c@, i + 2) is Some);
    Vector3 { x: cap_sint(s, c, i), y: cap_sint(s, c, i + 1), z: cap_sint(s, c, i + 2) }
}

/// The equipment list of field `i`.
pub fn cap_items(line: &str, s: &Vec<char>, c: &Vec<Cap>, i: usize) -> (r: Vec<String>)
    requires
        line@ == s@,
        caps_within(c@, s@.len() as int),
        txt_at(s@, c@, i as int) is Some,
    ensures
        strings_view(r@) == items_of(txt_at(s@, c@, i as int)->0),
{
    let (a, b) = c[i].unwrap();
    let ghost t = s@.subrange(a as int, b as int);
    let mut out: Vec<String> = Vec::new();
    if a == b {
        assert(strings_view(out@) =~= Seq::<Seq<char>>::empty());
        return out;
    }
    let e = if s[b - 1] == ' ' {
        b - 1
    } else {
        b
    };
    let u = slice_of(s, a, e);
    assert(t.last() == ' ' ==> t.drop_last() =~= u@);
    assert(t.last() != ' ' ==> t =~= u@);
    let mut j: usize = 0;
    let mut done = false;
    while !done
        invariant
            u@ == s@.subrange(a as int, e as int),
            a <= e <= s.len(),
            line@ == s@,
            j <= u.len(),
            done ==> strings_view(out@) == split_from(u@, 0),
            !done ==> strings_view(out@) + split_from(u@, j as int) == split_from(u@, 0),
        decreases u.len() - j, (if done {
            0int
        } else {
            1int
        }),
    {
        let sp = scan_run(&u, j, Class::Not(' '));
        proof {
            crate::scan::lemma_run_end_bounds(u@, j as int, Class::Not(' '));
        }
        let piece = line.substring_char(a + j, a + sp).to_owned();
        let ghost before = strings_view(out@);
        assert(piece@ =~= u@.subrange(j as int, sp as int));
        out.push(piece);
        assert(strings_view(out@) =~= before + seq![u@.subrange(j as int, sp as int)]);
        if sp >= u.len() {
            assert(split_from(u@, j as int) == seq![u@.subrange(j as int, u.len() as int)]);
            done = true;
        } else {
            let ghost rest = split_from(u@, sp + 1);
            assert(before + seq![u@.subrange(j as int, sp as int)] + rest =~= before + (seq![
                u@.subrange(j as int, sp as int),
            ] + rest));
            j = sp + 1;
        }
    }
    out
}

/// The optional text field `i`.
pub fn cap_opt_text(line: &str, s: &Vec<char>, c: &Vec<Cap>, i: usize) -> (r: Option<String>)
    requires
        line@ == s@,
        caps_within(c@, s@.len() as int),
        i < c.len(),
    ensures
        opt_is(r, s@, c@, i as int),
{
    if c[i].is_some() {
        Some(cap_text(line, s, c, i))
    } else {
        None
    }
}

pub fn cap_present(c: &Vec<Cap>, i: usize) -> (r: bool)
    ensures
        r == present(c@, i as int),
{
    i < c.len() && c[i].is_some()
}

/// The optional count of field `i`: zero where it is absent.
pub fn cap_count_or_zero(s: &Vec<char>, c: &Vec<Cap>, i: usize) -> (r: i32)
    requires
        caps_within(c@, s@.len() as int),
        count_or_zero(s@, c@, i as int) is Some,
    ensures
        count_or_zero(s@, c@, i as int) == Some(r),
{
    if i < c.len() && c[i].is_none() {
        0
    } else {
        cap_int(s, c, i)
    }
}

/// Whole seconds in field `i` and hundredths in field `i + 1`, in milliseconds.
pub fn cap_blind_millis(s: &Vec<char>, c: &Vec<Cap>, i: usize) -> (r: u64)
    requires
        caps_within(c@, s@.len() as int),
        blind_millis(s@, c@, i as int) is Some,
    ensures
        blind_millis(s@, c@, i as int) == Some(r),
{
    let m = c.len();
    assert(u32_at(s@, c@, i + 1) is Some);
    assert(txt_at(s@, c@, i + 1) is Some);
    assert(i + 1 < m);
    let secs = u64_field(s, c, i).unwrap();
    let hundredths = cap_u32(s, c, i + 1);
    secs * 1000 + (hundredths as u64) * 10
}

/// Whole minutes in field `i`, in milliseconds.
pub fn cap_minutes_millis(s: &Vec<char>, c: &Vec<Cap>, i: usize) -> (r: u64)
    requires
        caps_within(c@, s@.len() as int),
        minutes_millis(s@, c@, i as int) is Some,
    ensures
        minutes_millis(s@, c@, i as int) == Some(r),
{
    u64_field(s, c, i).unwrap() * 60000
}

} // verus!
