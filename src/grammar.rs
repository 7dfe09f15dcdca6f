//! Line patterns made of primitive pieces, and the matcher that runs a pattern
//! over a whole line.
use vstd::prelude::*;
use crate::checks::{check_holds, check_ok, is_lit, slice_of, Check, Vocab};
use crate::scan::{
    all_in, class_contains, has_lit_at, lit_at, run_end, run_start, scan_back, scan_run, Class,
};

verus! {

broadcast use vstd::string::group_string_axioms;

/// A captured field: the span `[a, b)` of the line, or nothing where an
/// optional part of the line is absent.
pub type Cap = Option<(usize, usize)>;

/// A primitive piece of a line pattern. Each matches deterministically at a
/// position and captures a fixed number of fields.
#[derive(Clone, Copy, PartialEq, Eq, Debug)]
pub enum Prim {
    /// The literal text; no field.
    Lit(&'static str),
    /// The longest run of characters other than the given one, of the given shape.
    Field(char, Check),
    /// One or more digits.
    Int,
    /// One or more digits after an optional minus sign.
    SignedInt,
    /// Exactly this many digits.
    Fixed(usize),
    /// Digits, a point and digits; a minus sign first if the flag is set.
    Decimal(bool),
    /// One or more letters, digits or underscores.
    Word,
    /// One or more whitespace characters; no field.
    Spaces,
    /// `+` or `-`.
    Sign,
    /// The rest of the line, without a line break; non-empty if the flag is set.
    Rest(bool),
    /// The rest of the line up to a final literal, captured without it, of the given shape.
    Tail(&'static str, Check),
    /// Optional `[READY] ` or `[NOT READY] `; captures the word(s) inside the brackets.
    Readiness,
    /// The end of a money line: nothing, ` (tracked)`, or ` (tracked) (purchase: item)`.
    MoneyTail,
    /// The end of a kill line: nothing or ` (headshot)`, ` (penetrated)`, ` (headshot penetrated)`.
    KillTail,
    /// The end of a plugin line: `s` or `.`, then optionally ` (n already loaded)`.
    PluginTail,
    /// `nick received failure code digits` to the end of the line.
    FailureCode,
}

pub open spec fn lo(x: (usize, usize)) -> usize {
    x.0
}

pub open spec fn hi(x: (usize, usize)) -> usize {
    x.1
}

/// Every captured span lies within a line of length `n`.
pub open spec fn caps_within(c: Seq<Cap>, n: int) -> bool {
    forall|i: int|
        0 <= i < c.len() && (#[trigger] c[i]) is Some ==> lo(c[i]->0) <= hi(c[i]->0) <= n
}

pub open spec fn span(a: int, b: int) -> Cap {
    Some((a as usize, b as usize))
}

pub open spec fn opt_sign_end(s: Seq<char>, pos: int, signed: bool) -> int {
    if signed && 0 <= pos < s.len() && s[pos] == '-' {
        pos + 1
    } else {
        pos
    }
}

pub open spec fn money_tail(s: Seq<char>, pos: int) -> Option<(int, Seq<Cap>)> {
    let n = s.len() as int;
    let p = pos + 10;
    if pos == n {
        Some((n, seq![None, None]))
    } else if !has_lit_at(s, pos, " (tracked)"@) {
        None
    } else if p == n {
        Some((n, seq![span(pos + 2, pos + 9), None]))
    } else if has_lit_at(s, p, " (purchase: "@) && p + 13 <= n && s[n - 1] == ')'
        && check_ok(Check::Token, s.subrange(p + 12, n - 1)) {
        Some((n, seq![span(pos + 2, pos + 9), span(p + 12, n - 1)]))
    } else {
        None
    }
}

pub open spec fn kill_tail(s: Seq<char>, pos: int) -> Option<(int, Seq<Cap>)> {
    let n = s.len() as int;
    let rest = s.subrange(pos, n);
    if pos == n {
        Some((n, seq![None]))
    } else if rest == " (headshot)"@ || rest == " (penetrated)"@ || rest
        == " (headshot penetrated)"@ {
        Some((n, seq![span(pos + 2, n - 1)]))
    } else {
        None
    }
}

pub open spec fn plugin_tail(s: Seq<char>, pos: int) -> Option<(int, Seq<Cap>)> {
    let n = s.len() as int;
    let p = pos + 1;
    let e = run_end(s, p + 2, Class::Digit);
    if !(0 <= pos < n && (s[pos] == 's' || s[pos] == '.')) {
        None
    } else if p == n {
        Some((n, seq![None]))
    } else if has_lit_at(s, p, " ("@) && e > p + 2 && has_lit_at(s, e, " already loaded)"@) && e
        + 16 == n {
        Some((n, seq![span(p + 2, e)]))
    } else {
        None
    }
}

pub open spec fn failure_code(s: Seq<char>, pos: int) -> Option<(int, Seq<Cap>)> {
    let n = s.len() as int;
    let d = run_start(s, n, Class::Digit);
    let b = d - 23;
    if pos <= b && d < n && has_lit_at(s, b, " received failure code "@) && all_in(
        s.subrange(pos, b),
        Class::Not('\n'),
    ) {
        Some((n, seq![span(pos, b), span(d, n)]))
    } else {
        None
    }
}

/// What a piece matches at `pos`: where the match ends, and the fields it captures.
pub open spec fn prim_step(p: Prim, s: Seq<char>, pos: int) -> Option<(int, Seq<Cap>)> {
    let n = s.len() as int;
    match p {
        Prim::Lit(l) => if has_lit_at(s, pos, l@) {
            Some((pos + l@.len(), seq![]))
        } else {
            None
        },
        Prim::Field(stop, c) => {
            let e = run_end(s, pos, Class::Not(stop));
            if check_ok(c, s.subrange(pos, e)) {
                Some((e, seq![span(pos, e)]))
            } else {
                None
            }
        },
        Prim::Int => {
            let e = run_end(s, pos, Class::Digit);
            if e > pos {
                Some((e, seq![span(pos, e)]))
            } else {
                None
            }
        },
        Prim::SignedInt => {
            let d = opt_sign_end(s, pos, true);
            let e = run_end(s, d, Class::Digit);
            if e > d {
                Some((e, seq![span(pos, e)]))
            } else {
                None
            }
        },
        Prim::Fixed(k) => if pos + k <= n && all_in(s.subrange(pos, pos + k), Class::Digit) {
            Some((pos + k, seq![span(pos, pos + k)]))
        } else {
            None
        },
        Prim::Decimal(signed) => {
            let d = opt_sign_end(s, pos, signed);
            let e1 = run_end(s, d, Class::Digit);
            let e2 = run_end(s, e1 + 1, Class::Digit);
            if d < e1 < n && s[e1] == '.' && e2 > e1 + 1 {
                Some((e2, seq![span(pos, e2)]))
            } else {
                None
            }
        },
        Prim::Word => {
            let e = run_end(s, pos, Class::Word);
            if e > pos {
                Some((e, seq![span(pos, e)]))
            } else {
                None
            }
        },
        Prim::Spaces => {
            let e = run_end(s, pos, Class::Space);
            if e > pos {
                Some((e, seq![]))
            } else {
                None
            }
        },
        Prim::Sign => if 0 <= pos < n && (s[pos] == '+' || s[pos] == '-') {
            Some((pos + 1, seq![span(pos, pos + 1)]))
        } else {
            None
        },
        Prim::Rest(nonempty) => if all_in(s.subrange(pos, n), Class::Not('\n')) && (!nonempty
            || pos < n) {
            Some((n, seq![span(pos, n)]))
        } else {
            None
        },
        Prim::Tail(l, c) => {
            let b = n - l@.len();
            if pos <= b && has_lit_at(s, b, l@) && check_ok(c, s.subrange(pos, b)) {
                Some((n, seq![span(pos, b)]))
            } else {
                None
            }
        },
        Prim::Readiness => if has_lit_at(s, pos, "[READY] "@) {
            Some((pos + 8, seq![span(pos + 1, pos + 6)]))
        } else if has_lit_at(s, pos, "[NOT READY] "@) {
            Some((pos + 12, seq![span(pos + 1, pos + 10)]))
        } else {
            Some((pos, seq![None]))
        },
        Prim::MoneyTail => money_tail(s, pos),
        Prim::KillTail => kill_tail(s, pos),
        Prim::PluginTail => plugin_tail(s, pos),
        Prim::FailureCode => failure_code(s, pos),
    }
}

/// Runs the pieces one after the other from `pos`.
pub open spec fn run_prims(ps: Seq<Prim>, s: Seq<char>, pos: int) -> Option<(int, Seq<Cap>)>
    decreases ps.len(),
{
    if ps.len() == 0 {
        Some((pos, seq![]))
    } else {
        match prim_step(ps[0], s, pos) {
            None => None,
            Some(x) => match run_prims(ps.drop_first(), s, x.0) {
                None => None,
                Some(y) => Some((y.0, x.1 + y.1)),
            },
        }
    }
}

/// The fields captured by the pattern `ps` if it matches the whole line `s`.
pub open spec fn line_caps(ps: Seq<Prim>, s: Seq<char>) -> Option<Seq<Cap>> {
    match run_prims(ps, s, 0) {
        Some(x) => if x.0 == s.len() {
            Some(x.1)
        } else {
            None
        },
        None => None,
    }
}

fn field_step(stop: char, c: Check, s: &Vec<char>, pos: usize, caps: &mut Vec<Cap>) -> (r: Option<usize>)
    requires
        pos <= s.len(),
    ensures
        match prim_step(Prim::Field(stop, c), s@, pos as int) {
            None => r is None,
            Some(x) => r == Some(x.0 as usize) && pos <= x.0 <= s.len() && final(caps)@ == old(
                caps,
            )@ + x.1 && caps_within(x.1, s.len() as int),
        },
{
    let e = scan_run(s, pos, Class::Not(stop));
    let t = slice_of(s, pos, e);
    if check_holds(c, &t) {
        caps.push(Some((pos, e)));
        Some(e)
    } else {
        None
    }
}

fn run_step(k: Class, s: &Vec<char>, pos: usize, from: usize, caps: &mut Vec<Cap>, keep: bool) -> (r: Option<usize>)
    requires
        pos <= from <= s.len(),
    ensures
        ({
            let e = run_end(s@, from as int, k);
            if e > from {
                r == Some(e as usize) && e <= s.len() && final(caps)@ == old(caps)@ + (if keep {
                    seq![span(pos as int, e)]
                } else {
                    seq![]
                }) && caps_within(seq![span(pos as int, e)], s.len() as int)
            } else {
                r is None
            }
        }),
{
    let e = scan_run(s, from, k);
    if e > from {
        if keep {
            caps.push(Some((pos, e)));
        } else {
            assert(caps@ =~= caps@ + seq![]);
        }
        Some(e)
    } else {
        None
    }
}

fn money_step(s: &Vec<char>, pos: usize, caps: &mut Vec<Cap>) -> (r: Option<usize>)
    requires
        pos <= s.len(),
    ensures
        match money_tail(s@, pos as int) {
            None => r is None,
            Some(x) => r == Some(x.0 as usize) && pos <= x.0 <= s.len() && final(caps)@ == old(
                caps,
            )@ + x.1 && caps_within(x.1, s.len() as int),
        },
{
    let n = s.len();
    if pos == n {
        caps.push(None);
        caps.push(None);
        return Some(n);
    }
    proof {
        reveal_strlit(" (tracked)");
        reveal_strlit(" (purchase: ");
    }
    if !lit_at(s, pos, " (tracked)") {
        return None;
    }
    let p = pos + 10;
    if p == n {
        caps.push(Some((pos + 2, pos + 9)));
        caps.push(None);
        return Some(n);
    }
    if lit_at(s, p, " (purchase: ") && n >= 13 && p <= n - 13 && s[n - 1] == ')' {
        let t = slice_of(s, p + 12, n - 1);
        if check_holds(Check::Token, &t) {
            caps.push(Some((pos + 2, pos + 9)));
            caps.push(Some((p + 12, n - 1)));
            return Some(n);
        }
    }
    None
}

fn kill_step(s: &Vec<char>, pos: usize, caps: &mut Vec<Cap>) -> (r: Option<usize>)
    requires
        pos <= s.len(),
    ensures
        match kill_tail(s@, pos as int) {
            None => r is None,
            Some(x) => r == Some(x.0 as usize) && pos <= x.0 <= s.len() && final(caps)@ == old(
                caps,
            )@ + x.1 && caps_within(x.1, s.len() as int),
        },
{
    let n = s.len();
    if pos == n {
        caps.push(None);
        return Some(n);
    }
    let rest = slice_of(s, pos, n);
    proof {
        reveal_strlit(" (headshot)");
        reveal_strlit(" (penetrated)");
        reveal_strlit(" (headshot penetrated)");
    }
    let h = is_lit(&rest, " (headshot)");
    let p = is_lit(&rest, " (penetrated)");
    let hp = is_lit(&rest, " (headshot penetrated)");
    if h || p || hp {
        assert(rest@.len() >= 11);
        caps.push(Some((pos + 2, n - 1)));
        Some(n)
    } else {
        None
    }
}

fn plugin_step(s: &Vec<char>, pos: usize, caps: &mut Vec<Cap>) -> (r: Option<usize>)
    requires
        pos <= s.len(),
    ensures
        match plugin_tail(s@, pos as int) {
            None => r is None,
            Some(x) => r == Some(x.0 as usize) && pos <= x.0 <= s.len() && final(caps)@ == old(
                caps,
            )@ + x.1 && caps_within(x.1, s.len() as int),
        },
{
    let n = s.len();
    if !(pos < n && (s[pos] == 's' || s[pos] == '.')) {
        return None;
    }
    let p = pos + 1;
    if p == n {
        caps.push(None);
        return Some(n);
    }
    proof {
        reveal_strlit(" (");
        reveal_strlit(" already loaded)");
    }
    if !lit_at(s, p, " (") {
        return None;
    }
    let e = scan_run(s, p + 2, Class::Digit);
    if e > p + 2 && lit_at(s, e, " already loaded)") && n - e == 16 {
        caps.push(Some((p + 2, e)));
        Some(n)
    } else {
        None
    }
}

fn failure_step(s: &Vec<char>, pos: usize, caps: &mut Vec<Cap>) -> (r: Option<usize>)
    requires
        pos <= s.len(),
    ensures
        match failure_code(s@, pos as int) {
            None => r is None,
            Some(x) => r == Some(x.0 as usize) && pos <= x.0 <= s.len() && final(caps)@ == old(
                caps,
            )@ + x.1 && caps_within(x.1, s.len() as int),
        },
{
    let n = s.len();
    let d = scan_back(s, n, Class::Digit);
    if d < 23 || d - 23 < pos || d >= n {
        return None;
    }
    let b = d - 23;
    proof {
        reveal_strlit(" received failure code ");
    }
    if !lit_at(s, b, " received failure code ") {
        return None;
    }
    let t = slice_of(s, pos, b);
    if check_holds(Check::Line, &t) {
        caps.push(Some((pos, b)));
        caps.push(Some((d, n)));
        Some(n)
    } else {
        None
    }
}

/// Matches one piece at `pos`, appending its fields to `caps`.
pub fn step(p: Prim, s: &Vec<char>, pos: usize, caps: &mut Vec<Cap>) -> (r: Option<usize>)
    requires
        pos <= s.len(),
    ensures
        match prim_step(p, s@, pos as int) {
            None => r is None,
            Some(x) => r == Some(x.0 as usize) && pos <= x.0 <= s.len() && final(caps)@ == old(
                caps,
            )@ + x.1 && caps_within(x.1, s.len() as int),
        },
{
    let n = s.len();
    match p {
        Prim::Lit(l) => {
            if lit_at(s, pos, l) {
                assert(caps@ =~= caps@ + seq![]);
                Some(pos + l.unicode_len())
            } else {
                None
            }
        },
        Prim::Field(stop, c) => field_step(stop, c, s, pos, caps),
        Prim::Int => run_step(Class::Digit, s, pos, pos, caps, true),
        Prim::SignedInt => {
            let d = if pos < n && s[pos] == '-' {
                pos + 1
            } else {
                pos
            };
            run_step(Class::Digit, s, pos, d, caps, true)
        },
        Prim::Fixed(k) => {
            if k > n - pos {
                return None;
            }
            let e = scan_run(s, pos, Class::Digit);
            proof {
                crate::scan::lemma_run_end_bounds(s@, pos as int, Class::Digit);
            }
            if e - pos >= k {
                assert(all_in(s@.subrange(pos as int, pos + k), Class::Digit)) by {
                    assert forall|i: int| 0 <= i < k implies crate::scan::in_class(
                        #[trigger] s@.subrange(pos as int, pos + k)[i],
                        Class::Digit,
                    ) by {
                        assert(s@.subrange(pos as int, pos + k)[i] == s@.subrange(
                            pos as int,
                            e as int,
                        )[i]);
                    }
                }
                caps.push(Some((pos, pos + k)));
                Some(pos + k)
            } else {
                assert(!crate::scan::in_class(s@.subrange(pos as int, pos + k)[e - pos], Class::Digit));
                None
            }
        },
        Prim::Decimal(signed) => {
            let d = if signed && pos < n && s[pos] == '-' {
                pos + 1
            } else {
                pos
            };
            let e1 = scan_run(s, d, Class::Digit);
            if !(d < e1 && e1 < n && s[e1] == '.') {
                return None;
            }
            let e2 = scan_run(s, e1 + 1, Class::Digit);
            if e2 > e1 + 1 {
                caps.push(Some((pos, e2)));
                Some(e2)
            } else {
                None
            }
        },
        Prim::Word => run_step(Class::Word, s, pos, pos, caps, true),
        Prim::Spaces => run_step(Class::Space, s, pos, pos, caps, false),
        Prim::Sign => {
            if pos < n && (s[pos] == '+' || s[pos] == '-') {
                caps.push(Some((pos, pos + 1)));
                Some(pos + 1)
            } else {
                None
            }
        },
        Prim::Rest(nonempty) => {
            let t = slice_of(s, pos, n);
            if check_holds(Check::Line, &t) && (!nonempty || pos < n) {
                caps.push(Some((pos, n)));
                Some(n)
            } else {
                None
            }
        },
        Prim::Tail(l, c) => {
            let m = l.unicode_len();
            if m > n || n - m < pos {
                return None;
            }
            let b = n - m;
            if !lit_at(s, b, l) {
                return None;
            }
            let t = slice_of(s, pos, b);
            if check_holds(c, &t) {
                caps.push(Some((pos, b)));
                Some(n)
            } else {
                None
            }
        },
        Prim::Readiness => {
            proof {
                reveal_strlit("[READY] ");
                reveal_strlit("[NOT READY] ");
            }
            if lit_at(s, pos, "[READY] ") {
                caps.push(Some((pos + 1, pos + 6)));
                Some(pos + 8)
            } else if lit_at(s, pos, "[NOT READY] ") {
                caps.push(Some((pos + 1, pos + 10)));
                Some(pos + 12)
            } else {
                caps.push(None);
                Some(pos)
            }
        },
        Prim::MoneyTail => money_step(s, pos, caps),
        Prim::KillTail => kill_step(s, pos, caps),
        Prim::PluginTail => plugin_step(s, pos, caps),
        Prim::FailureCode => failure_step(s, pos, caps),
    }
}

/// The fields of the line `s` under the pattern `ps`, if the pattern matches all of it.
pub fn match_line(ps: &Vec<Prim>, s: &Vec<char>) -> (r: Option<Vec<Cap>>)
    ensures
        match line_caps(ps@, s@) {
            None => r is None,
            Some(c) => r is Some && r->0@ == c,
        },
        r is Some ==> caps_within(r->0@, s@.len() as int),
{
    let mut caps: Vec<Cap> = Vec::new();
    let mut pos: usize = 0;
    let mut i: usize = 0;
    let n = ps.len();
    proof {
        assert(ps@.subrange(0, n as int) =~= ps@);
        match run_prims(ps@, s@, 0) {
            Some(y) => {
                assert(caps@ + y.1 =~= y.1);
            },
            None => {},
        }
    }
    while i < n
        invariant
            n == ps.len(),
            i <= n,
            pos <= s.len(),
            caps_within(caps@, s@.len() as int),
            run_prims(ps@, s@, 0) == (match run_prims(ps@.subrange(i as int, n as int), s@, pos as int) {
                None => None,
                Some(y) => Some((y.0, caps@ + y.1)),
            }),
        decreases n - i,
    {
        let ghost rest = ps@.subrange(i as int, n as int);
        let ghost before = caps@;
        assert(rest[0] == ps@[i as int]);
        assert(rest.drop_first() =~= ps@.subrange(i + 1, n as int));
        match step(ps[i], s, pos, &mut caps) {
            None => {
                return None;
            },
            Some(e) => {
                proof {
                    let x = prim_step(ps@[i as int], s@, pos as int)->0;
                    assert(caps@ =~= before + x.1);
                    assert forall|j: int|
                        0 <= j < caps@.len() && (#[trigger] caps@[j]) is Some implies lo(
                        caps@[j]->0,
                    ) <= hi(caps@[j]->0) <= s@.len() by {
                        if j >= before.len() {
                            assert(caps@[j] == x.1[j - before.len()]);
                        }
                    }
                    match run_prims(ps@.subrange(i + 1, n as int), s@, e as int) {
                        Some(y) => {
                            assert(before + x.1 + y.1 =~= before + (x.1 + y.1));
                        },
                        None => {},
                    }
                }
                pos = e;
            },
        }
        i += 1;
    }
    assert(ps@.subrange(n as int, n as int) =~= Seq::<Prim>::empty());
    assert(caps@ + Seq::<Cap>::empty() =~= caps@);
    if pos == s.len() {
        Some(caps)
    } else {
        None
    }
}

} // verus!
