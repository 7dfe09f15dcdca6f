//! Character-level scanning over a line held as a vector of characters.
use vstd::prelude::*;
use vstd::std_specs::iter::IteratorSpec;

verus! {

/// Character classes that the grammar scans over.
#[derive(Clone, Copy, PartialEq, Eq, Debug)]
pub enum Class {
    /// ASCII decimal digit.
    Digit,
    /// ASCII letter, digit or underscore.
    Word,
    /// Whitespace, as Unicode defines it.
    Space,
    /// Any character but the given one.
    Not(char),
}

pub open spec fn is_digit(c: char) -> bool {
    '0' <= c && c <= '9'
}

pub open spec fn is_word_char(c: char) -> bool {
    ('a' <= c && c <= 'z') || ('A' <= c && c <= 'Z') || is_digit(c) || c == '_'
}

/// Whitespace: the characters of Unicode's `White_Space` property.
pub open spec fn is_space(c: char) -> bool {
    ('\t' <= c && c <= '\r') || c == ' ' || c == '\u{85}' || c == '\u{A0}' || c == '\u{1680}'
        || ('\u{2000}' <= c && c <= '\u{200A}') || c == '\u{2028}' || c == '\u{2029}' || c
        == '\u{202F}' || c == '\u{205F}' || c == '\u{3000}'
}

pub open spec fn in_class(c: char, k: Class) -> bool {
    match k {
        Class::Digit => is_digit(c),
        Class::Word => is_word_char(c),
        Class::Space => is_space(c),
        Class::Not(x) => c != x,
    }
}

/// End of the longest run of characters of class `k` that starts at `pos`.
pub open spec fn run_end(s: Seq<char>, pos: int, k: Class) -> int
    decreases s.len() - pos,
{
    if 0 <= pos < s.len() && in_class(s[pos], k) {
        run_end(s, pos + 1, k)
    } else {
        pos
    }
}

/// Every character of `s` is of class `k`.
pub open spec fn all_in(s: Seq<char>, k: Class) -> bool {
    forall|i: int| 0 <= i < s.len() ==> in_class(#[trigger] s[i], k)
}

/// `s` holds the literal `l` at `pos`.
pub open spec fn has_lit_at(s: Seq<char>, pos: int, l: Seq<char>) -> bool {
    0 <= pos && pos + l.len() <= s.len() && s.subrange(pos, pos + l.len()) == l
}

pub open spec fn digit_value(c: char) -> int {
    (c as int) - ('0' as int)
}

/// Value of a run of decimal digits, most significant first.
pub open spec fn dec_value(d: Seq<char>) -> int
    decreases d.len(),
{
    if d.len() == 0 {
        0
    } else {
        dec_value(d.drop_last()) * 10 + digit_value(d.last())
    }
}

pub proof fn lemma_run_end_bounds(s: Seq<char>, pos: int, k: Class)
    requires
        0 <= pos <= s.len(),
    ensures
        pos <= run_end(s, pos, k) <= s.len(),
        all_in(s.subrange(pos, run_end(s, pos, k)), k),
        run_end(s, pos, k) == s.len() || !in_class(s[run_end(s, pos, k)], k),
    decreases s.len() - pos,
{
    if pos < s.len() && in_class(s[pos], k) {
        lemma_run_end_bounds(s, pos + 1, k);
        let e = run_end(s, pos, k);
        assert forall|i: int| 0 <= i < e - pos implies in_class(
            #[trigger] s.subrange(pos, e)[i],
            k,
        ) by {
            if i > 0 {
                assert(s.subrange(pos, e)[i] == s.subrange(pos + 1, e)[i - 1]);
            }
        }
    }
}

pub proof fn lemma_dec_value_nonneg(d: Seq<char>)
    requires
        all_in(d, Class::Digit),
    ensures
        dec_value(d) >= 0,
    decreases d.len(),
{
    if d.len() > 0 {
        assert(all_in(d.drop_last(), Class::Digit)) by {
            assert forall|i: int| 0 <= i < d.drop_last().len() implies in_class(
                #[trigger] d.drop_last()[i],
                Class::Digit,
            ) by {
                assert(d.drop_last()[i] == d[i]);
            }
        }
        lemma_dec_value_nonneg(d.drop_last());
        assert(in_class(d[d.len() - 1], Class::Digit));
    }
}

pub fn class_contains(c: char, k: Class) -> (r: bool)
    ensures
        r == in_class(c, k),
{
    match k {
        Class::Digit => '0' <= c && c <= '9',
        Class::Word => ('a' <= c && c <= 'z') || ('A' <= c && c <= 'Z') || ('0' <= c && c <= '9')
            || c == '_',
        Class::Space => ('\t' <= c && c <= '\r') || c == ' ' || c == '\u{85}' || c == '\u{A0}'
            || c == '\u{1680}' || ('\u{2000}' <= c && c <= '\u{200A}') || c == '\u{2028}' || c
            == '\u{2029}' || c == '\u{202F}' || c == '\u{205F}' || c == '\u{3000}',
        Class::Not(x) => c != x,
    }
}

/// The characters of a string, one element each.
pub fn chars_of(line: &str) -> (r: Vec<char>)
    ensures
        r@ == line@,
{
    let n = line.unicode_len();
    let mut v: Vec<char> = Vec::new();
    let mut it = line.chars();
    let ghost whole = line@;
    proof {
        vstd::string::axiom_spec_iter(line);
    }
    let mut i: usize = 0;
    while i < n
        invariant
            n == whole.len(),
            whole == line@,
            i <= n,
            v@ == whole.subrange(0, i as int),
            it.remaining() == whole.subrange(i as int, n as int),
            it.obeys_prophetic_iter_laws(),
        decreases n - i,
    {
        match it.next() {
            Some(c) => {
                v.push(c);
            },
            None => {
                assert(false);
            },
        }
        i += 1;
        assert(v@ =~= whole.subrange(0, i as int));
    }
    assert(v@ =~= whole);
    v
}

/// End of the longest run of class `k` starting at `pos`.
pub fn scan_run(s: &Vec<char>, pos: usize, k: Class) -> (r: usize)
    requires
        pos <= s.len(),
    ensures
        r == run_end(s@, pos as int, k),
        pos <= r <= s.len(),
{
    let mut i = pos;
    while i < s.len() && class_contains(s[i], k)
        invariant
            pos <= i <= s.len(),
            run_end(s@, i as int, k) == run_end(s@, pos as int, k),
        decreases s.len() - i,
    {
        i += 1;
    }
    i
}

/// Whether `s` holds the literal `l` at `pos`.
pub fn lit_at(s: &Vec<char>, pos: usize, l: &str) -> (r: bool)
    requires
        pos <= s.len(),
    ensures
        r == has_lit_at(s@, pos as int, l@),
{
    let n = l.unicode_len();
    if n > s.len() - pos {
        return false;
    }
    let mut i: usize = 0;
    while i < n
        invariant
            n == l@.len(),
            pos + n <= s.len(),
            i <= n,
            forall|j: int| 0 <= j < i ==> s@[pos + j] == l@[j],
        decreases n - i,
    {
        if s[pos + i] != l.get_char(i) {
            assert(s@.subrange(pos as int, pos + n)[i as int] != l@[i as int]);
            return false;
        }
        i += 1;
    }
    assert(s@.subrange(pos as int, pos + n) =~= l@);
    true
}

/// Value of the digits in `s[a..b]`, where it fits in a `u32`.
pub fn digits_value(s: &Vec<char>, a: usize, b: usize) -> (r: Option<u32>)
    requires
        a <= b <= s.len(),
        all_in(s@.subrange(a as int, b as int), Class::Digit),
    ensures
        r == (if dec_value(s@.subrange(a as int, b as int)) <= u32::MAX {
            Some(dec_value(s@.subrange(a as int, b as int)) as u32)
        } else {
            None::<u32>
        }),
{
    let ghost d = s@.subrange(a as int, b as int);
    let limit: u64 = 4294967296;
    let mut v: u64 = 0;
    let mut i = a;
    while i < b
        invariant
            a <= i <= b <= s.len(),
            d == s@.subrange(a as int, b as int),
            all_in(d, Class::Digit),
            limit == u32::MAX + 1,
            v <= limit,
            v == (if dec_value(s@.subrange(a as int, i as int)) < limit {
                dec_value(s@.subrange(a as int, i as int))
            } else {
                limit as int
            }),
        decreases b - i,
    {
        let ghost p = s@.subrange(a as int, i as int);
        let ghost q = s@.subrange(a as int, i + 1);
        assert(q.drop_last() =~= p);
        assert(q.last() == d[i - a]);
        let c = s[i];
        let dv = (c as u32 - '0' as u32) as u64;
        assert(all_in(p, Class::Digit)) by {
            assert forall|j: int| 0 <= j < p.len() implies in_class(#[trigger] p[j], Class::Digit) by {
                assert(p[j] == d[j]);
            }
        }
        proof {
            lemma_dec_value_nonneg(p);
        }
        if v < limit {
            let w = v * 10 + dv;
            v = if w < limit { w } else { limit };
        }
        i += 1;
    }
    assert(s@.subrange(a as int, b as int) =~= d);
    if v < limit {
        Some(v as u32)
    } else {
        None
    }
}

/// Value of the digits in `s[a..b]`, where it fits in a `u64`.
pub fn digits_value_u64(s: &Vec<char>, a: usize, b: usize) -> (r: Option<u64>)
    requires
        a <= b <= s.len(),
        all_in(s@.subrange(a as int, b as int), Class::Digit),
    ensures
        r == (if dec_value(s@.subrange(a as int, b as int)) <= u64::MAX {
            Some(dec_value(s@.subrange(a as int, b as int)) as u64)
        } else {
            None::<u64>
        }),
{
    let ghost d = s@.subrange(a as int, b as int);
    let limit: u128 = 18446744073709551616;
    let mut v: u128 = 0;
    let mut i = a;
    while i < b
        invariant
            a <= i <= b <= s.len(),
            d == s@.subrange(a as int, b as int),
            all_in(d, Class::Digit),
            limit == u64::MAX + 1,
            v <= limit,
            v == (if dec_value(s@.subrange(a as int, i as int)) < limit {
                dec_value(s@.subrange(a as int, i as int))
            } else {
                limit as int
            }),
        decreases b - i,
    {
        let ghost p = s@.subrange(a as int, i as int);
        let ghost q = s@.subrange(a as int, i + 1);
        assert(q.drop_last() =~= p);
        assert(q.last() == d[i - a]);
        let c = s[i];
        let dv = (c as u32 - '0' as u32) as u128;
        assert(all_in(p, Class::Digit)) by {
            assert forall|j: int| 0 <= j < p.len() implies in_class(#[trigger] p[j], Class::Digit) by {
                assert(p[j] == d[j]);
            }
        }
        proof {
            lemma_dec_value_nonneg(p);
        }
        if v < limit {
            let w = v * 10 + dv;
            v = if w < limit { w } else { limit };
        }
        i += 1;
    }
    assert(s@.subrange(a as int, b as int) =~= d);
    if v < limit {
        Some(v as u64)
    } else {
        None
    }
}

/// Start of the longest run of class `k` that ends at `end`.
pub open spec fn run_start(s: Seq<char>, end: int, k: Class) -> int
    decreases end,
{
    if 0 < end <= s.len() && in_class(s[end - 1], k) {
        run_start(s, end - 1, k)
    } else {
        end
    }
}

/// Start of the longest run of class `k` ending at `end`.
pub fn scan_back(s: &Vec<char>, end: usize, k: Class) -> (r: usize)
    requires
        end <= s.len(),
    ensures
        r == run_start(s@, end as int, k),
        r <= end,
{
    let mut i = end;
    while i > 0 && class_contains(s[i - 1], k)
        invariant
            i <= end <= s.len(),
            run_start(s@, i as int, k) == run_start(s@, end as int, k),
        decreases i,
    {
        i -= 1;
    }
    i
}

} // verus!
