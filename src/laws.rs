//! What holds of every line and every stream of lines.
use vstd::prelude::*;
use crate::entries::{entry_is, is_dump_kind};
use crate::grammar::line_caps;
use crate::model::{Error, LogEntry};
use crate::processor::{
    caps_of, feed, is_dump_line, lemma_plain_lines_keep_state, matches_in, output_is,
    parse_result_is, DumpView, ParsedLine,
};
use crate::table::{all_kinds, pattern, LineKind};

verus! {

/// `s` is a line of exactly one kind of the full table, and that kind is not
/// one of the cvar dump kinds.
pub open spec fn well_formed_line(s: Seq<char>) -> bool {
    let ms = matches_in(all_kinds(), s);
    &&& ms.len() == 1
    &&& !is_dump_kind(ms[0])
}

/// A well-formed line parses into the entry of the one kind that matches it,
/// with each field equal to the converted captured text.
pub proof fn lemma_well_formed_line_parses<E>(s: Seq<char>, r: Result<ParsedLine, Error<E>>)
    requires
        well_formed_line(s),
        parse_result_is(all_kinds(), s, r),
    ensures
        r matches Ok(ParsedLine::Entry(e)) && entry_is(
            matches_in(all_kinds(), s)[0],
            s,
            caps_of(matches_in(all_kinds(), s)[0], s),
            e,
        ),
{
}

/// The processor yields the entry of a well-formed line, whatever its state.
pub proof fn lemma_well_formed_line_yields_entry<E>(
    d: Option<DumpView>,
    s: Seq<char>,
    r: Option<Result<LogEntry, Error<E>>>,
)
    requires
        well_formed_line(s),
        output_is(d, s, r),
    ensures
        r matches Some(Ok(e)) && entry_is(
            matches_in(all_kinds(), s)[0],
            s,
            caps_of(matches_in(all_kinds(), s)[0], s),
            e,
        ),
{
}

/// Feeding well-formed lines one at a time, in order, leaves the processor in
/// the state it started in after every prefix of them, so line `i` meets the
/// processor in that same state and yields its own entry: `n` lines give `n`
/// entries, in their order.
pub proof fn lemma_well_formed_lines_in_order<E>(
    d: Option<DumpView>,
    lines: Seq<Seq<char>>,
    i: int,
    r: Option<Result<LogEntry, Error<E>>>,
)
    requires
        forall|j: int| 0 <= j < lines.len() ==> well_formed_line(#[trigger] lines[j]),
        0 <= i < lines.len(),
        output_is(feed(d, lines.take(i)), lines[i], r),
    ensures
        feed(d, lines.take(i)) == d,
        feed(d, lines) == d,
        r matches Some(Ok(e)) && entry_is(
            matches_in(all_kinds(), lines[i])[0],
            lines[i],
            caps_of(matches_in(all_kinds(), lines[i])[0], lines[i]),
            e,
        ),
{
    assert forall|j: int| 0 <= j < lines.take(i).len() implies !is_dump_line(
        #[trigger] lines.take(i)[j],
    ) by {
        assert(lines.take(i)[j] == lines[j]);
        assert(well_formed_line(lines[j]));
    }
    assert forall|j: int| 0 <= j < lines.len() implies !is_dump_line(#[trigger] lines[j]) by {
        assert(well_formed_line(lines[j]));
    }
    lemma_plain_lines_keep_state(d, lines.take(i));
    lemma_plain_lines_keep_state(d, lines);
    assert(well_formed_line(lines[i]));
    lemma_well_formed_line_yields_entry(d, lines[i], r);
}

/// A table with an entry that matches the line lists at least one match.
proof fn lemma_one_match(ks: Seq<LineKind>, s: Seq<char>, i: int)
    requires
        0 <= i < ks.len(),
        line_caps(pattern(ks[i]), s) is Some,
    ensures
        matches_in(ks, s).len() >= 1,
    decreases ks.len(),
{
    if i < ks.len() - 1 {
        assert(ks.drop_last()[i] == ks[i]);
        lemma_one_match(ks.drop_last(), s, i);
    }
}

/// A table with two entries that match the line lists at least two matches.
proof fn lemma_two_matches(ks: Seq<LineKind>, s: Seq<char>, i: int, j: int)
    requires
        0 <= i < j < ks.len(),
        line_caps(pattern(ks[i]), s) is Some,
        line_caps(pattern(ks[j]), s) is Some,
    ensures
        matches_in(ks, s).len() >= 2,
    decreases ks.len(),
{
    assert(ks.drop_last()[i] == ks[i]);
    if j == ks.len() - 1 {
        lemma_one_match(ks.drop_last(), s, i);
    } else {
        assert(ks.drop_last()[j] == ks[j]);
        lemma_two_matches(ks.drop_last(), s, i, j);
    }
}

/// Where two entries of a table both match a line (an overlap in the
/// grammar), parsing the line against that table is `Ambiguous`.
pub proof fn lemma_overlap_is_ambiguous<E>(
    ks: Seq<LineKind>,
    s: Seq<char>,
    i: int,
    j: int,
    r: Result<ParsedLine, Error<E>>,
)
    requires
        0 <= i < ks.len(),
        0 <= j < ks.len(),
        i != j,
        line_caps(pattern(ks[i]), s) is Some,
        line_caps(pattern(ks[j]), s) is Some,
        parse_result_is(ks, s, r),
    ensures
        r matches Err(Error::Ambiguous),
{
    if i < j {
        lemma_two_matches(ks, s, i, j);
    } else {
        lemma_two_matches(ks, s, j, i);
    }
}

} // verus!
