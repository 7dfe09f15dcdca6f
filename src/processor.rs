//! Classification of a line against the grammar table, and the line processor
//! that turns a stream of lines into entries.
use vstd::prelude::*;
use crate::entries::{build_entry, entry_is, fields_fit, fields_fit_check, is_dump_kind};
use crate::extract::{cap_text, prefix_at, prefix_of, txt_at};
use crate::grammar::{caps_within, line_caps, match_line, Cap};
use crate::model::{Error, LogEntry, LogPrefix};
use crate::scan::chars_of;
use crate::shapes::lemma_dump_fields_convert;
use crate::table::{all_kinds, kinds_table, pattern, pattern_of, LineKind};

verus! {

/// The kinds of `ks` whose pattern matches all of `s`, in table order.
pub open spec fn matches_in(ks: Seq<LineKind>, s: Seq<char>) -> Seq<LineKind>
    decreases ks.len(),
{
    if ks.len() == 0 {
        seq![]
    } else {
        matches_in(ks.drop_last(), s) + if line_caps(pattern(ks.last()), s) is Some {
            seq![ks.last()]
        } else {
            seq![]
        }
    }
}

/// The fields of `s` under the pattern of `k`.
pub open spec fn caps_of(k: LineKind, s: Seq<char>) -> Seq<Cap> {
    line_caps(pattern(k), s)->0
}

/// How a line stands against a table of line kinds.
pub enum Classification {
    /// No kind matches.
    Unrecognized,
    /// More than one kind matches.
    Ambiguous,
    /// Exactly one kind matches, with these fields.
    Matched(LineKind, Vec<Cap>),
}

/// Matches the line `s` against every kind of `ks`.
pub fn classify(ks: &Vec<LineKind>, s: &Vec<char>) -> (r: Classification)
    ensures
        matches_in(ks@, s@).len() == 0 ==> r is Unrecognized,
        matches_in(ks@, s@).len() >= 2 ==> r is Ambiguous,
        matches_in(ks@, s@).len() == 1 ==> match r {
            Classification::Matched(k, c) => k == matches_in(ks@, s@)[0] && c@ == caps_of(k, s@)
                && line_caps(pattern(k), s@) == Some(c@) && caps_within(c@, s@.len() as int),
            _ => false,
        },
{
    let mut count: usize = 0;
    let mut first: Option<(LineKind, Vec<Cap>)> = None;
    let mut i: usize = 0;
    while i < ks.len()
        invariant
            i <= ks.len(),
            count == matches_in(ks@.subrange(0, i as int), s@).len(),
            count <= i,
            count == 0 <==> first is None,
            match first {
                Some((k, c)) => k == matches_in(ks@.subrange(0, i as int), s@)[0] && c@ == caps_of(
                    k,
                    s@,
                ) && line_caps(pattern(k), s@) == Some(c@) && caps_within(c@, s@.len() as int),
                None => true,
            },
        decreases ks.len() - i,
    {
        let ghost before = matches_in(ks@.subrange(0, i as int), s@);
        assert(ks@.subrange(0, i + 1).drop_last() =~= ks@.subrange(0, i as int));
        assert(ks@.subrange(0, i + 1).last() == ks@[i as int]);
        let k = ks[i];
        match match_line(&pattern_of(k), s) {
            Some(c) => {
                if count == 0 {
                    first = Some((k, c));
                }
                count += 1;
            },
            None => {
                assert(matches_in(ks@.subrange(0, i + 1), s@) =~= before);
            },
        }
        i += 1;
    }
    assert(ks@.subrange(0, ks@.len() as int) =~= ks@);
    if count == 0 {
        Classification::Unrecognized
    } else if count >= 2 {
        Classification::Ambiguous
    } else {
        match first {
            Some((k, c)) => Classification::Matched(k, c),
            None => Classification::Unrecognized,
        }
    }
}

/// A recognized line: an entry, or a line that bounds or fills a cvar dump.
#[derive(Debug, PartialEq, Eq, Clone)]
pub enum ParsedLine {
    Entry(LogEntry),
    DumpStart(LogPrefix),
    DumpEntry(String, String),
    DumpEnd(LogPrefix),
}

/// `p` is what a line of kind `k` with fields `c` gives.
pub open spec fn parsed_is(k: LineKind, s: Seq<char>, c: Seq<Cap>, p: ParsedLine) -> bool {
    match p {
        ParsedLine::Entry(e) => !is_dump_kind(k) && entry_is(k, s, c, e),
        ParsedLine::DumpStart(x) => k == LineKind::CvarsStart && prefix_at(s, c) == Some(x),
        ParsedLine::DumpEntry(a, b) => k == LineKind::CvarsEntry && prefix_at(s, c) is Some
            && txt_at(s, c, 6) == Some(a@) && txt_at(s, c, 7) == Some(b@),
        ParsedLine::DumpEnd(x) => k == LineKind::CvarsEnd && prefix_at(s, c) == Some(x),
    }
}

/// Where exactly one kind of `ks` matches the line `s`, every integer field of
/// that kind fits in the type it is read into. Text fields are not bounded.
pub open spec fn numbers_fit_in(ks: Seq<LineKind>, s: Seq<char>) -> bool {
    let ms = matches_in(ks, s);
    ms.len() == 1 ==> fields_fit(ms[0], s, caps_of(ms[0], s))
}

/// What parsing `s` against the table `ks` gives.
pub open spec fn parse_result_is<E>(ks: Seq<LineKind>, s: Seq<char>, r: Result<ParsedLine, Error<E>>) -> bool {
    let ms = matches_in(ks, s);
    if ms.len() == 0 {
        r matches Err(Error::Unknown(l)) && l@ == s
    } else if ms.len() >= 2 {
        r matches Err(Error::Ambiguous)
    } else {
        r matches Ok(p) && parsed_is(ms[0], s, caps_of(ms[0], s), p)
    }
}

/// Whether every integer field of `line` fits in the type it is read into,
/// where exactly one kind of `ks` matches it. Parsing asks for this: the grammar
/// admits digit runs of any length, and a longer one cannot become an integer.
pub fn numbers_fit_with(ks: &Vec<LineKind>, line: &str) -> (r: bool)
    ensures
        r == numbers_fit_in(ks@, line@),
{
    let s = chars_of(line);
    match classify(ks, &s) {
        Classification::Matched(k, c) => fields_fit_check(k, &s, &c),
        _ => true,
    }
}

/// Whether every integer field of `line` fits, against the full table.
pub fn numbers_fit(line: &str) -> (r: bool)
    ensures
        r == numbers_fit_in(all_kinds(), line@),
{
    numbers_fit_with(&kinds_table(), line)
}

fn parse_matched(k: LineKind, line: &str, s: &Vec<char>, c: &Vec<Cap>) -> (r: ParsedLine)
    requires
        line@ == s@,
        caps_within(c@, s@.len() as int),
        line_caps(pattern(k), s@) == Some(c@),
        fields_fit(k, s@, c@),
    ensures
        parsed_is(k, s@, c@, r),
{
    let n = s.len();
    if is_dump_kind_exec(k) {
        proof {
            assert(s@.len() == n);
            lemma_dump_fields_convert(k, s@);
        }
    }
    match k {
        LineKind::CvarsStart => ParsedLine::DumpStart(prefix_of(s, c)),
        LineKind::CvarsEnd => ParsedLine::DumpEnd(prefix_of(s, c)),
        LineKind::CvarsEntry => {
            let key = cap_text(line, s, c, 6);
            let value = cap_text(line, s, c, 7);
            ParsedLine::DumpEntry(key, value)
        },
        _ => ParsedLine::Entry(build_entry(k, line, s, c)),
    }
}

fn is_dump_kind_exec(k: LineKind) -> (r: bool)
    ensures
        r == is_dump_kind(k),
{
    match k {
        LineKind::CvarsStart | LineKind::CvarsEntry | LineKind::CvarsEnd => true,
        _ => false,
    }
}

/// Parses one line against the table `ks`: `Unknown` with the line where no
/// kind matches, `Ambiguous` where several do, and otherwise what the one
/// matching kind builds from the line's fields.
pub fn parse_line_with<E>(ks: &Vec<LineKind>, line: &str) -> (r: Result<ParsedLine, Error<E>>)
    requires
        numbers_fit_in(ks@, line@),
    ensures
        parse_result_is(ks@, line@, r),
{
    let s = chars_of(line);
    match classify(ks, &s) {
        Classification::Unrecognized => Err(Error::Unknown(line.to_owned())),
        Classification::Ambiguous => Err(Error::Ambiguous),
        Classification::Matched(k, c) => Ok(parse_matched(k, line, &s, &c)),
    }
}

/// Parses one line against the full grammar table.
pub fn parse_line<E>(line: &str) -> (r: Result<ParsedLine, Error<E>>)
    requires
        numbers_fit_in(all_kinds(), line@),
    ensures
        parse_result_is(all_kinds(), line@, r),
{
    parse_line_with(&kinds_table(), line)
}

/// A cvar dump being read: the timestamp of its start line and the key/value
/// pairs seen so far, in order.
pub struct DumpView {
    pub start: LogPrefix,
    pub cvars: Seq<(Seq<char>, Seq<char>)>,
}

pub open spec fn pairs_view(v: Seq<(String, String)>) -> Seq<(Seq<char>, Seq<char>)> {
    v.map_values(|p: (String, String)| (p.0@, p.1@))
}

/// `s` is a line of exactly one kind of the full table, and that kind bounds or
/// fills a cvar dump.
pub open spec fn is_dump_line(s: Seq<char>) -> bool {
    let ms = matches_in(all_kinds(), s);
    ms.len() == 1 && is_dump_kind(ms[0])
}

/// The dump state after the line `s`.
pub open spec fn next_dump(d: Option<DumpView>, s: Seq<char>) -> Option<DumpView> {
    let k = matches_in(all_kinds(), s)[0];
    let c = caps_of(k, s);
    if !is_dump_line(s) {
        d
    } else if k == LineKind::CvarsStart {
        Some(DumpView { start: prefix_at(s, c)->0, cvars: seq![] })
    } else if k == LineKind::CvarsEnd {
        None
    } else {
        match d {
            Some(v) => Some(
                DumpView {
                    start: v.start,
                    cvars: v.cvars.push((txt_at(s, c, 6)->0, txt_at(s, c, 7)->0)),
                },
            ),
            None => None,
        }
    }
}

/// What a line that is not part of a cvar dump gives: `Unknown` with the line
/// where no kind matches, `Ambiguous` where several do, else the entry of the
/// one kind that matches.
pub open spec fn entry_result_is<E>(s: Seq<char>, r: Result<LogEntry, Error<E>>) -> bool {
    let ms = matches_in(all_kinds(), s);
    if ms.len() == 0 {
        r matches Err(Error::Unknown(l)) && l@ == s
    } else if ms.len() >= 2 {
        r matches Err(Error::Ambiguous)
    } else {
        r matches Ok(e) && entry_is(ms[0], s, caps_of(ms[0], s), e)
    }
}

/// What the processor yields for the line `s` in dump state `d`.
pub open spec fn output_is<E>(d: Option<DumpView>, s: Seq<char>, r: Option<Result<LogEntry, Error<E>>>) -> bool {
    let k = matches_in(all_kinds(), s)[0];
    let c = caps_of(k, s);
    if is_dump_line(s) {
        if k == LineKind::CvarsEnd && d is Some {
            r matches Some(Ok(LogEntry::CvarDump { start, end, cvars })) && start == d->0.start
                && prefix_at(s, c) == Some(end) && pairs_view(cvars@) == d->0.cvars
        } else {
            r is None
        }
    } else {
        r matches Some(x) && entry_result_is(s, x)
    }
}

/// Turns lines, one at a time and in order, into entries.
pub struct LogProcessor {
    table: Vec<LineKind>,
    dump: Option<(LogPrefix, Vec<(String, String)>)>,
}

impl LogProcessor {
    /// The table of line kinds in use.
    pub closed spec fn table_view(&self) -> Seq<LineKind> {
        self.table@
    }

    /// The cvar dump being read, if any.
    pub closed spec fn dump_view(&self) -> Option<DumpView> {
        match self.dump {
            Some(x) => Some(DumpView { start: x.0, cvars: pairs_view(x.1@) }),
            None => None,
        }
    }

    pub open spec fn wf(&self) -> bool {
        self.table_view() == all_kinds()
    }

    /// A processor over the full grammar table, reading no dump.
    pub fn new() -> (r: Self)
        ensures
            r.wf(),
            r.dump_view() is None,
    {
        LogProcessor { table: kinds_table(), dump: None }
    }

    /// Whether a cvar dump is being read.
    pub fn reading_cvar_dump(&self) -> (r: bool)
        ensures
            r == self.dump_view() is Some,
    {
        self.dump.is_some()
    }

    /// Takes the next line. A line outside a cvar dump yields its entry or its
    /// error. The start line of a dump begins buffering; its key/value lines are
    /// buffered, or dropped where no start was seen; its end line yields the
    /// whole dump. Those lines yield nothing else. Every integer field of the
    /// line must fit in the type it is read into (see `numbers_fit`).
    pub fn process_line<E>(&mut self, line: &str) -> (r: Option<Result<LogEntry, Error<E>>>)
        requires
            old(self).wf(),
            numbers_fit_in(all_kinds(), line@),
        ensures
            final(self).wf(),
            final(self).dump_view() == next_dump(old(self).dump_view(), line@),
            output_is(old(self).dump_view(), line@, r),
    {
        let parsed: Result<ParsedLine, Error<E>> = parse_line_with(&self.table, line);
        let ghost ms = matches_in(all_kinds(), line@);
        let ghost k = ms[0];
        let ghost c = caps_of(k, line@);
        match parsed {
            Err(e) => {
                Some(Err(e))
            },
            Ok(ParsedLine::Entry(e)) => Some(Ok(e)),
            Ok(ParsedLine::DumpStart(p)) => {
                self.dump = Some((p, Vec::new()));
                proof {
                    assert(pairs_view(Seq::<(String, String)>::empty()) =~= seq![]);
                }
                None
            },
            Ok(ParsedLine::DumpEntry(key, value)) => {
                let d = self.dump.take();
                match d {
                    Some((start, cvars)) => {
                        let mut cvars = cvars;
                        let ghost before = cvars@;
                        cvars.push((key, value));
                        proof {
                            assert(pairs_view(cvars@) =~= pairs_view(before).push(
                                (txt_at(line@, c, 6)->0, txt_at(line@, c, 7)->0),
                            ));
                        }
                        self.dump = Some((start, cvars));
                    },
                    None => {},
                }
                None
            },
            Ok(ParsedLine::DumpEnd(end)) => {
                let d = self.dump.take();
                match d {
                    Some((start, cvars)) => Some(Ok(LogEntry::CvarDump { start, end, cvars })),
                    None => None,
                }
            },
        }
    }
}

/// What a line that is not part of a cvar dump yields does not depend on the
/// lines before it.
pub proof fn lemma_plain_line_output<E>(
    d1: Option<DumpView>,
    d2: Option<DumpView>,
    s: Seq<char>,
    r: Option<Result<LogEntry, Error<E>>>,
)
    requires
        !is_dump_line(s),
    ensures
        output_is(d1, s, r) == output_is(d2, s, r),
        output_is(d1, s, r) ==> r is Some,
{
}

/// The dump state after feeding `lines` in order.
pub open spec fn feed(d: Option<DumpView>, lines: Seq<Seq<char>>) -> Option<DumpView>
    decreases lines.len(),
{
    if lines.len() == 0 {
        d
    } else {
        feed(next_dump(d, lines[0]), lines.drop_first())
    }
}

/// Feeding any number of lines none of which is part of a cvar dump leaves the
/// processor in the state it started in, so each line yields one result, the
/// same one it would yield alone.
pub proof fn lemma_plain_lines_keep_state(d: Option<DumpView>, lines: Seq<Seq<char>>)
    requires
        forall|i: int| 0 <= i < lines.len() ==> !is_dump_line(#[trigger] lines[i]),
    ensures
        feed(d, lines) == d,
    decreases lines.len(),
{
    if lines.len() > 0 {
        assert(!is_dump_line(lines[0]));
        assert forall|i: int| 0 <= i < lines.drop_first().len() implies !is_dump_line(
            #[trigger] lines.drop_first()[i],
        ) by {
            assert(lines.drop_first()[i] == lines[i + 1]);
        }
        lemma_plain_lines_keep_state(d, lines.drop_first());
    }
}

} // verus!
