//! What the captures of a matched pattern look like, and why every line that a
//! kind matches converts into that kind's entry.
use vstd::prelude::*;
use crate::checks::{check_ok, in_vocab, steam_id_ok, vocab_words, Check, Vocab};
use crate::entries::{convertible, fields_fit, int_fields, is_dump_kind};
use crate::extract::{
    Bound,
    count_or_zero, hitgroup_of, id_ok, int_at, kill_attributes_of, numeral, prefix_at, side_of,
    signed_value,
    sint_at, team_all_of, txt_at, u32_at,
};
use crate::grammar::{hi, lo, prim_step, run_prims, line_caps, Cap, Prim};
use crate::scan::{all_in, in_class, run_end, run_start, Class};
use crate::table::{pattern, player, player_no_team, prefix, vector, LineKind};

verus! {

broadcast use vstd::string::group_string_axioms;

pub open spec fn step_end(x: (int, Seq<Cap>)) -> int {
    x.0
}

pub open spec fn step_caps(x: (int, Seq<Cap>)) -> Seq<Cap> {
    x.1
}

/// The shape of one captured field.
pub enum Shape {
    /// Present, one or more digits.
    Digits,
    /// Present, one or more digits after an optional minus sign.
    Signed,
    /// Present.
    Text,
    /// Present, naming an identity.
    Id,
    /// Present, naming a team tag.
    Team,
    /// Present, naming a side.
    Side,
    /// Present, naming a hit group.
    Hit,
    /// Present or not.
    Opt,
    /// Absent, or one or more digits.
    OptDigits,
    /// Absent, or naming kill modifiers.
    Kill,
}

pub open spec fn check_shape(c: Check) -> Shape {
    match c {
        Check::PlayerId => Shape::Id,
        Check::SteamOrBot => Shape::Id,
        Check::Word(Vocab::TeamAll) => Shape::Team,
        Check::Word(Vocab::TeamSide) => Shape::Team,
        Check::Word(Vocab::Side) => Shape::Side,
        Check::Word(Vocab::HitGroup) => Shape::Hit,
        _ => Shape::Text,
    }
}

/// The shapes of the fields that a piece captures.
pub open spec fn prim_shapes(p: Prim) -> Seq<Shape> {
    match p {
        Prim::Lit(_) => seq![],
        Prim::Spaces => seq![],
        Prim::Field(_, c) => seq![check_shape(c)],
        Prim::Int => seq![Shape::Digits],
        Prim::SignedInt => seq![Shape::Signed],
        Prim::Fixed(k) => if k > 0 {
            seq![Shape::Digits]
        } else {
            seq![Shape::Text]
        },
        Prim::Readiness => seq![Shape::Opt],
        Prim::MoneyTail => seq![Shape::Opt, Shape::Opt],
        Prim::KillTail => seq![Shape::Kill],
        Prim::PluginTail => seq![Shape::OptDigits],
        Prim::FailureCode => seq![Shape::Text, Shape::Digits],
        _ => seq![Shape::Text],
    }
}

/// The shapes of the fields that a pattern captures.
pub open spec fn shapes(ps: Seq<Prim>) -> Seq<Shape>
    decreases ps.len(),
{
    if ps.len() == 0 {
        seq![]
    } else {
        prim_shapes(ps[0]) + shapes(ps.drop_first())
    }
}

pub open spec fn cap_text(s: Seq<char>, x: Cap) -> Seq<char> {
    match x {
        Some(v) => s.subrange(lo(v) as int, hi(v) as int),
        None => seq![],
    }
}

pub open spec fn has_shape(s: Seq<char>, x: Cap, sh: Shape) -> bool {
    let t = cap_text(s, x);
    match sh {
        Shape::Digits => x is Some && numeral(t, false),
        Shape::Signed => x is Some && numeral(t, true),
        Shape::Text => x is Some,
        Shape::Id => x is Some && id_ok(t),
        Shape::Team => x is Some && team_all_of(t) is Some,
        Shape::Side => x is Some && side_of(t) is Some,
        Shape::Hit => x is Some && hitgroup_of(t) is Some,
        Shape::Opt => true,
        Shape::OptDigits => x is None || numeral(t, false),
        Shape::Kill => kill_attributes_of(
            if x is Some {
                Some(t)
            } else {
                None
            },
        ) is Some,
    }
}

pub open spec fn caps_shaped(s: Seq<char>, c: Seq<Cap>, sh: Seq<Shape>) -> bool {
    c.len() == sh.len() && forall|i: int| 0 <= i < c.len() ==> has_shape(s, #[trigger] c[i], sh[i])
}

proof fn lemma_run_start_bounds(s: Seq<char>, end: int, k: Class)
    requires
        0 <= end <= s.len(),
    ensures
        0 <= run_start(s, end, k) <= end,
        all_in(s.subrange(run_start(s, end, k), end), k),
    decreases end,
{
    if end > 0 && in_class(s[end - 1], k) {
        lemma_run_start_bounds(s, end - 1, k);
        let b = run_start(s, end, k);
        assert forall|i: int| 0 <= i < end - b implies in_class(
            #[trigger] s.subrange(b, end)[i],
            k,
        ) by {
            if i < end - 1 - b {
                assert(s.subrange(b, end)[i] == s.subrange(b, end - 1)[i]);
            }
        }
    }
}

proof fn lemma_digits_numeral(s: Seq<char>, a: int, b: int)
    requires
        0 <= a < b <= s.len(),
        all_in(s.subrange(a, b), Class::Digit),
    ensures
        numeral(s.subrange(a, b), false),
        numeral(s.subrange(a, b), true),
{
    assert(in_class(s.subrange(a, b)[0], Class::Digit));
}

proof fn lemma_vocab_shape(t: Seq<char>, v: Vocab)
    requires
        in_vocab(t, v),
    ensures
        (v == Vocab::TeamAll || v == Vocab::TeamSide) ==> team_all_of(t) is Some,
        v == Vocab::Side ==> side_of(t) is Some,
        v == Vocab::HitGroup ==> hitgroup_of(t) is Some,
{
    let i = choose|i: int| 0 <= i < vocab_words(v).len() && t == (#[trigger] vocab_words(v)[i])@;
    match v {
        Vocab::TeamAll => {
            assert(i == 0 || i == 1 || i == 2 || i == 3 || i == 4 || i == 5);
        },
        Vocab::TeamSide => {
            assert(i == 0 || i == 1 || i == 2 || i == 3 || i == 4);
        },
        Vocab::Side => {
            assert(i == 0 || i == 1);
        },
        Vocab::HitGroup => {
            assert(i == 0 || i == 1 || i == 2 || i == 3 || i == 4 || i == 5 || i == 6 || i == 7
                || i == 8);
        },
    }
}

proof fn lemma_field_shape(s: Seq<char>, pos: int, stop: char, c: Check)
    requires
        0 <= pos <= s.len() <= usize::MAX,
        check_ok(c, s.subrange(pos, run_end(s, pos, Class::Not(stop)))),
    ensures
        has_shape(
            s,
            Some((pos as usize, run_end(s, pos, Class::Not(stop)) as usize)),
            check_shape(c),
        ),
{
    let e = run_end(s, pos, Class::Not(stop));
    crate::scan::lemma_run_end_bounds(s, pos, Class::Not(stop));
    let t = s.subrange(pos, e);
    assert(cap_text(s, Some((pos as usize, e as usize))) == t);
    match c {
        Check::PlayerId => {
            if steam_id_ok(t) {
            }
        },
        Check::Word(v) => {
            lemma_vocab_shape(t, v);
        },
        _ => {},
    }
}

/// The fields that a piece captures have its shapes.
pub proof fn lemma_prim_shapes(p: Prim, s: Seq<char>, pos: int)
    requires
        0 <= pos <= s.len() <= usize::MAX,
        prim_step(p, s, pos) is Some,
    ensures
        pos <= step_end(prim_step(p, s, pos)->0) <= s.len(),
        caps_shaped(s, step_caps(prim_step(p, s, pos)->0), prim_shapes(p)),
{
    let n = s.len() as int;
    let x = prim_step(p, s, pos)->0;
    match p {
        Prim::Lit(_) => {},
        Prim::Field(stop, c) => {
            lemma_field_shape(s, pos, stop, c);
            crate::scan::lemma_run_end_bounds(s, pos, Class::Not(stop));
        },
        Prim::Int => {
            crate::scan::lemma_run_end_bounds(s, pos, Class::Digit);
            lemma_digits_numeral(s, pos, x.0);
        },
        Prim::SignedInt => {
            let d = crate::grammar::opt_sign_end(s, pos, true);
            crate::scan::lemma_run_end_bounds(s, d, Class::Digit);
            let t = s.subrange(pos, x.0);
            if d == pos + 1 {
                assert(t.drop_first() =~= s.subrange(d, x.0));
                assert(t[0] == '-');
            } else {
                lemma_digits_numeral(s, pos, x.0);
            }
        },
        Prim::Fixed(k) => {
            if k > 0 {
                lemma_digits_numeral(s, pos, pos + k);
            }
        },
        Prim::Decimal(signed) => {
            let d = crate::grammar::opt_sign_end(s, pos, signed);
            let e1 = run_end(s, d, Class::Digit);
            crate::scan::lemma_run_end_bounds(s, d, Class::Digit);
            crate::scan::lemma_run_end_bounds(s, e1 + 1, Class::Digit);
        },
        Prim::Word => {
            crate::scan::lemma_run_end_bounds(s, pos, Class::Word);
        },
        Prim::Spaces => {
            crate::scan::lemma_run_end_bounds(s, pos, Class::Space);
        },
        Prim::Sign => {},
        Prim::Rest(_) => {},
        Prim::Tail(_, _) => {},
        Prim::Readiness => {
            reveal_strlit("[READY] ");
            reveal_strlit("[NOT READY] ");
        },
        Prim::MoneyTail => {},
        Prim::KillTail => {
            if pos < n {
                reveal_strlit(" (headshot)");
                reveal_strlit(" (penetrated)");
                reveal_strlit(" (headshot penetrated)");
                reveal_strlit("headshot");
                reveal_strlit("penetrated");
                reveal_strlit("headshot penetrated");
                let rest = s.subrange(pos, n);
                let t = s.subrange(pos + 2, n - 1);
                assert(t =~= rest.subrange(2, rest.len() - 1));
                if rest == " (headshot)"@ {
                    assert(t =~= "headshot"@);
                } else if rest == " (penetrated)"@ {
                    assert(t =~= "penetrated"@);
                } else {
                    assert(t =~= "headshot penetrated"@);
                }
            }
        },
        Prim::PluginTail => {
            let q = pos + 1;
            if q < n {
                crate::scan::lemma_run_end_bounds(s, q + 2, Class::Digit);
                let e = run_end(s, q + 2, Class::Digit);
                lemma_digits_numeral(s, q + 2, e);
            }
        },
        Prim::FailureCode => {
            lemma_run_start_bounds(s, n, Class::Digit);
            let d = run_start(s, n, Class::Digit);
            lemma_digits_numeral(s, d, n);
        },
    }
}

/// The fields that a run of pieces captures have the pieces' shapes.
pub proof fn lemma_run_shapes(ps: Seq<Prim>, s: Seq<char>, pos: int)
    requires
        0 <= pos <= s.len() <= usize::MAX,
        run_prims(ps, s, pos) is Some,
    ensures
        pos <= step_end(run_prims(ps, s, pos)->0) <= s.len(),
        caps_shaped(s, step_caps(run_prims(ps, s, pos)->0), shapes(ps)),
    decreases ps.len(),
{
    if ps.len() > 0 {
        let x = prim_step(ps[0], s, pos)->0;
        lemma_prim_shapes(ps[0], s, pos);
        lemma_run_shapes(ps.drop_first(), s, x.0);
        let y = run_prims(ps.drop_first(), s, x.0)->0;
        let c = x.1 + y.1;
        let sh = prim_shapes(ps[0]) + shapes(ps.drop_first());
        assert forall|i: int| 0 <= i < c.len() implies has_shape(s, #[trigger] c[i], sh[i]) by {
            if i < x.1.len() {
                assert(c[i] == x.1[i]);
            } else {
                assert(c[i] == y.1[i - x.1.len()]);
            }
        }
    }
}

/// The shapes of two patterns one after the other.
pub proof fn lemma_shapes_concat(a: Seq<Prim>, b: Seq<Prim>)
    ensures
        shapes(a + b) == shapes(a) + shapes(b),
    decreases a.len(),
{
    if a.len() == 0 {
        assert(a + b =~= b);
        assert(shapes(a) + shapes(b) =~= shapes(b));
    } else {
        assert((a + b).drop_first() =~= a.drop_first() + b);
        assert((a + b)[0] == a[0]);
        lemma_shapes_concat(a.drop_first(), b);
        assert(shapes(a + b) =~= shapes(a) + shapes(b));
    }
}

/// The shapes of the timestamp, the player descriptors and the position.
pub proof fn lemma_group_shapes()
    ensures
        shapes(prefix()) =~= seq![Shape::Digits, Shape::Digits, Shape::Digits, Shape::Digits, Shape::Digits, Shape::Digits],
        shapes(player()) =~= seq![Shape::Text, Shape::Digits, Shape::Id, Shape::Team],
        shapes(player_no_team()) =~= seq![Shape::Text, Shape::Digits, Shape::Id],
        shapes(vector()) =~= seq![Shape::Signed, Shape::Signed, Shape::Signed],
{
    reveal_with_fuel(shapes, 14);
}

#[verifier::rlimit(50)]
proof fn lemma_converts_log_file_start(s: Seq<char>)
    requires
        s.len() <= usize::MAX,
        line_caps(pattern(LineKind::LogFileStart), s) is Some,
        fields_fit(LineKind::LogFileStart, s, line_caps(pattern(LineKind::LogFileStart), s)->0),
    ensures
        convertible(LineKind::LogFileStart, s, line_caps(pattern(LineKind::LogFileStart), s)->0),
{
    lemma_run_shapes(pattern(LineKind::LogFileStart), s, 0);
    lemma_group_shapes();
    assert(shapes(seq![Prim::Lit("Log file started (file \""), Prim::Field('"', Check::Any), Prim::Lit("\") (game \""), Prim::Field('"', Check::Any), Prim::Lit("\") (version \""), Prim::Int, Prim::Lit("\")")]) =~= seq![Shape::Text, Shape::Text, Shape::Digits]) by {
        reveal_with_fuel(shapes, 8);
    }
    lemma_shapes_concat(prefix(), seq![Prim::Lit("Log file started (file \""), Prim::Field('"', Check::Any), Prim::Lit("\") (game \""), Prim::Field('"', Check::Any), Prim::Lit("\") (version \""), Prim::Int, Prim::Lit("\")")]);
    let c = line_caps(pattern(LineKind::LogFileStart), s)->0;
    assert(caps_shaped(s, c, shapes(pattern(LineKind::LogFileStart))));
    assert(int_fields(LineKind::LogFileStart)[0] == (0usize, Bound::Int));
    assert(int_fields(LineKind::LogFileStart)[1] == (1usize, Bound::Int));
    assert(int_fields(LineKind::LogFileStart)[2] == (2usize, Bound::Int));
    assert(int_fields(LineKind::LogFileStart)[3] == (3usize, Bound::Int));
    assert(int_fields(LineKind::LogFileStart)[4] == (4usize, Bound::Int));
    assert(int_fields(LineKind::LogFileStart)[5] == (5usize, Bound::Int));
    assert(int_fields(LineKind::LogFileStart)[6] == (8usize, Bound::Int));
}

#[verifier::rlimit(50)]
proof fn lemma_converts_log_file_closed(s: Seq<char>)
    requires
        s.len() <= usize::MAX,
        line_caps(pattern(LineKind::LogFileClosed), s) is Some,
        fields_fit(LineKind::LogFileClosed, s, line_caps(pattern(LineKind::LogFileClosed), s)->0),
    ensures
        convertible(LineKind::LogFileClosed, s, line_caps(pattern(LineKind::LogFileClosed), s)->0),
{
    lemma_run_shapes(pattern(LineKind::LogFileClosed), s, 0);
    lemma_group_shapes();
    assert(shapes(seq![Prim::Lit("Log file closed")]) =~= seq![]) by {
        reveal_with_fuel(shapes, 2);
    }
    lemma_shapes_concat(prefix(), seq![Prim::Lit("Log file closed")]);
    let c = line_caps(pattern(LineKind::LogFileClosed), s)->0;
    assert(caps_shaped(s, c, shapes(pattern(LineKind::LogFileClosed))));
    assert(int_fields(LineKind::LogFileClosed)[0] == (0usize, Bound::Int));
    assert(int_fields(LineKind::LogFileClosed)[1] == (1usize, Bound::Int));
    assert(int_fields(LineKind::LogFileClosed)[2] == (2usize, Bound::Int));
    assert(int_fields(LineKind::LogFileClosed)[3] == (3usize, Bound::Int));
    assert(int_fields(LineKind::LogFileClosed)[4] == (4usize, Bound::Int));
    assert(int_fields(LineKind::LogFileClosed)[5] == (5usize, Bound::Int));
}

#[verifier::rlimit(50)]
proof fn lemma_converts_world_triggered_event(s: Seq<char>)
    requires
        s.len() <= usize::MAX,
        line_caps(pattern(LineKind::WorldTriggeredEvent), s) is Some,
        fields_fit(LineKind::WorldTriggeredEvent, s, line_caps(pattern(LineKind::WorldTriggeredEvent), s)->0),
    ensures
        convertible(LineKind::WorldTriggeredEvent, s, line_caps(pattern(LineKind::WorldTriggeredEvent), s)->0),
{
    lemma_run_shapes(pattern(LineKind::WorldTriggeredEvent), s, 0);
    lemma_group_shapes();
    assert(shapes(seq![Prim::Lit("World triggered \""), Prim::Field('"', Check::Any), Prim::Lit("\"")]) =~= seq![Shape::Text]) by {
        reveal_with_fuel(shapes, 4);
    }
    lemma_shapes_concat(prefix(), seq![Prim::Lit("World triggered \""), Prim::Field('"', Check::Any), Prim::Lit("\"")]);
    let c = line_caps(pattern(LineKind::WorldTriggeredEvent), s)->0;
    assert(caps_shaped(s, c, shapes(pattern(LineKind::WorldTriggeredEvent))));
    assert(int_fields(LineKind::WorldTriggeredEvent)[0] == (0usize, Bound::Int));
    assert(int_fields(LineKind::WorldTriggeredEvent)[1] == (1usize, Bound::Int));
    assert(int_fields(LineKind::WorldTriggeredEvent)[2] == (2usize, Bound::Int));
    assert(int_fields(LineKind::WorldTriggeredEvent)[3] == (3usize, Bound::Int));
    assert(int_fields(LineKind::WorldTriggeredEvent)[4] == (4usize, Bound::Int));
    assert(int_fields(LineKind::WorldTriggeredEvent)[5] == (5usize, Bound::Int));
}

#[verifier::rlimit(50)]
proof fn lemma_converts_world_triggered_event_map(s: Seq<char>)
    requires
        s.len() <= usize::MAX,
        line_caps(pattern(LineKind::WorldTriggeredEventMap), s) is Some,
        fields_fit(LineKind::WorldTriggeredEventMap, s, line_caps(pattern(LineKind::WorldTriggeredEventMap), s)->0),
    ensures
        convertible(LineKind::WorldTriggeredEventMap, s, line_caps(pattern(LineKind::WorldTriggeredEventMap), s)->0),
{
    lemma_run_shapes(pattern(LineKind::WorldTriggeredEventMap), s, 0);
    lemma_group_shapes();
    assert(shapes(seq![Prim::Lit("World triggered \""), Prim::Field('"', Check::Any), Prim::Lit("\" on \""), Prim::Field('"', Check::Any), Prim::Lit("\"")]) =~= seq![Shape::Text, Shape::Text]) by {
        reveal_with_fuel(shapes, 6);
    }
    lemma_shapes_concat(prefix(), seq![Prim::Lit("World triggered \""), Prim::Field('"', Check::Any), Prim::Lit("\" on \""), Prim::Field('"', Check::Any), Prim::Lit("\"")]);
    let c = line_caps(pattern(LineKind::WorldTriggeredEventMap), s)->0;
    assert(caps_shaped(s, c, shapes(pattern(LineKind::WorldTriggeredEventMap))));
    assert(int_fields(LineKind::WorldTriggeredEventMap)[0] == (0usize, Bound::Int));
    assert(int_fields(LineKind::WorldTriggeredEventMap)[1] == (1usize, Bound::Int));
    assert(int_fields(LineKind::WorldTriggeredEventMap)[2] == (2usize, Bound::Int));
    assert(int_fields(LineKind::WorldTriggeredEventMap)[3] == (3usize, Bound::Int));
    assert(int_fields(LineKind::WorldTriggeredEventMap)[4] == (4usize, Bound::Int));
    assert(int_fields(LineKind::WorldTriggeredEventMap)[5] == (5usize, Bound::Int));
}

#[verifier::rlimit(50)]
proof fn lemma_converts_world_triggered_event_score(s: Seq<char>)
    requires
        s.len() <= usize::MAX,
        line_caps(pattern(LineKind::WorldTriggeredEventScore), s) is Some,
        fields_fit(LineKind::WorldTriggeredEventScore, s, line_caps(pattern(LineKind::WorldTriggeredEventScore), s)->0),
    ensures
        convertible(LineKind::WorldTriggeredEventScore, s, line_caps(pattern(LineKind::WorldTriggeredEventScore), s)->0),
{
    lemma_run_shapes(pattern(LineKind::WorldTriggeredEventScore), s, 0);
    lemma_group_shapes();
    assert(shapes(seq![Prim::Lit("World triggered \""), Prim::Field('"', Check::Any), Prim::Lit("\" (CT \""), Prim::Int, Prim::Lit("\") (T \""), Prim::Int, Prim::Lit("\")")]) =~= seq![Shape::Text, Shape::Digits, Shape::Digits]) by {
        reveal_with_fuel(shapes, 8);
    }
    lemma_shapes_concat(prefix(), seq![Prim::Lit("World triggered \""), Prim::Field('"', Check::Any), Prim::Lit("\" (CT \""), Prim::Int, Prim::Lit("\") (T \""), Prim::Int, Prim::Lit("\")")]);
    let c = line_caps(pattern(LineKind::WorldTriggeredEventScore), s)->0;
    assert(caps_shaped(s, c, shapes(pattern(LineKind::WorldTriggeredEventScore))));
    assert(int_fields(LineKind::WorldTriggeredEventScore)[0] == (0usize, Bound::Int));
    assert(int_fields(LineKind::WorldTriggeredEventScore)[1] == (1usize, Bound::Int));
    assert(int_fields(LineKind::WorldTriggeredEventScore)[2] == (2usize, Bound::Int));
    assert(int_fields(LineKind::WorldTriggeredEventScore)[3] == (3usize, Bound::Int));
    assert(int_fields(LineKind::WorldTriggeredEventScore)[4] == (4usize, Bound::Int));
    assert(int_fields(LineKind::WorldTriggeredEventScore)[5] == (5usize, Bound::Int));
    assert(int_fields(LineKind::WorldTriggeredEventScore)[6] == (7usize, Bound::Int));
    assert(int_fields(LineKind::WorldTriggeredEventScore)[7] == (8usize, Bound::Int));
}

#[verifier::rlimit(50)]
proof fn lemma_converts_player_triggered_event(s: Seq<char>)
    requires
        s.len() <= usize::MAX,
        line_caps(pattern(LineKind::PlayerTriggeredEvent), s) is Some,
        fields_fit(LineKind::PlayerTriggeredEvent, s, line_caps(pattern(LineKind::PlayerTriggeredEvent), s)->0),
    ensures
        convertible(LineKind::PlayerTriggeredEvent, s, line_caps(pattern(LineKind::PlayerTriggeredEvent), s)->0),
{
    lemma_run_shapes(pattern(LineKind::PlayerTriggeredEvent), s, 0);
    lemma_group_shapes();
    assert(shapes(seq![Prim::Lit(" triggered \""), Prim::Field('"', Check::Any), Prim::Lit("\"")]) =~= seq![Shape::Text]) by {
        reveal_with_fuel(shapes, 4);
    }
    lemma_shapes_concat(prefix(), player());
    lemma_shapes_concat(prefix() + player(), seq![Prim::Lit(" triggered \""), Prim::Field('"', Check::Any), Prim::Lit("\"")]);
    let c = line_caps(pattern(LineKind::PlayerTriggeredEvent), s)->0;
    assert(caps_shaped(s, c, shapes(pattern(LineKind::PlayerTriggeredEvent))));
    assert(int_fields(LineKind::PlayerTriggeredEvent)[0] == (0usize, Bound::Int));
    assert(int_fields(LineKind::PlayerTriggeredEvent)[1] == (1usize, Bound::Int));
    assert(int_fields(LineKind::PlayerTriggeredEvent)[2] == (2usize, Bound::Int));
    assert(int_fields(LineKind::PlayerTriggeredEvent)[3] == (3usize, Bound::Int));
    assert(int_fields(LineKind::PlayerTriggeredEvent)[4] == (4usize, Bound::Int));
    assert(int_fields(LineKind::PlayerTriggeredEvent)[5] == (5usize, Bound::Int));
    assert(int_fields(LineKind::PlayerTriggeredEvent)[6] == (7usize, Bound::Int));
}

#[verifier::rlimit(50)]
proof fn lemma_converts_team_triggered_event_score(s: Seq<char>)
    requires
        s.len() <= usize::MAX,
        line_caps(pattern(LineKind::TeamTriggeredEventScore), s) is Some,
        fields_fit(LineKind::TeamTriggeredEventScore, s, line_caps(pattern(LineKind::TeamTriggeredEventScore), s)->0),
    ensures
        convertible(LineKind::TeamTriggeredEventScore, s, line_caps(pattern(LineKind::TeamTriggeredEventScore), s)->0),
{
    lemma_run_shapes(pattern(LineKind::TeamTriggeredEventScore), s, 0);
    lemma_group_shapes();
    assert(shapes(seq![Prim::Lit("Team \""), Prim::Field('"', Check::Word(Vocab::Side)), Prim::Lit("\" triggered \""), Prim::Field('"', Check::Any), Prim::Lit("\" (CT \""), Prim::Int, Prim::Lit("\") (T \""), Prim::Int, Prim::Lit("\")")]) =~= seq![Shape::Side, Shape::Text, Shape::Digits, Shape::Digits]) by {
        reveal_with_fuel(shapes, 10);
    }
    lemma_shapes_concat(prefix(), seq![Prim::Lit("Team \""), Prim::Field('"', Check::Word(Vocab::Side)), Prim::Lit("\" triggered \""), Prim::Field('"', Check::Any), Prim::Lit("\" (CT \""), Prim::Int, Prim::Lit("\") (T \""), Prim::Int, Prim::Lit("\")")]);
    let c = line_caps(pattern(LineKind::TeamTriggeredEventScore), s)->0;
    assert(caps_shaped(s, c, shapes(pattern(LineKind::TeamTriggeredEventScore))));
    assert(int_fields(LineKind::TeamTriggeredEventScore)[0] == (0usize, Bound::Int));
    assert(int_fields(LineKind::TeamTriggeredEventScore)[1] == (1usize, Bound::Int));
    assert(int_fields(LineKind::TeamTriggeredEventScore)[2] == (2usize, Bound::Int));
    assert(int_fields(LineKind::TeamTriggeredEventScore)[3] == (3usize, Bound::Int));
    assert(int_fields(LineKind::TeamTriggeredEventScore)[4] == (4usize, Bound::Int));
    assert(int_fields(LineKind::TeamTriggeredEventScore)[5] == (5usize, Bound::Int));
    assert(int_fields(LineKind::TeamTriggeredEventScore)[6] == (8usize, Bound::Int));
    assert(int_fields(LineKind::TeamTriggeredEventScore)[7] == (9usize, Bound::Int));
}

#[verifier::rlimit(50)]
proof fn lemma_converts_loading_map(s: Seq<char>)
    requires
        s.len() <= usize::MAX,
        line_caps(pattern(LineKind::LoadingMap), s) is Some,
        fields_fit(LineKind::LoadingMap, s, line_caps(pattern(LineKind::LoadingMap), s)->0),
    ensures
        convertible(LineKind::LoadingMap, s, line_caps(pattern(LineKind::LoadingMap), s)->0),
{
    lemma_run_shapes(pattern(LineKind::LoadingMap), s, 0);
    lemma_group_shapes();
    assert(shapes(seq![Prim::Lit("Loading map \""), Prim::Field('"', Check::Any), Prim::Lit("\"")]) =~= seq![Shape::Text]) by {
        reveal_with_fuel(shapes, 4);
    }
    lemma_shapes_concat(prefix(), seq![Prim::Lit("Loading map \""), Prim::Field('"', Check::Any), Prim::Lit("\"")]);
    let c = line_caps(pattern(LineKind::LoadingMap), s)->0;
    assert(caps_shaped(s, c, shapes(pattern(LineKind::LoadingMap))));
    assert(int_fields(LineKind::LoadingMap)[0] == (0usize, Bound::Int));
    assert(int_fields(LineKind::LoadingMap)[1] == (1usize, Bound::Int));
    assert(int_fields(LineKind::LoadingMap)[2] == (2usize, Bound::Int));
    assert(int_fields(LineKind::LoadingMap)[3] == (3usize, Bound::Int));
    assert(int_fields(LineKind::LoadingMap)[4] == (4usize, Bound::Int));
    assert(int_fields(LineKind::LoadingMap)[5] == (5usize, Bound::Int));
}

#[verifier::rlimit(50)]
proof fn lemma_converts_started_map(s: Seq<char>)
    requires
        s.len() <= usize::MAX,
        line_caps(pattern(LineKind::StartedMap), s) is Some,
        fields_fit(LineKind::StartedMap, s, line_caps(pattern(LineKind::StartedMap), s)->0),
    ensures
        convertible(LineKind::StartedMap, s, line_caps(pattern(LineKind::StartedMap), s)->0),
{
    lemma_run_shapes(pattern(LineKind::StartedMap), s, 0);
    lemma_group_shapes();
    assert(shapes(seq![Prim::Lit("Started map \""), Prim::Field('"', Check::Any), Prim::Lit("\" (CRC \""), Prim::SignedInt, Prim::Lit("\")")]) =~= seq![Shape::Text, Shape::Signed]) by {
        reveal_with_fuel(shapes, 6);
    }
    lemma_shapes_concat(prefix(), seq![Prim::Lit("Started map \""), Prim::Field('"', Check::Any), Prim::Lit("\" (CRC \""), Prim::SignedInt, Prim::Lit("\")")]);
    let c = line_caps(pattern(LineKind::StartedMap), s)->0;
    assert(caps_shaped(s, c, shapes(pattern(LineKind::StartedMap))));
    assert(int_fields(LineKind::StartedMap)[0] == (0usize, Bound::Int));
    assert(int_fields(LineKind::StartedMap)[1] == (1usize, Bound::Int));
    assert(int_fields(LineKind::StartedMap)[2] == (2usize, Bound::Int));
    assert(int_fields(LineKind::StartedMap)[3] == (3usize, Bound::Int));
    assert(int_fields(LineKind::StartedMap)[4] == (4usize, Bound::Int));
    assert(int_fields(LineKind::StartedMap)[5] == (5usize, Bound::Int));
}

#[verifier::rlimit(50)]
proof fn lemma_converts_cvar(s: Seq<char>)
    requires
        s.len() <= usize::MAX,
        line_caps(pattern(LineKind::Cvar), s) is Some,
        fields_fit(LineKind::Cvar, s, line_caps(pattern(LineKind::Cvar), s)->0),
    ensures
        convertible(LineKind::Cvar, s, line_caps(pattern(LineKind::Cvar), s)->0),
{
    lemma_run_shapes(pattern(LineKind::Cvar), s, 0);
    lemma_group_shapes();
    assert(shapes(seq![Prim::Lit("server_cvar: \""), Prim::Field('"', Check::Any), Prim::Lit("\" \""), Prim::Field('"', Check::Any), Prim::Lit("\"")]) =~= seq![Shape::Text, Shape::Text]) by {
        reveal_with_fuel(shapes, 6);
    }
    lemma_shapes_concat(prefix(), seq![Prim::Lit("server_cvar: \""), Prim::Field('"', Check::Any), Prim::Lit("\" \""), Prim::Field('"', Check::Any), Prim::Lit("\"")]);
    let c = line_caps(pattern(LineKind::Cvar), s)->0;
    assert(caps_shaped(s, c, shapes(pattern(LineKind::Cvar))));
    assert(int_fields(LineKind::Cvar)[0] == (0usize, Bound::Int));
    assert(int_fields(LineKind::Cvar)[1] == (1usize, Bound::Int));
    assert(int_fields(LineKind::Cvar)[2] == (2usize, Bound::Int));
    assert(int_fields(LineKind::Cvar)[3] == (3usize, Bound::Int));
    assert(int_fields(LineKind::Cvar)[4] == (4usize, Bound::Int));
    assert(int_fields(LineKind::Cvar)[5] == (5usize, Bound::Int));
}

#[verifier::rlimit(50)]
proof fn lemma_converts_player_entered_game(s: Seq<char>)
    requires
        s.len() <= usize::MAX,
        line_caps(pattern(LineKind::PlayerEnteredGame), s) is Some,
        fields_fit(LineKind::PlayerEnteredGame, s, line_caps(pattern(LineKind::PlayerEnteredGame), s)->0),
    ensures
        convertible(LineKind::PlayerEnteredGame, s, line_caps(pattern(LineKind::PlayerEnteredGame), s)->0),
{
    lemma_run_shapes(pattern(LineKind::PlayerEnteredGame), s, 0);
    lemma_group_shapes();
    assert(shapes(seq![Prim::Lit(" entered the game")]) =~= seq![]) by {
        reveal_with_fuel(shapes, 2);
    }
    lemma_shapes_concat(prefix(), player());
    lemma_shapes_concat(prefix() + player(), seq![Prim::Lit(" entered the game")]);
    let c = line_caps(pattern(LineKind::PlayerEnteredGame), s)->0;
    assert(caps_shaped(s, c, shapes(pattern(LineKind::PlayerEnteredGame))));
    assert(int_fields(LineKind::PlayerEnteredGame)[0] == (0usize, Bound::Int));
    assert(int_fields(LineKind::PlayerEnteredGame)[1] == (1usize, Bound::Int));
    assert(int_fields(LineKind::PlayerEnteredGame)[2] == (2usize, Bound::Int));
    assert(int_fields(LineKind::PlayerEnteredGame)[3] == (3usize, Bound::Int));
    assert(int_fields(LineKind::PlayerEnteredGame)[4] == (4usize, Bound::Int));
    assert(int_fields(LineKind::PlayerEnteredGame)[5] == (5usize, Bound::Int));
    assert(int_fields(LineKind::PlayerEnteredGame)[6] == (7usize, Bound::Int));
}

#[verifier::rlimit(50)]
proof fn lemma_converts_get5_event(s: Seq<char>)
    requires
        s.len() <= usize::MAX,
        line_caps(pattern(LineKind::Get5Event), s) is Some,
        fields_fit(LineKind::Get5Event, s, line_caps(pattern(LineKind::Get5Event), s)->0),
    ensures
        convertible(LineKind::Get5Event, s, line_caps(pattern(LineKind::Get5Event), s)->0),
{
    lemma_run_shapes(pattern(LineKind::Get5Event), s, 0);
    lemma_group_shapes();
    assert(shapes(seq![Prim::Lit("get5_event: "), Prim::Rest(true)]) =~= seq![Shape::Text]) by {
        reveal_with_fuel(shapes, 3);
    }
    lemma_shapes_concat(prefix(), seq![Prim::Lit("get5_event: "), Prim::Rest(true)]);
    let c = line_caps(pattern(LineKind::Get5Event), s)->0;
    assert(caps_shaped(s, c, shapes(pattern(LineKind::Get5Event))));
    assert(int_fields(LineKind::Get5Event)[0] == (0usize, Bound::Int));
    assert(int_fields(LineKind::Get5Event)[1] == (1usize, Bound::Int));
    assert(int_fields(LineKind::Get5Event)[2] == (2usize, Bound::Int));
    assert(int_fields(LineKind::Get5Event)[3] == (3usize, Bound::Int));
    assert(int_fields(LineKind::Get5Event)[4] == (4usize, Bound::Int));
    assert(int_fields(LineKind::Get5Event)[5] == (5usize, Bound::Int));
}

#[verifier::rlimit(50)]
proof fn lemma_converts_rcon_command(s: Seq<char>)
    requires
        s.len() <= usize::MAX,
        line_caps(pattern(LineKind::RconCommand), s) is Some,
        fields_fit(LineKind::RconCommand, s, line_caps(pattern(LineKind::RconCommand), s)->0),
    ensures
        convertible(LineKind::RconCommand, s, line_caps(pattern(LineKind::RconCommand), s)->0),
{
    lemma_run_shapes(pattern(LineKind::RconCommand), s, 0);
    lemma_group_shapes();
    assert(shapes(seq![Prim::Lit("rcon from \""), Prim::Field('"', Check::Address), Prim::Lit("\": command \""), Prim::Tail("\"", Check::Line)]) =~= seq![Shape::Text, Shape::Text]) by {
        reveal_with_fuel(shapes, 5);
    }
    lemma_shapes_concat(prefix(), seq![Prim::Lit("rcon from \""), Prim::Field('"', Check::Address), Prim::Lit("\": command \""), Prim::Tail("\"", Check::Line)]);
    let c = line_caps(pattern(LineKind::RconCommand), s)->0;
    assert(caps_shaped(s, c, shapes(pattern(LineKind::RconCommand))));
    assert(int_fields(LineKind::RconCommand)[0] == (0usize, Bound::Int));
    assert(int_fields(LineKind::RconCommand)[1] == (1usize, Bound::Int));
    assert(int_fields(LineKind::RconCommand)[2] == (2usize, Bound::Int));
    assert(int_fields(LineKind::RconCommand)[3] == (3usize, Bound::Int));
    assert(int_fields(LineKind::RconCommand)[4] == (4usize, Bound::Int));
    assert(int_fields(LineKind::RconCommand)[5] == (5usize, Bound::Int));
}

#[verifier::rlimit(50)]
proof fn lemma_converts_rcon_bad_password(s: Seq<char>)
    requires
        s.len() <= usize::MAX,
        line_caps(pattern(LineKind::RconBadPassword), s) is Some,
        fields_fit(LineKind::RconBadPassword, s, line_caps(pattern(LineKind::RconBadPassword), s)->0),
    ensures
        convertible(LineKind::RconBadPassword, s, line_caps(pattern(LineKind::RconBadPassword), s)->0),
{
    lemma_run_shapes(pattern(LineKind::RconBadPassword), s, 0);
    lemma_group_shapes();
    assert(shapes(seq![Prim::Lit("rcon from \""), Prim::Field('"', Check::Address), Prim::Lit("\": Bad Password")]) =~= seq![Shape::Text]) by {
        reveal_with_fuel(shapes, 4);
    }
    lemma_shapes_concat(prefix(), seq![Prim::Lit("rcon from \""), Prim::Field('"', Check::Address), Prim::Lit("\": Bad Password")]);
    let c = line_caps(pattern(LineKind::RconBadPassword), s)->0;
    assert(caps_shaped(s, c, shapes(pattern(LineKind::RconBadPassword))));
    assert(int_fields(LineKind::RconBadPassword)[0] == (0usize, Bound::Int));
    assert(int_fields(LineKind::RconBadPassword)[1] == (1usize, Bound::Int));
    assert(int_fields(LineKind::RconBadPassword)[2] == (2usize, Bound::Int));
    assert(int_fields(LineKind::RconBadPassword)[3] == (3usize, Bound::Int));
    assert(int_fields(LineKind::RconBadPassword)[4] == (4usize, Bound::Int));
    assert(int_fields(LineKind::RconBadPassword)[5] == (5usize, Bound::Int));
}

#[verifier::rlimit(50)]
proof fn lemma_converts_switched_team(s: Seq<char>)
    requires
        s.len() <= usize::MAX,
        line_caps(pattern(LineKind::SwitchedTeam), s) is Some,
        fields_fit(LineKind::SwitchedTeam, s, line_caps(pattern(LineKind::SwitchedTeam), s)->0),
    ensures
        convertible(LineKind::SwitchedTeam, s, line_caps(pattern(LineKind::SwitchedTeam), s)->0),
{
    lemma_run_shapes(pattern(LineKind::SwitchedTeam), s, 0);
    lemma_group_shapes();
    assert(shapes(seq![Prim::Lit(" switched from team <"), Prim::Field('>', Check::Word(Vocab::TeamSide)), Prim::Lit("> to <"), Prim::Field('>', Check::Word(Vocab::TeamSide)), Prim::Lit(">")]) =~= seq![Shape::Team, Shape::Team]) by {
        reveal_with_fuel(shapes, 6);
    }
    lemma_shapes_concat(prefix(), player_no_team());
    lemma_shapes_concat(prefix() + player_no_team(), seq![Prim::Lit(" switched from team <"), Prim::Field('>', Check::Word(Vocab::TeamSide)), Prim::Lit("> to <"), Prim::Field('>', Check::Word(Vocab::TeamSide)), Prim::Lit(">")]);
    let c = line_caps(pattern(LineKind::SwitchedTeam), s)->0;
    assert(caps_shaped(s, c, shapes(pattern(LineKind::SwitchedTeam))));
    assert(int_fields(LineKind::SwitchedTeam)[0] == (0usize, Bound::Int));
    assert(int_fields(LineKind::SwitchedTeam)[1] == (1usize, Bound::Int));
    assert(int_fields(LineKind::SwitchedTeam)[2] == (2usize, Bound::Int));
    assert(int_fields(LineKind::SwitchedTeam)[3] == (3usize, Bound::Int));
    assert(int_fields(LineKind::SwitchedTeam)[4] == (4usize, Bound::Int));
    assert(int_fields(LineKind::SwitchedTeam)[5] == (5usize, Bound::Int));
    assert(int_fields(LineKind::SwitchedTeam)[6] == (7usize, Bound::Int));
}

#[verifier::rlimit(50)]
proof fn lemma_converts_player_picked_up(s: Seq<char>)
    requires
        s.len() <= usize::MAX,
        line_caps(pattern(LineKind::PlayerPickedUp), s) is Some,
        fields_fit(LineKind::PlayerPickedUp, s, line_caps(pattern(LineKind::PlayerPickedUp), s)->0),
    ensures
        convertible(LineKind::PlayerPickedUp, s, line_caps(pattern(LineKind::PlayerPickedUp), s)->0),
{
    lemma_run_shapes(pattern(LineKind::PlayerPickedUp), s, 0);
    lemma_group_shapes();
    assert(shapes(seq![Prim::Lit(" picked up \""), Prim::Field('"', Check::Any), Prim::Lit("\"")]) =~= seq![Shape::Text]) by {
        reveal_with_fuel(shapes, 4);
    }
    lemma_shapes_concat(prefix(), player());
    lemma_shapes_concat(prefix() + player(), seq![Prim::Lit(" picked up \""), Prim::Field('"', Check::Any), Prim::Lit("\"")]);
    let c = line_caps(pattern(LineKind::PlayerPickedUp), s)->0;
    assert(caps_shaped(s, c, shapes(pattern(LineKind::PlayerPickedUp))));
    assert(int_fields(LineKind::PlayerPickedUp)[0] == (0usize, Bound::Int));
    assert(int_fields(LineKind::PlayerPickedUp)[1] == (1usize, Bound::Int));
    assert(int_fields(LineKind::PlayerPickedUp)[2] == (2usize, Bound::Int));
    assert(int_fields(LineKind::PlayerPickedUp)[3] == (3usize, Bound::Int));
    assert(int_fields(LineKind::PlayerPickedUp)[4] == (4usize, Bound::Int));
    assert(int_fields(LineKind::PlayerPickedUp)[5] == (5usize, Bound::Int));
    assert(int_fields(LineKind::PlayerPickedUp)[6] == (7usize, Bound::Int));
}

#[verifier::rlimit(50)]
proof fn lemma_converts_player_dropped(s: Seq<char>)
    requires
        s.len() <= usize::MAX,
        line_caps(pattern(LineKind::PlayerDropped), s) is Some,
        fields_fit(LineKind::PlayerDropped, s, line_caps(pattern(LineKind::PlayerDropped), s)->0),
    ensures
        convertible(LineKind::PlayerDropped, s, line_caps(pattern(LineKind::PlayerDropped), s)->0),
{
    lemma_run_shapes(pattern(LineKind::PlayerDropped), s, 0);
    lemma_group_shapes();
    assert(shapes(seq![Prim::Lit(" dropped \""), Prim::Field('"', Check::Any), Prim::Lit("\"")]) =~= seq![Shape::Text]) by {
        reveal_with_fuel(shapes, 4);
    }
    lemma_shapes_concat(prefix(), player());
    lemma_shapes_concat(prefix() + player(), seq![Prim::Lit(" dropped \""), Prim::Field('"', Check::Any), Prim::Lit("\"")]);
    let c = line_caps(pattern(LineKind::PlayerDropped), s)->0;
    assert(caps_shaped(s, c, shapes(pattern(LineKind::PlayerDropped))));
    assert(int_fields(LineKind::PlayerDropped)[0] == (0usize, Bound::Int));
    assert(int_fields(LineKind::PlayerDropped)[1] == (1usize, Bound::Int));
    assert(int_fields(LineKind::PlayerDropped)[2] == (2usize, Bound::Int));
    assert(int_fields(LineKind::PlayerDropped)[3] == (3usize, Bound::Int));
    assert(int_fields(LineKind::PlayerDropped)[4] == (4usize, Bound::Int));
    assert(int_fields(LineKind::PlayerDropped)[5] == (5usize, Bound::Int));
    assert(int_fields(LineKind::PlayerDropped)[6] == (7usize, Bound::Int));
}

#[verifier::rlimit(50)]
proof fn lemma_converts_team_playing(s: Seq<char>)
    requires
        s.len() <= usize::MAX,
        line_caps(pattern(LineKind::TeamPlaying), s) is Some,
        fields_fit(LineKind::TeamPlaying, s, line_caps(pattern(LineKind::TeamPlaying), s)->0),
    ensures
        convertible(LineKind::TeamPlaying, s, line_caps(pattern(LineKind::TeamPlaying), s)->0),
{
    lemma_run_shapes(pattern(LineKind::TeamPlaying), s, 0);
    lemma_group_shapes();
    assert(shapes(seq![Prim::Lit("Team playing \""), Prim::Field('"', Check::Word(Vocab::Side)), Prim::Lit("\": "), Prim::Readiness, Prim::Rest(false)]) =~= seq![Shape::Side, Shape::Opt, Shape::Text]) by {
        reveal_with_fuel(shapes, 6);
    }
    lemma_shapes_concat(prefix(), seq![Prim::Lit("Team playing \""), Prim::Field('"', Check::Word(Vocab::Side)), Prim::Lit("\": "), Prim::Readiness, Prim::Rest(false)]);
    let c = line_caps(pattern(LineKind::TeamPlaying), s)->0;
    assert(caps_shaped(s, c, shapes(pattern(LineKind::TeamPlaying))));
    assert(int_fields(LineKind::TeamPlaying)[0] == (0usize, Bound::Int));
    assert(int_fields(LineKind::TeamPlaying)[1] == (1usize, Bound::Int));
    assert(int_fields(LineKind::TeamPlaying)[2] == (2usize, Bound::Int));
    assert(int_fields(LineKind::TeamPlaying)[3] == (3usize, Bound::Int));
    assert(int_fields(LineKind::TeamPlaying)[4] == (4usize, Bound::Int));
    assert(int_fields(LineKind::TeamPlaying)[5] == (5usize, Bound::Int));
}

#[verifier::rlimit(50)]
proof fn lemma_converts_starting_freeze_period(s: Seq<char>)
    requires
        s.len() <= usize::MAX,
        line_caps(pattern(LineKind::StartingFreezePeriod), s) is Some,
        fields_fit(LineKind::StartingFreezePeriod, s, line_caps(pattern(LineKind::StartingFreezePeriod), s)->0),
    ensures
        convertible(LineKind::StartingFreezePeriod, s, line_caps(pattern(LineKind::StartingFreezePeriod), s)->0),
{
    lemma_run_shapes(pattern(LineKind::StartingFreezePeriod), s, 0);
    lemma_group_shapes();
    assert(shapes(seq![Prim::Lit("Starting Freeze period")]) =~= seq![]) by {
        reveal_with_fuel(shapes, 2);
    }
    lemma_shapes_concat(prefix(), seq![Prim::Lit("Starting Freeze period")]);
    let c = line_caps(pattern(LineKind::StartingFreezePeriod), s)->0;
    assert(caps_shaped(s, c, shapes(pattern(LineKind::StartingFreezePeriod))));
    assert(int_fields(LineKind::StartingFreezePeriod)[0] == (0usize, Bound::Int));
    assert(int_fields(LineKind::StartingFreezePeriod)[1] == (1usize, Bound::Int));
    assert(int_fields(LineKind::StartingFreezePeriod)[2] == (2usize, Bound::Int));
    assert(int_fields(LineKind::StartingFreezePeriod)[3] == (3usize, Bound::Int));
    assert(int_fields(LineKind::StartingFreezePeriod)[4] == (4usize, Bound::Int));
    assert(int_fields(LineKind::StartingFreezePeriod)[5] == (5usize, Bound::Int));
}

#[verifier::rlimit(50)]
proof fn lemma_converts_player_left_buyzone(s: Seq<char>)
    requires
        s.len() <= usize::MAX,
        line_caps(pattern(LineKind::PlayerLeftBuyzone), s) is Some,
        fields_fit(LineKind::PlayerLeftBuyzone, s, line_caps(pattern(LineKind::PlayerLeftBuyzone), s)->0),
    ensures
        convertible(LineKind::PlayerLeftBuyzone, s, line_caps(pattern(LineKind::PlayerLeftBuyzone), s)->0),
{
    lemma_run_shapes(pattern(LineKind::PlayerLeftBuyzone), s, 0);
    lemma_group_shapes();
    assert(shapes(seq![Prim::Lit(" left buyzone with [ "), Prim::Tail("]", Check::Items)]) =~= seq![Shape::Text]) by {
        reveal_with_fuel(shapes, 3);
    }
    lemma_shapes_concat(prefix(), player());
    lemma_shapes_concat(prefix() + player(), seq![Prim::Lit(" left buyzone with [ "), Prim::Tail("]", Check::Items)]);
    let c = line_caps(pattern(LineKind::PlayerLeftBuyzone), s)->0;
    assert(caps_shaped(s, c, shapes(pattern(LineKind::PlayerLeftBuyzone))));
    assert(int_fields(LineKind::PlayerLeftBuyzone)[0] == (0usize, Bound::Int));
    assert(int_fields(LineKind::PlayerLeftBuyzone)[1] == (1usize, Bound::Int));
    assert(int_fields(LineKind::PlayerLeftBuyzone)[2] == (2usize, Bound::Int));
    assert(int_fields(LineKind::PlayerLeftBuyzone)[3] == (3usize, Bound::Int));
    assert(int_fields(LineKind::PlayerLeftBuyzone)[4] == (4usize, Bound::Int));
    assert(int_fields(LineKind::PlayerLeftBuyzone)[5] == (5usize, Bound::Int));
    assert(int_fields(LineKind::PlayerLeftBuyzone)[6] == (7usize, Bound::Int));
}

#[verifier::rlimit(50)]
proof fn lemma_converts_team_chat(s: Seq<char>)
    requires
        s.len() <= usize::MAX,
        line_caps(pattern(LineKind::TeamChat), s) is Some,
        fields_fit(LineKind::TeamChat, s, line_caps(pattern(LineKind::TeamChat), s)->0),
    ensures
        convertible(LineKind::TeamChat, s, line_caps(pattern(LineKind::TeamChat), s)->0),
{
    lemma_run_shapes(pattern(LineKind::TeamChat), s, 0);
    lemma_group_shapes();
    assert(shapes(seq![Prim::Lit(" say_team \""), Prim::Tail("\"", Check::Line)]) =~= seq![Shape::Text]) by {
        reveal_with_fuel(shapes, 3);
    }
    lemma_shapes_concat(prefix(), player());
    lemma_shapes_concat(prefix() + player(), seq![Prim::Lit(" say_team \""), Prim::Tail("\"", Check::Line)]);
    let c = line_caps(pattern(LineKind::TeamChat), s)->0;
    assert(caps_shaped(s, c, shapes(pattern(LineKind::TeamChat))));
    assert(int_fields(LineKind::TeamChat)[0] == (0usize, Bound::Int));
    assert(int_fields(LineKind::TeamChat)[1] == (1usize, Bound::Int));
    assert(int_fields(LineKind::TeamChat)[2] == (2usize, Bound::Int));
    assert(int_fields(LineKind::TeamChat)[3] == (3usize, Bound::Int));
    assert(int_fields(LineKind::TeamChat)[4] == (4usize, Bound::Int));
    assert(int_fields(LineKind::TeamChat)[5] == (5usize, Bound::Int));
    assert(int_fields(LineKind::TeamChat)[6] == (7usize, Bound::Int));
}

#[verifier::rlimit(50)]
proof fn lemma_converts_money_changed(s: Seq<char>)
    requires
        s.len() <= usize::MAX,
        line_caps(pattern(LineKind::MoneyChanged), s) is Some,
        fields_fit(LineKind::MoneyChanged, s, line_caps(pattern(LineKind::MoneyChanged), s)->0),
    ensures
        convertible(LineKind::MoneyChanged, s, line_caps(pattern(LineKind::MoneyChanged), s)->0),
{
    lemma_run_shapes(pattern(LineKind::MoneyChanged), s, 0);
    lemma_group_shapes();
    assert(shapes(seq![Prim::Lit(" money change "), Prim::Int, Prim::Sign, Prim::Int, Prim::Lit(" = $"), Prim::Int, Prim::MoneyTail]) =~= seq![Shape::Digits, Shape::Text, Shape::Digits, Shape::Digits, Shape::Opt, Shape::Opt]) by {
        reveal_with_fuel(shapes, 8);
    }
    lemma_shapes_concat(prefix(), player());
    lemma_shapes_concat(prefix() + player(), seq![Prim::Lit(" money change "), Prim::Int, Prim::Sign, Prim::Int, Prim::Lit(" = $"), Prim::Int, Prim::MoneyTail]);
    let c = line_caps(pattern(LineKind::MoneyChanged), s)->0;
    assert(caps_shaped(s, c, shapes(pattern(LineKind::MoneyChanged))));
    assert(int_fields(LineKind::MoneyChanged)[0] == (0usize, Bound::Int));
    assert(int_fields(LineKind::MoneyChanged)[1] == (1usize, Bound::Int));
    assert(int_fields(LineKind::MoneyChanged)[2] == (2usize, Bound::Int));
    assert(int_fields(LineKind::MoneyChanged)[3] == (3usize, Bound::Int));
    assert(int_fields(LineKind::MoneyChanged)[4] == (4usize, Bound::Int));
    assert(int_fields(LineKind::MoneyChanged)[5] == (5usize, Bound::Int));
    assert(int_fields(LineKind::MoneyChanged)[6] == (7usize, Bound::Int));
    assert(int_fields(LineKind::MoneyChanged)[7] == (10usize, Bound::Int));
    assert(int_fields(LineKind::MoneyChanged)[8] == (12usize, Bound::Int));
    assert(int_fields(LineKind::MoneyChanged)[9] == (13usize, Bound::Int));
}

#[verifier::rlimit(50)]
proof fn lemma_converts_player_purchased(s: Seq<char>)
    requires
        s.len() <= usize::MAX,
        line_caps(pattern(LineKind::PlayerPurchased), s) is Some,
        fields_fit(LineKind::PlayerPurchased, s, line_caps(pattern(LineKind::PlayerPurchased), s)->0),
    ensures
        convertible(LineKind::PlayerPurchased, s, line_caps(pattern(LineKind::PlayerPurchased), s)->0),
{
    lemma_run_shapes(pattern(LineKind::PlayerPurchased), s, 0);
    lemma_group_shapes();
    assert(shapes(seq![Prim::Lit(" purchased \""), Prim::Field('"', Check::Token), Prim::Lit("\"")]) =~= seq![Shape::Text]) by {
        reveal_with_fuel(shapes, 4);
    }
    lemma_shapes_concat(prefix(), player());
    lemma_shapes_concat(prefix() + player(), seq![Prim::Lit(" purchased \""), Prim::Field('"', Check::Token), Prim::Lit("\"")]);
    let c = line_caps(pattern(LineKind::PlayerPurchased), s)->0;
    assert(caps_shaped(s, c, shapes(pattern(LineKind::PlayerPurchased))));
    assert(int_fields(LineKind::PlayerPurchased)[0] == (0usize, Bound::Int));
    assert(int_fields(LineKind::PlayerPurchased)[1] == (1usize, Bound::Int));
    assert(int_fields(LineKind::PlayerPurchased)[2] == (2usize, Bound::Int));
    assert(int_fields(LineKind::PlayerPurchased)[3] == (3usize, Bound::Int));
    assert(int_fields(LineKind::PlayerPurchased)[4] == (4usize, Bound::Int));
    assert(int_fields(LineKind::PlayerPurchased)[5] == (5usize, Bound::Int));
    assert(int_fields(LineKind::PlayerPurchased)[6] == (7usize, Bound::Int));
}

#[verifier::rlimit(50)]
proof fn lemma_converts_threw_flashbang(s: Seq<char>)
    requires
        s.len() <= usize::MAX,
        line_caps(pattern(LineKind::ThrewFlashbang), s) is Some,
        fields_fit(LineKind::ThrewFlashbang, s, line_caps(pattern(LineKind::ThrewFlashbang), s)->0),
    ensures
        convertible(LineKind::ThrewFlashbang, s, line_caps(pattern(LineKind::ThrewFlashbang), s)->0),
{
    lemma_run_shapes(pattern(LineKind::ThrewFlashbang), s, 0);
    lemma_group_shapes();
    assert(shapes(seq![Prim::Lit(" threw flashbang ")]) =~= seq![]) by {
        reveal_with_fuel(shapes, 2);
    }
    assert(shapes(seq![Prim::Lit(" flashbang entindex "), Prim::Int, Prim::Lit(")")]) =~= seq![Shape::Digits]) by {
        reveal_with_fuel(shapes, 4);
    }
    lemma_shapes_concat(prefix(), player());
    lemma_shapes_concat(prefix() + player(), seq![Prim::Lit(" threw flashbang ")]);
    lemma_shapes_concat(prefix() + player() + seq![Prim::Lit(" threw flashbang ")], vector());
    lemma_shapes_concat(prefix() + player() + seq![Prim::Lit(" threw flashbang ")] + vector(), seq![Prim::Lit(" flashbang entindex "), Prim::Int, Prim::Lit(")")]);
    let c = line_caps(pattern(LineKind::ThrewFlashbang), s)->0;
    assert(caps_shaped(s, c, shapes(pattern(LineKind::ThrewFlashbang))));
    assert(int_fields(LineKind::ThrewFlashbang)[0] == (0usize, Bound::Int));
    assert(int_fields(LineKind::ThrewFlashbang)[1] == (1usize, Bound::Int));
    assert(int_fields(LineKind::ThrewFlashbang)[2] == (2usize, Bound::Int));
    assert(int_fields(LineKind::ThrewFlashbang)[3] == (3usize, Bound::Int));
    assert(int_fields(LineKind::ThrewFlashbang)[4] == (4usize, Bound::Int));
    assert(int_fields(LineKind::ThrewFlashbang)[5] == (5usize, Bound::Int));
    assert(int_fields(LineKind::ThrewFlashbang)[6] == (7usize, Bound::Int));
    assert(int_fields(LineKind::ThrewFlashbang)[7] == (10usize, Bound::Signed));
    assert(int_fields(LineKind::ThrewFlashbang)[8] == (11usize, Bound::Signed));
    assert(int_fields(LineKind::ThrewFlashbang)[9] == (12usize, Bound::Signed));
    assert(int_fields(LineKind::ThrewFlashbang)[10] == (13usize, Bound::Int));
}

#[verifier::rlimit(50)]
proof fn lemma_converts_blinded_player(s: Seq<char>)
    requires
        s.len() <= usize::MAX,
        line_caps(pattern(LineKind::BlindedPlayer), s) is Some,
        fields_fit(LineKind::BlindedPlayer, s, line_caps(pattern(LineKind::BlindedPlayer), s)->0),
    ensures
        convertible(LineKind::BlindedPlayer, s, line_caps(pattern(LineKind::BlindedPlayer), s)->0),
{
    lemma_run_shapes(pattern(LineKind::BlindedPlayer), s, 0);
    lemma_group_shapes();
    assert(shapes(seq![Prim::Lit(" blinded for "), Prim::Int, Prim::Lit("."), Prim::Fixed(2), Prim::Lit(" by ")]) =~= seq![Shape::Digits, Shape::Digits]) by {
        reveal_with_fuel(shapes, 6);
    }
    assert(shapes(seq![Prim::Lit(" from flashbang entindex "), Prim::Int, Prim::Lit(" ")]) =~= seq![Shape::Digits]) by {
        reveal_with_fuel(shapes, 4);
    }
    lemma_shapes_concat(prefix(), player());
    lemma_shapes_concat(prefix() + player(), seq![Prim::Lit(" blinded for "), Prim::Int, Prim::Lit("."), Prim::Fixed(2), Prim::Lit(" by ")]);
    lemma_shapes_concat(prefix() + player() + seq![Prim::Lit(" blinded for "), Prim::Int, Prim::Lit("."), Prim::Fixed(2), Prim::Lit(" by ")], player());
    lemma_shapes_concat(prefix() + player() + seq![Prim::Lit(" blinded for "), Prim::Int, Prim::Lit("."), Prim::Fixed(2), Prim::Lit(" by ")] + player(), seq![Prim::Lit(" from flashbang entindex "), Prim::Int, Prim::Lit(" ")]);
    let c = line_caps(pattern(LineKind::BlindedPlayer), s)->0;
    assert(caps_shaped(s, c, shapes(pattern(LineKind::BlindedPlayer))));
    assert(int_fields(LineKind::BlindedPlayer)[0] == (0usize, Bound::Int));
    assert(int_fields(LineKind::BlindedPlayer)[1] == (1usize, Bound::Int));
    assert(int_fields(LineKind::BlindedPlayer)[2] == (2usize, Bound::Int));
    assert(int_fields(LineKind::BlindedPlayer)[3] == (3usize, Bound::Int));
    assert(int_fields(LineKind::BlindedPlayer)[4] == (4usize, Bound::Int));
    assert(int_fields(LineKind::BlindedPlayer)[5] == (5usize, Bound::Int));
    assert(int_fields(LineKind::BlindedPlayer)[6] == (7usize, Bound::Int));
    assert(int_fields(LineKind::BlindedPlayer)[7] == (10usize, Bound::Blind));
    assert(int_fields(LineKind::BlindedPlayer)[8] == (13usize, Bound::Int));
    assert(int_fields(LineKind::BlindedPlayer)[9] == (16usize, Bound::Int));
}

#[verifier::rlimit(50)]
proof fn lemma_converts_global_chat(s: Seq<char>)
    requires
        s.len() <= usize::MAX,
        line_caps(pattern(LineKind::GlobalChat), s) is Some,
        fields_fit(LineKind::GlobalChat, s, line_caps(pattern(LineKind::GlobalChat), s)->0),
    ensures
        convertible(LineKind::GlobalChat, s, line_caps(pattern(LineKind::GlobalChat), s)->0),
{
    lemma_run_shapes(pattern(LineKind::GlobalChat), s, 0);
    lemma_group_shapes();
    assert(shapes(seq![Prim::Lit(" say \""), Prim::Tail("\"", Check::Line)]) =~= seq![Shape::Text]) by {
        reveal_with_fuel(shapes, 3);
    }
    lemma_shapes_concat(prefix(), player());
    lemma_shapes_concat(prefix() + player(), seq![Prim::Lit(" say \""), Prim::Tail("\"", Check::Line)]);
    let c = line_caps(pattern(LineKind::GlobalChat), s)->0;
    assert(caps_shaped(s, c, shapes(pattern(LineKind::GlobalChat))));
    assert(int_fields(LineKind::GlobalChat)[0] == (0usize, Bound::Int));
    assert(int_fields(LineKind::GlobalChat)[1] == (1usize, Bound::Int));
    assert(int_fields(LineKind::GlobalChat)[2] == (2usize, Bound::Int));
    assert(int_fields(LineKind::GlobalChat)[3] == (3usize, Bound::Int));
    assert(int_fields(LineKind::GlobalChat)[4] == (4usize, Bound::Int));
    assert(int_fields(LineKind::GlobalChat)[5] == (5usize, Bound::Int));
    assert(int_fields(LineKind::GlobalChat)[6] == (7usize, Bound::Int));
}

#[verifier::rlimit(50)]
proof fn lemma_converts_player_killed_entity(s: Seq<char>)
    requires
        s.len() <= usize::MAX,
        line_caps(pattern(LineKind::PlayerKilledEntity), s) is Some,
        fields_fit(LineKind::PlayerKilledEntity, s, line_caps(pattern(LineKind::PlayerKilledEntity), s)->0),
    ensures
        convertible(LineKind::PlayerKilledEntity, s, line_caps(pattern(LineKind::PlayerKilledEntity), s)->0),
{
    lemma_run_shapes(pattern(LineKind::PlayerKilledEntity), s, 0);
    lemma_group_shapes();
    assert(shapes(seq![Prim::Lit(" ")]) =~= seq![]) by {
        reveal_with_fuel(shapes, 2);
    }
    assert(shapes(seq![Prim::Lit(" killed other \""), Prim::Field('<', Check::Any), Prim::Lit("<"), Prim::Int, Prim::Lit(">\" ")]) =~= seq![Shape::Text, Shape::Digits]) by {
        reveal_with_fuel(shapes, 6);
    }
    assert(shapes(seq![Prim::Lit(" with \""), Prim::Field('"', Check::Token), Prim::Lit("\""), Prim::KillTail]) =~= seq![Shape::Text, Shape::Kill]) by {
        reveal_with_fuel(shapes, 5);
    }
    lemma_shapes_concat(prefix(), player());
    lemma_shapes_concat(prefix() + player(), seq![Prim::Lit(" ")]);
    lemma_shapes_concat(prefix() + player() + seq![Prim::Lit(" ")], vector());
    lemma_shapes_concat(prefix() + player() + seq![Prim::Lit(" ")] + vector(), seq![Prim::Lit(" killed other \""), Prim::Field('<', Check::Any), Prim::Lit("<"), Prim::Int, Prim::Lit(">\" ")]);
    lemma_shapes_concat(prefix() + player() + seq![Prim::Lit(" ")] + vector() + seq![Prim::Lit(" killed other \""), Prim::Field('<', Check::Any), Prim::Lit("<"), Prim::Int, Prim::Lit(">\" ")], vector());
    lemma_shapes_concat(prefix() + player() + seq![Prim::Lit(" ")] + vector() + seq![Prim::Lit(" killed other \""), Prim::Field('<', Check::Any), Prim::Lit("<"), Prim::Int, Prim::Lit(">\" ")] + vector(), seq![Prim::Lit(" with \""), Prim::Field('"', Check::Token), Prim::Lit("\""), Prim::KillTail]);
    let c = line_caps(pattern(LineKind::PlayerKilledEntity), s)->0;
    assert(caps_shaped(s, c, shapes(pattern(LineKind::PlayerKilledEntity))));
    assert(int_fields(LineKind::PlayerKilledEntity)[0] == (0usize, Bound::Int));
    assert(int_fields(LineKind::PlayerKilledEntity)[1] == (1usize, Bound::Int));
    assert(int_fields(LineKind::PlayerKilledEntity)[2] == (2usize, Bound::Int));
    assert(int_fields(LineKind::PlayerKilledEntity)[3] == (3usize, Bound::Int));
    assert(int_fields(LineKind::PlayerKilledEntity)[4] == (4usize, Bound::Int));
    assert(int_fields(LineKind::PlayerKilledEntity)[5] == (5usize, Bound::Int));
    assert(int_fields(LineKind::PlayerKilledEntity)[6] == (7usize, Bound::Int));
    assert(int_fields(LineKind::PlayerKilledEntity)[7] == (10usize, Bound::Signed));
    assert(int_fields(LineKind::PlayerKilledEntity)[8] == (11usize, Bound::Signed));
    assert(int_fields(LineKind::PlayerKilledEntity)[9] == (12usize, Bound::Signed));
    assert(int_fields(LineKind::PlayerKilledEntity)[10] == (14usize, Bound::Int));
    assert(int_fields(LineKind::PlayerKilledEntity)[11] == (15usize, Bound::Signed));
    assert(int_fields(LineKind::PlayerKilledEntity)[12] == (16usize, Bound::Signed));
    assert(int_fields(LineKind::PlayerKilledEntity)[13] == (17usize, Bound::Signed));
}

#[verifier::rlimit(50)]
proof fn lemma_converts_player_killed_player(s: Seq<char>)
    requires
        s.len() <= usize::MAX,
        line_caps(pattern(LineKind::PlayerKilledPlayer), s) is Some,
        fields_fit(LineKind::PlayerKilledPlayer, s, line_caps(pattern(LineKind::PlayerKilledPlayer), s)->0),
    ensures
        convertible(LineKind::PlayerKilledPlayer, s, line_caps(pattern(LineKind::PlayerKilledPlayer), s)->0),
{
    lemma_run_shapes(pattern(LineKind::PlayerKilledPlayer), s, 0);
    lemma_group_shapes();
    assert(shapes(seq![Prim::Lit(" ")]) =~= seq![]) by {
        reveal_with_fuel(shapes, 2);
    }
    assert(shapes(seq![Prim::Lit(" killed ")]) =~= seq![]) by {
        reveal_with_fuel(shapes, 2);
    }
    assert(shapes(seq![Prim::Lit(" ")]) =~= seq![]) by {
        reveal_with_fuel(shapes, 2);
    }
    assert(shapes(seq![Prim::Lit(" with \""), Prim::Field('"', Check::Token), Prim::Lit("\""), Prim::KillTail]) =~= seq![Shape::Text, Shape::Kill]) by {
        reveal_with_fuel(shapes, 5);
    }
    lemma_shapes_concat(prefix(), player());
    lemma_shapes_concat(prefix() + player(), seq![Prim::Lit(" ")]);
    lemma_shapes_concat(prefix() + player() + seq![Prim::Lit(" ")], vector());
    lemma_shapes_concat(prefix() + player() + seq![Prim::Lit(" ")] + vector(), seq![Prim::Lit(" killed ")]);
    lemma_shapes_concat(prefix() + player() + seq![Prim::Lit(" ")] + vector() + seq![Prim::Lit(" killed ")], player());
    lemma_shapes_concat(prefix() + player() + seq![Prim::Lit(" ")] + vector() + seq![Prim::Lit(" killed ")] + player(), seq![Prim::Lit(" ")]);
    lemma_shapes_concat(prefix() + player() + seq![Prim::Lit(" ")] + vector() + seq![Prim::Lit(" killed ")] + player() + seq![Prim::Lit(" ")], vector());
    lemma_shapes_concat(prefix() + player() + seq![Prim::Lit(" ")] + vector() + seq![Prim::Lit(" killed ")] + player() + seq![Prim::Lit(" ")] + vector(), seq![Prim::Lit(" with \""), Prim::Field('"', Check::Token), Prim::Lit("\""), Prim::KillTail]);
    let c = line_caps(pattern(LineKind::PlayerKilledPlayer), s)->0;
    assert(caps_shaped(s, c, shapes(pattern(LineKind::PlayerKilledPlayer))));
    assert(int_fields(LineKind::PlayerKilledPlayer)[0] == (0usize, Bound::Int));
    assert(int_fields(LineKind::PlayerKilledPlayer)[1] == (1usize, Bound::Int));
    assert(int_fields(LineKind::PlayerKilledPlayer)[2] == (2usize, Bound::Int));
    assert(int_fields(LineKind::PlayerKilledPlayer)[3] == (3usize, Bound::Int));
    assert(int_fields(LineKind::PlayerKilledPlayer)[4] == (4usize, Bound::Int));
    assert(int_fields(LineKind::PlayerKilledPlayer)[5] == (5usize, Bound::Int));
    assert(int_fields(LineKind::PlayerKilledPlayer)[6] == (7usize, Bound::Int));
    assert(int_fields(LineKind::PlayerKilledPlayer)[7] == (10usize, Bound::Signed));
    assert(int_fields(LineKind::PlayerKilledPlayer)[8] == (11usize, Bound::Signed));
    assert(int_fields(LineKind::PlayerKilledPlayer)[9] == (12usize, Bound::Signed));
    assert(int_fields(LineKind::PlayerKilledPlayer)[10] == (14usize, Bound::Int));
    assert(int_fields(LineKind::PlayerKilledPlayer)[11] == (17usize, Bound::Signed));
    assert(int_fields(LineKind::PlayerKilledPlayer)[12] == (18usize, Bound::Signed));
    assert(int_fields(LineKind::PlayerKilledPlayer)[13] == (19usize, Bound::Signed));
}

#[verifier::rlimit(50)]
proof fn lemma_converts_player_threw_smokegrenade(s: Seq<char>)
    requires
        s.len() <= usize::MAX,
        line_caps(pattern(LineKind::PlayerThrewSmokegrenade), s) is Some,
        fields_fit(LineKind::PlayerThrewSmokegrenade, s, line_caps(pattern(LineKind::PlayerThrewSmokegrenade), s)->0),
    ensures
        convertible(LineKind::PlayerThrewSmokegrenade, s, line_caps(pattern(LineKind::PlayerThrewSmokegrenade), s)->0),
{
    lemma_run_shapes(pattern(LineKind::PlayerThrewSmokegrenade), s, 0);
    lemma_group_shapes();
    assert(shapes(seq![Prim::Lit(" threw smokegrenade ")]) =~= seq![]) by {
        reveal_with_fuel(shapes, 2);
    }
    lemma_shapes_concat(prefix(), player());
    lemma_shapes_concat(prefix() + player(), seq![Prim::Lit(" threw smokegrenade ")]);
    lemma_shapes_concat(prefix() + player() + seq![Prim::Lit(" threw smokegrenade ")], vector());
    let c = line_caps(pattern(LineKind::PlayerThrewSmokegrenade), s)->0;
    assert(caps_shaped(s, c, shapes(pattern(LineKind::PlayerThrewSmokegrenade))));
    assert(int_fields(LineKind::PlayerThrewSmokegrenade)[0] == (0usize, Bound::Int));
    assert(int_fields(LineKind::PlayerThrewSmokegrenade)[1] == (1usize, Bound::Int));
    assert(int_fields(LineKind::PlayerThrewSmokegrenade)[2] == (2usize, Bound::Int));
    assert(int_fields(LineKind::PlayerThrewSmokegrenade)[3] == (3usize, Bound::Int));
    assert(int_fields(LineKind::PlayerThrewSmokegrenade)[4] == (4usize, Bound::Int));
    assert(int_fields(LineKind::PlayerThrewSmokegrenade)[5] == (5usize, Bound::Int));
    assert(int_fields(LineKind::PlayerThrewSmokegrenade)[6] == (7usize, Bound::Int));
    assert(int_fields(LineKind::PlayerThrewSmokegrenade)[7] == (10usize, Bound::Signed));
    assert(int_fields(LineKind::PlayerThrewSmokegrenade)[8] == (11usize, Bound::Signed));
    assert(int_fields(LineKind::PlayerThrewSmokegrenade)[9] == (12usize, Bound::Signed));
}

#[verifier::rlimit(50)]
proof fn lemma_converts_player_threw_he_grenade(s: Seq<char>)
    requires
        s.len() <= usize::MAX,
        line_caps(pattern(LineKind::PlayerThrewHEGrenade), s) is Some,
        fields_fit(LineKind::PlayerThrewHEGrenade, s, line_caps(pattern(LineKind::PlayerThrewHEGrenade), s)->0),
    ensures
        convertible(LineKind::PlayerThrewHEGrenade, s, line_caps(pattern(LineKind::PlayerThrewHEGrenade), s)->0),
{
    lemma_run_shapes(pattern(LineKind::PlayerThrewHEGrenade), s, 0);
    lemma_group_shapes();
    assert(shapes(seq![Prim::Lit(" threw hegrenade ")]) =~= seq![]) by {
        reveal_with_fuel(shapes, 2);
    }
    lemma_shapes_concat(prefix(), player());
    lemma_shapes_concat(prefix() + player(), seq![Prim::Lit(" threw hegrenade ")]);
    lemma_shapes_concat(prefix() + player() + seq![Prim::Lit(" threw hegrenade ")], vector());
    let c = line_caps(pattern(LineKind::PlayerThrewHEGrenade), s)->0;
    assert(caps_shaped(s, c, shapes(pattern(LineKind::PlayerThrewHEGrenade))));
    assert(int_fields(LineKind::PlayerThrewHEGrenade)[0] == (0usize, Bound::Int));
    assert(int_fields(LineKind::PlayerThrewHEGrenade)[1] == (1usize, Bound::Int));
    assert(int_fields(LineKind::PlayerThrewHEGrenade)[2] == (2usize, Bound::Int));
    assert(int_fields(LineKind::PlayerThrewHEGrenade)[3] == (3usize, Bound::Int));
    assert(int_fields(LineKind::PlayerThrewHEGrenade)[4] == (4usize, Bound::Int));
    assert(int_fields(LineKind::PlayerThrewHEGrenade)[5] == (5usize, Bound::Int));
    assert(int_fields(LineKind::PlayerThrewHEGrenade)[6] == (7usize, Bound::Int));
    assert(int_fields(LineKind::PlayerThrewHEGrenade)[7] == (10usize, Bound::Signed));
    assert(int_fields(LineKind::PlayerThrewHEGrenade)[8] == (11usize, Bound::Signed));
    assert(int_fields(LineKind::PlayerThrewHEGrenade)[9] == (12usize, Bound::Signed));
}

#[verifier::rlimit(50)]
proof fn lemma_converts_player_attacked_player(s: Seq<char>)
    requires
        s.len() <= usize::MAX,
        line_caps(pattern(LineKind::PlayerAttackedPlayer), s) is Some,
        fields_fit(LineKind::PlayerAttackedPlayer, s, line_caps(pattern(LineKind::PlayerAttackedPlayer), s)->0),
    ensures
        convertible(LineKind::PlayerAttackedPlayer, s, line_caps(pattern(LineKind::PlayerAttackedPlayer), s)->0),
{
    lemma_run_shapes(pattern(LineKind::PlayerAttackedPlayer), s, 0);
    lemma_group_shapes();
    assert(shapes(seq![Prim::Lit(" ")]) =~= seq![]) by {
        reveal_with_fuel(shapes, 2);
    }
    assert(shapes(seq![Prim::Lit(" attacked ")]) =~= seq![]) by {
        reveal_with_fuel(shapes, 2);
    }
    assert(shapes(seq![Prim::Lit(" ")]) =~= seq![]) by {
        reveal_with_fuel(shapes, 2);
    }
    assert(shapes(seq![Prim::Lit(" with \""), Prim::Field('"', Check::Token), Prim::Lit("\" (damage \""), Prim::Int, Prim::Lit("\") (damage_armor \""), Prim::Int, Prim::Lit("\") (health \""), Prim::Int, Prim::Lit("\") (armor \""), Prim::Int, Prim::Lit("\") (hitgroup \""), Prim::Field('"', Check::Word(Vocab::HitGroup)), Prim::Lit("\")")]) =~= seq![Shape::Text, Shape::Digits, Shape::Digits, Shape::Digits, Shape::Digits, Shape::Hit]) by {
        reveal_with_fuel(shapes, 14);
    }
    lemma_shapes_concat(prefix(), player());
    lemma_shapes_concat(prefix() + player(), seq![Prim::Lit(" ")]);
    lemma_shapes_concat(prefix() + player() + seq![Prim::Lit(" ")], vector());
    lemma_shapes_concat(prefix() + player() + seq![Prim::Lit(" ")] + vector(), seq![Prim::Lit(" attacked ")]);
    lemma_shapes_concat(prefix() + player() + seq![Prim::Lit(" ")] + vector() + seq![Prim::Lit(" attacked ")], player());
    lemma_shapes_concat(prefix() + player() + seq![Prim::Lit(" ")] + vector() + seq![Prim::Lit(" attacked ")] + player(), seq![Prim::Lit(" ")]);
    lemma_shapes_concat(prefix() + player() + seq![Prim::Lit(" ")] + vector() + seq![Prim::Lit(" attacked ")] + player() + seq![Prim::Lit(" ")], vector());
    lemma_shapes_concat(prefix() + player() + seq![Prim::Lit(" ")] + vector() + seq![Prim::Lit(" attacked ")] + player() + seq![Prim::Lit(" ")] + vector(), seq![Prim::Lit(" with \""), Prim::Field('"', Check::Token), Prim::Lit("\" (damage \""), Prim::Int, Prim::Lit("\") (damage_armor \""), Prim::Int, Prim::Lit("\") (health \""), Prim::Int, Prim::Lit("\") (armor \""), Prim::Int, Prim::Lit("\") (hitgroup \""), Prim::Field('"', Check::Word(Vocab::HitGroup)), Prim::Lit("\")")]);
    let c = line_caps(pattern(LineKind::PlayerAttackedPlayer), s)->0;
    assert(caps_shaped(s, c, shapes(pattern(LineKind::PlayerAttackedPlayer))));
    assert(int_fields(LineKind::PlayerAttackedPlayer)[0] == (0usize, Bound::Int));
    assert(int_fields(LineKind::PlayerAttackedPlayer)[1] == (1usize, Bound::Int));
    assert(int_fields(LineKind::PlayerAttackedPlayer)[2] == (2usize, Bound::Int));
    assert(int_fields(LineKind::PlayerAttackedPlayer)[3] == (3usize, Bound::Int));
    assert(int_fields(LineKind::PlayerAttackedPlayer)[4] == (4usize, Bound::Int));
    assert(int_fields(LineKind::PlayerAttackedPlayer)[5] == (5usize, Bound::Int));
    assert(int_fields(LineKind::PlayerAttackedPlayer)[6] == (7usize, Bound::Int));
    assert(int_fields(LineKind::PlayerAttackedPlayer)[7] == (10usize, Bound::Signed));
    assert(int_fields(LineKind::PlayerAttackedPlayer)[8] == (11usize, Bound::Signed));
    assert(int_fields(LineKind::PlayerAttackedPlayer)[9] == (12usize, Bound::Signed));
    assert(int_fields(LineKind::PlayerAttackedPlayer)[10] == (14usize, Bound::Int));
    assert(int_fields(LineKind::PlayerAttackedPlayer)[11] == (17usize, Bound::Signed));
    assert(int_fields(LineKind::PlayerAttackedPlayer)[12] == (18usize, Bound::Signed));
    assert(int_fields(LineKind::PlayerAttackedPlayer)[13] == (19usize, Bound::Signed));
    assert(int_fields(LineKind::PlayerAttackedPlayer)[14] == (21usize, Bound::Int));
    assert(int_fields(LineKind::PlayerAttackedPlayer)[15] == (22usize, Bound::Int));
    assert(int_fields(LineKind::PlayerAttackedPlayer)[16] == (23usize, Bound::Int));
    assert(int_fields(LineKind::PlayerAttackedPlayer)[17] == (24usize, Bound::Int));
}

#[verifier::rlimit(50)]
proof fn lemma_converts_player_disconnected(s: Seq<char>)
    requires
        s.len() <= usize::MAX,
        line_caps(pattern(LineKind::PlayerDisconnected), s) is Some,
        fields_fit(LineKind::PlayerDisconnected, s, line_caps(pattern(LineKind::PlayerDisconnected), s)->0),
    ensures
        convertible(LineKind::PlayerDisconnected, s, line_caps(pattern(LineKind::PlayerDisconnected), s)->0),
{
    lemma_run_shapes(pattern(LineKind::PlayerDisconnected), s, 0);
    lemma_group_shapes();
    assert(shapes(seq![Prim::Lit(" disconnected (reason \""), Prim::Field('"', Check::Any), Prim::Lit("\")")]) =~= seq![Shape::Text]) by {
        reveal_with_fuel(shapes, 4);
    }
    lemma_shapes_concat(prefix(), player());
    lemma_shapes_concat(prefix() + player(), seq![Prim::Lit(" disconnected (reason \""), Prim::Field('"', Check::Any), Prim::Lit("\")")]);
    let c = line_caps(pattern(LineKind::PlayerDisconnected), s)->0;
    assert(caps_shaped(s, c, shapes(pattern(LineKind::PlayerDisconnected))));
    assert(int_fields(LineKind::PlayerDisconnected)[0] == (0usize, Bound::Int));
    assert(int_fields(LineKind::PlayerDisconnected)[1] == (1usize, Bound::Int));
    assert(int_fields(LineKind::PlayerDisconnected)[2] == (2usize, Bound::Int));
    assert(int_fields(LineKind::PlayerDisconnected)[3] == (3usize, Bound::Int));
    assert(int_fields(LineKind::PlayerDisconnected)[4] == (4usize, Bound::Int));
    assert(int_fields(LineKind::PlayerDisconnected)[5] == (5usize, Bound::Int));
    assert(int_fields(LineKind::PlayerDisconnected)[6] == (7usize, Bound::Int));
}

#[verifier::rlimit(50)]
proof fn lemma_converts_player_assisted_killing_player(s: Seq<char>)
    requires
        s.len() <= usize::MAX,
        line_caps(pattern(LineKind::PlayerAssistedKillingPlayer), s) is Some,
        fields_fit(LineKind::PlayerAssistedKillingPlayer, s, line_caps(pattern(LineKind::PlayerAssistedKillingPlayer), s)->0),
    ensures
        convertible(LineKind::PlayerAssistedKillingPlayer, s, line_caps(pattern(LineKind::PlayerAssistedKillingPlayer), s)->0),
{
    lemma_run_shapes(pattern(LineKind::PlayerAssistedKillingPlayer), s, 0);
    lemma_group_shapes();
    assert(shapes(seq![Prim::Lit(" assisted killing ")]) =~= seq![]) by {
        reveal_with_fuel(shapes, 2);
    }
    lemma_shapes_concat(prefix(), player());
    lemma_shapes_concat(prefix() + player(), seq![Prim::Lit(" assisted killing ")]);
    lemma_shapes_concat(prefix() + player() + seq![Prim::Lit(" assisted killing ")], player());
    let c = line_caps(pattern(LineKind::PlayerAssistedKillingPlayer), s)->0;
    assert(caps_shaped(s, c, shapes(pattern(LineKind::PlayerAssistedKillingPlayer))));
    assert(int_fields(LineKind::PlayerAssistedKillingPlayer)[0] == (0usize, Bound::Int));
    assert(int_fields(LineKind::PlayerAssistedKillingPlayer)[1] == (1usize, Bound::Int));
    assert(int_fields(LineKind::PlayerAssistedKillingPlayer)[2] == (2usize, Bound::Int));
    assert(int_fields(LineKind::PlayerAssistedKillingPlayer)[3] == (3usize, Bound::Int));
    assert(int_fields(LineKind::PlayerAssistedKillingPlayer)[4] == (4usize, Bound::Int));
    assert(int_fields(LineKind::PlayerAssistedKillingPlayer)[5] == (5usize, Bound::Int));
    assert(int_fields(LineKind::PlayerAssistedKillingPlayer)[6] == (7usize, Bound::Int));
    assert(int_fields(LineKind::PlayerAssistedKillingPlayer)[7] == (11usize, Bound::Int));
}

#[verifier::rlimit(50)]
proof fn lemma_converts_player_assisted_blinding_player(s: Seq<char>)
    requires
        s.len() <= usize::MAX,
        line_caps(pattern(LineKind::PlayerAssistedBlindingPlayer), s) is Some,
        fields_fit(LineKind::PlayerAssistedBlindingPlayer, s, line_caps(pattern(LineKind::PlayerAssistedBlindingPlayer), s)->0),
    ensures
        convertible(LineKind::PlayerAssistedBlindingPlayer, s, line_caps(pattern(LineKind::PlayerAssistedBlindingPlayer), s)->0),
{
    lemma_run_shapes(pattern(LineKind::PlayerAssistedBlindingPlayer), s, 0);
    lemma_group_shapes();
    assert(shapes(seq![Prim::Lit(" flash-assisted killing ")]) =~= seq![]) by {
        reveal_with_fuel(shapes, 2);
    }
    lemma_shapes_concat(prefix(), player());
    lemma_shapes_concat(prefix() + player(), seq![Prim::Lit(" flash-assisted killing ")]);
    lemma_shapes_concat(prefix() + player() + seq![Prim::Lit(" flash-assisted killing ")], player());
    let c = line_caps(pattern(LineKind::PlayerAssistedBlindingPlayer), s)->0;
    assert(caps_shaped(s, c, shapes(pattern(LineKind::PlayerAssistedBlindingPlayer))));
    assert(int_fields(LineKind::PlayerAssistedBlindingPlayer)[0] == (0usize, Bound::Int));
    assert(int_fields(LineKind::PlayerAssistedBlindingPlayer)[1] == (1usize, Bound::Int));
    assert(int_fields(LineKind::PlayerAssistedBlindingPlayer)[2] == (2usize, Bound::Int));
    assert(int_fields(LineKind::PlayerAssistedBlindingPlayer)[3] == (3usize, Bound::Int));
    assert(int_fields(LineKind::PlayerAssistedBlindingPlayer)[4] == (4usize, Bound::Int));
    assert(int_fields(LineKind::PlayerAssistedBlindingPlayer)[5] == (5usize, Bound::Int));
    assert(int_fields(LineKind::PlayerAssistedBlindingPlayer)[6] == (7usize, Bound::Int));
    assert(int_fields(LineKind::PlayerAssistedBlindingPlayer)[7] == (11usize, Bound::Int));
}

#[verifier::rlimit(50)]
proof fn lemma_converts_spawned_molotov(s: Seq<char>)
    requires
        s.len() <= usize::MAX,
        line_caps(pattern(LineKind::SpawnedMolotov), s) is Some,
        fields_fit(LineKind::SpawnedMolotov, s, line_caps(pattern(LineKind::SpawnedMolotov), s)->0),
    ensures
        convertible(LineKind::SpawnedMolotov, s, line_caps(pattern(LineKind::SpawnedMolotov), s)->0),
{
    lemma_run_shapes(pattern(LineKind::SpawnedMolotov), s, 0);
    lemma_group_shapes();
    assert(shapes(seq![Prim::Lit("Molotov projectile spawned at "), Prim::Decimal(true), Prim::Lit(" "), Prim::Decimal(true), Prim::Lit(" "), Prim::Decimal(true), Prim::Lit(", velocity "), Prim::Decimal(true), Prim::Lit(" "), Prim::Decimal(true), Prim::Lit(" "), Prim::Decimal(true)]) =~= seq![Shape::Text, Shape::Text, Shape::Text, Shape::Text, Shape::Text, Shape::Text]) by {
        reveal_with_fuel(shapes, 13);
    }
    lemma_shapes_concat(prefix(), seq![Prim::Lit("Molotov projectile spawned at "), Prim::Decimal(true), Prim::Lit(" "), Prim::Decimal(true), Prim::Lit(" "), Prim::Decimal(true), Prim::Lit(", velocity "), Prim::Decimal(true), Prim::Lit(" "), Prim::Decimal(true), Prim::Lit(" "), Prim::Decimal(true)]);
    let c = line_caps(pattern(LineKind::SpawnedMolotov), s)->0;
    assert(caps_shaped(s, c, shapes(pattern(LineKind::SpawnedMolotov))));
    assert(int_fields(LineKind::SpawnedMolotov)[0] == (0usize, Bound::Int));
    assert(int_fields(LineKind::SpawnedMolotov)[1] == (1usize, Bound::Int));
    assert(int_fields(LineKind::SpawnedMolotov)[2] == (2usize, Bound::Int));
    assert(int_fields(LineKind::SpawnedMolotov)[3] == (3usize, Bound::Int));
    assert(int_fields(LineKind::SpawnedMolotov)[4] == (4usize, Bound::Int));
    assert(int_fields(LineKind::SpawnedMolotov)[5] == (5usize, Bound::Int));
}

#[verifier::rlimit(50)]
proof fn lemma_converts_threw_molotov(s: Seq<char>)
    requires
        s.len() <= usize::MAX,
        line_caps(pattern(LineKind::ThrewMolotov), s) is Some,
        fields_fit(LineKind::ThrewMolotov, s, line_caps(pattern(LineKind::ThrewMolotov), s)->0),
    ensures
        convertible(LineKind::ThrewMolotov, s, line_caps(pattern(LineKind::ThrewMolotov), s)->0),
{
    lemma_run_shapes(pattern(LineKind::ThrewMolotov), s, 0);
    lemma_group_shapes();
    assert(shapes(seq![Prim::Lit(" threw molotov ")]) =~= seq![]) by {
        reveal_with_fuel(shapes, 2);
    }
    lemma_shapes_concat(prefix(), player());
    lemma_shapes_concat(prefix() + player(), seq![Prim::Lit(" threw molotov ")]);
    lemma_shapes_concat(prefix() + player() + seq![Prim::Lit(" threw molotov ")], vector());
    let c = line_caps(pattern(LineKind::ThrewMolotov), s)->0;
    assert(caps_shaped(s, c, shapes(pattern(LineKind::ThrewMolotov))));
    assert(int_fields(LineKind::ThrewMolotov)[0] == (0usize, Bound::Int));
    assert(int_fields(LineKind::ThrewMolotov)[1] == (1usize, Bound::Int));
    assert(int_fields(LineKind::ThrewMolotov)[2] == (2usize, Bound::Int));
    assert(int_fields(LineKind::ThrewMolotov)[3] == (3usize, Bound::Int));
    assert(int_fields(LineKind::ThrewMolotov)[4] == (4usize, Bound::Int));
    assert(int_fields(LineKind::ThrewMolotov)[5] == (5usize, Bound::Int));
    assert(int_fields(LineKind::ThrewMolotov)[6] == (7usize, Bound::Int));
    assert(int_fields(LineKind::ThrewMolotov)[7] == (10usize, Bound::Signed));
    assert(int_fields(LineKind::ThrewMolotov)[8] == (11usize, Bound::Signed));
    assert(int_fields(LineKind::ThrewMolotov)[9] == (12usize, Bound::Signed));
}

#[verifier::rlimit(50)]
proof fn lemma_converts_player_connected(s: Seq<char>)
    requires
        s.len() <= usize::MAX,
        line_caps(pattern(LineKind::PlayerConnected), s) is Some,
        fields_fit(LineKind::PlayerConnected, s, line_caps(pattern(LineKind::PlayerConnected), s)->0),
    ensures
        convertible(LineKind::PlayerConnected, s, line_caps(pattern(LineKind::PlayerConnected), s)->0),
{
    lemma_run_shapes(pattern(LineKind::PlayerConnected), s, 0);
    lemma_group_shapes();
    assert(shapes(seq![Prim::Lit(" connected, address \""), Prim::Field('"', Check::Any), Prim::Lit("\"")]) =~= seq![Shape::Text]) by {
        reveal_with_fuel(shapes, 4);
    }
    lemma_shapes_concat(prefix(), player());
    lemma_shapes_concat(prefix() + player(), seq![Prim::Lit(" connected, address \""), Prim::Field('"', Check::Any), Prim::Lit("\"")]);
    let c = line_caps(pattern(LineKind::PlayerConnected), s)->0;
    assert(caps_shaped(s, c, shapes(pattern(LineKind::PlayerConnected))));
    assert(int_fields(LineKind::PlayerConnected)[0] == (0usize, Bound::Int));
    assert(int_fields(LineKind::PlayerConnected)[1] == (1usize, Bound::Int));
    assert(int_fields(LineKind::PlayerConnected)[2] == (2usize, Bound::Int));
    assert(int_fields(LineKind::PlayerConnected)[3] == (3usize, Bound::Int));
    assert(int_fields(LineKind::PlayerConnected)[4] == (4usize, Bound::Int));
    assert(int_fields(LineKind::PlayerConnected)[5] == (5usize, Bound::Int));
    assert(int_fields(LineKind::PlayerConnected)[6] == (7usize, Bound::Int));
}

#[verifier::rlimit(50)]
proof fn lemma_converts_validated_steam_id(s: Seq<char>)
    requires
        s.len() <= usize::MAX,
        line_caps(pattern(LineKind::ValidatedSteamID), s) is Some,
        fields_fit(LineKind::ValidatedSteamID, s, line_caps(pattern(LineKind::ValidatedSteamID), s)->0),
    ensures
        convertible(LineKind::ValidatedSteamID, s, line_caps(pattern(LineKind::ValidatedSteamID), s)->0),
{
    lemma_run_shapes(pattern(LineKind::ValidatedSteamID), s, 0);
    lemma_group_shapes();
    assert(shapes(seq![Prim::Lit(" STEAM USERID validated")]) =~= seq![]) by {
        reveal_with_fuel(shapes, 2);
    }
    lemma_shapes_concat(prefix(), player());
    lemma_shapes_concat(prefix() + player(), seq![Prim::Lit(" STEAM USERID validated")]);
    let c = line_caps(pattern(LineKind::ValidatedSteamID), s)->0;
    assert(caps_shaped(s, c, shapes(pattern(LineKind::ValidatedSteamID))));
    assert(int_fields(LineKind::ValidatedSteamID)[0] == (0usize, Bound::Int));
    assert(int_fields(LineKind::ValidatedSteamID)[1] == (1usize, Bound::Int));
    assert(int_fields(LineKind::ValidatedSteamID)[2] == (2usize, Bound::Int));
    assert(int_fields(LineKind::ValidatedSteamID)[3] == (3usize, Bound::Int));
    assert(int_fields(LineKind::ValidatedSteamID)[4] == (4usize, Bound::Int));
    assert(int_fields(LineKind::ValidatedSteamID)[5] == (5usize, Bound::Int));
    assert(int_fields(LineKind::ValidatedSteamID)[6] == (7usize, Bound::Int));
}

#[verifier::rlimit(50)]
proof fn lemma_converts_team_scored(s: Seq<char>)
    requires
        s.len() <= usize::MAX,
        line_caps(pattern(LineKind::TeamScored), s) is Some,
        fields_fit(LineKind::TeamScored, s, line_caps(pattern(LineKind::TeamScored), s)->0),
    ensures
        convertible(LineKind::TeamScored, s, line_caps(pattern(LineKind::TeamScored), s)->0),
{
    lemma_run_shapes(pattern(LineKind::TeamScored), s, 0);
    lemma_group_shapes();
    assert(shapes(seq![Prim::Lit("Team \""), Prim::Field('"', Check::Word(Vocab::Side)), Prim::Lit("\" scored \""), Prim::Int, Prim::Lit("\" with \""), Prim::Int, Prim::Lit("\" players")]) =~= seq![Shape::Side, Shape::Digits, Shape::Digits]) by {
        reveal_with_fuel(shapes, 8);
    }
    lemma_shapes_concat(prefix(), seq![Prim::Lit("Team \""), Prim::Field('"', Check::Word(Vocab::Side)), Prim::Lit("\" scored \""), Prim::Int, Prim::Lit("\" with \""), Prim::Int, Prim::Lit("\" players")]);
    let c = line_caps(pattern(LineKind::TeamScored), s)->0;
    assert(caps_shaped(s, c, shapes(pattern(LineKind::TeamScored))));
    assert(int_fields(LineKind::TeamScored)[0] == (0usize, Bound::Int));
    assert(int_fields(LineKind::TeamScored)[1] == (1usize, Bound::Int));
    assert(int_fields(LineKind::TeamScored)[2] == (2usize, Bound::Int));
    assert(int_fields(LineKind::TeamScored)[3] == (3usize, Bound::Int));
    assert(int_fields(LineKind::TeamScored)[4] == (4usize, Bound::Int));
    assert(int_fields(LineKind::TeamScored)[5] == (5usize, Bound::Int));
    assert(int_fields(LineKind::TeamScored)[6] == (7usize, Bound::Int));
    assert(int_fields(LineKind::TeamScored)[7] == (8usize, Bound::Int));
}

#[verifier::rlimit(50)]
proof fn lemma_converts_threw_decoy(s: Seq<char>)
    requires
        s.len() <= usize::MAX,
        line_caps(pattern(LineKind::ThrewDecoy), s) is Some,
        fields_fit(LineKind::ThrewDecoy, s, line_caps(pattern(LineKind::ThrewDecoy), s)->0),
    ensures
        convertible(LineKind::ThrewDecoy, s, line_caps(pattern(LineKind::ThrewDecoy), s)->0),
{
    lemma_run_shapes(pattern(LineKind::ThrewDecoy), s, 0);
    lemma_group_shapes();
    assert(shapes(seq![Prim::Lit(" threw decoy ")]) =~= seq![]) by {
        reveal_with_fuel(shapes, 2);
    }
    lemma_shapes_concat(prefix(), player());
    lemma_shapes_concat(prefix() + player(), seq![Prim::Lit(" threw decoy ")]);
    lemma_shapes_concat(prefix() + player() + seq![Prim::Lit(" threw decoy ")], vector());
    let c = line_caps(pattern(LineKind::ThrewDecoy), s)->0;
    assert(caps_shaped(s, c, shapes(pattern(LineKind::ThrewDecoy))));
    assert(int_fields(LineKind::ThrewDecoy)[0] == (0usize, Bound::Int));
    assert(int_fields(LineKind::ThrewDecoy)[1] == (1usize, Bound::Int));
    assert(int_fields(LineKind::ThrewDecoy)[2] == (2usize, Bound::Int));
    assert(int_fields(LineKind::ThrewDecoy)[3] == (3usize, Bound::Int));
    assert(int_fields(LineKind::ThrewDecoy)[4] == (4usize, Bound::Int));
    assert(int_fields(LineKind::ThrewDecoy)[5] == (5usize, Bound::Int));
    assert(int_fields(LineKind::ThrewDecoy)[6] == (7usize, Bound::Int));
    assert(int_fields(LineKind::ThrewDecoy)[7] == (10usize, Bound::Signed));
    assert(int_fields(LineKind::ThrewDecoy)[8] == (11usize, Bound::Signed));
    assert(int_fields(LineKind::ThrewDecoy)[9] == (12usize, Bound::Signed));
}

#[verifier::rlimit(50)]
proof fn lemma_converts_match_resumed(s: Seq<char>)
    requires
        s.len() <= usize::MAX,
        line_caps(pattern(LineKind::MatchResumed), s) is Some,
        fields_fit(LineKind::MatchResumed, s, line_caps(pattern(LineKind::MatchResumed), s)->0),
    ensures
        convertible(LineKind::MatchResumed, s, line_caps(pattern(LineKind::MatchResumed), s)->0),
{
    lemma_run_shapes(pattern(LineKind::MatchResumed), s, 0);
    lemma_group_shapes();
    assert(shapes(seq![Prim::Lit("Match pause is disabled - mp_unpause_match")]) =~= seq![]) by {
        reveal_with_fuel(shapes, 2);
    }
    lemma_shapes_concat(prefix(), seq![Prim::Lit("Match pause is disabled - mp_unpause_match")]);
    let c = line_caps(pattern(LineKind::MatchResumed), s)->0;
    assert(caps_shaped(s, c, shapes(pattern(LineKind::MatchResumed))));
    assert(int_fields(LineKind::MatchResumed)[0] == (0usize, Bound::Int));
    assert(int_fields(LineKind::MatchResumed)[1] == (1usize, Bound::Int));
    assert(int_fields(LineKind::MatchResumed)[2] == (2usize, Bound::Int));
    assert(int_fields(LineKind::MatchResumed)[3] == (3usize, Bound::Int));
    assert(int_fields(LineKind::MatchResumed)[4] == (4usize, Bound::Int));
    assert(int_fields(LineKind::MatchResumed)[5] == (5usize, Bound::Int));
}

#[verifier::rlimit(50)]
proof fn lemma_converts_match_paused(s: Seq<char>)
    requires
        s.len() <= usize::MAX,
        line_caps(pattern(LineKind::MatchPaused), s) is Some,
        fields_fit(LineKind::MatchPaused, s, line_caps(pattern(LineKind::MatchPaused), s)->0),
    ensures
        convertible(LineKind::MatchPaused, s, line_caps(pattern(LineKind::MatchPaused), s)->0),
{
    lemma_run_shapes(pattern(LineKind::MatchPaused), s, 0);
    lemma_group_shapes();
    assert(shapes(seq![Prim::Lit("Match pause is enabled - mp_pause_match")]) =~= seq![]) by {
        reveal_with_fuel(shapes, 2);
    }
    lemma_shapes_concat(prefix(), seq![Prim::Lit("Match pause is enabled - mp_pause_match")]);
    let c = line_caps(pattern(LineKind::MatchPaused), s)->0;
    assert(caps_shaped(s, c, shapes(pattern(LineKind::MatchPaused))));
    assert(int_fields(LineKind::MatchPaused)[0] == (0usize, Bound::Int));
    assert(int_fields(LineKind::MatchPaused)[1] == (1usize, Bound::Int));
    assert(int_fields(LineKind::MatchPaused)[2] == (2usize, Bound::Int));
    assert(int_fields(LineKind::MatchPaused)[3] == (3usize, Bound::Int));
    assert(int_fields(LineKind::MatchPaused)[4] == (4usize, Bound::Int));
    assert(int_fields(LineKind::MatchPaused)[5] == (5usize, Bound::Int));
}

#[verifier::rlimit(50)]
proof fn lemma_converts_killed_by_bomb(s: Seq<char>)
    requires
        s.len() <= usize::MAX,
        line_caps(pattern(LineKind::KilledByBomb), s) is Some,
        fields_fit(LineKind::KilledByBomb, s, line_caps(pattern(LineKind::KilledByBomb), s)->0),
    ensures
        convertible(LineKind::KilledByBomb, s, line_caps(pattern(LineKind::KilledByBomb), s)->0),
{
    lemma_run_shapes(pattern(LineKind::KilledByBomb), s, 0);
    lemma_group_shapes();
    assert(shapes(seq![Prim::Lit(" ")]) =~= seq![]) by {
        reveal_with_fuel(shapes, 2);
    }
    assert(shapes(seq![Prim::Lit(" was killed by the bomb.")]) =~= seq![]) by {
        reveal_with_fuel(shapes, 2);
    }
    lemma_shapes_concat(prefix(), player());
    lemma_shapes_concat(prefix() + player(), seq![Prim::Lit(" ")]);
    lemma_shapes_concat(prefix() + player() + seq![Prim::Lit(" ")], vector());
    lemma_shapes_concat(prefix() + player() + seq![Prim::Lit(" ")] + vector(), seq![Prim::Lit(" was killed by the bomb.")]);
    let c = line_caps(pattern(LineKind::KilledByBomb), s)->0;
    assert(caps_shaped(s, c, shapes(pattern(LineKind::KilledByBomb))));
    assert(int_fields(LineKind::KilledByBomb)[0] == (0usize, Bound::Int));
    assert(int_fields(LineKind::KilledByBomb)[1] == (1usize, Bound::Int));
    assert(int_fields(LineKind::KilledByBomb)[2] == (2usize, Bound::Int));
    assert(int_fields(LineKind::KilledByBomb)[3] == (3usize, Bound::Int));
    assert(int_fields(LineKind::KilledByBomb)[4] == (4usize, Bound::Int));
    assert(int_fields(LineKind::KilledByBomb)[5] == (5usize, Bound::Int));
    assert(int_fields(LineKind::KilledByBomb)[6] == (7usize, Bound::Int));
    assert(int_fields(LineKind::KilledByBomb)[7] == (10usize, Bound::Signed));
    assert(int_fields(LineKind::KilledByBomb)[8] == (11usize, Bound::Signed));
    assert(int_fields(LineKind::KilledByBomb)[9] == (12usize, Bound::Signed));
}

#[verifier::rlimit(50)]
proof fn lemma_converts_accolade(s: Seq<char>)
    requires
        s.len() <= usize::MAX,
        line_caps(pattern(LineKind::Accolade), s) is Some,
        fields_fit(LineKind::Accolade, s, line_caps(pattern(LineKind::Accolade), s)->0),
    ensures
        convertible(LineKind::Accolade, s, line_caps(pattern(LineKind::Accolade), s)->0),
{
    lemma_run_shapes(pattern(LineKind::Accolade), s, 0);
    lemma_group_shapes();
    assert(shapes(seq![Prim::Lit("ACCOLADE, FINAL: {"), Prim::Field('}', Check::Any), Prim::Lit("},"), Prim::Spaces, Prim::Field('<', Check::Any), Prim::Lit("<"), Prim::Int, Prim::Lit(">,"), Prim::Spaces, Prim::Lit("VALUE: "), Prim::Decimal(false), Prim::Lit(","), Prim::Spaces, Prim::Lit("POS: "), Prim::Int, Prim::Lit(","), Prim::Spaces, Prim::Lit("SCORE: "), Prim::Decimal(false)]) =~= seq![Shape::Text, Shape::Text, Shape::Digits, Shape::Text, Shape::Digits, Shape::Text]) by {
        reveal_with_fuel(shapes, 20);
    }
    lemma_shapes_concat(prefix(), seq![Prim::Lit("ACCOLADE, FINAL: {"), Prim::Field('}', Check::Any), Prim::Lit("},"), Prim::Spaces, Prim::Field('<', Check::Any), Prim::Lit("<"), Prim::Int, Prim::Lit(">,"), Prim::Spaces, Prim::Lit("VALUE: "), Prim::Decimal(false), Prim::Lit(","), Prim::Spaces, Prim::Lit("POS: "), Prim::Int, Prim::Lit(","), Prim::Spaces, Prim::Lit("SCORE: "), Prim::Decimal(false)]);
    let c = line_caps(pattern(LineKind::Accolade), s)->0;
    assert(caps_shaped(s, c, shapes(pattern(LineKind::Accolade))));
    assert(int_fields(LineKind::Accolade)[0] == (0usize, Bound::Int));
    assert(int_fields(LineKind::Accolade)[1] == (1usize, Bound::Int));
    assert(int_fields(LineKind::Accolade)[2] == (2usize, Bound::Int));
    assert(int_fields(LineKind::Accolade)[3] == (3usize, Bound::Int));
    assert(int_fields(LineKind::Accolade)[4] == (4usize, Bound::Int));
    assert(int_fields(LineKind::Accolade)[5] == (5usize, Bound::Int));
    assert(int_fields(LineKind::Accolade)[6] == (8usize, Bound::Int));
    assert(int_fields(LineKind::Accolade)[7] == (10usize, Bound::Int));
}

#[verifier::rlimit(100)]
proof fn lemma_converts_game_over(s: Seq<char>)
    requires
        s.len() <= usize::MAX,
        line_caps(pattern(LineKind::GameOver), s) is Some,
        fields_fit(LineKind::GameOver, s, line_caps(pattern(LineKind::GameOver), s)->0),
    ensures
        convertible(LineKind::GameOver, s, line_caps(pattern(LineKind::GameOver), s)->0),
{
    lemma_run_shapes(pattern(LineKind::GameOver), s, 0);
    lemma_group_shapes();
    assert(shapes(seq![Prim::Lit("Game Over: "), Prim::Word, Prim::Lit(" "), Prim::Word, Prim::Lit(" "), Prim::Word, Prim::Lit(" score "), Prim::Int, Prim::Lit(":"), Prim::Int, Prim::Lit(" after "), Prim::Int, Prim::Lit(" min")]) =~= seq![Shape::Text, Shape::Text, Shape::Text, Shape::Digits, Shape::Digits, Shape::Digits]) by {
        reveal_with_fuel(shapes, 14);
    }
    lemma_shapes_concat(prefix(), seq![Prim::Lit("Game Over: "), Prim::Word, Prim::Lit(" "), Prim::Word, Prim::Lit(" "), Prim::Word, Prim::Lit(" score "), Prim::Int, Prim::Lit(":"), Prim::Int, Prim::Lit(" after "), Prim::Int, Prim::Lit(" min")]);
    let c = line_caps(pattern(LineKind::GameOver), s)->0;
    assert(caps_shaped(s, c, shapes(pattern(LineKind::GameOver))));
    assert(int_fields(LineKind::GameOver)[0] == (0usize, Bound::Int));
    assert(int_fields(LineKind::GameOver)[1] == (1usize, Bound::Int));
    assert(int_fields(LineKind::GameOver)[2] == (2usize, Bound::Int));
    assert(int_fields(LineKind::GameOver)[3] == (3usize, Bound::Int));
    assert(int_fields(LineKind::GameOver)[4] == (4usize, Bound::Int));
    assert(int_fields(LineKind::GameOver)[5] == (5usize, Bound::Int));
    assert(int_fields(LineKind::GameOver)[6] == (9usize, Bound::Int));
    assert(int_fields(LineKind::GameOver)[7] == (10usize, Bound::Int));
    assert(int_fields(LineKind::GameOver)[8] == (11usize, Bound::Minutes));
}

#[verifier::rlimit(50)]
proof fn lemma_converts_changed_nickname(s: Seq<char>)
    requires
        s.len() <= usize::MAX,
        line_caps(pattern(LineKind::ChangedNickname), s) is Some,
        fields_fit(LineKind::ChangedNickname, s, line_caps(pattern(LineKind::ChangedNickname), s)->0),
    ensures
        convertible(LineKind::ChangedNickname, s, line_caps(pattern(LineKind::ChangedNickname), s)->0),
{
    lemma_run_shapes(pattern(LineKind::ChangedNickname), s, 0);
    lemma_group_shapes();
    assert(shapes(seq![Prim::Lit(" changed name to \""), Prim::Field('"', Check::Any), Prim::Lit("\"")]) =~= seq![Shape::Text]) by {
        reveal_with_fuel(shapes, 4);
    }
    lemma_shapes_concat(prefix(), player());
    lemma_shapes_concat(prefix() + player(), seq![Prim::Lit(" changed name to \""), Prim::Field('"', Check::Any), Prim::Lit("\"")]);
    let c = line_caps(pattern(LineKind::ChangedNickname), s)->0;
    assert(caps_shaped(s, c, shapes(pattern(LineKind::ChangedNickname))));
    assert(int_fields(LineKind::ChangedNickname)[0] == (0usize, Bound::Int));
    assert(int_fields(LineKind::ChangedNickname)[1] == (1usize, Bound::Int));
    assert(int_fields(LineKind::ChangedNickname)[2] == (2usize, Bound::Int));
    assert(int_fields(LineKind::ChangedNickname)[3] == (3usize, Bound::Int));
    assert(int_fields(LineKind::ChangedNickname)[4] == (4usize, Bound::Int));
    assert(int_fields(LineKind::ChangedNickname)[5] == (5usize, Bound::Int));
    assert(int_fields(LineKind::ChangedNickname)[6] == (7usize, Bound::Int));
}

#[verifier::rlimit(50)]
proof fn lemma_converts_committed_suicide(s: Seq<char>)
    requires
        s.len() <= usize::MAX,
        line_caps(pattern(LineKind::CommittedSuicide), s) is Some,
        fields_fit(LineKind::CommittedSuicide, s, line_caps(pattern(LineKind::CommittedSuicide), s)->0),
    ensures
        convertible(LineKind::CommittedSuicide, s, line_caps(pattern(LineKind::CommittedSuicide), s)->0),
{
    lemma_run_shapes(pattern(LineKind::CommittedSuicide), s, 0);
    lemma_group_shapes();
    assert(shapes(seq![Prim::Lit(" ")]) =~= seq![]) by {
        reveal_with_fuel(shapes, 2);
    }
    assert(shapes(seq![Prim::Lit(" committed suicide with \""), Prim::Field('"', Check::Any), Prim::Lit("\"")]) =~= seq![Shape::Text]) by {
        reveal_with_fuel(shapes, 4);
    }
    lemma_shapes_concat(prefix(), player());
    lemma_shapes_concat(prefix() + player(), seq![Prim::Lit(" ")]);
    lemma_shapes_concat(prefix() + player() + seq![Prim::Lit(" ")], vector());
    lemma_shapes_concat(prefix() + player() + seq![Prim::Lit(" ")] + vector(), seq![Prim::Lit(" committed suicide with \""), Prim::Field('"', Check::Any), Prim::Lit("\"")]);
    let c = line_caps(pattern(LineKind::CommittedSuicide), s)->0;
    assert(caps_shaped(s, c, shapes(pattern(LineKind::CommittedSuicide))));
    assert(int_fields(LineKind::CommittedSuicide)[0] == (0usize, Bound::Int));
    assert(int_fields(LineKind::CommittedSuicide)[1] == (1usize, Bound::Int));
    assert(int_fields(LineKind::CommittedSuicide)[2] == (2usize, Bound::Int));
    assert(int_fields(LineKind::CommittedSuicide)[3] == (3usize, Bound::Int));
    assert(int_fields(LineKind::CommittedSuicide)[4] == (4usize, Bound::Int));
    assert(int_fields(LineKind::CommittedSuicide)[5] == (5usize, Bound::Int));
    assert(int_fields(LineKind::CommittedSuicide)[6] == (7usize, Bound::Int));
    assert(int_fields(LineKind::CommittedSuicide)[7] == (10usize, Bound::Signed));
    assert(int_fields(LineKind::CommittedSuicide)[8] == (11usize, Bound::Signed));
    assert(int_fields(LineKind::CommittedSuicide)[9] == (12usize, Bound::Signed));
}

#[verifier::rlimit(50)]
proof fn lemma_converts_server_message(s: Seq<char>)
    requires
        s.len() <= usize::MAX,
        line_caps(pattern(LineKind::ServerMessage), s) is Some,
        fields_fit(LineKind::ServerMessage, s, line_caps(pattern(LineKind::ServerMessage), s)->0),
    ensures
        convertible(LineKind::ServerMessage, s, line_caps(pattern(LineKind::ServerMessage), s)->0),
{
    lemma_run_shapes(pattern(LineKind::ServerMessage), s, 0);
    lemma_group_shapes();
    assert(shapes(seq![Prim::Lit("server_message: \""), Prim::Field('"', Check::Any), Prim::Lit("\"")]) =~= seq![Shape::Text]) by {
        reveal_with_fuel(shapes, 4);
    }
    lemma_shapes_concat(prefix(), seq![Prim::Lit("server_message: \""), Prim::Field('"', Check::Any), Prim::Lit("\"")]);
    let c = line_caps(pattern(LineKind::ServerMessage), s)->0;
    assert(caps_shaped(s, c, shapes(pattern(LineKind::ServerMessage))));
    assert(int_fields(LineKind::ServerMessage)[0] == (0usize, Bound::Int));
    assert(int_fields(LineKind::ServerMessage)[1] == (1usize, Bound::Int));
    assert(int_fields(LineKind::ServerMessage)[2] == (2usize, Bound::Int));
    assert(int_fields(LineKind::ServerMessage)[3] == (3usize, Bound::Int));
    assert(int_fields(LineKind::ServerMessage)[4] == (4usize, Bound::Int));
    assert(int_fields(LineKind::ServerMessage)[5] == (5usize, Bound::Int));
}

#[verifier::rlimit(50)]
proof fn lemma_converts_steam_auth_failure(s: Seq<char>)
    requires
        s.len() <= usize::MAX,
        line_caps(pattern(LineKind::SteamAuthFailure), s) is Some,
        fields_fit(LineKind::SteamAuthFailure, s, line_caps(pattern(LineKind::SteamAuthFailure), s)->0),
    ensures
        convertible(LineKind::SteamAuthFailure, s, line_caps(pattern(LineKind::SteamAuthFailure), s)->0),
{
    lemma_run_shapes(pattern(LineKind::SteamAuthFailure), s, 0);
    lemma_group_shapes();
    assert(shapes(seq![Prim::Lit("STEAMAUTH: Client "), Prim::FailureCode]) =~= seq![Shape::Text, Shape::Digits]) by {
        reveal_with_fuel(shapes, 3);
    }
    lemma_shapes_concat(prefix(), seq![Prim::Lit("STEAMAUTH: Client "), Prim::FailureCode]);
    let c = line_caps(pattern(LineKind::SteamAuthFailure), s)->0;
    assert(caps_shaped(s, c, shapes(pattern(LineKind::SteamAuthFailure))));
    assert(int_fields(LineKind::SteamAuthFailure)[0] == (0usize, Bound::Int));
    assert(int_fields(LineKind::SteamAuthFailure)[1] == (1usize, Bound::Int));
    assert(int_fields(LineKind::SteamAuthFailure)[2] == (2usize, Bound::Int));
    assert(int_fields(LineKind::SteamAuthFailure)[3] == (3usize, Bound::Int));
    assert(int_fields(LineKind::SteamAuthFailure)[4] == (4usize, Bound::Int));
    assert(int_fields(LineKind::SteamAuthFailure)[5] == (5usize, Bound::Int));
    assert(int_fields(LineKind::SteamAuthFailure)[6] == (7usize, Bound::Int));
}

#[verifier::rlimit(50)]
proof fn lemma_converts_meta_mod_plugins_loaded(s: Seq<char>)
    requires
        s.len() <= usize::MAX,
        line_caps(pattern(LineKind::MetaModPluginsLoaded), s) is Some,
        fields_fit(LineKind::MetaModPluginsLoaded, s, line_caps(pattern(LineKind::MetaModPluginsLoaded), s)->0),
    ensures
        convertible(LineKind::MetaModPluginsLoaded, s, line_caps(pattern(LineKind::MetaModPluginsLoaded), s)->0),
{
    lemma_run_shapes(pattern(LineKind::MetaModPluginsLoaded), s, 0);
    lemma_group_shapes();
    assert(shapes(seq![Prim::Lit("[META] Loaded "), Prim::Int, Prim::Lit(" plugin"), Prim::PluginTail]) =~= seq![Shape::Digits, Shape::OptDigits]) by {
        reveal_with_fuel(shapes, 5);
    }
    lemma_shapes_concat(prefix(), seq![Prim::Lit("[META] Loaded "), Prim::Int, Prim::Lit(" plugin"), Prim::PluginTail]);
    let c = line_caps(pattern(LineKind::MetaModPluginsLoaded), s)->0;
    assert(caps_shaped(s, c, shapes(pattern(LineKind::MetaModPluginsLoaded))));
    assert(int_fields(LineKind::MetaModPluginsLoaded)[0] == (0usize, Bound::Int));
    assert(int_fields(LineKind::MetaModPluginsLoaded)[1] == (1usize, Bound::Int));
    assert(int_fields(LineKind::MetaModPluginsLoaded)[2] == (2usize, Bound::Int));
    assert(int_fields(LineKind::MetaModPluginsLoaded)[3] == (3usize, Bound::Int));
    assert(int_fields(LineKind::MetaModPluginsLoaded)[4] == (4usize, Bound::Int));
    assert(int_fields(LineKind::MetaModPluginsLoaded)[5] == (5usize, Bound::Int));
    assert(int_fields(LineKind::MetaModPluginsLoaded)[6] == (6usize, Bound::Int));
    assert(int_fields(LineKind::MetaModPluginsLoaded)[7] == (7usize, Bound::Count));
}

#[verifier::rlimit(50)]
proof fn lemma_converts_cvars_start(s: Seq<char>)
    requires
        s.len() <= usize::MAX,
        line_caps(pattern(LineKind::CvarsStart), s) is Some,
        fields_fit(LineKind::CvarsStart, s, line_caps(pattern(LineKind::CvarsStart), s)->0),
    ensures
        prefix_at(s, line_caps(pattern(LineKind::CvarsStart), s)->0) is Some,
{
    lemma_run_shapes(pattern(LineKind::CvarsStart), s, 0);
    lemma_group_shapes();
    assert(shapes(seq![Prim::Lit("server cvars start")]) =~= seq![]) by {
        reveal_with_fuel(shapes, 6);
    }
    lemma_shapes_concat(prefix(), seq![Prim::Lit("server cvars start")]);
    let c = line_caps(pattern(LineKind::CvarsStart), s)->0;
    assert(caps_shaped(s, c, shapes(pattern(LineKind::CvarsStart))));
    assert(int_fields(LineKind::CvarsStart)[0] == (0usize, Bound::Int));
    assert(int_fields(LineKind::CvarsStart)[1] == (1usize, Bound::Int));
    assert(int_fields(LineKind::CvarsStart)[2] == (2usize, Bound::Int));
    assert(int_fields(LineKind::CvarsStart)[3] == (3usize, Bound::Int));
    assert(int_fields(LineKind::CvarsStart)[4] == (4usize, Bound::Int));
    assert(int_fields(LineKind::CvarsStart)[5] == (5usize, Bound::Int));
}

#[verifier::rlimit(50)]
proof fn lemma_converts_cvars_entry(s: Seq<char>)
    requires
        s.len() <= usize::MAX,
        line_caps(pattern(LineKind::CvarsEntry), s) is Some,
        fields_fit(LineKind::CvarsEntry, s, line_caps(pattern(LineKind::CvarsEntry), s)->0),
    ensures
        prefix_at(s, line_caps(pattern(LineKind::CvarsEntry), s)->0) is Some,
        txt_at(s, line_caps(pattern(LineKind::CvarsEntry), s)->0, 6) is Some,
        txt_at(s, line_caps(pattern(LineKind::CvarsEntry), s)->0, 7) is Some,
{
    lemma_run_shapes(pattern(LineKind::CvarsEntry), s, 0);
    lemma_group_shapes();
    assert(shapes(seq![Prim::Lit("\""), Prim::Field('"', Check::Any), Prim::Lit("\" = \""), Prim::Field('"', Check::Any), Prim::Lit("\"")]) =~= seq![Shape::Text, Shape::Text]) by {
        reveal_with_fuel(shapes, 6);
    }
    lemma_shapes_concat(prefix(), seq![Prim::Lit("\""), Prim::Field('"', Check::Any), Prim::Lit("\" = \""), Prim::Field('"', Check::Any), Prim::Lit("\"")]);
    let c = line_caps(pattern(LineKind::CvarsEntry), s)->0;
    assert(caps_shaped(s, c, shapes(pattern(LineKind::CvarsEntry))));
    assert(int_fields(LineKind::CvarsEntry)[0] == (0usize, Bound::Int));
    assert(int_fields(LineKind::CvarsEntry)[1] == (1usize, Bound::Int));
    assert(int_fields(LineKind::CvarsEntry)[2] == (2usize, Bound::Int));
    assert(int_fields(LineKind::CvarsEntry)[3] == (3usize, Bound::Int));
    assert(int_fields(LineKind::CvarsEntry)[4] == (4usize, Bound::Int));
    assert(int_fields(LineKind::CvarsEntry)[5] == (5usize, Bound::Int));
}

#[verifier::rlimit(50)]
proof fn lemma_converts_cvars_end(s: Seq<char>)
    requires
        s.len() <= usize::MAX,
        line_caps(pattern(LineKind::CvarsEnd), s) is Some,
        fields_fit(LineKind::CvarsEnd, s, line_caps(pattern(LineKind::CvarsEnd), s)->0),
    ensures
        prefix_at(s, line_caps(pattern(LineKind::CvarsEnd), s)->0) is Some,
{
    lemma_run_shapes(pattern(LineKind::CvarsEnd), s, 0);
    lemma_group_shapes();
    assert(shapes(seq![Prim::Lit("server cvars end")]) =~= seq![]) by {
        reveal_with_fuel(shapes, 6);
    }
    lemma_shapes_concat(prefix(), seq![Prim::Lit("server cvars end")]);
    let c = line_caps(pattern(LineKind::CvarsEnd), s)->0;
    assert(caps_shaped(s, c, shapes(pattern(LineKind::CvarsEnd))));
    assert(int_fields(LineKind::CvarsEnd)[0] == (0usize, Bound::Int));
    assert(int_fields(LineKind::CvarsEnd)[1] == (1usize, Bound::Int));
    assert(int_fields(LineKind::CvarsEnd)[2] == (2usize, Bound::Int));
    assert(int_fields(LineKind::CvarsEnd)[3] == (3usize, Bound::Int));
    assert(int_fields(LineKind::CvarsEnd)[4] == (4usize, Bound::Int));
    assert(int_fields(LineKind::CvarsEnd)[5] == (5usize, Bound::Int));
}

/// A line that a cvar dump kind matches, and whose numbers all fit in an
/// `i32`, has a timestamp and, for a key/value line, both texts.
pub proof fn lemma_dump_fields_convert(k: LineKind, s: Seq<char>)
    requires
        s.len() <= usize::MAX,
        is_dump_kind(k),
        line_caps(pattern(k), s) is Some,
        fields_fit(k, s, line_caps(pattern(k), s)->0),
    ensures
        prefix_at(s, line_caps(pattern(k), s)->0) is Some,
        k == LineKind::CvarsEntry ==> txt_at(s, line_caps(pattern(k), s)->0, 6) is Some && txt_at(
            s,
            line_caps(pattern(k), s)->0,
            7,
        ) is Some,
{
    match k {
        LineKind::CvarsStart => lemma_converts_cvars_start(s),
        LineKind::CvarsEntry => lemma_converts_cvars_entry(s),
        LineKind::CvarsEnd => lemma_converts_cvars_end(s),
        _ => {},
    }
}

/// A line that a kind other than the cvar dump ones matches, and whose numbers
/// all fit in an `i32`, has fields that convert into that kind's entry.
pub proof fn lemma_matched_fields_convert(k: LineKind, s: Seq<char>)
    requires
        s.len() <= usize::MAX,
        !is_dump_kind(k),
        line_caps(pattern(k), s) is Some,
        fields_fit(k, s, line_caps(pattern(k), s)->0),
    ensures
        convertible(k, s, line_caps(pattern(k), s)->0),
{
    match k {
        LineKind::LogFileStart => lemma_converts_log_file_start(s),
        LineKind::LogFileClosed => lemma_converts_log_file_closed(s),
        LineKind::WorldTriggeredEvent => lemma_converts_world_triggered_event(s),
        LineKind::WorldTriggeredEventMap => lemma_converts_world_triggered_event_map(s),
        LineKind::WorldTriggeredEventScore => lemma_converts_world_triggered_event_score(s),
        LineKind::PlayerTriggeredEvent => lemma_converts_player_triggered_event(s),
        LineKind::TeamTriggeredEventScore => lemma_converts_team_triggered_event_score(s),
        LineKind::LoadingMap => lemma_converts_loading_map(s),
        LineKind::StartedMap => lemma_converts_started_map(s),
        LineKind::Cvar => lemma_converts_cvar(s),
        LineKind::PlayerEnteredGame => lemma_converts_player_entered_game(s),
        LineKind::Get5Event => lemma_converts_get5_event(s),
        LineKind::RconCommand => lemma_converts_rcon_command(s),
        LineKind::RconBadPassword => lemma_converts_rcon_bad_password(s),
        LineKind::SwitchedTeam => lemma_converts_switched_team(s),
        LineKind::PlayerPickedUp => lemma_converts_player_picked_up(s),
        LineKind::PlayerDropped => lemma_converts_player_dropped(s),
        LineKind::TeamPlaying => lemma_converts_team_playing(s),
        LineKind::StartingFreezePeriod => lemma_converts_starting_freeze_period(s),
        LineKind::PlayerLeftBuyzone => lemma_converts_player_left_buyzone(s),
        LineKind::TeamChat => lemma_converts_team_chat(s),
        LineKind::MoneyChanged => lemma_converts_money_changed(s),
        LineKind::PlayerPurchased => lemma_converts_player_purchased(s),
        LineKind::ThrewFlashbang => lemma_converts_threw_flashbang(s),
        LineKind::BlindedPlayer => lemma_converts_blinded_player(s),
        LineKind::GlobalChat => lemma_converts_global_chat(s),
        LineKind::PlayerKilledEntity => lemma_converts_player_killed_entity(s),
        LineKind::PlayerKilledPlayer => lemma_converts_player_killed_player(s),
        LineKind::PlayerThrewSmokegrenade => lemma_converts_player_threw_smokegrenade(s),
        LineKind::PlayerThrewHEGrenade => lemma_converts_player_threw_he_grenade(s),
        LineKind::PlayerAttackedPlayer => lemma_converts_player_attacked_player(s),
        LineKind::PlayerDisconnected => lemma_converts_player_disconnected(s),
        LineKind::PlayerAssistedKillingPlayer => lemma_converts_player_assisted_killing_player(s),
        LineKind::PlayerAssistedBlindingPlayer => lemma_converts_player_assisted_blinding_player(s),
        LineKind::SpawnedMolotov => lemma_converts_spawned_molotov(s),
        LineKind::ThrewMolotov => lemma_converts_threw_molotov(s),
        LineKind::PlayerConnected => lemma_converts_player_connected(s),
        LineKind::ValidatedSteamID => lemma_converts_validated_steam_id(s),
        LineKind::TeamScored => lemma_converts_team_scored(s),
        LineKind::ThrewDecoy => lemma_converts_threw_decoy(s),
        LineKind::MatchResumed => lemma_converts_match_resumed(s),
        LineKind::MatchPaused => lemma_converts_match_paused(s),
        LineKind::KilledByBomb => lemma_converts_killed_by_bomb(s),
        LineKind::Accolade => lemma_converts_accolade(s),
        LineKind::GameOver => lemma_converts_game_over(s),
        LineKind::ChangedNickname => lemma_converts_changed_nickname(s),
        LineKind::CommittedSuicide => lemma_converts_committed_suicide(s),
        LineKind::ServerMessage => lemma_converts_server_message(s),
        LineKind::SteamAuthFailure => lemma_converts_steam_auth_failure(s),
        LineKind::MetaModPluginsLoaded => lemma_converts_meta_mod_plugins_loaded(s),

        _ => {},
    }
}

} // verus!
