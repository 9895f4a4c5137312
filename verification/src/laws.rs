//! Protocol laws of the streaming executor, proved over the event model:
//! the exact shape of a run's sequence, that every captured line is emitted
//! exactly once in arrival order, that the success flag comes from the exit
//! status alone, and that runs with different correlation ids can always be
//! told apart in any interleaving.

use vstd::prelude::*;

use crate::events::EventView;
use crate::events::SourceKind;
use crate::events::diag_text;
use crate::events::event_rid;
use crate::events::int_dec_str;
use crate::events::line_events;
use crate::events::run_events;

verus! {

/// Every event in `s` is routed by the correlation id `rid`.
pub open spec fn all_routed(s: Seq<EventView>, rid: Seq<char>) -> bool {
    forall|i: int| 0 <= i < s.len() ==> event_rid(#[trigger] s[i]) == rid
}

/// The `(source, text)` pairs of the `Line` events of `s`, in order.
pub open spec fn lines_of(s: Seq<EventView>) -> Seq<(SourceKind, Seq<char>)>
    decreases s.len(),
{
    if s.len() == 0 {
        Seq::empty()
    } else {
        match s.first() {
            EventView::Line { rid, source, text } => seq![(source, text)] + lines_of(
                s.drop_first(),
            ),
            _ => lines_of(s.drop_first()),
        }
    }
}

/// The texts of the lines of `ls` that came from stream `k`, in order.
pub open spec fn stream_texts(ls: Seq<(SourceKind, Seq<char>)>, k: SourceKind) -> Seq<Seq<char>>
    decreases ls.len(),
{
    if ls.len() == 0 {
        Seq::empty()
    } else if ls.first().0 == k {
        seq![ls.first().1] + stream_texts(ls.drop_first(), k)
    } else {
        stream_texts(ls.drop_first(), k)
    }
}

/// `s` is an arbitrary order-preserving merge of `a` and `b`.
pub open spec fn is_interleaving(
    s: Seq<EventView>,
    a: Seq<EventView>,
    b: Seq<EventView>,
) -> bool
    decreases s.len(),
{
    if s.len() == 0 {
        a.len() == 0 && b.len() == 0
    } else {
        ||| (a.len() > 0 && s.first() == a.first() && is_interleaving(
            s.drop_first(),
            a.drop_first(),
            b,
        ))
        ||| (b.len() > 0 && s.first() == b.first() && is_interleaving(
            s.drop_first(),
            a,
            b.drop_first(),
        ))
    }
}

/// The events of `s` routed by `rid`, in order: what a subscriber observing
/// per correlation id sees.
pub open spec fn events_for(s: Seq<EventView>, rid: Seq<char>) -> Seq<EventView>
    decreases s.len(),
{
    if s.len() == 0 {
        Seq::empty()
    } else if event_rid(s.first()) == rid {
        seq![s.first()] + events_for(s.drop_first(), rid)
    } else {
        events_for(s.drop_first(), rid)
    }
}

/// A successful run with captured lines L1..Ln produces exactly
/// `Start, Line(L1), ..., Line(Ln), End(success=true)`: no diagnostic line
/// is ever added to a successful run.
pub proof fn lemma_successful_run_sequence(
    rid: Seq<char>,
    lines: Seq<(SourceKind, Seq<char>)>,
    code: Option<int>,
)
    ensures
        run_events(rid, lines, true, code).len() == lines.len() + 2,
        run_events(rid, lines, true, code)[0] == (EventView::Start { rid }),
        forall|i: int| 0 <= i < lines.len() ==> run_events(rid, lines, true, code)[i + 1]
            == (EventView::Line { rid, source: lines[i].0, text: lines[i].1 }),
        run_events(rid, lines, true, code).last() == (EventView::End { rid, success: true }),
{
    let evs = run_events(rid, lines, true, code);
    assert(evs.len() == lines.len() + 2);
    assert forall|i: int| 0 <= i < lines.len() implies evs[i + 1] == (EventView::Line {
        rid,
        source: lines[i].0,
        text: lines[i].1,
    }) by {
        assert(line_events(rid, lines)[i] == (EventView::Line {
            rid,
            source: lines[i].0,
            text: lines[i].1,
        }));
    }
}

/// A failing run that produced no output at all is reported as exactly
/// `Start, Line(stderr, diagnostic), End(success=false)`.
pub proof fn lemma_silent_failure_sequence(rid: Seq<char>, code: Option<int>)
    ensures
        run_events(rid, Seq::empty(), false, code) == seq![
            EventView::Start { rid },
            EventView::Line { rid, source: SourceKind::Stderr, text: diag_text(code) },
            EventView::End { rid, success: false },
        ],
{
    assert(run_events(rid, Seq::empty(), false, code) =~= seq![
        EventView::Start { rid },
        EventView::Line { rid, source: SourceKind::Stderr, text: diag_text(code) },
        EventView::End { rid, success: false },
    ]);
}

/// The diagnostic line of a silent failure carries the exit code: its text
/// contains the code's decimal rendering as a contiguous segment.
pub proof fn lemma_diag_text_carries_code(c: int)
    ensures
        exists|i: int|
            0 <= i && i + int_dec_str(c).len() <= diag_text(Some(c)).len() && #[trigger] diag_text(
                Some(c),
            ).subrange(i, i + int_dec_str(c).len() as int) == int_dec_str(c),
{
    let prefix = "命令退出但没有输出（exit code: "@;
    let i = prefix.len() as int;
    let n = int_dec_str(c).len() as int;
    assert(diag_text(Some(c)).subrange(i, i + n) =~= int_dec_str(c));
    assert(0 <= i && i + int_dec_str(c).len() <= diag_text(Some(c)).len() && diag_text(
        Some(c),
    ).subrange(i, i + int_dec_str(c).len() as int) == int_dec_str(c));
}

/// The final event of every run is `End`, its success flag is exactly the
/// exit status's, and no other event of the run is an `End`: success is
/// independent of what, if anything, the process wrote — a run that exits 0
/// with output only on stderr still ends `success=true`.
pub proof fn lemma_end_reflects_exit_status(
    rid: Seq<char>,
    lines: Seq<(SourceKind, Seq<char>)>,
    success: bool,
    code: Option<int>,
)
    ensures
        run_events(rid, lines, success, code).len() > 0,
        run_events(rid, lines, success, code).last() == (EventView::End { rid, success }),
        forall|i: int| 0 <= i < run_events(rid, lines, success, code).len() - 1
            ==> !(#[trigger] run_events(rid, lines, success, code)[i] is End),
{
    let evs = run_events(rid, lines, success, code);
    assert forall|i: int| 0 <= i < evs.len() - 1 implies !(#[trigger] evs[i] is End) by {
        if i == 0 {
        } else if i <= lines.len() {
            assert(evs[i] == line_events(rid, lines)[i - 1]);
        } else {
            assert(!success && lines.len() == 0 && i == 1);
        }
    }
}

proof fn lemma_lines_of_add(a: Seq<EventView>, b: Seq<EventView>)
    ensures
        lines_of(a + b) == lines_of(a) + lines_of(b),
    decreases a.len(),
{
    if a.len() == 0 {
        assert(a + b =~= b);
        assert(lines_of(a) + lines_of(b) =~= lines_of(b));
    } else {
        assert((a + b).drop_first() =~= a.drop_first() + b);
        lemma_lines_of_add(a.drop_first(), b);
        match a.first() {
            EventView::Line { rid, source, text } => {
                assert(lines_of(a + b) =~= lines_of(a) + lines_of(b));
            },
            _ => {},
        }
    }
}

proof fn lemma_lines_of_line_events(rid: Seq<char>, lines: Seq<(SourceKind, Seq<char>)>)
    ensures
        lines_of(line_events(rid, lines)) == lines,
    decreases lines.len(),
{
    let evs = line_events(rid, lines);
    if lines.len() == 0 {
        assert(lines_of(evs) =~= lines);
    } else {
        assert(evs.drop_first() =~= line_events(rid, lines.drop_first()));
        lemma_lines_of_line_events(rid, lines.drop_first());
        assert(evs.first() == (EventView::Line {
            rid,
            source: lines.first().0,
            text: lines.first().1,
        }));
        assert(lines_of(evs) =~= lines);
    }
}

/// Every captured line is emitted exactly once, in arrival order: the
/// `Line` events of a run's sequence are exactly the captured lines — with
/// the single synthetic diagnostic line added only when a failing run
/// captured none.
pub proof fn lemma_every_line_exactly_once(
    rid: Seq<char>,
    lines: Seq<(SourceKind, Seq<char>)>,
    success: bool,
    code: Option<int>,
)
    ensures
        success || lines.len() > 0 ==> lines_of(run_events(rid, lines, success, code)) == lines,
        !success && lines.len() == 0 ==> lines_of(run_events(rid, lines, success, code))
            == seq![(SourceKind::Stderr, diag_text(code))],
{
    let evs = run_events(rid, lines, success, code);
    let start = seq![EventView::Start { rid }];
    let mid = line_events(rid, lines);
    let tail = crate::events::tail_events(rid, lines.len() > 0, success, code);
    lemma_lines_of_add(start, mid + tail);
    lemma_lines_of_add(mid, tail);
    assert(evs =~= start + (mid + tail));
    assert(lines_of(Seq::<EventView>::empty()) == Seq::<(SourceKind, Seq<char>)>::empty());
    assert(start.drop_first() =~= Seq::<EventView>::empty());
    assert(lines_of(start) =~= Seq::<(SourceKind, Seq<char>)>::empty());
    lemma_lines_of_line_events(rid, lines);
    if !success && lines.len() == 0 {
        let end = seq![EventView::End { rid, success }];
        assert(end.drop_first() =~= Seq::<EventView>::empty());
        assert(lines_of(end) =~= Seq::<(SourceKind, Seq<char>)>::empty());
        assert(tail.drop_first() =~= end);
        assert(lines_of(tail) =~= seq![(SourceKind::Stderr, diag_text(code))]);
        assert(lines_of(evs) =~= seq![(SourceKind::Stderr, diag_text(code))]);
    } else {
        assert(tail.drop_first() =~= Seq::<EventView>::empty());
        assert(lines_of(tail) =~= Seq::<(SourceKind, Seq<char>)>::empty());
        assert(lines_of(evs) =~= lines);
    }
}

/// Per-stream relative order is preserved: for either stream, the texts of
/// that stream's `Line` events, in emission order, are exactly the texts
/// that stream produced, in production order.
pub proof fn lemma_per_stream_order(
    rid: Seq<char>,
    lines: Seq<(SourceKind, Seq<char>)>,
    success: bool,
    code: Option<int>,
    k: SourceKind,
)
    requires
        success || lines.len() > 0,
    ensures
        stream_texts(lines_of(run_events(rid, lines, success, code)), k) == stream_texts(
            lines,
            k,
        ),
{
    lemma_every_line_exactly_once(rid, lines, success, code);
}

/// Every event of a run carries that run's correlation id.
pub proof fn lemma_run_events_routed(
    rid: Seq<char>,
    lines: Seq<(SourceKind, Seq<char>)>,
    success: bool,
    code: Option<int>,
)
    ensures
        all_routed(run_events(rid, lines, success, code), rid),
{
    let evs = run_events(rid, lines, success, code);
    assert forall|i: int| 0 <= i < evs.len() implies event_rid(#[trigger] evs[i]) == rid by {
        if 1 <= i <= lines.len() {
            assert(evs[i] == line_events(rid, lines)[i - 1]);
        }
    }
}

/// Two concurrent runs with different correlation ids never corrupt each
/// other: in any interleaving of their two sequences, the events routed by
/// either id are exactly that run's own sequence, unchanged — no event of
/// the other run ever appears between its `Start` and `End`.
pub proof fn lemma_no_cross_run_interleaving(
    s: Seq<EventView>,
    a: Seq<EventView>,
    b: Seq<EventView>,
    rid_a: Seq<char>,
    rid_b: Seq<char>,
)
    requires
        is_interleaving(s, a, b),
        all_routed(a, rid_a),
        all_routed(b, rid_b),
        rid_a != rid_b,
    ensures
        events_for(s, rid_a) == a,
        events_for(s, rid_b) == b,
    decreases s.len(),
{
    if s.len() == 0 {
        assert(events_for(s, rid_a) =~= a);
        assert(events_for(s, rid_b) =~= b);
    } else if a.len() > 0 && s.first() == a.first() && is_interleaving(
        s.drop_first(),
        a.drop_first(),
        b,
    ) {
        assert(event_rid(a[0]) == rid_a);
        assert forall|i: int| 0 <= i < a.drop_first().len() implies event_rid(
            #[trigger] a.drop_first()[i],
        ) == rid_a by {
            assert(a.drop_first()[i] == a[i + 1]);
        }
        lemma_no_cross_run_interleaving(s.drop_first(), a.drop_first(), b, rid_a, rid_b);
        assert(events_for(s, rid_a) =~= a);
        assert(events_for(s, rid_b) =~= b);
    } else {
        assert(b.len() > 0 && s.first() == b.first() && is_interleaving(
            s.drop_first(),
            a,
            b.drop_first(),
        ));
        assert(event_rid(b[0]) == rid_b);
        assert forall|i: int| 0 <= i < b.drop_first().len() implies event_rid(
            #[trigger] b.drop_first()[i],
        ) == rid_b by {
            assert(b.drop_first()[i] == b[i + 1]);
        }
        lemma_no_cross_run_interleaving(s.drop_first(), a, b.drop_first(), rid_a, rid_b);
        assert(events_for(s, rid_a) =~= a);
        assert(events_for(s, rid_b) =~= b);
    }
}

} // verus!
