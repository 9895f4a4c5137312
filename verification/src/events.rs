//! The streaming event protocol: one run of the external process is reported
//! to the subscriber as `Start`, one `Line` event per captured output line,
//! and a final `End` carrying the success flag. The model here fixes the
//! exact sequence a run produces, including the synthetic diagnostic line a
//! silent failing process gets.

use vstd::prelude::*;

use crate::types::BrewLogEvent;

verus! {

/// Which of the child process's two output streams a line came from.
#[derive(Clone, Copy, PartialEq, Eq, Structural, Debug)]
pub enum SourceKind {
    Stdout,
    Stderr,
}

/// Mathematical form of one emitted event.
pub enum EventView {
    Start { rid: Seq<char> },
    Line { rid: Seq<char>, source: SourceKind, text: Seq<char> },
    End { rid: Seq<char>, success: bool },
}

/// One emitted event: exactly one `Start` and one `End` bracket a run, with
/// zero or more `Line` events between them.
pub enum StreamEvent {
    Start { request_id: String },
    Line { request_id: String, source: SourceKind, text: String },
    End { request_id: String, success: bool },
}

impl View for StreamEvent {
    type V = EventView;

    open spec fn view(&self) -> EventView {
        match self {
            StreamEvent::Start { request_id } => EventView::Start { rid: request_id@ },
            StreamEvent::Line { request_id, source, text } => EventView::Line {
                rid: request_id@,
                source: *source,
                text: text@,
            },
            StreamEvent::End { request_id, success } => EventView::End {
                rid: request_id@,
                success: *success,
            },
        }
    }
}

/// The correlation id an event is routed by.
pub open spec fn event_rid(e: EventView) -> Seq<char> {
    match e {
        EventView::Start { rid } => rid,
        EventView::Line { rid, source, text } => rid,
        EventView::End { rid, success } => rid,
    }
}

/// Decimal digit characters.
pub open spec fn dec_digit(d: nat) -> char {
    if d == 0 { '0' }
    else if d == 1 { '1' }
    else if d == 2 { '2' }
    else if d == 3 { '3' }
    else if d == 4 { '4' }
    else if d == 5 { '5' }
    else if d == 6 { '6' }
    else if d == 7 { '7' }
    else if d == 8 { '8' }
    else { '9' }
}

/// Decimal rendering of a non-negative integer, most significant digit
/// first, with no leading zeros (a lone `0` for zero).
pub open spec fn dec_str(n: nat) -> Seq<char>
    decreases n,
{
    if n < 10 {
        seq![dec_digit(n)]
    } else {
        dec_str(n / 10).push(dec_digit(n % 10))
    }
}

/// Decimal rendering of an integer, with a leading minus sign when negative.
pub open spec fn int_dec_str(n: int) -> Seq<char> {
    if n < 0 {
        seq!['-'] + dec_str((-n) as nat)
    } else {
        dec_str(n as nat)
    }
}

/// An exit code as reported by the OS, lifted to the mathematical integers;
/// `None` when the process was terminated without a code (e.g. by a signal).
pub open spec fn code_view(code: Option<i32>) -> Option<int> {
    match code {
        Some(c) => Some(c as int),
        None => None,
    }
}

/// Text of the synthetic diagnostic line a failing, silent run is given, so
/// the subscriber is never left with a failure and no explanation.
pub open spec fn diag_text(code: Option<int>) -> Seq<char> {
    "命令退出但没有输出（exit code: "@ + (match code {
        Some(c) => int_dec_str(c),
        None => "unknown"@,
    }) + "）"@
}

/// The `Line` events a run with the given captured lines produces, in
/// arrival order.
pub open spec fn line_events(rid: Seq<char>, lines: Seq<(SourceKind, Seq<char>)>) -> Seq<
    EventView,
> {
    lines.map_values(
        |p: (SourceKind, Seq<char>)| EventView::Line { rid: rid, source: p.0, text: p.1 },
    )
}

/// The events emitted after the process has exited and both streams are
/// drained: the synthetic diagnostic line (only for a failing run that
/// produced no output at all), then the final `End`.
pub open spec fn tail_events(
    rid: Seq<char>,
    had_output: bool,
    success: bool,
    code: Option<int>,
) -> Seq<EventView> {
    if !success && !had_output {
        seq![
            EventView::Line { rid: rid, source: SourceKind::Stderr, text: diag_text(code) },
            EventView::End { rid: rid, success: success },
        ]
    } else {
        seq![EventView::End { rid: rid, success: success }]
    }
}

/// The exact event sequence of one completed run: `Start`, the captured
/// lines in arrival order, and the tail. `success` reflects the exit status
/// only; the captured lines never influence it.
pub open spec fn run_events(
    rid: Seq<char>,
    lines: Seq<(SourceKind, Seq<char>)>,
    success: bool,
    code: Option<int>,
) -> Seq<EventView> {
    seq![EventView::Start { rid: rid }] + line_events(rid, lines) + tail_events(
        rid,
        lines.len() > 0,
        success,
        code,
    )
}

fn digit_str(d: u64) -> (r: &'static str)
    requires
        d < 10,
    ensures
        r@ == seq![dec_digit(d as nat)],
{
    let r = match d {
        0u64 => "0",
        1u64 => "1",
        2u64 => "2",
        3u64 => "3",
        4u64 => "4",
        5u64 => "5",
        6u64 => "6",
        7u64 => "7",
        8u64 => "8",
        _ => "9",
    };
    proof {
        reveal_strlit("0");
        reveal_strlit("1");
        reveal_strlit("2");
        reveal_strlit("3");
        reveal_strlit("4");
        reveal_strlit("5");
        reveal_strlit("6");
        reveal_strlit("7");
        reveal_strlit("8");
        reveal_strlit("9");
    }
    r
}

/// Renders a non-negative integer in decimal.
pub fn u64_dec(n: u64) -> (r: String)
    ensures
        r@ == dec_str(n as nat),
    decreases n,
{
    if n < 10 {
        digit_str(n).to_owned()
    } else {
        let mut s = u64_dec(n / 10);
        s.append(digit_str(n % 10));
        proof {
            assert(s@ =~= dec_str((n / 10) as nat).push(dec_digit((n % 10) as nat)));
        }
        s
    }
}

/// Renders an exit code in decimal, minus sign included.
pub fn i32_dec(n: i32) -> (r: String)
    ensures
        r@ == int_dec_str(n as int),
{
    let wide: i64 = n as i64;
    if wide >= 0 {
        u64_dec(wide as u64)
    } else {
        let mag: u64 = (-wide) as u64;
        let mut s = "-".to_owned();
        let digits = u64_dec(mag);
        s.append(digits.as_str());
        proof {
            reveal_strlit("-");
            assert(s@ =~= seq!['-'] + dec_str((-(n as int)) as nat));
        }
        s
    }
}

/// Builds the text of the synthetic diagnostic line for the given exit code.
pub fn diag_line_text(code: Option<i32>) -> (r: String)
    ensures
        r@ == diag_text(code_view(code)),
{
    let mut s = "命令退出但没有输出（exit code: ".to_owned();
    match code {
        Some(c) => {
            let digits = i32_dec(c);
            s.append(digits.as_str());
        },
        None => {
            s.append("unknown");
        },
    }
    s.append("）");
    proof {
        assert(s@ =~= diag_text(code_view(code)));
    }
    s
}

/// Short name of an output stream, as it appears on the wire.
pub open spec fn source_name(s: SourceKind) -> Seq<char> {
    match s {
        SourceKind::Stdout => "stdout"@,
        SourceKind::Stderr => "stderr"@,
    }
}

/// Renders the stream label of a `Line` event.
pub fn source_label(s: SourceKind) -> (r: &'static str)
    ensures
        r@ == source_name(s),
{
    match s {
        SourceKind::Stdout => "stdout",
        SourceKind::Stderr => "stderr",
    }
}

/// Lowers one typed event to its wire form: the stage strings `"start"`,
/// `"line"` and `"end"`, the stream label and text on line events only, and
/// the success flag on the end event only.
pub fn to_brew_log(e: &StreamEvent) -> (r: BrewLogEvent)
    ensures
        r.request_id@ == event_rid(e@),
        e@ matches EventView::Start { rid } ==> r.stage@ == "start"@ && r.stream is None
            && r.line is None && r.success is None,
        e@ matches EventView::Line { rid, source, text } ==> r.stage@ == "line"@
            && r.stream is Some && r.stream->0@ == source_name(source) && r.line is Some
            && r.line->0@ == text && r.success is None,
        e@ matches EventView::End { rid, success } ==> r.stage@ == "end"@ && r.stream is None
            && r.line is None && r.success == Some(success),
{
    match e {
        StreamEvent::Start { request_id } => BrewLogEvent {
            request_id: request_id.clone(),
            stage: "start".to_owned(),
            stream: None,
            line: None,
            success: None,
        },
        StreamEvent::Line { request_id, source, text } => BrewLogEvent {
            request_id: request_id.clone(),
            stage: "line".to_owned(),
            stream: Some(source_label(*source).to_owned()),
            line: Some(text.clone()),
            success: None,
        },
        StreamEvent::End { request_id, success } => BrewLogEvent {
            request_id: request_id.clone(),
            stage: "end".to_owned(),
            stream: None,
            line: None,
            success: Some(*success),
        },
    }
}

} // verus!
