//! Incremental event publisher for one run: it hands out the events to emit
//! one at a time, in protocol order, and its ghost log ties the full drive to
//! the canonical sequence `run_events` of the model.

use vstd::prelude::*;

use crate::events::EventView;
use crate::events::SourceKind;
use crate::events::StreamEvent;
use crate::events::code_view;
use crate::events::diag_line_text;
use crate::events::line_events;
use crate::events::run_events;
use crate::events::tail_events;

verus! {

/// Publisher for one run's event sequence. `new` then `start` open the
/// sequence; each captured line goes through `line` as it arrives; `finish`
/// closes the sequence once the process has exited and both streams are
/// drained. The ghost fields record every event handed out and every line
/// seen, so the contracts can speak of the whole sequence.
pub struct Publisher {
    request_id: String,
    started: bool,
    ended: bool,
    had_output: bool,
    log: Ghost<Seq<EventView>>,
    lines: Ghost<Seq<(SourceKind, Seq<char>)>>,
}

impl Publisher {
    /// The correlation id every event of this run carries.
    pub closed spec fn rid(&self) -> Seq<char> {
        self.request_id@
    }

    /// All events handed out so far, in order.
    pub closed spec fn log(&self) -> Seq<EventView> {
        self.log@
    }

    /// All lines pushed so far, in order, each with its source.
    pub closed spec fn lines(&self) -> Seq<(SourceKind, Seq<char>)> {
        self.lines@
    }

    /// Whether `start` has been called.
    pub closed spec fn is_started(&self) -> bool {
        self.started
    }

    /// Whether `finish` has been called.
    pub closed spec fn is_ended(&self) -> bool {
        self.ended
    }

    /// A `Line` event never precedes `Start` or follows `End`, and the log
    /// is always the prefix of the canonical sequence that the run has
    /// reached: nothing before `start`, then `Start` followed by one `Line`
    /// event per captured line.
    pub closed spec fn wf(&self) -> bool {
        &&& self.had_output == (self.lines@.len() > 0)
        &&& !self.started ==> !self.ended && self.log@ =~= Seq::<EventView>::empty()
            && self.lines@ =~= Seq::<(SourceKind, Seq<char>)>::empty()
        &&& self.started && !self.ended ==> self.log@ =~= seq![
            EventView::Start { rid: self.request_id@ },
        ] + line_events(self.request_id@, self.lines@)
    }

    /// Makes the publisher for one run; no event is emitted yet.
    pub fn new(request_id: String) -> (p: Publisher)
        ensures
            p.wf(),
            !p.is_started(),
            !p.is_ended(),
            p.rid() == request_id@,
            p.log() == Seq::<EventView>::empty(),
            p.lines() == Seq::<(SourceKind, Seq<char>)>::empty(),
    {
        Publisher {
            request_id,
            started: false,
            ended: false,
            had_output: false,
            log: Ghost(Seq::empty()),
            lines: Ghost(Seq::empty()),
        }
    }

    /// Opens the sequence: returns the `Start` event, to be emitted before
    /// any line is read.
    pub fn start(&mut self) -> (e: StreamEvent)
        requires
            old(self).wf(),
            !old(self).is_started(),
        ensures
            final(self).wf(),
            final(self).is_started(),
            !final(self).is_ended(),
            final(self).rid() == old(self).rid(),
            final(self).lines() == Seq::<(SourceKind, Seq<char>)>::empty(),
            e@ == (EventView::Start { rid: old(self).rid() }),
            final(self).log() == seq![e@],
    {
        self.started = true;
        let e = StreamEvent::Start { request_id: self.request_id.clone() };
        proof {
            self.log@ = self.log@.push(e@);
            assert(final(self).log@ =~= seq![EventView::Start { rid: self.request_id@ }]
                + line_events(self.request_id@, self.lines@));
        }
        e
    }

    /// Reports one captured line: returns the `Line` event to emit for it.
    pub fn line(&mut self, source: SourceKind, text: String) -> (e: StreamEvent)
        requires
            old(self).wf(),
            old(self).is_started(),
            !old(self).is_ended(),
        ensures
            final(self).wf(),
            final(self).is_started(),
            !final(self).is_ended(),
            final(self).rid() == old(self).rid(),
            final(self).lines() == old(self).lines().push((source, text@)),
            e@ == (EventView::Line { rid: old(self).rid(), source, text: text@ }),
            final(self).log() == old(self).log().push(e@),
    {
        self.had_output = true;
        let e = StreamEvent::Line {
            request_id: self.request_id.clone(),
            source,
            text,
        };
        proof {
            self.log@ = self.log@.push(e@);
            self.lines@ = self.lines@.push((source, e@->Line_text));
            assert(final(self).log@ =~= seq![EventView::Start { rid: self.request_id@ }]
                + line_events(self.request_id@, final(self).lines@));
        }
        e
    }

    /// Closes the sequence once the process has exited with the given
    /// status and both streams are drained: returns the remaining events to
    /// emit, in order — the synthetic diagnostic line if the run failed
    /// without any output, then `End` whose success flag reflects the exit
    /// status only.
    pub fn finish(&mut self, success: bool, exit_code: Option<i32>) -> (evs: Vec<StreamEvent>)
        requires
            old(self).wf(),
            old(self).is_started(),
            !old(self).is_ended(),
        ensures
            final(self).wf(),
            final(self).is_ended(),
            final(self).rid() == old(self).rid(),
            final(self).lines() == old(self).lines(),
            evs@.map_values(|e: StreamEvent| e@) == tail_events(
                old(self).rid(),
                old(self).lines().len() > 0,
                success,
                code_view(exit_code),
            ),
            final(self).log() == old(self).log() + evs@.map_values(|e: StreamEvent| e@),
            final(self).log() == run_events(
                old(self).rid(),
                old(self).lines(),
                success,
                code_view(exit_code),
            ),
    {
        self.ended = true;
        let mut evs: Vec<StreamEvent> = Vec::new();
        if !success && !self.had_output {
            let diag = StreamEvent::Line {
                request_id: self.request_id.clone(),
                source: SourceKind::Stderr,
                text: diag_line_text(exit_code),
            };
            evs.push(diag);
        }
        let end = StreamEvent::End { request_id: self.request_id.clone(), success };
        evs.push(end);
        proof {
            let ghost tail = tail_events(
                self.request_id@,
                self.lines@.len() > 0,
                success,
                code_view(exit_code),
            );
            assert(evs@.map_values(|e: StreamEvent| e@) =~= tail);
            self.log@ = self.log@ + tail;
            assert(final(self).log@ =~= run_events(
                self.request_id@,
                self.lines@,
                success,
                code_view(exit_code),
            ));
        }
        evs
    }
}

} // verus!
