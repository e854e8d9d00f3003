//! One invocation as a state machine over the worker's event feed: each
//! event is a line, the termination of the worker, or a failure of the feed.

use crate::classify::{
    classification, classify, is_noise, progress_in, Classified, ClassifiedView, RawLine,
    RawLineView, StreamSource,
};
use crate::json::json_reading;
use crate::outcome::{
    debug_quoted, error_in, exit_text, failure_note, outcome_of, synthesize, transport_failure,
    AnalysisOutcome, OutcomeView,
};
use crate::payload::{Progress, ProgressView};
use crate::model::{some_view, views};
use crate::text::joined;
use vstd::prelude::*;

verus! {

/// One event of the worker's feed.
#[derive(Debug, Clone, PartialEq, Eq)]
pub enum WorkerEvent {
    /// The worker wrote a line.
    Line(RawLine),
    /// The worker ended, with its exit status where it has one.
    Terminated(Option<i32>),
    /// The feed itself reported an error.
    Failed(String),
}

/// The mathematical value of a [`WorkerEvent`].
pub ghost enum EventView {
    Line(RawLineView),
    Terminated(Option<i32>),
    Failed(Seq<char>),
}

impl View for WorkerEvent {
    type V = EventView;

    open spec fn view(&self) -> EventView {
        match self {
            WorkerEvent::Line(l) => EventView::Line(l@),
            WorkerEvent::Terminated(code) => EventView::Terminated(*code),
            WorkerEvent::Failed(d) => EventView::Failed(d@),
        }
    }
}

impl EventView {
    /// A terminal event ends the invocation: every event but a line.
    pub open spec fn is_terminal(self) -> bool {
        !(self is Line)
    }
}

/// What an invocation has gathered so far: the output channel's payload and
/// the diagnostics that were kept, in the order of arrival.
#[derive(Debug, Clone, PartialEq, Eq)]
pub struct Session {
    pub raw_output: String,
    pub diagnostics: Vec<String>,
}

/// The mathematical value of a [`Session`].
pub ghost struct SessionView {
    pub raw_output: Seq<char>,
    pub diagnostics: Seq<Seq<char>>,
}

impl View for Session {
    type V = SessionView;

    open spec fn view(&self) -> SessionView {
        SessionView { raw_output: self.raw_output@, diagnostics: views(self.diagnostics@) }
    }
}

/// What one event leads to.
#[derive(Debug, Clone, PartialEq, Eq)]
pub enum Step {
    /// The invocation goes on; a progress event is to be relayed now.
    Continue { session: Session, progress: Option<Progress> },
    /// The invocation is over.
    Done(AnalysisOutcome),
}

/// The mathematical value of a [`Step`].
pub ghost enum StepView {
    Continue { session: SessionView, progress: Option<ProgressView> },
    Done(OutcomeView),
}

impl View for Step {
    type V = StepView;

    open spec fn view(&self) -> StepView {
        match self {
            Step::Continue { session, progress } => StepView::Continue {
                session: session@,
                progress: some_view(*progress),
            },
            Step::Done(outcome) => StepView::Done(outcome@),
        }
    }
}

/// The progress events that were relayed, in order, and the outcome.
#[derive(Debug, Clone, PartialEq, Eq)]
pub struct Transcript {
    pub relay: Vec<Progress>,
    pub outcome: AnalysisOutcome,
}

/// The mathematical value of a [`Transcript`].
pub ghost struct TranscriptView {
    pub relay: Seq<ProgressView>,
    pub outcome: OutcomeView,
}

impl View for Transcript {
    type V = TranscriptView;

    open spec fn view(&self) -> TranscriptView {
        TranscriptView { relay: views(self.relay@), outcome: self.outcome@ }
    }
}

/// The progress event that a line carries.
pub open spec fn relayed(line: RawLineView) -> Option<ProgressView> {
    progress_in(json_reading(line.text))
}

/// The diagnostic that a line leaves: its text, where it came on the
/// diagnostic channel and is neither a progress event nor noise.
pub open spec fn kept(line: RawLineView) -> Option<Seq<char>> {
    if line.source == StreamSource::Stderr && relayed(line) is None && !is_noise(line.text) {
        Some(line.text)
    } else {
        None
    }
}

/// The piece of payload that a line adds: its text and a line feed, where it
/// came on the output channel and is no progress event.
pub open spec fn piece(line: RawLineView) -> Option<Seq<char>> {
    if line.source == StreamSource::Stdout && relayed(line) is None {
        Some(line.text + "\n"@)
    } else {
        None
    }
}

/// The progress events of some lines, in the order of the lines.
pub open spec fn relay_of(lines: Seq<RawLineView>) -> Seq<ProgressView> {
    lines.filter_map(|l: RawLineView| relayed(l))
}

/// The diagnostics of some lines, in the order of the lines.
pub open spec fn diagnostics_of(lines: Seq<RawLineView>) -> Seq<Seq<char>> {
    lines.filter_map(|l: RawLineView| kept(l))
}

/// The payload of some lines: their pieces, one after the other.
pub open spec fn raw_output_of(lines: Seq<RawLineView>) -> Seq<char> {
    lines.filter_map(|l: RawLineView| piece(l)).flatten()
}

/// The description of a failure of the feed.
pub open spec fn feed_failure(description: Seq<char>) -> Seq<char> {
    failure_note("Command error"@, description)
}

impl SessionView {
    /// The session before any event.
    pub open spec fn fresh() -> SessionView {
        SessionView { raw_output: Seq::empty(), diagnostics: Seq::empty() }
    }

    /// The session that has taken in exactly `lines`.
    pub open spec fn after(lines: Seq<RawLineView>) -> SessionView {
        SessionView { raw_output: raw_output_of(lines), diagnostics: diagnostics_of(lines) }
    }

    /// The session with one classified line taken in.
    pub open spec fn record(self, class: ClassifiedView) -> SessionView {
        match class {
            ClassifiedView::Progress(_) => self,
            ClassifiedView::Noise => self,
            ClassifiedView::Diagnostic(text) => SessionView {
                raw_output: self.raw_output,
                diagnostics: self.diagnostics.push(text),
            },
            ClassifiedView::RawOutput(text) => SessionView {
                raw_output: self.raw_output + text + "\n"@,
                diagnostics: self.diagnostics,
            },
        }
    }

    /// The outcome when the worker ends with `code` now.
    pub open spec fn conclude(self, code: Option<i32>) -> OutcomeView {
        outcome_of(
            code,
            self.diagnostics,
            json_reading(self.raw_output),
            debug_quoted(self.raw_output),
        )
    }

    /// What an event leads to: a line is taken in and the invocation goes on;
    /// a termination or a failure of the feed ends it.
    pub open spec fn step(self, event: EventView) -> StepView {
        match event {
            EventView::Line(line) => StepView::Continue {
                session: self.record(classification(line, json_reading(line.text))),
                progress: relayed(line),
            },
            EventView::Terminated(code) => StepView::Done(self.conclude(code)),
            EventView::Failed(description) => StepView::Done(
                OutcomeView::TransportFailure(feed_failure(description)),
            ),
        }
    }
}

/// The feed ends at `n`: the events before `n` are lines, and the event at
/// `n` is the first terminal one, or `n` is the length of a feed without one.
pub open spec fn ends_at(events: Seq<EventView>, n: int) -> bool {
    &&& 0 <= n <= events.len()
    &&& forall|i: int| 0 <= i < n ==> (#[trigger] events[i]) is Line
    &&& n < events.len() ==> events[n].is_terminal()
}

/// Where the feed ends.
pub open spec fn ending(events: Seq<EventView>) -> int {
    choose|n: int| ends_at(events, n)
}

/// The first `n` events as lines.
pub open spec fn lines_before(events: Seq<EventView>, n: int) -> Seq<RawLineView> {
    Seq::new(n as nat, |i: int| events[i]->Line_0)
}

/// What an invocation makes of a feed. The lines before the end are taken
/// in; their progress events are relayed in order; the first terminal event
/// decides the outcome, and a feed that stops without one is a termination
/// without exit status. Events after the end are never looked at.
pub open spec fn transcript(events: Seq<EventView>) -> TranscriptView {
    let n = ending(events);
    let lines = lines_before(events, n);
    let session = SessionView::after(lines);
    TranscriptView {
        relay: relay_of(lines),
        outcome: if n < events.len() {
            match events[n] {
                EventView::Failed(description) => OutcomeView::TransportFailure(
                    feed_failure(description),
                ),
                EventView::Terminated(code) => session.conclude(code),
                EventView::Line(_) => session.conclude(None),
            }
        } else {
            session.conclude(None)
        },
    }
}

/// A feed has one end.
pub proof fn lemma_ending(events: Seq<EventView>, n: int)
    requires
        ends_at(events, n),
    ensures
        ending(events) == n,
{
    let m = ending(events);
    assert(ends_at(events, m));
    if m < n {
        assert(events[m] is Line);
    } else if n < m {
        assert(events[n] is Line);
    }
}

/// Every feed has an end.
pub proof fn lemma_feed_ends(events: Seq<EventView>)
    ensures
        ends_at(events, ending(events)),
{
    lemma_end_from(events, 0);
}

proof fn lemma_end_from(events: Seq<EventView>, k: int)
    requires
        0 <= k <= events.len(),
        forall|i: int| 0 <= i < k ==> (#[trigger] events[i]) is Line,
    ensures
        exists|n: int| ends_at(events, n),
    decreases events.len() - k,
{
    if k == events.len() || events[k].is_terminal() {
        assert(ends_at(events, k));
    } else {
        lemma_end_from(events, k + 1);
    }
}

/// Taking in one more line adds what the line carries, at the end.
pub proof fn lemma_one_more_line(lines: Seq<RawLineView>, line: RawLineView)
    ensures
        relay_of(lines.push(line)) == relay_of(lines) + match relayed(line) {
            Some(p) => seq![p],
            None => Seq::empty(),
        },
        SessionView::after(lines.push(line)) == SessionView::after(lines).record(
            classification(line, json_reading(line.text)),
        ),
{
    let more = lines.push(line);
    assert(more.drop_last() =~= lines);
    assert(more.last() == line);
    let relays = |l: RawLineView| relayed(l);
    let keeps = |l: RawLineView| kept(l);
    let pieces = |l: RawLineView| piece(l);
    assert(relay_of(more) =~= relay_of(lines) + match relayed(line) {
        Some(p) => seq![p],
        None => Seq::empty(),
    });
    match kept(line) {
        Some(t) => {
            assert(more.filter_map(keeps) =~= lines.filter_map(keeps).push(t));
        },
        None => {},
    }
    match piece(line) {
        Some(t) => {
            let before = lines.filter_map(pieces);
            assert(more.filter_map(pieces) =~= before.push(t));
            before.lemma_flatten_push(t);
            assert(before.flatten() + (line.text + "\n"@) =~= before.flatten() + line.text + "\n"@);
        },
        None => {},
    }
}

impl Session {
    /// A session that has seen no event.
    pub fn new() -> (s: Session)
        ensures
            s@ == SessionView::fresh(),
    {
        let s = Session { raw_output: String::new(), diagnostics: Vec::new() };
        assert(views(s.diagnostics@) =~= Seq::empty());
        s
    }

    /// Takes in one classified line; the progress event to relay comes back.
    pub fn record(self, class: Classified) -> (r: (Session, Option<Progress>))
        ensures
            r.0@ == self@.record(class@),
            some_view(r.1) == match class@ {
                ClassifiedView::Progress(p) => Some(p),
                _ => None,
            },
    {
        let mut session = self;
        match class {
            Classified::Progress(p) => (session, Some(p)),
            Classified::Noise => (session, None),
            Classified::Diagnostic(text) => {
                session.diagnostics.push(text);
                assert(views(session.diagnostics@) =~= views(self.diagnostics@).push(text@));
                (session, None)
            },
            Classified::RawOutput(text) => {
                session.raw_output.append(text.as_str());
                session.raw_output.append("\n");
                (session, None)
            },
        }
    }

    /// The outcome when the worker ends with `code` now.
    pub fn conclude(self, code: Option<i32>) -> (o: AnalysisOutcome)
        ensures
            o@ == self@.conclude(code),
    {
        synthesize(code, &self.diagnostics, self.raw_output.as_str())
    }

    /// Handles one event of the feed.
    pub fn step(self, event: WorkerEvent) -> (r: Step)
        ensures
            r@ == self@.step(event@),
            r is Done <==> event@.is_terminal(),
    {
        match event {
            WorkerEvent::Line(line) => {
                let class = classify(line);
                let (session, progress) = self.record(class);
                Step::Continue { session, progress }
            },
            WorkerEvent::Terminated(code) => Step::Done(self.conclude(code)),
            WorkerEvent::Failed(description) => Step::Done(
                transport_failure("Command error", description.as_str()),
            ),
        }
    }
}

impl WorkerEvent {
    /// A copy of this event.
    pub fn duplicate(&self) -> (r: WorkerEvent)
        ensures
            r@ == self@,
    {
        match self {
            WorkerEvent::Line(line) => WorkerEvent::Line(
                RawLine { source: line.source, text: line.text.clone() },
            ),
            WorkerEvent::Terminated(code) => WorkerEvent::Terminated(*code),
            WorkerEvent::Failed(description) => WorkerEvent::Failed(description.clone()),
        }
    }
}

/// Runs one invocation over a recorded feed, from a fresh session to the
/// outcome.
pub fn replay(events: &Vec<WorkerEvent>) -> (t: Transcript)
    ensures
        t@ == transcript(views(events@)),
{
    let ghost feed = views(events@);
    let mut session = Session::new();
    let mut relay: Vec<Progress> = Vec::new();
    let mut i: usize = 0;
    proof {
        assert(lines_before(feed, 0) =~= Seq::empty());
        assert(views(relay@) =~= relay_of(lines_before(feed, 0)));
        assert(Seq::<Seq<char>>::empty().flatten() =~= Seq::empty());
    }
    while i < events.len()
        invariant
            i <= events.len(),
            feed == views(events@),
            forall|k: int| 0 <= k < i ==> (#[trigger] feed[k]) is Line,
            session@ == SessionView::after(lines_before(feed, i as int)),
            views(relay@) == relay_of(lines_before(feed, i as int)),
        decreases events.len() - i,
    {
        let event = events[i].duplicate();
        let ghost lines = lines_before(feed, i as int);
        match session.step(event) {
            Step::Done(outcome) => {
                proof {
                    lemma_ending(feed, i as int);
                }
                return Transcript { relay, outcome };
            },
            Step::Continue { session: next, progress } => {
                proof {
                    let line = feed[i as int]->Line_0;
                    assert(lines_before(feed, i + 1) =~= lines.push(line));
                    lemma_one_more_line(lines, line);
                }
                session = next;
                let ghost before = views(relay@);
                if let Some(p) = progress {
                    relay.push(p);
                    assert(views(relay@) =~= before + seq![p@]);
                } else {
                    assert(views(relay@) =~= before + Seq::<ProgressView>::empty());
                }
            },
        }
        i += 1;
    }
    proof {
        lemma_ending(feed, i as int);
    }
    let outcome = session.conclude(None);
    Transcript { relay, outcome }
}

/// The lines that leave a diagnostic.
pub open spec fn leaves_diagnostic(line: RawLineView) -> bool {
    line.source == StreamSource::Stderr && relayed(line) is None && !is_noise(line.text)
}

/// An outcome is produced by a terminal event and by no other.
pub proof fn law_outcome_only_at_the_end(session: SessionView, event: EventView)
    ensures
        session.step(event) is Done <==> event.is_terminal(),
{
}

/// An invocation has one outcome: once a terminal event has come, whatever
/// follows it in the feed changes neither the outcome nor what was relayed.
pub proof fn law_nothing_after_the_end(events: Seq<EventView>, more: Seq<EventView>)
    requires
        ending(events) < events.len(),
    ensures
        transcript(events + more) == transcript(events),
{
    let n = ending(events);
    let longer = events + more;
    lemma_feed_ends(events);
    assert forall|i: int| 0 <= i < n implies (#[trigger] longer[i]) is Line by {
        assert(longer[i] == events[i]);
    }
    assert(longer[n] == events[n]);
    lemma_ending(longer, n);
    assert(lines_before(longer, n) =~= lines_before(events, n));
}

/// When the worker terminates, the outcome is synthesized from the exit
/// status and from what the lines before the end left: their diagnostics and
/// their payload, read as a whole.
pub proof fn law_termination_decides(events: Seq<EventView>, n: int, code: Option<i32>)
    requires
        ends_at(events, n),
        n < events.len(),
        events[n] == EventView::Terminated(code),
    ensures
        transcript(events).outcome == outcome_of(
            code,
            diagnostics_of(lines_before(events, n)),
            json_reading(raw_output_of(lines_before(events, n))),
            debug_quoted(raw_output_of(lines_before(events, n))),
        ),
{
    lemma_ending(events, n);
}

/// When the feed itself fails, the outcome is a transport failure that
/// carries the feed's description, whatever the lines before it held.
pub proof fn law_feed_failure_decides(events: Seq<EventView>, n: int, description: Seq<char>)
    requires
        ends_at(events, n),
        n < events.len(),
        events[n] == EventView::Failed(description),
    ensures
        transcript(events).outcome == OutcomeView::TransportFailure(feed_failure(description)),
{
    lemma_ending(events, n);
}

/// The relay holds the progress events of the lines before the end, each
/// once and in the order of the lines, and nothing of what follows the end.
pub proof fn law_relay_follows_the_lines(events: Seq<EventView>, n: int)
    requires
        ends_at(events, n),
    ensures
        transcript(events).relay == lines_before(events, n).filter_map(
            |l: RawLineView| relayed(l),
        ),
        n == 0 ==> transcript(events).relay.len() == 0,
{
    lemma_ending(events, n);
    if n == 0 {
        assert(lines_before(events, 0) =~= Seq::empty());
    }
}

/// The diagnostics are the texts of the lines of the diagnostic channel that
/// are neither progress events nor noise, in the order of the lines.
pub proof fn law_diagnostics_are_filtered(lines: Seq<RawLineView>)
    ensures
        diagnostics_of(lines) == lines.filter(|l: RawLineView| leaves_diagnostic(l)).map_values(
            |l: RawLineView| l.text,
        ),
    decreases lines.len(),
{
    reveal(Seq::filter);
    let keeps = |l: RawLineView| kept(l);
    let leaves = |l: RawLineView| leaves_diagnostic(l);
    let text = |l: RawLineView| l.text;
    if lines.len() > 0 {
        law_diagnostics_are_filtered(lines.drop_last());
        let before = lines.drop_last().filter(leaves);
        if leaves_diagnostic(lines.last()) {
            assert(before.push(lines.last()).map_values(text) =~= before.map_values(text).push(
                lines.last().text,
            ));
        }
    }
    assert(lines.filter_map(keeps) =~= lines.filter(leaves).map_values(text));
}

/// Lines that leave no diagnostic leave none together.
pub proof fn lemma_no_diagnostics(lines: Seq<RawLineView>)
    requires
        forall|i: int| 0 <= i < lines.len() ==> !leaves_diagnostic(#[trigger] lines[i]),
    ensures
        diagnostics_of(lines) == Seq::<Seq<char>>::empty(),
    decreases lines.len(),
{
    if lines.len() > 0 {
        lemma_no_diagnostics(lines.drop_last());
    }
    assert(diagnostics_of(lines) =~= Seq::<Seq<char>>::empty());
}

/// When the worker ends with a status other than zero and its output holds
/// no error object, the outcome is a process failure that carries the
/// diagnostics of the lines before the end, joined by line feeds in the order
/// of arrival, where that text is not empty.
pub proof fn law_failure_carries_diagnostics(events: Seq<EventView>, n: int, code: Option<i32>)
    requires
        ends_at(events, n),
        n < events.len(),
        events[n] == EventView::Terminated(code),
        code != Some(0i32),
        error_in(json_reading(raw_output_of(lines_before(events, n)))) is None,
        joined(diagnostics_of(lines_before(events, n)), "\n"@).len() > 0,
    ensures
        transcript(events).outcome == (OutcomeView::ProcessFailure {
            code,
            text: joined(
                lines_before(events, n).filter(
                    |l: RawLineView| leaves_diagnostic(l),
                ).map_values(|l: RawLineView| l.text),
                "\n"@,
            ),
        }),
{
    lemma_ending(events, n);
    law_diagnostics_are_filtered(lines_before(events, n));
}

/// When the worker ends with a status other than zero, its output holds no
/// error object, and every line of the diagnostic channel is a progress
/// event or noise, the outcome is a process failure whose text names the
/// exit status.
pub proof fn law_failure_of_noise_names_status(
    events: Seq<EventView>,
    n: int,
    code: Option<i32>,
)
    requires
        ends_at(events, n),
        n < events.len(),
        events[n] == EventView::Terminated(code),
        code != Some(0i32),
        error_in(json_reading(raw_output_of(lines_before(events, n)))) is None,
        forall|i: int|
            0 <= i < n && (#[trigger] events[i])->Line_0.source == StreamSource::Stderr
                ==> relayed(events[i]->Line_0) is Some || is_noise(events[i]->Line_0.text),
    ensures
        transcript(events).outcome == (OutcomeView::ProcessFailure {
            code,
            text: "Process failed with exit code: "@ + exit_text(code),
        }),
{
    lemma_ending(events, n);
    let lines = lines_before(events, n);
    assert forall|i: int| 0 <= i < lines.len() implies !leaves_diagnostic(#[trigger] lines[i]) by {
        assert(lines[i] == events[i]->Line_0);
    }
    lemma_no_diagnostics(lines);
    assert(joined(Seq::<Seq<char>>::empty(), "\n"@) =~= Seq::<char>::empty());
}

} // verus!
