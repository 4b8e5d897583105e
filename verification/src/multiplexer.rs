//! Merging the two output streams of a child process into one feed.
//!
//! Lines arrive from standard output and from standard error as each pipe
//! delivers them. The feed passes every line on in the order of arrival and
//! ends when both pipes have closed. A keep-alive timer ticks at a fixed
//! interval; a tick that finds no line waiting is an idle tick, and the feed
//! answers it with a keep-alive signal. The multiplexer reads no pipe and
//! runs no timer itself: it is told what happened and says what to send.

use vstd::prelude::*;

verus! {

/// Seconds between two ticks of the keep-alive timer.
pub const KEEP_ALIVE_SECS: u64 = 1;

/// One of the two pipes of the child process.
#[derive(Clone, Copy, Debug, PartialEq, Eq, Structural)]
pub enum Source {
    Stdout,
    Stderr,
}

/// What happened on the pipes.
#[derive(Clone, Debug, PartialEq, Eq)]
pub enum PipeEvent {
    /// A pipe delivered a complete line.
    Line { source: Source, text: String },
    /// A pipe reached its end, or reading or decoding it failed.
    Closed { source: Source },
    /// The keep-alive timer ticked while no line was waiting.
    Idle,
}

/// The mathematical content of a [`PipeEvent`].
pub enum PipeEventView {
    Line { source: Source, text: Seq<char> },
    Closed { source: Source },
    Idle,
}

impl View for PipeEvent {
    type V = PipeEventView;

    open spec fn view(&self) -> PipeEventView {
        match *self {
            PipeEvent::Line { source, text } => PipeEventView::Line { source, text: text@ },
            PipeEvent::Closed { source } => PipeEventView::Closed { source },
            PipeEvent::Idle => PipeEventView::Idle,
        }
    }
}

/// What the feed does in answer to an event.
#[derive(Clone, Debug, PartialEq, Eq)]
pub enum FeedAction {
    /// Send this line to the client.
    Emit { source: Source, text: String },
    /// Send a keep-alive signal.
    KeepAlive,
    /// Send nothing and go on.
    Continue,
    /// End the feed.
    Finish,
}

/// The mathematical content of a [`FeedAction`].
pub enum FeedActionView {
    Emit { source: Source, text: Seq<char> },
    KeepAlive,
    Continue,
    Finish,
}

impl View for FeedAction {
    type V = FeedActionView;

    open spec fn view(&self) -> FeedActionView {
        match *self {
            FeedAction::Emit { source, text } => FeedActionView::Emit { source, text: text@ },
            FeedAction::KeepAlive => FeedActionView::KeepAlive,
            FeedAction::Continue => FeedActionView::Continue,
            FeedAction::Finish => FeedActionView::Finish,
        }
    }
}

/// The state of the feed: which pipes still deliver.
#[derive(Clone, Copy, Debug, PartialEq, Eq, Structural)]
pub struct Multiplexer {
    pub stdout_open: bool,
    pub stderr_open: bool,
}

/// A line as the feed sends it: where it came from and what it says.
pub type Sent = (Source, Seq<char>);

impl Multiplexer {
    /// The feed at its start: both pipes open.
    pub open spec fn fresh() -> Multiplexer {
        Multiplexer { stdout_open: true, stderr_open: true }
    }

    /// Whether the pipe still delivers.
    pub open spec fn spec_is_open(&self, source: Source) -> bool {
        match source {
            Source::Stdout => self.stdout_open,
            Source::Stderr => self.stderr_open,
        }
    }

    /// Whether the feed has ended: both pipes are closed.
    pub open spec fn spec_is_finished(&self) -> bool {
        !self.stdout_open && !self.stderr_open
    }

    /// The feed with one pipe closed.
    pub open spec fn closed(self, source: Source) -> Multiplexer {
        match source {
            Source::Stdout => Multiplexer { stdout_open: false, ..self },
            Source::Stderr => Multiplexer { stderr_open: false, ..self },
        }
    }

    /// Starts a feed with both pipes open.
    pub fn new() -> (feed: Multiplexer)
        ensures
            feed == Multiplexer::fresh(),
    {
        Multiplexer { stdout_open: true, stderr_open: true }
    }

    /// Whether the pipe still delivers, so that it is worth waiting on.
    #[verifier::when_used_as_spec(spec_is_open)]
    pub fn is_open(&self, source: Source) -> (open: bool)
        ensures
            open == self.spec_is_open(source),
    {
        match source {
            Source::Stdout => self.stdout_open,
            Source::Stderr => self.stderr_open,
        }
    }

    /// Whether the feed has ended.
    #[verifier::when_used_as_spec(spec_is_finished)]
    pub fn is_finished(&self) -> (finished: bool)
        ensures
            finished == self.spec_is_finished(),
    {
        !self.stdout_open && !self.stderr_open
    }

    /// Takes in an event and says what to send.
    pub fn step(&mut self, event: PipeEvent) -> (action: FeedAction)
        ensures
            (*final(self), action@) == feed_step(*old(self), event@),
    {
        if self.is_finished() {
            return FeedAction::Finish;
        }
        match event {
            PipeEvent::Line { source, text } => {
                if self.is_open(source) {
                    FeedAction::Emit { source, text }
                } else {
                    FeedAction::Continue
                }
            },
            PipeEvent::Closed { source } => {
                match source {
                    Source::Stdout => {
                        self.stdout_open = false;
                    },
                    Source::Stderr => {
                        self.stderr_open = false;
                    },
                }
                if self.is_finished() {
                    FeedAction::Finish
                } else {
                    FeedAction::Continue
                }
            },
            PipeEvent::Idle => FeedAction::KeepAlive,
        }
    }
}

/// One step of the feed: the state it moves to and what it sends.
///
/// A line from an open pipe is sent; a line from a closed pipe is dropped.
/// A pipe that closes ends the feed if the other one is closed already. An
/// idle tick is answered with a keep-alive signal. A feed that has ended
/// stays ended.
pub open spec fn feed_step(feed: Multiplexer, event: PipeEventView) -> (
    Multiplexer,
    FeedActionView,
) {
    if feed.spec_is_finished() {
        (feed, FeedActionView::Finish)
    } else {
        match event {
            PipeEventView::Line { source, text } => if feed.spec_is_open(source) {
                (feed, FeedActionView::Emit { source, text })
            } else {
                (feed, FeedActionView::Continue)
            },
            PipeEventView::Closed { source } => {
                let next = feed.closed(source);
                if next.spec_is_finished() {
                    (next, FeedActionView::Finish)
                } else {
                    (next, FeedActionView::Continue)
                }
            },
            PipeEventView::Idle => (feed, FeedActionView::KeepAlive),
        }
    }
}

/// The state of the feed after a sequence of events.
pub open spec fn feed_state(feed: Multiplexer, events: Seq<PipeEventView>) -> Multiplexer
    decreases events.len(),
{
    if events.len() == 0 {
        feed
    } else {
        feed_state(feed_step(feed, events[0]).0, events.drop_first())
    }
}

/// The lines that the feed sends over a sequence of events, in the order in
/// which it sends them.
pub open spec fn feed_lines(feed: Multiplexer, events: Seq<PipeEventView>) -> Seq<Sent>
    decreases events.len(),
{
    if events.len() == 0 {
        Seq::empty()
    } else {
        let (next, action) = feed_step(feed, events[0]);
        let later = feed_lines(next, events.drop_first());
        match action {
            FeedActionView::Emit { source, text } => seq![(source, text)] + later,
            _ => later,
        }
    }
}

/// The number of keep-alive signals that the feed sends over a sequence of
/// events.
pub open spec fn feed_keep_alives(feed: Multiplexer, events: Seq<PipeEventView>) -> nat
    decreases events.len(),
{
    if events.len() == 0 {
        0
    } else {
        let (next, action) = feed_step(feed, events[0]);
        let later = feed_keep_alives(next, events.drop_first());
        match action {
            FeedActionView::KeepAlive => 1 + later,
            _ => later,
        }
    }
}

/// The lines that one pipe delivers before it closes, in their order.
pub open spec fn delivered_by(events: Seq<PipeEventView>, source: Source) -> Seq<Seq<char>>
    decreases events.len(),
{
    if events.len() == 0 {
        Seq::empty()
    } else {
        match events[0] {
            PipeEventView::Line { source: from, text } => if from == source {
                seq![text] + delivered_by(events.drop_first(), source)
            } else {
                delivered_by(events.drop_first(), source)
            },
            PipeEventView::Closed { source: from } => if from == source {
                Seq::empty()
            } else {
                delivered_by(events.drop_first(), source)
            },
            PipeEventView::Idle => delivered_by(events.drop_first(), source),
        }
    }
}

/// Of the lines sent, those that came from one pipe, in their order.
pub open spec fn sent_from(sent: Seq<Sent>, source: Source) -> Seq<Seq<char>>
    decreases sent.len(),
{
    if sent.len() == 0 {
        Seq::empty()
    } else if sent[0].0 == source {
        seq![sent[0].1] + sent_from(sent.drop_first(), source)
    } else {
        sent_from(sent.drop_first(), source)
    }
}

/// Whether the events tell of the pipe closing.
pub open spec fn closes(events: Seq<PipeEventView>, source: Source) -> bool {
    exists|i: int| 0 <= i < events.len() && events[i] == (PipeEventView::Closed { source })
}

/// The events without the idle ticks among them.
pub open spec fn without_idle(events: Seq<PipeEventView>) -> Seq<PipeEventView>
    decreases events.len(),
{
    if events.len() == 0 {
        Seq::empty()
    } else if events[0] is Idle {
        without_idle(events.drop_first())
    } else {
        seq![events[0]] + without_idle(events.drop_first())
    }
}

/// The number of idle ticks among the events.
pub open spec fn idle_count(events: Seq<PipeEventView>) -> nat
    decreases events.len(),
{
    if events.len() == 0 {
        0
    } else if events[0] is Idle {
        1 + idle_count(events.drop_first())
    } else {
        idle_count(events.drop_first())
    }
}

proof fn lemma_sent_from_cons(head: Sent, tail: Seq<Sent>, source: Source)
    ensures
        sent_from(seq![head] + tail, source) == if head.0 == source {
            seq![head.1] + sent_from(tail, source)
        } else {
            sent_from(tail, source)
        },
{
    let all = seq![head] + tail;
    assert(all[0] == head);
    assert(all.drop_first() =~= tail);
}

/// A feed that has ended sends nothing more and stays ended.
pub proof fn lemma_finished_feed_is_silent(feed: Multiplexer, events: Seq<PipeEventView>)
    requires
        feed.spec_is_finished(),
    ensures
        feed_state(feed, events) == feed,
        feed_lines(feed, events) == Seq::<Sent>::empty(),
        feed_keep_alives(feed, events) == 0,
    decreases events.len(),
{
    if events.len() > 0 {
        lemma_finished_feed_is_silent(feed, events.drop_first());
    }
}

/// The feed sends the lines of each pipe completely and in their order:
/// of what it sends, the part that came from a pipe is what that pipe
/// delivered before it closed. A pipe that was closed from the start
/// contributes nothing.
pub proof fn lemma_feed_keeps_each_pipe_in_order(
    feed: Multiplexer,
    events: Seq<PipeEventView>,
    source: Source,
)
    ensures
        sent_from(feed_lines(feed, events), source) == if feed.spec_is_open(source) {
            delivered_by(events, source)
        } else {
            Seq::<Seq<char>>::empty()
        },
    decreases events.len(),
{
    if events.len() == 0 {
    } else {
        let (next, action) = feed_step(feed, events[0]);
        let rest = events.drop_first();
        lemma_feed_keeps_each_pipe_in_order(next, rest, source);
        match action {
            FeedActionView::Emit { source: from, text } => {
                lemma_sent_from_cons((from, text), feed_lines(next, rest), source);
            },
            _ => {},
        }
    }
}

/// From a fresh feed, what is sent from each pipe is exactly what that pipe
/// delivered before it closed, in the same order.
pub proof fn lemma_fresh_feed_keeps_each_pipe_in_order(
    events: Seq<PipeEventView>,
    source: Source,
)
    ensures
        sent_from(feed_lines(Multiplexer::fresh(), events), source) == delivered_by(events, source),
{
    lemma_feed_keeps_each_pipe_in_order(Multiplexer::fresh(), events, source);
}

/// The feed ends exactly when each pipe that was open has closed.
pub proof fn lemma_feed_ends_when_both_closed(feed: Multiplexer, events: Seq<PipeEventView>)
    ensures
        feed_state(feed, events).spec_is_open(Source::Stdout) <==> feed.spec_is_open(
            Source::Stdout,
        ) && !closes(events, Source::Stdout),
        feed_state(feed, events).spec_is_open(Source::Stderr) <==> feed.spec_is_open(
            Source::Stderr,
        ) && !closes(events, Source::Stderr),
        feed_state(feed, events).spec_is_finished() <==> (!feed.spec_is_open(Source::Stdout)
            || closes(events, Source::Stdout)) && (!feed.spec_is_open(Source::Stderr) || closes(
            events,
            Source::Stderr,
        )),
    decreases events.len(),
{
    if events.len() == 0 {
    } else {
        let next = feed_step(feed, events[0]).0;
        let rest = events.drop_first();
        lemma_feed_ends_when_both_closed(next, rest);
        lemma_closes_unfold(events, Source::Stdout);
        lemma_closes_unfold(events, Source::Stderr);
    }
}

proof fn lemma_closes_unfold(events: Seq<PipeEventView>, source: Source)
    requires
        events.len() > 0,
    ensures
        closes(events, source) <==> events[0] == (PipeEventView::Closed { source }) || closes(
            events.drop_first(),
            source,
        ),
{
    let rest = events.drop_first();
    let target = PipeEventView::Closed { source };
    if closes(events, source) {
        let i = choose|i: int| 0 <= i < events.len() && events[i] == target;
        if i > 0 {
            assert(rest[i - 1] == target);
        }
    }
    if closes(rest, source) {
        let i = choose|i: int| 0 <= i < rest.len() && rest[i] == target;
        assert(events[i + 1] == target);
    }
}

/// An idle tick is answered with a keep-alive signal as long as the
/// feed runs; it neither ends the feed nor sends a line.
pub proof fn lemma_idle_is_answered(feed: Multiplexer)
    requires
        !feed.spec_is_finished(),
    ensures
        feed_step(feed, PipeEventView::Idle) == (feed, FeedActionView::KeepAlive),
{
}

/// Idle ticks change nothing of what the feed sends or of when it ends:
/// with them or without them the same lines go out, each once, and the feed
/// reaches the same state.
pub proof fn lemma_idle_changes_no_line(feed: Multiplexer, events: Seq<PipeEventView>)
    ensures
        feed_lines(feed, events) == feed_lines(feed, without_idle(events)),
        feed_state(feed, events) == feed_state(feed, without_idle(events)),
    decreases events.len(),
{
    if events.len() == 0 {
    } else {
        let rest = events.drop_first();
        let next = feed_step(feed, events[0]).0;
        if events[0] is Idle {
            lemma_idle_changes_no_line(feed, rest);
        } else {
            lemma_idle_changes_no_line(next, rest);
            let kept = seq![events[0]] + without_idle(rest);
            assert(kept[0] == events[0]);
            assert(kept.drop_first() =~= without_idle(rest));
        }
    }
}

/// While the feed runs, every idle tick gets its keep-alive signal: a
/// sequence of events that closes at most one of two open pipes draws as
/// many signals as it holds idle ticks.
pub proof fn lemma_every_idle_gets_keep_alive(feed: Multiplexer, events: Seq<PipeEventView>)
    requires
        !feed_state(feed, events).spec_is_finished(),
    ensures
        feed_keep_alives(feed, events) == idle_count(events),
    decreases events.len(),
{
    if events.len() == 0 {
    } else {
        let rest = events.drop_first();
        let next = feed_step(feed, events[0]).0;
        if next.spec_is_finished() {
            lemma_finished_feed_is_silent(next, rest);
        }
        lemma_every_idle_gets_keep_alive(next, rest);
    }
}

} // verus!
