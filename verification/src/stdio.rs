//! The line-delimited transport: one request per line of input, one response
//! per line of output.
//!
//! The runner reads a line, drops it if it is blank, and otherwise hands it
//! to the dispatch engine as it was read, together with the configured
//! buffer capacity. Trimming only decides whether a line is blank. The
//! engine's response is written as one line and flushed before the next line
//! is read. The notifications that the request may go on to
//! produce are forwarded beside the main loop, each as a line of its own, in
//! the order in which the engine produced them; for a request whose
//! notification source is exhausted from the start, nothing is set up.
//!
//! A failure to read, to dispatch or to write the response ends the runner
//! with that failure; end of input ends it successfully. A failure to write a
//! notification only ends the forwarding of that request's notifications.
//!
//! As in [`crate::orchestrator`], the decisions are taken here and the I/O is
//! done by a driver: [`StdioSession`] for the main loop, [`Forwarder`] for the
//! notifications of one request. Between two actions the runner is idle; the
//! phases name what it waits for while the driver works.

use crate::config::StdioConfig;
use crate::error::{TransportError, TransportErrorView};
use vstd::prelude::*;
use vstd::string::*;

verus! {

/// Whether `c` is white space: one of the characters that Unicode classes as
/// `White_Space`.
pub open spec fn is_white_space(c: char) -> bool {
    let code = c as u32;
    ||| 0x09 <= code <= 0x0D
    ||| code == 0x20
    ||| code == 0x85
    ||| code == 0xA0
    ||| code == 0x1680
    ||| 0x2000 <= code <= 0x200A
    ||| code == 0x2028
    ||| code == 0x2029
    ||| code == 0x202F
    ||| code == 0x205F
    ||| code == 0x3000
}

/// `s` without the white space at its start.
pub open spec fn trim_start(s: Seq<char>) -> Seq<char>
    decreases s.len(),
{
    if s.len() > 0 && is_white_space(s.first()) {
        trim_start(s.drop_first())
    } else {
        s
    }
}

/// `s` without the white space at its end.
pub open spec fn trim_end(s: Seq<char>) -> Seq<char>
    decreases s.len(),
{
    if s.len() > 0 && is_white_space(s.last()) {
        trim_end(s.drop_last())
    } else {
        s
    }
}

/// `s` without the white space at either end.
pub open spec fn trim(s: Seq<char>) -> Seq<char> {
    trim_end(trim_start(s))
}

/// A line is blank if nothing is left of it once it is trimmed.
pub open spec fn is_blank(s: Seq<char>) -> bool {
    trim(s).len() == 0
}

/// A payload as a line of output: the payload, then one line feed.
pub open spec fn frame(payload: Seq<char>) -> Seq<char> {
    payload.push('\n')
}

/// If the first `k` characters of `s` are white space and the next one, if
/// there is one, is not, then trimming the start removes exactly those `k`.
pub proof fn lemma_trim_start_at(s: Seq<char>, k: int)
    requires
        0 <= k <= s.len(),
        forall|i: int| 0 <= i < k ==> is_white_space(#[trigger] s[i]),
        k < s.len() ==> !is_white_space(s[k]),
    ensures
        trim_start(s) == s.subrange(k, s.len() as int),
    decreases k,
{
    if k == 0 {
        assert(s.subrange(0, s.len() as int) =~= s);
    } else {
        let rest = s.drop_first();
        assert forall|i: int| 0 <= i < k - 1 implies is_white_space(#[trigger] rest[i]) by {
            assert(rest[i] == s[i + 1]);
        }
        lemma_trim_start_at(rest, k - 1);
        assert(rest.subrange(k - 1, rest.len() as int) =~= s.subrange(k, s.len() as int));
    }
}

/// If the characters of `s` from `k` on are white space and the one before,
/// if there is one, is not, then trimming the end keeps exactly the first
/// `k`.
pub proof fn lemma_trim_end_at(s: Seq<char>, k: int)
    requires
        0 <= k <= s.len(),
        forall|i: int| k <= i < s.len() ==> is_white_space(#[trigger] s[i]),
        0 < k ==> !is_white_space(s[k - 1]),
    ensures
        trim_end(s) == s.subrange(0, k),
    decreases s.len() - k,
{
    if k == s.len() {
        assert(s.subrange(0, k) =~= s);
    } else {
        let rest = s.drop_last();
        assert forall|i: int| k <= i < rest.len() implies is_white_space(#[trigger] rest[i]) by {
            assert(rest[i] == s[i]);
        }
        lemma_trim_end_at(rest, k);
        assert(rest.subrange(0, k) =~= s.subrange(0, k));
    }
}

/// A line made of white space only is blank.
pub proof fn lemma_white_space_is_blank(s: Seq<char>)
    requires
        forall|i: int| 0 <= i < s.len() ==> is_white_space(#[trigger] s[i]),
    ensures
        is_blank(s),
{
    lemma_trim_start_at(s, s.len() as int);
    assert(s.subrange(s.len() as int, s.len() as int) =~= Seq::<char>::empty());
}

/// Whether `c` is white space.
pub fn is_whitespace(c: char) -> (white: bool)
    ensures
        white == is_white_space(c),
{
    let code = c as u32;
    (0x09 <= code && code <= 0x0D) || code == 0x20 || code == 0x85 || code == 0xA0 || code
        == 0x1680 || (0x2000 <= code && code <= 0x200A) || code == 0x2028 || code == 0x2029
        || code == 0x202F || code == 0x205F || code == 0x3000
}

/// The part of `line` between its first and its last character that is not
/// white space; the empty string if it has none.
pub fn trim_line(line: &str) -> (trimmed: &str)
    ensures
        trimmed@ == trim(line@),
{
    broadcast use group_string_axioms;

    let total = line.unicode_len();
    let mut found = false;
    let mut start: usize = 0;
    let mut end: usize = 0;
    let mut at: usize = 0;
    for c in it: line.chars()
        invariant
            it.seq() == line@,
            at == it.index(),
            total == line@.len(),
            !found ==> forall|i: int| 0 <= i < at ==> is_white_space(#[trigger] line@[i]),
            found ==> start < end <= at,
            found ==> forall|i: int| 0 <= i < start ==> is_white_space(#[trigger] line@[i]),
            found ==> !is_white_space(line@[start as int]),
            found ==> !is_white_space(line@[end - 1]),
            found ==> forall|i: int| end <= i < at ==> is_white_space(#[trigger] line@[i]),
    {
        if !is_whitespace(c) {
            if !found {
                found = true;
                start = at;
            }
            end = at + 1;
        }
        at += 1;
    }
    if !found {
        proof {
            lemma_white_space_is_blank(line@);
        }
        line.substring_char(0, 0)
    } else {
        proof {
            let kept = line@.subrange(start as int, total as int);
            lemma_trim_start_at(line@, start as int);
            lemma_trim_end_at(kept, end - start);
            assert(kept.subrange(0, end - start) =~= line@.subrange(start as int, end as int));
        }
        line.substring_char(start, end)
    }
}

/// The payload as a line of output.
pub fn frame_line(payload: &str) -> (line: String)
    ensures
        line@ == frame(payload@),
{
    proof {
        reveal_strlit("\n");
    }
    let line = String::from_str(payload).concat("\n");
    assert(line@ =~= payload@.push('\n'));
    line
}

/// What the runner is waiting for.
#[derive(Debug, Clone, Copy, PartialEq, Eq, Structural)]
pub enum StdioPhase {
    /// A line is being read.
    ReadingLine,
    /// A request is with the dispatch engine.
    Dispatching,
    /// A response is being written.
    WritingResponse,
    /// The runner has ended.
    Closed,
}

/// The state of the runner's main loop.
#[derive(Debug, Clone, Copy, PartialEq, Eq, Structural)]
pub struct StdioSession {
    pub phase: StdioPhase,
    /// The capacity of the notification channel of each request.
    pub buffer: usize,
    /// While a response is being written: whether the request it answers
    /// may still produce notifications.
    pub streaming: bool,
}

/// What the dispatch engine hands back for one request.
#[derive(Debug)]
pub struct Reply {
    /// The response, as one line without a terminator.
    pub response: String,
    /// Whether the request's notification source can still yield something:
    /// `false` if it is exhausted already.
    pub streaming: bool,
}

/// A [`Reply`] with its text as a character sequence.
pub struct ReplyView {
    pub response: Seq<char>,
    pub streaming: bool,
}

impl View for Reply {
    type V = ReplyView;

    open spec fn view(&self) -> ReplyView {
        ReplyView { response: self.response@, streaming: self.streaming }
    }
}

/// What the driver reports back.
#[derive(Debug)]
pub enum StdioEvent {
    /// A line was read; this is it, without its terminator.
    Line(String),
    /// The input has ended.
    EndOfInput,
    /// Reading failed; this is why.
    ReadFailed(String),
    /// The dispatch engine answered with this reply, or failed with this
    /// text.
    Dispatched(Result<Reply, String>),
    /// The response line was written and flushed, or writing failed with
    /// this text.
    Written(Result<(), String>),
}

/// What the driver is to do next.
#[derive(Debug)]
pub enum StdioAction {
    /// Read the next line of input.
    ReadLine,
    /// Hand `request` to the dispatch engine, with a notification channel of
    /// capacity `buffer`.
    Dispatch { request: String, buffer: usize },
    /// Write `line` to the output and flush.
    WriteResponse { line: String },
    /// Start a task that forwards the notifications of the request just
    /// answered, and read the next line of input without waiting for it.
    ForwardAndRead,
    /// End the runner with this outcome.
    Finish(Result<(), TransportError>),
    /// The event did not answer the outstanding action; nothing has changed.
    Unexpected,
}

/// A [`StdioEvent`] with its texts as character sequences.
pub enum StdioEventView {
    Line(Seq<char>),
    EndOfInput,
    ReadFailed(Seq<char>),
    Dispatched(Result<ReplyView, Seq<char>>),
    Written(Result<(), Seq<char>>),
}

/// A [`StdioAction`] with its texts as character sequences.
pub enum StdioActionView {
    ReadLine,
    Dispatch { request: Seq<char>, buffer: usize },
    WriteResponse { line: Seq<char> },
    ForwardAndRead,
    Finish(Result<(), TransportErrorView>),
    Unexpected,
}

impl View for StdioEvent {
    type V = StdioEventView;

    open spec fn view(&self) -> StdioEventView {
        match *self {
            StdioEvent::Line(line) => StdioEventView::Line(line@),
            StdioEvent::EndOfInput => StdioEventView::EndOfInput,
            StdioEvent::ReadFailed(text) => StdioEventView::ReadFailed(text@),
            StdioEvent::Dispatched(Ok(reply)) => StdioEventView::Dispatched(Ok(reply@)),
            StdioEvent::Dispatched(Err(text)) => StdioEventView::Dispatched(Err(text@)),
            StdioEvent::Written(Ok(_)) => StdioEventView::Written(Ok(())),
            StdioEvent::Written(Err(text)) => StdioEventView::Written(Err(text@)),
        }
    }
}

impl View for StdioAction {
    type V = StdioActionView;

    open spec fn view(&self) -> StdioActionView {
        match *self {
            StdioAction::ReadLine => StdioActionView::ReadLine,
            StdioAction::Dispatch { request, buffer } => StdioActionView::Dispatch {
                request: request@,
                buffer,
            },
            StdioAction::WriteResponse { line } => StdioActionView::WriteResponse { line: line@ },
            StdioAction::ForwardAndRead => StdioActionView::ForwardAndRead,
            StdioAction::Finish(Ok(_)) => StdioActionView::Finish(Ok(())),
            StdioAction::Finish(Err(error)) => StdioActionView::Finish(Err(error@)),
            StdioAction::Unexpected => StdioActionView::Unexpected,
        }
    }
}

impl StdioSession {
    /// The session in `phase`, with no response under way.
    pub open spec fn at(self, phase: StdioPhase) -> StdioSession {
        StdioSession { phase, buffer: self.buffer, streaming: false }
    }

    /// The state and action that follow `event`.
    ///
    /// A blank line is passed over: the next line is read, and nothing is
    /// dispatched or written for it. Any other line is dispatched as it was
    /// read, white space at its ends included. A
    /// response is written framed; once it is written, a forwarding task is
    /// asked for only if the request may still produce notifications. Any
    /// failure ends the runner.
    pub open spec fn spec_step(self, event: StdioEventView) -> (StdioSession, StdioActionView) {
        match (self.phase, event) {
            (StdioPhase::ReadingLine, StdioEventView::Line(line)) => if is_blank(line) {
                (self.at(StdioPhase::ReadingLine), StdioActionView::ReadLine)
            } else {
                (
                    self.at(StdioPhase::Dispatching),
                    StdioActionView::Dispatch { request: line, buffer: self.buffer },
                )
            },
            (StdioPhase::ReadingLine, StdioEventView::EndOfInput) => (
                self.at(StdioPhase::Closed),
                StdioActionView::Finish(Ok(())),
            ),
            (StdioPhase::ReadingLine, StdioEventView::ReadFailed(text)) => (
                self.at(StdioPhase::Closed),
                StdioActionView::Finish(Err(TransportErrorView::Io(text))),
            ),
            (StdioPhase::Dispatching, StdioEventView::Dispatched(Ok(reply))) => (
                StdioSession {
                    phase: StdioPhase::WritingResponse,
                    buffer: self.buffer,
                    streaming: reply.streaming,
                },
                StdioActionView::WriteResponse { line: frame(reply.response) },
            ),
            (StdioPhase::Dispatching, StdioEventView::Dispatched(Err(text))) => (
                self.at(StdioPhase::Closed),
                StdioActionView::Finish(Err(TransportErrorView::Dispatch(text))),
            ),
            (StdioPhase::WritingResponse, StdioEventView::Written(Ok(_))) => (
                self.at(StdioPhase::ReadingLine),
                if self.streaming {
                    StdioActionView::ForwardAndRead
                } else {
                    StdioActionView::ReadLine
                },
            ),
            (StdioPhase::WritingResponse, StdioEventView::Written(Err(text))) => (
                self.at(StdioPhase::Closed),
                StdioActionView::Finish(Err(TransportErrorView::Io(text))),
            ),
            _ => (self, StdioActionView::Unexpected),
        }
    }

    /// Takes the driver's answer to the outstanding action and names the
    /// next one. An event that does not answer the outstanding action leaves
    /// the session as it is and yields [`StdioAction::Unexpected`].
    pub fn step(self, event: StdioEvent) -> (next: (StdioSession, StdioAction))
        ensures
            next.0 == self.spec_step(event@).0,
            next.1@ == self.spec_step(event@).1,
    {
        let buffer = self.buffer;
        match (self.phase, event) {
            (StdioPhase::ReadingLine, StdioEvent::Line(line)) => {
                let blank = trim_line(line.as_str()).is_empty();
                if blank {
                    (
                        StdioSession { phase: StdioPhase::ReadingLine, buffer, streaming: false },
                        StdioAction::ReadLine,
                    )
                } else {
                    (
                        StdioSession { phase: StdioPhase::Dispatching, buffer, streaming: false },
                        StdioAction::Dispatch { request: line, buffer },
                    )
                }
            },
            (StdioPhase::ReadingLine, StdioEvent::EndOfInput) => (
                StdioSession { phase: StdioPhase::Closed, buffer, streaming: false },
                StdioAction::Finish(Ok(())),
            ),
            (StdioPhase::ReadingLine, StdioEvent::ReadFailed(text)) => (
                StdioSession { phase: StdioPhase::Closed, buffer, streaming: false },
                StdioAction::Finish(Err(TransportError::Io(text))),
            ),
            (StdioPhase::Dispatching, StdioEvent::Dispatched(Ok(reply))) => (
                StdioSession {
                    phase: StdioPhase::WritingResponse,
                    buffer,
                    streaming: reply.streaming,
                },
                StdioAction::WriteResponse { line: frame_line(reply.response.as_str()) },
            ),
            (StdioPhase::Dispatching, StdioEvent::Dispatched(Err(text))) => (
                StdioSession { phase: StdioPhase::Closed, buffer, streaming: false },
                StdioAction::Finish(Err(TransportError::Dispatch(text))),
            ),
            (StdioPhase::WritingResponse, StdioEvent::Written(Ok(_))) => (
                StdioSession { phase: StdioPhase::ReadingLine, buffer, streaming: false },
                if self.streaming {
                    StdioAction::ForwardAndRead
                } else {
                    StdioAction::ReadLine
                },
            ),
            (StdioPhase::WritingResponse, StdioEvent::Written(Err(text))) => (
                StdioSession { phase: StdioPhase::Closed, buffer, streaming: false },
                StdioAction::Finish(Err(TransportError::Io(text))),
            ),
            _ => (self, StdioAction::Unexpected),
        }
    }
}

/// Opens the runner of the line-delimited transport: it is to read its first
/// line, and every request will get a notification channel of the configured
/// capacity.
pub fn serve_stdio(config: StdioConfig) -> (next: (StdioSession, StdioAction))
    ensures
        next.0 == (StdioSession {
            phase: StdioPhase::ReadingLine,
            buffer: config.subscription_buffer_size,
            streaming: false,
        }),
        next.1@ == StdioActionView::ReadLine,
{
    (
        StdioSession {
            phase: StdioPhase::ReadingLine,
            buffer: config.subscription_buffer_size,
            streaming: false,
        },
        StdioAction::ReadLine,
    )
}

/// Line framing: a blank line is answered by reading on, with nothing
/// dispatched and nothing written. Any other line is dispatched exactly as
/// it was read, and the response that comes back is written as the response followed by
/// exactly one line feed. A forwarding task is asked for after the write if
/// and only if the request may still produce notifications.
pub proof fn law_line_framing(session: StdioSession, line: Seq<char>, reply: ReplyView)
    requires
        session.phase is ReadingLine,
    ensures
        is_blank(line) ==> session.spec_step(StdioEventView::Line(line)) == (
            session.at(StdioPhase::ReadingLine),
            StdioActionView::ReadLine,
        ),
        !is_blank(line) ==> ({
            let asked = session.spec_step(StdioEventView::Line(line));
            let answered = asked.0.spec_step(StdioEventView::Dispatched(Ok(reply)));
            let written = answered.0.spec_step(StdioEventView::Written(Ok(())));
            &&& asked.1 == StdioActionView::Dispatch { request: line, buffer: session.buffer }
            &&& answered.1 == StdioActionView::WriteResponse { line: frame(reply.response) }
            &&& written.1 == (if reply.streaming {
                StdioActionView::ForwardAndRead
            } else {
                StdioActionView::ReadLine
            })
            &&& written.0 == session.at(StdioPhase::ReadingLine)
        }),
        frame(reply.response).len() == reply.response.len() + 1,
        frame(reply.response).last() == '\n',
        frame(reply.response).drop_last() == reply.response,
{
    assert(frame(reply.response).drop_last() =~= reply.response);
}

/// The actions a runner hands out when it is fed `events` in order.
pub open spec fn stdio_trace(session: StdioSession, events: Seq<StdioEventView>) -> Seq<
    StdioActionView,
>
    decreases events.len(),
{
    if events.len() == 0 {
        Seq::empty()
    } else {
        let next = session.spec_step(events.first());
        seq![next.1] + stdio_trace(next.0, events.drop_first())
    }
}

/// The response lines that `actions` has written, in the order of the
/// actions.
pub open spec fn response_lines(actions: Seq<StdioActionView>) -> Seq<Seq<char>>
    decreases actions.len(),
{
    if actions.len() == 0 {
        Seq::empty()
    } else if let StdioActionView::WriteResponse { line } = actions.first() {
        seq![line] + response_lines(actions.drop_first())
    } else {
        response_lines(actions.drop_first())
    }
}

/// What the driver reports while it reads the lines of `exchanges` one after
/// the other, up to the end of the input. Each exchange is a line of input
/// and the reply of the dispatch engine to it; every dispatch and every
/// write succeeds, and a blank line is not dispatched.
pub open spec fn conversation(exchanges: Seq<(Seq<char>, ReplyView)>) -> Seq<StdioEventView>
    decreases exchanges.len(),
{
    if exchanges.len() == 0 {
        seq![StdioEventView::EndOfInput]
    } else if is_blank(exchanges.first().0) {
        seq![StdioEventView::Line(exchanges.first().0)] + conversation(exchanges.drop_first())
    } else {
        seq![
            StdioEventView::Line(exchanges.first().0),
            StdioEventView::Dispatched(Ok(exchanges.first().1)),
            StdioEventView::Written(Ok(())),
        ] + conversation(exchanges.drop_first())
    }
}

/// The responses to the lines of `exchanges` that are not blank, each as a
/// line of output, in the order of the lines.
pub open spec fn answers(exchanges: Seq<(Seq<char>, ReplyView)>) -> Seq<Seq<char>>
    decreases exchanges.len(),
{
    if exchanges.len() == 0 {
        Seq::empty()
    } else if is_blank(exchanges.first().0) {
        answers(exchanges.drop_first())
    } else {
        seq![frame(exchanges.first().1.response)] + answers(exchanges.drop_first())
    }
}

proof fn lemma_trace_after_first(
    session: StdioSession,
    first: StdioEventView,
    rest: Seq<StdioEventView>,
)
    ensures
        stdio_trace(session, seq![first] + rest) == seq![session.spec_step(first).1] + stdio_trace(
            session.spec_step(first).0,
            rest,
        ),
{
    let all = seq![first] + rest;
    assert(all.first() == first);
    assert(all.drop_first() =~= rest);
}

proof fn lemma_responses_after_first(first: StdioActionView, rest: Seq<StdioActionView>)
    ensures
        response_lines(seq![first] + rest) == (if let StdioActionView::WriteResponse { line } =
            first {
            seq![line] + response_lines(rest)
        } else {
            response_lines(rest)
        }),
{
    let all = seq![first] + rest;
    assert(all.first() == first);
    assert(all.drop_first() =~= rest);
}

/// Response ordering: while the input lasts, the runner writes one line for
/// each line of input that is not blank, namely the framed response to it,
/// in the order in which the lines were read; for a blank line it writes
/// nothing.
pub proof fn law_responses_in_order(buffer: usize, exchanges: Seq<(Seq<char>, ReplyView)>)
    ensures
        response_lines(
            stdio_trace(
                StdioSession { phase: StdioPhase::ReadingLine, buffer, streaming: false },
                conversation(exchanges),
            ),
        ) == answers(exchanges),
    decreases exchanges.len(),
{
    let reading = StdioSession { phase: StdioPhase::ReadingLine, buffer, streaming: false };
    let events = conversation(exchanges);
    if exchanges.len() == 0 {
        let none = Seq::<StdioEventView>::empty();
        assert(events =~= seq![StdioEventView::EndOfInput] + none);
        lemma_trace_after_first(reading, StdioEventView::EndOfInput, none);
        let ended = reading.spec_step(StdioEventView::EndOfInput);
        lemma_responses_after_first(ended.1, stdio_trace(ended.0, none));
    } else {
        let line = exchanges.first().0;
        let response = exchanges.first().1;
        let later = conversation(exchanges.drop_first());
        law_responses_in_order(buffer, exchanges.drop_first());
        let read = reading.spec_step(StdioEventView::Line(line));
        if is_blank(line) {
            lemma_trace_after_first(reading, StdioEventView::Line(line), later);
            lemma_responses_after_first(read.1, stdio_trace(read.0, later));
        } else {
            let e1 = StdioEventView::Dispatched(Ok(response));
            let e2 = StdioEventView::Written(Ok(()));
            let answered = read.0.spec_step(e1);
            let written = answered.0.spec_step(e2);
            assert(written.0 == reading);
            assert(events =~= seq![StdioEventView::Line(line)] + (seq![e1] + (seq![e2] + later)));
            lemma_trace_after_first(
                reading,
                StdioEventView::Line(line),
                seq![e1] + (seq![e2] + later),
            );
            lemma_trace_after_first(read.0, e1, seq![e2] + later);
            lemma_trace_after_first(answered.0, e2, later);
            let tail2 = stdio_trace(written.0, later);
            let tail1 = seq![written.1] + tail2;
            let tail0 = seq![answered.1] + tail1;
            lemma_responses_after_first(written.1, tail2);
            lemma_responses_after_first(answered.1, tail1);
            lemma_responses_after_first(read.1, tail0);
        }
    }
}

/// Whether a request may still produce notifications, judged by its
/// notification channel when the response arrives: it may, unless the
/// channel is closed and holds nothing.
pub fn may_still_notify(closed: bool, empty: bool) -> (streaming: bool)
    ensures
        streaming == !(closed && empty),
{
    !(closed && empty)
}

/// What the forwarder of one request's notifications is waiting for.
#[derive(Debug, Clone, Copy, PartialEq, Eq, Structural)]
pub enum ForwardPhase {
    /// The next notification is being awaited.
    Pulling,
    /// A notification is being written.
    Writing,
    /// The forwarder has ended.
    Stopped,
}

/// The state of the forwarder of one request's notifications.
#[derive(Debug, Clone, Copy, PartialEq, Eq, Structural)]
pub struct Forwarder {
    pub phase: ForwardPhase,
}

/// What the forwarder's driver reports back.
#[derive(Debug)]
pub enum ForwardEvent {
    /// The source yielded this notification.
    Notification(String),
    /// The source has ended.
    SourceEnded,
    /// The line was written and flushed (`true`), or writing failed.
    Written(bool),
}

/// What the forwarder's driver is to do next.
#[derive(Debug)]
pub enum ForwardAction {
    /// Await the next notification of the source.
    Pull,
    /// Write `line` to the output and flush.
    Write { line: String },
    /// End the task, without reporting anything.
    Stop,
    /// The event did not answer the outstanding action; nothing has changed.
    Unexpected,
}

/// A [`ForwardEvent`] with its text as a character sequence.
pub enum ForwardEventView {
    Notification(Seq<char>),
    SourceEnded,
    Written(bool),
}

/// A [`ForwardAction`] with its text as a character sequence.
pub enum ForwardActionView {
    Pull,
    Write { line: Seq<char> },
    Stop,
    Unexpected,
}

impl View for ForwardEvent {
    type V = ForwardEventView;

    open spec fn view(&self) -> ForwardEventView {
        match *self {
            ForwardEvent::Notification(payload) => ForwardEventView::Notification(payload@),
            ForwardEvent::SourceEnded => ForwardEventView::SourceEnded,
            ForwardEvent::Written(done) => ForwardEventView::Written(done),
        }
    }
}

impl View for ForwardAction {
    type V = ForwardActionView;

    open spec fn view(&self) -> ForwardActionView {
        match *self {
            ForwardAction::Pull => ForwardActionView::Pull,
            ForwardAction::Write { line } => ForwardActionView::Write { line: line@ },
            ForwardAction::Stop => ForwardActionView::Stop,
            ForwardAction::Unexpected => ForwardActionView::Unexpected,
        }
    }
}

impl Forwarder {
    /// The state and action that follow `event`: each notification is
    /// written framed before the next is awaited, and the forwarder stops
    /// when the source ends or a write fails.
    pub open spec fn spec_step(self, event: ForwardEventView) -> (Forwarder, ForwardActionView) {
        match (self.phase, event) {
            (ForwardPhase::Pulling, ForwardEventView::Notification(payload)) => (
                Forwarder { phase: ForwardPhase::Writing },
                ForwardActionView::Write { line: frame(payload) },
            ),
            (ForwardPhase::Pulling, ForwardEventView::SourceEnded) => (
                Forwarder { phase: ForwardPhase::Stopped },
                ForwardActionView::Stop,
            ),
            (ForwardPhase::Writing, ForwardEventView::Written(done)) => if done {
                (Forwarder { phase: ForwardPhase::Pulling }, ForwardActionView::Pull)
            } else {
                (Forwarder { phase: ForwardPhase::Stopped }, ForwardActionView::Stop)
            },
            _ => (self, ForwardActionView::Unexpected),
        }
    }

    /// A forwarder at its start, and its first action: await a notification.
    pub fn start() -> (next: (Forwarder, ForwardAction))
        ensures
            next.0 == (Forwarder { phase: ForwardPhase::Pulling }),
            next.1@ == ForwardActionView::Pull,
    {
        (Forwarder { phase: ForwardPhase::Pulling }, ForwardAction::Pull)
    }

    /// Takes the driver's answer to the outstanding action and names the
    /// next one. An event that does not answer the outstanding action leaves
    /// the forwarder as it is and yields [`ForwardAction::Unexpected`].
    pub fn step(self, event: ForwardEvent) -> (next: (Forwarder, ForwardAction))
        ensures
            next.0 == self.spec_step(event@).0,
            next.1@ == self.spec_step(event@).1,
    {
        match (self.phase, event) {
            (ForwardPhase::Pulling, ForwardEvent::Notification(payload)) => (
                Forwarder { phase: ForwardPhase::Writing },
                ForwardAction::Write { line: frame_line(payload.as_str()) },
            ),
            (ForwardPhase::Pulling, ForwardEvent::SourceEnded) => (
                Forwarder { phase: ForwardPhase::Stopped },
                ForwardAction::Stop,
            ),
            (ForwardPhase::Writing, ForwardEvent::Written(done)) => {
                if done {
                    (Forwarder { phase: ForwardPhase::Pulling }, ForwardAction::Pull)
                } else {
                    (Forwarder { phase: ForwardPhase::Stopped }, ForwardAction::Stop)
                }
            },
            _ => (self, ForwardAction::Unexpected),
        }
    }
}

/// The actions a forwarder hands out when it is fed `events` in order.
pub open spec fn forward_trace(forwarder: Forwarder, events: Seq<ForwardEventView>) -> Seq<
    ForwardActionView,
>
    decreases events.len(),
{
    if events.len() == 0 {
        Seq::empty()
    } else {
        let next = forwarder.spec_step(events.first());
        seq![next.1] + forward_trace(next.0, events.drop_first())
    }
}

/// The lines that `actions` has written, in the order of the actions.
pub open spec fn written_lines(actions: Seq<ForwardActionView>) -> Seq<Seq<char>>
    decreases actions.len(),
{
    if actions.len() == 0 {
        Seq::empty()
    } else if let ForwardActionView::Write { line } = actions.first() {
        seq![line] + written_lines(actions.drop_first())
    } else {
        written_lines(actions.drop_first())
    }
}

/// What the driver reports while the source yields `payloads` one after the
/// other and every write succeeds, up to the end of the source.
pub open spec fn delivery(payloads: Seq<Seq<char>>) -> Seq<ForwardEventView>
    decreases payloads.len(),
{
    if payloads.len() == 0 {
        seq![ForwardEventView::SourceEnded]
    } else {
        seq![ForwardEventView::Notification(payloads.first()), ForwardEventView::Written(true)]
            + delivery(payloads.drop_first())
    }
}

/// Each of `payloads` as a line of output, in the same order.
pub open spec fn frames(payloads: Seq<Seq<char>>) -> Seq<Seq<char>> {
    Seq::new(payloads.len(), |i: int| frame(payloads[i]))
}

proof fn lemma_written_after_first(first: ForwardActionView, rest: Seq<ForwardActionView>)
    ensures
        written_lines(seq![first] + rest) == (if let ForwardActionView::Write { line } = first {
            seq![line] + written_lines(rest)
        } else {
            written_lines(rest)
        }),
{
    let all = seq![first] + rest;
    assert(all.first() == first);
    assert(all.drop_first() =~= rest);
}

/// A forwarder that has stopped writes nothing more, whatever it is told.
pub proof fn law_stopped_forwarder_is_silent(events: Seq<ForwardEventView>)
    ensures
        written_lines(forward_trace(Forwarder { phase: ForwardPhase::Stopped }, events))
            == Seq::<Seq<char>>::empty(),
    decreases events.len(),
{
    let stopped = Forwarder { phase: ForwardPhase::Stopped };
    if events.len() > 0 {
        let next = stopped.spec_step(events.first());
        law_stopped_forwarder_is_silent(events.drop_first());
        lemma_written_after_first(next.1, forward_trace(next.0, events.drop_first()));
    }
}

/// The notifications among `events` that the forwarder takes: those that
/// arrive while it is waiting for one.
pub open spec fn accepted(forwarder: Forwarder, events: Seq<ForwardEventView>) -> Seq<Seq<char>>
    decreases events.len(),
{
    if events.len() == 0 {
        Seq::empty()
    } else {
        let later = accepted(forwarder.spec_step(events.first()).0, events.drop_first());
        match (forwarder.phase, events.first()) {
            (ForwardPhase::Pulling, ForwardEventView::Notification(payload)) => seq![payload]
                + later,
            _ => later,
        }
    }
}

/// No reordering: whatever the driver reports, the lines a forwarder writes
/// are the notifications it took, each framed, in the order in which it took
/// them.
pub proof fn law_forwarder_keeps_order(forwarder: Forwarder, events: Seq<ForwardEventView>)
    ensures
        written_lines(forward_trace(forwarder, events)) == frames(accepted(forwarder, events)),
    decreases events.len(),
{
    if events.len() == 0 {
        assert(frames(accepted(forwarder, events)) =~= Seq::<Seq<char>>::empty());
    } else {
        let next = forwarder.spec_step(events.first());
        let later = accepted(next.0, events.drop_first());
        law_forwarder_keeps_order(next.0, events.drop_first());
        lemma_written_after_first(next.1, forward_trace(next.0, events.drop_first()));
        match (forwarder.phase, events.first()) {
            (ForwardPhase::Pulling, ForwardEventView::Notification(payload)) => {
                assert(frames(seq![payload] + later) =~= seq![frame(payload)] + frames(later));
            },
            _ => {},
        }
    }
}

/// Notification ordering: the notifications of one request are written in
/// the order in which the source yields them, each as a line of its own, and
/// nothing else is written.
pub proof fn law_notifications_in_order(payloads: Seq<Seq<char>>)
    ensures
        written_lines(forward_trace(Forwarder { phase: ForwardPhase::Pulling }, delivery(payloads)))
            == frames(payloads),
    decreases payloads.len(),
{
    let pulling = Forwarder { phase: ForwardPhase::Pulling };
    let events = delivery(payloads);
    if payloads.len() == 0 {
        let ended = pulling.spec_step(ForwardEventView::SourceEnded);
        assert(events.drop_first() =~= Seq::<ForwardEventView>::empty());
        lemma_written_after_first(ended.1, forward_trace(ended.0, events.drop_first()));
        assert(frames(payloads) =~= Seq::<Seq<char>>::empty());
    } else {
        let later = delivery(payloads.drop_first());
        let offered = pulling.spec_step(events.first());
        let rest = events.drop_first();
        assert(rest =~= seq![ForwardEventView::Written(true)] + later);
        assert(rest.first() == ForwardEventView::Written(true));
        assert(rest.drop_first() =~= later);
        let written = offered.0.spec_step(rest.first());
        assert(written.0 == pulling);
        law_notifications_in_order(payloads.drop_first());
        lemma_written_after_first(written.1, forward_trace(written.0, later));
        lemma_written_after_first(offered.1, forward_trace(offered.0, rest));
        assert(frames(payloads) =~= seq![frame(payloads.first())] + frames(
            payloads.drop_first(),
        ));
    }
}

} // verus!
