//! The decisions of the settings window's IPC reader.
//!
//! One reader thread owns the pipe. It connects, announces the connection,
//! then runs a session: it waits on the outbound command queue (a short,
//! activity-scaled wait while the window is awake, a long one while it is
//! deactivated), writes every queued command, and only then peeks for one
//! inbound event. Any pipe error ends the session; the reader reports it and
//! reconnects after a pause. It stops for good once the window dropped its
//! receiver, or right after it wrote the command that closes the session.
//!
//! The thread, the pipe, the channels and the clock belong to the caller. This
//! module is the state machine between them: [`Reader::step`] takes what the
//! last action produced and names the next action.

use vstd::prelude::*;

verus! {

/// How long the reader waits on the outbound queue before it looks at the
/// pipe.
#[derive(Clone, Copy, Debug, PartialEq, Eq, Structural)]
pub enum PollWait {
    /// The window is awake: the interval that scales with the time since the
    /// last command or event.
    Adaptive,
    /// The window is deactivated: the long sleep interval.
    Asleep,
}

/// The two pauses of the reader.
#[derive(Clone, Copy, Debug, PartialEq, Eq, Structural)]
pub enum PauseLength {
    /// One second before the next connection attempt.
    Reconnect,
    /// The wait just used, when the window dropped its command handle: the
    /// queue then answers at once, so the pause keeps the loop from spinning.
    PollInterval,
}

/// Why the reader lost its session.
#[derive(Clone, Debug)]
pub enum Reason {
    /// The pipe's own error, reported with its message.
    Pipe(String),
    /// A command could not be written to the pipe.
    CommandNotDelivered,
}

/// What the reader tells the window.
#[derive(Clone, Debug)]
pub enum Notice {
    /// A session is open; the window gets its command handle.
    Connected,
    /// One inbound event.
    Message,
    /// The session is gone.
    Disconnected(Reason),
}

/// What the reader does next.
#[derive(Clone, Debug)]
pub enum ReaderAction {
    /// Open the pipe.
    Connect,
    /// Queue this notice for the window and wake it; a `Message` first marks
    /// activity.
    Publish(Notice),
    /// Sleep.
    Pause(PauseLength),
    /// Read the window's awake flag.
    ReadAwake,
    /// Wait on the outbound queue for a command, at most this long.
    WaitForCommand(PollWait),
    /// Mark activity and write the command in hand to the pipe.
    SendCommand,
    /// Take the next command already queued, without waiting.
    TakeQueued,
    /// Ask the pipe whether inbound data is pending.
    Peek,
    /// Read one inbound event.
    Receive,
    /// End the reader thread.
    Stop,
}

/// What the last action produced.
#[derive(Clone, Debug)]
pub enum ReaderEvent {
    /// The pipe opened.
    Opened,
    /// The pipe did not open.
    OpenFailed(String),
    /// The notice was queued (`true`), or the window has dropped its receiver
    /// (`false`).
    Published(bool),
    /// The pause is over.
    Paused,
    /// The window's awake flag.
    Awake(bool),
    /// A command is in hand; `true` when it is the one that closes the
    /// session.
    CommandArrived(bool),
    /// The wait on the queue ran out.
    TimedOut,
    /// The window dropped its command handle.
    QueueClosed,
    /// No command is queued.
    QueueEmpty,
    /// The command was written.
    Sent,
    /// The command could not be written.
    SendFailed,
    /// Whether inbound data is pending.
    Pending(bool),
    /// The pipe could not be asked.
    PeekFailed(String),
    /// One inbound event was read.
    Received,
    /// The inbound event could not be read.
    ReceiveFailed(String),
}

/// Where the reader goes once a notice is queued.
#[derive(Clone, Copy, Debug, PartialEq, Eq, Structural)]
pub enum Resume {
    /// Pause, then connect again.
    Reconnect,
    /// Go on with the session.
    Session,
}

/// The reader's state: which answer it is waiting for.
#[derive(Clone, Copy, Debug, PartialEq, Eq, Structural)]
pub enum Reader {
    Connecting,
    Publishing(Resume),
    PausingToReconnect,
    ReadingAwake,
    WaitingForCommand,
    PausingAfterClosedQueue,
    Sending(bool),
    TakingQueued,
    Peeking,
    Receiving,
    Stopped,
}

/// The reader's first state and action.
pub open spec fn start_of() -> (Reader, ReaderAction) {
    (Reader::Connecting, ReaderAction::Connect)
}

/// Whether `event` is an answer to the action that `state` waits on.
pub open spec fn answers_of(state: Reader, event: ReaderEvent) -> bool {
    match state {
        Reader::Connecting => event is Opened || event is OpenFailed,
        Reader::Publishing(_) => event is Published,
        Reader::PausingToReconnect | Reader::PausingAfterClosedQueue => event is Paused,
        Reader::ReadingAwake => event is Awake,
        Reader::WaitingForCommand => event is CommandArrived || event is TimedOut || event is QueueClosed,
        Reader::Sending(_) => event is Sent || event is SendFailed,
        Reader::TakingQueued => event is CommandArrived || event is QueueEmpty,
        Reader::Peeking => event is Pending || event is PeekFailed,
        Reader::Receiving => event is Received || event is ReceiveFailed,
        Reader::Stopped => false,
    }
}

/// The state and the notice that report a lost session.
pub open spec fn lost(reason: Reason) -> (Reader, ReaderAction) {
    (Reader::Publishing(Resume::Reconnect), ReaderAction::Publish(Notice::Disconnected(reason)))
}

/// The reader's transition: from a state and the answer to its last action,
/// the next state and action. The last arm is the stopped reader, which no
/// event answers.
pub open spec fn next_of(state: Reader, event: ReaderEvent) -> (Reader, ReaderAction) {
    match (state, event) {
        (Reader::Connecting, ReaderEvent::Opened) =>
            (Reader::Publishing(Resume::Session), ReaderAction::Publish(Notice::Connected)),
        (Reader::Connecting, ReaderEvent::OpenFailed(message)) => lost(Reason::Pipe(message)),
        (Reader::Publishing(resume), ReaderEvent::Published(delivered)) => if !delivered {
            (Reader::Stopped, ReaderAction::Stop)
        } else if resume == Resume::Reconnect {
            (Reader::PausingToReconnect, ReaderAction::Pause(PauseLength::Reconnect))
        } else {
            (Reader::ReadingAwake, ReaderAction::ReadAwake)
        },
        (Reader::PausingToReconnect, ReaderEvent::Paused) => (Reader::Connecting, ReaderAction::Connect),
        (Reader::ReadingAwake, ReaderEvent::Awake(awake)) => (
            Reader::WaitingForCommand,
            ReaderAction::WaitForCommand(if awake { PollWait::Adaptive } else { PollWait::Asleep }),
        ),
        (Reader::WaitingForCommand, ReaderEvent::CommandArrived(closing)) =>
            (Reader::Sending(closing), ReaderAction::SendCommand),
        (Reader::WaitingForCommand, ReaderEvent::TimedOut) => (Reader::Peeking, ReaderAction::Peek),
        (Reader::WaitingForCommand, ReaderEvent::QueueClosed) =>
            (Reader::PausingAfterClosedQueue, ReaderAction::Pause(PauseLength::PollInterval)),
        (Reader::PausingAfterClosedQueue, ReaderEvent::Paused) => (Reader::Peeking, ReaderAction::Peek),
        (Reader::Sending(closing), ReaderEvent::Sent) => if closing {
            (Reader::Stopped, ReaderAction::Stop)
        } else {
            (Reader::TakingQueued, ReaderAction::TakeQueued)
        },
        (Reader::Sending(_), ReaderEvent::SendFailed) => lost(Reason::CommandNotDelivered),
        (Reader::TakingQueued, ReaderEvent::CommandArrived(closing)) =>
            (Reader::Sending(closing), ReaderAction::SendCommand),
        (Reader::TakingQueued, ReaderEvent::QueueEmpty) => (Reader::Peeking, ReaderAction::Peek),
        (Reader::Peeking, ReaderEvent::Pending(pending)) => if pending {
            (Reader::Receiving, ReaderAction::Receive)
        } else {
            (Reader::ReadingAwake, ReaderAction::ReadAwake)
        },
        (Reader::Peeking, ReaderEvent::PeekFailed(message)) => lost(Reason::Pipe(message)),
        (Reader::Receiving, ReaderEvent::Received) =>
            (Reader::Publishing(Resume::Session), ReaderAction::Publish(Notice::Message)),
        (Reader::Receiving, ReaderEvent::ReceiveFailed(message)) => lost(Reason::Pipe(message)),
        _ => (Reader::Stopped, ReaderAction::Stop),
    }
}

impl Reader {
    /// The reader before its first connection attempt, and that attempt.
    pub fn start() -> (r: (Reader, ReaderAction))
        ensures
            r == start_of(),
    {
        (Reader::Connecting, ReaderAction::Connect)
    }

    /// Whether `event` answers the action this state waits on.
    pub fn answers(&self, event: &ReaderEvent) -> (r: bool)
        ensures
            r == answers_of(*self, *event),
    {
        match self {
            Reader::Connecting => matches!(event, ReaderEvent::Opened | ReaderEvent::OpenFailed(_)),
            Reader::Publishing(_) => matches!(event, ReaderEvent::Published(_)),
            Reader::PausingToReconnect | Reader::PausingAfterClosedQueue => matches!(event, ReaderEvent::Paused),
            Reader::ReadingAwake => matches!(event, ReaderEvent::Awake(_)),
            Reader::WaitingForCommand => matches!(
                event,
                ReaderEvent::CommandArrived(_) | ReaderEvent::TimedOut | ReaderEvent::QueueClosed
            ),
            Reader::Sending(_) => matches!(event, ReaderEvent::Sent | ReaderEvent::SendFailed),
            Reader::TakingQueued => matches!(event, ReaderEvent::CommandArrived(_) | ReaderEvent::QueueEmpty),
            Reader::Peeking => matches!(event, ReaderEvent::Pending(_) | ReaderEvent::PeekFailed(_)),
            Reader::Receiving => matches!(event, ReaderEvent::Received | ReaderEvent::ReceiveFailed(_)),
            Reader::Stopped => false,
        }
    }

    /// The next state and action, from the answer to the last action.
    pub fn step(self, event: ReaderEvent) -> (r: (Reader, ReaderAction))
        requires
            answers_of(self, event),
        ensures
            r == next_of(self, event),
    {
        match (self, event) {
            (Reader::Connecting, ReaderEvent::Opened) =>
                (Reader::Publishing(Resume::Session), ReaderAction::Publish(Notice::Connected)),
            (Reader::Connecting, ReaderEvent::OpenFailed(message)) =>
                (Reader::Publishing(Resume::Reconnect), ReaderAction::Publish(Notice::Disconnected(Reason::Pipe(message)))),
            (Reader::Publishing(resume), ReaderEvent::Published(delivered)) => if !delivered {
                (Reader::Stopped, ReaderAction::Stop)
            } else if resume == Resume::Reconnect {
                (Reader::PausingToReconnect, ReaderAction::Pause(PauseLength::Reconnect))
            } else {
                (Reader::ReadingAwake, ReaderAction::ReadAwake)
            },
            (Reader::PausingToReconnect, ReaderEvent::Paused) => (Reader::Connecting, ReaderAction::Connect),
            (Reader::ReadingAwake, ReaderEvent::Awake(awake)) => (
                Reader::WaitingForCommand,
                ReaderAction::WaitForCommand(if awake { PollWait::Adaptive } else { PollWait::Asleep }),
            ),
            (Reader::WaitingForCommand, ReaderEvent::CommandArrived(closing)) =>
                (Reader::Sending(closing), ReaderAction::SendCommand),
            (Reader::WaitingForCommand, ReaderEvent::TimedOut) => (Reader::Peeking, ReaderAction::Peek),
            (Reader::WaitingForCommand, ReaderEvent::QueueClosed) =>
                (Reader::PausingAfterClosedQueue, ReaderAction::Pause(PauseLength::PollInterval)),
            (Reader::PausingAfterClosedQueue, ReaderEvent::Paused) => (Reader::Peeking, ReaderAction::Peek),
            (Reader::Sending(closing), ReaderEvent::Sent) => if closing {
                (Reader::Stopped, ReaderAction::Stop)
            } else {
                (Reader::TakingQueued, ReaderAction::TakeQueued)
            },
            (Reader::Sending(_), ReaderEvent::SendFailed) =>
                (Reader::Publishing(Resume::Reconnect), ReaderAction::Publish(Notice::Disconnected(Reason::CommandNotDelivered))),
            (Reader::TakingQueued, ReaderEvent::CommandArrived(closing)) =>
                (Reader::Sending(closing), ReaderAction::SendCommand),
            (Reader::TakingQueued, ReaderEvent::QueueEmpty) => (Reader::Peeking, ReaderAction::Peek),
            (Reader::Peeking, ReaderEvent::Pending(pending)) => if pending {
                (Reader::Receiving, ReaderAction::Receive)
            } else {
                (Reader::ReadingAwake, ReaderAction::ReadAwake)
            },
            (Reader::Peeking, ReaderEvent::PeekFailed(message)) =>
                (Reader::Publishing(Resume::Reconnect), ReaderAction::Publish(Notice::Disconnected(Reason::Pipe(message)))),
            (Reader::Receiving, ReaderEvent::Received) =>
                (Reader::Publishing(Resume::Session), ReaderAction::Publish(Notice::Message)),
            (Reader::Receiving, ReaderEvent::ReceiveFailed(message)) =>
                (Reader::Publishing(Resume::Reconnect), ReaderAction::Publish(Notice::Disconnected(Reason::Pipe(message)))),
            _ => (Reader::Stopped, ReaderAction::Stop),
        }
    }
}

/// The reader ends in exactly two ways: the window has dropped its receiver
/// when a notice is queued, or the command just written closes the session.
pub proof fn the_reader_stops_only_when_told(state: Reader, event: ReaderEvent)
    requires
        answers_of(state, event),
    ensures
        next_of(state, event).0 == Reader::Stopped <==> (
            event == ReaderEvent::Published(false)
            || (state == Reader::Sending(true) && event == ReaderEvent::Sent)
        ),
        next_of(state, event).0 == Reader::Stopped <==> next_of(state, event).1 == ReaderAction::Stop,
{
}

/// A stopped reader waits for nothing: no event answers it.
pub proof fn a_stopped_reader_stays_stopped(event: ReaderEvent)
    ensures
        !answers_of(Reader::Stopped, event),
{
}

/// Every pipe failure is reported to the window as a lost session; once that
/// notice is queued the reader pauses for the reconnect delay and then opens
/// the pipe again.
pub proof fn every_failure_is_reported_then_retried(state: Reader, event: ReaderEvent)
    requires
        answers_of(state, event),
        event is OpenFailed || event is SendFailed || event is PeekFailed || event is ReceiveFailed,
    ensures
        next_of(state, event).0 == Reader::Publishing(Resume::Reconnect),
        next_of(state, event).1 is Publish,
        next_of(state, event).1->Publish_0 is Disconnected,
        next_of(next_of(state, event).0, ReaderEvent::Published(true))
            == (Reader::PausingToReconnect, ReaderAction::Pause(PauseLength::Reconnect)),
        next_of(Reader::PausingToReconnect, ReaderEvent::Paused) == (Reader::Connecting, ReaderAction::Connect),
{
}

/// A command in hand is always the next thing written, whether it came from
/// the wait or from the queue behind it.
pub proof fn a_command_in_hand_is_written_next(state: Reader, closing: bool)
    requires
        state == Reader::WaitingForCommand || state == Reader::TakingQueued,
    ensures
        next_of(state, ReaderEvent::CommandArrived(closing)) == (Reader::Sending(closing), ReaderAction::SendCommand),
{
}

/// The pipe is peeked only once the outbound side is idle: the wait ran out,
/// the queue behind the last written command is empty, or the window's
/// command handle is gone and the pause after it is over.
pub proof fn inbound_waits_for_the_outbound_queue(state: Reader, event: ReaderEvent)
    requires
        answers_of(state, event),
        next_of(state, event).1 == ReaderAction::Peek,
    ensures
        event == ReaderEvent::TimedOut || event == ReaderEvent::QueueEmpty
            || (state == Reader::PausingAfterClosedQueue && event == ReaderEvent::Paused),
{
}

/// The awake flag picks the wait: the adaptive interval while the window is
/// awake, the sleep interval while it is deactivated.
pub proof fn the_awake_flag_picks_the_wait(awake: bool)
    ensures
        next_of(Reader::ReadingAwake, ReaderEvent::Awake(awake)) == (
            Reader::WaitingForCommand,
            ReaderAction::WaitForCommand(if awake { PollWait::Adaptive } else { PollWait::Asleep }),
        ),
{
}

/// A session announces itself before it reads anything, and every inbound
/// event is handed to the window before the next wait on the queue.
pub proof fn events_are_published_in_order()
    ensures
        next_of(Reader::Connecting, ReaderEvent::Opened)
            == (Reader::Publishing(Resume::Session), ReaderAction::Publish(Notice::Connected)),
        next_of(Reader::Receiving, ReaderEvent::Received)
            == (Reader::Publishing(Resume::Session), ReaderAction::Publish(Notice::Message)),
        next_of(Reader::Publishing(Resume::Session), ReaderEvent::Published(true))
            == (Reader::ReadingAwake, ReaderAction::ReadAwake),
{
}


/// The state a reader reaches from its start through `events`, one step per
/// event.
pub open spec fn state_after(events: Seq<ReaderEvent>) -> Reader
    decreases events.len(),
{
    if events.len() == 0 {
        start_of().0
    } else {
        next_of(state_after(events.drop_last()), events.last()).0
    }
}

/// The `n`-th action of a run: the start's `Connect` for `n == 0`, then the
/// action named in answer to each event in turn.
pub open spec fn action_at(events: Seq<ReaderEvent>, n: int) -> ReaderAction {
    if n <= 0 {
        start_of().1
    } else {
        next_of(state_after(events.take(n - 1)), events[n - 1]).1
    }
}

/// Every event of the run answers the action the reader was waiting on.
pub open spec fn answered_run(events: Seq<ReaderEvent>) -> bool {
    forall|i: int| 0 <= i < events.len() ==> answers_of(state_after(events.take(i)), #[trigger] events[i])
}

/// The states that belong to a session the window has been told about, or
/// to the notice that follows an inbound event.
pub open spec fn in_session(state: Reader) -> bool {
    match state {
        Reader::Publishing(resume) => resume == Resume::Session,
        Reader::ReadingAwake | Reader::WaitingForCommand | Reader::PausingAfterClosedQueue
        | Reader::Sending(_) | Reader::TakingQueued | Reader::Peeking | Reader::Receiving => true,
        Reader::Connecting | Reader::PausingToReconnect | Reader::Stopped => false,
    }
}

/// Action `j` announced a session that is still the current one at `n`.
pub open spec fn announced_at(events: Seq<ReaderEvent>, n: int, j: int) -> bool {
    &&& 0 <= j <= n
    &&& action_at(events, j) == ReaderAction::Publish(Notice::Connected)
    &&& forall|k: int| j < k <= n ==> action_at(events, k) != ReaderAction::Connect
}

proof fn lemma_state_step(events: Seq<ReaderEvent>, n: int)
    requires
        0 <= n < events.len(),
    ensures
        state_after(events.take(n + 1)) == next_of(state_after(events.take(n)), events[n]).0,
{
    assert(events.take(n + 1).drop_last() =~= events.take(n));
    assert(events.take(n + 1).last() == events[n]);
}

/// One step into a session state either opens the pipe (and announces it) or
/// comes from a session state, and never asks to connect.
proof fn lemma_session_step(state: Reader, event: ReaderEvent)
    ensures
        in_session(next_of(state, event).0) ==> (
            (state == Reader::Connecting && event == ReaderEvent::Opened
                && next_of(state, event).1 == ReaderAction::Publish(Notice::Connected))
            || in_session(state)
        ),
        in_session(next_of(state, event).0) ==> next_of(state, event).1 != ReaderAction::Connect,
        next_of(state, event).1 == ReaderAction::Publish(Notice::Message) ==> state == Reader::Receiving,
{
}

proof fn lemma_sessions_are_announced(events: Seq<ReaderEvent>, n: int)
    requires
        0 <= n <= events.len(),
    ensures
        in_session(state_after(events.take(n))) ==> exists|j: int| #[trigger] announced_at(events, n, j),
    decreases n,
{
    if n == 0 {
        assert(events.take(0) =~= Seq::<ReaderEvent>::empty());
    } else {
        lemma_sessions_are_announced(events, n - 1);
        lemma_state_step(events, n - 1);
        let s = state_after(events.take(n - 1));
        let e = events[n - 1];
        lemma_session_step(s, e);
        assert(action_at(events, n) == next_of(s, e).1);
        if in_session(next_of(s, e).0) {
            if s == Reader::Connecting && e == ReaderEvent::Opened {
                assert(announced_at(events, n, n));
            } else {
                let j = choose|j: int| #[trigger] announced_at(events, n - 1, j);
                assert forall|k: int| j < k <= n implies action_at(events, k) != ReaderAction::Connect by {
                    if k < n {
                        assert(announced_at(events, n - 1, j));
                    }
                }
                assert(announced_at(events, n, j));
            }
        }
    }
}

/// Over a whole run, the window hears of a session before any of its
/// events: every `Message` notice comes after a `Connected` notice with no
/// new connection attempt in between.
pub proof fn a_session_is_announced_before_its_messages(events: Seq<ReaderEvent>, n: int)
    requires
        0 <= n <= events.len(),
        action_at(events, n) == ReaderAction::Publish(Notice::Message),
    ensures
        exists|j: int|
            0 <= j < n && action_at(events, j) == ReaderAction::Publish(Notice::Connected)
                && forall|k: int| j < k < n ==> action_at(events, k) != ReaderAction::Connect,
{
    let s = state_after(events.take(n - 1));
    let e = events[n - 1];
    lemma_session_step(s, e);
    lemma_sessions_are_announced(events, n - 1);
    let j = choose|j: int| #[trigger] announced_at(events, n - 1, j);
    assert(announced_at(events, n - 1, j));
}

/// Over a whole answered run, the reader is never stopped before its last
/// event, and it ends stopped only when the last notice found the window's
/// receiver gone or the last command written closed the session.
pub proof fn a_run_stops_only_at_its_end_and_when_told(events: Seq<ReaderEvent>)
    requires
        answered_run(events),
    ensures
        forall|i: int| 0 <= i < events.len() ==> #[trigger] state_after(events.take(i)) != Reader::Stopped,
        state_after(events) == Reader::Stopped && events.len() > 0 ==> (
            events.last() == ReaderEvent::Published(false) || (
                state_after(events.drop_last()) == Reader::Sending(true) && events.last() == ReaderEvent::Sent
            )
        ),
{
    assert forall|i: int| 0 <= i < events.len() implies #[trigger] state_after(events.take(i)) != Reader::Stopped by {
        assert(answers_of(state_after(events.take(i)), events[i]));
    }
    if events.len() > 0 {
        let m = events.len() - 1;
        assert(events.drop_last() =~= events.take(m));
        assert(answers_of(state_after(events.take(m)), events[m]));
        the_reader_stops_only_when_told(state_after(events.drop_last()), events.last());
    }
}

/// A reader that has not stopped always waits on something that can answer:
/// no path leaves it stuck short of `Stop`.
pub proof fn a_running_reader_always_has_an_answer(state: Reader)
    requires
        state != Reader::Stopped,
    ensures
        exists|event: ReaderEvent| answers_of(state, event),
{
    let witness = match state {
        Reader::Connecting => ReaderEvent::Opened,
        Reader::Publishing(_) => ReaderEvent::Published(true),
        Reader::PausingToReconnect | Reader::PausingAfterClosedQueue => ReaderEvent::Paused,
        Reader::ReadingAwake => ReaderEvent::Awake(true),
        Reader::WaitingForCommand | Reader::TakingQueued => ReaderEvent::CommandArrived(false),
        Reader::Sending(_) => ReaderEvent::Sent,
        Reader::Peeking => ReaderEvent::Pending(false),
        Reader::Receiving => ReaderEvent::Received,
        Reader::Stopped => ReaderEvent::Paused,
    };
    assert(answers_of(state, witness));
}

} // verus!
