use vstd::prelude::*;
use crate::packet::{parse_packet, parse_result, EegPayload, TgcPacket};

verus! {

/// Seconds the reader waits after a failed connection before it tries again.
pub const RECONNECT_BACKOFF_SECS: u64 = 2;

/// Read timeout, in milliseconds, set on the socket by the handshake; it bounds
/// how long a stop request can go unnoticed while the stream is idle.
pub const READ_TIMEOUT_MILLIS: u64 = 500;

/// Where the reader stands in its connection lifecycle.
#[derive(Clone, Copy, Debug, PartialEq, Eq, Structural)]
pub enum ConnectionState {
    /// Not started yet.
    Disconnected,
    /// Trying to reach the bridge, retrying after each failure.
    Connecting,
    /// Handshake sent; reading lines.
    Connected,
    /// The loop has exited; nothing more is done.
    ShuttingDown,
}

/// What the driver of the reader observed since the last action.
#[derive(Clone, Debug)]
pub enum ReaderEvent {
    /// The reader was started.
    Started,
    /// The connection attempt succeeded.
    ConnectSucceeded,
    /// The connection attempt failed.
    ConnectFailed,
    /// The backoff sleep after a failed attempt is over.
    BackoffElapsed,
    /// A line arrived, with its decoding as a bridge packet (if it is one).
    LineReceived { line: String, decoded: Option<TgcPacket> },
    /// No line arrived within the read timeout.
    ReadTimedOut,
    /// Reading failed for another reason than a timeout.
    ReadFailed,
    /// The bridge closed the stream.
    StreamEnded,
}

/// What the driver must do next.
#[derive(Clone, Copy, Debug, PartialEq, Eq, Structural)]
pub enum ReaderAction {
    /// Attempt a connection to the bridge.
    Connect,
    /// Report "disconnected", then sleep the backoff.
    ReportDisconnectedAndBackOff,
    /// Set the read timeout, send the authentication line, report
    /// "connected", then read a line.
    Handshake,
    /// Read the next line.
    ReadLine,
    /// Hand the record to the observer, then read the next line.
    EmitAndReadLine(EegPayload),
    /// Report "disconnected" and exit.
    ReportDisconnectedAndExit,
    /// Exit without any report.
    Exit,
}

/// Which part of an event the transition looks at (the line's record, not its text).
pub enum EventKind {
    Started,
    ConnectSucceeded,
    ConnectFailed,
    BackoffElapsed,
    Line(Option<EegPayload>),
    ReadTimedOut,
    ReadFailed,
    StreamEnded,
}

/// An event as the transition sees it: a line by the record it yields.
pub open spec fn event_kind(e: ReaderEvent) -> EventKind {
    match e {
        ReaderEvent::Started => EventKind::Started,
        ReaderEvent::ConnectSucceeded => EventKind::ConnectSucceeded,
        ReaderEvent::ConnectFailed => EventKind::ConnectFailed,
        ReaderEvent::BackoffElapsed => EventKind::BackoffElapsed,
        ReaderEvent::LineReceived { line, decoded } => EventKind::Line(parse_result(line@, decoded)),
        ReaderEvent::ReadTimedOut => EventKind::ReadTimedOut,
        ReaderEvent::ReadFailed => EventKind::ReadFailed,
        ReaderEvent::StreamEnded => EventKind::StreamEnded,
    }
}

/// The reader's transition. Before each connection attempt and before each
/// read result is handled, a stop request ends the reader silently. A failed
/// connection is reported and retried after the backoff; a failed read is
/// reported and ends the reader, with no reconnection. A timed-out read only
/// leads to the next read. An event that cannot occur in a state ends the reader.
pub open spec fn transition(
    state: ConnectionState,
    stop_requested: bool,
    event: ReaderEvent,
) -> (ConnectionState, ReaderAction) {
    let finish = (ConnectionState::ShuttingDown, ReaderAction::Exit);
    match (state, event_kind(event)) {
        (ConnectionState::Disconnected, EventKind::Started)
        | (ConnectionState::Connecting, EventKind::BackoffElapsed) => {
            if stop_requested {
                finish
            } else {
                (ConnectionState::Connecting, ReaderAction::Connect)
            }
        },
        (ConnectionState::Connecting, EventKind::ConnectFailed) => {
            (ConnectionState::Connecting, ReaderAction::ReportDisconnectedAndBackOff)
        },
        (ConnectionState::Connecting, EventKind::ConnectSucceeded) => {
            (ConnectionState::Connected, ReaderAction::Handshake)
        },
        (ConnectionState::Connected, kind) => {
            if stop_requested {
                finish
            } else {
                match kind {
                    EventKind::Line(Some(payload)) => {
                        (ConnectionState::Connected, ReaderAction::EmitAndReadLine(payload))
                    },
                    EventKind::Line(None) | EventKind::ReadTimedOut => {
                        (ConnectionState::Connected, ReaderAction::ReadLine)
                    },
                    EventKind::ReadFailed => {
                        (ConnectionState::ShuttingDown, ReaderAction::ReportDisconnectedAndExit)
                    },
                    _ => finish,
                }
            }
        },
        _ => finish,
    }
}

/// The reader's state machine, driven by the code that owns the socket.
pub struct StreamReader {
    pub state: ConnectionState,
}

impl StreamReader {
    /// A reader that has not started yet.
    pub fn new() -> (r: StreamReader)
        ensures
            r.state == ConnectionState::Disconnected,
    {
        StreamReader { state: ConnectionState::Disconnected }
    }

    /// Whether the reader has exited.
    pub fn is_finished(&self) -> (r: bool)
        ensures
            r == (self.state == ConnectionState::ShuttingDown),
    {
        match self.state {
            ConnectionState::ShuttingDown => true,
            _ => false,
        }
    }

    /// Takes one event, with the stop flag as read just now, and says what to
    /// do next.
    pub fn step(&mut self, stop_requested: bool, event: ReaderEvent) -> (r: ReaderAction)
        ensures
            (final(self).state, r) == transition(old(self).state, stop_requested, event),
    {
        let finish = (ConnectionState::ShuttingDown, ReaderAction::Exit);
        let (next, action) = match (self.state, event) {
            (ConnectionState::Disconnected, ReaderEvent::Started)
            | (ConnectionState::Connecting, ReaderEvent::BackoffElapsed) => {
                if stop_requested {
                    finish
                } else {
                    (ConnectionState::Connecting, ReaderAction::Connect)
                }
            },
            (ConnectionState::Connecting, ReaderEvent::ConnectFailed) => {
                (ConnectionState::Connecting, ReaderAction::ReportDisconnectedAndBackOff)
            },
            (ConnectionState::Connecting, ReaderEvent::ConnectSucceeded) => {
                (ConnectionState::Connected, ReaderAction::Handshake)
            },
            (ConnectionState::Connected, event) => {
                if stop_requested {
                    finish
                } else {
                    match event {
                        ReaderEvent::LineReceived { line, decoded } => {
                            match parse_packet(line.as_str(), decoded) {
                                Some(payload) => (
                                    ConnectionState::Connected,
                                    ReaderAction::EmitAndReadLine(payload),
                                ),
                                None => (ConnectionState::Connected, ReaderAction::ReadLine),
                            }
                        },
                        ReaderEvent::ReadTimedOut => (
                            ConnectionState::Connected,
                            ReaderAction::ReadLine,
                        ),
                        ReaderEvent::ReadFailed => (
                            ConnectionState::ShuttingDown,
                            ReaderAction::ReportDisconnectedAndExit,
                        ),
                        _ => finish,
                    }
                }
            },
            _ => finish,
        };
        self.state = next;
        action
    }
}


/// A stop request is honoured at the next read result, whatever it is (a
/// line, a timeout or an error): the reader exits with no report. Since a
/// read returns within the read timeout, this bounds the stop latency.
pub proof fn lemma_stop_seen_at_next_read(event: ReaderEvent)
    ensures
        transition(ConnectionState::Connected, true, event) == (
            ConnectionState::ShuttingDown,
            ReaderAction::Exit,
        ),
{
}

/// While connecting, a stop request is honoured before the next attempt.
pub proof fn lemma_stop_seen_before_connecting()
    ensures
        transition(ConnectionState::Disconnected, true, ReaderEvent::Started) == (
            ConnectionState::ShuttingDown,
            ReaderAction::Exit,
        ),
        transition(ConnectionState::Connecting, true, ReaderEvent::BackoffElapsed) == (
            ConnectionState::ShuttingDown,
            ReaderAction::Exit,
        ),
{
}

/// A failed connection attempt never ends the reader: it is reported and
/// retried after the backoff. A failed read ends it, reported, with no retry.
pub proof fn lemma_retry_only_while_connecting(stop_requested: bool)
    ensures
        transition(ConnectionState::Connecting, stop_requested, ReaderEvent::ConnectFailed) == (
            ConnectionState::Connecting,
            ReaderAction::ReportDisconnectedAndBackOff,
        ),
        transition(ConnectionState::Connecting, false, ReaderEvent::BackoffElapsed) == (
            ConnectionState::Connecting,
            ReaderAction::Connect,
        ),
        transition(ConnectionState::Connected, false, ReaderEvent::ReadFailed) == (
            ConnectionState::ShuttingDown,
            ReaderAction::ReportDisconnectedAndExit,
        ),
{
}

/// Once the reader has exited it does nothing more.
pub proof fn lemma_exit_is_final(stop_requested: bool, event: ReaderEvent)
    ensures
        transition(ConnectionState::ShuttingDown, stop_requested, event) == (
            ConnectionState::ShuttingDown,
            ReaderAction::Exit,
        ),
{
}

/// While connected and not stopped, a line is emitted exactly when it yields a
/// record, and then that record is what is emitted.
pub proof fn lemma_emits_exactly_parsed_records(line: String, decoded: Option<TgcPacket>)
    ensures
        ({
            let (next, action) = transition(
                ConnectionState::Connected,
                false,
                ReaderEvent::LineReceived { line, decoded },
            );
            &&& next == ConnectionState::Connected
            &&& match parse_result(line@, decoded) {
                Some(p) => action == ReaderAction::EmitAndReadLine(p),
                None => action == ReaderAction::ReadLine,
            }
        }),
{
}

/// Runs the transition over a sequence of steps, each a stop-flag reading and
/// an event: the final state and the actions asked for, in order.
pub open spec fn run_steps(state: ConnectionState, steps: Seq<(bool, ReaderEvent)>) -> (
    ConnectionState,
    Seq<ReaderAction>,
)
    decreases steps.len(),
{
    if steps.len() == 0 {
        (state, Seq::empty())
    } else {
        let (next, action) = transition(state, steps[0].0, steps[0].1);
        let (last, rest) = run_steps(next, steps.drop_first());
        (last, seq![action] + rest)
    }
}

/// The records handed to the observer by a sequence of actions, in order.
pub open spec fn emitted(actions: Seq<ReaderAction>) -> Seq<EegPayload>
    decreases actions.len(),
{
    if actions.len() == 0 {
        Seq::empty()
    } else {
        let rest = emitted(actions.drop_first());
        match actions[0] {
            ReaderAction::EmitAndReadLine(p) => seq![p] + rest,
            _ => rest,
        }
    }
}

/// The records that a sequence of received lines yields, in order.
pub open spec fn records_of(lines: Seq<(String, Option<TgcPacket>)>) -> Seq<EegPayload>
    decreases lines.len(),
{
    if lines.len() == 0 {
        Seq::empty()
    } else {
        let rest = records_of(lines.drop_first());
        match parse_result(lines[0].0@, lines[0].1) {
            Some(p) => seq![p] + rest,
            None => rest,
        }
    }
}

/// The steps of a connected reader that receives `lines` with no stop request.
pub open spec fn line_steps(lines: Seq<(String, Option<TgcPacket>)>) -> Seq<(bool, ReaderEvent)> {
    Seq::new(
        lines.len(),
        |i: int| (false, ReaderEvent::LineReceived { line: lines[i].0, decoded: lines[i].1 }),
    )
}

/// A connected reader that is not stopped emits exactly the records of the
/// lines it receives, in the order they arrived, and stays connected.
pub proof fn lemma_records_emitted_in_order(lines: Seq<(String, Option<TgcPacket>)>)
    ensures
        run_steps(ConnectionState::Connected, line_steps(lines)).0 == ConnectionState::Connected,
        emitted(run_steps(ConnectionState::Connected, line_steps(lines)).1) == records_of(lines),
    decreases lines.len(),
{
    let steps = line_steps(lines);
    if lines.len() > 0 {
        let tail = lines.drop_first();
        lemma_records_emitted_in_order(tail);
        assert(steps.drop_first() =~= line_steps(tail));
        let (next, action) = transition(ConnectionState::Connected, steps[0].0, steps[0].1);
        let (last, rest) = run_steps(next, steps.drop_first());
        let actions = seq![action] + rest;
        assert(actions.drop_first() =~= rest);
        match parse_result(lines[0].0@, lines[0].1) {
            Some(p) => {
                assert(emitted(actions) =~= seq![p] + emitted(rest));
            },
            None => {
                assert(emitted(actions) =~= emitted(rest));
            },
        }
    } else {
        assert(steps.len() == 0);
        assert(run_steps(ConnectionState::Connected, steps).1 =~= Seq::<ReaderAction>::empty());
    }
}

} // verus!
