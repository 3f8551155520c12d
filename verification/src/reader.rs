//! The reader loop's decision model. The host runs one blocking read loop per
//! open connection; each bounded-timeout read ends in one [`ReadEvent`], and
//! the functions here decide, per event, what message (if any) goes to the
//! host's event sink and whether the loop keeps running: a line is trimmed
//! and emitted, a timeout is a non-event, end-of-stream ends the loop
//! silently, and any other failure is reported once and ends the loop.

use vstd::prelude::*;

use crate::text::trim_line_spec;
use crate::text::trim_line_end;
use crate::types::ConnectionMessage;
use crate::types::ConnectionMessageV;

verus! {

/// One outcome of a bounded-timeout line read, as the host's blocking read
/// observes it.
#[derive(Debug, Clone)]
pub enum ReadEvent {
    /// A complete line arrived, terminator still attached.
    Line(String),
    /// Nothing arrived within the timeout window.
    Timeout,
    /// The peer closed the stream.
    Eof,
    /// The read failed for another reason; the payload describes the failure.
    Failure(String),
}

/// Mathematical image of a [`ReadEvent`].
pub enum ReadEventV {
    Line(Seq<char>),
    Timeout,
    Eof,
    Failure(Seq<char>),
}

impl View for ReadEvent {
    type V = ReadEventV;

    open spec fn view(&self) -> ReadEventV {
        match self {
            ReadEvent::Line(s) => ReadEventV::Line(s@),
            ReadEvent::Timeout => ReadEventV::Timeout,
            ReadEvent::Eof => ReadEventV::Eof,
            ReadEvent::Failure(d) => ReadEventV::Failure(d@),
        }
    }
}

/// What the reader loop does with one read outcome: the message to emit, if
/// any, and whether the loop keeps running. The host additionally stops the
/// loop when delivering a message to its sink fails.
pub struct ReaderStep {
    pub message: Option<ConnectionMessage>,
    pub keep_running: bool,
}

/// The message one event yields: a line with its trailing newline (and the
/// carriage return of a `\r\n` ending) stripped, as a non-error message; a
/// failure's description as one error message; nothing for a timeout or
/// end-of-stream.
pub open spec fn step_message(id: Seq<char>, event: ReadEventV, timestamp: u64) -> Option<
    ConnectionMessageV,
> {
    match event {
        ReadEventV::Line(s) => Some(
            ConnectionMessageV {
                connection_id: id,
                data: trim_line_spec(s),
                timestamp,
                is_error: false,
            },
        ),
        ReadEventV::Timeout => None,
        ReadEventV::Eof => None,
        ReadEventV::Failure(d) => Some(
            ConnectionMessageV { connection_id: id, data: d, timestamp, is_error: true },
        ),
    }
}

/// Whether the loop survives the event: lines and timeouts are recoverable,
/// end-of-stream and failures are terminal.
pub open spec fn step_keeps_running(event: ReadEventV) -> bool {
    event is Line || event is Timeout
}

/// The view of an optional message.
pub open spec fn message_view(m: Option<ConnectionMessage>) -> Option<ConnectionMessageV> {
    match m {
        Some(msg) => Some(msg@),
        None => None,
    }
}

/// Decide one reader-loop iteration: the message to emit for `event`, stamped
/// with `timestamp` (milliseconds), and whether the loop continues.
pub fn reader_step(connection_id: &str, event: &ReadEvent, timestamp: u64) -> (r: ReaderStep)
    ensures
        message_view(r.message) == step_message(connection_id@, event@, timestamp),
        r.keep_running == step_keeps_running(event@),
{
    match event {
        ReadEvent::Line(s) => ReaderStep {
            message: Some(
                ConnectionMessage {
                    connection_id: connection_id.to_owned(),
                    data: trim_line_end(s.as_str()),
                    timestamp,
                    is_error: false,
                },
            ),
            keep_running: true,
        },
        ReadEvent::Timeout => ReaderStep { message: None, keep_running: true },
        ReadEvent::Eof => ReaderStep { message: None, keep_running: false },
        ReadEvent::Failure(d) => ReaderStep {
            message: Some(
                ConnectionMessage {
                    connection_id: connection_id.to_owned(),
                    data: d.clone(),
                    timestamp,
                    is_error: true,
                },
            ),
            keep_running: false,
        },
    }
}

/// The view of a timestamped event sequence.
pub open spec fn events_view(events: Seq<(ReadEvent, u64)>) -> Seq<(ReadEventV, u64)> {
    events.map_values(|p: (ReadEvent, u64)| (p.0@, p.1))
}

/// The view of an emitted message sequence.
pub open spec fn messages_view(msgs: Seq<ConnectionMessage>) -> Seq<ConnectionMessageV> {
    msgs.map_values(|m: ConnectionMessage| m@)
}

/// The messages a reader loop emits for a sequence of timestamped read
/// outcomes: per event what [`step_message`] yields, in event order, stopping
/// right after the first terminal event.
pub open spec fn spec_run_reader(id: Seq<char>, events: Seq<(ReadEventV, u64)>) -> Seq<
    ConnectionMessageV,
>
    decreases events.len(),
{
    if events.len() == 0 {
        Seq::empty()
    } else {
        let head = match step_message(id, events[0].0, events[0].1) {
            Some(m) => seq![m],
            None => Seq::empty(),
        };
        if step_keeps_running(events[0].0) {
            head + spec_run_reader(id, events.drop_first())
        } else {
            head
        }
    }
}

/// Run a whole reader loop over an already-observed sequence of timestamped
/// read outcomes, collecting the messages the sink would receive, in order.
pub fn run_reader(connection_id: &str, events: &Vec<(ReadEvent, u64)>) -> (msgs: Vec<
    ConnectionMessage,
>)
    ensures
        messages_view(msgs@) == spec_run_reader(connection_id@, events_view(events@)),
{
    let ghost evs = events_view(events@);
    let mut msgs: Vec<ConnectionMessage> = Vec::new();
    let mut i: usize = 0;
    proof {
        assert(evs.skip(0) =~= evs);
    }
    loop
        invariant_except_break
            messages_view(msgs@) + spec_run_reader(connection_id@, evs.skip(i as int))
                == spec_run_reader(connection_id@, evs),
        invariant
            i <= events@.len(),
            evs == events_view(events@),
            evs.len() == events@.len(),
        ensures
            messages_view(msgs@) == spec_run_reader(connection_id@, evs),
        decreases events@.len() - i,
    {
        if i == events.len() {
            proof {
                assert(evs.skip(i as int) =~= Seq::<(ReadEventV, u64)>::empty());
                assert(messages_view(msgs@) + Seq::<ConnectionMessageV>::empty() =~= messages_view(
                    msgs@,
                ));
            }
            break;
        }
        let pair = &events[i];
        let step = reader_step(connection_id, &pair.0, pair.1);
        proof {
            assert(evs.skip(i as int)[0] == evs[i as int]);
            assert(evs[i as int] == (events@[i as int].0@, events@[i as int].1));
            assert(evs.skip(i as int).drop_first() =~= evs.skip(i + 1));
        }
        let ghost msgs_before = msgs@;
        match step.message {
            Some(m) => {
                msgs.push(m);
                proof {
                    assert(messages_view(msgs@) =~= messages_view(msgs_before) + seq![m@]);
                }
            },
            None => {},
        }
        if !step.keep_running {
            break;
        }
        i = i + 1;
    }
    msgs
}

} // verus!
