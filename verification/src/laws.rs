//! What holds of the session whatever the peer does: laws of the state
//! machine in `client`, stated over its transition function.

use vstd::prelude::*;

use crate::client::{
    answers, begin, fresh, handshake_response, issue, issue_apart, issue_on_device, on_more_text,
    outcome_reported, reply_text, reply_timeout, step, unexpected, ActionView, ClientView,
    EventView, Operation, Phase, ReplyView,
};
use crate::error::HdcErrorView;
use crate::text::{device_lines, text_lossy};

verus! {

/// True for the operations that collect a response of several frames.
pub open spec fn is_multi_frame(operation: Operation) -> bool {
    operation == Operation::Install || operation == Operation::Transfer || operation
        == Operation::Log
}

/// The texts of the first `k` frames, one after another.
pub open spec fn collected(frames: Seq<Seq<u8>>, k: int) -> Seq<char>
    decreases k,
{
    if k <= 0 {
        Seq::empty()
    } else {
        collected(frames, k - 1) + reply_text(frames[k - 1])->0
    }
}

/// The session after the first `k` frames have arrived, one event each.
pub open spec fn after_frames(c: ClientView, frames: Seq<Seq<u8>>, k: int) -> ClientView
    decreases k,
{
    if k <= 0 {
        c
    } else {
        step(after_frames(c, frames, k - 1), EventView::Frame(frames[k - 1])).0
    }
}

/// The action given when the `k`-th frame arrives, counted from 1.
pub open spec fn action_on_frame(c: ClientView, frames: Seq<Seq<u8>>, k: int) -> ActionView {
    step(after_frames(c, frames, k - 1), EventView::Frame(frames[k - 1])).1
}

/// No operation is issued before the handshake is complete: without it, a
/// command is not written but refused with `NotConnected`, and nothing has
/// to be done on the socket.
pub proof fn lemma_no_command_before_handshake(
    c: ClientView,
    operation: Operation,
    command: Seq<char>,
)
    requires
        !c.established(),
        operation != Operation::Reconnect,
        operation != Operation::Monitor,
    ensures
        issue(c, operation, command).1 == ActionView::Return(Err(HdcErrorView::NotConnected)),
        issue(c, operation, command).0.phase == Phase::Idle,
{
}

/// A new session is well formed, and neither starting an operation nor an
/// event changes that.
pub proof fn lemma_well_formed_always(
    c: ClientView,
    event: EventView,
    operation: Operation,
    command: Seq<char>,
    device: Seq<char>,
)
    requires
        c.well_formed(),
    ensures
        fresh(c.address).well_formed(),
        step(c, event).0.well_formed(),
        begin(c, operation, command).well_formed(),
        issue(c, operation, command).0.well_formed(),
        issue_on_device(c, operation, device, command).0.well_formed(),
        issue_apart(c.address, operation, command).0.well_formed(),
        c.established() <==> c.handshake_ok,
{
}

/// Nothing changes the address of a session.
pub proof fn lemma_address_stays(c: ClientView, event: EventView)
    ensures
        step(c, event).0.address == c.address,
{
}

/// An event that does not answer the action given ends the operation with
/// a protocol error and changes nothing else.
pub proof fn lemma_unanswering_event_is_refused(c: ClientView, event: EventView)
    requires
        !answers(c.phase, event),
    ensures
        step(c, event) == unexpected(c),
{
}

/// The session becomes established by one event only: the handshake
/// response has been written.
pub proof fn lemma_established_by_written_response(c: ClientView, event: EventView)
    requires
        !c.established(),
        step(c, event).0.established(),
    ensures
        c.phase == Phase::WritingHandshake,
        event == EventView::Written,
        c.connected,
{
}

/// The handshake sent back has the form of the one received: 44 bytes for
/// fewer than 108 received, 108 bytes otherwise. Its banner is the one
/// received, and so is the version in the full form.
pub proof fn lemma_response_matches_received_form(data: Seq<u8>, key: Option<Seq<char>>)
    requires
        data.len() >= 44,
    ensures
        handshake_response(data, key).len() == (if data.len() >= 108 {
            108int
        } else {
            44int
        }),
        handshake_response(data, key).subrange(0, 12) == data.subrange(0, 12),
        data.len() >= 108 ==> handshake_response(data, key).subrange(44, 108) == data.subrange(
            44,
            108,
        ),
{
    let r = handshake_response(data, key);
    assert(r.subrange(0, 12) =~= data.subrange(0, 12));
    if data.len() >= 108 {
        assert(r.subrange(44, 108) =~= data.subrange(44, 108));
    }
}

/// The read loop of a multi-frame operation ends with the first frame after
/// which the collected text reports the outcome: every frame before it is
/// answered by another read, and that frame by the return of all the text
/// collected. The frames are taken to hold text that is not empty.
pub proof fn lemma_multi_frame_termination(c: ClientView, frames: Seq<Seq<u8>>)
    requires
        c.phase == Phase::ReadingReply,
        is_multi_frame(c.operation),
        frames.len() > 0,
        forall|i: int|
            0 <= i < frames.len() ==> (#[trigger] reply_text(frames[i])) is Some && reply_text(
                frames[i],
            )->0.len() > 0,
        forall|k: int|
            0 < k < frames.len() ==> !outcome_reported(
                c.operation,
                c.output + #[trigger] collected(frames, k),
            ),
        outcome_reported(c.operation, c.output + collected(frames, frames.len() as int)),
    ensures
        forall|k: int|
            0 < k < frames.len() ==> #[trigger] action_on_frame(c, frames, k) == (ActionView::Read {
                limit_secs: reply_timeout(c.operation),
            }),
        action_on_frame(c, frames, frames.len() as int) == ActionView::Return(
            Ok(ReplyView::Text(c.output + collected(frames, frames.len() as int))),
        ),
        after_frames(c, frames, frames.len() as int) == (ClientView {
            phase: Phase::Idle,
            output: c.output + collected(frames, frames.len() as int),
            ..c
        }),
{
    let n = frames.len() as int;
    assert forall|k: int| 0 < k < n implies #[trigger] action_on_frame(c, frames, k) == (
    ActionView::Read { limit_secs: reply_timeout(c.operation) }) by {
        lemma_reads_on(c, frames, k);
    }
    lemma_reads_on(c, frames, n - 1);
    let before = after_frames(c, frames, n - 1);
    let text = reply_text(frames[n - 1])->0;
    assert(reply_text(frames[n - 1]) is Some);
    assert(before.output + text =~= c.output + collected(frames, n));
    assert(step(before, EventView::Frame(frames[n - 1])) == on_more_text(before, text));
}

/// After `k` frames that do not yet report the outcome, the operation is
/// still reading, it has collected their texts, and it has answered each
/// with a read.
proof fn lemma_reads_on(c: ClientView, frames: Seq<Seq<u8>>, k: int)
    requires
        c.phase == Phase::ReadingReply,
        is_multi_frame(c.operation),
        0 <= k < frames.len(),
        forall|i: int|
            0 <= i < frames.len() ==> (#[trigger] reply_text(frames[i])) is Some && reply_text(
                frames[i],
            )->0.len() > 0,
        forall|j: int|
            0 < j < frames.len() ==> !outcome_reported(
                c.operation,
                c.output + #[trigger] collected(frames, j),
            ),
    ensures
        after_frames(c, frames, k) == (ClientView {
            output: c.output + collected(frames, k),
            ..c
        }),
        k > 0 ==> action_on_frame(c, frames, k) == (ActionView::Read {
            limit_secs: reply_timeout(c.operation),
        }),
    decreases k,
{
    if k <= 0 {
        assert(c.output + collected(frames, 0) =~= c.output);
    } else {
        lemma_reads_on(c, frames, k - 1);
        let before = after_frames(c, frames, k - 1);
        let text = reply_text(frames[k - 1])->0;
        assert(reply_text(frames[k - 1]) is Some);
        assert(before.output + text =~= c.output + collected(frames, k));
        assert(!outcome_reported(c.operation, c.output + collected(frames, k)));
        assert(step(before, EventView::Frame(frames[k - 1])) == on_more_text(before, text));
    }
}

/// A multi-frame operation that runs out of time returns what it has
/// collected, and fails only where that is nothing.
pub proof fn lemma_timeout_with_data_is_success(c: ClientView)
    requires
        c.phase == Phase::ReadingReply,
        is_multi_frame(c.operation),
    ensures
        c.output.len() > 0 ==> step(c, EventView::TimedOut).1 == ActionView::Return(
            Ok(ReplyView::Text(c.output)),
        ),
        c.output.len() == 0 ==> step(c, EventView::TimedOut).1 == ActionView::Return(
            Err(HdcErrorView::Timeout),
        ),
{
}

/// True while the session connects again to `device` after a shell command
/// whose output was `output`.
pub open spec fn reconnecting(c: ClientView, device: Seq<char>, output: Seq<char>) -> bool {
    &&& c.operation == Operation::Reconnect
    &&& c.output == output
    &&& c.key == Some(device)
    &&& c.connect_key == Some(device)
    &&& !c.handshake_ok
    &&& (c.phase == Phase::Connecting || (c.connected && (c.phase == Phase::ReadingHandshake
        || c.phase == Phase::WritingHandshake)))
}

/// The response to a shell command with a device selected starts the
/// reconnection to that device: the connection held is dropped and a new
/// one is asked for.
pub proof fn lemma_shell_starts_reconnection(c: ClientView, data: Seq<u8>, device: Seq<char>)
    requires
        c.phase == Phase::ReadingReply,
        c.operation == Operation::Shell,
        c.connect_key == Some(device),
    ensures
        reconnecting(step(c, EventView::Frame(data)).0, device, text_lossy(data)),
        !step(c, EventView::Frame(data)).0.established(),
        step(c, EventView::Frame(data)).1 == (ActionView::Connect {
            address: c.address,
            timeout_secs: 10,
            drop_current: true,
        }),
{
}

/// Whatever happens while the session reconnects after a shell command,
/// the command's output is what is returned: each event either takes the
/// reconnection one step on or ends it with that output. The device stays
/// selected, and the session ends established exactly if the event was the
/// writing of the handshake response.
pub proof fn lemma_reconnection_returns_output(
    c: ClientView,
    event: EventView,
    device: Seq<char>,
    output: Seq<char>,
)
    requires
        reconnecting(c, device, output),
        answers(c.phase, event),
    ensures
        ({
            let (next, action) = step(c, event);
            ||| reconnecting(next, device, output) && !(action is Return) && !next.established()
            ||| (action == ActionView::Return(Ok(ReplyView::Text(output))) && next.phase
                == Phase::Idle && next.connect_key == Some(device) && (next.established() <==> (
            c.phase == Phase::WritingHandshake && event == EventView::Written)))
        }),
{
}

/// The monitor hands a device list to the caller exactly if it differs from
/// the list handed over last; otherwise it waits for its next turn. Either
/// way the list read is the one that the next is held against.
pub proof fn lemma_monitor_reports_changes_only(c: ClientView, data: Seq<u8>)
    requires
        c.phase == Phase::ReadingReply,
        c.operation == Operation::Monitor,
        reply_text(data) is Some,
    ensures
        ({
            let devices = device_lines(reply_text(data)->0);
            let (next, action) = step(c, EventView::Frame(data));
            &&& devices != c.snapshot ==> action == ActionView::DeviceList { devices }
            &&& devices == c.snapshot ==> action == ActionView::Sleep
            &&& next.snapshot == devices
            &&& next.operation == Operation::Monitor
        }),
{
}

/// Between two device lists the monitor keeps the list handed over last,
/// and nothing but the caller's word ends it: every other event, a failure
/// too, leads to a further action of the monitor.
pub proof fn lemma_monitor_goes_on(c: ClientView, event: EventView)
    requires
        c.operation == Operation::Monitor,
        c.phase != Phase::Closing,
        answers(c.phase, event),
        !(c.phase == Phase::ReadingReply && event is Frame),
    ensures
        ({
            let (next, action) = step(c, event);
            &&& next.snapshot == c.snapshot
            &&& next.operation == Operation::Monitor
            &&& action is Return ==> action == ActionView::Return(Ok(ReplyView::Unit)) && event
                == EventView::Verdict(false)
        }),
{
}

/// The device list that the monitor reads on an event, if it reads one: the
/// lines of a response frame whose text is valid.
pub open spec fn list_read(c: ClientView, event: EventView) -> Option<Seq<Seq<char>>> {
    if c.operation == Operation::Monitor && c.phase == Phase::ReadingReply {
        match event {
            EventView::Frame(data) => match reply_text(data) {
                Some(text) => Some(device_lines(text)),
                None => None,
            },
            _ => None,
        }
    } else {
        None
    }
}

/// The device lists that the monitor reads in the course of `events`, in
/// order.
pub open spec fn lists_read(c: ClientView, events: Seq<EventView>) -> Seq<Seq<Seq<char>>>
    decreases events.len(),
{
    if events.len() == 0 {
        Seq::empty()
    } else {
        let rest = lists_read(step(c, events[0]).0, events.drop_first());
        match list_read(c, events[0]) {
            Some(devices) => seq![devices] + rest,
            None => rest,
        }
    }
}

/// The device lists that are handed to the caller in the course of
/// `events`, in order.
pub open spec fn lists_reported(c: ClientView, events: Seq<EventView>) -> Seq<Seq<Seq<char>>>
    decreases events.len(),
{
    if events.len() == 0 {
        Seq::empty()
    } else {
        let rest = lists_reported(step(c, events[0]).0, events.drop_first());
        match step(c, events[0]).1 {
            ActionView::DeviceList { devices } => seq![devices] + rest,
            _ => rest,
        }
    }
}

/// The lists among `lists` that differ from the one before them, the first
/// being held against `last`.
pub open spec fn changes(last: Seq<Seq<char>>, lists: Seq<Seq<Seq<char>>>) -> Seq<
    Seq<Seq<char>>,
>
    decreases lists.len(),
{
    if lists.len() == 0 {
        Seq::empty()
    } else if lists[0] != last {
        seq![lists[0]] + changes(lists[0], lists.drop_first())
    } else {
        changes(last, lists.drop_first())
    }
}

/// Change detection of the monitor: whatever happens, the caller is handed
/// exactly those device lists that differ from the list read before them,
/// and never a list that repeats the last one.
pub proof fn lemma_monitor_change_detection(c: ClientView, events: Seq<EventView>)
    requires
        c.operation == Operation::Monitor,
    ensures
        lists_reported(c, events) == changes(c.snapshot, lists_read(c, events)),
    decreases events.len(),
{
    if events.len() > 0 {
        let (next, action) = step(c, events[0]);
        let rest = events.drop_first();
        assert(next.operation == Operation::Monitor);
        lemma_monitor_change_detection(next, rest);
        match list_read(c, events[0]) {
            Some(devices) => {
                let read = seq![devices] + lists_read(next, rest);
                assert(read.drop_first() =~= lists_read(next, rest));
                assert(next.snapshot == devices);
            },
            None => {
                assert(next.snapshot == c.snapshot);
                assert(!(action is DeviceList));
            },
        }
    }
}

} // verus!
