//! The session: one connection to the server, and the decisions of every
//! protocol operation on it.
//!
//! The session performs no I/O. An operation starts with a call of its
//! method, which gives the first [`Action`]: something for the driver to do
//! on the socket. The driver does it and reports the outcome as an
//! [`Event`] to [`HdcClient::resume`], which gives the next action, until
//! the action is [`Action::Return`] with the result of the operation.

use vstd::prelude::*;
use vstd::string::*;
use vstd::utf8::{decode_utf8, encode_utf8, valid_utf8};

use crate::app::{install_flags, uninstall_flags, InstallOptions, UninstallOptions};
use crate::error::{HdcError, HdcErrorView};
use crate::file::{path_ok, transfer_flags, validate_path, FileTransferOptions};
use crate::forward::{fport_text, node_pair_string, rport_text, ForwardNode};
use crate::protocol::channel::{
    banner_ok, full_bytes, handshake_of, padded, short_bytes, too_short_text, ChannelHandShake,
    HandShakeView,
};
use crate::protocol::command::{is_decoded_code, HdcCommand};
use crate::protocol::packet::{be_value, encode_oversize_text, frame_of, PacketCodec};
use crate::protocol::MAX_PACKET_SIZE;
use crate::text::{
    chars_of, contains_text, device_lines, find_in, find_text, from_utf8_lossy, has_prefix,
    has_text, join_with_space, lemma_find_text_is, split_lines, string_of, text_lossy, texts,
    trim_range, trimmed,
};

verus! {

/// Seconds allowed for opening a connection.
pub const CONNECT_TIMEOUT_SECS: u64 = 10;

/// Seconds allowed for the one response of a single-shot operation.
pub const REPLY_TIMEOUT_SECS: u64 = 10;

/// Seconds allowed for the response of a shell command.
pub const SHELL_TIMEOUT_SECS: u64 = 5;

/// Seconds allowed for each response frame of an install.
pub const INSTALL_TIMEOUT_SECS: u64 = 30;

/// Seconds allowed for each response frame of a file transfer.
pub const TRANSFER_TIMEOUT_SECS: u64 = 60;

/// Seconds allowed for each response frame of a log read, buffered or
/// streamed.
pub const LOG_TIMEOUT_SECS: u64 = 30;

/// What the session is waiting for.
#[derive(Debug, Clone, Copy, PartialEq, Eq, Structural)]
pub enum Phase {
    /// No operation is in progress.
    Idle,
    /// A connection is being opened.
    Connecting,
    /// The server's handshake is being read.
    ReadingHandshake,
    /// The handshake response is being written.
    WritingHandshake,
    /// A command is being written.
    WritingCommand,
    /// A response frame is being read.
    ReadingReply,
    /// The caller is looking at a log chunk or a device list.
    AwaitingVerdict,
    /// The polling monitor is waiting for its next turn.
    Sleeping,
    /// The socket is being dropped.
    Closing,
}

/// The kinds of operation, by what they do with the response.
#[derive(Debug, Clone, Copy, PartialEq, Eq, Structural)]
pub enum Operation {
    /// Connect and shake hands; nothing is sent after that.
    Connect,
    /// Send one command and read nothing.
    Send,
    /// Read one frame and return its bytes.
    ReadBytes,
    /// Read one frame and return its text.
    ReadText,
    /// One response frame, returned as text.
    Text,
    /// One response frame, returned as its lines.
    Lines,
    /// One response frame with the list of forwards.
    ForwardList,
    /// One response frame with the outcome of removing a forward.
    ForwardRemove,
    /// One response frame that names the device waited for.
    WaitDevice,
    /// One response frame with the output of a shell command.
    Shell,
    /// The reconnection that follows a shell command.
    Reconnect,
    /// Response frames until an install reports its outcome.
    Install,
    /// Response frames until a file transfer reports its outcome.
    Transfer,
    /// Response frames of a log, collected until the log falls silent.
    Log,
    /// Response frames of a log, handed to the caller one by one.
    Stream,
    /// Polling of the device list.
    Monitor,
    /// Closing the connection.
    Close,
}

/// What a finished operation returns.
#[derive(Debug)]
pub enum Reply {
    /// Nothing but success.
    Unit,
    /// The payload of a frame.
    Bytes(Vec<u8>),
    /// The text of the response.
    Text(String),
    /// The lines of the response.
    List(Vec<String>),
}

/// The mathematical content of a [`Reply`].
pub enum ReplyView {
    Unit,
    Bytes(Seq<u8>),
    Text(Seq<char>),
    List(Seq<Seq<char>>),
}

impl View for Reply {
    type V = ReplyView;

    open spec fn view(&self) -> ReplyView {
        match self {
            Reply::Unit => ReplyView::Unit,
            Reply::Bytes(bytes) => ReplyView::Bytes(bytes@),
            Reply::Text(text) => ReplyView::Text(text@),
            Reply::List(lines) => ReplyView::List(texts(lines@)),
        }
    }
}

/// What the driver is asked to do next.
#[derive(Debug)]
pub enum Action {
    /// Open a TCP connection to `address`, giving up after `timeout_secs`
    /// seconds. With `drop_current` the socket held is dropped before the
    /// attempt; without it the new socket takes the place of the old one
    /// only if the attempt succeeds. Answer with `Connected`, `Failed` or
    /// `TimedOut`.
    Connect { address: String, timeout_secs: u64, drop_current: bool },
    /// Write these bytes, one whole frame, and flush. Answer with `Written`
    /// or `Failed`.
    Write { frame: Vec<u8> },
    /// Read one frame, giving up after `limit_secs` seconds if a limit is
    /// given. Answer with `Frame`, `Failed` or `TimedOut`.
    Read { limit_secs: Option<u64> },
    /// Drop the socket. Answer with `Closed`.
    Close,
    /// Hand the log chunk to the caller. Answer with `Verdict`: whether the
    /// caller wants more.
    LogChunk { chunk: String },
    /// Hand the changed device list to the caller. Answer with `Verdict`:
    /// whether the caller wants to go on.
    DeviceList { devices: Vec<String> },
    /// Wait one polling interval. Answer with `Slept`.
    Sleep,
    /// The operation is over; this is its result.
    Return(Result<Reply, HdcError>),
}

/// The mathematical content of an [`Action`].
pub enum ActionView {
    Connect { address: Seq<char>, timeout_secs: u64, drop_current: bool },
    Write { frame: Seq<u8> },
    Read { limit_secs: Option<u64> },
    Close,
    LogChunk { chunk: Seq<char> },
    DeviceList { devices: Seq<Seq<char>> },
    Sleep,
    Return(Result<ReplyView, HdcErrorView>),
}

impl View for Action {
    type V = ActionView;

    open spec fn view(&self) -> ActionView {
        match self {
            Action::Connect { address, timeout_secs, drop_current } => ActionView::Connect {
                address: address@,
                timeout_secs: *timeout_secs,
                drop_current: *drop_current,
            },
            Action::Write { frame } => ActionView::Write { frame: frame@ },
            Action::Read { limit_secs } => ActionView::Read { limit_secs: *limit_secs },
            Action::Close => ActionView::Close,
            Action::LogChunk { chunk } => ActionView::LogChunk { chunk: chunk@ },
            Action::DeviceList { devices } => ActionView::DeviceList { devices: texts(devices@) },
            Action::Sleep => ActionView::Sleep,
            Action::Return(Ok(reply)) => ActionView::Return(Ok(reply@)),
            Action::Return(Err(e)) => ActionView::Return(Err(e@)),
        }
    }
}

/// What the driver reports back.
#[derive(Debug)]
pub enum Event {
    /// The connection is open.
    Connected,
    /// The frame was written.
    Written,
    /// A frame was read; this is its payload.
    Frame(Vec<u8>),
    /// The time allowed ran out.
    TimedOut,
    /// The transport failed, or the frame read was malformed.
    Failed(HdcError),
    /// The caller's answer to a log chunk or a device list: go on or stop.
    Verdict(bool),
    /// The polling interval is over.
    Slept,
    /// The socket was dropped.
    Closed,
}

/// The mathematical content of an [`Event`].
pub enum EventView {
    Connected,
    Written,
    Frame(Seq<u8>),
    TimedOut,
    Failed(HdcErrorView),
    Verdict(bool),
    Slept,
    Closed,
}

impl View for Event {
    type V = EventView;

    open spec fn view(&self) -> EventView {
        match self {
            Event::Connected => EventView::Connected,
            Event::Written => EventView::Written,
            Event::Frame(data) => EventView::Frame(data@),
            Event::TimedOut => EventView::TimedOut,
            Event::Failed(e) => EventView::Failed(e@),
            Event::Verdict(go) => EventView::Verdict(*go),
            Event::Slept => EventView::Slept,
            Event::Closed => EventView::Closed,
        }
    }
}

/// The mathematical content of an [`HdcClient`].
pub struct ClientView {
    /// The server's address.
    pub address: Seq<char>,
    /// Whether the driver holds an open socket.
    pub connected: bool,
    /// The channel id that the server assigned in the last handshake.
    pub channel_id: u32,
    /// Whether the handshake on the socket held is complete.
    pub handshake_ok: bool,
    /// The device selected, if any.
    pub connect_key: Option<Seq<char>>,
    /// What the session is waiting for.
    pub phase: Phase,
    /// The operation in progress.
    pub operation: Operation,
    /// The device identity for the handshake in progress.
    pub key: Option<Seq<char>>,
    /// The command to send once the handshake is complete.
    pub command: Seq<char>,
    /// The response text collected so far.
    pub output: Seq<char>,
    /// The device list last handed to the caller by the monitor.
    pub snapshot: Seq<Seq<char>>,
}

impl ClientView {
    /// True if operations may be issued: a socket is held and its handshake
    /// is complete.
    pub open spec fn established(self) -> bool {
        self.handshake_ok && self.connected
    }

    /// What holds of every session: a handshake is complete, or under way,
    /// only on an open connection.
    pub open spec fn well_formed(self) -> bool {
        &&& self.handshake_ok ==> self.connected
        &&& self.phase == Phase::ReadingHandshake ==> self.connected
        &&& self.phase == Phase::WritingHandshake ==> self.connected
    }
}

/// The number that two bytes hold, least significant first.
pub open spec fn le_u16(b0: u8, b1: u8) -> u16 {
    (b0 as int + b1 as int * 256) as u16
}

/// The part of a response payload that is text: what follows the first two
/// bytes if they are a command code that is decoded, else all of it.
pub open spec fn reply_payload(data: Seq<u8>) -> Seq<u8> {
    if data.len() >= 2 && is_decoded_code(le_u16(data[0], data[1])) {
        data.skip(2)
    } else {
        data
    }
}

/// The text of a response payload, if its text part is valid UTF-8.
pub open spec fn reply_text(data: Seq<u8>) -> Option<Seq<char>> {
    if valid_utf8(reply_payload(data)) {
        Some(decode_utf8(reply_payload(data)))
    } else {
        None
    }
}

/// The device named by the response to `wait`: what stands between the
/// first `is ` and the next one, or the end; the whole response if it holds
/// no `is `. White space at the ends falls away.
pub open spec fn waited_device(text: Seq<char>) -> Seq<char> {
    let sep = "is "@;
    if has_text(text, sep) {
        let rest = text.skip(find_text(text, sep) + sep.len());
        trimmed(rest.take(find_text(rest, sep)))
    } else {
        trimmed(text)
    }
}

/// True if the text collected by a multi-frame operation holds one of the
/// markers by which the server reports the outcome.
pub open spec fn outcome_reported(operation: Operation, text: Seq<char>) -> bool {
    match operation {
        Operation::Install => has_text(text, "Success"@) || has_text(text, "success"@)
            || has_text(text, "Fail"@) || has_text(text, "fail"@),
        Operation::Transfer => has_text(text, "FileTransfer finish"@) || has_text(
            text,
            "Transfer finish"@,
        ) || has_text(text, "[Fail]"@) || has_text(text, "fail"@),
        _ => false,
    }
}

/// The seconds allowed for one response frame of an operation; no limit for
/// a bare read.
pub open spec fn reply_timeout(operation: Operation) -> Option<u64> {
    match operation {
        Operation::ReadBytes | Operation::ReadText => None,
        Operation::Shell => Some(SHELL_TIMEOUT_SECS),
        Operation::Install => Some(INSTALL_TIMEOUT_SECS),
        Operation::Transfer => Some(TRANSFER_TIMEOUT_SECS),
        Operation::Log | Operation::Stream => Some(LOG_TIMEOUT_SECS),
        _ => Some(REPLY_TIMEOUT_SECS),
    }
}

/// The text of the error for an event that does not answer the action
/// given.
pub open spec fn unexpected_text() -> Seq<char> {
    "Unexpected event"@
}

/// Ending the operation with the result `r`.
pub open spec fn finish(c: ClientView, r: Result<ReplyView, HdcErrorView>) -> (
    ClientView,
    ActionView,
) {
    (ClientView { phase: Phase::Idle, ..c }, ActionView::Return(r))
}

/// What a failure does to the operation. The reconnection after a shell
/// command swallows it and returns the shell's output; the monitor swallows
/// it and waits for its next turn; every other operation ends with the
/// error.
pub open spec fn fail(c: ClientView, e: HdcErrorView) -> (ClientView, ActionView) {
    match c.operation {
        Operation::Reconnect => finish(c, Ok(ReplyView::Text(c.output))),
        Operation::Monitor => (ClientView { phase: Phase::Sleeping, ..c }, ActionView::Sleep),
        _ => finish(c, Err(e)),
    }
}

/// Ending the operation on an event that does not answer the action given.
pub open spec fn unexpected(c: ClientView) -> (ClientView, ActionView) {
    finish(c, Err(HdcErrorView::Protocol(unexpected_text())))
}

/// Asking for a new connection, on which the handshake will carry `key`.
/// With `drop_current` the session is disconnected at once.
pub open spec fn start_connect(c: ClientView, key: Option<Seq<char>>, drop_current: bool) -> (
    ClientView,
    ActionView,
) {
    (
        ClientView {
            phase: Phase::Connecting,
            key,
            connected: c.connected && !drop_current,
            handshake_ok: c.handshake_ok && !drop_current,
            ..c
        },
        ActionView::Connect {
            address: c.address,
            timeout_secs: CONNECT_TIMEOUT_SECS,
            drop_current,
        },
    )
}

/// Sending a command line as one frame. Fails with `NotConnected` unless the
/// session is established, and with a buffer error if the command does not
/// fit in a frame.
pub open spec fn start_command(c: ClientView, command: Seq<char>) -> (ClientView, ActionView) {
    if !c.established() {
        fail(c, HdcErrorView::NotConnected)
    } else if encode_utf8(command).len() > MAX_PACKET_SIZE {
        fail(c, HdcErrorView::BufferError(encode_oversize_text(encode_utf8(command).len())))
    } else {
        (
            ClientView { phase: Phase::WritingCommand, ..c },
            ActionView::Write { frame: frame_of(encode_utf8(command)) },
        )
    }
}

/// Asking for the next response frame of the operation.
pub open spec fn start_read(c: ClientView) -> (ClientView, ActionView) {
    (
        ClientView { phase: Phase::ReadingReply, ..c },
        ActionView::Read { limit_secs: reply_timeout(c.operation) },
    )
}

/// The handshake sent back for the one received in `data`: the same banner
/// and version, the second field holding the device identity (all zeros for
/// none), in the form that was received, short if `data` has fewer than 108
/// bytes and full otherwise.
pub open spec fn handshake_response(data: Seq<u8>, key: Option<Seq<char>>) -> Seq<u8>
    recommends
        data.len() >= 44,
{
    let received = handshake_of(data);
    let identity = match key {
        Some(k) => encode_utf8(k),
        None => Seq::empty(),
    };
    let response = HandShakeView { channel_id_or_key: padded(identity, 32), ..received };
    if data.len() >= 108 {
        full_bytes(response)
    } else {
        short_bytes(response)
    }
}

/// The server's handshake has arrived: check it, take the channel id,
/// remember the device identity if one is being selected, and write the
/// response.
pub open spec fn on_handshake(c: ClientView, data: Seq<u8>) -> (ClientView, ActionView) {
    if data.len() < 44 {
        fail(c, HdcErrorView::Protocol(too_short_text(data.len())))
    } else if !banner_ok(handshake_of(data).banner) {
        fail(c, HdcErrorView::InvalidBanner(handshake_of(data).banner))
    } else {
        (
            ClientView {
                phase: Phase::WritingHandshake,
                channel_id: be_value(handshake_of(data).channel_id_or_key) as u32,
                connect_key: if c.key is Some {
                    c.key
                } else {
                    c.connect_key
                },
                ..c
            },
            ActionView::Write { frame: frame_of(handshake_response(data, c.key)) },
        )
    }
}

/// The handshake response is written: the session is established, and the
/// operation goes on with its command, if it has one.
pub open spec fn on_established(c: ClientView) -> (ClientView, ActionView) {
    let c = ClientView { handshake_ok: true, ..c };
    match c.operation {
        Operation::Connect => finish(c, Ok(ReplyView::Unit)),
        Operation::Reconnect => finish(c, Ok(ReplyView::Text(c.output))),
        Operation::Monitor => start_command(c, "list targets"@),
        _ => start_command(c, c.command),
    }
}

/// The command is written: read the response, unless nothing is to be read.
pub open spec fn on_command_written(c: ClientView) -> (ClientView, ActionView) {
    if c.operation == Operation::Send {
        finish(c, Ok(ReplyView::Unit))
    } else {
        start_read(c)
    }
}

/// The response to a shell command has arrived. The server has used up the
/// channel, so if a device is selected the session connects to it again
/// before the output is returned.
pub open spec fn on_shell_output(c: ClientView, data: Seq<u8>) -> (ClientView, ActionView) {
    let c = ClientView { output: text_lossy(data), ..c };
    if c.connect_key is Some {
        start_connect(ClientView { operation: Operation::Reconnect, ..c }, c.connect_key, true)
    } else {
        finish(c, Ok(ReplyView::Text(c.output)))
    }
}

/// One more frame of a multi-frame response has arrived, with the text
/// `text`. An empty text ends the operation; otherwise the text is added to
/// what was collected, and the operation ends if the outcome is now
/// reported.
pub open spec fn on_more_text(c: ClientView, text: Seq<char>) -> (ClientView, ActionView) {
    if text.len() == 0 {
        finish(c, Ok(ReplyView::Text(c.output)))
    } else {
        let c = ClientView { output: c.output + text, ..c };
        if outcome_reported(c.operation, c.output) {
            finish(c, Ok(ReplyView::Text(c.output)))
        } else {
            start_read(c)
        }
    }
}

/// The monitor has read the device list. The caller hears of it only if it
/// differs from the list it heard of last.
pub open spec fn on_device_list(c: ClientView, devices: Seq<Seq<char>>) -> (
    ClientView,
    ActionView,
) {
    if devices != c.snapshot {
        (
            ClientView { phase: Phase::AwaitingVerdict, snapshot: devices, ..c },
            ActionView::DeviceList { devices },
        )
    } else {
        (ClientView { phase: Phase::Sleeping, ..c }, ActionView::Sleep)
    }
}

/// A response frame has arrived whose text is `text`.
pub open spec fn on_reply_text(c: ClientView, text: Seq<char>) -> (ClientView, ActionView) {
    match c.operation {
        Operation::Lines => finish(c, Ok(ReplyView::List(device_lines(text)))),
        Operation::ForwardList => if "[Fail]"@.is_prefix_of(text) {
            finish(c, Err(HdcErrorView::Protocol(text)))
        } else {
            finish(c, Ok(ReplyView::List(device_lines(text))))
        },
        Operation::ForwardRemove => if "[Fail]"@.is_prefix_of(text) {
            finish(c, Err(HdcErrorView::Protocol(text)))
        } else {
            finish(c, Ok(ReplyView::Text(text)))
        },
        Operation::WaitDevice => finish(c, Ok(ReplyView::Text(waited_device(text)))),
        Operation::Install | Operation::Transfer | Operation::Log => on_more_text(c, text),
        Operation::Stream => if text.len() == 0 {
            finish(c, Ok(ReplyView::Unit))
        } else {
            (
                ClientView { phase: Phase::AwaitingVerdict, ..c },
                ActionView::LogChunk { chunk: text },
            )
        },
        Operation::Monitor => on_device_list(c, device_lines(text)),
        _ => finish(c, Ok(ReplyView::Text(text))),
    }
}

/// A response frame has arrived.
pub open spec fn on_reply(c: ClientView, data: Seq<u8>) -> (ClientView, ActionView) {
    match c.operation {
        Operation::ReadBytes => finish(c, Ok(ReplyView::Bytes(data))),
        Operation::Shell => on_shell_output(c, data),
        _ => match reply_text(data) {
            Some(text) => on_reply_text(c, text),
            None => fail(c, HdcErrorView::Utf8),
        },
    }
}

/// No response frame arrived in time. A multi-frame operation returns what
/// it has collected, and fails only if that is nothing; a stream ends; the
/// monitor waits for its next turn; every other operation fails.
pub open spec fn on_silence(c: ClientView) -> (ClientView, ActionView) {
    match c.operation {
        Operation::Install | Operation::Transfer | Operation::Log => if c.output.len() == 0 {
            finish(c, Err(HdcErrorView::Timeout))
        } else {
            finish(c, Ok(ReplyView::Text(c.output)))
        },
        Operation::Stream => finish(c, Ok(ReplyView::Unit)),
        _ => fail(c, HdcErrorView::Timeout),
    }
}

/// The caller has answered a log chunk or a device list.
pub open spec fn on_verdict(c: ClientView, go_on: bool) -> (ClientView, ActionView) {
    if !go_on {
        finish(c, Ok(ReplyView::Unit))
    } else if c.operation == Operation::Monitor {
        (ClientView { phase: Phase::Sleeping, ..c }, ActionView::Sleep)
    } else {
        start_read(c)
    }
}

/// True if `event` is an outcome of the action for which the session waits
/// in `phase`. A time-out is taken as a failure of any action on the socket.
pub open spec fn answers(phase: Phase, event: EventView) -> bool {
    match phase {
        Phase::Idle => false,
        Phase::Connecting => event is Connected || event is Failed || event is TimedOut,
        Phase::ReadingHandshake | Phase::ReadingReply => event is Frame || event is Failed
            || event is TimedOut,
        Phase::WritingHandshake | Phase::WritingCommand => event is Written || event is Failed
            || event is TimedOut,
        Phase::AwaitingVerdict => event is Verdict,
        Phase::Sleeping => event is Slept,
        Phase::Closing => event is Closed,
    }
}

/// The session's next state and action on an event. An event that does not
/// answer the action given ends the operation with a protocol error.
pub open spec fn step(c: ClientView, event: EventView) -> (ClientView, ActionView) {
    match (c.phase, event) {
        (Phase::Connecting, EventView::Connected) => (
            ClientView {
                phase: Phase::ReadingHandshake,
                connected: true,
                handshake_ok: false,
                ..c
            },
            ActionView::Read { limit_secs: None },
        ),
        (Phase::ReadingHandshake, EventView::Frame(data)) => on_handshake(c, data),
        (Phase::WritingHandshake, EventView::Written) => on_established(c),
        (Phase::WritingCommand, EventView::Written) => on_command_written(c),
        (Phase::ReadingReply, EventView::Frame(data)) => on_reply(c, data),
        (Phase::ReadingReply, EventView::TimedOut) => on_silence(c),
        (Phase::AwaitingVerdict, EventView::Verdict(go_on)) => on_verdict(c, go_on),
        (Phase::Sleeping, EventView::Slept) => start_connect(c, None, false),
        (Phase::Closing, EventView::Closed) => finish(c, Ok(ReplyView::Unit)),
        (Phase::Connecting, EventView::Failed(e))
        | (Phase::ReadingHandshake, EventView::Failed(e))
        | (Phase::WritingHandshake, EventView::Failed(e))
        | (Phase::WritingCommand, EventView::Failed(e))
        | (Phase::ReadingReply, EventView::Failed(e)) => fail(c, e),
        (Phase::Connecting, EventView::TimedOut)
        | (Phase::ReadingHandshake, EventView::TimedOut)
        | (Phase::WritingHandshake, EventView::TimedOut)
        | (Phase::WritingCommand, EventView::TimedOut) => fail(c, HdcErrorView::Timeout),
        _ => unexpected(c),
    }
}

/// A session that was just made for `address`: not connected, no device
/// selected, nothing in progress.
pub open spec fn fresh(address: Seq<char>) -> ClientView {
    ClientView {
        address,
        connected: false,
        channel_id: 0,
        handshake_ok: false,
        connect_key: None,
        phase: Phase::Idle,
        operation: Operation::Connect,
        key: None,
        command: Seq::empty(),
        output: Seq::empty(),
        snapshot: Seq::empty(),
    }
}

/// The session as a new operation finds it: whatever was in progress is
/// given up, and nothing is collected yet.
pub open spec fn begin(c: ClientView, operation: Operation, command: Seq<char>) -> ClientView {
    ClientView {
        phase: Phase::Idle,
        operation,
        command,
        key: None,
        output: Seq::empty(),
        snapshot: Seq::empty(),
        ..c
    }
}

/// Starting an operation that sends `command` on the connection held.
pub open spec fn issue(c: ClientView, operation: Operation, command: Seq<char>) -> (
    ClientView,
    ActionView,
) {
    start_command(begin(c, operation, command), command)
}

/// Starting an operation that first connects to `device` and then sends
/// `command`.
pub open spec fn issue_on_device(
    c: ClientView,
    operation: Operation,
    device: Seq<char>,
    command: Seq<char>,
) -> (ClientView, ActionView) {
    start_connect(begin(c, operation, command), Some(device), true)
}

/// Starting an operation on a session of its own, which connects to
/// `address` with no device selected and then sends `command`.
pub open spec fn issue_apart(address: Seq<char>, operation: Operation, command: Seq<char>) -> (
    ClientView,
    ActionView,
) {
    start_connect(begin(fresh(address), operation, command), None, false)
}

/// Starting a bare read on the connection held.
pub open spec fn issue_read(c: ClientView, operation: Operation) -> (ClientView, ActionView) {
    let c = begin(c, operation, Seq::empty());
    if c.established() {
        start_read(c)
    } else {
        finish(c, Err(HdcErrorView::NotConnected))
    }
}

/// A command line: the verb, which ends with a space, then the flags and a
/// space if there are flags, then the rest.
pub open spec fn with_flags(verb: Seq<char>, flags: Seq<char>, rest: Seq<char>) -> Seq<char> {
    if flags.len() == 0 {
        verb + rest
    } else {
        verb + flags + seq![' '] + rest
    }
}

/// The texts that a list of string slices holds.
pub open spec fn slice_texts(v: Seq<&str>) -> Seq<Seq<char>> {
    Seq::new(v.len(), |i: int| v[i]@)
}

/// The command line of a log read.
pub open spec fn hilog_text(args: Option<&str>) -> Seq<char> {
    match args {
        Some(args) => "hilog "@ + args@,
        None => "hilog"@,
    }
}

/// The text of the error for a transfer whose local or remote path is empty
/// or holds a NUL character.
pub open spec fn invalid_path_text() -> Seq<char> {
    "Invalid file path"@
}

/// Starting a file transfer with the command line `verb flags first second`.
pub open spec fn issue_transfer(
    c: ClientView,
    verb: Seq<char>,
    flags: Seq<char>,
    first: Seq<char>,
    second: Seq<char>,
) -> (ClientView, ActionView) {
    let command = with_flags(verb, flags, first + seq![' '] + second);
    if path_ok(first) && path_ok(second) {
        issue(c, Operation::Transfer, command)
    } else {
        finish(
            begin(c, Operation::Transfer, Seq::empty()),
            Err(HdcErrorView::Protocol(invalid_path_text())),
        )
    }
}

/// The text of an optional string.
pub open spec fn optional_text(s: Option<String>) -> Option<Seq<char>> {
    match s {
        Some(s) => Some(s@),
        None => None,
    }
}

/// The mathematical content of the result of an operation.
pub open spec fn result_view(r: Result<Reply, HdcError>) -> Result<ReplyView, HdcErrorView> {
    match r {
        Ok(reply) => Ok(reply@),
        Err(e) => Err(e@),
    }
}

/// A copy of a list of strings.
fn copy_lines(lines: &Vec<String>) -> (copy: Vec<String>)
    ensures
        texts(copy@) == texts(lines@),
{
    let mut copy: Vec<String> = Vec::new();
    let mut i: usize = 0;
    while i < lines.len()
        invariant
            i <= lines@.len(),
            copy@.len() == i,
            forall|k: int| 0 <= k < i ==> copy@[k]@ == lines@[k]@,
        decreases lines@.len() - i,
    {
        copy.push(lines[i].clone());
        i += 1;
    }
    assert(texts(copy@) =~= texts(lines@));
    copy
}

/// True if two lists hold the same texts in the same order.
fn same_lines(a: &Vec<String>, b: &Vec<String>) -> (same: bool)
    ensures
        same == (texts(a@) == texts(b@)),
{
    if a.len() != b.len() {
        assert(texts(a@).len() != texts(b@).len());
        return false;
    }
    let mut i: usize = 0;
    while i < a.len()
        invariant
            i <= a@.len() == b@.len(),
            forall|k: int| 0 <= k < i ==> a@[k]@ == b@[k]@,
        decreases a@.len() - i,
    {
        if a[i] != b[i] {
            assert(texts(a@)[i as int] != texts(b@)[i as int]);
            return false;
        }
        i += 1;
    }
    assert(texts(a@) =~= texts(b@));
    true
}

/// The text of a response payload: the payload without its command code,
/// if it opens with one that is decoded, read as UTF-8.
pub fn response_string(data: Vec<u8>) -> (r: Result<String, HdcError>)
    ensures
        match reply_text(data@) {
            Some(text) => r matches Ok(s) && s@ == text,
            None => r matches Err(e) && e@ == HdcErrorView::Utf8,
        },
{
    let mut strip = false;
    if data.len() >= 2 {
        let code: u16 = (data[0] as u16) + (data[1] as u16) * 256;
        strip = HdcCommand::from_u16(code).is_some();
    }
    let payload = if strip {
        let mut rest: Vec<u8> = Vec::with_capacity(data.len() - 2);
        let mut i: usize = 2;
        while i < data.len()
            invariant
                2 <= i <= data@.len(),
                rest@ == data@.subrange(2, i as int),
            decreases data@.len() - i,
        {
            rest.push(data[i]);
            i += 1;
            assert(rest@ =~= data@.subrange(2, i as int));
        }
        assert(rest@ =~= data@.skip(2));
        rest
    } else {
        data
    };
    match String::from_utf8(payload) {
        Ok(s) => Ok(s),
        Err(e) => Err(HdcError::Utf8(e)),
    }
}

/// The device that the response to `wait` names.
pub fn device_waited_for(response: &str) -> (device: String)
    ensures
        device@ == waited_device(response@),
{
    let chars = chars_of(response);
    let n = chars.len();
    let sep = chars_of("is ");
    assert(chars@.subrange(0, n as int) =~= response@);
    match find_in(&chars, 0, n, sep.as_slice()) {
        None => {
            let (a, b) = trim_range(&chars, 0, n);
            string_of(&chars, a, b)
        },
        Some(at) => {
            proof {
                lemma_find_text_is(response@, sep@, at as int);
            }
            let start: usize = at + sep.len();
            let ghost rest = response@.skip(start as int);
            assert(chars@.subrange(start as int, n as int) =~= rest);
            let end: usize = match find_in(&chars, start, n, sep.as_slice()) {
                Some(next) => {
                    proof {
                        lemma_find_text_is(rest, sep@, next as int);
                    }
                    start + next
                },
                None => n,
            };
            assert(chars@.subrange(start as int, end as int) =~= rest.take(end - start));
            let (a, b) = trim_range(&chars, start, end);
            string_of(&chars, a, b)
        },
    }
}

/// True if the text collected by a multi-frame operation reports the
/// outcome.
pub fn is_outcome_reported(operation: Operation, text: &str) -> (b: bool)
    ensures
        b == outcome_reported(operation, text@),
{
    let chars = chars_of(text);
    match operation {
        Operation::Install => contains_text(&chars, "Success") || contains_text(&chars, "success")
            || contains_text(&chars, "Fail") || contains_text(&chars, "fail"),
        Operation::Transfer => contains_text(&chars, "FileTransfer finish") || contains_text(
            &chars,
            "Transfer finish",
        ) || contains_text(&chars, "[Fail]") || contains_text(&chars, "fail"),
        _ => false,
    }
}

/// The seconds allowed for one response frame of an operation.
pub fn timeout_of(operation: Operation) -> (t: Option<u64>)
    ensures
        t == reply_timeout(operation),
{
    match operation {
        Operation::ReadBytes | Operation::ReadText => None,
        Operation::Shell => Some(SHELL_TIMEOUT_SECS),
        Operation::Install => Some(INSTALL_TIMEOUT_SECS),
        Operation::Transfer => Some(TRANSFER_TIMEOUT_SECS),
        Operation::Log | Operation::Stream => Some(LOG_TIMEOUT_SECS),
        _ => Some(REPLY_TIMEOUT_SECS),
    }
}

/// The parts written one after another, with one space between each two.
pub fn join_paths(paths: &[&str]) -> (joined: String)
    ensures
        joined@ == join_with_space(slice_texts(paths@)),
{
    let mut joined = String::new();
    let mut i: usize = 0;
    let ghost parts = slice_texts(paths@);
    assert(parts.take(0) =~= Seq::<Seq<char>>::empty());
    while i < paths.len()
        invariant
            i <= paths@.len(),
            parts == slice_texts(paths@),
            joined@ == join_with_space(parts.take(i as int)),
        decreases paths@.len() - i,
    {
        if i > 0 {
            joined.push(' ');
        }
        joined.append(paths[i]);
        proof {
            let next = parts.take(i + 1);
            assert(next.drop_last() =~= parts.take(i as int));
            assert(next.last() == paths@[i as int]@);
            if i == 0 {
                assert(joined@ =~= next[0]);
            }
        }
        i += 1;
    }
    assert(parts.take(i as int) =~= parts);
    joined
}

/// The command line `verb flags rest`, or `verb rest` without flags.
pub fn command_with_flags(verb: &str, flags: &str, rest: &str) -> (command: String)
    ensures
        command@ == with_flags(verb@, flags@, rest@),
{
    let mut command = verb.to_owned();
    if !flags.is_empty() {
        command.append(flags);
        command.push(' ');
    }
    command.append(rest);
    command
}

/// One session with the server: the state of its connection and of the
/// operation in progress.
#[derive(Debug)]
pub struct HdcClient {
    /// Server address
    address: String,
    /// Whether the driver holds an open socket
    connected: bool,
    /// Channel id assigned by the server
    channel_id: u32,
    /// Whether the handshake is complete
    handshake_ok: bool,
    /// Current connect key (device identity)
    connect_key: Option<String>,
    phase: Phase,
    operation: Operation,
    key: Option<String>,
    command: String,
    output: String,
    snapshot: Vec<String>,
}

impl View for HdcClient {
    type V = ClientView;

    closed spec fn view(&self) -> ClientView {
        ClientView {
            address: self.address@,
            connected: self.connected,
            channel_id: self.channel_id,
            handshake_ok: self.handshake_ok,
            connect_key: optional_text(self.connect_key),
            phase: self.phase,
            operation: self.operation,
            key: optional_text(self.key),
            command: self.command@,
            output: self.output@,
            snapshot: texts(self.snapshot@),
        }
    }
}

impl HdcClient {
    /// Ends the operation with the result `r`.
    fn finish(&mut self, r: Result<Reply, HdcError>) -> (action: Action)
        ensures
            (final(self)@, action@) == finish(old(self)@, result_view(r)),
    {
        self.phase = Phase::Idle;
        Action::Return(r)
    }

    /// Reacts to a failure as the operation in progress asks.
    fn fail(&mut self, e: HdcError) -> (action: Action)
        ensures
            (final(self)@, action@) == fail(old(self)@, e@),
    {
        match self.operation {
            Operation::Reconnect => {
                let output = self.output.clone();
                self.finish(Ok(Reply::Text(output)))
            },
            Operation::Monitor => {
                self.phase = Phase::Sleeping;
                Action::Sleep
            },
            _ => self.finish(Err(e)),
        }
    }

    /// Ends the operation on an event that does not answer the action given.
    fn unexpected(&mut self) -> (action: Action)
        ensures
            (final(self)@, action@) == unexpected(old(self)@),
    {
        self.finish(Err(HdcError::Protocol("Unexpected event".to_owned())))
    }

    /// Asks for a new connection, on which the handshake will carry `key`.
    fn start_connect(&mut self, key: Option<String>, drop_current: bool) -> (action: Action)
        ensures
            (final(self)@, action@) == start_connect(
                old(self)@,
                optional_text(key),
                drop_current,
            ),
    {
        self.phase = Phase::Connecting;
        self.key = key;
        if drop_current {
            self.handshake_ok = false;
            self.connected = false;
        }
        Action::Connect {
            address: self.address.clone(),
            timeout_secs: CONNECT_TIMEOUT_SECS,
            drop_current,
        }
    }

    /// Sends a command line as one frame.
    fn start_command(&mut self, command: &str) -> (action: Action)
        ensures
            (final(self)@, action@) == start_command(old(self)@, command@),
    {
        if !(self.handshake_ok && self.connected) {
            return self.fail(HdcError::NotConnected);
        }
        let codec = PacketCodec::new();
        match codec.encode(command.as_bytes()) {
            Ok(frame) => {
                self.phase = Phase::WritingCommand;
                Action::Write { frame }
            },
            Err(e) => self.fail(e),
        }
    }

    /// Asks for the next response frame of the operation.
    fn start_read(&mut self) -> (action: Action)
        ensures
            (final(self)@, action@) == start_read(old(self)@),
    {
        self.phase = Phase::ReadingReply;
        Action::Read { limit_secs: timeout_of(self.operation) }
    }

    /// Handles the server's handshake: checks its length and banner, takes
    /// the channel id, puts the device identity in the union field (zeros
    /// for none) and answers in the form that was received.
    fn perform_handshake(&mut self, data: &[u8]) -> (action: Action)
        ensures
            (final(self)@, action@) == on_handshake(old(self)@, data@),
    {
        let mut handshake = match ChannelHandShake::from_bytes(data) {
            Ok(handshake) => handshake,
            Err(e) => {
                return self.fail(e);
            },
        };
        match handshake.verify_banner() {
            Ok(()) => {},
            Err(e) => {
                return self.fail(e);
            },
        }
        self.channel_id = handshake.get_channel_id();
        let key = self.key.clone();
        match key {
            Some(key) => {
                handshake.set_connect_key(key.as_str());
                self.connect_key = Some(key);
            },
            None => {
                proof {
                    reveal_strlit("");
                    assert(encode_utf8(""@) =~= Seq::<u8>::empty());
                }
                handshake.set_connect_key("");
            },
        }
        let response = if data.len() >= ChannelHandShake::SIZE {
            handshake.to_bytes()
        } else {
            handshake.to_bytes_without_version()
        };
        let codec = PacketCodec::new();
        match codec.encode(response.as_slice()) {
            Ok(frame) => {
                self.phase = Phase::WritingHandshake;
                Action::Write { frame }
            },
            Err(e) => self.fail(e),
        }
    }

    /// Goes on after the handshake response is written.
    fn on_established(&mut self) -> (action: Action)
        ensures
            (final(self)@, action@) == on_established(old(self)@),
    {
        self.handshake_ok = true;
        match self.operation {
            Operation::Connect => self.finish(Ok(Reply::Unit)),
            Operation::Reconnect => {
                let output = self.output.clone();
                self.finish(Ok(Reply::Text(output)))
            },
            Operation::Monitor => self.start_command("list targets"),
            _ => {
                let command = self.command.clone();
                self.start_command(command.as_str())
            },
        }
    }

    /// Handles the response to a shell command.
    fn on_shell_output(&mut self, data: &[u8]) -> (action: Action)
        ensures
            (final(self)@, action@) == on_shell_output(old(self)@, data@),
    {
        self.output = from_utf8_lossy(data);
        let device = self.connect_key.clone();
        match device {
            Some(device) => {
                self.operation = Operation::Reconnect;
                self.start_connect(Some(device), true)
            },
            None => {
                let output = self.output.clone();
                self.finish(Ok(Reply::Text(output)))
            },
        }
    }

    /// Handles one more frame of a multi-frame response.
    fn on_more_text(&mut self, text: String) -> (action: Action)
        ensures
            (final(self)@, action@) == on_more_text(old(self)@, text@),
    {
        if text.as_str().is_empty() {
            let output = self.output.clone();
            return self.finish(Ok(Reply::Text(output)));
        }
        self.output.append(text.as_str());
        if is_outcome_reported(self.operation, self.output.as_str()) {
            let output = self.output.clone();
            self.finish(Ok(Reply::Text(output)))
        } else {
            self.start_read()
        }
    }

    /// Handles the device list that the monitor has read.
    fn on_device_list(&mut self, devices: Vec<String>) -> (action: Action)
        ensures
            (final(self)@, action@) == on_device_list(old(self)@, texts(devices@)),
    {
        if !same_lines(&devices, &self.snapshot) {
            self.snapshot = copy_lines(&devices);
            self.phase = Phase::AwaitingVerdict;
            Action::DeviceList { devices }
        } else {
            self.phase = Phase::Sleeping;
            Action::Sleep
        }
    }

    /// Handles the text of a response frame.
    fn on_reply_text(&mut self, text: String) -> (action: Action)
        ensures
            (final(self)@, action@) == on_reply_text(old(self)@, text@),
    {
        match self.operation {
            Operation::Lines => {
                let lines = split_lines(text.as_str());
                self.finish(Ok(Reply::List(lines)))
            },
            Operation::ForwardList => {
                if Self::reports_failure(text.as_str()) {
                    self.finish(Err(HdcError::Protocol(text)))
                } else {
                    let lines = split_lines(text.as_str());
                    self.finish(Ok(Reply::List(lines)))
                }
            },
            Operation::ForwardRemove => {
                if Self::reports_failure(text.as_str()) {
                    self.finish(Err(HdcError::Protocol(text)))
                } else {
                    self.finish(Ok(Reply::Text(text)))
                }
            },
            Operation::WaitDevice => {
                let device = device_waited_for(text.as_str());
                self.finish(Ok(Reply::Text(device)))
            },
            Operation::Install | Operation::Transfer | Operation::Log => self.on_more_text(text),
            Operation::Stream => {
                if text.as_str().is_empty() {
                    self.finish(Ok(Reply::Unit))
                } else {
                    self.phase = Phase::AwaitingVerdict;
                    Action::LogChunk { chunk: text }
                }
            },
            Operation::Monitor => {
                let devices = split_lines(text.as_str());
                self.on_device_list(devices)
            },
            _ => self.finish(Ok(Reply::Text(text))),
        }
    }

    /// True if a response opens with the server's failure marker.
    fn reports_failure(text: &str) -> (b: bool)
        ensures
            b == "[Fail]"@.is_prefix_of(text@),
    {
        let chars = chars_of(text);
        let n = chars.len();
        assert(chars@.subrange(0, n as int) =~= text@);
        has_prefix(&chars, 0, n, "[Fail]")
    }

    /// Handles a response frame.
    fn on_reply(&mut self, data: Vec<u8>) -> (action: Action)
        ensures
            (final(self)@, action@) == on_reply(old(self)@, data@),
    {
        match self.operation {
            Operation::ReadBytes => self.finish(Ok(Reply::Bytes(data))),
            Operation::Shell => self.on_shell_output(data.as_slice()),
            _ => match response_string(data) {
                Ok(text) => self.on_reply_text(text),
                Err(e) => self.fail(e),
            },
        }
    }

    /// Handles a read that ran out of time.
    fn on_silence(&mut self) -> (action: Action)
        ensures
            (final(self)@, action@) == on_silence(old(self)@),
    {
        match self.operation {
            Operation::Install | Operation::Transfer | Operation::Log => {
                if self.output.as_str().is_empty() {
                    self.finish(Err(HdcError::Timeout))
                } else {
                    let output = self.output.clone();
                    self.finish(Ok(Reply::Text(output)))
                }
            },
            Operation::Stream => self.finish(Ok(Reply::Unit)),
            _ => self.fail(HdcError::Timeout),
        }
    }

    /// Handles the caller's answer to a log chunk or a device list.
    fn on_verdict(&mut self, go_on: bool) -> (action: Action)
        ensures
            (final(self)@, action@) == on_verdict(old(self)@, go_on),
    {
        if !go_on {
            self.finish(Ok(Reply::Unit))
        } else if self.operation == Operation::Monitor {
            self.phase = Phase::Sleeping;
            Action::Sleep
        } else {
            self.start_read()
        }
    }

    /// Takes the outcome of the last action and gives the next one. An
    /// event that does not answer the action given ends the operation with
    /// a protocol error.
    pub fn resume(&mut self, event: Event) -> (action: Action)
        ensures
            old(self)@.well_formed() ==> final(self)@.well_formed(),
            (final(self)@, action@) == step(old(self)@, event@),
    {
        match self.phase {
            Phase::Idle => self.unexpected(),
            Phase::Connecting => match event {
                Event::Connected => {
                    self.connected = true;
                    self.handshake_ok = false;
                    self.phase = Phase::ReadingHandshake;
                    Action::Read { limit_secs: None }
                },
                Event::Failed(e) => self.fail(e),
                Event::TimedOut => self.fail(HdcError::Timeout),
                _ => self.unexpected(),
            },
            Phase::ReadingHandshake => match event {
                Event::Frame(data) => self.perform_handshake(data.as_slice()),
                Event::Failed(e) => self.fail(e),
                Event::TimedOut => self.fail(HdcError::Timeout),
                _ => self.unexpected(),
            },
            Phase::WritingHandshake => match event {
                Event::Written => self.on_established(),
                Event::Failed(e) => self.fail(e),
                Event::TimedOut => self.fail(HdcError::Timeout),
                _ => self.unexpected(),
            },
            Phase::WritingCommand => match event {
                Event::Written => {
                    if self.operation == Operation::Send {
                        self.finish(Ok(Reply::Unit))
                    } else {
                        self.start_read()
                    }
                },
                Event::Failed(e) => self.fail(e),
                Event::TimedOut => self.fail(HdcError::Timeout),
                _ => self.unexpected(),
            },
            Phase::ReadingReply => match event {
                Event::Frame(data) => self.on_reply(data),
                Event::TimedOut => self.on_silence(),
                Event::Failed(e) => self.fail(e),
                _ => self.unexpected(),
            },
            Phase::AwaitingVerdict => match event {
                Event::Verdict(go_on) => self.on_verdict(go_on),
                _ => self.unexpected(),
            },
            Phase::Sleeping => match event {
                Event::Slept => self.start_connect(None, false),
                _ => self.unexpected(),
            },
            Phase::Closing => match event {
                Event::Closed => self.finish(Ok(Reply::Unit)),
                _ => self.unexpected(),
            },
        }
    }
}

impl HdcClient {
    /// Creates a session for the server at `address`; it is not connected.
    pub fn new(address: &str) -> (client: Self)
        ensures
            client@.well_formed(),
            client@ == fresh(address@),
    {
        let client = HdcClient {
            address: address.to_owned(),
            connected: false,
            channel_id: 0,
            handshake_ok: false,
            connect_key: None,
            phase: Phase::Idle,
            operation: Operation::Connect,
            key: None,
            command: String::new(),
            output: String::new(),
            snapshot: Vec::new(),
        };
        assert(texts(client.snapshot@) =~= Seq::<Seq<char>>::empty());
        client
    }

    /// Gives up whatever is in progress and sets the session up for a new
    /// operation.
    fn begin(&mut self, operation: Operation, command: String)
        ensures
            final(self)@ == begin(old(self)@, operation, command@),
    {
        self.phase = Phase::Idle;
        self.operation = operation;
        self.command = command;
        self.key = None;
        self.output = String::new();
        self.snapshot = Vec::new();
        assert(texts(self.snapshot@) =~= Seq::<Seq<char>>::empty());
    }

    /// Starts an operation that sends `command` on the connection held.
    fn issue(&mut self, operation: Operation, command: String) -> (action: Action)
        ensures
            (final(self)@, action@) == issue(old(self)@, operation, command@),
    {
        let line = command.clone();
        self.begin(operation, command);
        self.start_command(line.as_str())
    }

    /// Starts an operation that first connects to `device`.
    fn issue_on_device(&mut self, operation: Operation, device: &str, command: String) -> (action:
        Action)
        ensures
            (final(self)@, action@) == issue_on_device(old(self)@, operation, device@, command@),
    {
        self.begin(operation, command);
        self.start_connect(Some(device.to_owned()), true)
    }

    /// Makes a session of its own for an operation that is not bound to a
    /// device, and starts it.
    fn issue_apart(&self, operation: Operation, command: String) -> (r: (Self, Action))
        ensures
            (r.0@, r.1@) == issue_apart(self@.address, operation, command@),
    {
        let mut client = Self::new(self.address.as_str());
        client.begin(operation, command);
        let action = client.start_connect(None, false);
        (client, action)
    }

    /// Starts a bare read.
    fn issue_read(&mut self, operation: Operation) -> (action: Action)
        ensures
            (final(self)@, action@) == issue_read(old(self)@, operation),
    {
        self.begin(operation, String::new());
        if self.handshake_ok && self.connected {
            self.start_read()
        } else {
            self.finish(Err(HdcError::NotConnected))
        }
    }

    /// Starts a file transfer.
    fn issue_transfer(&mut self, verb: &str, flags: &str, first: &str, second: &str) -> (action:
        Action)
        ensures
            (final(self)@, action@) == issue_transfer(
                old(self)@,
                verb@,
                flags@,
                first@,
                second@,
            ),
    {
        if !validate_path(first) || !validate_path(second) {
            self.begin(Operation::Transfer, String::new());
            return self.finish(Err(HdcError::Protocol("Invalid file path".to_owned())));
        }
        let mut paths = first.to_owned();
        paths.push(' ');
        paths.append(second);
        assert(paths@ =~= first@ + seq![' '] + second@);
        let command = command_with_flags(verb, flags, paths.as_str());
        self.issue(Operation::Transfer, command)
    }

    /// Creates a session and starts connecting it to the server at
    /// `address`, with no device selected.
    pub fn connect(address: &str) -> (r: (Self, Action))
        ensures
            r.0@.well_formed(),
            (r.0@, r.1@) == issue_apart(address@, Operation::Connect, Seq::empty()),
    {
        let mut client = Self::new(address);
        client.begin(Operation::Connect, String::new());
        let action = client.start_connect(None, false);
        (client, action)
    }

    /// The server's address.
    pub fn address(&self) -> (address: &str)
        ensures
            address@ == self@.address,
    {
        self.address.as_str()
    }

    /// The channel id that the server assigned in the last handshake; zero
    /// before the first.
    pub fn channel_id(&self) -> (id: u32)
        ensures
            id == self@.channel_id,
    {
        self.channel_id
    }

    /// True if the handshake is complete on an open connection, so that
    /// operations may be issued.
    pub fn is_connected(&self) -> (b: bool)
        ensures
            b == self@.established(),
    {
        self.handshake_ok && self.connected
    }

    /// The identity of the device selected, if any.
    pub fn connect_key(&self) -> (key: Option<String>)
        ensures
            optional_text(key) == self@.connect_key,
    {
        self.connect_key.clone()
    }

    /// What the session is waiting for.
    pub fn phase(&self) -> (phase: Phase)
        ensures
            phase == self@.phase,
    {
        self.phase
    }

    /// Sends a raw command line to the server; nothing is read.
    pub fn send_command(&mut self, command: &str) -> (action: Action)
        ensures
            old(self)@.well_formed() ==> final(self)@.well_formed(),
            (final(self)@, action@) == issue(old(self)@, Operation::Send, command@),
    {
        self.issue(Operation::Send, command.to_owned())
    }

    /// Reads one response frame and returns its bytes.
    pub fn read_response(&mut self) -> (action: Action)
        ensures
            old(self)@.well_formed() ==> final(self)@.well_formed(),
            (final(self)@, action@) == issue_read(old(self)@, Operation::ReadBytes),
    {
        self.issue_read(Operation::ReadBytes)
    }

    /// Reads one response frame and returns its text.
    pub fn read_response_string(&mut self) -> (action: Action)
        ensures
            old(self)@.well_formed() ==> final(self)@.well_formed(),
            (final(self)@, action@) == issue_read(old(self)@, Operation::ReadText),
    {
        self.issue_read(Operation::ReadText)
    }

    /// Executes a shell command and returns its output.
    ///
    /// The command runs on the device selected by `connect_device`. It uses
    /// up the channel: once the output has arrived, the session connects to
    /// that device again. A failure of this reconnection does not fail the
    /// command.
    pub fn shell(&mut self, cmd: &str) -> (action: Action)
        ensures
            old(self)@.well_formed() ==> final(self)@.well_formed(),
            (final(self)@, action@) == issue(old(self)@, Operation::Shell, "shell "@ + cmd@),
    {
        let mut command = "shell ".to_owned();
        command.append(cmd);
        self.issue(Operation::Shell, command)
    }

    /// Lists the connected devices, one per line of the response.
    pub fn list_targets(&mut self) -> (action: Action)
        ensures
            old(self)@.well_formed() ==> final(self)@.well_formed(),
            (final(self)@, action@) == issue(old(self)@, Operation::Lines, "list targets"@),
    {
        self.issue(Operation::Lines, "list targets".to_owned())
    }

    /// Connects to a device: drops the connection held, opens a new one and
    /// shakes hands with the device's identity, which is remembered for the
    /// operations that follow.
    pub fn connect_device(&mut self, device_id: &str) -> (action: Action)
        ensures
            old(self)@.well_formed() ==> final(self)@.well_formed(),
            (final(self)@, action@) == issue_on_device(
                old(self)@,
                Operation::Connect,
                device_id@,
                Seq::empty(),
            ),
    {
        self.issue_on_device(Operation::Connect, device_id, String::new())
    }

    /// Asks the server for its version.
    pub fn check_server(&mut self) -> (action: Action)
        ensures
            old(self)@.well_formed() ==> final(self)@.well_formed(),
            (final(self)@, action@) == issue(old(self)@, Operation::Text, "checkserver"@),
    {
        self.issue(Operation::Text, "checkserver".to_owned())
    }

    /// Connects to a device and sends it a command line.
    pub fn target_command(&mut self, device_id: &str, cmd: &str) -> (action: Action)
        ensures
            old(self)@.well_formed() ==> final(self)@.well_formed(),
            (final(self)@, action@) == issue_on_device(
                old(self)@,
                Operation::Text,
                device_id@,
                cmd@,
            ),
    {
        self.issue_on_device(Operation::Text, device_id, cmd.to_owned())
    }

    /// Connects to a device and executes a shell command on it.
    pub fn shell_on_device(&mut self, device_id: &str, cmd: &str) -> (action: Action)
        ensures
            old(self)@.well_formed() ==> final(self)@.well_formed(),
            (final(self)@, action@) == issue_on_device(
                old(self)@,
                Operation::Shell,
                device_id@,
                "shell "@ + cmd@,
            ),
    {
        let mut command = "shell ".to_owned();
        command.append(cmd);
        self.issue_on_device(Operation::Shell, device_id, command)
    }

    /// Closes the connection.
    pub fn close(&mut self) -> (action: Action)
        ensures
            old(self)@.well_formed() ==> final(self)@.well_formed(),
            final(self)@ == (ClientView {
                phase: Phase::Closing,
                connected: false,
                handshake_ok: false,
                ..begin(old(self)@, Operation::Close, Seq::empty())
            }),
            action@ == ActionView::Close,
    {
        self.begin(Operation::Close, String::new());
        self.handshake_ok = false;
        self.connected = false;
        self.phase = Phase::Closing;
        Action::Close
    }

    /// Creates a port forward (`fport`): traffic to the local node goes to
    /// the remote node on the device.
    pub fn fport(&mut self, local: ForwardNode, remote: ForwardNode) -> (action: Action)
        ensures
            old(self)@.well_formed() ==> final(self)@.well_formed(),
            (final(self)@, action@) == issue(
                old(self)@,
                Operation::Text,
                fport_text(local@, remote@),
            ),
    {
        let command = node_pair_string("fport ", &local, &remote);
        self.issue(Operation::Text, command)
    }

    /// Creates a reverse port forward (`rport`): traffic to the remote node
    /// on the device goes to the local node.
    pub fn rport(&mut self, remote: ForwardNode, local: ForwardNode) -> (action: Action)
        ensures
            old(self)@.well_formed() ==> final(self)@.well_formed(),
            (final(self)@, action@) == issue(
                old(self)@,
                Operation::Text,
                rport_text(remote@, local@),
            ),
    {
        let command = node_pair_string("rport ", &remote, &local);
        self.issue(Operation::Text, command)
    }

    /// Lists all forward and reverse tasks. The list is the server's, not a
    /// device's: it is asked for on a session of its own, which is returned
    /// with its first action.
    pub fn fport_list(&self) -> (r: (Self, Action))
        ensures
            r.0@.well_formed(),
            (r.0@, r.1@) == issue_apart(self@.address, Operation::ForwardList, "fport ls"@),
    {
        self.issue_apart(Operation::ForwardList, "fport ls".to_owned())
    }

    /// Removes a forward or reverse task by its task string, on a session of
    /// its own, which is returned with its first action.
    pub fn fport_remove(&self, task_str: &str) -> (r: (Self, Action))
        ensures
            r.0@.well_formed(),
            (r.0@, r.1@) == issue_apart(
                self@.address,
                Operation::ForwardRemove,
                "fport rm "@ + task_str@,
            ),
    {
        let mut command = "fport rm ".to_owned();
        command.append(task_str);
        self.issue_apart(Operation::ForwardRemove, command)
    }

    /// Installs application packages on the device.
    pub fn install(&mut self, paths: &[&str], options: InstallOptions) -> (action: Action)
        ensures
            old(self)@.well_formed() ==> final(self)@.well_formed(),
            (final(self)@, action@) == issue(
                old(self)@,
                Operation::Install,
                with_flags(
                    "install "@,
                    install_flags(options.replace, options.shared),
                    join_with_space(slice_texts(paths@)),
                ),
            ),
    {
        let flags = options.to_flags();
        let joined = join_paths(paths);
        let command = command_with_flags("install ", flags.as_str(), joined.as_str());
        self.issue(Operation::Install, command)
    }

    /// Uninstalls an application package from the device.
    pub fn uninstall(&mut self, package: &str, options: UninstallOptions) -> (action: Action)
        ensures
            old(self)@.well_formed() ==> final(self)@.well_formed(),
            (final(self)@, action@) == issue(
                old(self)@,
                Operation::Text,
                with_flags(
                    "uninstall "@,
                    uninstall_flags(options.keep_data, options.shared),
                    package@,
                ),
            ),
    {
        let flags = options.to_flags();
        let command = command_with_flags("uninstall ", flags.as_str(), package);
        self.issue(Operation::Text, command)
    }

    /// The command line of a log read.
    fn hilog_command(args: Option<&str>) -> (command: String)
        ensures
            command@ == hilog_text(args),
    {
        match args {
            Some(args) => {
                let mut command = "hilog ".to_owned();
                command.append(args);
                command
            },
            None => "hilog".to_owned(),
        }
    }

    /// Reads the device log until it falls silent, and returns it as one
    /// text.
    pub fn hilog(&mut self, args: Option<&str>) -> (action: Action)
        ensures
            old(self)@.well_formed() ==> final(self)@.well_formed(),
            (final(self)@, action@) == issue(old(self)@, Operation::Log, hilog_text(args)),
    {
        self.issue(Operation::Log, Self::hilog_command(args))
    }

    /// Streams the device log: each chunk is handed to the caller, who says
    /// whether to go on.
    pub fn hilog_stream(&mut self, args: Option<&str>) -> (action: Action)
        ensures
            old(self)@.well_formed() ==> final(self)@.well_formed(),
            (final(self)@, action@) == issue(old(self)@, Operation::Stream, hilog_text(args)),
    {
        self.issue(Operation::Stream, Self::hilog_command(args))
    }

    /// Waits until a device is connected and returns its identity.
    pub fn wait_for_device(&mut self) -> (action: Action)
        ensures
            old(self)@.well_formed() ==> final(self)@.well_formed(),
            (final(self)@, action@) == issue(old(self)@, Operation::WaitDevice, "wait"@),
    {
        self.issue(Operation::WaitDevice, "wait".to_owned())
    }

    /// Monitors the device list by polling: on every turn the session
    /// connects anew, lists the devices, and hands the list to the caller if
    /// it differs from the one handed over last. It goes on until the caller
    /// says stop.
    pub fn monitor_devices(&mut self) -> (action: Action)
        ensures
            old(self)@.well_formed() ==> final(self)@.well_formed(),
            (final(self)@, action@) == start_connect(
                begin(old(self)@, Operation::Monitor, Seq::empty()),
                None,
                false,
            ),
    {
        self.begin(Operation::Monitor, String::new());
        self.start_connect(None, false)
    }

    /// Sends a file to the device.
    pub fn file_send(&mut self, local_path: &str, remote_path: &str, options: FileTransferOptions) -> (action: Action)
        ensures
            old(self)@.well_formed() ==> final(self)@.well_formed(),
            (final(self)@, action@) == issue_transfer(
                old(self)@,
                "file send "@,
                transfer_flags(options@),
                local_path@,
                remote_path@,
            ),
    {
        let flags = options.to_flags();
        self.issue_transfer("file send ", flags.as_str(), local_path, remote_path)
    }

    /// Receives a file from the device.
    pub fn file_recv(&mut self, remote_path: &str, local_path: &str, options: FileTransferOptions) -> (action: Action)
        ensures
            old(self)@.well_formed() ==> final(self)@.well_formed(),
            (final(self)@, action@) == issue_transfer(
                old(self)@,
                "file recv "@,
                transfer_flags(options@),
                remote_path@,
                local_path@,
            ),
    {
        let flags = options.to_flags();
        self.issue_transfer("file recv ", flags.as_str(), remote_path, local_path)
    }
}

} // verus!
