//! The host side of the link.
//!
//! The operator types commands, one to a line; the bridge writes them to the
//! link as frames and shows what the device says. Between the two stands a
//! bounded queue of commands, so that reading the operator's input never
//! holds up the link.
//!
//! Nothing here waits or prints. [`forward_input`] and [`bridge`] take one
//! event at a time and say what is to be done about it.

use vstd::prelude::*;
use vstd::utf8::{decode_utf8, valid_utf8};
use crate::protocol::{HostToSensor, SensorToHost, MAX_FRAME_LEN};
use crate::queue::Queue;
use crate::text::{decimal, push_decimal, utf8_text};
use crate::wire::CodecError;

verus! {

/// How many commands wait between the operator and the link at most.
pub const COMMAND_QUEUE_DEPTH: usize = 32;

/// What came of reading the operator's input.
#[derive(Debug, Clone, Copy, PartialEq, Eq, Structural)]
pub enum InputEvent {
    /// The input has ended.
    Closed,
    /// Reading failed.
    ReadFailed,
    /// A line was read. It is this command, or none.
    Line(Option<HostToSensor>),
}

/// What is to be done about the operator's input.
#[derive(Debug, Clone, Copy, PartialEq, Eq, Structural)]
pub enum InputAction {
    /// Read no more.
    Stop,
    /// The line was no command. Tell the operator what is accepted, and read
    /// on.
    Hint,
    /// The command waits for the link. Read on.
    Queued,
    /// The queue is full. Hold this command until the bridge has written
    /// one, then offer it again as a line.
    Suspend(HostToSensor),
}

/// What the link, or the command queue, has to report to the bridge.
#[derive(Debug, PartialEq, Eq)]
pub enum BridgeEvent {
    /// It is the command queue's turn.
    CommandReady,
    /// A packet has arrived; these are its bytes.
    Packet(Vec<u8>),
    /// A write on the link has failed.
    WriteFailed,
}

/// What the bridge is to do about an event.
#[derive(Debug, PartialEq, Eq)]
pub enum BridgeAction {
    /// Nothing.
    Idle,
    /// Write this frame to the link.
    Write(Vec<u8>),
    /// The packet was no frame. Report it and go on.
    Report(CodecError),
    /// Show the operator what the device said.
    Show(SensorToHost),
    /// The bridge is done. Wait for the input reader to finish, then leave.
    Stop,
}

/// A [`BridgeAction`] with its frame as plain bytes.
pub enum BridgeEffect {
    Idle,
    Write(Seq<u8>),
    Report(CodecError),
    Show(SensorToHost),
    Stop,
}

impl View for BridgeAction {
    type V = BridgeEffect;

    open spec fn view(&self) -> BridgeEffect {
        match *self {
            BridgeAction::Idle => BridgeEffect::Idle,
            BridgeAction::Write(frame) => BridgeEffect::Write(frame@),
            BridgeAction::Report(error) => BridgeEffect::Report(error),
            BridgeAction::Show(item) => BridgeEffect::Show(item),
            BridgeAction::Stop => BridgeEffect::Stop,
        }
    }
}

/// The host as the contracts see it.
pub struct HostView {
    /// Whether the bridge still serves the link.
    pub running: bool,
    /// Whether more input from the operator may come.
    pub input_open: bool,
    /// Commands that wait for the link, oldest first.
    pub commands: Seq<HostToSensor>,
}

/// The state of the bridge and the queue between the operator and the link.
pub struct Host {
    running: bool,
    input_open: bool,
    commands: Queue<HostToSensor, COMMAND_QUEUE_DEPTH>,
}

impl View for Host {
    type V = HostView;

    closed spec fn view(&self) -> HostView {
        HostView {
            running: self.running,
            input_open: self.input_open,
            commands: self.commands@,
        }
    }
}

/// What the operator's input does to the host, and what is to be done
/// about it.
///
/// The end of the input, or a failure to read it, closes it. A line that is
/// no command is never queued. A command is queued where there is room and
/// held where there is none; once the bridge is done there is nobody to take
/// it, and reading stops.
pub open spec fn input_step(pre: HostView, event: InputEvent) -> (HostView, InputAction) {
    match event {
        InputEvent::Closed => (HostView { input_open: false, ..pre }, InputAction::Stop),
        InputEvent::ReadFailed => (HostView { input_open: false, ..pre }, InputAction::Stop),
        InputEvent::Line(None) => (pre, InputAction::Hint),
        InputEvent::Line(Some(command)) => if !pre.running {
            (HostView { input_open: false, ..pre }, InputAction::Stop)
        } else if pre.commands.len() < COMMAND_QUEUE_DEPTH {
            (HostView { commands: pre.commands.push(command), ..pre }, InputAction::Queued)
        } else {
            (pre, InputAction::Suspend(command))
        },
    }
}

/// What one event of the link or the command queue does to the host, and
/// what the bridge is to do about it.
///
/// A bridge that is done stays done. A turn of the command queue writes its
/// oldest command; with no command left and the input closed, the bridge is
/// done. A packet is shown or reported and changes nothing. A failed write
/// ends the bridge.
pub open spec fn bridge_step(pre: HostView, event: BridgeEvent) -> (HostView, BridgeEffect) {
    if !pre.running {
        (pre, BridgeEffect::Stop)
    } else {
        match event {
            BridgeEvent::CommandReady => if pre.commands.len() > 0 {
                (
                    HostView { commands: pre.commands.drop_first(), ..pre },
                    BridgeEffect::Write(pre.commands[0].wire()),
                )
            } else if pre.input_open {
                (pre, BridgeEffect::Idle)
            } else {
                (HostView { running: false, ..pre }, BridgeEffect::Stop)
            },
            BridgeEvent::Packet(data) => match SensorToHost::parse(data@) {
                Ok(item) => (pre, BridgeEffect::Show(item)),
                Err(error) => (pre, BridgeEffect::Report(error)),
            },
            BridgeEvent::WriteFailed => (HostView { running: false, ..pre }, BridgeEffect::Stop),
        }
    }
}

impl Host {
    /// A host whose bridge runs and whose operator has typed nothing yet.
    pub fn new() -> (out: Host)
        ensures
            out@.running,
            out@.input_open,
            out@.commands == Seq::<HostToSensor>::empty(),
    {
        Host { running: true, input_open: true, commands: Queue::new() }
    }

    /// Whether the bridge still serves the link.
    pub fn is_running(&self) -> (out: bool)
        ensures
            out == self@.running,
    {
        self.running
    }

    /// Whether more input from the operator may come.
    pub fn is_input_open(&self) -> (out: bool)
        ensures
            out == self@.input_open,
    {
        self.input_open
    }

    /// How many commands wait for the link. Never more than
    /// [`COMMAND_QUEUE_DEPTH`].
    pub fn pending(&self) -> (out: usize)
        ensures
            out == self@.commands.len(),
            out <= COMMAND_QUEUE_DEPTH,
    {
        self.commands.len()
    }
}

/// Takes what came of reading the operator's input and says what is to be
/// done about it.
pub fn forward_input(host: &mut Host, event: InputEvent) -> (out: InputAction)
    ensures
        (final(host)@, out) == input_step(old(host)@, event),
{
    match event {
        InputEvent::Closed => {
            host.input_open = false;
            InputAction::Stop
        },
        InputEvent::ReadFailed => {
            host.input_open = false;
            InputAction::Stop
        },
        InputEvent::Line(None) => InputAction::Hint,
        InputEvent::Line(Some(command)) => {
            if !host.running {
                host.input_open = false;
                InputAction::Stop
            } else {
                match host.commands.try_send(command) {
                    Ok(()) => InputAction::Queued,
                    Err(held) => InputAction::Suspend(held),
                }
            }
        },
    }
}

/// Takes one event of the link or the command queue and says what the bridge
/// is to do about it. A packet that is no frame is a finding, not a failure.
pub fn bridge(host: &mut Host, event: &BridgeEvent) -> (out: BridgeAction)
    ensures
        (final(host)@, out@) == bridge_step(old(host)@, *event),
        out matches BridgeAction::Write(frame) ==> frame.len() <= MAX_FRAME_LEN,
{
    if !host.running {
        return BridgeAction::Stop;
    }
    match event {
        BridgeEvent::CommandReady => match host.commands.try_receive() {
            Some(command) => BridgeAction::Write(command.encode()),
            None => {
                if host.input_open {
                    BridgeAction::Idle
                } else {
                    host.running = false;
                    BridgeAction::Stop
                }
            },
        },
        BridgeEvent::Packet(data) => match SensorToHost::decode(data.as_slice()) {
            Ok(item) => BridgeAction::Show(item),
            Err(error) => BridgeAction::Report(error),
        },
        BridgeEvent::WriteFailed => {
            host.running = false;
            BridgeAction::Stop
        },
    }
}

/// The line that tells the operator what the device said, for a message
/// that has one.
pub open spec fn presentation(item: SensorToHost) -> Seq<char> {
    match item {
        SensorToHost::Id { name, version } => "Device name: "@ + decode_utf8(name@)
            + " (version: "@ + decimal(version as nat) + ")"@,
        SensorToHost::Pong => "Received Pong"@,
        SensorToHost::Config(config) => "Got config: MinimalConfig {\n    samples: "@ + decimal(
            config.samples as nat,
        ) + ",\n}"@,
        SensorToHost::ConfigOk => "Received config OK"@,
    }
}

/// Whether a message has a line: every message has one but an identity whose
/// name is not text. A name is 24 bytes, and nothing makes a device send
/// bytes that read as text.
pub open spec fn presentable(item: SensorToHost) -> bool {
    item matches SensorToHost::Id { name, .. } ==> valid_utf8(name@)
}

/// Makes the line that tells the operator what the device said. There is
/// none for an identity whose name is not text: that is a finding to report,
/// like a packet that is no frame, and the bridge goes on.
pub fn process_item(item: &SensorToHost) -> (out: Option<String>)
    ensures
        out is Some == presentable(*item),
        out matches Some(line) ==> line@ == presentation(*item),
{
    match item {
        SensorToHost::Id { name, version } => match utf8_text(name.as_slice()) {
            Some(text) => {
                let mut out = String::from_str("Device name: ");
                out.append(text);
                out.append(" (version: ");
                push_decimal(&mut out, *version as u32);
                out.append(")");
                Some(out)
            },
            None => None,
        },
        SensorToHost::Pong => Some(String::from_str("Received Pong")),
        SensorToHost::Config(config) => {
            let mut out = String::from_str("Got config: MinimalConfig {\n    samples: ");
            push_decimal(&mut out, config.samples);
            out.append(",\n}");
            Some(out)
        },
        SensorToHost::ConfigOk => Some(String::from_str("Received config OK")),
    }
}

} // verus!
