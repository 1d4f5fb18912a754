//! The device side of the link.
//!
//! The transport is the only reader and the only writer of the link. It
//! answers the two questions about the link itself, who the device is and
//! whether it is alive, at once and without the application; every other
//! message goes onto the incoming queue for the application to take, and
//! what the application puts onto the outgoing queue leaves in order.
//!
//! Nothing here waits. [`transport`] takes one event at a time and says what
//! is to be done about it; whoever owns the link performs that and comes back
//! with the next event.

use vstd::prelude::*;
use crate::protocol::{HostToSensor, SensorToHost, CONFIG_VERSION, MAX_FRAME_LEN};
use crate::protocol::{device_frame_len, host_roundtrip};
use crate::queue::{after_receive, after_send, queue_keeps_order, Queue};
use crate::usb_device::{Disconnected, LinkError};
use crate::wire::CodecError;

verus! {

/// The name that this build answers with: "Minimal USB device", zero-padded.
pub const ID: [u8; 24] = [
    77, 105, 110, 105, 109, 97, 108, 32, 85, 83, 66, 32, 100, 101, 118, 105, 99, 101, 0, 0, 0, 0,
    0, 0,
];

/// How many messages each of the two queues of the device holds.
pub const QUEUE_DEPTH: usize = 128;

/// The longest frame that the device reads in one packet.
pub const LINK_BUFFER_LEN: usize = 128;

/// The smallest packet that a link carries. Every frame that the transport
/// writes fits it.
pub const MIN_PACKET_LEN: usize = 64;

/// Whether a session is under way.
#[derive(Debug, Clone, Copy, PartialEq, Eq, Structural)]
pub enum SessionState {
    WaitingForConnection,
    Connected,
}

/// What the link, or the outgoing queue, has to report.
#[derive(Debug, PartialEq, Eq)]
pub enum LinkEvent {
    /// The host has opened the link.
    Connected,
    /// A packet has arrived; these are its bytes.
    Packet(Vec<u8>),
    /// It is the outgoing queue's turn.
    OutgoingReady,
    /// A read or a write on the link has failed.
    Failed(LinkError),
}

/// What is to be done about an event.
#[derive(Debug, PartialEq, Eq)]
pub enum Action {
    /// Nothing.
    Idle,
    /// Write this frame to the link: the answer to a question about the link.
    Reply(Vec<u8>),
    /// Write this frame to the link: a message of the application.
    Send(Vec<u8>),
    /// Nothing: the message is on the incoming queue.
    Queued,
    /// The incoming queue is full. Hold this message until the application
    /// has taken one, then hand it to [`Device::forward`].
    Suspend(HostToSensor),
    /// The packet was no frame. Report it and go on.
    Report(CodecError),
    /// The session is over. Wait for the next connection.
    Disconnect(Disconnected),
}

/// An [`Action`] with its frame as plain bytes.
pub enum Effect {
    Idle,
    Reply(Seq<u8>),
    Send(Seq<u8>),
    Queued,
    Suspend(HostToSensor),
    Report(CodecError),
    Disconnect(Disconnected),
}

impl View for Action {
    type V = Effect;

    open spec fn view(&self) -> Effect {
        match *self {
            Action::Idle => Effect::Idle,
            Action::Reply(frame) => Effect::Reply(frame@),
            Action::Send(frame) => Effect::Send(frame@),
            Action::Queued => Effect::Queued,
            Action::Suspend(message) => Effect::Suspend(message),
            Action::Report(error) => Effect::Report(error),
            Action::Disconnect(end) => Effect::Disconnect(end),
        }
    }
}

/// What a packet asks of the transport.
#[derive(Debug, Clone, Copy, PartialEq, Eq)]
pub enum Inbound {
    /// It is no frame.
    Malformed(CodecError),
    /// It asks about the link itself, and this is the answer.
    Reply(SensorToHost),
    /// It is for the application.
    Forward(HostToSensor),
}

/// Who this device is.
pub open spec fn identity() -> SensorToHost {
    SensorToHost::Id { name: ID, version: CONFIG_VERSION }
}

/// What a decoded message asks of the transport: the two questions about the
/// link are answered here, everything else is the application's.
pub open spec fn dispatch(message: HostToSensor) -> Inbound {
    match message {
        HostToSensor::WhoAreYou => Inbound::Reply(identity()),
        HostToSensor::Ping => Inbound::Reply(SensorToHost::Pong),
        _ => Inbound::Forward(message),
    }
}

/// What the packet `data` asks of the transport.
pub open spec fn inbound(data: Seq<u8>) -> Inbound {
    match HostToSensor::parse(data) {
        Err(error) => Inbound::Malformed(error),
        Ok(message) => dispatch(message),
    }
}

/// Decodes a packet and says what it asks of the transport. A packet that is
/// no frame is a finding, not a failure.
pub fn on_packet(data: &[u8]) -> (out: Inbound)
    ensures
        out == inbound(data@),
{
    match HostToSensor::decode(data) {
        Err(error) => Inbound::Malformed(error),
        Ok(HostToSensor::WhoAreYou) => Inbound::Reply(
            SensorToHost::Id { name: ID, version: CONFIG_VERSION },
        ),
        Ok(HostToSensor::Ping) => Inbound::Reply(SensorToHost::Pong),
        Ok(message) => Inbound::Forward(message),
    }
}

/// The device as the contracts see it.
pub struct DeviceView {
    pub state: SessionState,
    /// Messages for the application, oldest first.
    pub incoming: Seq<HostToSensor>,
    /// Messages for the host, oldest first.
    pub outgoing: Seq<SensorToHost>,
}

/// The state of the transport and the two queues between it and the
/// application.
pub struct Device {
    state: SessionState,
    incoming: Queue<HostToSensor, QUEUE_DEPTH>,
    outgoing: Queue<SensorToHost, QUEUE_DEPTH>,
}

impl View for Device {
    type V = DeviceView;

    closed spec fn view(&self) -> DeviceView {
        DeviceView { state: self.state, incoming: self.incoming@, outgoing: self.outgoing@ }
    }
}

/// What one event does to the device, and what is to be done about it.
///
/// While no session is under way only a connection counts. In a session a
/// packet is reported, answered or queued as [`inbound`] says; a turn of the
/// outgoing queue sends its oldest message; a failure ends the session.
pub open spec fn step(pre: DeviceView, event: LinkEvent) -> (DeviceView, Effect) {
    match pre.state {
        SessionState::WaitingForConnection => match event {
            LinkEvent::Connected => (
                DeviceView { state: SessionState::Connected, ..pre },
                Effect::Idle,
            ),
            _ => (pre, Effect::Idle),
        },
        SessionState::Connected => match event {
            LinkEvent::Connected => (pre, Effect::Idle),
            LinkEvent::Packet(data) => match inbound(data@) {
                Inbound::Malformed(error) => (pre, Effect::Report(error)),
                Inbound::Reply(answer) => (pre, Effect::Reply(answer.wire())),
                Inbound::Forward(message) => if pre.incoming.len() < QUEUE_DEPTH {
                    (DeviceView { incoming: pre.incoming.push(message), ..pre }, Effect::Queued)
                } else {
                    (pre, Effect::Suspend(message))
                },
            },
            LinkEvent::OutgoingReady => if pre.outgoing.len() > 0 {
                (
                    DeviceView { outgoing: pre.outgoing.drop_first(), ..pre },
                    Effect::Send(pre.outgoing[0].wire()),
                )
            } else {
                (pre, Effect::Idle)
            },
            LinkEvent::Failed(_) => (
                DeviceView { state: SessionState::WaitingForConnection, ..pre },
                Effect::Disconnect(Disconnected),
            ),
        },
    }
}

/// What a run of events does to the device, and what is to be done about
/// each of them, in order.
pub open spec fn run(pre: DeviceView, events: Seq<LinkEvent>) -> (DeviceView, Seq<Effect>)
    decreases events.len(),
{
    if events.len() == 0 {
        (pre, Seq::empty())
    } else {
        let (before, effects) = run(pre, events.drop_last());
        let (after, effect) = step(before, events.last());
        (after, effects.push(effect))
    }
}

/// Whether the event is one that a link can report of frames that fit it.
/// An overflow is not: it means that a frame was longer than a packet.
pub open spec fn admissible(event: LinkEvent) -> bool {
    !(event matches LinkEvent::Failed(LinkError::BufferOverflow))
}

impl Device {
    /// A device that waits for its first connection, with both queues empty.
    pub fn new() -> (out: Device)
        ensures
            out@.state == SessionState::WaitingForConnection,
            out@.incoming == Seq::<HostToSensor>::empty(),
            out@.outgoing == Seq::<SensorToHost>::empty(),
    {
        Device {
            state: SessionState::WaitingForConnection,
            incoming: Queue::new(),
            outgoing: Queue::new(),
        }
    }

    /// Whether a session is under way.
    pub fn state(&self) -> (out: SessionState)
        ensures
            out == self@.state,
    {
        self.state
    }

    /// How many messages wait for the application. Never more than
    /// [`QUEUE_DEPTH`].
    pub fn incoming_len(&self) -> (out: usize)
        ensures
            out == self@.incoming.len(),
            out <= QUEUE_DEPTH,
    {
        self.incoming.len()
    }

    /// How many messages wait for the host. Never more than [`QUEUE_DEPTH`].
    pub fn outgoing_len(&self) -> (out: usize)
        ensures
            out == self@.outgoing.len(),
            out <= QUEUE_DEPTH,
    {
        self.outgoing.len()
    }

    /// The application takes its next message: the oldest that the transport
    /// did not answer itself. `None` while there is none.
    pub fn consume(&mut self) -> (out: Option<HostToSensor>)
        ensures
            final(self)@.state == old(self)@.state,
            final(self)@.outgoing == old(self)@.outgoing,
            final(self)@.incoming == after_receive(old(self)@.incoming),
            old(self)@.incoming.len() == 0 ==> out is None,
            old(self)@.incoming.len() > 0 ==> out == Some(old(self)@.incoming[0]),
    {
        self.incoming.try_receive()
    }

    /// The application hands over a message for the host. A full queue takes
    /// nothing and hands the message back: hold it until the transport has
    /// sent one, then offer it again.
    pub fn produce(&mut self, message: SensorToHost) -> (out: Result<(), SensorToHost>)
        ensures
            final(self)@.state == old(self)@.state,
            final(self)@.incoming == old(self)@.incoming,
            final(self)@.outgoing == after_send(old(self)@.outgoing, QUEUE_DEPTH as nat, message),
            old(self)@.outgoing.len() < QUEUE_DEPTH ==> out is Ok,
            old(self)@.outgoing.len() >= QUEUE_DEPTH ==> out == Err::<(), SensorToHost>(message),
    {
        self.outgoing.try_send(message)
    }

    /// Offers a message that was held back by [`Action::Suspend`] to the
    /// incoming queue again. It is taken as soon as there is room, and handed
    /// back once more while there is none.
    pub fn forward(&mut self, message: HostToSensor) -> (out: Result<(), HostToSensor>)
        ensures
            final(self)@.state == old(self)@.state,
            final(self)@.outgoing == old(self)@.outgoing,
            final(self)@.incoming == after_send(old(self)@.incoming, QUEUE_DEPTH as nat, message),
            old(self)@.incoming.len() < QUEUE_DEPTH ==> out is Ok,
            old(self)@.incoming.len() >= QUEUE_DEPTH ==> out == Err::<(), HostToSensor>(message),
    {
        self.incoming.try_send(message)
    }
}

/// Takes one event and says what is to be done about it.
///
/// Every frame that it asks to be written fits the smallest packet of the
/// link, so the link has no reason to report an overflow; such a report is
/// not accepted as an event.
pub fn transport(device: &mut Device, event: &LinkEvent) -> (out: Action)
    requires
        admissible(*event),
    ensures
        (final(device)@, out@) == step(old(device)@, *event),
        out matches Action::Reply(frame) ==> frame.len() <= MIN_PACKET_LEN,
        out matches Action::Send(frame) ==> frame.len() <= MIN_PACKET_LEN,
{
    match device.state {
        SessionState::WaitingForConnection => {
            if let LinkEvent::Connected = event {
                device.state = SessionState::Connected;
            }
            Action::Idle
        },
        SessionState::Connected => match event {
            LinkEvent::Connected => Action::Idle,
            LinkEvent::Packet(data) => match on_packet(data.as_slice()) {
                Inbound::Malformed(error) => Action::Report(error),
                Inbound::Reply(answer) => Action::Reply(answer.encode()),
                Inbound::Forward(message) => match device.incoming.try_send(message) {
                    Ok(()) => Action::Queued,
                    Err(held) => Action::Suspend(held),
                },
            },
            LinkEvent::OutgoingReady => match device.outgoing.try_receive() {
                Some(message) => Action::Send(message.encode()),
                None => Action::Idle,
            },
            LinkEvent::Failed(error) => {
                device.state = SessionState::WaitingForConnection;
                Action::Disconnect(Disconnected::from(*error))
            },
        },
    }
}

/// The effects of a list of actions, one for one.
pub open spec fn effects(actions: Seq<Action>) -> Seq<Effect> {
    actions.map_values(|action: Action| action@)
}

/// Runs the protocol over a recorded run of events: waits for a connection,
/// serves the session until the link fails, waits again. Says what was to be
/// done about each event, in order.
pub fn run_protocol(device: &mut Device, events: &Vec<LinkEvent>) -> (out: Vec<Action>)
    requires
        forall|i: int| 0 <= i < events.len() ==> admissible(#[trigger] events[i]),
    ensures
        (final(device)@, effects(out@)) == run(old(device)@, events@),
        out.len() == events.len(),
{
    let mut out: Vec<Action> = Vec::new();
    let mut i: usize = 0;
    assert(events@.take(0) =~= Seq::<LinkEvent>::empty());
    assert(effects(out@) =~= Seq::<Effect>::empty());
    while i < events.len()
        invariant
            i <= events.len(),
            out.len() == i,
            forall|k: int| 0 <= k < events.len() ==> admissible(#[trigger] events[k]),
            (device@, effects(out@)) == run(old(device)@, events@.take(i as int)),
        decreases events.len() - i,
    {
        let ghost before = out@;
        let action = transport(device, &events[i]);
        out.push(action);
        proof {
            let prefix = events@.take(i + 1);
            assert(prefix.drop_last() =~= events@.take(i as int));
            assert(prefix.last() == events@[i as int]);
            assert(effects(out@) =~= effects(before).push(action@));
        }
        i += 1;
    }
    assert(events@.take(i as int) =~= events@);
    out
}

/// A question about who the device is gets exactly one answer, the name and
/// version of this build, and leaves both queues as they were.
pub proof fn identity_is_answered_inline(pre: DeviceView, data: Vec<u8>, tail: Seq<u8>)
    requires
        pre.state == SessionState::Connected,
        data@ == HostToSensor::WhoAreYou.wire() + tail,
    ensures
        step(pre, LinkEvent::Packet(data)) == (pre, Effect::Reply(identity().wire())),
{
    host_roundtrip(HostToSensor::WhoAreYou, tail);
}

/// A ping gets exactly one pong and leaves both queues as they were.
pub proof fn ping_is_answered_inline(pre: DeviceView, data: Vec<u8>, tail: Seq<u8>)
    requires
        pre.state == SessionState::Connected,
        data@ == HostToSensor::Ping.wire() + tail,
    ensures
        step(pre, LinkEvent::Packet(data)) == (pre, Effect::Reply(SensorToHost::Pong.wire())),
{
    host_roundtrip(HostToSensor::Ping, tail);
}

/// Every other message joins the incoming queue behind those that came
/// before it, once, and nothing is written to the link. Where the queue is
/// full the message is held instead, and the queue stays as it was.
pub proof fn application_messages_are_queued(
    pre: DeviceView,
    message: HostToSensor,
    data: Vec<u8>,
    tail: Seq<u8>,
)
    requires
        pre.state == SessionState::Connected,
        message != HostToSensor::WhoAreYou,
        message != HostToSensor::Ping,
        data@ == message.wire() + tail,
    ensures
        pre.incoming.len() < QUEUE_DEPTH ==> step(pre, LinkEvent::Packet(data)) == (
            DeviceView { incoming: pre.incoming.push(message), ..pre },
            Effect::Queued,
        ),
        pre.incoming.len() >= QUEUE_DEPTH ==> step(pre, LinkEvent::Packet(data)) == (
            pre,
            Effect::Suspend(message),
        ),
{
    host_roundtrip(message, tail);
}

/// Messages for the application are queued in the order of their arrival:
/// a run of packets that each hold one, while the queue has room for all of
/// them, puts them behind those that waited, in order, and writes nothing.
pub proof fn arrivals_are_queued_in_order(
    pre: DeviceView,
    messages: Seq<HostToSensor>,
    packets: Seq<LinkEvent>,
)
    requires
        pre.state == SessionState::Connected,
        packets.len() == messages.len(),
        pre.incoming.len() + messages.len() <= QUEUE_DEPTH,
        forall|i: int|
            0 <= i < messages.len() ==> (#[trigger] packets[i] matches LinkEvent::Packet(data)
                && inbound(data@) == Inbound::Forward(messages[i])),
    ensures
        run(pre, packets) == (
            DeviceView { incoming: pre.incoming + messages, ..pre },
            Seq::new(messages.len(), |i: int| Effect::Queued),
        ),
    decreases messages.len(),
{
    let queued = Seq::new(messages.len(), |i: int| Effect::Queued);
    if messages.len() == 0 {
        assert(pre.incoming + messages =~= pre.incoming);
        assert(queued =~= Seq::<Effect>::empty());
    } else {
        let earlier = messages.drop_last();
        arrivals_are_queued_in_order(pre, earlier, packets.drop_last());
        let before = DeviceView { incoming: pre.incoming + earlier, ..pre };
        assert(packets.last() == packets[packets.len() - 1]);
        assert(before.incoming.push(messages.last()) =~= pre.incoming + messages);
        assert(Seq::new(earlier.len(), |i: int| Effect::Queued).push(Effect::Queued) =~= queued);
    }
}

/// A run of `count` turns of the outgoing queue.
pub open spec fn turns(count: nat) -> Seq<LinkEvent> {
    Seq::new(count, |i: int| LinkEvent::OutgoingReady)
}

/// The frames of the first `count` of `messages`, each asked to be sent.
pub open spec fn sends(messages: Seq<SensorToHost>, count: nat) -> Seq<Effect> {
    Seq::new(count, |i: int| Effect::Send(messages[i].wire()))
}

/// Messages leave as they came: in a session, as many turns of the outgoing
/// queue as it holds messages send all of them, oldest first, and as many
/// turns as fewer send that many from the front and keep the rest.
pub proof fn outgoing_leaves_in_order(pre: DeviceView, count: nat)
    requires
        pre.state == SessionState::Connected,
        count <= pre.outgoing.len(),
    ensures
        run(pre, turns(count)) == (
            DeviceView { outgoing: pre.outgoing.skip(count as int), ..pre },
            sends(pre.outgoing, count),
        ),
    decreases count,
{
    if count == 0 {
        assert(pre.outgoing.skip(0) =~= pre.outgoing);
        assert(sends(pre.outgoing, 0) =~= Seq::<Effect>::empty());
    } else {
        let shorter = (count - 1) as nat;
        outgoing_leaves_in_order(pre, shorter);
        assert(turns(count).drop_last() =~= turns(shorter));
        let before = DeviceView { outgoing: pre.outgoing.skip(shorter as int), ..pre };
        assert(before.outgoing[0] == pre.outgoing[shorter as int]);
        assert(before.outgoing.drop_first() =~= pre.outgoing.skip(count as int));
        assert(sends(pre.outgoing, shorter).push(Effect::Send(pre.outgoing[shorter as int].wire()))
            =~= sends(pre.outgoing, count));
    }
}

/// What the application produced onto an empty queue, and the queue had room
/// for, is sent in the order in which it was produced.
pub proof fn produced_is_sent_in_order(pre: DeviceView, messages: Seq<SensorToHost>)
    requires
        pre.state == SessionState::Connected,
        pre.outgoing.len() == 0,
        messages.len() <= QUEUE_DEPTH,
    ensures
        run(
            DeviceView {
                outgoing: crate::queue::after_send_all(
                    pre.outgoing,
                    QUEUE_DEPTH as nat,
                    messages,
                ),
                ..pre
            },
            turns(messages.len()),
        ) == (pre, sends(messages, messages.len())),
{
    queue_keeps_order(pre.outgoing, QUEUE_DEPTH as nat, messages);
    assert(pre.outgoing + messages =~= messages);
    let full = DeviceView { outgoing: messages, ..pre };
    outgoing_leaves_in_order(full, messages.len());
    assert(messages.skip(messages.len() as int) =~= pre.outgoing);
}

/// No frame that the transport writes is longer than the smallest packet.
pub proof fn frames_fit_every_packet(message: SensorToHost)
    ensures
        message.wire().len() <= MAX_FRAME_LEN <= MIN_PACKET_LEN <= LINK_BUFFER_LEN,
{
    device_frame_len(message);
}

} // verus!
