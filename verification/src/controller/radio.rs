//! The radio side of the controller: what goes out, what comes back, and the
//! health of the link.
use crate::clock;
use crate::controller::rgb::{ConnectionState, RgbState};
use crate::num;
use crate::protocol::message::{MessageType, RadioHeader};
use crate::protocol::packet;
use crate::protocol::packet::{create_heartbeat_packet, create_motion_packet, RadioPacket};
use crate::protocol::payload::{MotionPayload, ResponsePayload, TelemetryPayload};
use crate::radio_core::{next_seq, HEARTBEAT_INTERVAL_MS};
use vstd::prelude::*;

verus! {

/// Age of the last heartbeat reply at which the link counts as down (ms).
pub const HEARTBEAT_TIMEOUT_MS: u64 = HEARTBEAT_INTERVAL_MS * 3;

/// Interval at which the link is judged (ms).
pub const LINK_EVAL_INTERVAL_MS: u64 = 200;

/// What a packet from the car leads to.
#[derive(Clone, Copy, PartialEq, Eq, Structural, Debug)]
pub enum ControllerAction {
    /// Nothing.
    Ignore,
    /// Hand on a response.
    Response(ResponsePayload),
    /// Hand on telemetry.
    Telemetry(TelemetryPayload),
    /// Note a heartbeat reply.
    Heartbeat,
}

/// The action that a message calls for. Motion and emergency stops are not for
/// the controller, and neither are payloads that cannot be read.
pub open spec fn action_for(msg_type: MessageType, data: Seq<u8>) -> ControllerAction {
    match msg_type {
        MessageType::Response => match ResponsePayload::parse(data) {
            Some(response) => ControllerAction::Response(response),
            None => ControllerAction::Ignore,
        },
        MessageType::Telemetry => match TelemetryPayload::parse(data) {
            Some(telemetry) => ControllerAction::Telemetry(telemetry),
            None => ControllerAction::Ignore,
        },
        MessageType::Heartbeat => ControllerAction::Heartbeat,
        MessageType::Motion | MessageType::EmergencyStop => ControllerAction::Ignore,
    }
}

/// Decides what a valid packet leads to.
pub fn handle_received_packet(packet: &RadioPacket) -> (action: ControllerAction)
    requires
        packet.wf(),
    ensures
        action == action_for(packet.head().msg_type, packet.data()),
{
    match packet.header.msg_type {
        MessageType::Response => match ResponsePayload::from_bytes(packet.get_payload()) {
            Some(response) => ControllerAction::Response(response),
            None => ControllerAction::Ignore,
        },
        MessageType::Telemetry => match TelemetryPayload::from_bytes(packet.get_payload()) {
            Some(telemetry) => ControllerAction::Telemetry(telemetry),
            None => ControllerAction::Ignore,
        },
        MessageType::Heartbeat => ControllerAction::Heartbeat,
        MessageType::Motion | MessageType::EmergencyStop => ControllerAction::Ignore,
    }
}

/// The action that received bytes call for. Bytes that are no valid frame are
/// ignored.
pub open spec fn action_on(bytes: Seq<u8>) -> ControllerAction {
    if RadioPacket::accepts(bytes) {
        action_for(
            RadioHeader::parse(bytes)->0.msg_type,
            bytes.subrange(RadioHeader::SIZE as int, RadioPacket::announced_len(bytes) - 1),
        )
    } else {
        ControllerAction::Ignore
    }
}

/// The state of the link at `now`, in ticks, if the last heartbeat reply came at
/// `last`.
pub open spec fn link_state(last: Option<u64>, now: u64) -> ConnectionState {
    match last {
        None => ConnectionState::Connecting,
        Some(at) => if now - at <= clock::ticks_in(HEARTBEAT_TIMEOUT_MS as int) {
            ConnectionState::Connected
        } else {
            ConnectionState::Disconnected
        },
    }
}

/// The state of the link at `now`.
pub fn link_state_at(last_heartbeat: Option<u64>, now: u64) -> (state: ConnectionState)
    ensures
        state == link_state(last_heartbeat, now),
{
    match last_heartbeat {
        None => ConnectionState::Connecting,
        Some(last) => {
            let elapsed: u64 = now.saturating_sub(last);
            if elapsed <= clock::millis_to_ticks(HEARTBEAT_TIMEOUT_MS) {
                ConnectionState::Connected
            } else {
                ConnectionState::Disconnected
            }
        },
    }
}

/// The state of the link now. Before the first heartbeat reply that is always
/// connecting, after it never.
pub fn derive_link_state(last_heartbeat: Option<u64>) -> (state: ConnectionState)
    ensures
        state == ConnectionState::Connecting <==> last_heartbeat is None,
        exists|now: u64| state == #[trigger] link_state(last_heartbeat, now),
{
    let now: u64 = clock::now_ticks();
    link_state_at(last_heartbeat, now)
}

/// What the LEDs are to show of a link.
pub fn publish_link_state(connection: ConnectionState) -> (state: RgbState)
    ensures
        state == (RgbState { connection }),
{
    RgbState { connection }
}

/// What can happen to the radio of the controller.
pub enum RadioEvent {
    /// Bytes were received.
    Received(Seq<u8>),
    /// A motion is to be sent.
    Motion(MotionPayload),
    /// A heartbeat is due.
    HeartbeatDue,
    /// The car is to stop at once.
    EmergencyStop,
    /// The link is judged at `now`, replies that came before being noted at
    /// `noted`.
    LinkDue { noted: u64, now: u64 },
}

/// A packet that was handed over to be sent.
pub struct SentPacket {
    pub msg_type: MessageType,
    pub seq: u8,
    pub data: Seq<u8>,
}

/// Type and payload of the packet that an event calls for, if any: a motion within
/// the limits, a heartbeat or an emergency stop. Received bytes are not answered.
pub open spec fn command_of(event: RadioEvent) -> Option<(MessageType, Seq<u8>)> {
    match event {
        RadioEvent::Motion(motion) => Some((MessageType::Motion, motion.limited().wire())),
        RadioEvent::HeartbeatDue => Some((MessageType::Heartbeat, Seq::empty())),
        RadioEvent::EmergencyStop => Some((MessageType::EmergencyStop, Seq::empty())),
        RadioEvent::Received(_) | RadioEvent::LinkDue { .. } => None,
    }
}

/// The packets that events call for, in order.
pub open spec fn commands_of(events: Seq<RadioEvent>) -> Seq<(MessageType, Seq<u8>)>
    decreases events.len(),
{
    if events.len() == 0 {
        Seq::empty()
    } else {
        match command_of(events.last()) {
            Some(command) => commands_of(events.drop_last()).push(command),
            None => commands_of(events.drop_last()),
        }
    }
}

/// The radio state of the controller.
#[derive(Clone, Copy, PartialEq, Eq, Structural, Debug)]
pub struct ControllerRadio {
    /// Next sequence number to send with.
    pub seq: u8,
    /// State of the link as last judged.
    pub link_state: ConnectionState,
    /// When the last heartbeat reply was noted, in ticks.
    pub last_heartbeat: Option<u64>,
    /// A heartbeat reply came since the link was last judged.
    pub heard: bool,
}

impl ControllerRadio {
    /// The state after received bytes.
    pub open spec fn received(self, bytes: Seq<u8>) -> ControllerRadio {
        ControllerRadio {
            heard: self.heard || action_on(bytes) == ControllerAction::Heartbeat,
            ..self
        }
    }

    /// The state after the link was judged at `now`, replies that came before
    /// being noted at `noted`.
    pub open spec fn judged(self, noted: u64, now: u64) -> ControllerRadio {
        let last_heartbeat = if self.heard {
            Some(noted)
        } else {
            self.last_heartbeat
        };
        ControllerRadio {
            link_state: link_state(last_heartbeat, now),
            last_heartbeat,
            heard: false,
            ..self
        }
    }

    /// What is to be shown when the link state becomes that of `next`: nothing
    /// if it does not change.
    pub open spec fn shows(self, next: ControllerRadio) -> Option<RgbState> {
        if next.link_state == self.link_state {
            None
        } else {
            Some(RgbState { connection: next.link_state })
        }
    }

    /// The state after a packet was built.
    pub open spec fn counted(self) -> ControllerRadio {
        ControllerRadio { seq: ((self.seq + 1) % 256) as u8, ..self }
    }

    /// The state after an event.
    pub open spec fn after(self, event: RadioEvent) -> ControllerRadio {
        match event {
            RadioEvent::Received(bytes) => self.received(bytes),
            RadioEvent::Motion(_) => self.counted(),
            RadioEvent::HeartbeatDue => self.counted(),
            RadioEvent::EmergencyStop => self.counted(),
            RadioEvent::LinkDue { noted, now } => self.judged(noted, now),
        }
    }

    /// The state after events in order.
    pub open spec fn after_all(self, events: Seq<RadioEvent>) -> ControllerRadio
        decreases events.len(),
    {
        if events.len() == 0 {
            self
        } else {
            self.after_all(events.drop_last()).after(events.last())
        }
    }

    /// The packets that are sent over events, in order.
    pub open spec fn sent(self, events: Seq<RadioEvent>) -> Seq<SentPacket>
        decreases events.len(),
    {
        if events.len() == 0 {
            Seq::empty()
        } else {
            let before = self.sent(events.drop_last());
            match command_of(events.last()) {
                Some((msg_type, data)) => before.push(
                    SentPacket { msg_type, seq: self.after_all(events.drop_last()).seq, data },
                ),
                None => before,
            }
        }
    }

    /// What is shown over events, in order: the state of the link at the start,
    /// and then what each judgement gives to show.
    pub open spec fn shown(self, events: Seq<RadioEvent>) -> Seq<RgbState>
        decreases events.len(),
    {
        if events.len() == 0 {
            seq![RgbState { connection: self.link_state }]
        } else {
            let before = self.after_all(events.drop_last());
            match before.shows(before.after(events.last())) {
                Some(state) => self.shown(events.drop_last()).push(state),
                None => self.shown(events.drop_last()),
            }
        }
    }

    /// A radio that has heard nothing yet.
    pub fn new() -> (radio: Self)
        ensures
            radio == (ControllerRadio {
                seq: 0,
                link_state: ConnectionState::Connecting,
                last_heartbeat: None,
                heard: false,
            }),
    {
        ControllerRadio {
            seq: 0,
            link_state: ConnectionState::Connecting,
            last_heartbeat: None,
            heard: false,
        }
    }

    /// Takes received bytes and returns what they lead to.
    pub fn on_frame(&mut self, data: &[u8]) -> (action: ControllerAction)
        ensures
            action == action_on(data@),
            *final(self) == old(self).after(RadioEvent::Received(data@)),
    {
        match RadioPacket::from_bytes(data) {
            Some(packet) => {
                assert(packet.data() == data@.subrange(
                    RadioHeader::SIZE as int,
                    RadioPacket::announced_len(data@) - 1,
                ));
                let action = handle_received_packet(&packet);
                if action == ControllerAction::Heartbeat {
                    self.heard = true;
                }
                action
            },
            None => ControllerAction::Ignore,
        }
    }

    /// Builds the packet that sends a motion.
    pub fn motion_packet(&mut self, motion: MotionPayload) -> (packet: RadioPacket)
        ensures
            packet.carries(MessageType::Motion, old(self).seq, motion.limited().wire()),
            *final(self) == old(self).after(RadioEvent::Motion(motion)),
    {
        create_motion_packet(next_seq(&mut self.seq), motion.vx, motion.vy, motion.omega)
    }

    /// Builds a heartbeat.
    pub fn heartbeat_packet(&mut self) -> (packet: RadioPacket)
        ensures
            packet.carries(MessageType::Heartbeat, old(self).seq, Seq::empty()),
            *final(self) == old(self).after(RadioEvent::HeartbeatDue),
    {
        create_heartbeat_packet(next_seq(&mut self.seq))
    }

    /// Builds an emergency stop.
    pub fn emergency_stop_packet(&mut self) -> (packet: RadioPacket)
        ensures
            packet.carries(MessageType::EmergencyStop, old(self).seq, Seq::empty()),
            *final(self) == old(self).after(RadioEvent::EmergencyStop),
    {
        RadioPacket::new(MessageType::EmergencyStop, next_seq(&mut self.seq))
    }

    /// Judges the link at `now`, noting replies that came before at `noted`, and
    /// returns what is to be shown, if it changed.
    pub fn check_link_at(&mut self, noted: u64, now: u64) -> (publish: Option<RgbState>)
        ensures
            *final(self) == old(self).after(RadioEvent::LinkDue { noted, now }),
            publish == old(self).shows(*final(self)),
    {
        if self.heard {
            self.last_heartbeat = Some(noted);
            self.heard = false;
        }
        let next_state = link_state_at(self.last_heartbeat, now);
        self.adopt(next_state)
    }

    /// Judges the link now and returns what is to be shown, if it changed.
    pub fn check_link(&mut self) -> (publish: Option<RgbState>)
        ensures
            exists|noted: u64, now: u64|
                *final(self) == #[trigger] old(self).judged(noted, now),
            publish == old(self).shows(*final(self)),
            final(self).link_state == ConnectionState::Connecting <==> (!old(self).heard && old(
                self,
            ).last_heartbeat is None),
    {
        let ghost before = *self;
        let noted: u64 = clock::now_ticks();
        if self.heard {
            self.last_heartbeat = Some(noted);
            self.heard = false;
        }
        let next_state = derive_link_state(self.last_heartbeat);
        let ghost now = choose|now: u64| next_state == #[trigger] link_state(
            self.last_heartbeat,
            now,
        );
        let publish = self.adopt(next_state);
        assert(*self == before.judged(noted, now));
        publish
    }

    /// Takes over a state of the link and returns what is to be shown, if it
    /// changed.
    fn adopt(&mut self, next_state: ConnectionState) -> (publish: Option<RgbState>)
        ensures
            *final(self) == (ControllerRadio { link_state: next_state, ..*old(self) }),
            publish == old(self).shows(*final(self)),
    {
        if next_state != self.link_state {
            self.link_state = next_state;
            Some(publish_link_state(next_state))
        } else {
            None
        }
    }
}

/// The link goes down once and for good if no further reply comes: a link that
/// counts as down at one instant does so at every later one.
pub proof fn law_silent_link_stays_down(last: Option<u64>, now: u64, later: u64)
    requires
        now <= later,
        link_state(last, now) == ConnectionState::Disconnected,
    ensures
        link_state(last, later) == ConnectionState::Disconnected,
{
}

/// A reply brings the link up, and one lost reply does not take it down: it is
/// still up when the reply after the lost one is due.
pub proof fn law_one_lost_reply_is_tolerated(at: u64, now: u64)
    requires
        at <= now <= at + 2 * clock::ticks_in(HEARTBEAT_INTERVAL_MS as int),
    ensures
        link_state(Some(at), now) == ConnectionState::Connected,
{
}

/// The reply of the car to a heartbeat brings the link up when it is next
/// judged, whatever follows the frame on air.
pub proof fn law_reply_brings_the_link_up(
    radio: ControllerRadio,
    reply: RadioPacket,
    seq: u8,
    rest: Seq<u8>,
    noted: u64,
    now: u64,
)
    requires
        reply.carries(MessageType::Heartbeat, seq, Seq::empty()),
        noted <= now <= noted + clock::ticks_in(HEARTBEAT_TIMEOUT_MS as int),
    ensures
        action_on(reply.frame() + rest) == ControllerAction::Heartbeat,
        radio.received(reply.frame() + rest).judged(noted, now).link_state
            == ConnectionState::Connected,
{
    packet::law_carried_packet(reply, MessageType::Heartbeat, seq, Seq::empty());
    packet::law_frame_is_understood(reply, rest);
}

/// Over any events, one packet is sent for each motion, each heartbeat that is due
/// and each emergency stop, in that order, and nothing else; the packets are
/// numbered without a gap, modulo 256.
pub proof fn law_packets_are_numbered(radio: ControllerRadio, events: Seq<RadioEvent>)
    ensures
        radio.sent(events).len() == commands_of(events).len(),
        forall|k: int|
            0 <= k < radio.sent(events).len() ==> {
                let packet = #[trigger] radio.sent(events)[k];
                &&& packet.seq == (radio.seq + k) % 256
                &&& (packet.msg_type, packet.data) == commands_of(events)[k]
            },
        radio.after_all(events).seq == (radio.seq + radio.sent(events).len()) % 256,
    decreases events.len(),
{
    if events.len() > 0 {
        law_packets_are_numbered(radio, events.drop_last());
        let before = radio.sent(events.drop_last());
        assert forall|k: int| 0 <= k < radio.sent(events).len() implies {
            let packet = #[trigger] radio.sent(events)[k];
            &&& packet.seq == (radio.seq + k) % 256
            &&& (packet.msg_type, packet.data) == commands_of(events)[k]
        } by {
            if k < before.len() {
                assert(radio.sent(events)[k] == before[k]);
                assert(commands_of(events)[k] == commands_of(events.drop_last())[k]);
            }
        }
    }
}

/// Over any events, what is shown starts with the state of the link at the start,
/// and every further state differs from the one before; the last one is the state
/// of the link.
pub proof fn law_only_changes_are_shown(radio: ControllerRadio, events: Seq<RadioEvent>)
    ensures
        radio.shown(events).len() > 0,
        radio.shown(events)[0].connection == radio.link_state,
        forall|i: int, j: int|
            #![trigger radio.shown(events)[i], radio.shown(events)[j]]
            0 <= i && j == i + 1 && j < radio.shown(events).len() ==> radio.shown(events)[i]
                != radio.shown(events)[j],
        radio.shown(events).last().connection == radio.after_all(events).link_state,
    decreases events.len(),
{
    if events.len() > 0 {
        law_only_changes_are_shown(radio, events.drop_last());
    }
}

/// A link that was never up is connecting, and one that was is not: no judgement
/// takes it back.
pub proof fn law_never_connecting_again(radio: ControllerRadio, noted: u64, now: u64)
    requires
        radio.heard || radio.last_heartbeat is Some,
    ensures
        radio.judged(noted, now).link_state != ConnectionState::Connecting,
        radio.judged(noted, now).last_heartbeat is Some,
{
}

/// The link is connecting until the first reply, then up while the last reply is at
/// most 19661 ticks old, which are 600 ms, and down when it is older.
pub proof fn law_link_follows_the_last_reply(at: u64, now: u64)
    ensures
        link_state(None, now) == ConnectionState::Connecting,
        link_state(Some(at), now) == ConnectionState::Connected <==> now <= at + 19_661,
        link_state(Some(at), now) == ConnectionState::Disconnected <==> now > at + 19_661,
{
}

/// A reply counts once, from the instant at which it is noted: a judgement takes it
/// up, and later ones go by it until the next reply.
pub proof fn law_reply_is_noted_once(
    radio: ControllerRadio,
    noted: u64,
    now: u64,
    noted_later: u64,
    later: u64,
)
    ensures
        ({
            let first = radio.judged(noted, now);
            let second = first.judged(noted_later, later);
            &&& radio.heard ==> first.last_heartbeat == Some(noted)
            &&& !radio.heard ==> first.last_heartbeat == radio.last_heartbeat
            &&& !first.heard
            &&& first.link_state == link_state(first.last_heartbeat, now)
            &&& second.last_heartbeat == first.last_heartbeat
            &&& second.link_state == link_state(first.last_heartbeat, later)
            &&& first.seq == radio.seq
        }),
{
}

/// Received bytes touch nothing but the note that a reply came, and only a valid
/// heartbeat sets it; nothing but a judgement takes it back.
pub proof fn law_only_heartbeats_are_heard(radio: ControllerRadio, bytes: Seq<u8>)
    ensures
        ({
            let next = radio.received(bytes);
            &&& next.heard <==> radio.heard || (RadioPacket::accepts(bytes) && RadioHeader::parse(
                bytes,
            )->0.msg_type is Heartbeat)
            &&& next.seq == radio.seq
            &&& next.link_state == radio.link_state
            &&& next.last_heartbeat == radio.last_heartbeat
        }),
{
}

/// What the controller makes of each message: a response of two bytes or more with a
/// known status and telemetry of six bytes or more are handed on as their bytes say;
/// commands are not for it.
pub proof fn law_controller_reads_messages(msg_type: MessageType, data: Seq<u8>)
    ensures
        msg_type is Response && data.len() >= 2 && data[0] <= 4 ==> (action_for(
            msg_type,
            data,
        ) matches ControllerAction::Response(response) && response.status.code() == data[0]
            && response.info == data[1]),
        msg_type is Response && (data.len() < 2 || data[0] > 4) ==> action_for(msg_type, data)
            == ControllerAction::Ignore,
        msg_type is Telemetry && data.len() >= 6 ==> (action_for(
            msg_type,
            data,
        ) matches ControllerAction::Telemetry(t) && {
            &&& t.battery == data[0]
            &&& t.speed == data[1]
            &&& t.heading == data[2]
            &&& (t.vx - data[3]) % 256 == 0
            &&& (t.vy - data[4]) % 256 == 0
            &&& (t.omega - data[5]) % 256 == 0
        }),
        msg_type is Telemetry && data.len() < 6 ==> action_for(msg_type, data)
            == ControllerAction::Ignore,
        msg_type is Heartbeat ==> action_for(msg_type, data) == ControllerAction::Heartbeat,
        msg_type is Motion || msg_type is EmergencyStop ==> action_for(msg_type, data)
            == ControllerAction::Ignore,
{
}

/// Bytes that are no valid frame are ignored; those that are one are taken for what
/// the frame carries.
pub proof fn law_only_frames_are_read(bytes: Seq<u8>)
    ensures
        !RadioPacket::accepts(bytes) ==> action_on(bytes) == ControllerAction::Ignore,
        RadioPacket::accepts(bytes) ==> action_on(bytes) == action_for(
            RadioHeader::parse(bytes)->0.msg_type,
            bytes.subrange(4, 4 + bytes[3]),
        ),
{
}

/// A motion is sent with each component within 100 either way, nearest to what was
/// asked for and in the order `vx`, `vy`, `omega`; heartbeats and emergency stops
/// have no payload; nothing else sends.
pub proof fn law_what_is_sent(event: RadioEvent)
    ensures
        event matches RadioEvent::Motion(motion) ==> (command_of(event) matches Some((t, data))
            && t is Motion && data.len() == 3 && {
            &&& (data[0] - num::clamp(motion.vx as int, -100, 100)) % 256 == 0
            &&& (data[1] - num::clamp(motion.vy as int, -100, 100)) % 256 == 0
            &&& (data[2] - num::clamp(motion.omega as int, -100, 100)) % 256 == 0
        }),
        event is HeartbeatDue ==> (command_of(event) matches Some((t, data)) && t is Heartbeat
            && data.len() == 0),
        event is EmergencyStop ==> (command_of(event) matches Some((t, data)) && t is EmergencyStop
            && data.len() == 0),
        event is Received || event is LinkDue ==> command_of(event) is None,
{
}

/// The LEDs are told of a state of the link just when it changes, and of the new one.
pub proof fn law_changes_are_told(radio: ControllerRadio, noted: u64, now: u64)
    ensures
        ({
            let next = radio.judged(noted, now);
            &&& next.link_state == radio.link_state ==> radio.shows(next) is None
            &&& next.link_state != radio.link_state ==> radio.shows(next) == Some(
                RgbState { connection: next.link_state },
            )
        }),
{
}

/// Sending uses up one sequence number and changes nothing else.
pub proof fn law_sending_counts(radio: ControllerRadio, motion: MotionPayload)
    ensures
        forall|event: RadioEvent|
            event == RadioEvent::Motion(motion) || event is HeartbeatDue || event is EmergencyStop
                ==> {
                let next = #[trigger] radio.after(event);
                &&& next.seq == (radio.seq + 1) % 256
                &&& next.link_state == radio.link_state
                &&& next.last_heartbeat == radio.last_heartbeat
                &&& next.heard == radio.heard
            },
{
}

} // verus!
