//! The payloads: motion commands, responses and telemetry.
use crate::num;
use crate::protocol::message::CarStatus;
use vstd::prelude::*;

verus! {

/// Mecanum motion command, three signed bytes.
///
/// Layout: `[vx: 1][vy: 1][omega: 1]`. Each component is meant to lie in
/// `-100..=100`.
#[derive(Clone, Copy, PartialEq, Eq, Debug, Structural)]
pub struct MotionPayload {
    /// Forward (+) or backward (-) speed.
    pub vx: i8,
    /// Strafe right (+) or left (-) speed.
    pub vy: i8,
    /// Clockwise (+) or counter-clockwise (-) rotation.
    pub omega: i8,
}

impl MotionPayload {
    /// Size of a motion payload in bytes.
    pub const SIZE: usize = 3;

    /// The bytes of this payload.
    pub open spec fn wire(self) -> Seq<u8> {
        seq![num::byte_of(self.vx), num::byte_of(self.vy), num::byte_of(self.omega)]
    }

    /// The motion at the front of `bytes`: there is one if three bytes are.
    pub open spec fn parse(bytes: Seq<u8>) -> Option<MotionPayload> {
        if bytes.len() >= Self::SIZE {
            Some(
                MotionPayload {
                    vx: num::signed_of(bytes[0]),
                    vy: num::signed_of(bytes[1]),
                    omega: num::signed_of(bytes[2]),
                },
            )
        } else {
            None
        }
    }

    /// Every component lies in `-100..=100`.
    pub open spec fn in_range(self) -> bool {
        &&& -100 <= self.vx <= 100
        &&& -100 <= self.vy <= 100
        &&& -100 <= self.omega <= 100
    }

    /// Every component is zero.
    pub open spec fn is_stop(self) -> bool {
        self.vx == 0 && self.vy == 0 && self.omega == 0
    }

    /// This motion with every component moved into `-100..=100`.
    pub open spec fn limited(self) -> MotionPayload {
        MotionPayload {
            vx: num::clamp(self.vx as int, -100, 100) as i8,
            vy: num::clamp(self.vy as int, -100, 100) as i8,
            omega: num::clamp(self.omega as int, -100, 100) as i8,
        }
    }

    /// The motion that stops the car.
    pub fn stop() -> (motion: Self)
        ensures
            motion == (MotionPayload { vx: 0, vy: 0, omega: 0 }),
    {
        MotionPayload { vx: 0, vy: 0, omega: 0 }
    }

    /// A motion straight ahead.
    pub fn forward(speed: i8) -> (motion: Self)
        ensures
            motion == (MotionPayload { vx: speed, vy: 0, omega: 0 }),
    {
        MotionPayload { vx: speed, vy: 0, omega: 0 }
    }

    /// A motion sideways.
    pub fn strafe(speed: i8) -> (motion: Self)
        ensures
            motion == (MotionPayload { vx: 0, vy: speed, omega: 0 }),
    {
        MotionPayload { vx: 0, vy: speed, omega: 0 }
    }

    /// A rotation on the spot.
    pub fn rotate(speed: i8) -> (motion: Self)
        ensures
            motion == (MotionPayload { vx: 0, vy: 0, omega: speed }),
    {
        MotionPayload { vx: 0, vy: 0, omega: speed }
    }

    /// Serializes the motion.
    pub fn to_bytes(&self) -> (bytes: [u8; Self::SIZE])
        ensures
            bytes@ == self.wire(),
    {
        [num::to_byte(self.vx), num::to_byte(self.vy), num::to_byte(self.omega)]
    }

    /// Deserializes the motion at the front of `bytes`.
    pub fn from_bytes(bytes: &[u8]) -> (motion: Option<Self>)
        ensures
            motion == Self::parse(bytes@),
    {
        if bytes.len() < Self::SIZE {
            return None;
        }
        Some(
            MotionPayload {
                vx: num::to_signed(bytes[0]),
                vy: num::to_signed(bytes[1]),
                omega: num::to_signed(bytes[2]),
            },
        )
    }

    /// Clamps every component to `-100..=100`.
    pub fn clamped(self) -> (motion: Self)
        ensures
            motion == self.limited(),
    {
        MotionPayload {
            vx: num::clamp_i8(self.vx, -100, 100),
            vy: num::clamp_i8(self.vy, -100, 100),
            omega: num::clamp_i8(self.omega, -100, 100),
        }
    }
}

/// Response from the car.
///
/// Layout: `[status: 1][info: 1]`.
#[derive(Clone, Copy, PartialEq, Eq, Debug, Structural)]
pub struct ResponsePayload {
    /// Car status.
    pub status: CarStatus,
    /// Further information, such as the battery level.
    pub info: u8,
}

impl ResponsePayload {
    /// Size of a response payload in bytes.
    pub const SIZE: usize = 2;

    /// The bytes of this payload.
    pub open spec fn wire(self) -> Seq<u8> {
        seq![self.status.code(), self.info]
    }

    /// The response at the front of `bytes`: there is one if two bytes are
    /// there and the first is a known status.
    pub open spec fn parse(bytes: Seq<u8>) -> Option<ResponsePayload> {
        if bytes.len() >= Self::SIZE {
            match CarStatus::decode(bytes[0]) {
                Some(status) => Some(ResponsePayload { status, info: bytes[1] }),
                None => None,
            }
        } else {
            None
        }
    }

    /// Serializes the response.
    pub fn to_bytes(&self) -> (bytes: [u8; Self::SIZE])
        ensures
            bytes@ == self.wire(),
    {
        [self.status.to_byte(), self.info]
    }

    /// Deserializes the response at the front of `bytes`.
    pub fn from_bytes(bytes: &[u8]) -> (response: Option<Self>)
        ensures
            response == Self::parse(bytes@),
    {
        if bytes.len() < Self::SIZE {
            return None;
        }
        match CarStatus::from_byte(bytes[0]) {
            Some(status) => Some(ResponsePayload { status, info: bytes[1] }),
            None => None,
        }
    }
}

/// Telemetry of the car.
///
/// Layout: `[battery: 1][speed: 1][heading: 1][vx: 1][vy: 1][omega: 1]`.
#[derive(Clone, Copy, PartialEq, Eq, Debug, Structural)]
pub struct TelemetryPayload {
    /// Battery level in percent.
    pub battery: u8,
    /// Overall speed magnitude, 0 to 100.
    pub speed: u8,
    /// Heading in 256ths of a full turn.
    pub heading: u8,
    /// Current forward (+) or backward (-) speed.
    pub vx: i8,
    /// Current strafe speed, right positive.
    pub vy: i8,
    /// Current rotation, clockwise positive.
    pub omega: i8,
}

impl TelemetryPayload {
    /// Size of a telemetry payload in bytes.
    pub const SIZE: usize = 6;

    /// The bytes of this payload.
    pub open spec fn wire(self) -> Seq<u8> {
        seq![
            self.battery,
            self.speed,
            self.heading,
            num::byte_of(self.vx),
            num::byte_of(self.vy),
            num::byte_of(self.omega),
        ]
    }

    /// The telemetry at the front of `bytes`: there is one if six bytes are.
    pub open spec fn parse(bytes: Seq<u8>) -> Option<TelemetryPayload> {
        if bytes.len() >= Self::SIZE {
            Some(
                TelemetryPayload {
                    battery: bytes[0],
                    speed: bytes[1],
                    heading: bytes[2],
                    vx: num::signed_of(bytes[3]),
                    vy: num::signed_of(bytes[4]),
                    omega: num::signed_of(bytes[5]),
                },
            )
        } else {
            None
        }
    }

    /// Serializes the telemetry.
    pub fn to_bytes(&self) -> (bytes: [u8; Self::SIZE])
        ensures
            bytes@ == self.wire(),
    {
        [
            self.battery,
            self.speed,
            self.heading,
            num::to_byte(self.vx),
            num::to_byte(self.vy),
            num::to_byte(self.omega),
        ]
    }

    /// Deserializes the telemetry at the front of `bytes`.
    pub fn from_bytes(bytes: &[u8]) -> (telemetry: Option<Self>)
        ensures
            telemetry == Self::parse(bytes@),
    {
        if bytes.len() < Self::SIZE {
            return None;
        }
        Some(
            TelemetryPayload {
                battery: bytes[0],
                speed: bytes[1],
                heading: bytes[2],
                vx: num::to_signed(bytes[3]),
                vy: num::to_signed(bytes[4]),
                omega: num::to_signed(bytes[5]),
            },
        )
    }
}

/// A motion is read back from its bytes, whatever follows them.
pub proof fn law_motion_round_trip(motion: MotionPayload, rest: Seq<u8>)
    ensures
        MotionPayload::parse(motion.wire() + rest) == Some(motion),
{
}

/// A response is read back from its bytes, whatever follows them.
pub proof fn law_response_round_trip(response: ResponsePayload, rest: Seq<u8>)
    ensures
        ResponsePayload::parse(response.wire() + rest) == Some(response),
{
}

/// Telemetry is read back from its bytes, whatever follows them.
pub proof fn law_telemetry_round_trip(telemetry: TelemetryPayload, rest: Seq<u8>)
    ensures
        TelemetryPayload::parse(telemetry.wire() + rest) == Some(telemetry),
{
}

/// What parses as a motion has that motion's bytes in front.
pub proof fn law_motion_parse_is_faithful(bytes: Seq<u8>)
    requires
        MotionPayload::parse(bytes) is Some,
    ensures
        MotionPayload::parse(bytes)->0.wire() == bytes.take(MotionPayload::SIZE as int),
{
    assert(MotionPayload::parse(bytes)->0.wire() =~= bytes.take(MotionPayload::SIZE as int));
}

/// What parses as a response has that response's bytes in front.
pub proof fn law_response_parse_is_faithful(bytes: Seq<u8>)
    requires
        ResponsePayload::parse(bytes) is Some,
    ensures
        ResponsePayload::parse(bytes)->0.wire() == bytes.take(ResponsePayload::SIZE as int),
{
    assert(ResponsePayload::parse(bytes)->0.wire() =~= bytes.take(ResponsePayload::SIZE as int));
}

/// What parses as telemetry has that telemetry's bytes in front.
pub proof fn law_telemetry_parse_is_faithful(bytes: Seq<u8>)
    requires
        TelemetryPayload::parse(bytes) is Some,
    ensures
        TelemetryPayload::parse(bytes)->0.wire() == bytes.take(TelemetryPayload::SIZE as int),
{
    assert(TelemetryPayload::parse(bytes)->0.wire() =~= bytes.take(TelemetryPayload::SIZE as int));
}

/// A clamped motion is within range, and a motion within range is left alone.
pub proof fn law_clamped_is_in_range(motion: MotionPayload)
    ensures
        motion.limited().in_range(),
        motion.in_range() ==> motion.limited() == motion,
        motion.limited().limited() == motion.limited(),
{
}

/// A motion is three bytes, each the component modulo 256; there is one just if three
/// bytes are there.
pub proof fn law_motion_bytes(motion: MotionPayload, bytes: Seq<u8>)
    ensures
        motion.wire().len() == 3,
        (motion.wire()[0] - motion.vx) % 256 == 0,
        (motion.wire()[1] - motion.vy) % 256 == 0,
        (motion.wire()[2] - motion.omega) % 256 == 0,
        MotionPayload::parse(bytes) is Some <==> bytes.len() >= 3,
        MotionPayload::parse(bytes) matches Some(m) ==> {
            &&& (m.vx - bytes[0]) % 256 == 0
            &&& (m.vy - bytes[1]) % 256 == 0
            &&& (m.omega - bytes[2]) % 256 == 0
        },
{
}

/// A response is the byte of its status and its information; there is one just if two
/// bytes are there and the first is a status.
pub proof fn law_response_bytes(response: ResponsePayload, bytes: Seq<u8>)
    ensures
        response.wire() == seq![response.status.code(), response.info],
        ResponsePayload::parse(bytes) is Some <==> bytes.len() >= 2 && bytes[0] <= 4,
        ResponsePayload::parse(bytes) matches Some(r) ==> r.status.code() == bytes[0] && r.info
            == bytes[1],
{
}

/// Telemetry is six bytes: battery, speed and heading as they are, the motion modulo
/// 256; there is one just if six bytes are there.
pub proof fn law_telemetry_bytes(telemetry: TelemetryPayload, bytes: Seq<u8>)
    ensures
        telemetry.wire().len() == 6,
        telemetry.wire()[0] == telemetry.battery,
        telemetry.wire()[1] == telemetry.speed,
        telemetry.wire()[2] == telemetry.heading,
        (telemetry.wire()[3] - telemetry.vx) % 256 == 0,
        (telemetry.wire()[4] - telemetry.vy) % 256 == 0,
        (telemetry.wire()[5] - telemetry.omega) % 256 == 0,
        TelemetryPayload::parse(bytes) is Some <==> bytes.len() >= 6,
        TelemetryPayload::parse(bytes) matches Some(t) ==> {
            &&& t.battery == bytes[0]
            &&& t.speed == bytes[1]
            &&& t.heading == bytes[2]
            &&& (t.vx - bytes[3]) % 256 == 0
            &&& (t.vy - bytes[4]) % 256 == 0
            &&& (t.omega - bytes[5]) % 256 == 0
        },
{
}

/// Limiting moves each component by itself to the nearest value within 100 either
/// way.
pub proof fn law_limits(motion: MotionPayload)
    ensures
        ({
            let limited = motion.limited();
            &&& -100 <= motion.vx <= 100 ==> limited.vx == motion.vx
            &&& motion.vx > 100 ==> limited.vx == 100
            &&& motion.vx < -100 ==> limited.vx == -100
            &&& -100 <= motion.vy <= 100 ==> limited.vy == motion.vy
            &&& motion.vy > 100 ==> limited.vy == 100
            &&& motion.vy < -100 ==> limited.vy == -100
            &&& -100 <= motion.omega <= 100 ==> limited.omega == motion.omega
            &&& motion.omega > 100 ==> limited.omega == 100
            &&& motion.omega < -100 ==> limited.omega == -100
        }),
        motion.is_stop() <==> motion.vx == 0 && motion.vy == 0 && motion.omega == 0,
{
}

} // verus!
