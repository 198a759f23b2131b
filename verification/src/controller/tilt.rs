//! Tilt control with the LSM303AGR accelerometer.
//!
//! With the board held logo up, tilting forward gives `+vx` and tilting right
//! gives `+vy`. Dead zone and smoothing work as for the joystick.
use crate::controller::joystick;
use crate::controller::mode::InputMode;
use crate::controller::signal;
use crate::controller::signal::{EmaFilter, DEFAULT_SMOOTH_DEN, DEFAULT_SMOOTH_NUM, OUTPUT_MAX};
use crate::num;
use crate::protocol::payload::MotionPayload;
use vstd::prelude::*;

verus! {

/// I2C address of the accelerometer.
pub const ACC_ADDR: u8 = 0x19;

/// Identity register.
pub const REG_WHO_AM_I: u8 = 0x0F;

/// What the identity register reads as.
pub const WHO_AM_I_VALUE: u8 = 0x33;

/// Control register 1: data rate and axes.
pub const REG_CTRL_REG1: u8 = 0x20;

/// 100 Hz, normal mode, all axes.
pub const CTRL_REG1_VALUE: u8 = 0x57;

/// Control register 4: scale.
pub const REG_CTRL_REG4: u8 = 0x23;

/// Full scale of 2 g either way.
pub const CTRL_REG4_VALUE: u8 = 0x00;

/// First output register, with auto-increment.
pub const REG_OUT_X_L: u8 = 0xA8;

/// Counts that pass for a level board.
pub const DEAD_ZONE: i16 = 800;

/// Counts of full speed.
pub const FULL_TILT: i16 = 8000;

/// Sampling interval (ms).
pub const SAMPLE_INTERVAL_MS: u64 = 20;

/// What to do next to set up the accelerometer.
#[derive(Clone, Copy, PartialEq, Eq, Structural, Debug)]
pub enum SetupStep {
    /// Read the identity register.
    Identify,
    /// Write a register.
    Write { reg: u8, value: u8 },
    /// Stop; the flag tells whether the accelerometer is ready.
    Done(bool),
}

/// How far the set-up is.
#[derive(Clone, Copy, PartialEq, Eq, Structural, Debug)]
pub enum AccelSetup {
    /// The identity is to be read.
    Identify,
    /// The data rate is to be set.
    SetRate,
    /// The scale is to be set.
    SetScale,
    /// All went well.
    Ready,
    /// Something went wrong.
    Failed,
}

impl AccelSetup {
    /// The step after a reply to the identity read, `None` if the read failed.
    pub open spec fn identified(self, reply: Option<u8>) -> AccelSetup {
        if reply == Some(WHO_AM_I_VALUE) {
            AccelSetup::SetRate
        } else {
            AccelSetup::Failed
        }
    }

    /// The step after a write.
    pub open spec fn written(self, ok: bool) -> AccelSetup {
        match self {
            AccelSetup::SetRate if ok => AccelSetup::SetScale,
            AccelSetup::SetScale if ok => AccelSetup::Ready,
            _ => AccelSetup::Failed,
        }
    }

    /// The start.
    pub fn new() -> (setup: Self)
        ensures
            setup == AccelSetup::Identify,
    {
        AccelSetup::Identify
    }

    /// What to do next.
    pub fn next(&self) -> (step: SetupStep)
        ensures
            step == match *self {
                AccelSetup::Identify => SetupStep::Identify,
                AccelSetup::SetRate => SetupStep::Write {
                    reg: REG_CTRL_REG1,
                    value: CTRL_REG1_VALUE,
                },
                AccelSetup::SetScale => SetupStep::Write {
                    reg: REG_CTRL_REG4,
                    value: CTRL_REG4_VALUE,
                },
                AccelSetup::Ready => SetupStep::Done(true),
                AccelSetup::Failed => SetupStep::Done(false),
            },
    {
        match self {
            AccelSetup::Identify => SetupStep::Identify,
            AccelSetup::SetRate => SetupStep::Write { reg: REG_CTRL_REG1, value: CTRL_REG1_VALUE },
            AccelSetup::SetScale => SetupStep::Write { reg: REG_CTRL_REG4, value: CTRL_REG4_VALUE },
            AccelSetup::Ready => SetupStep::Done(true),
            AccelSetup::Failed => SetupStep::Done(false),
        }
    }

    /// Takes the reply to the identity read, `None` if the read failed.
    pub fn record_identity(&mut self, reply: Option<u8>)
        requires
            *old(self) == AccelSetup::Identify,
        ensures
            *final(self) == old(self).identified(reply),
    {
        *self = match reply {
            Some(who) => if who == WHO_AM_I_VALUE {
                AccelSetup::SetRate
            } else {
                AccelSetup::Failed
            },
            None => AccelSetup::Failed,
        };
    }

    /// Takes the outcome of a write.
    pub fn record_write(&mut self, ok: bool)
        requires
            *old(self) == AccelSetup::SetRate || *old(self) == AccelSetup::SetScale,
        ensures
            *final(self) == old(self).written(ok),
    {
        let next = if !ok {
            AccelSetup::Failed
        } else if *self == AccelSetup::SetRate {
            AccelSetup::SetScale
        } else {
            AccelSetup::Ready
        };
        *self = next;
    }
}

/// The signed value of two bytes, low byte first.
pub open spec fn little_endian(low: u8, high: u8) -> int {
    let word = low + 256 * high;
    if word < 0x8000 {
        word
    } else {
        word - 0x10000
    }
}

/// Decodes two bytes, low byte first.
fn decode(low: u8, high: u8) -> (value: i16)
    ensures
        value == little_endian(low, high),
{
    let word: i32 = low as i32 + 256 * (high as i32);
    if word < 0x8000 {
        word as i16
    } else {
        (word - 0x10000) as i16
    }
}

/// The X and Y counts in a reading of the six output registers. Z is not used.
pub open spec fn counts_in(reply: Option<[u8; 6]>) -> Option<(int, int)> {
    match reply {
        Some(buf) => Some(
            (little_endian(buf@[0], buf@[1]), little_endian(buf@[2], buf@[3])),
        ),
        None => None,
    }
}

/// Decodes a reading of the six output registers, `None` if the read failed.
pub fn read_xy(reply: Option<[u8; 6]>) -> (counts: Option<(i16, i16)>)
    ensures
        counts == match counts_in(reply) {
            Some((x, y)) => Some((x as i16, y as i16)),
            None => None,
        },
{
    match reply {
        Some(buf) => Some((decode(buf[0], buf[1]), decode(buf[2], buf[3]))),
        None => None,
    }
}

/// The speed of a count: zero within the dead zone, and then linear up to full
/// speed at [`FULL_TILT`].
pub open spec fn axis_speed(raw: int) -> int {
    let magnitude = num::min(
        (num::abs(raw) - DEAD_ZONE) * OUTPUT_MAX / (FULL_TILT - DEAD_ZONE),
        OUTPUT_MAX as int,
    );
    if num::abs(raw) <= DEAD_ZONE {
        0
    } else if raw < 0 {
        -magnitude
    } else {
        magnitude
    }
}

/// Maps a count to a speed.
pub fn map_axis(raw: i16) -> (speed: i32)
    ensures
        speed == axis_speed(raw as int),
        -OUTPUT_MAX <= speed <= OUTPUT_MAX,
{
    let abs: i32 = if raw < 0 {
        -(raw as i32)
    } else {
        raw as i32
    };
    if abs <= DEAD_ZONE as i32 {
        return 0;
    }
    let effective: i32 = (FULL_TILT - DEAD_ZONE) as i32;
    let linear: i32 = (abs - DEAD_ZONE as i32) * OUTPUT_MAX / effective;
    let magnitude: i32 = if linear < OUTPUT_MAX {
        linear
    } else {
        OUTPUT_MAX
    };
    if raw < 0 {
        -magnitude
    } else {
        magnitude
    }
}

/// The smoothed value of an axis after a count.
pub open spec fn axis_after(value: int, raw: int) -> int {
    signal::smoothed(
        value,
        axis_speed(raw),
        DEFAULT_SMOOTH_NUM as int,
        DEFAULT_SMOOTH_DEN as int,
    )
}

/// One turn of the sampling: the input mode, and the counts that were read, if a
/// reading was made and did not fail.
pub struct TiltTurn {
    pub mode: InputMode,
    pub reading: Option<(int, int)>,
}

/// The tilt sensor in the abstract: the smoothed speeds to the right and ahead,
/// and what was published last.
pub struct TiltModel {
    pub x: int,
    pub y: int,
    pub last: MotionPayload,
}

impl TiltModel {
    /// A level board, with a stop as the last motion.
    pub open spec fn level() -> TiltModel {
        TiltModel { x: 0, y: 0, last: MotionPayload { vx: 0, vy: 0, omega: 0 } }
    }

    /// The motion that the speeds stand for.
    pub open spec fn motion(self) -> MotionPayload {
        MotionPayload { vx: self.y as i8, vy: self.x as i8, omega: 0 }
    }

    /// Both speeds are within the output range, and what was published last is
    /// what they stand for.
    pub open spec fn wf(self) -> bool {
        &&& joystick::in_output_range(self.x)
        &&& joystick::in_output_range(self.y)
        &&& self.last == self.motion()
    }

    /// The state after a reading. The Y axis of the sensor points backward.
    pub open spec fn after(self, ax: int, ay: int) -> TiltModel {
        let x = axis_after(self.x, ax);
        let y = axis_after(self.y, -ay);
        TiltModel { x, y, last: (TiltModel { x, y, last: self.last }).motion() }
    }

    /// The state after a turn. In another mode the motion is dropped; a reading
    /// that failed changes nothing.
    pub open spec fn after_turn(self, turn: TiltTurn) -> TiltModel {
        if turn.mode != InputMode::Tilt {
            TiltModel::level()
        } else {
            match turn.reading {
                Some((ax, ay)) => self.after(ax, ay),
                None => self,
            }
        }
    }

    /// What is published in a turn: a motion that differs from the last, and only
    /// in tilt mode.
    pub open spec fn publishes(self, turn: TiltTurn) -> Option<MotionPayload> {
        if turn.mode == InputMode::Tilt && self.after_turn(turn).last != self.last {
            Some(self.after_turn(turn).last)
        } else {
            None
        }
    }

    /// The state after turns in order.
    pub open spec fn after_turns(self, turns: Seq<TiltTurn>) -> TiltModel
        decreases turns.len(),
    {
        if turns.len() == 0 {
            self
        } else {
            self.after_turns(turns.drop_last()).after_turn(turns.last())
        }
    }

    /// What is published in turns, in order.
    pub open spec fn published(self, turns: Seq<TiltTurn>) -> Seq<MotionPayload>
        decreases turns.len(),
    {
        if turns.len() == 0 {
            Seq::empty()
        } else {
            let before = self.published(turns.drop_last());
            match self.after_turns(turns.drop_last()).publishes(turns.last()) {
                Some(motion) => before.push(motion),
                None => before,
            }
        }
    }
}

/// The tilt sensor and what was published last.
pub struct Tilt {
    pub smooth_x: EmaFilter,
    pub smooth_y: EmaFilter,
    pub last_sent: MotionPayload,
}

impl View for Tilt {
    type V = TiltModel;

    open spec fn view(&self) -> TiltModel {
        TiltModel {
            x: self.smooth_x.value(),
            y: self.smooth_y.value(),
            last: self.last_sent,
        }
    }
}

impl Tilt {
    /// The speeds are within the output range, and what was published last is
    /// what they stand for.
    pub open spec fn wf(self) -> bool {
        self@.wf()
    }

    /// A level board.
    pub fn new() -> (tilt: Self)
        ensures
            tilt.wf(),
            tilt@ == TiltModel::level(),
    {
        Tilt {
            smooth_x: EmaFilter::new(),
            smooth_y: EmaFilter::new(),
            last_sent: MotionPayload::stop(),
        }
    }

    /// Starts a turn of the sampling. Returns whether a reading is wanted: in tilt
    /// mode. In any other mode what is left of a motion is dropped.
    pub fn begin(&mut self, mode: InputMode) -> (wants_reading: bool)
        requires
            old(self).wf(),
        ensures
            final(self).wf(),
            wants_reading == (mode == InputMode::Tilt),
            wants_reading ==> *final(self) == *old(self),
            final(self)@ == old(self)@.after_turn(TiltTurn { mode, reading: None }),
    {
        if mode == InputMode::Tilt {
            true
        } else {
            self.standby();
            false
        }
    }

    /// Takes the reply to a reading of the six output registers, `None` if it
    /// failed, and returns the motion if it is to be published. A failed reading
    /// changes nothing.
    pub fn take_reading(&mut self, reply: Option<[u8; 6]>) -> (publish: Option<MotionPayload>)
        requires
            old(self).wf(),
        ensures
            final(self).wf(),
            final(self)@ == old(self)@.after_turn(
                TiltTurn { mode: InputMode::Tilt, reading: counts_in(reply) },
            ),
            publish == old(self)@.publishes(
                TiltTurn { mode: InputMode::Tilt, reading: counts_in(reply) },
            ),
    {
        match read_xy(reply) {
            Some((raw_ax, raw_ay)) => self.sample(raw_ax, raw_ay),
            None => None,
        }
    }

    /// Drops what is left of a motion while another input mode is active.
    fn standby(&mut self)
        requires
            old(self).wf(),
        ensures
            final(self).wf(),
            final(self)@ == TiltModel::level(),
    {
        if self.last_sent != MotionPayload::stop() {
            self.smooth_x.reset();
            self.smooth_y.reset();
            self.last_sent = MotionPayload::stop();
        }
    }

    /// Takes a reading and returns the motion if it is to be published: when it
    /// changed.
    pub fn sample(&mut self, raw_ax: i16, raw_ay: i16) -> (publish: Option<MotionPayload>)
        requires
            old(self).wf(),
        ensures
            final(self).wf(),
            final(self)@ == old(self)@.after(raw_ax as int, raw_ay as int),
            publish == if final(self)@.motion() == old(self).last_sent {
                None
            } else {
                Some(final(self)@.motion())
            },
    {
        let scaled_vx: i32 = -map_axis(raw_ay);
        let scaled_vy: i32 = map_axis(raw_ax);
        proof {
            law_tilt_mapping(raw_ay as int, raw_ay as int);
            signal::law_no_overshoot(self.smooth_x.value(), scaled_vy as int);
            signal::law_no_overshoot(self.smooth_y.value(), scaled_vx as int);
        }
        let smooth_x: i32 = self.smooth_x.update(scaled_vy, DEFAULT_SMOOTH_NUM, DEFAULT_SMOOTH_DEN);
        let smooth_y: i32 = self.smooth_y.update(scaled_vx, DEFAULT_SMOOTH_NUM, DEFAULT_SMOOTH_DEN);
        let motion = MotionPayload {
            vx: num::clamp_i32(smooth_y, -OUTPUT_MAX, OUTPUT_MAX) as i8,
            vy: num::clamp_i32(smooth_x, -OUTPUT_MAX, OUTPUT_MAX) as i8,
            omega: 0,
        };
        if motion != self.last_sent {
            self.last_sent = motion;
            Some(motion)
        } else {
            None
        }
    }
}

/// The accelerometer is ready just if it gives its identity and takes both
/// writes; anything else fails.
pub proof fn law_setup(reply: Option<u8>, rate_ok: bool, scale_ok: bool)
    ensures
        ({
            let end = AccelSetup::Identify.identified(reply).written(rate_ok).written(scale_ok);
            &&& end == AccelSetup::Ready <==> reply == Some(WHO_AM_I_VALUE) && rate_ok && scale_ok
            &&& end == AccelSetup::Ready || end == AccelSetup::Failed
        }),
{
}

/// Tilting further never gives less, opposite tilts give opposite speeds, a
/// nearly level board gives none, and full speed is reached at [`FULL_TILT`].
pub proof fn law_tilt_mapping(a: int, b: int)
    requires
        a <= b,
    ensures
        axis_speed(a) <= axis_speed(b),
        axis_speed(-a) == -axis_speed(a),
        -OUTPUT_MAX <= axis_speed(a) <= OUTPUT_MAX,
        num::abs(a) <= DEAD_ZONE ==> axis_speed(a) == 0,
        a >= FULL_TILT ==> axis_speed(a) == OUTPUT_MAX,
        a <= -FULL_TILT ==> axis_speed(a) == -OUTPUT_MAX,
{
}

/// A reading of a nearly level board, in tilt mode.
pub open spec fn is_level(turn: TiltTurn) -> bool {
    &&& turn.mode == InputMode::Tilt
    &&& turn.reading matches Some((ax, ay)) && num::abs(ax) <= DEAD_ZONE && num::abs(ay)
        <= DEAD_ZONE
}

/// A board that is held level brings the car to a stop: after seven readings
/// within the dead zone, be they equal or not, the last motion is a stop.
pub proof fn law_level_board_stops(tilt: TiltModel, turns: Seq<TiltTurn>)
    requires
        tilt.wf(),
        turns.len() >= 7,
        forall|i: int| 0 <= i < turns.len() ==> is_level(#[trigger] turns[i]),
    ensures
        tilt.after_turns(turns).last.is_stop(),
{
    lemma_level_is_idle(tilt, turns);
    signal::law_released_stick_stops(tilt.x, turns.len());
    signal::law_released_stick_stops(tilt.y, turns.len());
}

/// Readings of a nearly level board are idle samples of both axes.
proof fn lemma_level_is_idle(tilt: TiltModel, turns: Seq<TiltTurn>)
    requires
        tilt.wf(),
        forall|i: int| 0 <= i < turns.len() ==> is_level(#[trigger] turns[i]),
    ensures
        tilt.after_turns(turns).x == signal::after_idle(tilt.x, turns.len()),
        tilt.after_turns(turns).y == signal::after_idle(tilt.y, turns.len()),
        tilt.after_turns(turns).last == tilt.after_turns(turns).motion(),
    decreases turns.len(),
{
    if turns.len() > 0 {
        assert(is_level(turns[turns.len() - 1]));
        lemma_level_is_idle(tilt, turns.drop_last());
    }
}

/// Whatever is read in whatever mode, the state stays well-formed, and every
/// motion that is published is within the limits of the protocol and turns
/// nothing.
pub proof fn law_published_motions_are_in_range(tilt: TiltModel, turns: Seq<TiltTurn>)
    requires
        tilt.wf(),
    ensures
        tilt.after_turns(turns).wf(),
        forall|i: int|
            0 <= i < tilt.published(turns).len() ==> {
                &&& (#[trigger] tilt.published(turns)[i]).in_range()
                &&& tilt.published(turns)[i].omega == 0
            },
    decreases turns.len(),
{
    if turns.len() > 0 {
        law_published_motions_are_in_range(tilt, turns.drop_last());
        let before = tilt.after_turns(turns.drop_last());
        if let Some((ax, ay)) = turns.last().reading {
            law_tilt_mapping(ax, ax);
            law_tilt_mapping(-ay, -ay);
            signal::law_no_overshoot(before.x, axis_speed(ax));
            signal::law_no_overshoot(before.y, axis_speed(-ay));
        }
        assert forall|i: int| 0 <= i < tilt.published(turns).len() implies {
            &&& (#[trigger] tilt.published(turns)[i]).in_range()
            &&& tilt.published(turns)[i].omega == 0
        } by {
            lemma_published_step(tilt, turns, i);
        }
    }
}

/// A motion that was published in turns was published before the last turn, or
/// is the motion after it.
proof fn lemma_published_step(tilt: TiltModel, turns: Seq<TiltTurn>, i: int)
    requires
        turns.len() > 0,
        0 <= i < tilt.published(turns).len(),
    ensures
        ({
            let before = tilt.published(turns.drop_last());
            if i < before.len() {
                tilt.published(turns)[i] == before[i]
            } else {
                tilt.published(turns)[i] == tilt.after_turns(turns).last
            }
        }),
{
}

/// Outside of tilt mode nothing is published and no motion is kept.
pub proof fn law_silent_in_other_modes(tilt: TiltModel, turns: Seq<TiltTurn>)
    requires
        forall|i: int| 0 <= i < turns.len() ==> (#[trigger] turns[i]).mode != InputMode::Tilt,
    ensures
        tilt.published(turns) == Seq::<MotionPayload>::empty(),
        turns.len() > 0 ==> tilt.after_turns(turns) == TiltModel::level(),
    decreases turns.len(),
{
    if turns.len() > 0 {
        assert(turns[turns.len() - 1].mode != InputMode::Tilt);
        law_silent_in_other_modes(tilt, turns.drop_last());
    }
}

/// While the mode stays tilt, no motion is published twice in a row, and the
/// first one differs from what was published before.
pub proof fn law_no_motion_is_repeated(tilt: TiltModel, turns: Seq<TiltTurn>)
    requires
        forall|i: int| 0 <= i < turns.len() ==> (#[trigger] turns[i]).mode == InputMode::Tilt,
    ensures
        forall|i: int, j: int|
            #![trigger tilt.published(turns)[i], tilt.published(turns)[j]]
            0 <= i && j == i + 1 && j < tilt.published(turns).len() ==> tilt.published(turns)[i]
                != tilt.published(turns)[j],
        tilt.published(turns).len() > 0 ==> tilt.published(turns)[0] != tilt.last,
        tilt.after_turns(turns).last == if tilt.published(turns).len() > 0 {
            tilt.published(turns).last()
        } else {
            tilt.last
        },
    decreases turns.len(),
{
    if turns.len() > 0 {
        assert(turns[turns.len() - 1].mode == InputMode::Tilt);
        law_no_motion_is_repeated(tilt, turns.drop_last());
    }
}

/// A turn of a board that is held still at the counts `(ax, ay)`: that reading,
/// or none.
pub open spec fn is_held_at(turn: TiltTurn, ax: int, ay: int) -> bool {
    turn.reading matches Some(counts) ==> counts == (ax, ay)
}

/// A board that is held still drives the car the way it is tilted: from a level
/// start, whatever the modes and the failed readings in between, every motion
/// that is published has `vx` zero or of the sign of `-ay` and `vy` zero or of the
/// sign of `ax`, is within the limits and turns nothing.
pub proof fn law_held_board_drives_its_way(ax: int, ay: int, turns: Seq<TiltTurn>)
    requires
        forall|i: int| 0 <= i < turns.len() ==> is_held_at(#[trigger] turns[i], ax, ay),
    ensures
        forall|i: int|
            0 <= i < TiltModel::level().published(turns).len() ==> {
                let motion = #[trigger] TiltModel::level().published(turns)[i];
                &&& ay <= 0 ==> motion.vx >= 0
                &&& ay >= 0 ==> motion.vx <= 0
                &&& ax >= 0 ==> motion.vy >= 0
                &&& ax <= 0 ==> motion.vy <= 0
                &&& motion.in_range()
                &&& motion.omega == 0
            },
{
    law_published_motions_are_in_range(TiltModel::level(), turns);
    lemma_held_board_signs(ax, ay, turns);
}

/// The speeds of a board that is held still keep their signs.
proof fn lemma_held_board_signs(ax: int, ay: int, turns: Seq<TiltTurn>)
    requires
        forall|i: int| 0 <= i < turns.len() ==> is_held_at(#[trigger] turns[i], ax, ay),
    ensures
        ({
            let tilt = TiltModel::level().after_turns(turns);
            &&& tilt.wf()
            &&& ay <= 0 ==> tilt.y >= 0
            &&& ay >= 0 ==> tilt.y <= 0
            &&& ax >= 0 ==> tilt.x >= 0
            &&& ax <= 0 ==> tilt.x <= 0
        }),
        forall|i: int|
            0 <= i < TiltModel::level().published(turns).len() ==> {
                let motion = #[trigger] TiltModel::level().published(turns)[i];
                &&& ay <= 0 ==> motion.vx >= 0
                &&& ay >= 0 ==> motion.vx <= 0
                &&& ax >= 0 ==> motion.vy >= 0
                &&& ax <= 0 ==> motion.vy <= 0
            },
    decreases turns.len(),
{
    law_published_motions_are_in_range(TiltModel::level(), turns);
    if turns.len() > 0 {
        assert(is_held_at(turns[turns.len() - 1], ax, ay));
        lemma_held_board_signs(ax, ay, turns.drop_last());
        let before = TiltModel::level().after_turns(turns.drop_last());
        law_axis_speed_sign(ax);
        law_axis_speed_sign(-ay);
        signal::law_no_overshoot(before.x, axis_speed(ax));
        signal::law_no_overshoot(before.y, axis_speed(-ay));
        assert forall|i: int| 0 <= i < TiltModel::level().published(turns).len() implies {
            let motion = #[trigger] TiltModel::level().published(turns)[i];
            &&& ay <= 0 ==> motion.vx >= 0
            &&& ay >= 0 ==> motion.vx <= 0
            &&& ax >= 0 ==> motion.vy >= 0
            &&& ax <= 0 ==> motion.vy <= 0
        } by {
            lemma_published_step(TiltModel::level(), turns, i);
        }
    }
}

/// A speed is zero or has the sign of its count.
pub proof fn law_axis_speed_sign(raw: int)
    ensures
        raw >= 0 ==> axis_speed(raw) >= 0,
        raw <= 0 ==> axis_speed(raw) <= 0,
{
    law_tilt_mapping(raw, raw);
}

/// Between the dead zone and full tilt the speed is proportional to the tilt beyond
/// the dead zone: 7200 counts are worth 100, rounded down. Within the dead zone
/// there is none, past full tilt there is no more, and both directions are alike.
pub proof fn law_tilt_is_proportional(raw: int)
    ensures
        800 <= raw <= 8000 ==> 7200 * axis_speed(raw) <= 100 * (raw - 800) < 7200 * (axis_speed(raw)
            + 1),
        -800 <= raw <= 800 ==> axis_speed(raw) == 0,
        raw >= 8000 ==> axis_speed(raw) == 100,
        axis_speed(-raw) == -axis_speed(raw),
{
}

/// Neighbouring counts differ by one at most in speed: there are no jumps.
pub proof fn law_tilt_makes_no_jumps(raw: int)
    ensures
        0 <= axis_speed(raw + 1) - axis_speed(raw) <= 1,
{
}

/// Two bytes give the count that they are modulo 65536, low byte first, as a signed
/// value of 16 bits.
pub proof fn law_bytes_make_a_count(low: u8, high: u8)
    ensures
        -32_768 <= little_endian(low, high) < 32_768,
        (little_endian(low, high) - low - 256 * high) % 65_536 == 0,
{
}

/// The X count is in the first two of six bytes, the Y count in the next two; a
/// failed reading has none.
pub proof fn law_counts_of_a_reading(buf: [u8; 6])
    ensures
        counts_in(None) is None,
        counts_in(Some(buf)) matches Some((x, y)) && {
            &&& -32_768 <= x < 32_768
            &&& -32_768 <= y < 32_768
            &&& (x - buf@[0] - 256 * buf@[1]) % 65_536 == 0
            &&& (y - buf@[2] - 256 * buf@[3]) % 65_536 == 0
        },
{
    law_bytes_make_a_count(buf@[0], buf@[1]);
    law_bytes_make_a_count(buf@[2], buf@[3]);
}

/// A reading moves the car: forward against the Y axis and right along the X axis of
/// the sensor, each speed moved three eighths of the way to that of the tilt, and a
/// tilt turns nothing. The motion is published just if it differs from the last; a
/// reading that failed changes and publishes nothing.
pub proof fn law_tilt_sets_the_motion(tilt: TiltModel, ax: int, ay: int)
    requires
        tilt.wf(),
    ensures
        ({
            let turn = TiltTurn { mode: InputMode::Tilt, reading: Some((ax, ay)) };
            let next = tilt.after_turn(turn);
            &&& next.wf()
            &&& next == tilt.after(ax, ay)
            &&& next.y == signal::smoothed(tilt.y, -axis_speed(ay), 3, 8)
            &&& next.x == signal::smoothed(tilt.x, axis_speed(ax), 3, 8)
            &&& next.last.vx == next.y
            &&& next.last.vy == next.x
            &&& next.last.omega == 0
            &&& next.last != tilt.last ==> tilt.publishes(turn) == Some(next.last)
            &&& next.last == tilt.last ==> tilt.publishes(turn) is None
        }),
        ({
            let failed = TiltTurn { mode: InputMode::Tilt, reading: None };
            tilt.after_turn(failed) == tilt && tilt.publishes(failed) is None
        }),
{
    law_tilt_mapping(ax, ax);
    law_tilt_mapping(ay, ay);
    signal::law_no_overshoot(tilt.x, axis_speed(ax));
    signal::law_no_overshoot(tilt.y, -axis_speed(ay));
}

/// The set-up goes from the identity to the data rate to the scale, and any failure
/// ends it.
pub proof fn law_setup_order(reply: Option<u8>, ok: bool)
    ensures
        AccelSetup::Identify.identified(Some(0x33)) == AccelSetup::SetRate,
        reply != Some(0x33u8) ==> AccelSetup::Identify.identified(reply) == AccelSetup::Failed,
        AccelSetup::SetRate.written(true) == AccelSetup::SetScale,
        AccelSetup::SetScale.written(true) == AccelSetup::Ready,
        AccelSetup::SetRate.written(false) == AccelSetup::Failed,
        AccelSetup::SetScale.written(false) == AccelSetup::Failed,
        AccelSetup::Failed.written(ok) == AccelSetup::Failed,
{
}

} // verus!
