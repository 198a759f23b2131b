//! The joystick: from two raw samples to a translation.
//!
//! The Y axis gives `vx`, forward positive, and the X axis gives `vy`, right
//! positive.
use crate::controller::mode::InputMode;
use crate::controller::signal;
use crate::controller::signal::{
    EmaFilter, ADC_MAX, DEFAULT_DEAD_ZONE, DEFAULT_SMOOTH_DEN, DEFAULT_SMOOTH_NUM, OUTPUT_MAX,
};
use crate::num;
use crate::protocol::payload::MotionPayload;
use vstd::prelude::*;

verus! {

/// Sampling interval (ms).
pub const SAMPLE_INTERVAL_MS: u64 = 20;

/// The smoothed value of an axis after a raw sample.
pub open spec fn axis_after(value: int, raw: int) -> int {
    signal::smoothed(
        value,
        signal::deflection(raw, DEFAULT_DEAD_ZONE as int),
        DEFAULT_SMOOTH_NUM as int,
        DEFAULT_SMOOTH_DEN as int,
    )
}

/// A smoothed value within the output range.
pub open spec fn in_output_range(value: int) -> bool {
    -OUTPUT_MAX <= value <= OUTPUT_MAX
}

/// A smoothed value stays within the output range.
pub proof fn lemma_axis_stays_in_range(value: int, raw: int)
    requires
        in_output_range(value),
    ensures
        in_output_range(axis_after(value, raw)),
        in_output_range(signal::deflection(raw, DEFAULT_DEAD_ZONE as int)),
{
    signal::law_deflection(raw, raw, DEFAULT_DEAD_ZONE as int);
    signal::law_no_overshoot(value, signal::deflection(raw, DEFAULT_DEAD_ZONE as int));
}

/// Takes a raw sample of one axis with the default dead zone.
pub(crate) fn take_sample(filter: &mut EmaFilter, raw: i16) -> (result: i8)
    requires
        in_output_range(old(filter).value()),
    ensures
        final(filter).value() == axis_after(old(filter).value(), raw as int),
        in_output_range(final(filter).value()),
        result == final(filter).value(),
{
    proof {
        lemma_axis_stays_in_range(filter.value(), raw as int);
    }
    signal::process_axis(raw, filter, DEFAULT_DEAD_ZONE)
}

/// The smoothing of both axes.
pub struct JoystickState {
    pub filter_x: EmaFilter,
    pub filter_y: EmaFilter,
}

impl JoystickState {
    /// Both axes are within the output range.
    pub open spec fn wf(self) -> bool {
        in_output_range(self.filter_x.value()) && in_output_range(self.filter_y.value())
    }

    /// Both axes at rest.
    pub fn new() -> (state: Self)
        ensures
            state.wf(),
            state.filter_x.value() == 0,
            state.filter_y.value() == 0,
    {
        JoystickState { filter_x: EmaFilter::new(), filter_y: EmaFilter::new() }
    }

    /// Takes a raw sample of both axes.
    pub fn update(&mut self, raw_x: i16, raw_y: i16) -> (motion: MotionPayload)
        requires
            old(self).wf(),
        ensures
            final(self).wf(),
            final(self).filter_x.value() == axis_after(old(self).filter_x.value(), raw_x as int),
            final(self).filter_y.value() == axis_after(old(self).filter_y.value(), raw_y as int),
            motion.vx == final(self).filter_y.value(),
            motion.vy == final(self).filter_x.value(),
            motion.omega == 0,
    {
        let smoothed_x: i8 = take_sample(&mut self.filter_x, raw_x);
        let smoothed_y: i8 = take_sample(&mut self.filter_y, raw_y);
        MotionPayload { vx: smoothed_y, vy: smoothed_x, omega: 0 }
    }

    /// Forgets the smoothing.
    pub fn reset(&mut self)
        ensures
            final(self).wf(),
            final(self).filter_x.value() == 0,
            final(self).filter_y.value() == 0,
    {
        self.filter_x.reset();
        self.filter_y.reset();
    }
}

/// Stands for "nothing published since the mode was switched". No motion of the
/// joystick equals it.
pub open spec fn sentinel() -> MotionPayload {
    MotionPayload { vx: i8::MIN, vy: i8::MIN, omega: 0 }
}

/// The joystick in the abstract: both axes and what was published last.
pub struct JoystickModel {
    pub x: int,
    pub y: int,
    pub prev: MotionPayload,
}

impl JoystickModel {
    /// The motion that the axes stand for.
    pub open spec fn motion(self) -> MotionPayload {
        MotionPayload { vx: self.y as i8, vy: self.x as i8, omega: 0 }
    }

    /// Both axes are within the output range.
    pub open spec fn wf(self) -> bool {
        in_output_range(self.x) && in_output_range(self.y)
    }

    /// The state after a raw sample. In another mode the smoothing is forgotten,
    /// and so is what was published.
    pub open spec fn after(self, raw_x: int, raw_y: int, mode: InputMode) -> JoystickModel {
        if mode == InputMode::Joystick {
            let x = axis_after(self.x, num::clamp(raw_x, 0, ADC_MAX as int));
            let y = axis_after(self.y, num::clamp(raw_y, 0, ADC_MAX as int));
            JoystickModel { x, y, prev: (JoystickModel { x, y, prev: self.prev }).motion() }
        } else {
            JoystickModel { x: 0, y: 0, prev: sentinel() }
        }
    }

    /// What is published on a raw sample: a motion that differs from the last,
    /// and only while the joystick is active.
    pub open spec fn publishes(self, raw_x: int, raw_y: int, mode: InputMode) -> Option<
        MotionPayload,
    > {
        let next = self.after(raw_x, raw_y, mode);
        if mode == InputMode::Joystick && next.motion() != self.prev {
            Some(next.motion())
        } else {
            None
        }
    }
}

/// The joystick and what was published last.
pub struct Joystick {
    pub state: JoystickState,
    pub prev_motion: MotionPayload,
}

impl View for Joystick {
    type V = JoystickModel;

    open spec fn view(&self) -> JoystickModel {
        JoystickModel {
            x: self.state.filter_x.value(),
            y: self.state.filter_y.value(),
            prev: self.prev_motion,
        }
    }
}

impl Joystick {
    /// At rest, with a stop as the last motion.
    pub fn new() -> (joystick: Self)
        ensures
            joystick.state.wf(),
            joystick@ == (JoystickModel {
                x: 0,
                y: 0,
                prev: MotionPayload { vx: 0, vy: 0, omega: 0 },
            }),
    {
        Joystick { state: JoystickState::new(), prev_motion: MotionPayload::stop() }
    }

    /// Takes a raw sample, Y axis first, and returns the motion if it is to be
    /// published.
    pub fn sample(&mut self, buf: [i16; 2], mode: InputMode) -> (publish: Option<MotionPayload>)
        requires
            old(self).state.wf(),
        ensures
            final(self).state.wf(),
            final(self)@ == old(self)@.after(buf@[1] as int, buf@[0] as int, mode),
            publish == old(self)@.publishes(buf@[1] as int, buf@[0] as int, mode),
    {
        let raw_y: i16 = num::clamp_i16(buf[0], 0, ADC_MAX);
        let raw_x: i16 = num::clamp_i16(buf[1], 0, ADC_MAX);
        let motion = self.state.update(raw_x, raw_y);
        if mode == InputMode::Joystick {
            if motion != self.prev_motion {
                self.prev_motion = motion;
                Some(motion)
            } else {
                None
            }
        } else {
            self.state.reset();
            self.prev_motion = MotionPayload { vx: i8::MIN, vy: i8::MIN, omega: 0 };
            None
        }
    }
}

/// The first sample after the mode came back to the joystick is published,
/// whatever it is.
pub proof fn law_first_sample_after_switch_is_published(
    joystick: JoystickModel,
    away_x: int,
    away_y: int,
    raw_x: int,
    raw_y: int,
)
    ensures
        ({
            let away = joystick.after(away_x, away_y, InputMode::Tilt);
            let back = away.after(raw_x, raw_y, InputMode::Joystick);
            away.publishes(raw_x, raw_y, InputMode::Joystick) == Some(back.motion())
        }),
{
    let away = joystick.after(away_x, away_y, InputMode::Tilt);
    lemma_axis_stays_in_range(away.x, num::clamp(raw_x, 0, ADC_MAX as int));
    lemma_axis_stays_in_range(away.y, num::clamp(raw_y, 0, ADC_MAX as int));
}

/// The joystick after raw samples in order, X axis first, while it is active.
pub open spec fn after_samples(joystick: JoystickModel, samples: Seq<(int, int)>) -> JoystickModel
    decreases samples.len(),
{
    if samples.len() == 0 {
        joystick
    } else {
        after_samples(joystick, samples.drop_last()).after(
            samples.last().0,
            samples.last().1,
            InputMode::Joystick,
        )
    }
}

/// A sample of a stick that nobody touches: both axes within the dead zone.
pub open spec fn is_released(sample: (int, int)) -> bool {
    &&& num::abs(sample.0 - signal::ADC_MID) <= DEFAULT_DEAD_ZONE
    &&& num::abs(sample.1 - signal::ADC_MID) <= DEFAULT_DEAD_ZONE
}

/// A stick that is let go brings the car to a stop: after seven samples within
/// the dead zone, be they equal or not, the last published motion is a stop.
pub proof fn law_released_joystick_stops(joystick: JoystickModel, samples: Seq<(int, int)>)
    requires
        joystick.wf(),
        samples.len() >= 7,
        forall|i: int| 0 <= i < samples.len() ==> is_released(#[trigger] samples[i]),
    ensures
        after_samples(joystick, samples).prev.is_stop(),
{
    lemma_released_is_idle(joystick, samples);
    signal::law_released_stick_stops(joystick.x, samples.len());
    signal::law_released_stick_stops(joystick.y, samples.len());
}

/// Samples within the dead zone are idle samples of both axes.
proof fn lemma_released_is_idle(joystick: JoystickModel, samples: Seq<(int, int)>)
    requires
        forall|i: int| 0 <= i < samples.len() ==> is_released(#[trigger] samples[i]),
    ensures
        after_samples(joystick, samples).x == signal::after_idle(joystick.x, samples.len()),
        after_samples(joystick, samples).y == signal::after_idle(joystick.y, samples.len()),
        samples.len() > 0 ==> after_samples(joystick, samples).prev == after_samples(
            joystick,
            samples,
        ).motion(),
    decreases samples.len(),
{
    if samples.len() > 0 {
        let last = samples.last();
        assert(is_released(samples[samples.len() - 1]));
        lemma_released_is_idle(joystick, samples.drop_last());
        signal::law_deflection(last.0, last.0, DEFAULT_DEAD_ZONE as int);
        signal::law_deflection(last.1, last.1, DEFAULT_DEAD_ZONE as int);
    }
}

/// Pushing the stick moves the car: the Y axis sets `vx` and the X axis sets `vy`,
/// each moved three eighths of the way to the deflection beyond a dead zone of 30,
/// and the stick turns nothing. The motion is published just if it differs from
/// the one published last.
pub proof fn law_stick_sets_the_motion(joystick: JoystickModel, raw_x: int, raw_y: int)
    requires
        joystick.wf(),
    ensures
        ({
            let next = joystick.after(raw_x, raw_y, InputMode::Joystick);
            let publish = joystick.publishes(raw_x, raw_y, InputMode::Joystick);
            &&& next.wf()
            &&& next.y == signal::smoothed(joystick.y, signal::deflection(raw_y, 30), 3, 8)
            &&& next.x == signal::smoothed(joystick.x, signal::deflection(raw_x, 30), 3, 8)
            &&& next.prev.vx == next.y
            &&& next.prev.vy == next.x
            &&& next.prev.omega == 0
            &&& next.prev != joystick.prev ==> publish == Some(next.prev)
            &&& next.prev == joystick.prev ==> publish is None
        }),
{
    lemma_axis_stays_in_range(joystick.x, num::clamp(raw_x, 0, ADC_MAX as int));
    lemma_axis_stays_in_range(joystick.y, num::clamp(raw_y, 0, ADC_MAX as int));
}

/// In tilt mode the joystick publishes nothing and forgets its smoothing.
pub proof fn law_silent_in_tilt_mode(joystick: JoystickModel, raw_x: int, raw_y: int)
    ensures
        joystick.publishes(raw_x, raw_y, InputMode::Tilt) is None,
        joystick.after(raw_x, raw_y, InputMode::Tilt).x == 0,
        joystick.after(raw_x, raw_y, InputMode::Tilt).y == 0,
        !joystick.after(raw_x, raw_y, InputMode::Tilt).prev.in_range(),
{
}

/// One sample moves an axis to the weighted mean of its value and the deflection,
/// rounded towards zero, or drops a residue of five at most when the stick is at
/// rest.
pub proof fn law_axis_follows_the_stick(value: int, raw: int)
    ensures
        ({
            let sample = signal::deflection(raw, 30);
            let mean = 3 * sample + 5 * value;
            let next = axis_after(value, raw);
            if sample == 0 && -5 <= value <= 5 {
                next == 0
            } else if mean >= 0 {
                8 * next <= mean < 8 * next + 8
            } else {
                8 * next - 8 < mean <= 8 * next
            }
        }),
{
    signal::law_average_is_weighted_mean(value, signal::deflection(raw, 30), 3, 8);
}

} // verus!
