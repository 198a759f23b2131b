//! The right stick: from its X axis to a turn rate.
//!
//! Right is a clockwise turn. The stick is live in every input mode. Its Y axis
//! is smoothed along and not used yet.
use crate::controller::joystick;
use crate::controller::joystick::take_sample;
use crate::controller::signal;
use crate::controller::signal::{EmaFilter, ADC_MID, DEFAULT_DEAD_ZONE};
use vstd::prelude::*;

verus! {

/// Sampling interval (ms).
pub const SAMPLE_INTERVAL_MS: u64 = 20;

/// Stand-in for a stick that is not wired: always at rest.
#[derive(Clone, Copy, PartialEq, Eq, Structural, Debug)]
pub struct RightStickSource;

impl RightStickSource {
    /// A stand-in.
    pub fn new() -> (source: Self)
        ensures
            source == RightStickSource,
    {
        RightStickSource
    }

    /// The raw readings of X and Y: both in the middle.
    pub fn sample(&mut self) -> (raw: (i16, i16))
        ensures
            raw == (ADC_MID, ADC_MID),
            *final(self) == *old(self),
    {
        (ADC_MID, ADC_MID)
    }
}

/// The smoothing of both axes.
pub struct RightStickState {
    pub filter_x: EmaFilter,
    pub filter_y: EmaFilter,
}

impl RightStickState {
    /// Both axes are within the output range.
    pub open spec fn wf(self) -> bool {
        &&& joystick::in_output_range(self.filter_x.value())
        &&& joystick::in_output_range(self.filter_y.value())
    }

    /// Both axes at rest.
    pub fn new() -> (state: Self)
        ensures
            state.wf(),
            state.filter_x.value() == 0,
            state.filter_y.value() == 0,
    {
        RightStickState { filter_x: EmaFilter::new(), filter_y: EmaFilter::new() }
    }

    /// Takes a raw sample of both axes and returns the turn rate.
    pub fn update(&mut self, raw_x: i16, raw_y: i16) -> (omega: i8)
        requires
            old(self).wf(),
        ensures
            final(self).wf(),
            final(self).filter_x.value() == joystick::axis_after(
                old(self).filter_x.value(),
                raw_x as int,
            ),
            final(self).filter_y.value() == joystick::axis_after(
                old(self).filter_y.value(),
                raw_y as int,
            ),
            omega == final(self).filter_x.value(),
    {
        let omega: i8 = take_sample(&mut self.filter_x, raw_x);
        let _ = take_sample(&mut self.filter_y, raw_y);
        omega
    }
}

/// The right stick in the abstract: both axes and the turn rate last published.
pub struct RightStickModel {
    pub x: int,
    pub y: int,
    pub last: int,
}

impl RightStickModel {
    /// Both axes are within the output range.
    pub open spec fn wf(self) -> bool {
        joystick::in_output_range(self.x) && joystick::in_output_range(self.y)
    }

    /// The state after a raw sample.
    pub open spec fn after(self, raw_x: int, raw_y: int) -> RightStickModel {
        let x = joystick::axis_after(self.x, raw_x);
        RightStickModel { x, y: joystick::axis_after(self.y, raw_y), last: x }
    }

    /// What is published on a raw sample: a turn rate that differs from the last.
    pub open spec fn publishes(self, raw_x: int, raw_y: int) -> Option<int> {
        if self.after(raw_x, raw_y).last == self.last {
            None
        } else {
            Some(self.after(raw_x, raw_y).last)
        }
    }

    /// The state after raw samples in order, X axis first.
    pub open spec fn after_samples(self, samples: Seq<(int, int)>) -> RightStickModel
        decreases samples.len(),
    {
        if samples.len() == 0 {
            self
        } else {
            self.after_samples(samples.drop_last()).after(samples.last().0, samples.last().1)
        }
    }
}

/// The right stick and the turn rate last published.
pub struct RightStick {
    pub state: RightStickState,
    pub last_sent: i8,
}

impl View for RightStick {
    type V = RightStickModel;

    open spec fn view(&self) -> RightStickModel {
        RightStickModel {
            x: self.state.filter_x.value(),
            y: self.state.filter_y.value(),
            last: self.last_sent as int,
        }
    }
}

impl RightStick {
    /// At rest, with zero published.
    pub fn new() -> (stick: Self)
        ensures
            stick.state.wf(),
            stick.state.filter_x.value() == 0,
            stick.state.filter_y.value() == 0,
            stick.last_sent == 0,
    {
        RightStick { state: RightStickState::new(), last_sent: 0 }
    }

    /// Takes a raw sample and returns the turn rate if it is to be published:
    /// when it changed.
    pub fn sample(&mut self, raw_x: i16, raw_y: i16) -> (publish: Option<i8>)
        requires
            old(self).state.wf(),
        ensures
            final(self).state.wf(),
            final(self).state.filter_x.value() == joystick::axis_after(
                old(self).state.filter_x.value(),
                raw_x as int,
            ),
            final(self).state.filter_y.value() == joystick::axis_after(
                old(self).state.filter_y.value(),
                raw_y as int,
            ),
            final(self).last_sent == final(self).state.filter_x.value(),
            publish == if final(self).last_sent == old(self).last_sent {
                None
            } else {
                Some(final(self).last_sent)
            },
            final(self)@ == old(self)@.after(raw_x as int, raw_y as int),
            old(self)@.publishes(raw_x as int, raw_y as int) == match publish {
                Some(omega) => Some(omega as int),
                None => None,
            },
    {
        let omega: i8 = self.state.update(raw_x, raw_y);
        if omega != self.last_sent {
            self.last_sent = omega;
            Some(omega)
        } else {
            None
        }
    }
}

/// A stick at rest stays at rest, so the stand-in never turns the car.
pub proof fn law_stand_in_never_turns()
    ensures
        joystick::axis_after(0, ADC_MID as int) == 0,
{
    signal::law_deflection(ADC_MID as int, ADC_MID as int, DEFAULT_DEAD_ZONE as int);
}

/// The X axis alone sets the turn, clockwise to the right: each sample moves it three
/// eighths of the way to the deflection beyond a dead zone of 30. The turn is
/// published just if it differs from the one published last.
pub proof fn law_right_stick_turns(stick: RightStickModel, raw_x: int, raw_y: int, other_y: int)
    requires
        stick.wf(),
    ensures
        ({
            let next = stick.after(raw_x, raw_y);
            &&& next.wf()
            &&& next.last == signal::smoothed(stick.x, signal::deflection(raw_x, 30), 3, 8)
            &&& next.x == next.last
            &&& next.y == signal::smoothed(stick.y, signal::deflection(raw_y, 30), 3, 8)
            &&& stick.after(raw_x, other_y).last == next.last
            &&& next.last != stick.last ==> stick.publishes(raw_x, raw_y) == Some(next.last)
            &&& next.last == stick.last ==> stick.publishes(raw_x, raw_y) is None
        }),
{
    joystick::lemma_axis_stays_in_range(stick.x, raw_x);
    joystick::lemma_axis_stays_in_range(stick.y, raw_y);
}

/// A right stick that is let go ends the turn: after seven samples within the dead
/// zone the last turn rate is zero.
pub proof fn law_released_right_stick_stops(stick: RightStickModel, samples: Seq<(int, int)>)
    requires
        stick.wf(),
        samples.len() >= 7,
        forall|i: int| 0 <= i < samples.len() ==> 481 <= (#[trigger] samples[i]).0 <= 541,
    ensures
        stick.after_samples(samples).last == 0,
{
    lemma_released_is_idle(stick, samples);
    signal::law_released_stick_stops(stick.x, samples.len());
}

/// Samples within the dead zone are idle samples of the X axis.
proof fn lemma_released_is_idle(stick: RightStickModel, samples: Seq<(int, int)>)
    requires
        forall|i: int| 0 <= i < samples.len() ==> 481 <= (#[trigger] samples[i]).0 <= 541,
    ensures
        stick.after_samples(samples).x == signal::after_idle(stick.x, samples.len()),
        samples.len() > 0 ==> stick.after_samples(samples).last == stick.after_samples(samples).x,
    decreases samples.len(),
{
    if samples.len() > 0 {
        let last = samples.last();
        assert(481 <= samples[samples.len() - 1].0 <= 541);
        lemma_released_is_idle(stick, samples.drop_last());
        signal::law_deflection(last.0, last.0, DEFAULT_DEAD_ZONE as int);
    }
}

} // verus!
