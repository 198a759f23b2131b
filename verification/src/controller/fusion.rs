//! The fusion loop: one motion out of all inputs.
//!
//! The translation comes from the active source, the turn rate is the sum of the
//! right stick and the buttons. Every event is answered with the motion to send.
//! While no input changes, the motion is sent again every [`RESEND_INTERVAL_MS`].
//! The car keeps a command for a shorter time than that: see
//! [`crate::car::drive`] for what inputs that are held still lead to.
use crate::controller::mode::InputMode;
use crate::num;
use crate::protocol::payload::MotionPayload;
use vstd::prelude::*;

verus! {

/// Interval after which the motion is sent again (ms).
pub const RESEND_INTERVAL_MS: u64 = 200;

/// Pause after each motion (ms).
pub const PACING_MS: u64 = 1;

/// What can happen to the fusion loop.
#[derive(Clone, Copy, PartialEq, Eq, Structural, Debug)]
pub enum FusionEvent {
    /// The joystick or the tilt sensor gave a translation.
    Velocity(MotionPayload),
    /// The buttons gave a turn rate.
    ButtonOmega(i8),
    /// The right stick gave a turn rate.
    StickOmega(i8),
    /// The input mode was switched.
    ModeChanged(InputMode),
    /// It is time to send again.
    Resend,
}

/// Adds the two turn rates, within `-100..=100`.
pub fn merge_omega(stick: i8, button: i8) -> (omega: i8)
    ensures
        omega == num::clamp(stick + button, -100, 100),
{
    num::clamp_i16(stick as i16 + button as i16, -100, 100) as i8
}

/// The latest value of each input.
#[derive(Clone, Copy, PartialEq, Eq, Structural, Debug)]
pub struct Fusion {
    pub last_vx: i8,
    pub last_vy: i8,
    pub last_button_omega: i8,
    pub last_stick_omega: i8,
}

impl Fusion {
    /// The inputs after an event. A switch of the mode drops the translation and
    /// keeps the turn rates.
    pub open spec fn after(self, event: FusionEvent) -> Fusion {
        match event {
            FusionEvent::Velocity(motion) => Fusion {
                last_vx: motion.vx,
                last_vy: motion.vy,
                ..self
            },
            FusionEvent::ButtonOmega(omega) => Fusion { last_button_omega: omega, ..self },
            FusionEvent::StickOmega(omega) => Fusion { last_stick_omega: omega, ..self },
            FusionEvent::ModeChanged(_) => Fusion { last_vx: 0, last_vy: 0, ..self },
            FusionEvent::Resend => self,
        }
    }

    /// The motion that the inputs combine to.
    pub open spec fn combined(self) -> MotionPayload {
        MotionPayload {
            vx: self.last_vx,
            vy: self.last_vy,
            omega: num::clamp(self.last_stick_omega + self.last_button_omega, -100, 100) as i8,
        }
    }

    /// The translation is within the limits of the protocol.
    pub open spec fn in_range(self) -> bool {
        -100 <= self.last_vx <= 100 && -100 <= self.last_vy <= 100
    }

    /// The inputs after events in order.
    pub open spec fn after_all(self, events: Seq<FusionEvent>) -> Fusion
        decreases events.len(),
    {
        if events.len() == 0 {
            self
        } else {
            self.after_all(events.drop_last()).after(events.last())
        }
    }

    /// No input yet.
    pub fn new() -> (fusion: Self)
        ensures
            fusion == (Fusion {
                last_vx: 0,
                last_vy: 0,
                last_button_omega: 0,
                last_stick_omega: 0,
            }),
    {
        Fusion { last_vx: 0, last_vy: 0, last_button_omega: 0, last_stick_omega: 0 }
    }

    /// Takes an event and returns the motion to send and to show.
    pub fn handle(&mut self, event: FusionEvent) -> (motion: MotionPayload)
        ensures
            *final(self) == old(self).after(event),
            motion == old(self).after(event).combined(),
    {
        match event {
            FusionEvent::Velocity(motion) => {
                self.last_vx = motion.vx;
                self.last_vy = motion.vy;
            },
            FusionEvent::ButtonOmega(omega) => {
                self.last_button_omega = omega;
            },
            FusionEvent::StickOmega(omega) => {
                self.last_stick_omega = omega;
            },
            FusionEvent::ModeChanged(_) => {
                self.last_vx = 0;
                self.last_vy = 0;
            },
            FusionEvent::Resend => {},
        }
        MotionPayload {
            vx: self.last_vx,
            vy: self.last_vy,
            omega: merge_omega(self.last_stick_omega, self.last_button_omega),
        }
    }
}

/// A switch of the mode stops the translation at once and leaves the turn as it
/// is.
pub proof fn law_mode_switch_stops_translation(fusion: Fusion, mode: InputMode)
    ensures
        ({
            let motion = fusion.after(FusionEvent::ModeChanged(mode)).combined();
            &&& motion.vx == 0
            &&& motion.vy == 0
            &&& motion.omega == fusion.combined().omega
        }),
{
}

/// Inputs within the limits combine to a motion within the limits, so that the
/// protocol has nothing to clamp.
pub proof fn law_combined_motion_is_in_range(fusion: Fusion, event: FusionEvent)
    requires
        fusion.in_range(),
        event matches FusionEvent::Velocity(motion) ==> motion.in_range(),
    ensures
        fusion.after(event).in_range(),
        fusion.after(event).combined().in_range(),
        fusion.after(event).combined().limited() == fusion.after(event).combined(),
{
}

/// Opposite turn rates cancel, and a source at rest leaves the other alone.
pub proof fn law_turn_rates_add(fusion: Fusion)
    requires
        -100 <= fusion.last_stick_omega <= 100,
        -100 <= fusion.last_button_omega <= 100,
    ensures
        fusion.last_stick_omega == -fusion.last_button_omega ==> fusion.combined().omega == 0,
        fusion.last_button_omega == 0 ==> fusion.combined().omega == fusion.last_stick_omega,
        fusion.last_stick_omega == 0 ==> fusion.combined().omega == fusion.last_button_omega,
{
}

/// A translation is sent as it came, whatever its signs, and stays so over any
/// turn rates and resends until the next translation or switch of the mode. Its
/// own turn rate does not count.
pub proof fn law_translation_is_sent(
    fusion: Fusion,
    motion: MotionPayload,
    since: Seq<FusionEvent>,
)
    requires
        forall|i: int|
            0 <= i < since.len() ==> !(#[trigger] since[i] is Velocity) && !(since[i]
                is ModeChanged),
    ensures
        ({
            let sent = fusion.after(FusionEvent::Velocity(motion)).after_all(since).combined();
            sent.vx == motion.vx && sent.vy == motion.vy
        }),
        fusion.after(FusionEvent::Velocity(motion)).combined().omega == fusion.combined().omega,
    decreases since.len(),
{
    if since.len() > 0 {
        assert(!(since[since.len() - 1] is Velocity));
        law_translation_is_sent(fusion, motion, since.drop_last());
    }
}

/// After a switch of the mode the car is sent no translation, over any turn rates
/// and resends, until the next translation comes.
pub proof fn law_no_translation_after_switch(
    fusion: Fusion,
    mode: InputMode,
    since: Seq<FusionEvent>,
)
    requires
        forall|i: int| 0 <= i < since.len() ==> !(#[trigger] since[i] is Velocity),
    ensures
        ({
            let sent = fusion.after(FusionEvent::ModeChanged(mode)).after_all(since).combined();
            sent.vx == 0 && sent.vy == 0
        }),
    decreases since.len(),
{
    if since.len() > 0 {
        assert(!(since[since.len() - 1] is Velocity));
        law_no_translation_after_switch(fusion, mode, since.drop_last());
    }
}

/// The turn that is sent is the sum of the last turn rate of the buttons and the
/// last one of the right stick, each kept until its source gives the next, and held
/// at 100 either way.
pub proof fn law_turn_is_the_sum(
    fusion: Fusion,
    button: i8,
    between: Seq<FusionEvent>,
    stick: i8,
    since: Seq<FusionEvent>,
)
    requires
        forall|i: int| 0 <= i < between.len() ==> !(#[trigger] between[i] is ButtonOmega),
        forall|i: int|
            0 <= i < since.len() ==> !(#[trigger] since[i] is ButtonOmega) && !(since[i]
                is StickOmega),
    ensures
        ({
            let sent = fusion.after(FusionEvent::ButtonOmega(button)).after_all(between).after(
                FusionEvent::StickOmega(stick),
            ).after_all(since).combined();
            &&& -100 <= button + stick <= 100 ==> sent.omega == button + stick
            &&& button + stick > 100 ==> sent.omega == 100
            &&& button + stick < -100 ==> sent.omega == -100
        }),
{
    let first = fusion.after(FusionEvent::ButtonOmega(button));
    lemma_button_rate_is_kept(first, between);
    let second = first.after_all(between).after(FusionEvent::StickOmega(stick));
    lemma_button_rate_is_kept(second, since);
    lemma_stick_rate_is_kept(second, since);
}

/// The turn rate of the buttons is kept until they give the next.
proof fn lemma_button_rate_is_kept(fusion: Fusion, events: Seq<FusionEvent>)
    requires
        forall|i: int| 0 <= i < events.len() ==> !(#[trigger] events[i] is ButtonOmega),
    ensures
        fusion.after_all(events).last_button_omega == fusion.last_button_omega,
    decreases events.len(),
{
    if events.len() > 0 {
        assert(!(events[events.len() - 1] is ButtonOmega));
        lemma_button_rate_is_kept(fusion, events.drop_last());
    }
}

/// The turn rate of the right stick is kept until it gives the next.
proof fn lemma_stick_rate_is_kept(fusion: Fusion, events: Seq<FusionEvent>)
    requires
        forall|i: int| 0 <= i < events.len() ==> !(#[trigger] events[i] is StickOmega),
    ensures
        fusion.after_all(events).last_stick_omega == fusion.last_stick_omega,
    decreases events.len(),
{
    if events.len() > 0 {
        assert(!(events[events.len() - 1] is StickOmega));
        lemma_stick_rate_is_kept(fusion, events.drop_last());
    }
}

/// The order in which the two turn rates come does not matter.
pub proof fn law_turn_rates_commute(fusion: Fusion, button: i8, stick: i8)
    ensures
        fusion.after(FusionEvent::ButtonOmega(button)).after(FusionEvent::StickOmega(stick))
            == fusion.after(FusionEvent::StickOmega(stick)).after(
            FusionEvent::ButtonOmega(button),
        ),
{
}

} // verus!
