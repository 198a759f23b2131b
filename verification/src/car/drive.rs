//! The drive loop of the car: follow the controller, and stop when it is gone.
//!
//! Three things can happen: a motion command arrives, the last command expires,
//! or the watchdog ticks. Two layers guard against a lost link. A command
//! expires [`MOTION_EXPIRY_MS`] after it arrived unless a newer one takes its
//! place; ticks in between do not move that deadline. And every
//! [`POLL_TICK_MS`] the watchdog looks for a radio that has been silent for more
//! than [`FAILSAFE_TIMEOUT_MS`]. Either way the motors stop once, and stay
//! stopped until the next command.
//!
//! A controller whose inputs are held perfectly still sends its command again
//! only every [`RESEND_INTERVAL_MS`], which is longer than a command lives. The
//! car then halts when the command expires and moves on with the next one, as
//! `law_held_command_pauses` states. Only commands that follow each other within
//! [`MOTION_EXPIRY_MS`] are driven without a break.
use crate::car::motor;
use crate::car::motor::MotorDriver;
use crate::car::motorbit;
use crate::car::pca9685;
use crate::car::pca9685::ChannelWrite;
use crate::car::rgb::Color;
use crate::clock;
use crate::controller::fusion::RESEND_INTERVAL_MS;
use crate::num;
use crate::protocol::payload::MotionPayload;
use vstd::prelude::*;

verus! {

/// Radio silence after which the watchdog stops the motors (ms).
pub const FAILSAFE_TIMEOUT_MS: u32 = 200;

/// Interval of the watchdog (ms).
pub const POLL_TICK_MS: u64 = 40;

/// Age at which a motion command expires (ms).
pub const MOTION_EXPIRY_MS: u64 = 60;

/// Wait that stands for "no command can expire" (s).
pub const NO_EXPIRY_WAIT_S: u64 = 3600;

/// Components below this magnitude count as idle for the status colour.
pub const DEADZONE: i16 = 10;

/// The status colour of a motion: dim white when idle, magenta for a rotation
/// that outweighs both axes, else the colour of the larger axis, `vx` if they
/// are equal: green ahead, red back, yellow right, blue left.
pub open spec fn status_color(motion: MotionPayload) -> Color {
    let x = num::abs(motion.vx as int);
    let y = num::abs(motion.vy as int);
    let w = num::abs(motion.omega as int);
    if x < DEADZONE && y < DEADZONE && w < DEADZONE {
        Color { r: 16, g: 16, b: 16 }
    } else if w > num::max(x, y) {
        Color { r: 255, g: 0, b: 255 }
    } else if x >= y {
        if motion.vx >= 0 {
            Color { r: 0, g: 255, b: 0 }
        } else {
            Color { r: 255, g: 0, b: 0 }
        }
    } else {
        if motion.vy >= 0 {
            Color { r: 255, g: 255, b: 0 }
        } else {
            Color { r: 0, g: 0, b: 255 }
        }
    }
}

/// Maps a motion to the status colour of the strip.
pub fn motion_to_rgb(motion: &MotionPayload) -> (color: Color)
    ensures
        color == status_color(*motion),
{
    let abs_vx: i16 = num::magnitude(motion.vx);
    let abs_vy: i16 = num::magnitude(motion.vy);
    let abs_omega: i16 = num::magnitude(motion.omega);
    if abs_vx < DEADZONE && abs_vy < DEADZONE && abs_omega < DEADZONE {
        return Color::new(16, 16, 16);
    }
    let max_lin: i16 = if abs_vx >= abs_vy {
        abs_vx
    } else {
        abs_vy
    };
    if abs_omega > max_lin {
        return Color::magenta();
    }
    if abs_vx >= abs_vy {
        if motion.vx >= 0 {
            Color::green()
        } else {
            Color::red()
        }
    } else if motion.vy >= 0 {
        Color::yellow()
    } else {
        Color::blue()
    }
}

/// What can happen to the drive loop.
#[derive(Clone, Copy, PartialEq, Eq, Structural, Debug)]
pub enum DriveEvent {
    /// A command arrived, at `now` ticks.
    Motion { motion: MotionPayload, now: u64 },
    /// The last command expired.
    Expiry,
    /// The watchdog ticked at `now_ms`; the last packet came at `last_rx`, zero
    /// if none ever did.
    Tick { last_rx: u32, now_ms: u64 },
}

/// What the drive loop asks for.
#[derive(Debug)]
pub enum DriveAction {
    /// Nothing to do.
    Nothing,
    /// Show `motion`, switch the status lights, colour the strip, write to the
    /// motors.
    Follow { motion: MotionPayload, lights_on: bool, color: Color, writes: Vec<ChannelWrite> },
    /// Write to the motors, show `motion`, colour the strip. The status lights
    /// stay as they are.
    Halt { writes: Vec<ChannelWrite>, motion: MotionPayload, color: Color },
}

/// The radio has been silent for too long: nothing was ever received, or the
/// last packet is more than [`FAILSAFE_TIMEOUT_MS`] old on a clock that wraps at
/// 32 bits.
pub open spec fn link_lost(last_rx: u32, now_ms: u64) -> bool {
    last_rx == 0 || (now_ms - last_rx) % 0x1_0000_0000 > FAILSAFE_TIMEOUT_MS
}

/// When a command that arrived at `now` expires.
pub open spec fn expiry_of(now: u64) -> u64 {
    num::min(now + clock::ticks_in(MOTION_EXPIRY_MS as int), u64::MAX as int) as u64
}

/// The drive loop in the abstract.
#[verifier::ext_equal]
pub struct DriveModel {
    /// Speeds that the motors were last set to.
    pub speeds: Seq<int>,
    /// The motors were stopped for want of commands.
    pub failsafe_engaged: bool,
    /// When the last command expires, if there was one.
    pub expires_at: Option<u64>,
}

impl DriveModel {
    /// In failsafe every motor is at rest.
    pub open spec fn safe(self) -> bool {
        self.failsafe_engaged ==> self.speeds == motorbit::at_rest()
    }

    /// The event makes the loop stop the motors.
    pub open spec fn halts_on(self, event: DriveEvent) -> bool {
        match event {
            DriveEvent::Motion { .. } => false,
            DriveEvent::Expiry => !self.failsafe_engaged,
            DriveEvent::Tick { last_rx, now_ms } => !self.failsafe_engaged && link_lost(
                last_rx,
                now_ms,
            ),
        }
    }

    /// The state after an event.
    pub open spec fn after(self, event: DriveEvent) -> DriveModel {
        match event {
            DriveEvent::Motion { motion, now } => DriveModel {
                speeds: motor::wheel_speeds(motion),
                failsafe_engaged: false,
                expires_at: Some(expiry_of(now)),
            },
            _ => if self.halts_on(event) {
                DriveModel {
                    speeds: motorbit::at_rest(),
                    failsafe_engaged: true,
                    expires_at: self.expires_at,
                }
            } else {
                self
            },
        }
    }

    /// The state after events in order.
    pub open spec fn after_all(self, events: Seq<DriveEvent>) -> DriveModel
        decreases events.len(),
    {
        if events.len() == 0 {
            self
        } else {
            self.after_all(events.drop_last()).after(events.last())
        }
    }
}

/// The drive loop.
pub struct Drive {
    pub motors: MotorDriver,
    pub failsafe_engaged: bool,
    pub expires_at: Option<u64>,
}

impl View for Drive {
    type V = DriveModel;

    open spec fn view(&self) -> DriveModel {
        DriveModel {
            speeds: self.motors.last_speeds@.map_values(|v: i16| v as int),
            failsafe_engaged: self.failsafe_engaged,
            expires_at: self.expires_at,
        }
    }
}

impl Drive {
    /// The action that an event calls for.
    pub open spec fn answers(self, event: DriveEvent, action: DriveAction) -> bool {
        match event {
            DriveEvent::Motion { motion, .. } => {
                &&& action matches DriveAction::Follow { motion: shown, lights_on, color, writes }
                &&& shown == motion
                &&& lights_on == motion.is_stop()
                &&& color == status_color(motion)
                &&& writes@ == motor::updates(
                    self.motors.last_speeds@,
                    motor::wheel_speeds(motion),
                    4,
                )
            },
            _ => if self@.halts_on(event) {
                &&& action matches DriveAction::Halt { writes, motion: shown, color }
                &&& shown.is_stop()
                &&& color == (Color { r: 32, g: 0, b: 0 })
                &&& writes@ == motor::updates(self.motors.last_speeds@, motorbit::at_rest(), 4)
            } else {
                action is Nothing
            },
        }
    }

    /// A loop that has seen no command yet.
    pub fn new(motors: MotorDriver) -> (drive: Self)
        ensures
            drive.motors == motors,
            drive@.safe(),
            !drive.failsafe_engaged,
            drive.expires_at is None,
    {
        Drive { motors, failsafe_engaged: false, expires_at: None }
    }

    /// When the last command expires, in ticks, if it still can: there was a
    /// command and the motors were not stopped since.
    pub fn expiry_deadline(&self) -> (deadline: Option<u64>)
        ensures
            deadline == if self.failsafe_engaged {
                None
            } else {
                self.expires_at
            },
    {
        if self.failsafe_engaged {
            None
        } else {
            self.expires_at
        }
    }

    /// Takes an event.
    pub fn handle(&mut self, event: DriveEvent) -> (action: DriveAction)
        ensures
            final(self)@ == old(self)@.after(event),
            old(self)@.safe() ==> final(self)@.safe(),
            old(self).answers(event, action),
    {
        match event {
            DriveEvent::Motion { motion, now } => {
                self.failsafe_engaged = false;
                self.expires_at = Some(
                    now.saturating_add(clock::millis_to_ticks(MOTION_EXPIRY_MS)),
                );
                let moving: bool = motion.vx != 0 || motion.vy != 0 || motion.omega != 0;
                let color = motion_to_rgb(&motion);
                let writes = self.motors.apply_motion(&motion);
                DriveAction::Follow { motion, lights_on: !moving, color, writes }
            },
            DriveEvent::Expiry => {
                if self.failsafe_engaged {
                    DriveAction::Nothing
                } else {
                    self.halt()
                }
            },
            DriveEvent::Tick { last_rx, now_ms } => {
                let now: u32 = (now_ms % 0x1_0000_0000) as u32;
                let elapsed: u32 = now.wrapping_sub(last_rx);
                let lost: bool = last_rx == 0 || elapsed > FAILSAFE_TIMEOUT_MS;
                if lost && !self.failsafe_engaged {
                    self.halt()
                } else {
                    DriveAction::Nothing
                }
            },
        }
    }

    /// Stops the motors for want of commands.
    fn halt(&mut self) -> (action: DriveAction)
        ensures
            final(self)@ == (DriveModel {
                speeds: motorbit::at_rest(),
                failsafe_engaged: true,
                expires_at: old(self).expires_at,
            }),
            action matches DriveAction::Halt { writes, motion, color } && motion.is_stop()
                && color == (Color { r: 32, g: 0, b: 0 }) && writes@ == motor::updates(
                old(self).motors.last_speeds@,
                motorbit::at_rest(),
                4,
            ),
    {
        let writes = self.motors.stop_all();
        self.failsafe_engaged = true;
        DriveAction::Halt { writes, motion: MotionPayload::stop(), color: Color::new(32, 0, 0) }
    }

    /// Takes a command that arrives now.
    pub fn on_motion(&mut self, motion: MotionPayload) -> (action: DriveAction)
        ensures
            exists|now: u64|
                final(self)@ == #[trigger] old(self)@.after(DriveEvent::Motion { motion, now }),
            old(self).answers(DriveEvent::Motion { motion, now: 0 }, action),
    {
        let now: u64 = clock::now_ticks();
        self.handle(DriveEvent::Motion { motion, now })
    }

    /// Takes a tick of the watchdog that happens now.
    pub fn on_tick(&mut self, last_rx: u32) -> (action: DriveAction)
        ensures
            exists|now_ms: u64|
                {
                    &&& final(self)@ == #[trigger] old(self)@.after(
                        DriveEvent::Tick { last_rx, now_ms },
                    )
                    &&& old(self).answers(DriveEvent::Tick { last_rx, now_ms }, action)
                },
    {
        let now_ms: u64 = clock::now_millis();
        self.handle(DriveEvent::Tick { last_rx, now_ms })
    }
}

/// Once the link is lost the car stands: after any events among which an expiry
/// or a watchdog tick on a silent radio is not followed by a command, every
/// motor is at rest.
pub proof fn law_lost_link_stops_the_car(
    drive: DriveModel,
    before: Seq<DriveEvent>,
    loss: DriveEvent,
    since: Seq<DriveEvent>,
)
    requires
        drive.safe(),
        loss is Expiry || (loss matches DriveEvent::Tick { last_rx, now_ms } && link_lost(
            last_rx,
            now_ms,
        )),
        forall|i: int| 0 <= i < since.len() ==> !(#[trigger] since[i] is Motion),
    ensures
        drive.after_all(before.push(loss) + since).failsafe_engaged,
        drive.after_all(before.push(loss) + since).speeds == motorbit::at_rest(),
    decreases since.len(),
{
    let all = before.push(loss) + since;
    if since.len() == 0 {
        assert(all == before.push(loss));
        assert(all.drop_last() == before);
        law_failsafe_means_rest(drive, before);
    } else {
        assert(all.drop_last() == before.push(loss) + since.drop_last());
        assert(all.last() == since.last());
        law_lost_link_stops_the_car(drive, before, loss, since.drop_last());
    }
}

/// Whatever happens, in failsafe every motor is at rest.
pub proof fn law_failsafe_means_rest(drive: DriveModel, events: Seq<DriveEvent>)
    requires
        drive.safe(),
    ensures
        drive.after_all(events).safe(),
    decreases events.len(),
{
    if events.len() > 0 {
        law_failsafe_means_rest(drive, events.drop_last());
    }
}

/// Without a command the car never starts to move: the motors stay as they are
/// or come to rest.
pub proof fn law_no_command_no_motion(drive: DriveModel, events: Seq<DriveEvent>)
    requires
        forall|i: int| 0 <= i < events.len() ==> !(#[trigger] events[i] is Motion),
    ensures
        drive.after_all(events).speeds == drive.speeds || drive.after_all(events).speeds
            == motorbit::at_rest(),
    decreases events.len(),
{
    if events.len() > 0 {
        assert(events.last() == events[events.len() - 1]);
        law_no_command_no_motion(drive, events.drop_last());
    }
}

/// The motors are stopped once: in failsafe nothing but a command has any
/// effect, and a command ends it.
pub proof fn law_failsafe_holds_until_motion(drive: DriveModel, event: DriveEvent)
    requires
        drive.failsafe_engaged,
    ensures
        !(event is Motion) ==> drive.after(event) == drive && !drive.halts_on(event),
        event is Motion ==> !drive.after(event).failsafe_engaged,
{
}

/// Only a command sets the deadline: whatever else happens after it, the last
/// command still expires when it was due.
pub proof fn law_deadline_runs_from_last_motion(
    drive: DriveModel,
    motion: MotionPayload,
    now: u64,
    since: Seq<DriveEvent>,
)
    requires
        forall|i: int| 0 <= i < since.len() ==> !(#[trigger] since[i] is Motion),
    ensures
        drive.after_all(seq![DriveEvent::Motion { motion, now }] + since).expires_at == Some(
            expiry_of(now),
        ),
    decreases since.len(),
{
    let all = seq![DriveEvent::Motion { motion, now }] + since;
    if since.len() == 0 {
        assert(all.drop_last() == Seq::<DriveEvent>::empty());
        assert(all.last() == DriveEvent::Motion { motion, now });
    } else {
        assert(all.drop_last() == seq![DriveEvent::Motion { motion, now }] + since.drop_last());
        assert(all.last() == since.last());
        law_deadline_runs_from_last_motion(drive, motion, now, since.drop_last());
    }
}

/// A command that comes again only after the controller's resend interval expires
/// before that: the car halts in between, and takes the motion up again with the
/// repeated command.
pub proof fn law_held_command_pauses(
    drive: DriveModel,
    motion: MotionPayload,
    now: u64,
    again: u64,
)
    requires
        now + clock::ticks_in(RESEND_INTERVAL_MS as int) <= again,
    ensures
        expiry_of(now) < again,
        ({
            let moving = drive.after(DriveEvent::Motion { motion, now });
            let halted = moving.after(DriveEvent::Expiry);
            let resumed = halted.after(DriveEvent::Motion { motion, now: again });
            &&& moving.expires_at == Some(expiry_of(now))
            &&& moving.speeds == motor::wheel_speeds(motion)
            &&& halted.failsafe_engaged
            &&& halted.speeds == motorbit::at_rest()
            &&& !resumed.failsafe_engaged
            &&& resumed.speeds == motor::wheel_speeds(motion)
        }),
{
}

/// A command sets the deadline 1967 ticks, which are 60 ms, after its arrival, so
/// that it lives its whole time and no longer; only at the end of the clock is the
/// deadline held there. A command ends a failsafe and sets the wheels.
pub proof fn law_command_lives_its_time(drive: DriveModel, motion: MotionPayload, now: u64)
    ensures
        ({
            let next = drive.after(DriveEvent::Motion { motion, now });
            &&& now + 1967 <= u64::MAX ==> next.expires_at == Some((now + 1967) as u64)
            &&& now + 1967 > u64::MAX ==> next.expires_at == Some(u64::MAX)
            &&& next.expires_at matches Some(at) && at >= now
            &&& !next.failsafe_engaged
            &&& next.speeds == motor::wheel_speeds(motion)
        }),
{
}

/// A later command has a later deadline, by as much as it came later.
pub proof fn law_deadlines_keep_their_distance(
    drive: DriveModel,
    a: MotionPayload,
    b: MotionPayload,
    now: u64,
    later: u64,
)
    requires
        now <= later,
        later + 1967 <= u64::MAX,
    ensures
        drive.after(DriveEvent::Motion { motion: a, now }).expires_at matches Some(first)
            && drive.after(DriveEvent::Motion { motion: b, now: later }).expires_at matches Some(
            second,
        ) && second - first == later - now,
{
}

/// The radio counts as silent just if nothing was ever received or the last packet
/// is more than 200 ms old, on a clock that wraps at 32 bits: `age` is how old it is.
pub proof fn law_silence(last_rx: u32, now_ms: u64, age: int)
    requires
        0 <= age < 0x1_0000_0000,
        (last_rx + age - now_ms) % 0x1_0000_0000 == 0,
    ensures
        last_rx == 0 ==> link_lost(last_rx, now_ms),
        last_rx != 0 ==> (link_lost(last_rx, now_ms) <==> age > 200),
{
}

/// An expiry, and a tick on a silent radio, stop every motor and engage the failsafe,
/// and leave the deadline; a tick on a live radio changes nothing, and in failsafe
/// neither does.
pub proof fn law_halting(drive: DriveModel, last_rx: u32, now_ms: u64)
    requires
        drive.safe(),
    ensures
        ({
            let expired = drive.after(DriveEvent::Expiry);
            &&& expired.failsafe_engaged
            &&& expired.speeds == seq![0int, 0, 0, 0]
            &&& expired.expires_at == drive.expires_at
        }),
        ({
            let ticked = drive.after(DriveEvent::Tick { last_rx, now_ms });
            &&& link_lost(last_rx, now_ms) ==> ticked.failsafe_engaged && ticked.speeds
                == seq![0int, 0, 0, 0]
            &&& !link_lost(last_rx, now_ms) ==> ticked == drive
            &&& ticked.expires_at == drive.expires_at
        }),
{
}

/// A command is shown as it came, colours the strip, lights the status lights just
/// if it is a stop, and its writes bring a chip that is in step with the driver to
/// the speeds of the motion.
pub proof fn law_command_is_followed(
    drive: Drive,
    motion: MotionPayload,
    now: u64,
    action: DriveAction,
    regs: Map<int, u8>,
)
    requires
        motor::in_step(regs, drive.motors.last_speeds@),
        drive.answers(DriveEvent::Motion { motion, now }, action),
    ensures
        action matches DriveAction::Follow { motion: shown, lights_on, color, writes } && {
            &&& shown == motion
            &&& lights_on <==> motion.vx == 0 && motion.vy == 0 && motion.omega == 0
            &&& color == status_color(motion)
            &&& forall|m: int|
                0 <= m < 4 ==> motor::runs(
                    pca9685::store_all(regs, writes@),
                    m,
                    #[trigger] motor::wheel_speeds(motion)[m],
                )
        },
{
    motor::law_chip_follows(regs, drive.motors.last_speeds@, motion);
}

/// A halt shows a stop and a dim red strip, and its writes put every motor of a chip
/// that is in step with the driver into full off. It comes on an expiry and on a
/// tick on a silent radio, once, and nothing else is asked for then.
pub proof fn law_halt_is_shown(
    drive: Drive,
    event: DriveEvent,
    action: DriveAction,
    regs: Map<int, u8>,
)
    requires
        motor::in_step(regs, drive.motors.last_speeds@),
        !(event is Motion),
        drive.answers(event, action),
    ensures
        !drive.failsafe_engaged && event is Expiry ==> action is Halt,
        event matches DriveEvent::Tick { last_rx, now_ms } ==> (action is Halt
            <==> !drive.failsafe_engaged && link_lost(last_rx, now_ms)),
        drive.failsafe_engaged ==> action is Nothing,
        !(action is Follow),
        action matches DriveAction::Halt { writes, motion, color } ==> {
            &&& motion.vx == 0 && motion.vy == 0 && motion.omega == 0
            &&& color == (Color { r: 32, g: 0, b: 0 })
            &&& forall|m: int|
                0 <= m < 4 ==> #[trigger] motor::runs(
                    pca9685::store_all(regs, writes@),
                    m,
                    0,
                )
        },
{
    motor::law_stop_stops_every_motor(regs, drive.motors.last_speeds@);
}

/// The status colour tells the largest component: dim white if all are below ten,
/// magenta for a turn beyond both axes, green ahead and red back where `vx` is the
/// larger axis or both are equal, yellow right and blue left else.
pub proof fn law_status_colours(motion: MotionPayload)
    ensures
        ({
            let c = status_color(motion);
            let x = num::abs(motion.vx as int);
            let y = num::abs(motion.vy as int);
            let w = num::abs(motion.omega as int);
            let idle = x < 10 && y < 10 && w < 10;
            &&& idle ==> c == (Color { r: 16, g: 16, b: 16 })
            &&& !idle && w > x && w > y ==> c == (Color { r: 255, g: 0, b: 255 })
            &&& !idle && (w <= x || w <= y) && x >= y && motion.vx >= 0 ==> c == (Color {
                r: 0,
                g: 255,
                b: 0,
            })
            &&& !idle && (w <= x || w <= y) && x >= y && motion.vx < 0 ==> c == (Color {
                r: 255,
                g: 0,
                b: 0,
            })
            &&& !idle && (w <= x || w <= y) && x < y && motion.vy >= 0 ==> c == (Color {
                r: 255,
                g: 255,
                b: 0,
            })
            &&& !idle && (w <= x || w <= y) && x < y && motion.vy < 0 ==> c == (Color {
                r: 0,
                g: 0,
                b: 255,
            })
        }),
{
}

} // verus!
