//! Mecanum drive: from a motion to the writes that four motors need.
//!
//! `+vx` is forward, `+vy` strafes right and `+omega` turns clockwise seen from
//! above. With M1 front left, M2 front right, M3 rear left and M4 rear right
//! the wheels get
//!
//! ```text
//!   M1 = vx + vy - omega      M2 = vx - vy + omega
//!   M3 = vx - vy - omega      M4 = vx + vy + omega
//! ```
//!
//! A mix that exceeds 100 on some wheel is scaled down as a whole, and a percent
//! is worth [`SPEED_TO_PWM_SCALE`] PWM steps. The driver remembers the last
//! speed of each motor and leaves a motor alone whose speed does not change: the
//! bus stays silent while the same motion is commanded again and again. A motor
//! that is to stand is put into full off, not to zero duty.
use crate::car::motorbit;
use crate::car::motorbit::MotorBit;
use crate::car::pca9685;
use crate::car::pca9685::{BusStep, ChannelWrite, Pca9685};
use crate::num;
use crate::protocol::payload::MotionPayload;
use vstd::prelude::*;

verus! {

/// Weight of the rotation in the mix.
pub const GEOMETRY_FACTOR_K: i32 = 1;

/// PWM steps per percent of speed.
pub const SPEED_TO_PWM_SCALE: i32 = 40;

/// Remembered speed of a motor that was never written. No speed of a motor
/// equals it.
pub const SPEED_CACHE_UNINIT: i16 = i16::MIN;

/// The mix of a motion before scaling, for M1 to M4.
pub open spec fn mix(motion: MotionPayload) -> Seq<int> {
    let turn = GEOMETRY_FACTOR_K * motion.omega;
    seq![
        motion.vx + motion.vy - turn,
        motion.vx - motion.vy + turn,
        motion.vx - motion.vy - turn,
        motion.vx + motion.vy + turn,
    ]
}

/// The largest magnitude in a mix.
pub open spec fn peak(mix: Seq<int>) -> int {
    num::max(
        num::max(num::abs(mix[0]), num::abs(mix[1])),
        num::max(num::abs(mix[2]), num::abs(mix[3])),
    )
}

/// A wheel of a mix in percent: scaled, towards zero, if the peak exceeds 100.
pub open spec fn percent(raw: int, peak: int) -> int {
    if peak > 100 {
        num::trunc_div(raw * 100, peak)
    } else {
        raw
    }
}

/// The speed of a percentage.
pub open spec fn motor_speed(percent: int) -> int {
    num::clamp(percent * SPEED_TO_PWM_SCALE, -4095, 4095)
}

/// The speeds that a motion asks of M1 to M4.
pub open spec fn wheel_speeds(motion: MotionPayload) -> Seq<int> {
    Seq::new(4, |i: int| motor_speed(percent(mix(motion)[i], peak(mix(motion)))))
}

/// The writes that take one motor from `cached` to `target`: none if nothing
/// changes.
pub open spec fn update(motor: int, cached: int, target: int) -> Seq<ChannelWrite> {
    if cached == target {
        Seq::empty()
    } else {
        motorbit::target_writes(motor, target)
    }
}

/// The writes that take the first `n` motors from `cached` to `targets`.
pub open spec fn updates(cached: Seq<i16>, targets: Seq<int>, n: nat) -> Seq<ChannelWrite>
    decreases n,
{
    if n == 0 {
        Seq::empty()
    } else {
        updates(cached, targets, (n - 1) as nat) + update(
            n - 1,
            cached[n - 1] as int,
            targets[n - 1],
        )
    }
}

/// Maps a percentage to a motor speed.
pub fn percent_to_motor_speed(percent: i16) -> (speed: i16)
    ensures
        speed == motor_speed(percent as int),
{
    num::clamp_i32(percent as i32 * SPEED_TO_PWM_SCALE, -4095, 4095) as i16
}

/// The magnitude of a wheel value.
fn magnitude(value: i32) -> (result: i32)
    requires
        value > i32::MIN,
    ensures
        result == num::abs(value as int),
{
    if value < 0 {
        -value
    } else {
        value
    }
}

/// The larger of two values.
fn larger(a: i32, b: i32) -> (result: i32)
    ensures
        result == num::max(a as int, b as int),
{
    if a >= b {
        a
    } else {
        b
    }
}

/// The percentage of one wheel.
fn scale(raw: i32, max_abs: i32) -> (result: i16)
    requires
        num::abs(raw as int) <= max_abs <= 400,
    ensures
        result == percent(raw as int, max_abs as int),
        -100 <= result <= 100,
{
    proof {
        lemma_percent_bounds(raw as int, max_abs as int);
    }
    if max_abs > 100 {
        (raw * 100 / max_abs) as i16
    } else {
        raw as i16
    }
}

/// A percentage stays within 100.
proof fn lemma_percent_bounds(raw: int, max_abs: int)
    requires
        num::abs(raw) <= max_abs,
    ensures
        -100 <= percent(raw, max_abs) <= 100,
{
    if max_abs > 100 {
        assert(num::abs(raw) * 100 / max_abs <= 100) by (nonlinear_arith)
            requires
                0 <= num::abs(raw) <= max_abs,
                max_abs > 100,
        ;
    }
}

/// The percentage of the opposite wheel value is the opposite percentage.
proof fn lemma_percent_is_odd(raw: int, max_abs: int)
    requires
        max_abs >= 0,
    ensures
        percent(-raw, max_abs) == -percent(raw, max_abs),
{
    if max_abs > 100 && raw == 0 {
        assert(0int / max_abs == 0) by (nonlinear_arith)
            requires
                max_abs > 100,
        ;
    }
}

/// The wheel with the largest value runs at its value or at 100.
proof fn lemma_percent_of_peak(raw: int)
    ensures
        percent(raw, num::abs(raw)) == num::clamp(raw, -100, 100),
{
    let x = num::abs(raw);
    if x > 100 {
        assert(x * 100 / x == 100) by (nonlinear_arith)
            requires
                x > 100,
        ;
        assert((-raw) * 100 == -(raw * 100));
    }
}

/// The four motors and the speeds they were last set to.
pub struct MotorDriver {
    pub last_speeds: [i16; 4],
}

impl MotorDriver {
    /// Each motor was never written, or was written a speed it can run at.
    pub open spec fn wf(self) -> bool {
        forall|i: int|
            0 <= i < 4 ==> (#[trigger] self.last_speeds@[i] == SPEED_CACHE_UNINIT || -4095
                <= self.last_speeds@[i] <= 4095)
    }

    /// Takes the motors into use: sets up the PWM chip, which was reset and
    /// whose MODE1 register then read as `mode`, and stops every motor. The
    /// first command after that is written in any case.
    pub fn new(mode: u8) -> (result: (Self, Vec<BusStep>))
        ensures
            result.0.wf(),
            forall|i: int|
                0 <= i < 4 ==> #[trigger] result.0.last_speeds@[i] == SPEED_CACHE_UNINIT,
            result.1@ == pca9685::frequency_steps(pca9685::DEFAULT_PWM_FREQ_HZ as int, mode)
                + pca9685::clear_steps(pca9685::NUM_CHANNELS as nat) + motorbit::all_writes(
                motorbit::at_rest(),
                4,
            ).map_values(|w: ChannelWrite| BusStep::Channel(w)),
    {
        let (chip, mut steps) = Pca9685::new(mode);
        let board = MotorBit::new(chip);
        let stops = board.stop_all_motors();
        let ghost head = steps@;
        for i in 0..stops.len()
            invariant
                stops@ == motorbit::all_writes(motorbit::at_rest(), 4),
                steps@ == head + stops@.take(i as int).map_values(
                    |w: ChannelWrite| BusStep::Channel(w),
                ),
        {
            steps.push(BusStep::Channel(stops[i]));
            assert(stops@.take(i + 1).map_values(|w: ChannelWrite| BusStep::Channel(w))
                == stops@.take(i as int).map_values(|w: ChannelWrite| BusStep::Channel(w)).push(
                BusStep::Channel(stops@[i as int]),
            ));
        }
        assert(stops@.take(stops@.len() as int) == stops@);
        (
            MotorDriver {
                last_speeds: [
                    SPEED_CACHE_UNINIT,
                    SPEED_CACHE_UNINIT,
                    SPEED_CACHE_UNINIT,
                    SPEED_CACHE_UNINIT,
                ],
            },
            steps,
        )
    }

    /// Runs the motors as `motion` asks.
    pub fn apply_motion(&mut self, motion: &MotionPayload) -> (writes: Vec<ChannelWrite>)
        ensures
            final(self).wf(),
            final(self).last_speeds@.map_values(|v: i16| v as int) == wheel_speeds(*motion),
            writes@ == updates(old(self).last_speeds@, wheel_speeds(*motion), 4),
    {
        let vx: i32 = motion.vx as i32;
        let vy: i32 = motion.vy as i32;
        let omega: i32 = motion.omega as i32;
        if vx == 0 && vy == 0 && omega == 0 {
            let writes = self.stop_all();
            assert(wheel_speeds(*motion) == motorbit::at_rest());
            return writes;
        }
        let raw_fl: i32 = vx + vy - GEOMETRY_FACTOR_K * omega;
        let raw_fr: i32 = vx - vy + GEOMETRY_FACTOR_K * omega;
        let raw_rl: i32 = vx - vy - GEOMETRY_FACTOR_K * omega;
        let raw_rr: i32 = vx + vy + GEOMETRY_FACTOR_K * omega;
        let max_abs: i32 = larger(
            larger(magnitude(raw_fl), magnitude(raw_fr)),
            larger(magnitude(raw_rl), magnitude(raw_rr)),
        );
        let targets = [
            percent_to_motor_speed(scale(raw_fl, max_abs)),
            percent_to_motor_speed(scale(raw_fr, max_abs)),
            percent_to_motor_speed(scale(raw_rl, max_abs)),
            percent_to_motor_speed(scale(raw_rr, max_abs)),
        ];
        assert(targets@.map_values(|v: i16| v as int) == wheel_speeds(*motion));
        self.write_motor_speeds(targets)
    }

    /// Stops all motors.
    pub fn stop_all(&mut self) -> (writes: Vec<ChannelWrite>)
        ensures
            final(self).wf(),
            final(self).last_speeds@.map_values(|v: i16| v as int) == motorbit::at_rest(),
            writes@ == updates(old(self).last_speeds@, motorbit::at_rest(), 4),
    {
        let targets: [i16; 4] = [0, 0, 0, 0];
        assert(targets@.map_values(|v: i16| v as int) == motorbit::at_rest());
        self.write_motor_speeds(targets)
    }

    /// Brings the motors to speeds, M1 to M4 in order, and leaves out those that
    /// have them already.
    pub fn write_motor_speeds(&mut self, targets: [i16; 4]) -> (writes: Vec<ChannelWrite>)
        requires
            forall|i: int| 0 <= i < 4 ==> -4095 <= #[trigger] targets@[i] <= 4095,
        ensures
            final(self).wf(),
            final(self).last_speeds@ == targets@,
            writes@ == updates(old(self).last_speeds@, targets@.map_values(|v: i16| v as int), 4),
    {
        let board = MotorBit::new(Pca9685::resume());
        let mut writes: Vec<ChannelWrite> = Vec::new();
        let ghost wanted = targets@.map_values(|v: i16| v as int);
        for motor in 0..4u8
            invariant
                wanted == targets@.map_values(|v: i16| v as int),
                forall|i: int| 0 <= i < 4 ==> -4095 <= #[trigger] targets@[i] <= 4095,
                writes@ == updates(old(self).last_speeds@, wanted, motor as nat),
                forall|i: int| 0 <= i < motor ==> self.last_speeds@[i] == targets@[i],
                forall|i: int|
                    motor <= i < 4 ==> self.last_speeds@[i] == old(self).last_speeds@[i],
        {
            let i: usize = motor as usize;
            if targets[i] != self.last_speeds[i] {
                let pair = board.run_dc_motor(motor, targets[i]);
                writes.push(pair[0]);
                writes.push(pair[1]);
                self.last_speeds[i] = targets[i];
            }
        }
        assert(self.last_speeds@ == targets@);
        writes
    }
}

/// The chip runs a motor at `speed`: the channel of its direction has the
/// magnitude as its duty and the other channel has none. A motor at rest has
/// both channels in full off.
pub open spec fn runs(regs: Map<int, u8>, motor: int, speed: int) -> bool {
    if speed == 0 {
        &&& pca9685::is_full_off(regs, 2 * motor)
        &&& pca9685::is_full_off(regs, 2 * motor + 1)
    } else if speed > 0 {
        &&& pca9685::channel_holds(regs, 2 * motor, 0, speed)
        &&& pca9685::channel_holds(regs, 2 * motor + 1, 0, 0)
    } else {
        &&& pca9685::channel_holds(regs, 2 * motor + 1, 0, -speed)
        &&& pca9685::channel_holds(regs, 2 * motor, 0, 0)
    }
}

/// The writes for one motor bring it to its speed and leave the others alone.
proof fn lemma_target_writes(regs: Map<int, u8>, motor: int, speed: int)
    requires
        0 <= motor < 4,
        -4095 <= speed <= 4095,
    ensures
        runs(pca9685::store_all(regs, motorbit::target_writes(motor, speed)), motor, speed),
        forall|m: int, s: int|
            0 <= m < 4 && m != motor ==> #[trigger] runs(
                pca9685::store_all(regs, motorbit::target_writes(motor, speed)),
                m,
                s,
            ) == runs(regs, m, s),
{
    let writes = motorbit::target_writes(motor, speed);
    let first = writes[0];
    let second = writes[1];
    let (a, b) = if speed >= 0 {
        (2 * motor, 2 * motor + 1)
    } else {
        (2 * motor + 1, 2 * motor)
    };
    let half = pca9685::store(regs, first);
    let after = pca9685::store(half, second);
    assert(writes == seq![first, second]);
    pca9685::lemma_store_pair(regs, first, second);
    pca9685::lemma_store_frame(half, second, b, a);
    if speed == 0 {
        pca9685::lemma_store_full_off(regs, a);
        pca9685::lemma_store_full_off(half, b);
        pca9685::lemma_same_channel(after, half, a, 0, 0);
    } else {
        pca9685::lemma_store_holds(regs, a, 0, num::abs(speed));
        pca9685::lemma_store_holds(half, b, 0, 0);
        pca9685::lemma_same_channel(after, half, a, 0, num::abs(speed));
    }
    assert forall|m: int, s: int| 0 <= m < 4 && m != motor implies #[trigger] runs(after, m, s)
        == runs(regs, m, s) by {
        let (p, q) = if s >= 0 {
            (2 * m, 2 * m + 1)
        } else {
            (2 * m + 1, 2 * m)
        };
        pca9685::lemma_store_frame(regs, first, a, p);
        pca9685::lemma_store_frame(regs, first, a, q);
        pca9685::lemma_store_frame(half, second, b, p);
        pca9685::lemma_store_frame(half, second, b, q);
        pca9685::lemma_same_channel(half, regs, p, 0, num::abs(s));
        pca9685::lemma_same_channel(half, regs, q, 0, 0);
        pca9685::lemma_same_channel(after, half, p, 0, num::abs(s));
        pca9685::lemma_same_channel(after, half, q, 0, 0);
    }
}

/// The chip runs every motor at the speed that is remembered of it.
pub open spec fn in_step(regs: Map<int, u8>, cached: Seq<i16>) -> bool {
    forall|m: int|
        #![trigger cached[m]]
        0 <= m < 4 && cached[m] != SPEED_CACHE_UNINIT ==> runs(regs, m, cached[m] as int)
}

/// The first `n` updates bring the chip to the targets of the first `n` motors
/// and leave the others as they were.
proof fn lemma_updates_reach_targets(
    regs: Map<int, u8>,
    cached: Seq<i16>,
    targets: Seq<int>,
    n: nat,
)
    requires
        cached.len() == 4,
        targets.len() == 4,
        n <= 4,
        in_step(regs, cached),
        forall|m: int| 0 <= m < 4 ==> -4095 <= #[trigger] targets[m] <= 4095,
    ensures
        forall|m: int|
            0 <= m < n ==> runs(
                pca9685::store_all(regs, updates(cached, targets, n)),
                m,
                #[trigger] targets[m],
            ),
        forall|m: int, speed: int|
            n <= m < 4 && runs(regs, m, speed) ==> #[trigger] runs(
                pca9685::store_all(regs, updates(cached, targets, n)),
                m,
                speed,
            ),
    decreases n,
{
    if n > 0 {
        let k = n - 1;
        let before = updates(cached, targets, k as nat);
        let step = update(k, cached[k] as int, targets[k]);
        let mid = pca9685::store_all(regs, before);
        lemma_updates_reach_targets(regs, cached, targets, k as nat);
        pca9685::lemma_store_all_concat(regs, before, step);
        let after = pca9685::store_all(mid, step);
        if cached[k] == targets[k] {
            assert(after == mid);
            assert(runs(regs, k, cached[k] as int));
        } else {
            lemma_target_writes(mid, k, targets[k]);
        }
        assert forall|m: int| 0 <= m < n implies runs(after, m, #[trigger] targets[m]) by {
            if m < k {
                assert(runs(mid, m, targets[m]));
            }
        }
        assert forall|m: int, s: int| n <= m < 4 && runs(regs, m, s) implies runs(
            after,
            m,
            s,
        ) by {
            assert(runs(mid, m, s));
        }
    }
}

/// Writes to all motors bring the chip to their speeds, whatever it did before.
pub proof fn lemma_all_writes_reach_speeds(regs: Map<int, u8>, speeds: Seq<int>)
    requires
        speeds.len() == 4,
        forall|m: int| 0 <= m < 4 ==> -4095 <= #[trigger] speeds[m] <= 4095,
    ensures
        forall|m: int|
            0 <= m < 4 ==> runs(
                pca9685::store_all(regs, motorbit::all_writes(speeds, 4)),
                m,
                #[trigger] speeds[m],
            ),
{
    let unwritten = seq![
        SPEED_CACHE_UNINIT,
        SPEED_CACHE_UNINIT,
        SPEED_CACHE_UNINIT,
        SPEED_CACHE_UNINIT,
    ];
    lemma_unwritten_updates(unwritten, speeds, 4);
    lemma_updates_reach_targets(regs, unwritten, speeds, 4);
}

/// Of motors that were never written every one is updated.
proof fn lemma_unwritten_updates(cached: Seq<i16>, targets: Seq<int>, n: nat)
    requires
        n <= 4,
        forall|m: int| 0 <= m < 4 ==> #[trigger] cached[m] == SPEED_CACHE_UNINIT,
        forall|m: int| 0 <= m < 4 ==> -4095 <= #[trigger] targets[m] <= 4095,
    ensures
        updates(cached, targets, n) == motorbit::all_writes(targets, n),
    decreases n,
{
    if n > 0 {
        lemma_unwritten_updates(cached, targets, (n - 1) as nat);
        assert(cached[n - 1] != targets[n - 1]);
    }
}

/// A chip that is in step with what the driver remembers runs every motor at its
/// target once the writes of an update have reached it, and so it is in step
/// again. A motor that was never written need not be in step.
pub proof fn law_chip_reaches_speeds(regs: Map<int, u8>, cached: Seq<i16>, targets: Seq<int>)
    requires
        cached.len() == 4,
        targets.len() == 4,
        in_step(regs, cached),
        forall|m: int| 0 <= m < 4 ==> -4095 <= #[trigger] targets[m] <= 4095,
    ensures
        forall|m: int|
            0 <= m < 4 ==> runs(
                pca9685::store_all(regs, updates(cached, targets, 4)),
                m,
                #[trigger] targets[m],
            ),
{
    lemma_updates_reach_targets(regs, cached, targets, 4);
}

/// A chip that is in step runs every motor as a motion asks once the writes of
/// the motion have reached it.
pub proof fn law_chip_follows(regs: Map<int, u8>, cached: Seq<i16>, motion: MotionPayload)
    requires
        cached.len() == 4,
        in_step(regs, cached),
    ensures
        forall|m: int|
            0 <= m < 4 ==> runs(
                pca9685::store_all(regs, updates(cached, wheel_speeds(motion), 4)),
                m,
                #[trigger] wheel_speeds(motion)[m],
            ),
{
    law_wheel_speeds_bounded(motion);
    lemma_updates_reach_targets(regs, cached, wheel_speeds(motion), 4);
}

/// A chip that is in step with what the driver remembers has every motor channel
/// in full off once the writes of a stop have reached it.
pub proof fn law_stop_stops_every_motor(regs: Map<int, u8>, cached: Seq<i16>)
    requires
        cached.len() == 4,
        in_step(regs, cached),
    ensures
        forall|m: int|
            0 <= m < 4 ==> #[trigger] runs(
                pca9685::store_all(regs, updates(cached, motorbit::at_rest(), 4)),
                m,
                0,
            ),
{
    let rest = motorbit::at_rest();
    lemma_updates_reach_targets(regs, cached, rest, 4);
    assert forall|m: int| 0 <= m < 4 implies #[trigger] runs(
        pca9685::store_all(regs, updates(cached, rest, 4)),
        m,
        0,
    ) by {
        assert(rest[m] == 0);
    }
}

/// No wheel is asked for more than the PWM chip can give.
pub proof fn law_wheel_speeds_bounded(motion: MotionPayload)
    ensures
        forall|m: int| 0 <= m < 4 ==> -4000 <= #[trigger] wheel_speeds(motion)[m] <= 4000,
{
    let raw = mix(motion);
    assert forall|m: int| 0 <= m < 4 implies -4000 <= #[trigger] wheel_speeds(motion)[m]
        <= 4000 by {
        lemma_percent_bounds(raw[m], peak(raw));
    }
}

/// An update writes the motors whose speed changes, each once and in the order
/// M1 to M4, and no other.
pub proof fn law_only_changed_motors_are_written(cached: Seq<i16>, targets: Seq<int>)
    requires
        cached.len() == 4,
        targets.len() == 4,
    ensures
        updates(cached, targets, 4) == update(0, cached[0] as int, targets[0]) + update(
            1,
            cached[1] as int,
            targets[1],
        ) + update(2, cached[2] as int, targets[2]) + update(3, cached[3] as int, targets[3]),
        forall|m: int|
            0 <= m < 4 ==> #[trigger] update(m, cached[m] as int, targets[m]) == if cached[m]
                == targets[m] {
                Seq::empty()
            } else {
                motorbit::target_writes(m, targets[m])
            },
{
    reveal_with_fuel(updates, 5);
}

/// Setting the same speeds again writes nothing, whatever they are.
pub proof fn law_repeated_speeds_are_silent(cached: Seq<i16>, targets: Seq<int>)
    requires
        cached.len() == 4,
        cached.map_values(|v: i16| v as int) == targets,
    ensures
        updates(cached, targets, 4) == Seq::<ChannelWrite>::empty(),
{
    assert forall|m: int| 0 <= m < 4 implies cached[m] == targets[m] by {
        assert(cached.map_values(|v: i16| v as int)[m] == targets[m]);
    }
    reveal_with_fuel(updates, 5);
}

/// Commanding the same motion again writes nothing.
pub proof fn law_repeated_motion_is_silent(cached: Seq<i16>, motion: MotionPayload)
    requires
        cached.len() == 4,
        cached.map_values(|v: i16| v as int) == wheel_speeds(motion),
    ensures
        updates(cached, wheel_speeds(motion), 4) == Seq::<ChannelWrite>::empty(),
{
    law_repeated_speeds_are_silent(cached, wheel_speeds(motion));
}

/// The first command after power-up writes every motor, whatever it asks for.
pub proof fn law_first_command_is_written(cached: Seq<i16>, motion: MotionPayload)
    requires
        cached.len() == 4,
        forall|m: int| 0 <= m < 4 ==> #[trigger] cached[m] == SPEED_CACHE_UNINIT,
    ensures
        updates(cached, wheel_speeds(motion), 4) == motorbit::all_writes(wheel_speeds(motion), 4),
{
    law_wheel_speeds_bounded(motion);
    lemma_unwritten_updates(cached, wheel_speeds(motion), 4);
}

/// The opposite motion runs every wheel the other way at the same speed.
pub proof fn law_opposite_motion(motion: MotionPayload, opposite: MotionPayload)
    requires
        opposite.vx == -motion.vx,
        opposite.vy == -motion.vy,
        opposite.omega == -motion.omega,
    ensures
        forall|m: int|
            0 <= m < 4 ==> #[trigger] wheel_speeds(opposite)[m] == -wheel_speeds(motion)[m],
{
    assert(peak(mix(opposite)) == peak(mix(motion)));
    assert forall|m: int| 0 <= m < 4 implies #[trigger] wheel_speeds(opposite)[m]
        == -wheel_speeds(motion)[m] by {
        assert(mix(opposite)[m] == -mix(motion)[m]);
        lemma_percent_is_odd(mix(motion)[m], peak(mix(motion)));
    }
}

/// Scaling never turns a wheel around, and the wheel with the largest mix runs
/// at full speed when the mix is scaled.
pub proof fn law_scaling_keeps_direction(motion: MotionPayload, m: int)
    requires
        0 <= m < 4,
    ensures
        mix(motion)[m] >= 0 ==> wheel_speeds(motion)[m] >= 0,
        mix(motion)[m] <= 0 ==> wheel_speeds(motion)[m] <= 0,
        peak(mix(motion)) > 100 && num::abs(mix(motion)[m]) == peak(mix(motion)) ==> num::abs(
            wheel_speeds(motion)[m],
        ) == 4000,
{
    let raw = mix(motion)[m];
    let top = peak(mix(motion));
    lemma_percent_bounds(raw, top);
    if top > 100 {
        assert(num::abs(raw) * 100 / top >= 0) by (nonlinear_arith)
            requires
                0 <= num::abs(raw),
                top > 100,
        ;
        assert(top * 100 / top == 100) by (nonlinear_arith)
            requires
                top > 100,
        ;
    }
}

/// Straight ahead runs all wheels alike; a strafe to the right runs M1 and M4
/// ahead and M2 and M3 back; a clockwise turn runs the right wheels ahead and
/// the left wheels back. Full speed is reached at 100 and not exceeded.
pub proof fn law_basic_motions(v: i8)
    ensures
        ({
            let s = 40 * num::clamp(v as int, -100, 100);
            &&& wheel_speeds(MotionPayload { vx: v, vy: 0, omega: 0 }) == seq![s, s, s, s]
            &&& wheel_speeds(MotionPayload { vx: 0, vy: v, omega: 0 }) == seq![s, -s, -s, s]
            &&& wheel_speeds(MotionPayload { vx: 0, vy: 0, omega: v }) == seq![-s, s, -s, s]
        }),
{
    let full = MotionPayload { vx: v, vy: 0, omega: 0 };
    let strafe = MotionPayload { vx: 0, vy: v, omega: 0 };
    let turn = MotionPayload { vx: 0, vy: 0, omega: v };
    let x = num::abs(v as int);
    lemma_percent_of_peak(v as int);
    lemma_percent_is_odd(v as int, x);
    assert(peak(mix(full)) == x && peak(mix(strafe)) == x && peak(mix(turn)) == x);
    assert(mix(full) == seq![v as int, v as int, v as int, v as int]);
    assert(mix(strafe) == seq![v as int, -v as int, -v as int, v as int]);
    assert(mix(turn) == seq![-v as int, v as int, -v as int, v as int]);
}

/// A motion whose four wheel sums stay within 100 runs every wheel at 40 steps per
/// unit of its sum: forward, strafe and turn add up on each wheel.
pub proof fn law_wheels_add_up(motion: MotionPayload)
    requires
        -100 <= motion.vx + motion.vy - motion.omega <= 100,
        -100 <= motion.vx - motion.vy + motion.omega <= 100,
        -100 <= motion.vx - motion.vy - motion.omega <= 100,
        -100 <= motion.vx + motion.vy + motion.omega <= 100,
    ensures
        wheel_speeds(motion).len() == 4,
        wheel_speeds(motion)[0] == 40 * (motion.vx + motion.vy - motion.omega),
        wheel_speeds(motion)[1] == 40 * (motion.vx - motion.vy + motion.omega),
        wheel_speeds(motion)[2] == 40 * (motion.vx - motion.vy - motion.omega),
        wheel_speeds(motion)[3] == 40 * (motion.vx + motion.vy + motion.omega),
{
}

/// The speed `w` is that of the wheel sum `sum` scaled down so that `top` becomes
/// 100: whole percents, rounded towards zero, at 40 steps each.
pub open spec fn is_scaled(w: int, sum: int, top: int) -> bool {
    &&& w % 40 == 0
    &&& sum >= 0 ==> w >= 0 && w * top <= 4000 * sum < (w + 40) * top
    &&& sum <= 0 ==> w <= 0 && (w - 40) * top < 4000 * sum <= w * top
}

/// A motion with a wheel sum beyond 100 is scaled as a whole: every wheel runs at
/// its share of the largest sum, which runs at full speed. The proportions of the
/// wheels, and so the direction of the car, are kept up to rounding.
pub proof fn law_wheels_scale_together(motion: MotionPayload, top: int)
    requires
        top > 100,
        -top <= motion.vx + motion.vy - motion.omega <= top,
        -top <= motion.vx - motion.vy + motion.omega <= top,
        -top <= motion.vx - motion.vy - motion.omega <= top,
        -top <= motion.vx + motion.vy + motion.omega <= top,
        num::abs(motion.vx + motion.vy - motion.omega) == top || num::abs(
            motion.vx - motion.vy + motion.omega,
        ) == top || num::abs(motion.vx - motion.vy - motion.omega) == top || num::abs(
            motion.vx + motion.vy + motion.omega,
        ) == top,
    ensures
        is_scaled(wheel_speeds(motion)[0], motion.vx + motion.vy - motion.omega, top),
        is_scaled(wheel_speeds(motion)[1], motion.vx - motion.vy + motion.omega, top),
        is_scaled(wheel_speeds(motion)[2], motion.vx - motion.vy - motion.omega, top),
        is_scaled(wheel_speeds(motion)[3], motion.vx + motion.vy + motion.omega, top),
{
    assert(peak(mix(motion)) == top);
    lemma_is_scaled(motion.vx + motion.vy - motion.omega, top);
    lemma_is_scaled(motion.vx - motion.vy + motion.omega, top);
    lemma_is_scaled(motion.vx - motion.vy - motion.omega, top);
    lemma_is_scaled(motion.vx + motion.vy + motion.omega, top);
}

/// The speed of one wheel of a mix that is scaled.
proof fn lemma_is_scaled(sum: int, top: int)
    requires
        top > 100,
        -top <= sum <= top,
    ensures
        is_scaled(motor_speed(percent(sum, top)), sum, top),
{
    let p = percent(sum, top);
    lemma_percent_bounds(sum, top);
    num::law_truncated_quotient(sum * 100, top);
    if sum >= 0 {
        assert(40 * p * top <= 4000 * sum < (40 * p + 40) * top) by (nonlinear_arith)
            requires
                p * top <= sum * 100 < (p + 1) * top,
        ;
    }
    if sum <= 0 {
        assert((40 * p - 40) * top < 4000 * sum <= 40 * p * top) by (nonlinear_arith)
            requires
                (p - 1) * top < sum * 100 <= p * top,
        ;
    }
}

/// Motions add up: as long as nothing is scaled, the wheels of a combined motion run
/// at the sums of the speeds of its parts.
pub proof fn law_superposition(a: MotionPayload, b: MotionPayload, both: MotionPayload, m: int)
    requires
        both.vx == a.vx + b.vx,
        both.vy == a.vy + b.vy,
        both.omega == a.omega + b.omega,
        num::abs(a.vx as int) + num::abs(a.vy as int) + num::abs(a.omega as int) <= 100,
        num::abs(b.vx as int) + num::abs(b.vy as int) + num::abs(b.omega as int) <= 100,
        num::abs(both.vx as int) + num::abs(both.vy as int) + num::abs(both.omega as int) <= 100,
        0 <= m < 4,
    ensures
        wheel_speeds(both)[m] == wheel_speeds(a)[m] + wheel_speeds(b)[m],
{
    law_wheels_add_up(a);
    law_wheels_add_up(b);
    law_wheels_add_up(both);
}

/// A percent is worth 40 steps, up to the largest speed of a motor either way.
pub proof fn law_percent_scale(percent: int)
    ensures
        -102 <= percent <= 102 ==> motor_speed(percent) == 40 * percent,
        percent >= 103 ==> motor_speed(percent) == 4095,
        percent <= -103 ==> motor_speed(percent) == -4095,
{
}

/// The writes of an update of one motor, on the bus: none if the speed stays, else
/// two to its own channels, `2 * motor` for ahead and the next one for back.
pub proof fn law_update_on_the_bus(motor: int, cached: int, target: int)
    requires
        0 <= motor < 4,
        -4095 <= target <= 4095,
    ensures
        cached == target ==> update(motor, cached, target).len() == 0,
        cached != target ==> {
            let writes = update(motor, cached, target);
            let ahead = if target >= 0 {
                writes[0]
            } else {
                writes[1]
            };
            let back = if target >= 0 {
                writes[1]
            } else {
                writes[0]
            };
            &&& writes.len() == 2
            &&& ahead.reg == 6 + 8 * motor
            &&& back.reg == 10 + 8 * motor
            &&& ahead.on_l == 0 && ahead.on_h == 0 && back.on_l == 0 && back.on_h == 0
            &&& target > 0 ==> ahead.off_l + 256 * ahead.off_h == target && back.off_l == 0
                && back.off_h == 0
            &&& target < 0 ==> back.off_l + 256 * back.off_h == -target && ahead.off_l == 0
                && ahead.off_h == 0
            &&& target == 0 ==> ahead.off_l == 0 && ahead.off_h == 0x10 && back.off_l == 0
                && back.off_h == 0x10
        },
{
}

} // verus!
