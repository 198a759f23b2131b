//! MotorBit expansion board: four DC motors and eight servos on one PCA9685.
//!
//! A motor takes two channels, one per direction: M1 has channels 0 and 1, M2
//! has 2 and 3, and so on. Servo S1 has channel 8, S2 has 9, up to S8 on 15.
use crate::car::pca9685;
use crate::car::pca9685::{ChannelWrite, Pca9685, PWM_MAX};
use crate::num;
use vstd::prelude::*;

verus! {

/// Motor M1.
pub const M1: u8 = 0;

/// Motor M2.
pub const M2: u8 = 1;

/// Motor M3.
pub const M3: u8 = 2;

/// Motor M4.
pub const M4: u8 = 3;

/// The channel of each motor for positive speeds.
pub const POSITIVE_CHANNELS: [u8; 4] = [pca9685::CH0, pca9685::CH2, pca9685::CH4, pca9685::CH6];

/// The channel of each motor for negative speeds.
pub const NEGATIVE_CHANNELS: [u8; 4] = [pca9685::CH1, pca9685::CH3, pca9685::CH5, pca9685::CH7];

/// Channel of servo S1.
pub const S1: u8 = pca9685::CH8;

/// Channel of servo S2.
pub const S2: u8 = pca9685::CH9;

/// Channel of servo S3.
pub const S3: u8 = pca9685::CH10;

/// Channel of servo S4.
pub const S4: u8 = pca9685::CH11;

/// Channel of servo S5.
pub const S5: u8 = pca9685::CH12;

/// Channel of servo S6.
pub const S6: u8 = pca9685::CH13;

/// Channel of servo S7.
pub const S7: u8 = pca9685::CH14;

/// Channel of servo S8.
pub const S8: u8 = pca9685::CH15;

/// Number of servos.
pub const NUM_SERVOS: usize = 8;

/// The channels of the servos.
pub const SERVO_CHANNELS: [u8; 8] = [S1, S2, S3, S4, S5, S6, S7, S8];

/// Range of one servo.
#[derive(Clone, Copy, PartialEq, Eq, Structural, Debug)]
pub struct ServoConfig {
    /// Largest angle (degrees).
    pub max_rotation_angle: u16,
    /// Pulse width at angle zero (microseconds).
    pub min_pulse_width_us: u16,
    /// Pulse width at the largest angle (microseconds).
    pub max_pulse_width_us: u16,
}

impl ServoConfig {
    /// The pulse width at `angle` (microseconds).
    pub open spec fn pulse_us(self, angle: int) -> int {
        self.min_pulse_width_us + angle * (self.max_pulse_width_us - self.min_pulse_width_us)
            / self.max_rotation_angle as int
    }
}

impl Default for ServoConfig {
    fn default() -> (config: Self)
        ensures
            config == (ServoConfig {
                max_rotation_angle: 180,
                min_pulse_width_us: 500,
                max_pulse_width_us: 2500,
            }),
    {
        ServoConfig { max_rotation_angle: 180, min_pulse_width_us: 500, max_pulse_width_us: 2500 }
    }
}

/// The two writes that set a motor to `speed`: first the channel of its
/// direction to the magnitude, then the other channel to zero.
pub open spec fn motor_writes(motor: int, speed: int) -> Seq<ChannelWrite> {
    if speed >= 0 {
        seq![
            pca9685::channel_write(2 * motor, 0, speed),
            pca9685::channel_write(2 * motor + 1, 0, 0),
        ]
    } else {
        seq![
            pca9685::channel_write(2 * motor + 1, 0, -speed),
            pca9685::channel_write(2 * motor, 0, 0),
        ]
    }
}

/// The two writes that stop a motor: full off on both its channels.
pub open spec fn stop_writes(motor: int) -> Seq<ChannelWrite> {
    seq![pca9685::full_off(2 * motor), pca9685::full_off(2 * motor + 1)]
}

/// The two writes that bring a motor to `speed`, a stop if that is zero.
pub open spec fn target_writes(motor: int, speed: int) -> Seq<ChannelWrite> {
    if speed == 0 {
        stop_writes(motor)
    } else {
        motor_writes(motor, speed)
    }
}

/// The writes that bring the first `n` motors to `speeds`.
pub open spec fn all_writes(speeds: Seq<int>, n: nat) -> Seq<ChannelWrite>
    decreases n,
{
    if n == 0 {
        Seq::empty()
    } else {
        all_writes(speeds, (n - 1) as nat) + target_writes(n - 1, speeds[n - 1])
    }
}

/// Every motor at rest.
pub open spec fn at_rest() -> Seq<int> {
    seq![0, 0, 0, 0]
}

/// The duty that gives a pulse of `pulse_us` at `freq`: the fraction of the
/// period that the pulse takes, in steps of [`PWM_MAX`].
pub open spec fn pulse_duty(pulse_us: int, freq: int) -> int {
    pulse_us * freq * PWM_MAX / 1_000_000
}

/// A board with the ranges of its servos.
#[derive(Clone, Copy)]
pub struct MotorBit {
    pub pca9685: Pca9685,
    pub servo_configs: [ServoConfig; 8],
}

impl MotorBit {
    /// Takes a board into use, every servo at its default range.
    pub fn new(pca9685: Pca9685) -> (board: Self)
        ensures
            board.pca9685 == pca9685,
            forall|i: int|
                0 <= i < NUM_SERVOS ==> #[trigger] board.servo_configs@[i] == (ServoConfig {
                    max_rotation_angle: 180,
                    min_pulse_width_us: 500,
                    max_pulse_width_us: 2500,
                }),
    {
        MotorBit { pca9685, servo_configs: [ServoConfig::default();8] }
    }

    /// The PWM chip of the board.
    pub fn pca9685_mut(&mut self) -> (chip: &mut Pca9685)
        ensures
            *chip == old(self).pca9685,
            *final(self) == (MotorBit {
                pca9685: *final(chip),
                servo_configs: old(self).servo_configs,
            }),
    {
        &mut self.pca9685
    }

    /// Sets a motor to `speed`, a positive speed on its positive channel and a
    /// negative one on its negative channel. Speed zero is zero duty on both; to
    /// stop a motor use [`MotorBit::stop_dc_motor`].
    pub fn set_dc_motor_speed(&self, motor: u8, speed: i16) -> (writes: [ChannelWrite; 2])
        requires
            motor <= M4,
            -4095 <= speed <= 4095,
        ensures
            writes@ == motor_writes(motor as int, speed as int),
    {
        let pos_ch: u8 = POSITIVE_CHANNELS[motor as usize];
        let neg_ch: u8 = NEGATIVE_CHANNELS[motor as usize];
        if speed >= 0 {
            [self.pca9685.duty(pos_ch, speed as u16), self.pca9685.duty(neg_ch, 0)]
        } else {
            [self.pca9685.duty(neg_ch, (-speed) as u16), self.pca9685.duty(pos_ch, 0)]
        }
    }

    /// Stops a motor: full off on both its channels, so that the modulator does
    /// not hum in the coils of a standing motor.
    pub fn stop_dc_motor(&self, motor: u8) -> (writes: [ChannelWrite; 2])
        requires
            motor <= M4,
        ensures
            writes@ == seq![
                pca9685::full_off(2 * motor as int),
                pca9685::full_off(2 * motor + 1),
            ],
            writes@ == stop_writes(motor as int),
    {
        let pos_ch: u8 = POSITIVE_CHANNELS[motor as usize];
        let neg_ch: u8 = NEGATIVE_CHANNELS[motor as usize];
        [self.pca9685.set_full_off(pos_ch), self.pca9685.set_full_off(neg_ch)]
    }

    /// Brings a motor to `speed`; speed zero is a stop.
    pub fn run_dc_motor(&self, motor: u8, speed: i16) -> (writes: [ChannelWrite; 2])
        requires
            motor <= M4,
            -4095 <= speed <= 4095,
        ensures
            writes@ == target_writes(motor as int, speed as int),
    {
        if speed == 0 {
            self.stop_dc_motor(motor)
        } else {
            self.set_dc_motor_speed(motor, speed)
        }
    }

    /// Stops all motors.
    pub fn stop_all_motors(&self) -> (writes: Vec<ChannelWrite>)
        ensures
            writes@ == all_writes(at_rest(), 4),
    {
        let mut writes: Vec<ChannelWrite> = Vec::new();
        for motor in 0..4u8
            invariant
                writes@ == all_writes(at_rest(), motor as nat),
        {
            let pair = self.stop_dc_motor(motor);
            writes.push(pair[0]);
            writes.push(pair[1]);
        }
        writes
    }

    /// Sets the range of a servo.
    pub fn set_servo_config(&mut self, servo_index: u8, config: ServoConfig)
        requires
            servo_index < NUM_SERVOS,
        ensures
            final(self).pca9685 == old(self).pca9685,
            final(self).servo_configs@ == old(self).servo_configs@.update(
                servo_index as int,
                config,
            ),
    {
        self.servo_configs[servo_index as usize] = config;
    }

    /// The range of a servo.
    pub fn servo_config(&self, servo_index: u8) -> (config: &ServoConfig)
        requires
            servo_index < NUM_SERVOS,
        ensures
            *config == self.servo_configs@[servo_index as int],
    {
        &self.servo_configs[servo_index as usize]
    }

    /// Turns a servo to `angle`. A pulse that is longer than the period is held
    /// at [`PWM_MAX`].
    pub fn set_servo_angle(&self, servo_index: u8, angle: u16) -> (write: ChannelWrite)
        requires
            servo_index < NUM_SERVOS,
            self.servo_configs@[servo_index as int].max_rotation_angle > 0,
            angle <= self.servo_configs@[servo_index as int].max_rotation_angle,
            self.servo_configs@[servo_index as int].min_pulse_width_us
                <= self.servo_configs@[servo_index as int].max_pulse_width_us,
        ensures
            write == pca9685::channel_write(
                SERVO_CHANNELS@[servo_index as int] as int,
                0,
                num::min(
                    pulse_duty(
                        self.servo_configs@[servo_index as int].pulse_us(angle as int),
                        self.pca9685.frequency_hz as int,
                    ),
                    PWM_MAX as int,
                ),
            ),
    {
        let config = self.servo_configs[servo_index as usize];
        let channel: u8 = SERVO_CHANNELS[servo_index as usize];
        let freq: u64 = self.pca9685.frequency_hz() as u64;
        let min_us: u64 = config.min_pulse_width_us as u64;
        let max_us: u64 = config.max_pulse_width_us as u64;
        let max_angle: u64 = config.max_rotation_angle as u64;
        proof {
            lemma_servo_arithmetic(
                angle as int,
                max_angle as int,
                min_us as int,
                max_us as int,
                freq as int,
            );
        }
        let pulse_us: u64 = min_us + (angle as u64) * (max_us - min_us) / max_angle;
        let product: u64 = pulse_us * freq;
        let steps: u64 = PWM_MAX as u64;
        assert(product * steps <= 0xFFFF_FFFF * 4095) by (nonlinear_arith)
            requires
                product <= 0xFFFF_FFFF,
                steps == 4095,
        ;
        let duty: u64 = product * steps / 1_000_000;
        let held: u16 = if duty < PWM_MAX as u64 {
            duty as u16
        } else {
            PWM_MAX
        };
        self.pca9685.duty(channel, held)
    }

    /// Sets the raw duty of a servo, at most [`PWM_MAX`].
    pub fn set_servo_duty(&self, servo_index: u8, duty: u16) -> (write: ChannelWrite)
        requires
            servo_index < NUM_SERVOS,
        ensures
            write == pca9685::channel_write(
                SERVO_CHANNELS@[servo_index as int] as int,
                0,
                num::min(duty as int, PWM_MAX as int),
            ),
    {
        let channel: u8 = SERVO_CHANNELS[servo_index as usize];
        self.pca9685.duty(channel, duty)
    }
}

/// The bounds of a servo computation.
proof fn lemma_servo_arithmetic(angle: int, max_angle: int, min_us: int, max_us: int, freq: int)
    by (nonlinear_arith)
    requires
        0 <= angle <= max_angle <= u16::MAX,
        0 < max_angle,
        0 <= min_us <= max_us <= u16::MAX,
        0 <= freq <= u16::MAX,
    ensures
        0 <= angle * (max_us - min_us) <= u32::MAX,
        min_us <= min_us + angle * (max_us - min_us) / max_angle <= max_us,
        0 <= (min_us + angle * (max_us - min_us) / max_angle) * freq <= u32::MAX,
{
}

/// A servo's pulse grows with its angle, from the smallest width at zero to the
/// largest at the largest angle.
pub proof fn law_pulse_spans_the_range(config: ServoConfig, a: int, b: int)
    requires
        0 < config.max_rotation_angle,
        config.min_pulse_width_us <= config.max_pulse_width_us,
        0 <= a <= b <= config.max_rotation_angle,
    ensures
        config.pulse_us(0) == config.min_pulse_width_us,
        config.pulse_us(config.max_rotation_angle as int) == config.max_pulse_width_us,
        config.pulse_us(a) <= config.pulse_us(b),
{
    let span = config.max_pulse_width_us - config.min_pulse_width_us;
    let top = config.max_rotation_angle as int;
    assert(0 * span / top == 0) by (nonlinear_arith)
        requires
            top > 0,
    ;
    assert(top * span / top == span) by (nonlinear_arith)
        requires
            top > 0,
    ;
    assert(a * span / top <= b * span / top) by (nonlinear_arith)
        requires
            top > 0,
            0 <= a <= b,
            0 <= span,
    ;
}

/// A pulse no longer than the period gives a duty within the resolution.
pub proof fn law_pulse_within_period(pulse_us: int, freq: int)
    requires
        0 <= pulse_us,
        0 <= freq,
        pulse_us * freq <= 1_000_000,
    ensures
        0 <= pulse_duty(pulse_us, freq) <= PWM_MAX,
{
    assert(0 <= pulse_us * freq) by (nonlinear_arith)
        requires
            0 <= pulse_us,
            0 <= freq,
    ;
}

/// A speed goes out as two writes: the channel of its direction gets the magnitude
/// as its duty, the other channel none.
pub proof fn law_speed_on_the_bus(motor: int, speed: int)
    requires
        0 <= motor < 4,
        -4095 <= speed <= 4095,
    ensures
        ({
            let writes = motor_writes(motor, speed);
            let driven = writes[0];
            let idle = writes[1];
            &&& writes.len() == 2
            &&& speed >= 0 ==> driven.reg == 6 + 8 * motor && idle.reg == 10 + 8 * motor
            &&& speed < 0 ==> driven.reg == 10 + 8 * motor && idle.reg == 6 + 8 * motor
            &&& driven.on_l == 0 && driven.on_h == 0
            &&& driven.off_l + 256 * driven.off_h == num::abs(speed)
            &&& idle.on_l == 0 && idle.on_h == 0 && idle.off_l == 0 && idle.off_h == 0
        }),
{
}

/// A stop goes out as full off on both channels of the motor, and a target is a stop
/// just if it is zero.
pub proof fn law_stop_on_the_bus(motor: int, speed: int)
    requires
        0 <= motor < 4,
    ensures
        ({
            let writes = stop_writes(motor);
            &&& writes.len() == 2
            &&& writes[0].reg == 6 + 8 * motor
            &&& writes[1].reg == 10 + 8 * motor
            &&& forall|i: int|
                0 <= i < 2 ==> (#[trigger] writes[i]).on_l == 0 && writes[i].on_h == 0
                    && writes[i].off_l == 0 && writes[i].off_h == 0x10
        }),
        speed == 0 ==> target_writes(motor, speed) == stop_writes(motor),
        speed != 0 ==> target_writes(motor, speed) == motor_writes(motor, speed),
{
}

/// All motors are written in the order M1 to M4, two writes each.
pub proof fn law_motors_in_order(speeds: Seq<int>)
    requires
        speeds.len() == 4,
    ensures
        all_writes(speeds, 4).len() == 8,
        forall|m: int|
            0 <= m < 4 ==> all_writes(speeds, 4).subrange(2 * m, 2 * m + 2) == #[trigger]
                target_writes(m, speeds[m]),
        at_rest().len() == 4,
        forall|m: int| 0 <= m < 4 ==> #[trigger] at_rest()[m] == 0,
{
    reveal_with_fuel(all_writes, 5);
    let all = all_writes(speeds, 4);
    assert(all.subrange(0, 2) =~= target_writes(0, speeds[0]));
    assert(all.subrange(2, 4) =~= target_writes(1, speeds[1]));
    assert(all.subrange(4, 6) =~= target_writes(2, speeds[2]));
    assert(all.subrange(6, 8) =~= target_writes(3, speeds[3]));
}

/// The pulse of a servo is proportional to its angle: the width beyond the smallest
/// is the share of the range that the angle has of the largest, rounded down.
pub proof fn law_pulse_is_proportional(config: ServoConfig, angle: int)
    requires
        0 < config.max_rotation_angle,
        config.min_pulse_width_us <= config.max_pulse_width_us,
        0 <= angle,
    ensures
        ({
            let width = config.pulse_us(angle) - config.min_pulse_width_us;
            let range = config.max_pulse_width_us - config.min_pulse_width_us;
            &&& width * config.max_rotation_angle <= angle * range
            &&& angle * range < (width + 1) * config.max_rotation_angle
        }),
{
    let range = config.max_pulse_width_us - config.min_pulse_width_us;
    assert(angle * range >= 0) by (nonlinear_arith)
        requires
            angle >= 0,
            range >= 0,
    ;
    num::law_truncated_quotient(angle * range, config.max_rotation_angle as int);
}

/// A pulse is high for its share of the period, in steps of a 4095th, rounded down:
/// a period lasts `1_000_000 / freq` microseconds.
pub proof fn law_duty_is_share_of_period(pulse_us: int, freq: int)
    requires
        0 <= pulse_us,
        0 <= freq,
    ensures
        pulse_duty(pulse_us, freq) * 1_000_000 <= pulse_us * freq * 4095,
        pulse_us * freq * 4095 < (pulse_duty(pulse_us, freq) + 1) * 1_000_000,
{
}

} // verus!
