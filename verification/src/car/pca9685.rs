//! PCA9685 16-channel 12-bit PWM controller on the I2C bus.
//!
//! The functions here compute what goes over the bus: register writes, channel
//! writes and the pauses between them. One frequency is shared by all channels;
//! the default of [`DEFAULT_PWM_FREQ_HZ`] suits DC motors, hobby servos need
//! 50 Hz.
//!
//! Each channel owns four registers from `4 * channel + LED0_ON_L` on, in the
//! order ON low, ON high, OFF low, OFF high.
use crate::num;
use vstd::prelude::*;

verus! {

/// MODE1 register.
pub const REG_MODE1: u8 = 0x00;

/// MODE2 register.
pub const REG_MODE2: u8 = 0x01;

/// Sub-address 1.
pub const REG_SUBADR1: u8 = 0x02;

/// Sub-address 2.
pub const REG_SUBADR2: u8 = 0x03;

/// Sub-address 3.
pub const REG_SUBADR3: u8 = 0x04;

/// Prescaler register, writable only in sleep mode.
pub const REG_PRESCALE: u8 = 0xFE;

/// Channel 0 ON low byte.
pub const REG_LED0_ON_L: u8 = 0x06;

/// Channel 0 ON high byte.
pub const REG_LED0_ON_H: u8 = 0x07;

/// Channel 0 OFF low byte.
pub const REG_LED0_OFF_L: u8 = 0x08;

/// Channel 0 OFF high byte.
pub const REG_LED0_OFF_H: u8 = 0x09;

/// All channels ON low byte.
pub const REG_ALL_LED_ON_L: u8 = 0xFA;

/// All channels ON high byte.
pub const REG_ALL_LED_ON_H: u8 = 0xFB;

/// All channels OFF low byte.
pub const REG_ALL_LED_OFF_L: u8 = 0xFC;

/// All channels OFF high byte.
pub const REG_ALL_LED_OFF_H: u8 = 0xFD;

/// MODE1: answer the all-call address.
pub const MODE1_ALLCALL: u8 = 0x01;

/// MODE1: sleep.
pub const MODE1_SLEEP: u8 = 0x10;

/// MODE1: auto-increment of the register pointer.
pub const MODE1_AI: u8 = 0x20;

/// MODE1: restart.
pub const MODE1_RESTART: u8 = 0x80;

/// OFF high byte: the channel is always low.
pub const FULL_OFF: u8 = 0x10;

/// PWM channel 0.
pub const CH0: u8 = 0;

/// PWM channel 1.
pub const CH1: u8 = 1;

/// PWM channel 2.
pub const CH2: u8 = 2;

/// PWM channel 3.
pub const CH3: u8 = 3;

/// PWM channel 4.
pub const CH4: u8 = 4;

/// PWM channel 5.
pub const CH5: u8 = 5;

/// PWM channel 6.
pub const CH6: u8 = 6;

/// PWM channel 7.
pub const CH7: u8 = 7;

/// PWM channel 8.
pub const CH8: u8 = 8;

/// PWM channel 9.
pub const CH9: u8 = 9;

/// PWM channel 10.
pub const CH10: u8 = 10;

/// PWM channel 11.
pub const CH11: u8 = 11;

/// PWM channel 12.
pub const CH12: u8 = 12;

/// PWM channel 13.
pub const CH13: u8 = 13;

/// PWM channel 14.
pub const CH14: u8 = 14;

/// PWM channel 15.
pub const CH15: u8 = 15;

/// Number of channels.
pub const NUM_CHANNELS: u8 = 16;

/// Largest PWM value (12-bit resolution).
pub const PWM_MAX: u16 = 4095;

/// I2C address with all address pins low.
pub const DEFAULT_ADDR: u8 = 0x40;

/// Internal oscillator frequency (Hz).
pub const OSCILLATOR_FREQ: u32 = 25_000_000;

/// Default carrier frequency for DC motors (Hz).
pub const DEFAULT_PWM_FREQ_HZ: u16 = 1500;

/// Pause after a reset and after waking up (ms).
pub const SETTLE_MS: u64 = 5;

/// Largest frequency for which a prescaler exists (Hz).
pub const MAX_FREQ_HZ: u16 = 12207;

/// A write to one register.
#[derive(Clone, Copy, PartialEq, Eq, Structural, Debug)]
pub struct RegWrite {
    pub reg: u8,
    pub value: u8,
}

impl RegWrite {
    /// The bytes on the bus.
    pub fn to_bytes(&self) -> (bytes: [u8; 2])
        ensures
            bytes@ == seq![self.reg, self.value],
    {
        [self.reg, self.value]
    }
}

/// A write to the four registers of a channel, from `reg` on.
#[derive(Clone, Copy, PartialEq, Eq, Structural, Debug)]
pub struct ChannelWrite {
    pub reg: u8,
    pub on_l: u8,
    pub on_h: u8,
    pub off_l: u8,
    pub off_h: u8,
}

impl ChannelWrite {
    /// The bytes on the bus.
    pub fn to_bytes(&self) -> (bytes: [u8; 5])
        ensures
            bytes@ == seq![self.reg, self.on_l, self.on_h, self.off_l, self.off_h],
    {
        [self.reg, self.on_l, self.on_h, self.off_l, self.off_h]
    }
}

/// One step of a set-up sequence.
#[derive(Clone, Copy, PartialEq, Eq, Structural, Debug)]
pub enum BusStep {
    Register(RegWrite),
    Channel(ChannelWrite),
    WaitMs(u64),
}

/// The first register of a channel.
pub open spec fn reg_base(channel: int) -> int {
    4 * channel + REG_LED0_ON_L
}

/// The write that makes `channel` go high at `on` and low at `off` in each
/// cycle of 4096 ticks.
pub open spec fn channel_write(channel: int, on: int, off: int) -> ChannelWrite {
    ChannelWrite {
        reg: reg_base(channel) as u8,
        on_l: (on % 256) as u8,
        on_h: (on / 256) as u8,
        off_l: (off % 256) as u8,
        off_h: (off / 256) as u8,
    }
}

/// The write that forces `channel` low, past the modulator: bit 4 of its OFF
/// high byte.
pub open spec fn full_off(channel: int) -> ChannelWrite {
    ChannelWrite { reg: reg_base(channel) as u8, on_l: 0, on_h: 0, off_l: 0, off_h: FULL_OFF }
}

/// The divider that brings the oscillator closest to 4096 ticks per cycle at
/// `freq`.
pub open spec fn divider(freq: int) -> int {
    (OSCILLATOR_FREQ + 4096 * freq / 2) / (4096 * freq)
}

/// The prescaler of `freq`: the divider less one, of which the register keeps
/// the low eight bits.
pub open spec fn prescaler(freq: int) -> u8 {
    ((divider(freq) - 1) % 256) as u8
}

/// The steps that change the frequency of a chip whose MODE1 register held
/// `mode`: sleep with the restart bit clear, set the prescaler, wake up, pause,
/// restart with auto-increment.
pub open spec fn frequency_steps(freq: int, mode: u8) -> Seq<BusStep> {
    seq![
        BusStep::Register(RegWrite { reg: REG_MODE1, value: (mode & 0x7F) | MODE1_SLEEP }),
        BusStep::Register(RegWrite { reg: REG_PRESCALE, value: prescaler(freq) }),
        BusStep::Register(RegWrite { reg: REG_MODE1, value: mode }),
        BusStep::WaitMs(SETTLE_MS),
        BusStep::Register(
            RegWrite { reg: REG_MODE1, value: mode | MODE1_RESTART | MODE1_AI | MODE1_ALLCALL },
        ),
    ]
}

/// The steps that set the duty of the first `n` channels to zero.
pub open spec fn clear_steps(n: nat) -> Seq<BusStep> {
    Seq::new(n, |i: int| BusStep::Channel(channel_write(i, 0, 0)))
}

/// The registers of a chip after one channel write: with auto-increment the
/// four bytes go to four registers in a row.
pub open spec fn store(regs: Map<int, u8>, w: ChannelWrite) -> Map<int, u8> {
    regs.insert(w.reg as int, w.on_l).insert(w.reg + 1, w.on_h).insert(w.reg + 2, w.off_l).insert(
        w.reg + 3,
        w.off_h,
    )
}

/// The registers of a chip after channel writes in order.
pub open spec fn store_all(regs: Map<int, u8>, writes: Seq<ChannelWrite>) -> Map<int, u8>
    decreases writes.len(),
{
    if writes.len() == 0 {
        regs
    } else {
        store(store_all(regs, writes.drop_last()), writes.last())
    }
}

/// The registers of a channel hold the timing points `on` and `off`.
pub open spec fn channel_holds(regs: Map<int, u8>, channel: int, on: int, off: int) -> bool {
    &&& regs[reg_base(channel)] == on % 256
    &&& regs[reg_base(channel) + 1] == on / 256
    &&& regs[reg_base(channel) + 2] == off % 256
    &&& regs[reg_base(channel) + 3] == off / 256
}

/// A channel is forced low: bit 4 of its OFF high byte is set.
pub open spec fn is_full_off(regs: Map<int, u8>, channel: int) -> bool {
    regs[reg_base(channel) + 3] & FULL_OFF == FULL_OFF
}

/// A channel has the same registers in `a` and `b`.
pub open spec fn same_channel(a: Map<int, u8>, b: Map<int, u8>, channel: int) -> bool {
    forall|i: int| #![trigger a[i]] reg_base(channel) <= i < reg_base(channel) + 4 ==> a[i] == b[i]
}

/// Writes in two batches have the effect of all of them in order.
pub proof fn lemma_store_all_concat(
    regs: Map<int, u8>,
    a: Seq<ChannelWrite>,
    b: Seq<ChannelWrite>,
)
    ensures
        store_all(regs, a + b) == store_all(store_all(regs, a), b),
    decreases b.len(),
{
    if b.len() == 0 {
        assert(a + b == a);
    } else {
        assert((a + b).drop_last() == a + b.drop_last());
        lemma_store_all_concat(regs, a, b.drop_last());
    }
}

/// Two writes have the effect of the first and then the second.
pub proof fn lemma_store_pair(regs: Map<int, u8>, first: ChannelWrite, second: ChannelWrite)
    ensures
        store_all(regs, seq![first, second]) == store(store(regs, first), second),
{
    assert(seq![first, second].drop_last() == seq![first]);
    assert(seq![first].drop_last() == Seq::<ChannelWrite>::empty());
    reveal_with_fuel(store_all, 3);
}

/// A channel holds what was written to it.
pub proof fn lemma_store_holds(regs: Map<int, u8>, channel: int, on: int, off: int)
    requires
        0 <= channel < NUM_CHANNELS,
        0 <= on <= PWM_MAX,
        0 <= off <= PWM_MAX,
    ensures
        channel_holds(store(regs, channel_write(channel, on, off)), channel, on, off),
{
}

/// A channel that full off was written to is forced low.
pub proof fn lemma_store_full_off(regs: Map<int, u8>, channel: int)
    requires
        0 <= channel < NUM_CHANNELS,
    ensures
        is_full_off(store(regs, full_off(channel)), channel),
{
    assert(0x10u8 & 0x10u8 == 0x10u8) by (bit_vector);
}

/// A write to one channel leaves the others alone.
pub proof fn lemma_store_frame(regs: Map<int, u8>, w: ChannelWrite, channel: int, other: int)
    requires
        w.reg == reg_base(channel),
        channel != other,
    ensures
        same_channel(store(regs, w), regs, other),
{
}

/// A channel with the same registers holds the same and is forced low alike.
pub proof fn lemma_same_channel(
    a: Map<int, u8>,
    b: Map<int, u8>,
    channel: int,
    on: int,
    off: int,
)
    requires
        same_channel(a, b, channel),
    ensures
        channel_holds(a, channel, on, off) == channel_holds(b, channel, on, off),
        is_full_off(a, channel) == is_full_off(b, channel),
{
    let base = reg_base(channel);
    assert(a[base] == b[base] && a[base + 1] == b[base + 1] && a[base + 2] == b[base + 2] && a[base
        + 3] == b[base + 3]);
}

/// A channel with a duty is not forced low.
pub proof fn law_duty_ends_full_off(regs: Map<int, u8>, channel: int, on: int, off: int)
    requires
        0 <= on <= PWM_MAX,
        0 <= off <= PWM_MAX,
        channel_holds(regs, channel, on, off),
    ensures
        !is_full_off(regs, channel),
{
    let high = regs[reg_base(channel) + 3];
    assert(high & 0x10u8 != 0x10u8) by (bit_vector)
        requires
            high < 16,
    ;
}

/// The bounds of a prescaler computation.
proof fn lemma_divider_bounds(freq: int)
    requires
        1 <= freq <= MAX_FREQ_HZ,
    ensures
        1 <= divider(freq) <= 6104,
{
    assert(4096 * freq / 2 == 2048 * freq);
    assert(1 <= (25_000_000 + 2048 * freq) / (4096 * freq) <= 6104) by (nonlinear_arith)
        requires
            1 <= freq <= 12207,
    ;
}

/// A driver for one chip.
#[derive(Clone, Copy, PartialEq, Eq, Structural, Debug)]
pub struct Pca9685 {
    /// I2C address.
    pub addr: u8,
    /// Frequency that the chip was set to (Hz).
    pub frequency_hz: u16,
}

impl Pca9685 {
    /// The steps that reset a chip, before its MODE1 register is read.
    pub fn reset_steps() -> (steps: Vec<BusStep>)
        ensures
            steps@ == seq![
                BusStep::Register(RegWrite { reg: REG_MODE1, value: 0 }),
                BusStep::WaitMs(SETTLE_MS),
            ],
    {
        let mut steps: Vec<BusStep> = Vec::new();
        steps.push(BusStep::Register(RegWrite { reg: REG_MODE1, value: 0x00 }));
        steps.push(BusStep::WaitMs(SETTLE_MS));
        steps
    }

    /// Sets up the chip at the default address.
    pub fn new(mode: u8) -> (result: (Self, Vec<BusStep>))
        ensures
            result.0 == (Pca9685 { addr: DEFAULT_ADDR, frequency_hz: DEFAULT_PWM_FREQ_HZ }),
            result.1@ == frequency_steps(DEFAULT_PWM_FREQ_HZ as int, mode) + clear_steps(
                NUM_CHANNELS as nat,
            ),
    {
        Self::with_address(DEFAULT_ADDR, mode)
    }

    /// Sets up a chip that was reset and whose MODE1 register then read as
    /// `mode`: default frequency, all channels at zero duty.
    pub fn with_address(addr: u8, mode: u8) -> (result: (Self, Vec<BusStep>))
        ensures
            result.0 == (Pca9685 { addr, frequency_hz: DEFAULT_PWM_FREQ_HZ }),
            result.1@ == frequency_steps(DEFAULT_PWM_FREQ_HZ as int, mode) + clear_steps(
                NUM_CHANNELS as nat,
            ),
    {
        let mut driver = Pca9685 { addr, frequency_hz: 0 };
        let mut steps = driver.set_frequency_hz(DEFAULT_PWM_FREQ_HZ, mode);
        let ghost head = steps@;
        for ch in 0..NUM_CHANNELS
            invariant
                steps@ == head + clear_steps(ch as nat),
        {
            steps.push(BusStep::Channel(driver.duty(ch, 0)));
            assert(clear_steps((ch + 1) as nat) == clear_steps(ch as nat).push(
                BusStep::Channel(channel_write(ch as int, 0, 0)),
            ));
        }
        (driver, steps)
    }

    /// Picks up a chip at the default address that was set up before.
    pub fn resume() -> (driver: Self)
        ensures
            driver == (Pca9685 { addr: DEFAULT_ADDR, frequency_hz: DEFAULT_PWM_FREQ_HZ }),
    {
        Self::resume_with_address(DEFAULT_ADDR)
    }

    /// Picks up a chip that was set up before.
    pub fn resume_with_address(addr: u8) -> (driver: Self)
        ensures
            driver == (Pca9685 { addr, frequency_hz: DEFAULT_PWM_FREQ_HZ }),
    {
        Pca9685 { addr, frequency_hz: DEFAULT_PWM_FREQ_HZ }
    }

    /// The frequency that the chip was set to.
    pub fn frequency_hz(&self) -> (freq: u16)
        ensures
            freq == self.frequency_hz,
    {
        self.frequency_hz
    }

    /// Changes the frequency of a chip whose MODE1 register read as `mode`.
    pub fn set_frequency_hz(&mut self, freq: u16, mode: u8) -> (steps: Vec<BusStep>)
        requires
            1 <= freq <= MAX_FREQ_HZ,
        ensures
            *final(self) == (Pca9685 { addr: old(self).addr, frequency_hz: freq }),
            steps@ == frequency_steps(freq as int, mode),
    {
        proof {
            lemma_divider_bounds(freq as int);
        }
        let ticks: u32 = 4096 * freq as u32;
        let quotient: u32 = (OSCILLATOR_FREQ + ticks / 2) / ticks - 1;
        let value: u8 = (quotient % 256) as u8;
        let mut steps: Vec<BusStep> = Vec::new();
        steps.push(
            BusStep::Register(RegWrite { reg: REG_MODE1, value: (mode & 0x7F) | MODE1_SLEEP }),
        );
        steps.push(BusStep::Register(RegWrite { reg: REG_PRESCALE, value }));
        steps.push(BusStep::Register(RegWrite { reg: REG_MODE1, value: mode }));
        steps.push(BusStep::WaitMs(SETTLE_MS));
        steps.push(
            BusStep::Register(
                RegWrite { reg: REG_MODE1, value: mode | MODE1_RESTART | MODE1_AI | MODE1_ALLCALL },
            ),
        );
        self.frequency_hz = freq;
        steps
    }

    /// Makes a channel go high at `on` and low at `off` in each cycle.
    pub fn pwm(&self, channel: u8, on: u16, off: u16) -> (write: ChannelWrite)
        requires
            channel < NUM_CHANNELS,
            on <= PWM_MAX,
            off <= PWM_MAX,
        ensures
            write == channel_write(channel as int, on as int, off as int),
    {
        assert(channel << 2u8 == 4 * channel) by (bit_vector)
            requires
                channel < 16,
        ;
        assert((on & 0xFF) == on % 256 && ((on >> 8u16) & 0x0F) == on / 256) by (bit_vector)
            requires
                on <= 4095,
        ;
        assert((off & 0xFF) == off % 256 && ((off >> 8u16) & 0x0F) == off / 256) by (bit_vector)
            requires
                off <= 4095,
        ;
        ChannelWrite {
            reg: (channel << 2u8) + REG_LED0_ON_L,
            on_l: (on & 0xFF) as u8,
            on_h: ((on >> 8u16) & 0x0F) as u8,
            off_l: (off & 0xFF) as u8,
            off_h: ((off >> 8u16) & 0x0F) as u8,
        }
    }

    /// Sets the duty of a channel: high from the start of the cycle for `value`
    /// ticks, at most [`PWM_MAX`].
    pub fn duty(&self, channel: u8, value: u16) -> (write: ChannelWrite)
        requires
            channel < NUM_CHANNELS,
        ensures
            write == channel_write(channel as int, 0, num::min(value as int, PWM_MAX as int)),
    {
        let off: u16 = if value <= PWM_MAX {
            value
        } else {
            PWM_MAX
        };
        self.pwm(channel, 0, off)
    }

    /// Forces a channel low, past the modulator: bit 4 of its OFF high byte.
    pub fn set_full_off(&self, channel: u8) -> (write: ChannelWrite)
        requires
            channel < NUM_CHANNELS,
        ensures
            write == full_off(channel as int),
    {
        assert(channel << 2u8 == 4 * channel) by (bit_vector)
            requires
                channel < 16,
        ;
        ChannelWrite {
            reg: (channel << 2u8) + REG_LED0_ON_L,
            on_l: 0x00,
            on_h: 0x00,
            off_l: 0x00,
            off_h: FULL_OFF,
        }
    }

    /// The value of a register after a read that may have failed: zero then.
    pub fn read_reg(reply: Option<u8>) -> (value: u8)
        ensures
            value == (match reply {
                Some(byte) => byte,
                None => 0,
            }),
    {
        match reply {
            Some(byte) => byte,
            None => 0,
        }
    }

    /// The write that puts `value` into a register.
    pub fn write_reg(reg: u8, value: u8) -> (write: RegWrite)
        ensures
            write == (RegWrite { reg, value }),
    {
        RegWrite { reg, value }
    }
}

/// From 24 Hz on the prescaler fits its register, and it is the one whose
/// frequency is nearest: the divider it stands for is off by half a step at
/// most.
pub proof fn law_prescaler_is_nearest(freq: int)
    requires
        24 <= freq <= MAX_FREQ_HZ,
    ensures
        prescaler(freq) == divider(freq) - 1,
        -2048 * freq <= 4096 * freq * (prescaler(freq) + 1) - OSCILLATOR_FREQ <= 2048 * freq,
{
    let d = 4096 * freq;
    let n = OSCILLATOR_FREQ + 2048 * freq;
    assert(4096 * freq / 2 == 2048 * freq);
    lemma_divider_bounds(freq);
    vstd::arithmetic::div_mod::lemma_fundamental_div_mod(n, d);
    assert(n / d <= 255) by (nonlinear_arith)
        requires
            24 <= freq,
            d == 4096 * freq,
            n == 25_000_000 + 2048 * freq,
    ;
    vstd::arithmetic::div_mod::lemma_mod_bound(n, d);
}

/// Writes to two channels touch different registers.
pub proof fn law_channels_are_disjoint(a: int, b: int, i: int, j: int)
    requires
        0 <= a < NUM_CHANNELS,
        0 <= b < NUM_CHANNELS,
        a != b,
        0 <= i < 4,
        0 <= j < 4,
    ensures
        reg_base(a) + i != reg_base(b) + j,
        REG_LED0_ON_L <= reg_base(a) + i < REG_ALL_LED_ON_L,
{
}

/// The prescaler is written while the chip sleeps: the write before it sets the
/// sleep bit and clears the restart bit. In the end the chip restarts with
/// auto-increment on, and it is awake if it was awake before.
pub proof fn law_prescaler_is_set_asleep(freq: int, mode: u8)
    ensures
        frequency_steps(freq, mode)[0] matches BusStep::Register(w) && w.reg == REG_MODE1
            && w.value & MODE1_SLEEP == MODE1_SLEEP && w.value & MODE1_RESTART == 0,
        frequency_steps(freq, mode)[1] matches BusStep::Register(w) && w.reg == REG_PRESCALE,
        frequency_steps(freq, mode)[4] matches BusStep::Register(w) && w.reg == REG_MODE1
            && w.value & MODE1_AI == MODE1_AI && w.value & MODE1_RESTART == MODE1_RESTART
            && w.value & MODE1_SLEEP == mode & MODE1_SLEEP,
{
    assert(((mode & 0x7Fu8) | 0x10u8) & 0x10u8 == 0x10u8) by (bit_vector);
    assert(((mode & 0x7Fu8) | 0x10u8) & 0x80u8 == 0) by (bit_vector);
    assert((mode | 0x80u8 | 0x20u8 | 0x01u8) & 0x20u8 == 0x20u8) by (bit_vector);
    assert((mode | 0x80u8 | 0x20u8 | 0x01u8) & 0x80u8 == 0x80u8) by (bit_vector);
    assert((mode | 0x80u8 | 0x20u8 | 0x01u8) & 0x10u8 == mode & 0x10u8) by (bit_vector);
}

/// A channel write addresses the four registers of its channel and carries both
/// timing points, low byte first.
pub proof fn law_channel_write_bytes(channel: int, on: int, off: int)
    requires
        0 <= channel < 16,
        0 <= on <= 4095,
        0 <= off <= 4095,
    ensures
        ({
            let w = channel_write(channel, on, off);
            &&& w.reg == 6 + 4 * channel
            &&& w.on_l + 256 * w.on_h == on
            &&& w.off_l + 256 * w.off_h == off
        }),
{
}

/// Full off addresses the registers of its channel and sets nothing but the bit
/// that forces the channel low.
pub proof fn law_full_off_bytes(channel: int)
    requires
        0 <= channel < 16,
    ensures
        full_off(channel) == (ChannelWrite {
            reg: (6 + 4 * channel) as u8,
            on_l: 0,
            on_h: 0,
            off_l: 0,
            off_h: 0x10,
        }),
{
}

/// The divider is the nearest whole number to the quotient of the oscillator and
/// 4096 ticks per cycle, and the register takes it less one modulo 256.
pub proof fn law_divider_is_nearest(freq: int)
    requires
        1 <= freq <= 12_207,
    ensures
        divider(freq) * 4096 * freq <= 25_000_000 + 2048 * freq,
        25_000_000 + 2048 * freq < (divider(freq) + 1) * 4096 * freq,
        (prescaler(freq) + 1 - divider(freq)) % 256 == 0,
{
    let d = 4096 * freq;
    let n = 25_000_000 + 2048 * freq;
    assert(4096 * freq / 2 == 2048 * freq);
    lemma_divider_bounds(freq);
    num::law_truncated_quotient(n, d);
    assert(divider(freq) * d == divider(freq) * 4096 * freq && (divider(freq) + 1) * d == (divider(
        freq,
    ) + 1) * 4096 * freq) by (nonlinear_arith)
        requires
            d == 4096 * freq,
    ;
}

/// A change of the frequency takes five steps: sleep, prescaler, the old mode again,
/// five milliseconds, restart. No bit of the mode is touched but sleep and restart
/// on the way, and restart, auto-increment and all-call in the end.
pub proof fn law_frequency_sequence(freq: int, mode: u8)
    ensures
        frequency_steps(freq, mode).len() == 5,
        frequency_steps(freq, mode)[0] matches BusStep::Register(w) && w.reg == 0 && w.value & 0x6F
            == mode & 0x6F && w.value & 0x10 == 0x10 && w.value & 0x80 == 0,
        frequency_steps(freq, mode)[1] == BusStep::Register(
            RegWrite { reg: 0xFE, value: prescaler(freq) },
        ),
        frequency_steps(freq, mode)[2] == BusStep::Register(RegWrite { reg: 0, value: mode }),
        frequency_steps(freq, mode)[3] == BusStep::WaitMs(5),
        frequency_steps(freq, mode)[4] matches BusStep::Register(w) && w.reg == 0 && w.value & 0x5E
            == mode & 0x5E && w.value & 0xA1 == 0xA1,
{
    assert(((mode & 0x7Fu8) | 0x10u8) & 0x6Fu8 == mode & 0x6Fu8) by (bit_vector);
    assert(((mode & 0x7Fu8) | 0x10u8) & 0x10u8 == 0x10u8) by (bit_vector);
    assert(((mode & 0x7Fu8) | 0x10u8) & 0x80u8 == 0) by (bit_vector);
    assert((mode | 0x80u8 | 0x20u8 | 0x01u8) & 0x5Eu8 == mode & 0x5Eu8) by (bit_vector);
    assert((mode | 0x80u8 | 0x20u8 | 0x01u8) & 0xA1u8 == 0xA1u8) by (bit_vector);
}

/// Clearing writes every channel once, in order, with no timing point set.
pub proof fn law_clearing(n: nat, i: int)
    requires
        n <= 16,
        0 <= i < n,
    ensures
        clear_steps(n).len() == n,
        clear_steps(n)[i] == BusStep::Channel(
            ChannelWrite { reg: (6 + 4 * i) as u8, on_l: 0, on_h: 0, off_l: 0, off_h: 0 },
        ),
{
}

} // verus!
