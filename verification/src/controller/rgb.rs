//! The status LEDs of the controller.
//!
//! Four WS2812 LEDs hang in a chain; the first shows the radio link, the others
//! stay dark.
use crate::clock;
use crate::num;
use crate::ws2812;
use crate::ws2812::BITS_PER_LED;
use vstd::prelude::*;

verus! {

/// LEDs in the chain.
pub const NUM_LEDS: usize = 4;

/// Interval of the breathing animation (ms).
pub const ANIM_TICK_MS: u64 = 60;

/// Health of the radio link.
#[derive(Clone, Copy, PartialEq, Eq, Structural, Debug)]
pub enum ConnectionState {
    /// No heartbeat reply yet.
    Connecting,
    /// A heartbeat reply came in time.
    Connected,
    /// No heartbeat reply for too long.
    Disconnected,
}

/// What the LEDs show.
#[derive(Clone, Copy, PartialEq, Eq, Structural, Debug)]
pub struct RgbState {
    /// Shown on the first LED.
    pub connection: ConnectionState,
}

impl RgbState {
    /// The state after power-up.
    pub fn initial() -> (state: Self)
        ensures
            state.connection == ConnectionState::Connecting,
    {
        RgbState { connection: ConnectionState::Connecting }
    }
}

/// A 24-bit colour.
#[derive(Clone, Copy, PartialEq, Eq, Structural, Debug)]
pub struct Rgb {
    pub r: u8,
    pub g: u8,
    pub b: u8,
}

impl Rgb {
    /// A colour from its channels.
    pub fn new(r: u8, g: u8, b: u8) -> (color: Self)
        ensures
            color == (Rgb { r, g, b }),
    {
        Rgb { r, g, b }
    }

    /// Dark.
    pub fn off() -> (color: Self)
        ensures
            color == (Rgb { r: 0, g: 0, b: 0 }),
    {
        Rgb::new(0, 0, 0)
    }

    /// Dim green.
    pub fn green_dim() -> (color: Self)
        ensures
            color == (Rgb { r: 0, g: 12, b: 0 }),
    {
        Rgb::new(0, 12, 0)
    }

    /// Dim red.
    pub fn red_dim() -> (color: Self)
        ensures
            color == (Rgb { r: 12, g: 0, b: 0 }),
    {
        Rgb::new(12, 0, 0)
    }

    /// Amber of a brightness: half as much green as red.
    pub fn amber(brightness: u8) -> (color: Self)
        ensures
            color == (Rgb { r: brightness, g: brightness / 2, b: 0 }),
    {
        Rgb::new(brightness, brightness / 2, 0)
    }
}

/// The bytes of colours on the wire: green, red, blue of each.
pub open spec fn grb(pixels: Seq<Rgb>) -> Seq<u8> {
    Seq::new(
        3 * pixels.len(),
        |j: int|
            if j % 3 == 0 {
                pixels[j / 3].g
            } else if j % 3 == 1 {
                pixels[j / 3].r
            } else {
                pixels[j / 3].b
            },
    )
}

/// Writes the duty words of four colours.
pub fn encode_pixels(pixels: &[Rgb; 4], buf: &mut [u16; 96])
    ensures
        final(buf)@ == ws2812::words(grb(pixels@)),
{
    let ghost bytes = grb(pixels@);
    for led in 0..NUM_LEDS
        invariant
            bytes == grb(pixels@),
            forall|k: int|
                0 <= k < BITS_PER_LED * led ==> #[trigger] buf@[k] == ws2812::words(bytes)[k],
    {
        let px = pixels[led];
        let base: usize = led * BITS_PER_LED;
        assert(bytes[3 * led as int] == px.g);
        assert(bytes[3 * led + 1] == px.r);
        assert(bytes[3 * led + 2] == px.b);
        ws2812::write_byte(buf, base, px.g);
        ws2812::write_byte(buf, base + 8, px.r);
        ws2812::write_byte(buf, base + 16, px.b);
    }
}

/// The breathing brightness at a phase: up and down between 2 and 17 in 32
/// steps.
pub open spec fn breath(phase: int) -> int {
    let p = phase % 32;
    2 + if p < 16 {
        p
    } else {
        31 - p
    }
}

/// The breathing brightness at a phase.
pub fn breathing_brightness(phase: u8) -> (brightness: u8)
    ensures
        brightness == breath(phase as int),
{
    let p: u8 = phase % 32;
    let level: u8 = if p < 16 {
        p
    } else {
        31 - p
    };
    2 + level
}

/// The colour of the first LED.
pub open spec fn link_color(state: RgbState, phase: int) -> Rgb {
    match state.connection {
        ConnectionState::Connected => Rgb { r: 0, g: 12, b: 0 },
        ConnectionState::Disconnected => Rgb { r: 12, g: 0, b: 0 },
        ConnectionState::Connecting => Rgb {
            r: breath(phase) as u8,
            g: (breath(phase) / 2) as u8,
            b: 0,
        },
    }
}

/// The colours of the chain.
pub fn render(state: &RgbState, phase: u8) -> (pixels: [Rgb; 4])
    ensures
        pixels@[0] == link_color(*state, phase as int),
        forall|i: int| 1 <= i < 4 ==> #[trigger] pixels@[i] == (Rgb { r: 0, g: 0, b: 0 }),
{
    let led0 = match state.connection {
        ConnectionState::Connected => Rgb::green_dim(),
        ConnectionState::Disconnected => Rgb::red_dim(),
        ConnectionState::Connecting => Rgb::amber(breathing_brightness(phase)),
    };
    [led0, Rgb::off(), Rgb::off(), Rgb::off()]
}

/// When the animation moves on after `now`, in ticks.
pub open spec fn next_tick_after(now: u64) -> u64 {
    num::min(now + clock::ticks_in(ANIM_TICK_MS as int), u64::MAX as int) as u64
}

/// What is shown, how far the animation is and when it moves on, in ticks.
#[derive(Clone, Copy, PartialEq, Eq, Structural, Debug)]
pub struct Indicator {
    pub state: RgbState,
    pub phase: u8,
    pub next_tick: u64,
}

impl Indicator {
    /// Connecting, at the start of an animation that begins at `now`.
    pub fn new_at(now: u64) -> (indicator: Self)
        ensures
            indicator == (Indicator {
                state: RgbState { connection: ConnectionState::Connecting },
                phase: 0,
                next_tick: next_tick_after(now),
            }),
    {
        Indicator {
            state: RgbState::initial(),
            phase: 0,
            next_tick: now.saturating_add(clock::millis_to_ticks(ANIM_TICK_MS)),
        }
    }

    /// Connecting, at the start of an animation that begins now.
    pub fn new() -> (indicator: Self)
        ensures
            indicator.state.connection == ConnectionState::Connecting,
            indicator.phase == 0,
            exists|now: u64| indicator.next_tick == #[trigger] next_tick_after(now),
    {
        let now: u64 = clock::now_ticks();
        Self::new_at(now)
    }

    /// The colours to show.
    pub fn pixels(&self) -> (pixels: [Rgb; 4])
        ensures
            pixels@[0] == link_color(self.state, self.phase as int),
            forall|i: int| 1 <= i < 4 ==> #[trigger] pixels@[i] == (Rgb { r: 0, g: 0, b: 0 }),
    {
        render(&self.state, self.phase)
    }

    /// Shows a new state. The animation goes on and its next step is not put
    /// off.
    pub fn set_state(&mut self, state: RgbState)
        ensures
            *final(self) == (Indicator { state, ..*old(self) }),
    {
        self.state = state;
    }

    /// Moves the animation on at `now`.
    pub fn tick_at(&mut self, now: u64)
        ensures
            *final(self) == (Indicator {
                state: old(self).state,
                phase: ((old(self).phase + 1) % 256) as u8,
                next_tick: next_tick_after(now),
            }),
    {
        self.next_tick = now.saturating_add(clock::millis_to_ticks(ANIM_TICK_MS));
        self.phase = self.phase.wrapping_add(1);
    }

    /// Moves the animation on now.
    pub fn tick(&mut self)
        ensures
            final(self).state == old(self).state,
            final(self).phase == (old(self).phase + 1) % 256,
            exists|now: u64| final(self).next_tick == #[trigger] next_tick_after(now),
    {
        let now: u64 = clock::now_ticks();
        self.tick_at(now);
    }
}

/// The breathing stays between 2 and 18, changes by one at most per tick, even
/// where the phase wraps, and is symmetric.
pub proof fn law_breathing(phase: int)
    requires
        0 <= phase < 256,
    ensures
        2 <= breath(phase) <= 18,
        -1 <= breath((phase + 1) % 256) - breath(phase) <= 1,
        breath(31 - phase % 32) == breath(phase),
{
}

/// The three link states look different at every phase.
pub proof fn law_link_states_look_different(a: RgbState, b: RgbState, p: int, q: int)
    requires
        0 <= p,
        0 <= q,
        a.connection != b.connection,
    ensures
        link_color(a, p) != link_color(b, q),
{
}

/// A frame tells the colours that were encoded.
pub proof fn law_frame_tells_colours(a: Seq<Rgb>, b: Seq<Rgb>)
    requires
        ws2812::words(grb(a)) == ws2812::words(grb(b)),
    ensures
        a == b,
{
    ws2812::law_stream_is_decodable(grb(a), grb(b));
    assert(grb(a).len() == grb(b).len());
    assert forall|i: int| 0 <= i < a.len() implies a[i] == b[i] by {
        assert(grb(a)[3 * i] == grb(b)[3 * i]);
        assert(grb(a)[3 * i + 1] == grb(b)[3 * i + 1]);
        assert(grb(a)[3 * i + 2] == grb(b)[3 * i + 2]);
    }
}

/// The brightness rises from 2 to 17 in steps of one, falls back the same way, and
/// repeats every 32 phases.
pub proof fn law_breath_rises_and_falls(phase: int, p: int)
    requires
        0 <= phase,
        0 <= p < 16,
    ensures
        breath(p) == 2 + p,
        breath(31 - p) == 2 + p,
        breath(phase + 32) == breath(phase),
{
}

/// A link that is up shows dim green, one that is down dim red, one that was never up
/// amber, half as much green as red, at the brightness of the phase.
pub proof fn law_link_colours(state: RgbState, phase: int)
    requires
        0 <= phase,
    ensures
        state.connection is Connected ==> link_color(state, phase) == (Rgb { r: 0, g: 12, b: 0 }),
        state.connection is Disconnected ==> link_color(state, phase) == (Rgb {
            r: 12,
            g: 0,
            b: 0,
        }),
        state.connection is Connecting ==> {
            let c = link_color(state, phase);
            &&& c.r == breath(phase)
            &&& 2 * c.g <= c.r <= 2 * c.g + 1
            &&& c.b == 0
        },
{
}

/// The animation moves on 1967 ticks, which are 60 ms, after the last step; only at
/// the end of the clock is the time held there.
pub proof fn law_animation_interval(now: u64)
    ensures
        now + 1967 <= u64::MAX ==> next_tick_after(now) == now + 1967,
        now + 1967 > u64::MAX ==> next_tick_after(now) == u64::MAX,
{
}

/// Every LED takes three bytes: green, red, blue, in the order of the LEDs.
pub proof fn law_colour_bytes(pixels: Seq<Rgb>, i: int)
    requires
        0 <= i < pixels.len(),
    ensures
        grb(pixels).len() == 3 * pixels.len(),
        grb(pixels)[3 * i] == pixels[i].g,
        grb(pixels)[3 * i + 1] == pixels[i].r,
        grb(pixels)[3 * i + 2] == pixels[i].b,
{
}

} // verus!
