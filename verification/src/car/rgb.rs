//! The strip of four WS2812 LEDs on the car.
//!
//! Colours are staged with [`RgbStrip::set`] and its kin and turned into duty
//! words by [`RgbStrip::show`].
use crate::ws2812;
use crate::ws2812::{BITS_PER_LED, WORD_T0};
use vstd::prelude::*;

verus! {

/// LEDs on the strip.
pub const LED_COUNT: usize = 4;

/// A 24-bit colour.
#[derive(Clone, Copy, PartialEq, Eq, Structural, Debug)]
pub struct Color {
    pub r: u8,
    pub g: u8,
    pub b: u8,
}

impl Color {
    /// A colour from its channels.
    pub fn new(r: u8, g: u8, b: u8) -> (color: Self)
        ensures
            color == (Color { r, g, b }),
    {
        Color { r, g, b }
    }

    /// Off.
    pub fn black() -> (color: Self)
        ensures
            color == (Color { r: 0, g: 0, b: 0 }),
    {
        Color::new(0, 0, 0)
    }

    /// Pure red.
    pub fn red() -> (color: Self)
        ensures
            color == (Color { r: 255, g: 0, b: 0 }),
    {
        Color::new(255, 0, 0)
    }

    /// Pure green.
    pub fn green() -> (color: Self)
        ensures
            color == (Color { r: 0, g: 255, b: 0 }),
    {
        Color::new(0, 255, 0)
    }

    /// Pure blue.
    pub fn blue() -> (color: Self)
        ensures
            color == (Color { r: 0, g: 0, b: 255 }),
    {
        Color::new(0, 0, 255)
    }

    /// White.
    pub fn white() -> (color: Self)
        ensures
            color == (Color { r: 255, g: 255, b: 255 }),
    {
        Color::new(255, 255, 255)
    }

    /// Yellow.
    pub fn yellow() -> (color: Self)
        ensures
            color == (Color { r: 255, g: 255, b: 0 }),
    {
        Color::new(255, 255, 0)
    }

    /// Cyan.
    pub fn cyan() -> (color: Self)
        ensures
            color == (Color { r: 0, g: 255, b: 255 }),
    {
        Color::new(0, 255, 255)
    }

    /// Magenta.
    pub fn magenta() -> (color: Self)
        ensures
            color == (Color { r: 255, g: 0, b: 255 }),
    {
        Color::new(255, 0, 255)
    }
}

/// The bytes of colours on the wire: green, red, blue of each.
pub open spec fn grb(colors: Seq<Color>) -> Seq<u8> {
    Seq::new(
        3 * colors.len(),
        |j: int|
            if j % 3 == 0 {
                colors[j / 3].g
            } else if j % 3 == 1 {
                colors[j / 3].r
            } else {
                colors[j / 3].b
            },
    )
}

/// The staged colours and the duty words of the last frame.
pub struct RgbStrip {
    pub buf: [u16; 96],
    pub colors: [Color; 4],
}

impl RgbStrip {
    /// A strip with all LEDs off.
    pub fn new() -> (strip: Self)
        ensures
            forall|k: int| 0 <= k < 96 ==> #[trigger] strip.buf@[k] == WORD_T0,
            forall|i: int|
                0 <= i < 4 ==> #[trigger] strip.colors@[i] == (Color { r: 0, g: 0, b: 0 }),
    {
        RgbStrip { buf: [WORD_T0;96], colors: [Color::black();4] }
    }

    /// Stages the colour of one LED. An index past the strip changes nothing.
    pub fn set(&mut self, index: usize, color: Color)
        ensures
            final(self).buf == old(self).buf,
            final(self).colors@ == if index < LED_COUNT {
                old(self).colors@.update(index as int, color)
            } else {
                old(self).colors@
            },
    {
        if index >= LED_COUNT {
            return;
        }
        self.colors[index] = color;
    }

    /// Stages one colour for every LED.
    pub fn set_all(&mut self, color: Color)
        ensures
            final(self).buf == old(self).buf,
            forall|i: int| 0 <= i < 4 ==> #[trigger] final(self).colors@[i] == color,
    {
        for i in 0..LED_COUNT
            invariant
                self.buf == old(self).buf,
                forall|j: int| 0 <= j < i ==> #[trigger] self.colors@[j] == color,
        {
            self.colors[i] = color;
        }
    }

    /// Stages every LED off.
    pub fn clear(&mut self)
        ensures
            final(self).buf == old(self).buf,
            forall|i: int|
                0 <= i < 4 ==> #[trigger] final(self).colors@[i] == (Color { r: 0, g: 0, b: 0 }),
    {
        self.set_all(Color::black());
    }

    /// Turns the staged colours into the duty words of a frame.
    pub fn show(&mut self)
        ensures
            final(self).colors == old(self).colors,
            final(self).buf@ == ws2812::words(grb(old(self).colors@)),
    {
        let ghost bytes = grb(self.colors@);
        for led in 0..LED_COUNT
            invariant
                self.colors == old(self).colors,
                bytes == grb(old(self).colors@),
                forall|k: int|
                    0 <= k < BITS_PER_LED * led ==> #[trigger] self.buf@[k] == ws2812::words(
                        bytes,
                    )[k],
        {
            let color = self.colors[led];
            let base: usize = led * BITS_PER_LED;
            assert(bytes[3 * led as int] == color.g);
            assert(bytes[3 * led + 1] == color.r);
            assert(bytes[3 * led + 2] == color.b);
            ws2812::write_byte(&mut self.buf, base, color.g);
            ws2812::write_byte(&mut self.buf, base + 8, color.r);
            ws2812::write_byte(&mut self.buf, base + 16, color.b);
        }
    }
}

/// A shown frame tells the colours that were staged: two strips with the same
/// duty words have the same colours.
pub proof fn law_frame_tells_colours(a: Seq<Color>, b: Seq<Color>)
    requires
        ws2812::words(grb(a)) == ws2812::words(grb(b)),
    ensures
        a == b,
{
    ws2812::law_stream_is_decodable(grb(a), grb(b));
    assert(grb(a).len() == grb(b).len());
    assert forall|i: int| 0 <= i < a.len() implies a[i] == b[i] by {
        assert(grb(a)[3 * i] == grb(b)[3 * i]);
        assert(grb(a)[3 * i + 1] == grb(b)[3 * i + 1]);
        assert(grb(a)[3 * i + 2] == grb(b)[3 * i + 2]);
    }
}

/// Every LED takes three bytes: green, red, blue, in the order of the LEDs.
pub proof fn law_colour_bytes(colors: Seq<Color>, i: int)
    requires
        0 <= i < colors.len(),
    ensures
        grb(colors).len() == 3 * colors.len(),
        grb(colors)[3 * i] == colors[i].g,
        grb(colors)[3 * i + 1] == colors[i].r,
        grb(colors)[3 * i + 2] == colors[i].b,
{
}

} // verus!
