//! WS2812 bit stream as PWM duty words.
//!
//! At 16 MHz with a top of [`TOP_TICKS`] one PWM period lasts 1.25 us, one bit
//! slot. A short pulse is a zero, a long one a one. Every LED takes 24 bits, in
//! the order green, red, blue, most significant bit first.
use vstd::prelude::*;

verus! {

/// LEDs in a chain.
pub const CHAIN_LEN: usize = 4;

/// Bits per LED.
pub const BITS_PER_LED: usize = 24;

/// Duty words in one frame.
pub const FRAME_WORDS: usize = CHAIN_LEN * BITS_PER_LED;

/// PWM top value: ticks per bit slot.
pub const TOP_TICKS: u16 = 20;

/// High ticks of a zero bit.
pub const T0H_TICKS: u16 = 5;

/// High ticks of a one bit.
pub const T1H_TICKS: u16 = 13;

/// Duty word of a zero bit: polarity flag and high ticks.
pub const WORD_T0: u16 = 0x8000 + T0H_TICKS;

/// Duty word of a one bit: polarity flag and high ticks.
pub const WORD_T1: u16 = 0x8000 + T1H_TICKS;

/// Time that the line stays low to latch a frame (us).
pub const RESET_US: u64 = 80;

/// Time per bit, rounded up (us).
pub const BIT_PERIOD_US: u64 = 2;

/// Time that a frame keeps the line busy, data and latch (us).
pub const FRAME_BUSY_US: u64 = 96 * BIT_PERIOD_US + RESET_US;

/// Bit `i` of a byte, counted from the most significant.
pub open spec fn bit(byte: u8, i: int) -> bool {
    (byte >> (7 - i) as u8) & 1u8 == 1u8
}

/// The duty word of bit `i` of a byte.
pub open spec fn word(byte: u8, i: int) -> u16 {
    if bit(byte, i) {
        WORD_T1
    } else {
        WORD_T0
    }
}

/// The duty words of a byte string.
pub open spec fn words(bytes: Seq<u8>) -> Seq<u16> {
    Seq::new(8 * bytes.len(), |k: int| word(bytes[k / 8], k % 8))
}

/// Writes the eight duty words of `byte` to `buf` from `base` on.
pub fn write_byte(buf: &mut [u16], base: usize, byte: u8)
    requires
        base + 8 <= old(buf)@.len(),
    ensures
        final(buf)@.len() == old(buf)@.len(),
        forall|k: int|
            0 <= k < final(buf)@.len() ==> #[trigger] final(buf)@[k] == if base <= k < base + 8 {
                word(byte, k - base)
            } else {
                old(buf)@[k]
            },
{
    let len: usize = buf.len();
    for i in 0..8usize
        invariant
            base + 8 <= len,
            buf@.len() == len,
            old(buf)@.len() == len,
            forall|k: int|
                0 <= k < buf@.len() ==> #[trigger] buf@[k] == if base <= k < base + i {
                    word(byte, k - base)
                } else {
                    old(buf)@[k]
                },
    {
        let bit_high: bool = (byte >> (7 - i) as u8) & 1 == 1;
        buf[base + i] = if bit_high {
            WORD_T1
        } else {
            WORD_T0
        };
    }
}

/// A byte is known from its duty words: two bytes with the same words are
/// equal.
pub proof fn law_byte_is_decodable(a: u8, b: u8)
    requires
        forall|i: int| 0 <= i < 8 ==> #[trigger] word(a, i) == word(b, i),
    ensures
        a == b,
{
    assert(word(a, 0) == word(b, 0) && word(a, 1) == word(b, 1) && word(a, 2) == word(b, 2)
        && word(a, 3) == word(b, 3) && word(a, 4) == word(b, 4) && word(a, 5) == word(b, 5)
        && word(a, 6) == word(b, 6) && word(a, 7) == word(b, 7));
    assert(a == b) by (bit_vector)
        requires
            ((a >> 7u8) & 1u8 == 1u8) == ((b >> 7u8) & 1u8 == 1u8),
            ((a >> 6u8) & 1u8 == 1u8) == ((b >> 6u8) & 1u8 == 1u8),
            ((a >> 5u8) & 1u8 == 1u8) == ((b >> 5u8) & 1u8 == 1u8),
            ((a >> 4u8) & 1u8 == 1u8) == ((b >> 4u8) & 1u8 == 1u8),
            ((a >> 3u8) & 1u8 == 1u8) == ((b >> 3u8) & 1u8 == 1u8),
            ((a >> 2u8) & 1u8 == 1u8) == ((b >> 2u8) & 1u8 == 1u8),
            ((a >> 1u8) & 1u8 == 1u8) == ((b >> 1u8) & 1u8 == 1u8),
            ((a >> 0u8) & 1u8 == 1u8) == ((b >> 0u8) & 1u8 == 1u8),
    ;
}

/// A byte string is known from its duty words.
pub proof fn law_stream_is_decodable(a: Seq<u8>, b: Seq<u8>)
    requires
        words(a) == words(b),
    ensures
        a == b,
{
    assert(words(a).len() == 8 * a.len() && words(b).len() == 8 * b.len());
    assert(a.len() == b.len());
    assert forall|j: int| 0 <= j < a.len() implies a[j] == b[j] by {
        assert forall|i: int| 0 <= i < 8 implies #[trigger] word(a[j], i) == word(b[j], i) by {
            let k = 8 * j + i;
            assert(k / 8 == j && k % 8 == i);
            assert(0 <= k < 8 * a.len());
            assert(words(a)[k] == word(a[k / 8], k % 8));
            assert(words(b)[k] == word(b[k / 8], k % 8));
        }
        law_byte_is_decodable(a[j], b[j]);
    }
}

/// Bit `i` of a byte, counted from the most significant, is the digit of
/// `2^(7 - i)`: the bits make up the byte.
pub proof fn law_bits_make_the_byte(byte: u8)
    ensures
        bit(byte, 0) <==> byte / 128 % 2 == 1,
        bit(byte, 1) <==> byte / 64 % 2 == 1,
        bit(byte, 2) <==> byte / 32 % 2 == 1,
        bit(byte, 3) <==> byte / 16 % 2 == 1,
        bit(byte, 4) <==> byte / 8 % 2 == 1,
        bit(byte, 5) <==> byte / 4 % 2 == 1,
        bit(byte, 6) <==> byte / 2 % 2 == 1,
        bit(byte, 7) <==> byte % 2 == 1,
{
    assert(((byte >> 7u8) & 1u8 == 1u8) == (byte / 128 % 2 == 1)) by (bit_vector);
    assert(((byte >> 6u8) & 1u8 == 1u8) == (byte / 64 % 2 == 1)) by (bit_vector);
    assert(((byte >> 5u8) & 1u8 == 1u8) == (byte / 32 % 2 == 1)) by (bit_vector);
    assert(((byte >> 4u8) & 1u8 == 1u8) == (byte / 16 % 2 == 1)) by (bit_vector);
    assert(((byte >> 3u8) & 1u8 == 1u8) == (byte / 8 % 2 == 1)) by (bit_vector);
    assert(((byte >> 2u8) & 1u8 == 1u8) == (byte / 4 % 2 == 1)) by (bit_vector);
    assert(((byte >> 1u8) & 1u8 == 1u8) == (byte / 2 % 2 == 1)) by (bit_vector);
    assert(((byte >> 0u8) & 1u8 == 1u8) == (byte % 2 == 1)) by (bit_vector);
}

/// The stream has eight words per byte, most significant bit first: a long pulse of
/// 13 ticks for a one, a short one of 5 ticks for a zero.
pub proof fn law_stream_order(bytes: Seq<u8>, j: int, i: int)
    requires
        0 <= j < bytes.len(),
        0 <= i < 8,
    ensures
        words(bytes).len() == 8 * bytes.len(),
        words(bytes)[8 * j + i] == if bit(bytes[j], i) {
            0x800Du16
        } else {
            0x8005u16
        },
{
    let k = 8 * j + i;
    assert(k / 8 == j && k % 8 == i);
}

} // verus!
