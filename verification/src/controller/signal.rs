//! Signal processing of the analog sticks.
//!
//! A raw 10-bit sample is centred, freed of a dead zone, scaled to
//! `-100..=100` and smoothed by an exponential moving average in integer
//! arithmetic.
use crate::num;
use vstd::prelude::*;

verus! {

/// Full scale of the converter.
pub const ADC_MAX: i16 = 1023;

/// Reading of a stick at rest: the middle of the range.
pub const ADC_MID: i16 = 511;

/// Range from the centre to either end.
pub const HALF_RANGE: i16 = ADC_MID;

/// Magnitude of a full deflection.
pub const OUTPUT_MAX: i32 = 100;

/// Default dead zone.
pub const DEFAULT_DEAD_ZONE: i16 = 30;

/// Numerator of the default smoothing weight.
pub const DEFAULT_SMOOTH_NUM: i32 = 3;

/// Denominator of the default smoothing weight.
pub const DEFAULT_SMOOTH_DEN: i32 = 8;

/// A residue up to this magnitude is dropped once the input is idle.
pub const SNAP_THRESHOLD: i32 = 5;

/// `value` with the dead zone taken out: zero inside, shifted towards zero
/// outside.
pub open spec fn without_dead_zone(value: int, dead_zone: int) -> int {
    if num::abs(value) <= dead_zone {
        0
    } else if value > 0 {
        value - dead_zone
    } else {
        value + dead_zone
    }
}

/// `value` scaled so that the range beyond the dead zone fills `-100..=100`;
/// zero if there is no such range.
pub open spec fn scaled(value: int, dead_zone: int) -> int {
    if HALF_RANGE - dead_zone <= 0 {
        0
    } else {
        num::clamp(
            num::trunc_div(value * OUTPUT_MAX, HALF_RANGE - dead_zone),
            -OUTPUT_MAX as int,
            OUTPUT_MAX as int,
        )
    }
}

/// A raw sample after centring, dead zone and scaling.
pub open spec fn deflection(raw: int, dead_zone: int) -> int {
    scaled(
        without_dead_zone(num::clamp(raw, 0, ADC_MAX as int) - ADC_MID, dead_zone),
        dead_zone,
    )
}

/// The moving average after a sample: a small residue is dropped when the input
/// is idle, otherwise the weighted mean of sample and state is taken.
pub open spec fn smoothed(state: int, sample: int, n: int, d: int) -> int {
    if sample == 0 && num::abs(state) <= SNAP_THRESHOLD {
        0
    } else {
        num::trunc_div(n * sample + (d - n) * state, d)
    }
}

/// Takes the dead zone out of a centred value.
pub fn apply_dead_zone(value: i16, dead_zone: i16) -> (result: i16)
    requires
        value != i16::MIN,
        i16::MIN <= without_dead_zone(value as int, dead_zone as int) <= i16::MAX,
    ensures
        result == without_dead_zone(value as int, dead_zone as int),
{
    let magnitude: i16 = if value < 0 {
        -value
    } else {
        value
    };
    if magnitude <= dead_zone {
        return 0;
    }
    if value > 0 {
        value - dead_zone
    } else {
        value + dead_zone
    }
}

/// Scales a value that the dead zone was taken out of.
pub fn scale_to_output(value: i16, dead_zone: i16) -> (result: i16)
    requires
        HALF_RANGE - dead_zone <= i16::MAX,
    ensures
        result == scaled(value as int, dead_zone as int),
        -OUTPUT_MAX <= result <= OUTPUT_MAX,
{
    let effective_range: i32 = (HALF_RANGE - dead_zone) as i32;
    if effective_range <= 0 {
        return 0;
    }
    let product: i32 = value as i32 * OUTPUT_MAX;
    num::clamp_i32(product / effective_range, -OUTPUT_MAX, OUTPUT_MAX) as i16
}

/// A moving average over one axis.
#[derive(Clone, Copy, Debug)]
pub struct EmaFilter {
    pub(crate) state: i32,
}

impl EmaFilter {
    /// The smoothed value.
    pub open(crate) spec fn value(self) -> int {
        self.state as int
    }

    /// The arithmetic of an update stays within 32 bits.
    pub open spec fn can_take(self, sample: int, n: int, d: int) -> bool {
        &&& sample == 0 ==> self.value() != i32::MIN
        &&& sample == 0 && num::abs(self.value()) <= SNAP_THRESHOLD || {
            &&& d != 0
            &&& i32::MIN <= n * sample <= i32::MAX
            &&& i32::MIN <= d - n <= i32::MAX
            &&& i32::MIN <= (d - n) * self.value() <= i32::MAX
            &&& i32::MIN <= n * sample + (d - n) * self.value() <= i32::MAX
            &&& smoothed(self.value(), sample, n, d) <= i32::MAX
        }
    }

    /// A filter at rest.
    pub fn new() -> (filter: Self)
        ensures
            filter.value() == 0,
    {
        EmaFilter { state: 0 }
    }

    /// Puts the filter back to rest.
    pub fn reset(&mut self)
        ensures
            final(self).value() == 0,
    {
        self.state = 0;
    }

    /// Takes a sample with the weight `num / den` and returns the new smoothed
    /// value.
    pub fn update(&mut self, sample: i32, num: i32, den: i32) -> (result: i32)
        requires
            old(self).can_take(sample as int, num as int, den as int),
        ensures
            final(self).value() == smoothed(
                old(self).value(),
                sample as int,
                num as int,
                den as int,
            ),
            result == final(self).value(),
    {
        if sample == 0 && self.state == 0 {
            return 0;
        }
        let magnitude: i32 = if sample != 0 {
            0
        } else if self.state < 0 {
            -self.state
        } else {
            self.state
        };
        if sample == 0 && magnitude <= SNAP_THRESHOLD {
            self.state = 0;
            return 0;
        }
        proof {
            num::lemma_trunc_div_bounds(num * sample + (den - num) * self.state, den as int);
        }
        self.state = (num * sample + (den - num) * self.state) / den;
        self.state
    }
}

impl Default for EmaFilter {
    fn default() -> (filter: Self)
        ensures
            filter.value() == 0,
    {
        Self::new()
    }
}

/// Takes a raw sample of one axis through the whole pipeline.
pub fn process_axis(raw: i16, filter: &mut EmaFilter, dead_zone: i16) -> (result: i8)
    requires
        HALF_RANGE - dead_zone <= i16::MAX,
        without_dead_zone(
            num::clamp(raw as int, 0, ADC_MAX as int) - ADC_MID,
            dead_zone as int,
        ) <= i16::MAX,
        old(filter).can_take(
            deflection(raw as int, dead_zone as int),
            DEFAULT_SMOOTH_NUM as int,
            DEFAULT_SMOOTH_DEN as int,
        ),
    ensures
        final(filter).value() == smoothed(
            old(filter).value(),
            deflection(raw as int, dead_zone as int),
            DEFAULT_SMOOTH_NUM as int,
            DEFAULT_SMOOTH_DEN as int,
        ),
        result == num::clamp(final(filter).value(), -OUTPUT_MAX as int, OUTPUT_MAX as int),
{
    let centered: i16 = num::clamp_i16(raw, 0, ADC_MAX) - ADC_MID;
    let after_dz: i16 = apply_dead_zone(centered, dead_zone);
    let deflection: i32 = scale_to_output(after_dz, dead_zone) as i32;
    let smoothed: i32 = filter.update(deflection, DEFAULT_SMOOTH_NUM, DEFAULT_SMOOTH_DEN);
    num::clamp_i32(smoothed, -OUTPUT_MAX, OUTPUT_MAX) as i8
}

/// Taking out a dead zone keeps the order and the sign of values and makes no
/// jumps: neighbours stay neighbours or fall together.
pub proof fn law_dead_zone_is_smooth(a: int, b: int, dead_zone: int)
    requires
        0 <= dead_zone,
        a <= b,
    ensures
        0 <= without_dead_zone(b, dead_zone) - without_dead_zone(a, dead_zone) <= b - a,
        without_dead_zone(-a, dead_zone) == -without_dead_zone(a, dead_zone),
        num::abs(a) <= dead_zone <==> without_dead_zone(a, dead_zone) == 0,
{
}

/// Scaling keeps the order of values and stays within `-100..=100`.
pub proof fn law_scaling_is_monotone(a: int, b: int, dead_zone: int)
    requires
        a <= b,
    ensures
        scaled(a, dead_zone) <= scaled(b, dead_zone),
        -OUTPUT_MAX <= scaled(a, dead_zone) <= OUTPUT_MAX,
{
    let range = HALF_RANGE - dead_zone;
    if range > 0 {
        assert(a * 100 <= b * 100);
        let x = a * 100;
        let y = b * 100;
        if x >= 0 {
            assert(x / range <= y / range) by (nonlinear_arith)
                requires
                    x <= y,
                    range > 0,
            ;
        } else if y < 0 {
            assert((-y) / range <= (-x) / range) by (nonlinear_arith)
                requires
                    x <= y,
                    range > 0,
            ;
        } else {
            assert((-x) / range >= 0 && y / range >= 0) by (nonlinear_arith)
                requires
                    x < 0,
                    y >= 0,
                    range > 0,
            ;
        }
    }
}

/// A stick pushed further never gives less, a stick at rest gives nothing, and
/// both ends give full deflection.
pub proof fn law_deflection(a: int, b: int, dead_zone: int)
    requires
        0 <= dead_zone < HALF_RANGE,
        a <= b,
    ensures
        deflection(a, dead_zone) <= deflection(b, dead_zone),
        -OUTPUT_MAX <= deflection(a, dead_zone) <= OUTPUT_MAX,
        ADC_MID - dead_zone <= a <= ADC_MID + dead_zone ==> deflection(a, dead_zone) == 0,
        a >= ADC_MID + HALF_RANGE ==> deflection(a, dead_zone) == OUTPUT_MAX,
        a <= 0 ==> deflection(a, dead_zone) == -OUTPUT_MAX,
{
    let x = num::clamp(a, 0, ADC_MAX as int) - ADC_MID;
    let y = num::clamp(b, 0, ADC_MAX as int) - ADC_MID;
    let range = HALF_RANGE - dead_zone;
    law_dead_zone_is_smooth(x, y, dead_zone);
    law_scaling_is_monotone(
        without_dead_zone(x, dead_zone),
        without_dead_zone(y, dead_zone),
        dead_zone,
    );
    assert(range * 100 / range == 100) by (nonlinear_arith)
        requires
            range > 0,
    ;
    assert((range + 1) * 100 / range >= 100) by (nonlinear_arith)
        requires
            range > 0,
    ;
    assert(0int / range == 0) by (nonlinear_arith)
        requires
            range > 0,
    ;
}

/// The moving average never leaves the span between its state and the sample,
/// and so it stays within any range that holds both.
pub proof fn law_no_overshoot(state: int, sample: int)
    ensures
        num::min(state, sample) <= smoothed(
            state,
            sample,
            DEFAULT_SMOOTH_NUM as int,
            DEFAULT_SMOOTH_DEN as int,
        ) <= num::max(state, sample),
{
}

/// The moving average after `n` idle samples.
pub open spec fn after_idle(state: int, n: nat) -> int
    decreases n,
{
    if n == 0 {
        state
    } else {
        smoothed(
            after_idle(state, (n - 1) as nat),
            0,
            DEFAULT_SMOOTH_NUM as int,
            DEFAULT_SMOOTH_DEN as int,
        )
    }
}

/// A released stick comes to rest: from any deflection seven idle samples bring
/// the moving average to exactly zero, and more keep it there.
pub proof fn law_released_stick_stops(state: int, n: nat)
    requires
        -OUTPUT_MAX <= state <= OUTPUT_MAX,
        n >= 7,
    ensures
        after_idle(state, n) == 0,
    decreases n,
{
    if n == 7 {
        reveal_with_fuel(after_idle, 8);
    } else {
        law_released_stick_stops(state, (n - 1) as nat);
    }
}

/// Beyond the dead zone a value counts from its edge: `k` past the edge gives `k`,
/// on either side.
pub proof fn law_dead_zone_shifts(value: int, dead_zone: int, k: int)
    requires
        0 <= dead_zone,
        0 <= k,
    ensures
        without_dead_zone(dead_zone + k, dead_zone) == k,
        without_dead_zone(-dead_zone - k, dead_zone) == -k,
        -dead_zone <= value <= dead_zone ==> without_dead_zone(value, dead_zone) == 0,
{
}

/// Taking out a dead zone below zero, which holds no value, moves every value away
/// from zero, and zero down.
pub proof fn law_negative_dead_zone(value: int, dead_zone: int)
    requires
        dead_zone < 0,
    ensures
        value > 0 ==> without_dead_zone(value, dead_zone) == value - dead_zone,
        value <= 0 ==> without_dead_zone(value, dead_zone) == value + dead_zone,
{
}

/// Scaling is linear: the result is the whole number of hundredths of the range
/// that a value covers. Beyond the range it stays at 100, opposite values give
/// opposite results, and a hundredth of the range is enough for a result.
pub proof fn law_scaling_is_linear(value: int, dead_zone: int)
    requires
        dead_zone < 511,
    ensures
        0 <= value <= 511 - dead_zone ==> scaled(value, dead_zone) * (511 - dead_zone) <= 100
            * value < (scaled(value, dead_zone) + 1) * (511 - dead_zone),
        value >= 511 - dead_zone ==> scaled(value, dead_zone) == 100,
        scaled(-value, dead_zone) == -scaled(value, dead_zone),
        value >= 0 && 100 * value >= 511 - dead_zone ==> scaled(value, dead_zone) > 0,
{
    let range = 511 - dead_zone;
    let q = num::trunc_div(value * 100, range);
    num::law_truncated_quotient(value * 100, range);
    assert((-value) * 100 == -(value * 100));
    if value >= range {
        assert(q >= 100) by (nonlinear_arith)
            requires
                value * 100 < (q + 1) * range,
                value >= range,
                range > 0,
        ;
    }
    if 0 <= value <= range {
        assert(q <= 100) by (nonlinear_arith)
            requires
                q * range <= value * 100,
                value <= range,
                range > 0,
        ;
    }
    if value >= 0 && 100 * value >= range {
        assert(q >= 1) by (nonlinear_arith)
            requires
                value * 100 < (q + 1) * range,
                100 * value >= range,
                range > 0,
        ;
    }
}

/// Without a range beyond the dead zone there is no result.
pub proof fn law_no_range_no_result(value: int, dead_zone: int)
    requires
        dead_zone >= 511,
    ensures
        scaled(value, dead_zone) == 0,
{
}

/// The deflection of a stick is proportional to how far it is pushed beyond the
/// dead zone: `k` past the edge, out of `511 - dead_zone`, gives that part of 100,
/// rounded down. Both directions are alike, and readings beyond the ends count as
/// the ends.
pub proof fn law_deflection_is_proportional(raw: int, dead_zone: int, k: int)
    requires
        0 <= dead_zone < 511,
        0 <= k <= 511 - dead_zone,
    ensures
        ({
            let s = deflection(511 + dead_zone + k, dead_zone);
            &&& s * (511 - dead_zone) <= 100 * k < (s + 1) * (511 - dead_zone)
            &&& deflection(511 - dead_zone - k, dead_zone) == -s
        }),
        511 - dead_zone <= raw <= 511 + dead_zone ==> deflection(raw, dead_zone) == 0,
        raw >= 1022 ==> deflection(raw, dead_zone) == 100,
        raw <= 0 ==> deflection(raw, dead_zone) == -100,
{
    law_scaling_is_linear(k, dead_zone);
    law_scaling_is_linear(0, dead_zone);
    law_scaling_is_linear(511 - dead_zone, dead_zone);
    law_scaling_is_linear(512 - dead_zone, dead_zone);
}

/// The moving average is the weighted mean of sample and state, rounded towards
/// zero, for any weight `n / d`; only a residue of five at most under an idle input
/// is dropped instead.
pub proof fn law_average_is_weighted_mean(state: int, sample: int, n: int, d: int)
    requires
        d > 0,
    ensures
        ({
            let s = smoothed(state, sample, n, d);
            let mean = n * sample + (d - n) * state;
            if sample == 0 && -5 <= state <= 5 {
                s == 0
            } else if mean >= 0 {
                s >= 0 && s * d <= mean < (s + 1) * d
            } else {
                s <= 0 && (s - 1) * d < mean <= s * d
            }
        }),
{
    num::law_truncated_quotient(n * sample + (d - n) * state, d);
}

/// A stick that is held moves the average towards it: by three eighths of the way,
/// and so by one at least as long as three are missing.
pub proof fn law_average_approaches(state: int, sample: int)
    requires
        0 <= state,
        state + 3 <= sample,
    ensures
        state < smoothed(state, sample, 3, 8) <= sample,
        smoothed(-state, -sample, 3, 8) == -smoothed(state, sample, 3, 8),
        8 * smoothed(state, sample, 3, 8) <= 3 * sample + 5 * state,
        3 * sample + 5 * state < 8 * smoothed(state, sample, 3, 8) + 8,
{
}

/// The moving average after `n` samples that are all `sample`.
pub open spec fn after_held(state: int, sample: int, n: nat) -> int
    decreases n,
{
    if n == 0 {
        state
    } else {
        smoothed(
            after_held(state, sample, (n - 1) as nat),
            sample,
            DEFAULT_SMOOTH_NUM as int,
            DEFAULT_SMOOTH_DEN as int,
        )
    }
}

/// A stick that is held brings the average up to its deflection: it comes closer
/// with every sample until two at most are missing, and never passes it.
pub proof fn law_held_stick_settles(state: int, sample: int, n: nat)
    requires
        0 <= state <= sample,
    ensures
        after_held(state, sample, n) <= sample,
        sample - after_held(state, sample, n) <= 2 || sample - after_held(state, sample, n)
            <= sample - state - n,
        after_held(state, sample, n) >= 0,
        after_held(-state, -sample, n) == -after_held(state, sample, n),
    decreases n,
{
    if n > 0 {
        law_held_stick_settles(state, sample, (n - 1) as nat);
    }
}

/// A weight is a fraction: turning both its parts around changes nothing.
pub proof fn law_weight_is_a_fraction(state: int, sample: int, n: int, d: int)
    requires
        d > 0,
    ensures
        smoothed(state, sample, -n, -d) == smoothed(state, sample, n, d),
{
    let mean = n * sample + (d - n) * state;
    assert((-n) * sample + (-d - -n) * state == -mean) by (nonlinear_arith)
        requires
            mean == n * sample + (d - n) * state,
    ;
    num::law_negative_divisor(-mean, d);
    num::law_truncated_quotient(mean, d);
}

/// The deflection takes the steps in their order, with any dead zone: the reading
/// `c` within `0..=1023` that is nearest to the sample is centred at 511, freed of
/// the dead zone and scaled.
pub proof fn law_deflection_in_steps(raw: int, dead_zone: int, c: int)
    requires
        0 <= c <= 1023,
        0 <= raw <= 1023 ==> c == raw,
        raw < 0 ==> c == 0,
        raw > 1023 ==> c == 1023,
    ensures
        deflection(raw, dead_zone) == scaled(without_dead_zone(c - 511, dead_zone), dead_zone),
{
}

} // verus!
