//! Rescaling of a fullscale throttle to the native range of a PWM output.

use vstd::prelude::*;

verus! {

/// The largest fullscale throttle.
pub const FULLSCALE: u16 = 0xFFFF;

/// Half of the fullscale range, rounded up: the rounding bias.
pub const HALF_SCALE: u32 = 0x8000;

/// The native duty for fullscale throttle `throttle` on an output whose
/// largest duty is `max`: `max * throttle / 65535`, rounded to the nearest
/// integer, a tie upwards.
pub open spec fn scaled_duty(max: int, throttle: int) -> int {
    (max * throttle + 32768) / 65535
}

/// [`scaled_duty`] on 16-bit values. It fits: see
/// [`lemma_scaled_duty_range`].
pub open spec fn native_duty(max: u16, throttle: u16) -> u16 {
    scaled_duty(max as int, throttle as int) as u16
}

/// Computes [`scaled_duty`] in 32-bit arithmetic.
pub fn duty_from_fullscale(max: u16, throttle: u16) -> (duty: u16)
    ensures
        duty == scaled_duty(max as int, throttle as int),
        duty == native_duty(max, throttle),
        duty <= max,
{
    let wide_max: u32 = max as u32;
    let wide_throttle: u32 = throttle as u32;
    proof {
        lemma_scaled_duty_range(max as int, throttle as int);
        assert(wide_max * wide_throttle <= 65535 * 65535) by (nonlinear_arith)
            requires
                wide_max <= 65535,
                wide_throttle <= 65535,
        ;
    }
    ((wide_max * wide_throttle + HALF_SCALE) / (FULLSCALE as u32)) as u16
}

/// A scaled duty lies between zero and the output's maximum.
pub proof fn lemma_scaled_duty_range(max: int, throttle: int)
    requires
        0 <= max,
        0 <= throttle <= 65535,
    ensures
        0 <= scaled_duty(max, throttle) <= max,
{
    assert(0 <= max * throttle <= max * 65535) by (nonlinear_arith)
        requires
            0 <= max,
            0 <= throttle <= 65535,
    ;
}

/// Zero throttle gives zero duty, and the largest throttle gives the
/// output's largest duty.
pub proof fn lemma_scaled_duty_ends(max: int)
    requires
        0 <= max,
    ensures
        scaled_duty(max, 0) == 0,
        scaled_duty(max, 65535) == max,
{
    assert(max * 0 == 0) by (nonlinear_arith);
}

/// A larger throttle never gives a smaller duty.
pub proof fn lemma_scaled_duty_monotonic(max: int, low: int, high: int)
    requires
        0 <= max,
        0 <= low <= high <= 65535,
    ensures
        scaled_duty(max, low) <= scaled_duty(max, high),
{
    assert(max * low <= max * high) by (nonlinear_arith)
        requires
            0 <= max,
            low <= high,
    ;
}

/// The scaled duty is the exact quotient `max * throttle / 65535` rounded
/// to the nearest integer: 65535 times the duty differs from
/// `max * throttle` by at most half of 65535, so the duty itself is less
/// than one away from the exact quotient.
pub proof fn lemma_scaled_duty_rounding(max: int, throttle: int)
    requires
        0 <= max,
        0 <= throttle <= 65535,
    ensures
        max * throttle - 32767 <= 65535 * scaled_duty(max, throttle) <= max * throttle + 32768,
        -65535 <= 65535 * scaled_duty(max, throttle) - max * throttle <= 65535,
{
    let x = max * throttle + 32768;
    assert(x == 65535 * (x / 65535) + x % 65535 && 0 <= x % 65535 < 65535) by {
        vstd::arithmetic::div_mod::lemma_fundamental_div_mod(x, 65535);
    }
}

} // verus!
