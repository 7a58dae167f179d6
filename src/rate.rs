//! Fixed-point angular rates and the degree to radian conversion.
use vstd::prelude::*;

verus! {

/// Radians per degree (pi / 180), in units of 10^-9.
pub const DEG_TO_RAD_NANO: i64 = 17_453_293;

/// A rate in micro-degrees per second converted to radians per second,
/// counted in units of 10^-15 rad/s (10^-6 from the input scale times
/// 10^-9 from the conversion constant).
pub open spec fn rad_of(micro_deg: int) -> int {
    micro_deg * DEG_TO_RAD_NANO
}

/// Converts a rate in micro-degrees per second into radians per second,
/// in units of 10^-15 rad/s. The conversion is exact: no rounding.
pub fn deg_to_rad(micro_deg: i32) -> (r: i64)
    ensures
        r == rad_of(micro_deg as int),
{
    proof {
        let d = micro_deg as int;
        assert(-2147483648 * 17453293 <= d * 17453293 <= 2147483647 * 17453293) by (nonlinear_arith)
            requires
                -2147483648 <= d <= 2147483647,
        ;
    }
    micro_deg as i64 * DEG_TO_RAD_NANO
}

} // verus!
