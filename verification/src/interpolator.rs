use vstd::prelude::*;

verus! {

/// The exponential-smoothing step: the position moves toward the target by
/// the fraction `num / den` of the remaining distance, rounded toward the
/// position. Distances are non-negative by construction, so the division
/// is on non-negative values.
pub open spec fn spec_interpolated(position: i64, target: i64, num: u32, den: u32) -> int
    recommends
        den > 0,
{
    if target >= position {
        position + ((target - position) * num) / (den as int)
    } else {
        position - ((position - target) * num) / (den as int)
    }
}

/// Move a position one smoothing step toward a target.
///
/// `num / den` is this tick's smoothing fraction (elapsed seconds times
/// the smoothing factor, as a ratio at most one). The result never
/// overshoots the target, and with a fraction strictly below one it never
/// reaches it either: the motion converges asymptotically.
pub fn interpolate(position: i64, target: i64, num: u32, den: u32) -> (r: i64)
    requires
        den > 0,
        num <= den,
    ensures
        r == spec_interpolated(position, target, num, den),
        position <= target ==> position <= r <= target,
        target <= position ==> target <= r <= position,
        num < den && position != target ==> r != target,
{
    if target >= position {
        let dist: u64 = (target as i128 - position as i128) as u64;
        proof {
            assert((dist as int) * (num as int) <= (u64::MAX as int) * (u32::MAX as int))
                by (nonlinear_arith)
                requires
                    dist <= u64::MAX,
                    num <= u32::MAX,
            ;
        }
        let scaled: u128 = (dist as u128) * (num as u128);
        let step: u128 = scaled / (den as u128);
        proof {
            assert(step <= dist) by (nonlinear_arith)
                requires
                    step == ((dist as int) * (num as int)) / (den as int),
                    num <= den,
                    0 < den,
            ;
            if num < den && dist > 0 {
                assert(step < dist) by (nonlinear_arith)
                    requires
                        step == ((dist as int) * (num as int)) / (den as int),
                        num < den,
                        0 < den,
                        0 < dist,
                ;
            }
        }
        ((position as i128) + (step as i128)) as i64
    } else {
        let dist: u64 = (position as i128 - target as i128) as u64;
        proof {
            assert((dist as int) * (num as int) <= (u64::MAX as int) * (u32::MAX as int))
                by (nonlinear_arith)
                requires
                    dist <= u64::MAX,
                    num <= u32::MAX,
            ;
        }
        let scaled: u128 = (dist as u128) * (num as u128);
        let step: u128 = scaled / (den as u128);
        proof {
            assert(step <= dist) by (nonlinear_arith)
                requires
                    step == ((dist as int) * (num as int)) / (den as int),
                    num <= den,
                    0 < den,
            ;
            if num < den {
                assert(step < dist) by (nonlinear_arith)
                    requires
                        step == ((dist as int) * (num as int)) / (den as int),
                        num < den,
                        0 < den,
                        0 < dist,
                ;
            }
        }
        ((position as i128) - (step as i128)) as i64
    }
}

} // verus!
