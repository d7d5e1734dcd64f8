//! Which root of the ray–sphere quadratic gives the hit distance.
use crate::ieee::{Ieee32, POSITIVE_ZERO_BITS};
use vstd::prelude::*;

verus! {

/// The case of the discriminant `b² − 4ac` of the ray–sphere quadratic.
#[derive(Clone, Copy, Debug, PartialEq, Eq, Structural)]
pub enum RootCase {
    /// Negative discriminant: the ray misses, distance `-1`.
    Miss,
    /// Zero discriminant: the ray grazes the sphere, distance `-b / 2a`.
    Tangent,
    /// Anything else (positive, or NaN): distance `(-b - √d) / 2a`.
    Secant,
}

pub open spec fn root_case_of(discriminant: Ieee32) -> RootCase {
    let zero = Ieee32 { bits: POSITIVE_ZERO_BITS };
    if discriminant.less(zero) {
        RootCase::Miss
    } else if discriminant.same(zero) {
        RootCase::Tangent
    } else {
        RootCase::Secant
    }
}

/// Classifies a discriminant by IEEE comparison with zero.
pub fn root_case(discriminant: Ieee32) -> (r: RootCase)
    ensures
        r == root_case_of(discriminant),
{
    let zero = Ieee32 { bits: POSITIVE_ZERO_BITS };
    if discriminant.lt(&zero) {
        RootCase::Miss
    } else if discriminant.num_eq(&zero) {
        RootCase::Tangent
    } else {
        RootCase::Secant
    }
}

} // verus!
