//! Shadowing and Lambertian shading of a surface point.
use crate::hit::{any_sphere_before_light, blocks, occluded};
use crate::ieee::{Ieee32, POSITIVE_ZERO_BITS};
use vstd::prelude::*;

verus! {

/// How a surface point is lit.
#[derive(Clone, Copy, Debug, PartialEq, Eq, Structural)]
pub enum Shade {
    /// Occluded, or facing away from the light: intensity 0.
    Dark,
    /// Reached by the light at this cosine between the shadow ray and the
    /// surface normal; the intensity is the cosine scaled to 255.
    Lit(Ieee32),
}

/// The shade of a point whose shadow ray meets the spheres at `distances`,
/// with the light `light_distance` away and the given cosine.
pub open spec fn shade_of(distances: Seq<Ieee32>, light_distance: Ieee32, cosine: Ieee32) -> Shade {
    if occluded(distances, light_distance) || cosine.sign_negative() {
        Shade::Dark
    } else {
        Shade::Lit(cosine)
    }
}

/// Shades a surface point. `distances` are what each sphere of the scene
/// reports for the shadow ray toward the light, `light_distance` is the
/// length of that ray, and `cosine` is the dot product of its unit direction
/// with the surface normal.
pub fn get_color_at(distances: &Vec<Ieee32>, light_distance: Ieee32, cosine: Ieee32) -> (r: Shade)
    ensures
        r == shade_of(distances@, light_distance, cosine),
{
    if any_sphere_before_light(distances, light_distance) {
        return Shade::Dark;
    }
    if cosine.is_sign_positive() {
        Shade::Lit(cosine)
    } else {
        Shade::Dark
    }
}

/// A sphere between the point and the light leaves the point dark, whatever
/// the cosine.
pub proof fn lemma_occluder_darkens(distances: Seq<Ieee32>, light_distance: Ieee32, cosine: Ieee32, i: int)
    requires
        0 <= i < distances.len(),
        blocks(distances[i], light_distance),
    ensures
        shade_of(distances, light_distance, cosine) == Shade::Dark,
{
    assert(occluded(distances, light_distance));
}

/// A normal facing away from the light (negative cosine) gives a dark point.
pub proof fn lemma_facing_away_is_dark(distances: Seq<Ieee32>, light_distance: Ieee32, cosine: Ieee32)
    requires
        cosine.less(Ieee32 { bits: POSITIVE_ZERO_BITS }),
    ensures
        shade_of(distances, light_distance, cosine) == Shade::Dark,
{
}

/// A lit point always carries a cosine that is not below zero.
pub proof fn lemma_lit_cosine_not_negative(distances: Seq<Ieee32>, light_distance: Ieee32, cosine: Ieee32)
    requires
        shade_of(distances, light_distance, cosine) is Lit,
    ensures
        !cosine.less(Ieee32 { bits: POSITIVE_ZERO_BITS }),
        !occluded(distances, light_distance),
{
}

} // verus!
