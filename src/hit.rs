//! Choosing the nearest hit along a ray, and testing a shadow ray for blockers.
use crate::ieee::{Ieee32, INFINITY_BITS};
use vstd::prelude::*;

verus! {

/// A distance that counts as a hit: a finite number without its sign bit set.
/// Misses are reported as negative distances; NaN and infinity, which come
/// from degenerate geometry, are no hits either.
pub open spec fn is_hit(d: Ieee32) -> bool {
    !d.sign_negative() && d.less(Ieee32 { bits: INFINITY_BITS })
}

/// `k` is the selected index of `ds`: a hit that no hit undercuts, and
/// strictly nearer than every hit before it (so ties go to the lowest index).
pub open spec fn is_nearest(ds: Seq<Ieee32>, k: int) -> bool {
    &&& 0 <= k < ds.len()
    &&& is_hit(ds[k])
    &&& forall|j: int| 0 <= j < k && is_hit(#[trigger] ds[j]) ==> ds[k].key() < ds[j].key()
    &&& forall|j: int| k < j < ds.len() && is_hit(#[trigger] ds[j]) ==> ds[k].key() <= ds[j].key()
}

/// No entry of `ds` is a hit.
pub open spec fn all_miss(ds: Seq<Ieee32>) -> bool {
    forall|i: int| 0 <= i < ds.len() ==> !is_hit(#[trigger] ds[i])
}

/// Index of the nearest hit among the distances reported by the spheres of a
/// scene, in scene order, or `None` when no sphere was hit.
pub fn nearest_intersection_index(intersections: &Vec<Ieee32>) -> (r: Option<usize>)
    ensures
        r is None <==> all_miss(intersections@),
        r matches Some(k) ==> is_nearest(intersections@, k as int),
{
    let mut last = Ieee32 { bits: INFINITY_BITS };
    let mut ret_index: Option<usize> = None;
    let mut index: usize = 0;
    while index < intersections.len()
        invariant
            0 <= index <= intersections.len(),
            ret_index is None ==> last.bits == INFINITY_BITS,
            ret_index is None ==> forall|i: int| 0 <= i < index ==> !is_hit(#[trigger] intersections@[i]),
            ret_index matches Some(k) ==> {
                &&& k < index
                &&& last == intersections@[k as int]
                &&& is_hit(last)
                &&& forall|j: int| 0 <= j < k && is_hit(#[trigger] intersections@[j]) ==> last.key() < intersections@[j].key()
                &&& forall|j: int| k < j < index && is_hit(#[trigger] intersections@[j]) ==> last.key() <= intersections@[j].key()
            },
        decreases intersections.len() - index,
    {
        let d = intersections[index];
        if !d.is_sign_negative() && d.lt(&last) {
            last = d;
            ret_index = Some(index);
        }
        index += 1;
    }
    ret_index
}

/// At most one index is the nearest hit.
pub proof fn lemma_nearest_unique(ds: Seq<Ieee32>, k1: int, k2: int)
    requires
        is_nearest(ds, k1),
        is_nearest(ds, k2),
    ensures
        k1 == k2,
{
    if k1 < k2 {
        assert(ds[k2].key() < ds[k1].key());
    } else if k2 < k1 {
        assert(ds[k1].key() < ds[k2].key());
    }
}

/// Of two spheres that report the same hit distance, the one listed later is
/// never the nearest: ties go to the lower index.
pub proof fn lemma_tie_goes_to_lower_index(ds: Seq<Ieee32>, i: int, j: int)
    requires
        0 <= i < j < ds.len(),
        is_hit(ds[i]),
        ds[i].same(ds[j]),
    ensures
        !is_nearest(ds, j),
{
}

/// A shadow-ray distance that lies between the surface point and the light.
pub open spec fn blocks(d: Ieee32, light_distance: Ieee32) -> bool {
    !d.sign_negative() && d.less(light_distance)
}

/// Some sphere reports a distance that blocks the light.
pub open spec fn occluded(ds: Seq<Ieee32>, light_distance: Ieee32) -> bool {
    exists|i: int| 0 <= i < ds.len() && blocks(#[trigger] ds[i], light_distance)
}

/// Whether any of the distances reported by the spheres for a shadow ray
/// falls before the light, which stands `ray_magnitude` away.
pub fn any_sphere_before_light(distances: &Vec<Ieee32>, ray_magnitude: Ieee32) -> (r: bool)
    ensures
        r == occluded(distances@, ray_magnitude),
{
    let mut i: usize = 0;
    while i < distances.len()
        invariant
            0 <= i <= distances.len(),
            forall|j: int| 0 <= j < i ==> !blocks(#[trigger] distances@[j], ray_magnitude),
        decreases distances.len() - i,
    {
        let d = distances[i];
        if !d.is_sign_negative() && d.lt(&ray_magnitude) {
            return true;
        }
        i += 1;
    }
    false
}

} // verus!
