//! Axis-aligned bounding boxes over coordinate keys.
//!
//! The hierarchy builder never does arithmetic on scene coordinates: it only
//! compares them.  Callers therefore encode each coordinate as a 64-bit
//! signed key through any order-preserving map of their coordinate space,
//! and boxes here are made of such keys.  Taking componentwise minima and
//! maxima of keys then agrees with doing so on the coordinates themselves.

use vstd::prelude::*;

verus! {

/// A point in coordinate-key space: one key per axis.
#[derive(Debug, Clone, Copy, PartialEq, Eq, Structural)]
pub struct Key3 {
    pub x: i64,
    pub y: i64,
    pub z: i64,
}

/// A bounding box that exists, or the empty-set sentinel.
#[derive(Debug, Clone, Copy, PartialEq, Eq, Structural)]
pub enum AABB {
    /// A box spanning `min` to `max` componentwise.
    BBox { min: Key3, max: Key3 },
    /// No box: the bound of an empty collection of geometry.
    Missing,
}

/// The smaller of two coordinate keys.
pub open spec fn min_key(a: i64, b: i64) -> i64 {
    if a < b {
        a
    } else {
        b
    }
}

/// The larger of two coordinate keys.
pub open spec fn max_key(a: i64, b: i64) -> i64 {
    if a > b {
        a
    } else {
        b
    }
}

/// The bound around two boxes: `Missing` is the identity, and two present
/// boxes combine componentwise by `min_key` / `max_key`.
pub open spec fn spec_union(box1: AABB, box2: AABB) -> AABB {
    match (box1, box2) {
        (AABB::BBox { min: min1, max: max1 }, AABB::BBox { min: min2, max: max2 }) => AABB::BBox {
            min: Key3 {
                x: min_key(min1.x, min2.x),
                y: min_key(min1.y, min2.y),
                z: min_key(min1.z, min2.z),
            },
            max: Key3 {
                x: max_key(max1.x, max2.x),
                y: max_key(max1.y, max2.y),
                z: max_key(max1.z, max2.z),
            },
        },
        (AABB::BBox { .. }, _) => box1,
        _ => box2,
    }
}

impl AABB {
    /// Create a new bounding box.
    pub fn new(min: Key3, max: Key3) -> (r: AABB)
        ensures
            r == (AABB::BBox { min, max }),
    {
        AABB::BBox { min, max }
    }

    /// Find the bounding box around two boxes.
    pub fn bound_boxes(box1: AABB, box2: AABB) -> (r: AABB)
        ensures
            r == spec_union(box1, box2),
    {
        match (box1, box2) {
            (AABB::BBox { min: min1, max: max1 }, AABB::BBox { min: min2, max: max2 }) => AABB::new(
                Key3 {
                    x: fmin(min1.x, min2.x),
                    y: fmin(min1.y, min2.y),
                    z: fmin(min1.z, min2.z),
                },
                Key3 {
                    x: fmax(max1.x, max2.x),
                    y: fmax(max1.y, max2.y),
                    z: fmax(max1.z, max2.z),
                },
            ),
            (AABB::BBox { .. }, _) => box1,
            _ => box2,
        }
    }
}

/// `Missing` is the identity of the union, on either side.
pub proof fn lemma_union_missing_identity(a: AABB)
    ensures
        spec_union(a, AABB::Missing) == a,
        spec_union(AABB::Missing, a) == a,
        spec_union(AABB::Missing, AABB::Missing) == AABB::Missing,
{
}

/// The union of two boxes does not depend on their order.
pub proof fn lemma_union_commutative(a: AABB, b: AABB)
    ensures
        spec_union(a, b) == spec_union(b, a),
{
}

fn fmin(a: i64, b: i64) -> (r: i64)
    ensures
        r == min_key(a, b),
{
    if a < b {
        a
    } else {
        b
    }
}

fn fmax(a: i64, b: i64) -> (r: i64)
    ensures
        r == max_key(a, b),
{
    if a > b {
        a
    } else {
        b
    }
}

} // verus!
