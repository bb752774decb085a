//! Bounding-volume-hierarchy construction.
//!
//! The builder works on a list of items, each an opaque geometry identifier
//! together with its bounding box in coordinate-key space, and returns the
//! shape of the hierarchy: which items end up as leaves of which node, and
//! the box stored at every node.  The caller mirrors that shape over its own
//! geometry.  The split policy is the renderer's: pick one of the three axes
//! at random, sort by the boxes' minimum coordinate on that axis, put the
//! first `n / 2 + 1` items in the left subtree and the rest in the right,
//! re-randomizing the axis at every recursive call.

use vstd::prelude::*;
use vstd::seq_lib::lemma_multiset_commutative;
use crate::aabb::AABB;
use crate::aabb::spec_union;
use crate::rng::Rng;
use crate::swap::swap_elems;

verus! {

/// One input to the hierarchy builder: a caller-chosen identifier and the
/// bounding box of the geometry it stands for.
#[derive(Debug, Clone, Copy, PartialEq, Eq, Structural)]
pub struct BvhItem {
    /// The caller's handle for the geometry (an index into its own list).
    pub id: usize,
    /// The geometry's bounding box over coordinate keys.
    pub bbox: AABB,
}

/// The shape of a built hierarchy.
#[derive(Debug)]
pub enum BvhPlan {
    /// The bound of zero items: an empty geometry list.
    EmptyList,
    /// A single input item, returned unwrapped.
    Leaf { id: usize, bbox: AABB },
    /// An inner node: its box and its two subtrees.
    Node { bbox: AABB, left: Box<BvhPlan>, right: Box<BvhPlan> },
}

/// The bounding box a plan reports: the stored box of a node or leaf, and
/// the empty sentinel for the empty list.
pub open spec fn plan_box(p: BvhPlan) -> AABB {
    match p {
        BvhPlan::EmptyList => AABB::Missing,
        BvhPlan::Leaf { bbox, .. } => bbox,
        BvhPlan::Node { bbox, .. } => bbox,
    }
}

/// All leaves beneath a plan, left to right.
pub open spec fn leaves(p: BvhPlan) -> Seq<BvhItem>
    decreases p,
{
    match p {
        BvhPlan::EmptyList => Seq::empty(),
        BvhPlan::Leaf { id, bbox } => seq![BvhItem { id, bbox }],
        BvhPlan::Node { left, right, .. } => leaves(*left) + leaves(*right),
    }
}

/// The union of the boxes of all leaves beneath a plan.
pub open spec fn leaves_box(p: BvhPlan) -> AABB
    decreases p,
{
    match p {
        BvhPlan::EmptyList => AABB::Missing,
        BvhPlan::Leaf { bbox, .. } => bbox,
        BvhPlan::Node { left, right, .. } => spec_union(leaves_box(*left), leaves_box(*right)),
    }
}

/// Well-formedness of a plan: every node's stored box is the union of its
/// children's boxes.
pub open spec fn plan_wf(p: BvhPlan) -> bool
    decreases p,
{
    match p {
        BvhPlan::EmptyList => true,
        BvhPlan::Leaf { .. } => true,
        BvhPlan::Node { bbox, left, right } => {
            &&& bbox == spec_union(plan_box(*left), plan_box(*right))
            &&& plan_wf(*left)
            &&& plan_wf(*right)
        },
    }
}

/// In a well-formed plan, the box of every node equals the union of the
/// bounding boxes of all leaves beneath it.  (The lemma states this for the
/// root; since well-formedness descends to every subtree, applying it to a
/// subtree gives the claim for any node.)
pub proof fn lemma_plan_box_is_leaves_union(p: BvhPlan)
    requires
        plan_wf(p),
    ensures
        plan_box(p) == leaves_box(p),
    decreases p,
{
    match p {
        BvhPlan::Node { left, right, .. } => {
            lemma_plan_box_is_leaves_union(*left);
            lemma_plan_box_is_leaves_union(*right);
        },
        _ => {},
    }
}

/// The sort key of a box on an axis: its minimum coordinate there.
pub open spec fn axis_key(b: AABB, axis: u32) -> i64 {
    match b {
        AABB::BBox { min, .. } => if axis == 0 {
            min.x
        } else if axis == 1 {
            min.y
        } else {
            min.z
        },
        AABB::Missing => 0,
    }
}

/// The sort order of the builder: `a` comes strictly before `b` when both
/// boxes are present and `a`'s key on the axis is smaller.  Items without a
/// box never compare strictly, so they keep their relative places.
pub open spec fn sorts_before(a: BvhItem, b: BvhItem, axis: u32) -> bool {
    &&& a.bbox is BBox
    &&& b.bbox is BBox
    &&& axis_key(a.bbox, axis) < axis_key(b.bbox, axis)
}

/// No adjacent pair of the sequence is inverted under the sort order.
pub open spec fn adjacent_ordered(s: Seq<BvhItem>, axis: u32) -> bool {
    forall|k: int| 0 < k < s.len() ==> !#[trigger] sorts_before(s[k], s[k - 1], axis)
}

fn before(a: &BvhItem, b: &BvhItem, axis: u32) -> (r: bool)
    ensures
        r == sorts_before(*a, *b, axis),
{
    match (&a.bbox, &b.bbox) {
        (AABB::BBox { min: min1, .. }, AABB::BBox { min: min2, .. }) => {
            let ka: i64 = if axis == 0 {
                min1.x
            } else if axis == 1 {
                min1.y
            } else {
                min1.z
            };
            let kb: i64 = if axis == 0 {
                min2.x
            } else if axis == 1 {
                min2.y
            } else {
                min2.z
            };
            ka < kb
        },
        _ => false,
    }
}

/// Stable insertion sort of the items by their key on the given axis.
pub fn sort_by_axis(v: &mut Vec<BvhItem>, axis: u32)
    ensures
        final(v)@.len() == old(v)@.len(),
        final(v)@.to_multiset() == old(v)@.to_multiset(),
        adjacent_ordered(final(v)@, axis),
{
    let n: usize = v.len();
    let mut i: usize = 1;
    while i < n
        invariant
            n == v@.len(),
            v@.to_multiset() == old(v)@.to_multiset(),
            1 <= i,
            forall|k: int| 0 < k < i ==> !#[trigger] sorts_before(v@[k], v@[k - 1], axis),
        decreases n - i,
    {
        let mut j: usize = i;
        while j > 0 && before(&v[j], &v[j - 1], axis)
            invariant
                n == v@.len(),
                v@.to_multiset() == old(v)@.to_multiset(),
                j <= i < n,
                forall|k: int|
                    0 < k <= i && k != j ==> !#[trigger] sorts_before(v@[k], v@[k - 1], axis),
                j < i ==> (j == 0 || !sorts_before(v@[j + 1], v@[j - 1], axis)),
            decreases j,
        {
            let ghost pre = v@;
            swap_elems(v, j - 1, j);
            proof {
                assert(v@[j as int] == pre[j - 1]);
                assert(v@[j - 1] == pre[j as int]);
                assert(forall|k: int|
                    0 <= k < n && k != j && k != j - 1 ==> v@[k] == pre[k]);
            }
            j = j - 1;
        }
        i = i + 1;
    }
}

fn plan_bbox(p: &BvhPlan) -> (b: AABB)
    ensures
        b == plan_box(*p),
{
    match p {
        BvhPlan::EmptyList => AABB::Missing,
        BvhPlan::Leaf { bbox, .. } => *bbox,
        BvhPlan::Node { bbox, .. } => *bbox,
    }
}

/// Build the hierarchy over a list of items.
///
/// The returned plan is well-formed (every node's box is the union of its
/// children's boxes) and its leaves are exactly the input items.  Zero items
/// give the empty list; one item is returned unwrapped as a leaf; two items
/// become two leaves under one node; more are split after sorting, with the
/// first `n / 2 + 1` items on the left.
pub fn bvh_node(children: Vec<BvhItem>, rng: &mut Rng) -> (p: BvhPlan)
    requires
        old(rng).inv(),
    ensures
        final(rng).inv(),
        plan_wf(p),
        leaves(p).to_multiset() == children@.to_multiset(),
    decreases children@.len(),
{
    let mut items = children;
    let axis: u32 = rng.below(3);
    sort_by_axis(&mut items, axis);
    let n: usize = items.len();
    if n == 0 {
        proof {
            assert(items@ =~= Seq::<BvhItem>::empty());
            assert(leaves(BvhPlan::EmptyList) =~= Seq::<BvhItem>::empty());
        }
        return BvhPlan::EmptyList;
    }
    if n == 1 {
        let it: BvhItem = items[0];
        proof {
            assert(items@ =~= seq![it]);
        }
        return BvhPlan::Leaf { id: it.id, bbox: it.bbox };
    }
    if n == 2 {
        let l: BvhItem = items[0];
        let r: BvhItem = items[1];
        let bbox: AABB = AABB::bound_boxes(l.bbox, r.bbox);
        let p = BvhPlan::Node {
            bbox,
            left: Box::new(BvhPlan::Leaf { id: l.id, bbox: l.bbox }),
            right: Box::new(BvhPlan::Leaf { id: r.id, bbox: r.bbox }),
        };
        proof {
            reveal_with_fuel(leaves, 2);
            reveal_with_fuel(plan_wf, 2);
            assert(leaves(p) =~= items@);
        }
        return p;
    }
    let mid: usize = n / 2 + 1;
    let mut left_items: Vec<BvhItem> = Vec::new();
    let mut right_items: Vec<BvhItem> = Vec::new();
    let mut a: usize = 0;
    while a < mid
        invariant
            mid <= n == items@.len(),
            a <= mid,
            left_items@ == items@.subrange(0, a as int),
        decreases mid - a,
    {
        left_items.push(items[a]);
        proof {
            assert(left_items@ =~= items@.subrange(0, a + 1));
        }
        a = a + 1;
    }
    let mut b: usize = mid;
    while b < n
        invariant
            mid <= b <= n == items@.len(),
            right_items@ == items@.subrange(mid as int, b as int),
        decreases n - b,
    {
        right_items.push(items[b]);
        proof {
            assert(right_items@ =~= items@.subrange(mid as int, b + 1));
        }
        b = b + 1;
    }
    proof {
        assert(left_items@ + right_items@ =~= items@);
    }
    let ghost left_seq = left_items@;
    let ghost right_seq = right_items@;
    let left_plan = bvh_node(left_items, rng);
    let right_plan = bvh_node(right_items, rng);
    let ghost lp = left_plan;
    let ghost rp = right_plan;
    let bbox: AABB = AABB::bound_boxes(plan_bbox(&left_plan), plan_bbox(&right_plan));
    let p = BvhPlan::Node { bbox, left: Box::new(left_plan), right: Box::new(right_plan) };
    proof {
        assert(leaves(p) == leaves(lp) + leaves(rp));
        lemma_multiset_commutative(leaves(lp), leaves(rp));
        lemma_multiset_commutative(left_seq, right_seq);
        assert(leaves(p).to_multiset() =~= children@.to_multiset());
    }
    p
}

} // verus!
