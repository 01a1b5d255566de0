//! Bounds calculation for the graph canvas.
//!
//! Derives a viewport `(min_x, max_x, min_y, max_y)` from a node set: the
//! tight bounding box over every node rectangle, padded by a tenth of the
//! range but at least 5 units on each side, then re-centered to at least a
//! 20-unit range on each axis.  An empty node set yields the fixed default
//! viewport.

use vstd::prelude::*;
use crate::canvas::graph::GraphNode;
use crate::fixed::{div_q, div_trunc};

verus! {

/// Default viewport for an empty node set: 0 to 100 units on both axes.
pub const EMPTY_BOUND: i64 = 100_000;

/// Minimum padding on each side of the bounding box: 5 units.
pub const MIN_PADDING: i64 = 5_000;

/// Minimum viewport range on each axis: 20 units.
pub const MIN_RANGE: i64 = 20_000;

/// Smallest x coordinate over the node rectangles.
pub open spec fn spec_min_x(nodes: Seq<GraphNode>) -> int
    recommends
        nodes.len() > 0,
    decreases nodes.len(),
{
    if nodes.len() <= 1 {
        nodes[0].x as int
    } else {
        let rest = spec_min_x(nodes.drop_last());
        if nodes.last().x < rest {
            nodes.last().x as int
        } else {
            rest
        }
    }
}

/// Largest right edge (x plus width) over the node rectangles.
pub open spec fn spec_max_x(nodes: Seq<GraphNode>) -> int
    recommends
        nodes.len() > 0,
    decreases nodes.len(),
{
    if nodes.len() <= 1 {
        nodes[0].x + nodes[0].width
    } else {
        let rest = spec_max_x(nodes.drop_last());
        if nodes.last().x + nodes.last().width > rest {
            nodes.last().x + nodes.last().width
        } else {
            rest
        }
    }
}

/// Smallest y coordinate over the node rectangles.
pub open spec fn spec_min_y(nodes: Seq<GraphNode>) -> int
    recommends
        nodes.len() > 0,
    decreases nodes.len(),
{
    if nodes.len() <= 1 {
        nodes[0].y as int
    } else {
        let rest = spec_min_y(nodes.drop_last());
        if nodes.last().y < rest {
            nodes.last().y as int
        } else {
            rest
        }
    }
}

/// Largest bottom edge (y plus height) over the node rectangles.
pub open spec fn spec_max_y(nodes: Seq<GraphNode>) -> int
    recommends
        nodes.len() > 0,
    decreases nodes.len(),
{
    if nodes.len() <= 1 {
        nodes[0].y + nodes[0].height
    } else {
        let rest = spec_max_y(nodes.drop_last());
        if nodes.last().y + nodes.last().height > rest {
            nodes.last().y + nodes.last().height
        } else {
            rest
        }
    }
}

/// Pads one axis and enforces the minimum range: the raw interval grows by
/// a tenth of its range but at least `MIN_PADDING` on each side; an
/// interval still narrower than `MIN_RANGE` is re-centered to exactly
/// `MIN_RANGE` around its midpoint.
pub open spec fn spec_pad_axis(lo: int, hi: int) -> (int, int) {
    let range = hi - lo;
    let tenth = div_trunc(range, 10);
    let pad = if tenth > MIN_PADDING {
        tenth
    } else {
        MIN_PADDING as int
    };
    let lo1 = lo - pad;
    let hi1 = hi + pad;
    if hi1 - lo1 < MIN_RANGE {
        let center = div_trunc(lo1 + hi1, 2);
        (center - MIN_RANGE / 2, center + MIN_RANGE / 2)
    } else {
        (lo1, hi1)
    }
}

/// The viewport derived from a node set.
pub open spec fn spec_calculate_bounds(nodes: Seq<GraphNode>) -> (int, int, int, int) {
    if nodes.len() == 0 {
        (0, EMPTY_BOUND as int, 0, EMPTY_BOUND as int)
    } else {
        let x = spec_pad_axis(spec_min_x(nodes), spec_max_x(nodes));
        let y = spec_pad_axis(spec_min_y(nodes), spec_max_y(nodes));
        (x.0, x.1, y.0, y.1)
    }
}

/// The raw bounding box covers every node rectangle, and its corners stay
/// inside the well-formed coordinate range.
pub proof fn lemma_raw_bounds_cover(nodes: Seq<GraphNode>)
    requires
        nodes.len() > 0,
        forall|i: int| 0 <= i < nodes.len() ==> nodes[i].wf(),
    ensures
        forall|i: int| 0 <= i < nodes.len() ==> spec_min_x(nodes) <= #[trigger] nodes[i].x,
        forall|i: int|
            0 <= i < nodes.len() ==> #[trigger] nodes[i].x + nodes[i].width <= spec_max_x(nodes),
        forall|i: int| 0 <= i < nodes.len() ==> spec_min_y(nodes) <= #[trigger] nodes[i].y,
        forall|i: int|
            0 <= i < nodes.len() ==> #[trigger] nodes[i].y + nodes[i].height <= spec_max_y(nodes),
        -(crate::canvas::graph::MAX_COORD as int) <= spec_min_x(nodes),
        spec_max_x(nodes) <= crate::canvas::graph::MAX_COORD as int,
        -(crate::canvas::graph::MAX_COORD as int) <= spec_min_y(nodes),
        spec_max_y(nodes) <= crate::canvas::graph::MAX_COORD as int,
        spec_min_x(nodes) <= spec_max_x(nodes),
        spec_min_y(nodes) <= spec_max_y(nodes),
    decreases nodes.len(),
{
    if nodes.len() > 1 {
        lemma_raw_bounds_cover(nodes.drop_last());
        assert(forall|i: int|
            0 <= i < nodes.len() - 1 ==> nodes.drop_last()[i] == #[trigger] nodes[i]);
    }
}

/// Padding one axis yields an interval of at least the minimum range that
/// keeps at least the minimum padding on each side of the raw interval.
pub proof fn lemma_pad_axis_cover(lo: int, hi: int)
    requires
        lo <= hi,
    ensures
        spec_pad_axis(lo, hi).1 - spec_pad_axis(lo, hi).0 >= MIN_RANGE,
        spec_pad_axis(lo, hi).0 <= lo - MIN_PADDING,
        hi + MIN_PADDING <= spec_pad_axis(lo, hi).1,
{
    let range = hi - lo;
    let tenth = div_trunc(range, 10);
    vstd::arithmetic::div_mod::lemma_div_pos_is_pos(range, 10);
    let pad = if tenth > MIN_PADDING {
        tenth
    } else {
        MIN_PADDING as int
    };
    let lo1 = lo - pad;
    let hi1 = hi + pad;
    if hi1 - lo1 < MIN_RANGE {
        crate::fixed::lemma_div_trunc_half(lo1 + hi1);
    }
}

/// The calculated viewport strictly contains every node rectangle, with at
/// least the minimum padding around it, and spans at least the minimum
/// range on each axis.
pub proof fn lemma_bounds_cover(nodes: Seq<GraphNode>)
    requires
        nodes.len() > 0,
        forall|i: int| 0 <= i < nodes.len() ==> #[trigger] nodes[i].wf(),
    ensures
        spec_calculate_bounds(nodes).1 - spec_calculate_bounds(nodes).0 >= MIN_RANGE,
        spec_calculate_bounds(nodes).3 - spec_calculate_bounds(nodes).2 >= MIN_RANGE,
        forall|i: int|
            0 <= i < nodes.len() ==> spec_calculate_bounds(nodes).0 < #[trigger] nodes[i].x,
        forall|i: int|
            0 <= i < nodes.len() ==> #[trigger] nodes[i].x + nodes[i].width
                < spec_calculate_bounds(nodes).1,
        forall|i: int|
            0 <= i < nodes.len() ==> spec_calculate_bounds(nodes).2 < #[trigger] nodes[i].y,
        forall|i: int|
            0 <= i < nodes.len() ==> #[trigger] nodes[i].y + nodes[i].height
                < spec_calculate_bounds(nodes).3,
{
    lemma_raw_bounds_cover(nodes);
    lemma_pad_axis_cover(spec_min_x(nodes), spec_max_x(nodes));
    lemma_pad_axis_cover(spec_min_y(nodes), spec_max_y(nodes));
}

/// Calculate canvas bounds from node positions.
///
/// Returns `(min_x, max_x, min_y, max_y)`: the tight bounding box over all
/// node rectangles, padded by a tenth of the range but at least 5 units on
/// each side, then widened to at least a 20-unit range per axis.  An empty
/// slice yields the default viewport.
pub fn calculate_bounds(nodes: &[GraphNode]) -> (r: (i64, i64, i64, i64))
    requires
        forall|i: int| 0 <= i < nodes@.len() ==> nodes@[i].wf(),
    ensures
        (r.0 as int, r.1 as int, r.2 as int, r.3 as int) == spec_calculate_bounds(nodes@),
{
    if nodes.len() == 0 {
        return (0, EMPTY_BOUND, 0, EMPTY_BOUND);
    }
    proof {
        lemma_raw_bounds_cover(nodes@);
    }
    let mut min_x = nodes[0].x;
    let mut max_x = nodes[0].x + nodes[0].width;
    let mut min_y = nodes[0].y;
    let mut max_y = nodes[0].y + nodes[0].height;
    let n = nodes.len();
    let mut i: usize = 1;
    while i < n
        invariant
            1 <= i <= n,
            n == nodes@.len(),
            forall|k: int| 0 <= k < n ==> nodes@[k].wf(),
            min_x as int == spec_min_x(nodes@.take(i as int)),
            max_x as int == spec_max_x(nodes@.take(i as int)),
            min_y as int == spec_min_y(nodes@.take(i as int)),
            max_y as int == spec_max_y(nodes@.take(i as int)),
        decreases n - i,
    {
        proof {
            assert(nodes@.take(i + 1int).drop_last() =~= nodes@.take(i as int));
            assert(nodes@.take(i + 1int).last() == nodes@[i as int]);
            lemma_raw_bounds_cover(nodes@.take(i as int));
        }
        let node = &nodes[i];
        if node.x < min_x {
            min_x = node.x;
        }
        if node.x + node.width > max_x {
            max_x = node.x + node.width;
        }
        if node.y < min_y {
            min_y = node.y;
        }
        if node.y + node.height > max_y {
            max_y = node.y + node.height;
        }
        i += 1;
    }
    proof {
        assert(nodes@.take(n as int) =~= nodes@);
    }
    let (min_x, max_x) = pad_axis(min_x, max_x);
    let (min_y, max_y) = pad_axis(min_y, max_y);
    (min_x, max_x, min_y, max_y)
}

/// Pad one axis and enforce the minimum range.
fn pad_axis(lo: i64, hi: i64) -> (r: (i64, i64))
    requires
        -(crate::canvas::graph::MAX_COORD as int) <= lo <= hi <= crate::canvas::graph::MAX_COORD,
    ensures
        (r.0 as int, r.1 as int) == spec_pad_axis(lo as int, hi as int),
{
    let range = hi - lo;
    let tenth = div_q(range, 10);
    let pad = if tenth > MIN_PADDING {
        tenth
    } else {
        MIN_PADDING
    };
    let lo1 = lo - pad;
    let hi1 = hi + pad;
    if hi1 - lo1 < MIN_RANGE {
        let center = div_q(lo1 + hi1, 2);
        (center - MIN_RANGE / 2, center + MIN_RANGE / 2)
    } else {
        (lo1, hi1)
    }
}

} // verus!
