//! Edge rendering: inset lines between node centers with arrow heads.
//!
//! An edge connects the centers of its two endpoint rectangles.  The drawn
//! segment is inset from each center so the line stops near the node body,
//! an arrow-head triangle marks the destination end, and a labeled edge
//! gets a midpoint marker.  An edge whose endpoint is missing from the node
//! set, or whose endpoints coincide, draws nothing.

use vstd::prelude::*;
use crate::canvas::graph::{find_node_in, spec_find_node, GraphEdge, GraphNode, MAX_COORD};
use crate::canvas::node::calculate_node_center;
use crate::color::Color;
use crate::draw::DrawCmd;
use crate::fixed::{
    div_q,
    div_trunc,
    isqrt,
    lemma_component_bound,
    lemma_div_trunc_bound,
    lemma_mul_bound_signed,
    lemma_square_bound,
    lemma_square_pos,
    sqrt_floor,
    UNIT,
};

verus! {

/// Gap between a node center and the drawn edge endpoint: 2 units.
pub const EDGE_INSET: i64 = 2_000;

/// Size of the arrow head: 1.5 units.
pub const ARROW_SIZE: i64 = 1_500;

/// Base points of the arrow-head triangle for a tip at `(tip_x, tip_y)`,
/// a direction vector `(ux, uy)` scaled by [`UNIT`], and an arrow of the
/// given size: the tip moved back along the direction and offset by half
/// the size along the perpendicular, to either side.
pub open spec fn spec_arrow_points(tip_x: int, tip_y: int, ux: int, uy: int, size: int) -> (
    (int, int),
    (int, int),
) {
    let ax = div_trunc(size * ux, UNIT as int);
    let ay = div_trunc(size * uy, UNIT as int);
    let px = div_trunc(size * uy, 2 * UNIT as int);
    let py = div_trunc(size * ux, 2 * UNIT as int);
    ((tip_x - ax + px, tip_y - ay - py), (tip_x - ax - px, tip_y - ay + py))
}

/// Calculate arrow head geometry.
///
/// Returns the two base points of the arrow-head triangle whose tip is at
/// `(tip_x, tip_y)`, for a direction vector `(ux, uy)` scaled by [`UNIT`]
/// and an arrow of the given size.
pub fn calculate_arrow_points(tip_x: i64, tip_y: i64, ux: i64, uy: i64, size: i64) -> (r: (
    (i64, i64),
    (i64, i64),
))
    requires
        -(UNIT as int) <= ux <= UNIT as int,
        -(UNIT as int) <= uy <= UNIT as int,
        0 <= size <= 1_000_000_000,
        -2_100_000_000 <= tip_x <= 2_100_000_000,
        -2_100_000_000 <= tip_y <= 2_100_000_000,
    ensures
        ((r.0.0 as int, r.0.1 as int), (r.1.0 as int, r.1.1 as int)) == spec_arrow_points(
            tip_x as int,
            tip_y as int,
            ux as int,
            uy as int,
            size as int,
        ),
{
    proof {
        lemma_mul_bound_signed(size as int, size as int, ux as int, UNIT as int);
        lemma_mul_bound_signed(size as int, size as int, uy as int, UNIT as int);
        vstd::arithmetic::mul::lemma_mul_is_commutative(size as int, UNIT as int);
        lemma_div_trunc_bound(size as int * ux as int, UNIT as int, size as int);
        lemma_div_trunc_bound(size as int * uy as int, UNIT as int, size as int);
        vstd::arithmetic::mul::lemma_mul_is_associative(2, UNIT as int, size as int);
        lemma_div_trunc_bound(size as int * ux as int, 2 * UNIT as int, size as int);
        lemma_div_trunc_bound(size as int * uy as int, 2 * UNIT as int, size as int);
    }
    let ax = div_q(size * ux, UNIT);
    let ay = div_q(size * uy, UNIT);
    let px = div_q(size * uy, 2 * UNIT);
    let py = div_q(size * ux, 2 * UNIT);
    ((tip_x - ax + px, tip_y - ay - py), (tip_x - ax - px, tip_y - ay + py))
}

/// Everything drawn for an edge from node `f` to node `t` with distinct
/// centers: the inset main line, the three sides of the arrow-head
/// triangle at the destination end, and, for a labeled edge, a point at
/// the midpoint of the drawn segment.
pub open spec fn spec_edge_draw(f: GraphNode, t: GraphNode, color: Color, labeled: bool) -> Seq<
    DrawCmd,
> {
    let x1 = f.center_x();
    let y1 = f.center_y();
    let x2 = t.center_x();
    let y2 = t.center_y();
    let dx = x2 - x1;
    let dy = y2 - y1;
    let len = sqrt_floor(dx * dx + dy * dy);
    let ux = div_trunc(dx * UNIT, len);
    let uy = div_trunc(dy * UNIT, len);
    let inset_x = div_trunc(EDGE_INSET * ux, UNIT as int);
    let inset_y = div_trunc(EDGE_INSET * uy, UNIT as int);
    let sx = x1 + inset_x;
    let sy = y1 + inset_y;
    let ex = x2 - inset_x;
    let ey = y2 - inset_y;
    let bases = spec_arrow_points(ex, ey, ux, uy, ARROW_SIZE as int);
    let lines = seq![
        DrawCmd::Line { x1: sx as i64, y1: sy as i64, x2: ex as i64, y2: ey as i64, color },
        DrawCmd::Line {
            x1: ex as i64,
            y1: ey as i64,
            x2: bases.0.0 as i64,
            y2: bases.0.1 as i64,
            color,
        },
        DrawCmd::Line {
            x1: ex as i64,
            y1: ey as i64,
            x2: bases.1.0 as i64,
            y2: bases.1.1 as i64,
            color,
        },
        DrawCmd::Line {
            x1: bases.0.0 as i64,
            y1: bases.0.1 as i64,
            x2: bases.1.0 as i64,
            y2: bases.1.1 as i64,
            color,
        },
    ];
    if labeled {
        lines.push(
            DrawCmd::Point {
                x: div_trunc(sx + ex, 2) as i64,
                y: div_trunc(sy + ey, 2) as i64,
                color,
            },
        )
    } else {
        lines
    }
}

/// Everything drawn for one edge against a node set: nothing when either
/// endpoint id is absent or the endpoint centers coincide, the full edge
/// drawing otherwise.
pub open spec fn spec_render_edge(e: GraphEdge, nodes: Seq<GraphNode>) -> Seq<DrawCmd> {
    match (spec_find_node(nodes, e.from@), spec_find_node(nodes, e.to@)) {
        (Some(i), Some(j)) => {
            let f = nodes[i];
            let t = nodes[j];
            if f.center_x() == t.center_x() && f.center_y() == t.center_y() {
                Seq::empty()
            } else {
                spec_edge_draw(f, t, e.color, e.label.is_some())
            }
        },
        _ => Seq::empty(),
    }
}

/// For a horizontal direction vector, both arrow base points lie strictly
/// behind the tip, they are symmetric about the direction line, and
/// doubling the arrow size strictly increases the squared tip-to-base
/// distance.
pub proof fn lemma_arrow_head_geometry(tip_x: int, tip_y: int, size: int)
    requires
        1 <= size <= 500_000_000,
    ensures
        ({
            let b = spec_arrow_points(tip_x, tip_y, UNIT as int, 0, size);
            let d = spec_arrow_points(tip_x, tip_y, UNIT as int, 0, 2 * size);
            &&& b.0.0 < tip_x
            &&& b.1.0 < tip_x
            &&& b.0.1 - tip_y == -(b.1.1 - tip_y)
            &&& (tip_x - d.0.0) * (tip_x - d.0.0) + (tip_y - d.0.1) * (tip_y - d.0.1) > (tip_x
                - b.0.0) * (tip_x - b.0.0) + (tip_y - b.0.1) * (tip_y - b.0.1)
        }),
{
    vstd::arithmetic::div_mod::lemma_div_by_multiple(size, UNIT as int);
    vstd::arithmetic::div_mod::lemma_div_by_multiple(2 * size, UNIT as int);
    vstd::arithmetic::div_mod::lemma_div_by_multiple(size, 2 * UNIT as int);
    assert(size * (UNIT as int) == (UNIT as int) * size) by (nonlinear_arith);
    assert((2 * size) * (UNIT as int) == (UNIT as int) * (2 * size)) by (nonlinear_arith);
    assert((2 * size) * (UNIT as int) == size * (2 * UNIT as int)) by (nonlinear_arith);
    let h = div_trunc(size * (UNIT as int), 2 * UNIT as int);
    lemma_div_trunc_bound(size * (UNIT as int), 2 * UNIT as int, size);
    lemma_square_bound(h, size);
    assert((2 * size) * (2 * size) == 4 * (size * size)) by (nonlinear_arith);
    lemma_square_pos(size);
}

/// An edge whose endpoint id is absent from the node set draws nothing.
pub proof fn lemma_edge_skip_missing(e: GraphEdge, nodes: Seq<GraphNode>)
    requires
        spec_find_node(nodes, e.from@).is_none() || spec_find_node(nodes, e.to@).is_none(),
    ensures
        spec_render_edge(e, nodes) == Seq::<DrawCmd>::empty(),
{
}

/// An edge whose endpoints resolve to coincident centers draws nothing.
pub proof fn lemma_edge_skip_degenerate(e: GraphEdge, nodes: Seq<GraphNode>)
    requires
        spec_find_node(nodes, e.from@).is_some(),
        spec_find_node(nodes, e.to@).is_some(),
        nodes[spec_find_node(nodes, e.from@).unwrap()].center_x() == nodes[spec_find_node(
            nodes,
            e.to@,
        ).unwrap()].center_x(),
        nodes[spec_find_node(nodes, e.from@).unwrap()].center_y() == nodes[spec_find_node(
            nodes,
            e.to@,
        ).unwrap()].center_y(),
    ensures
        spec_render_edge(e, nodes) == Seq::<DrawCmd>::empty(),
{
}

/// Append the drawing primitives for one edge.
///
/// Looks both endpoint ids up in `nodes` (first match in insertion
/// order).  A missing endpoint or coincident centers appends nothing;
/// otherwise the main line, the arrow head, and, when the edge carries a
/// label, a midpoint marker are appended.
pub fn render_edge(cmds: &mut Vec<DrawCmd>, edge: &GraphEdge, nodes: &Vec<GraphNode>)
    requires
        forall|i: int| 0 <= i < nodes@.len() ==> #[trigger] nodes@[i].wf(),
    ensures
        final(cmds)@ == old(cmds)@ + spec_render_edge(*edge, nodes@),
{
    proof {
        crate::canvas::graph::lemma_find_node_found(nodes@, edge.from@);
        crate::canvas::graph::lemma_find_node_found(nodes@, edge.to@);
    }
    let from_node = match find_node_in(nodes, edge.from.as_str()) {
        Some(n) => n,
        None => {
            proof {
                assert(old(cmds)@ + spec_render_edge(*edge, nodes@) =~= old(cmds)@);
            }
            return ;
        },
    };
    let to_node = match find_node_in(nodes, edge.to.as_str()) {
        Some(n) => n,
        None => {
            proof {
                assert(old(cmds)@ + spec_render_edge(*edge, nodes@) =~= old(cmds)@);
            }
            return ;
        },
    };
    let (x1, y1) = calculate_node_center(from_node);
    let (x2, y2) = calculate_node_center(to_node);
    let dx = x2 - x1;
    let dy = y2 - y1;
    if dx == 0 && dy == 0 {
        proof {
            assert(old(cmds)@ + spec_render_edge(*edge, nodes@) =~= old(cmds)@);
        }
        return ;
    }
    proof {
        lemma_square_bound(dx as int, 2 * MAX_COORD as int);
        lemma_square_bound(dy as int, 2 * MAX_COORD as int);
        if dx != 0 {
            lemma_square_pos(dx as int);
        }
        if dy != 0 {
            lemma_square_pos(dy as int);
        }
    }
    let d2: i64 = dx * dx + dy * dy;
    let len: i64 = isqrt(d2 as u64) as i64;
    proof {
        lemma_component_bound(dx as int, d2 as int, len as int);
        lemma_component_bound(dy as int, d2 as int, len as int);
        lemma_div_trunc_bound(dx as int * UNIT as int, len as int, UNIT as int);
        lemma_div_trunc_bound(dy as int * UNIT as int, len as int, UNIT as int);
    }
    let ux = div_q(dx * UNIT, len);
    let uy = div_q(dy * UNIT, len);
    proof {
        lemma_div_trunc_bound(EDGE_INSET as int * ux as int, UNIT as int, EDGE_INSET as int);
        lemma_div_trunc_bound(EDGE_INSET as int * uy as int, UNIT as int, EDGE_INSET as int);
    }
    let inset_x = div_q(EDGE_INSET * ux, UNIT);
    let inset_y = div_q(EDGE_INSET * uy, UNIT);
    let start_x = x1 + inset_x;
    let start_y = y1 + inset_y;
    let end_x = x2 - inset_x;
    let end_y = y2 - inset_y;
    cmds.push(
        DrawCmd::Line { x1: start_x, y1: start_y, x2: end_x, y2: end_y, color: edge.color },
    );
    let (base1, base2) = calculate_arrow_points(end_x, end_y, ux, uy, ARROW_SIZE);
    cmds.push(
        DrawCmd::Line { x1: end_x, y1: end_y, x2: base1.0, y2: base1.1, color: edge.color },
    );
    cmds.push(
        DrawCmd::Line { x1: end_x, y1: end_y, x2: base2.0, y2: base2.1, color: edge.color },
    );
    cmds.push(
        DrawCmd::Line { x1: base1.0, y1: base1.1, x2: base2.0, y2: base2.1, color: edge.color },
    );
    if edge.label.is_some() {
        let mid_x = div_q(start_x + end_x, 2);
        let mid_y = div_q(start_y + end_y, 2);
        cmds.push(DrawCmd::Point { x: mid_x, y: mid_y, color: edge.color });
    }
    proof {
        assert(cmds@ =~= old(cmds)@ + spec_render_edge(*edge, nodes@));
    }
}

} // verus!
