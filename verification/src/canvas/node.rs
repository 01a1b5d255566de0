//! Node rendering: rectangles, center markers, and selection highlighting.

use vstd::prelude::*;
use crate::canvas::graph::GraphNode;
use crate::color::Color;
use crate::draw::DrawCmd;
use crate::fixed::div_q;

verus! {

/// Width of the selection highlight border, in thousandths of a unit.
pub const HIGHLIGHT_BORDER: i64 = 1_000;

/// Color of the selection highlight.
pub const HIGHLIGHT_COLOR: Color = Color::Yellow;

/// The drawing primitives of the selection highlight: an enlarged
/// rectangle behind the node and its four corner points.
pub open spec fn spec_highlight_cmds(n: GraphNode) -> Seq<DrawCmd> {
    let left = (n.x - HIGHLIGHT_BORDER) as i64;
    let top = (n.y - HIGHLIGHT_BORDER) as i64;
    let right = (n.x + n.width + HIGHLIGHT_BORDER) as i64;
    let bottom = (n.y + n.height + HIGHLIGHT_BORDER) as i64;
    seq![
        DrawCmd::Rect {
            x: left,
            y: top,
            width: (n.width + 2 * HIGHLIGHT_BORDER) as i64,
            height: (n.height + 2 * HIGHLIGHT_BORDER) as i64,
            color: HIGHLIGHT_COLOR,
        },
        DrawCmd::Point { x: left, y: top, color: HIGHLIGHT_COLOR },
        DrawCmd::Point { x: right, y: top, color: HIGHLIGHT_COLOR },
        DrawCmd::Point { x: left, y: bottom, color: HIGHLIGHT_COLOR },
        DrawCmd::Point { x: right, y: bottom, color: HIGHLIGHT_COLOR },
    ]
}

/// The drawing primitives of the node body: its rectangle and a center
/// point as a visual anchor.
pub open spec fn spec_body_cmds(n: GraphNode) -> Seq<DrawCmd> {
    seq![
        DrawCmd::Rect { x: n.x, y: n.y, width: n.width, height: n.height, color: n.color },
        DrawCmd::Point { x: n.center_x() as i64, y: n.center_y() as i64, color: n.color },
    ]
}

/// Everything drawn for one node: the highlight first when the node is
/// selected (so the body occludes it), then the body.
pub open spec fn spec_render_node(n: GraphNode) -> Seq<DrawCmd> {
    if n.selected {
        spec_highlight_cmds(n) + spec_body_cmds(n)
    } else {
        spec_body_cmds(n)
    }
}

/// Append the selection highlight primitives for `node`.
fn draw_selection_highlight(cmds: &mut Vec<DrawCmd>, node: &GraphNode)
    requires
        node.wf(),
    ensures
        final(cmds)@ == old(cmds)@ + spec_highlight_cmds(*node),
{
    let left = node.x - HIGHLIGHT_BORDER;
    let top = node.y - HIGHLIGHT_BORDER;
    let right = node.x + node.width + HIGHLIGHT_BORDER;
    let bottom = node.y + node.height + HIGHLIGHT_BORDER;
    cmds.push(
        DrawCmd::Rect {
            x: left,
            y: top,
            width: node.width + 2 * HIGHLIGHT_BORDER,
            height: node.height + 2 * HIGHLIGHT_BORDER,
            color: HIGHLIGHT_COLOR,
        },
    );
    cmds.push(DrawCmd::Point { x: left, y: top, color: HIGHLIGHT_COLOR });
    cmds.push(DrawCmd::Point { x: right, y: top, color: HIGHLIGHT_COLOR });
    cmds.push(DrawCmd::Point { x: left, y: bottom, color: HIGHLIGHT_COLOR });
    cmds.push(DrawCmd::Point { x: right, y: bottom, color: HIGHLIGHT_COLOR });
    proof {
        assert(cmds@ =~= old(cmds)@ + spec_highlight_cmds(*node));
    }
}

/// Append the drawing primitives for one node: the selection highlight
/// first when the node is selected, then the node's rectangle, then a
/// center point.
pub fn render_node(cmds: &mut Vec<DrawCmd>, node: &GraphNode)
    requires
        node.wf(),
    ensures
        final(cmds)@ == old(cmds)@ + spec_render_node(*node),
{
    if node.selected {
        draw_selection_highlight(cmds, node);
    }
    let (center_x, center_y) = calculate_node_center(node);
    cmds.push(
        DrawCmd::Rect {
            x: node.x,
            y: node.y,
            width: node.width,
            height: node.height,
            color: node.color,
        },
    );
    cmds.push(DrawCmd::Point { x: center_x, y: center_y, color: node.color });
    proof {
        assert(cmds@ =~= old(cmds)@ + spec_render_node(*node));
    }
}

/// Get the color a node should be drawn with, given its health state:
/// errors dominate warnings, warnings dominate selection, and an
/// unremarkable node keeps its own color.
pub fn get_node_color(node: &GraphNode, is_error: bool, is_warning: bool) -> (r: Color)
    ensures
        r == if is_error {
            Color::Red
        } else if is_warning {
            Color::Yellow
        } else if node.selected {
            Color::Green
        } else {
            node.color
        },
{
    if is_error {
        Color::Red
    } else if is_warning {
        Color::Yellow
    } else if node.selected {
        Color::Green
    } else {
        node.color
    }
}

/// The center of the node's rectangle.
///
/// For a well-formed node the center stays inside the supported
/// coordinate range.
pub fn calculate_node_center(node: &GraphNode) -> (r: (i64, i64))
    requires
        node.wf(),
    ensures
        r.0 == node.center_x(),
        r.1 == node.center_y(),
        -crate::canvas::graph::MAX_COORD <= r.0 <= crate::canvas::graph::MAX_COORD,
        -crate::canvas::graph::MAX_COORD <= r.1 <= crate::canvas::graph::MAX_COORD,
{
    proof {
        vstd::arithmetic::div_mod::lemma_div_pos_is_pos(node.width as int, 2);
        vstd::arithmetic::div_mod::lemma_div_nonincreasing(node.width as int, 2);
        vstd::arithmetic::div_mod::lemma_div_pos_is_pos(node.height as int, 2);
        vstd::arithmetic::div_mod::lemma_div_nonincreasing(node.height as int, 2);
    }
    (node.x + div_q(node.width, 2), node.y + div_q(node.height, 2))
}

/// Whether the point `(x, y)` lies within the node's closed rectangle,
/// boundaries included.
pub fn point_in_node(node: &GraphNode, x: i64, y: i64) -> (r: bool)
    requires
        node.wf(),
    ensures
        r == (node.x <= x <= node.x + node.width && node.y <= y <= node.y + node.height),
{
    x >= node.x && x <= node.x + node.width && y >= node.y && y <= node.y + node.height
}

} // verus!
