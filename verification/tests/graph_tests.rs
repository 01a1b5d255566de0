//! Tests for the graph model and the canvas composer.
//!
//! Coordinates are in thousandths of a canvas unit.

use fusabi_tui::canvas::graph::{GraphCanvas, GraphData, GraphEdge, GraphNode};
use fusabi_tui::color::Color;
use fusabi_tui::draw::DrawCmd;

#[test]
fn test_graph_node_new() {
    let node = GraphNode::new("node1", 10_000, 20_000, "Test Node");
    assert_eq!(node.id, "node1");
    assert_eq!(node.x, 10_000);
    assert_eq!(node.y, 20_000);
    assert_eq!(node.label, "Test Node");
    assert_eq!(node.width, 8_000);
    assert_eq!(node.height, 4_000);
    assert!(!node.selected);
}

#[test]
fn test_graph_node_builder() {
    let node = GraphNode::builder("node1")
        .position(10_000, 20_000)
        .size(12_000, 6_000)
        .color(Color::Red)
        .label("Custom Node")
        .selected(true)
        .build();

    assert_eq!(node.id, "node1");
    assert_eq!(node.x, 10_000);
    assert_eq!(node.y, 20_000);
    assert_eq!(node.width, 12_000);
    assert_eq!(node.height, 6_000);
    assert_eq!(node.color, Color::Red);
    assert_eq!(node.label, "Custom Node");
    assert!(node.selected);
}

#[test]
fn test_graph_edge_new() {
    let edge = GraphEdge::new("node1", "node2");
    assert_eq!(edge.from, "node1");
    assert_eq!(edge.to, "node2");
    assert_eq!(edge.color, Color::Cyan);
    assert!(edge.label.is_none());
}

#[test]
fn test_graph_edge_builder() {
    let edge = GraphEdge::new("node1", "node2").color(Color::Green).label("100 ev/s");

    assert_eq!(edge.color, Color::Green);
    assert_eq!(edge.label, Some("100 ev/s".to_string()));
}

#[test]
fn test_graph_data_new() {
    let graph = GraphData::new();
    assert!(graph.nodes.is_empty());
    assert!(graph.edges.is_empty());
}

#[test]
fn test_graph_data_add() {
    let mut graph = GraphData::new();
    graph.add_node(GraphNode::new("node1", 10_000, 20_000, "Node 1"));
    graph.add_edge(GraphEdge::new("node1", "node2"));

    assert_eq!(graph.nodes.len(), 1);
    assert_eq!(graph.edges.len(), 1);
}

#[test]
fn test_graph_data_find_node() {
    let mut graph = GraphData::new();
    graph.add_node(GraphNode::new("node1", 10_000, 20_000, "Node 1"));

    let found = graph.find_node("node1");
    assert!(found.is_some());
    assert_eq!(found.unwrap().id, "node1");

    let not_found = graph.find_node("node2");
    assert!(not_found.is_none());
}

#[test]
fn test_graph_data_find_node_mut() {
    let mut graph = GraphData::new();
    graph.add_node(GraphNode::new("node1", 10_000, 20_000, "Node 1"));

    if let Some(node) = graph.find_node_mut("node1") {
        node.selected = true;
    }
    assert!(graph.nodes[0].selected);
    assert!(graph.find_node_mut("missing").is_none());
}

#[test]
fn test_graph_data_edges_from() {
    let mut graph = GraphData::new();
    graph.add_edge(GraphEdge::new("node1", "node2"));
    graph.add_edge(GraphEdge::new("node1", "node3"));
    graph.add_edge(GraphEdge::new("node2", "node3"));

    let edges = graph.edges_from("node1");
    assert_eq!(edges.len(), 2);
}

#[test]
fn test_graph_data_edges_to() {
    let mut graph = GraphData::new();
    graph.add_edge(GraphEdge::new("node1", "node3"));
    graph.add_edge(GraphEdge::new("node2", "node3"));
    graph.add_edge(GraphEdge::new("node3", "node4"));

    let edges = graph.edges_to("node3");
    assert_eq!(edges.len(), 2);
}

#[test]
fn test_graph_queries_mixed() {
    // Edges a->b, a->c, b->c: two out of a, two into c, none out of z
    let mut graph = GraphData::new();
    graph.add_edge(GraphEdge::new("a", "b"));
    graph.add_edge(GraphEdge::new("a", "c"));
    graph.add_edge(GraphEdge::new("b", "c"));

    assert_eq!(graph.edges_from("a").len(), 2);
    assert_eq!(graph.edges_to("c").len(), 2);
    assert_eq!(graph.edges_from("z").len(), 0);
}

#[test]
fn test_graph_canvas_new() {
    let graph = GraphData::new();
    let canvas = GraphCanvas::new(&graph);

    let (min_x, max_x, min_y, max_y) = canvas.get_bounds();
    // Empty graph should have default bounds
    assert_eq!(min_x, 0);
    assert_eq!(max_x, 100_000);
    assert_eq!(min_y, 0);
    assert_eq!(max_y, 100_000);
}

#[test]
fn test_graph_canvas_custom_bounds() {
    let graph = GraphData::new();
    let canvas = GraphCanvas::new(&graph).x_bounds(-50_000, 50_000).y_bounds(-25_000, 25_000);

    let (min_x, max_x, min_y, max_y) = canvas.get_bounds();
    assert_eq!(min_x, -50_000);
    assert_eq!(max_x, 50_000);
    assert_eq!(min_y, -25_000);
    assert_eq!(max_y, 25_000);
}

#[test]
fn test_graph_canvas_render_order() {
    // Edges are drawn before nodes; a dangling edge is skipped
    let mut graph = GraphData::new();
    graph.add_node(GraphNode::new("a", 0, 0, "A"));
    graph.add_node(GraphNode::new("b", 50_000, 0, "B"));
    graph.add_edge(GraphEdge::new("a", "b"));
    graph.add_edge(GraphEdge::new("a", "missing"));

    let canvas = GraphCanvas::new(&graph);
    let (_bounds, cmds) = canvas.render();

    // One drawable edge (4 lines), then two nodes (2 commands each)
    assert_eq!(cmds.len(), 8);
    assert!(cmds[..4].iter().all(|c| matches!(c, DrawCmd::Line { .. })));
    assert!(matches!(cmds[4], DrawCmd::Rect { .. }));
    assert!(matches!(cmds[6], DrawCmd::Rect { .. }));
}
