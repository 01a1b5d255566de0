//! Tests for the widget specification structures.

use fusabi_tui::bindings::specs::{ColumnSpec, EdgeSpec, GraphSpec, GraphType, NodeSpec, TableSpec, WidthSpec};

#[test]
fn specs_test_table_spec_default() {
    let spec = TableSpec::default();
    assert_eq!(spec.title, None);
    assert_eq!(spec.columns.len(), 0);
    assert_eq!(spec.rows.len(), 0);
    assert!(spec.borders);
    assert!(spec.highlight);
    assert_eq!(spec.highlight_symbol, Some(">> ".to_string()));
}

#[test]
fn test_width_spec_default() {
    let width = WidthSpec::default();
    assert!(matches!(width, WidthSpec::Percentage(10)));
}

#[test]
fn test_table_spec_builder() {
    let spec = TableSpec {
        title: Some("Test Table".to_string()),
        columns: vec![
            ColumnSpec { header: "Name".to_string(), width: WidthSpec::Percentage(40) },
            ColumnSpec { header: "Value".to_string(), width: WidthSpec::Percentage(60) },
        ],
        rows: vec![
            vec!["Alice".to_string(), "100".to_string()],
            vec!["Bob".to_string(), "200".to_string()],
        ],
        borders: true,
        highlight_symbol: Some("->".to_string()),
        highlight: true,
    };

    assert_eq!(spec.title, Some("Test Table".to_string()));
    assert_eq!(spec.columns.len(), 2);
    assert_eq!(spec.rows.len(), 2);
    assert_eq!(spec.rows[0], vec!["Alice".to_string(), "100".to_string()]);
}

#[test]
fn test_column_spec_creation() {
    let col = ColumnSpec { header: "Test Column".to_string(), width: WidthSpec::Min(10) };

    assert_eq!(col.header, "Test Column");
    match col.width {
        WidthSpec::Min(val) => assert_eq!(val, 10),
        _ => panic!("Expected Min width"),
    }
}

#[test]
fn test_graph_spec_creation() {
    let spec = GraphSpec {
        title: "Test Graph".to_string(),
        graph_type: GraphType::Directed,
        nodes: vec![
            NodeSpec {
                id: "n1".to_string(),
                label: "Node 1".to_string(),
                x: 250,
                y: 500,
                color: Some("#FF0000".to_string()),
            },
            NodeSpec {
                id: "n2".to_string(),
                label: "Node 2".to_string(),
                x: 750,
                y: 500,
                color: None,
            },
        ],
        edges: vec![EdgeSpec {
            from: "n1".to_string(),
            to: "n2".to_string(),
            label: Some("connects".to_string()),
            color: None,
        }],
    };

    assert_eq!(spec.title, "Test Graph");
    assert_eq!(spec.nodes.len(), 2);
    assert_eq!(spec.edges.len(), 1);
    assert_eq!(spec.nodes[0].id, "n1");
    assert_eq!(spec.edges[0].from, "n1");
    assert_eq!(spec.edges[0].to, "n2");
}

#[test]
fn test_node_spec_coordinates() {
    let node = NodeSpec {
        id: "test".to_string(),
        label: "Test Node".to_string(),
        x: 330,
        y: 670,
        color: None,
    };

    assert_eq!(node.x, 330);
    assert_eq!(node.y, 670);
    assert!(node.x >= 0 && node.x <= 1000);
    assert!(node.y >= 0 && node.y <= 1000);
}

#[test]
fn test_edge_spec_with_label() {
    let edge = EdgeSpec {
        from: "a".to_string(),
        to: "b".to_string(),
        label: Some("test edge".to_string()),
        color: Some("#FFFFFF".to_string()),
    };

    assert_eq!(edge.from, "a");
    assert_eq!(edge.to, "b");
    assert_eq!(edge.label, Some("test edge".to_string()));
    assert_eq!(edge.color, Some("#FFFFFF".to_string()));
}
