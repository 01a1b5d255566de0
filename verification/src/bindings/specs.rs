//! Widget specification structures.
//!
//! Plain, declarative descriptions of widgets that a scripting host can
//! build up and hand back to the application for rendering.  The host
//! application owns any serialized interchange form; these are the values
//! the library itself works with.

use vstd::prelude::*;

verus! {

/// Table specification that a script can build and the application can
/// interpret.
#[derive(Debug, Clone)]
pub struct TableSpec {
    /// Table title (optional).
    pub title: Option<String>,
    /// Column definitions.
    pub columns: Vec<ColumnSpec>,
    /// Data rows; each row is a list of cell strings.
    pub rows: Vec<Vec<String>>,
    /// Show borders.
    pub borders: bool,
    /// Highlight symbol.
    pub highlight_symbol: Option<String>,
    /// Enable highlighting.
    pub highlight: bool,
}

impl Default for TableSpec {
    /// An empty table: no title, no columns, no rows, borders and
    /// highlighting on, and the standard highlight symbol.
    fn default() -> (r: TableSpec)
        ensures
            r.title.is_none(),
            r.columns@.len() == 0,
            r.rows@.len() == 0,
            r.borders,
            r.highlight_symbol.is_some(),
            r.highlight_symbol.unwrap()@ == ">> "@,
            r.highlight,
    {
        TableSpec {
            title: None,
            columns: Vec::new(),
            rows: Vec::new(),
            borders: true,
            highlight_symbol: Some(">> ".to_owned()),
            highlight: true,
        }
    }
}

/// Column specification for a table.
#[derive(Debug, Clone)]
pub struct ColumnSpec {
    /// Column header text.
    pub header: String,
    /// Column width.
    pub width: WidthSpec,
}

/// Width specification for columns.
#[derive(Debug, Clone)]
pub enum WidthSpec {
    /// Percentage of available space (0 to 100).
    Percentage(u16),
    /// Fixed character width.
    Length(u16),
    /// Minimum width.
    Min(u16),
    /// Maximum width.
    Max(u16),
}

impl Default for WidthSpec {
    /// A tenth of the available space.
    fn default() -> (r: WidthSpec)
        ensures
            r == WidthSpec::Percentage(10u16),
    {
        WidthSpec::Percentage(10)
    }
}

/// Canvas graph specification.
#[derive(Debug, Clone)]
pub struct GraphSpec {
    /// Graph title.
    pub title: String,
    /// Graph type.
    pub graph_type: GraphType,
    /// Nodes in the graph.
    pub nodes: Vec<NodeSpec>,
    /// Edges between nodes.
    pub edges: Vec<EdgeSpec>,
}

/// Type of graph to render.
#[derive(Debug, Clone)]
pub enum GraphType {
    /// Directed graph.
    Directed,
    /// Undirected graph.
    Undirected,
}

/// Node specification for canvas graphs.
///
/// Positions are relative to the canvas: 0 is the left or top edge and
/// [`crate::fixed::UNIT`] the right or bottom edge, in thousandths.
#[derive(Debug, Clone)]
pub struct NodeSpec {
    /// Node id (unique identifier).
    pub id: String,
    /// Display label.
    pub label: String,
    /// X position, in thousandths of the canvas width.
    pub x: i64,
    /// Y position, in thousandths of the canvas height.
    pub y: i64,
    /// Optional color (hex string such as `#FF0000`).
    pub color: Option<String>,
}

/// Edge specification for canvas graphs.
#[derive(Debug, Clone)]
pub struct EdgeSpec {
    /// Source node id.
    pub from: String,
    /// Target node id.
    pub to: String,
    /// Optional edge label.
    pub label: Option<String>,
    /// Optional color (hex string).
    pub color: Option<String>,
}

} // verus!
