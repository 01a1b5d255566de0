//! Canvas module - graph visualization over drawing primitives.
//!
//! A directed graph of nodes and edges is turned into a stream of
//! [`crate::draw::DrawCmd`] primitives: the bounds calculator derives a
//! viewport from the node set, the edge renderer draws inset lines with
//! arrow heads, and the node renderer draws rectangles with selection
//! highlighting.  All geometry is fixed-point integer arithmetic with
//! proved contracts.

pub mod bounds;
pub mod edge;
pub mod graph;
pub mod node;

pub use graph::GraphCanvas;
pub use graph::GraphData;
pub use graph::GraphEdge;
pub use graph::GraphNode;
