//! Terminal-UI widgets over a fixed-point canvas.
//!
//! The crate centres on a small graph-visualization engine: a graph model
//! (nodes and directed edges), a bounds calculator that derives a viewport
//! from the node set, and node/edge renderers that turn the model into a
//! stream of drawing primitives for a host surface to paint.  Around it sit
//! human-readable formatting helpers (counts, byte sizes, durations,
//! latencies), a constraint-based layout description, and plain data
//! specifications that a scripting host can build and hand back.
//!
//! Canvas geometry is carried in thousandths of a canvas unit (see
//! [`fixed`]), so every geometric rule — padding, arrow heads, hit testing —
//! is exact integer arithmetic with a proved contract.

use vstd::prelude::*;

pub mod bindings;
pub mod canvas;
pub mod color;
pub mod draw;
pub mod fixed;
pub mod formatting;
pub mod layouts;

pub use bindings::FusabiTuiModule;
pub use canvas::GraphCanvas;
pub use canvas::GraphData;
pub use canvas::GraphEdge;
pub use canvas::GraphNode;
pub use formatting::format_bytes;
pub use formatting::format_duration;
pub use formatting::format_latency;
pub use formatting::format_number;
pub use layouts::Constraint;
pub use layouts::Layout;

verus! {

/// Version of the library.
pub const VERSION: &'static str = "0.1.0";

} // verus!
