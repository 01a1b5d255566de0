//! Graph model: nodes, edges, and the canvas composer.

use vstd::prelude::*;
use crate::color::Color;
use crate::draw::DrawCmd;
use crate::fixed::div_trunc;

verus! {

/// Largest magnitude, in thousandths of a unit, that a well-formed node
/// coordinate (position or position plus size) may reach.  Keeping
/// coordinates inside this range keeps every geometric computation inside
/// `i64`.
pub const MAX_COORD: i64 = 1_000_000_000;

/// Default node width: 8 canvas units.
pub const DEFAULT_NODE_WIDTH: i64 = 8_000;

/// Default node height: 4 canvas units.
pub const DEFAULT_NODE_HEIGHT: i64 = 4_000;

/// A node in the graph: a rectangle at `(x, y)` (top-left corner) of size
/// `width` by `height`, in thousandths of a canvas unit.
#[derive(Debug, Clone)]
pub struct GraphNode {
    /// Unique identifier for the node.
    pub id: String,
    /// X coordinate of the node's top-left corner.
    pub x: i64,
    /// Y coordinate of the node's top-left corner.
    pub y: i64,
    /// Width of the node.
    pub width: i64,
    /// Height of the node.
    pub height: i64,
    /// Color of the node.
    pub color: Color,
    /// Display label for the node.
    pub label: String,
    /// Whether the node is currently selected.
    pub selected: bool,
}

impl GraphNode {
    /// A node is well formed when its sizes are non-negative and its
    /// rectangle stays inside the coordinate range the geometry supports.
    pub open spec fn wf(&self) -> bool {
        &&& 0 <= self.width
        &&& 0 <= self.height
        &&& -MAX_COORD <= self.x
        &&& self.x + self.width <= MAX_COORD
        &&& -MAX_COORD <= self.y
        &&& self.y + self.height <= MAX_COORD
    }

    /// X coordinate of the node's center.
    pub open spec fn center_x(&self) -> int {
        self.x + div_trunc(self.width as int, 2)
    }

    /// Y coordinate of the node's center.
    pub open spec fn center_y(&self) -> int {
        self.y + div_trunc(self.height as int, 2)
    }

    /// Create a new graph node at `(x, y)` with the default size and color.
    pub fn new(id: &str, x: i64, y: i64, label: &str) -> (r: GraphNode)
        ensures
            r.id@ == id@,
            r.x == x,
            r.y == y,
            r.width == DEFAULT_NODE_WIDTH,
            r.height == DEFAULT_NODE_HEIGHT,
            r.color == Color::Blue,
            r.label@ == label@,
            !r.selected,
    {
        GraphNode {
            id: id.to_owned(),
            x,
            y,
            width: DEFAULT_NODE_WIDTH,
            height: DEFAULT_NODE_HEIGHT,
            color: Color::Blue,
            label: label.to_owned(),
            selected: false,
        }
    }

    /// Create a builder for a node with the given identifier.
    pub fn builder(id: &str) -> (r: GraphNodeBuilder)
        ensures
            r.id@ == id@,
            r.x == 0,
            r.y == 0,
            r.width == DEFAULT_NODE_WIDTH,
            r.height == DEFAULT_NODE_HEIGHT,
            r.color == Color::Blue,
            r.label@ == id@,
            !r.selected,
    {
        GraphNodeBuilder::new(id)
    }
}

/// Builder for [`GraphNode`] with a fluent API.
#[derive(Debug)]
pub struct GraphNodeBuilder {
    /// Identifier of the node being built.
    pub id: String,
    /// X coordinate of the node being built.
    pub x: i64,
    /// Y coordinate of the node being built.
    pub y: i64,
    /// Width of the node being built.
    pub width: i64,
    /// Height of the node being built.
    pub height: i64,
    /// Color of the node being built.
    pub color: Color,
    /// Label of the node being built.
    pub label: String,
    /// Selection flag of the node being built.
    pub selected: bool,
}

impl GraphNodeBuilder {
    /// Create a new builder; the label defaults to the identifier.
    pub fn new(id: &str) -> (r: GraphNodeBuilder)
        ensures
            r.id@ == id@,
            r.x == 0,
            r.y == 0,
            r.width == DEFAULT_NODE_WIDTH,
            r.height == DEFAULT_NODE_HEIGHT,
            r.color == Color::Blue,
            r.label@ == id@,
            !r.selected,
    {
        GraphNodeBuilder {
            id: id.to_owned(),
            x: 0,
            y: 0,
            width: DEFAULT_NODE_WIDTH,
            height: DEFAULT_NODE_HEIGHT,
            color: Color::Blue,
            label: id.to_owned(),
            selected: false,
        }
    }

    /// Set the position.
    pub fn position(self, x: i64, y: i64) -> (r: GraphNodeBuilder)
        ensures
            r == (GraphNodeBuilder { x, y, ..self }),
    {
        GraphNodeBuilder { x, y, ..self }
    }

    /// Set the size.
    pub fn size(self, width: i64, height: i64) -> (r: GraphNodeBuilder)
        ensures
            r == (GraphNodeBuilder { width, height, ..self }),
    {
        GraphNodeBuilder { width, height, ..self }
    }

    /// Set the color.
    pub fn color(self, color: Color) -> (r: GraphNodeBuilder)
        ensures
            r == (GraphNodeBuilder { color, ..self }),
    {
        GraphNodeBuilder { color, ..self }
    }

    /// Set the label.
    pub fn label(self, label: &str) -> (r: GraphNodeBuilder)
        ensures
            r.label@ == label@,
            r == (GraphNodeBuilder { label: r.label, ..self }),
    {
        GraphNodeBuilder { label: label.to_owned(), ..self }
    }

    /// Set the selection flag.
    pub fn selected(self, selected: bool) -> (r: GraphNodeBuilder)
        ensures
            r == (GraphNodeBuilder { selected, ..self }),
    {
        GraphNodeBuilder { selected, ..self }
    }

    /// Build the node from the collected fields.
    pub fn build(self) -> (r: GraphNode)
        ensures
            r.id == self.id,
            r.x == self.x,
            r.y == self.y,
            r.width == self.width,
            r.height == self.height,
            r.color == self.color,
            r.label == self.label,
            r.selected == self.selected,
    {
        GraphNode {
            id: self.id,
            x: self.x,
            y: self.y,
            width: self.width,
            height: self.height,
            color: self.color,
            label: self.label,
            selected: self.selected,
        }
    }
}

/// A directed edge from one node to another, identified by node ids.
#[derive(Debug, Clone)]
pub struct GraphEdge {
    /// Id of the source node.
    pub from: String,
    /// Id of the destination node.
    pub to: String,
    /// Color of the edge.
    pub color: Color,
    /// Optional label for the edge (for example a weight or a rate).
    pub label: Option<String>,
}

impl GraphEdge {
    /// Create a new edge with the default color and no label.
    pub fn new(from: &str, to: &str) -> (r: GraphEdge)
        ensures
            r.from@ == from@,
            r.to@ == to@,
            r.color == Color::Cyan,
            r.label.is_none(),
    {
        GraphEdge { from: from.to_owned(), to: to.to_owned(), color: Color::Cyan, label: None }
    }

    /// Set the edge color.
    pub fn color(self, color: Color) -> (r: GraphEdge)
        ensures
            r == (GraphEdge { color, ..self }),
    {
        GraphEdge { color, ..self }
    }

    /// Set the edge label.
    pub fn label(self, label: &str) -> (r: GraphEdge)
        ensures
            r.label.is_some(),
            r.label.unwrap()@ == label@,
            r.from == self.from,
            r.to == self.to,
            r.color == self.color,
    {
        GraphEdge { label: Some(label.to_owned()), ..self }
    }
}

/// Index of the first node whose id reads `id`, in insertion order.
pub open spec fn spec_find_node(nodes: Seq<GraphNode>, id: Seq<char>) -> Option<int>
    decreases nodes.len(),
{
    if nodes.len() == 0 {
        None
    } else if nodes[0].id@ == id {
        Some(0int)
    } else {
        match spec_find_node(nodes.drop_first(), id) {
            Some(i) => Some(i + 1),
            None => None,
        }
    }
}

/// When no node before `i` matches and the node at `i` does, the first
/// match is at `i`.
pub proof fn lemma_find_node_at(nodes: Seq<GraphNode>, id: Seq<char>, i: int)
    requires
        0 <= i < nodes.len(),
        nodes[i].id@ == id,
        forall|j: int| 0 <= j < i ==> nodes[j].id@ != id,
    ensures
        spec_find_node(nodes, id) == Some(i),
    decreases i,
{
    if i > 0 {
        lemma_find_node_at(nodes.drop_first(), id, i - 1);
    }
}

/// When no node matches, the lookup finds nothing.
pub proof fn lemma_find_node_none(nodes: Seq<GraphNode>, id: Seq<char>)
    requires
        forall|j: int| 0 <= j < nodes.len() ==> nodes[j].id@ != id,
    ensures
        spec_find_node(nodes, id).is_none(),
    decreases nodes.len(),
{
    if nodes.len() > 0 {
        lemma_find_node_none(nodes.drop_first(), id);
    }
}

/// A found index is in range and is the first match.
pub proof fn lemma_find_node_found(nodes: Seq<GraphNode>, id: Seq<char>)
    ensures
        match spec_find_node(nodes, id) {
            Some(i) => {
                &&& 0 <= i < nodes.len()
                &&& nodes[i].id@ == id
                &&& forall|j: int| 0 <= j < i ==> nodes[j].id@ != id
            },
            None => forall|j: int| 0 <= j < nodes.len() ==> nodes[j].id@ != id,
        },
    decreases nodes.len(),
{
    if nodes.len() > 0 {
        lemma_find_node_found(nodes.drop_first(), id);
        assert forall|j: int| 1 <= j < nodes.len() implies #[trigger] nodes[j].id@
            == nodes.drop_first()[j - 1].id@ by {
            assert(nodes.drop_first()[j - 1] == nodes[j]);
        }
    }
}

/// First node whose id reads `id`, searching the slice in order.
pub fn find_node_in<'a>(nodes: &'a Vec<GraphNode>, id: &str) -> (r: Option<&'a GraphNode>)
    ensures
        match spec_find_node(nodes@, id@) {
            Some(i) => r.is_some() && *r.unwrap() == nodes@[i],
            None => r.is_none(),
        },
{
    let key: String = id.to_owned();
    let n = nodes.len();
    let mut i: usize = 0;
    while i < n
        invariant
            n == nodes@.len(),
            0 <= i <= n,
            key@ == id@,
            forall|j: int| 0 <= j < i ==> nodes@[j].id@ != id@,
        decreases n - i,
    {
        if nodes[i].id == key {
            proof {
                lemma_find_node_at(nodes@, id@, i as int);
            }
            return Some(&nodes[i]);
        }
        i += 1;
    }
    proof {
        lemma_find_node_none(nodes@, id@);
    }
    None
}

/// The edges whose source id reads `id`, in insertion order.
pub open spec fn spec_edges_from(edges: Seq<GraphEdge>, id: Seq<char>) -> Seq<GraphEdge>
    decreases edges.len(),
{
    if edges.len() == 0 {
        Seq::empty()
    } else if edges.last().from@ == id {
        spec_edges_from(edges.drop_last(), id).push(edges.last())
    } else {
        spec_edges_from(edges.drop_last(), id)
    }
}

/// The edges whose destination id reads `id`, in insertion order.
pub open spec fn spec_edges_to(edges: Seq<GraphEdge>, id: Seq<char>) -> Seq<GraphEdge>
    decreases edges.len(),
{
    if edges.len() == 0 {
        Seq::empty()
    } else if edges.last().to@ == id {
        spec_edges_to(edges.drop_last(), id).push(edges.last())
    } else {
        spec_edges_to(edges.drop_last(), id)
    }
}

/// Complete graph data structure: the nodes and edges of one graph, each in
/// insertion order.
#[derive(Debug, Clone)]
pub struct GraphData {
    /// All nodes in the graph.
    pub nodes: Vec<GraphNode>,
    /// All edges in the graph.
    pub edges: Vec<GraphEdge>,
}

impl GraphData {
    /// Create a new empty graph.
    pub fn new() -> (r: GraphData)
        ensures
            r.nodes@.len() == 0,
            r.edges@.len() == 0,
    {
        GraphData { nodes: Vec::new(), edges: Vec::new() }
    }

    /// Create a graph from the given nodes and edges.
    pub fn with_data(nodes: Vec<GraphNode>, edges: Vec<GraphEdge>) -> (r: GraphData)
        ensures
            r.nodes == nodes,
            r.edges == edges,
    {
        GraphData { nodes, edges }
    }

    /// Append a node to the graph.
    pub fn add_node(&mut self, node: GraphNode)
        ensures
            final(self).nodes@ == old(self).nodes@.push(node),
            final(self).edges == old(self).edges,
    {
        self.nodes.push(node);
    }

    /// Append an edge to the graph.
    pub fn add_edge(&mut self, edge: GraphEdge)
        ensures
            final(self).edges@ == old(self).edges@.push(edge),
            final(self).nodes == old(self).nodes,
    {
        self.edges.push(edge);
    }

    /// Find the first node with the given id, in insertion order.
    pub fn find_node(&self, id: &str) -> (r: Option<&GraphNode>)
        ensures
            match spec_find_node(self.nodes@, id@) {
                Some(i) => r.is_some() && *r.unwrap() == self.nodes@[i],
                None => r.is_none(),
            },
    {
        find_node_in(&self.nodes, id)
    }

    /// Find the first node with the given id and borrow it mutably.
    ///
    /// When a node is found, the graph after the call holds the value the
    /// caller left in the returned reference, at the found index; nothing
    /// else changes.
    pub fn find_node_mut(&mut self, id: &str) -> (r: Option<&mut GraphNode>)
        ensures
            match r {
                Some(node) => {
                    &&& spec_find_node(old(self).nodes@, id@).is_some()
                    &&& *node == old(self).nodes@[spec_find_node(old(self).nodes@, id@).unwrap()]
                    &&& final(self).nodes@ == old(self).nodes@.update(
                        spec_find_node(old(self).nodes@, id@).unwrap(),
                        *final(node),
                    )
                    &&& final(self).edges == old(self).edges
                },
                None => {
                    &&& spec_find_node(old(self).nodes@, id@).is_none()
                    &&& *final(self) == *old(self)
                },
            },
    {
        let key: String = id.to_owned();
        let n = self.nodes.len();
        let mut i: usize = 0;
        while i < n
            invariant
                *self == *old(self),
                n == self.nodes@.len(),
                0 <= i <= n,
                key@ == id@,
                forall|j: int| 0 <= j < i ==> self.nodes@[j].id@ != id@,
            decreases n - i,
        {
            if self.nodes[i].id == key {
                proof {
                    lemma_find_node_at(self.nodes@, id@, i as int);
                }
                return Some(&mut self.nodes[i]);
            }
            i += 1;
        }
        proof {
            lemma_find_node_none(self.nodes@, id@);
        }
        None
    }

    /// All edges whose source is the given node id, in insertion order.
    pub fn edges_from(&self, node_id: &str) -> (r: Vec<&GraphEdge>)
        ensures
            r@.map_values(|e: &GraphEdge| *e) == spec_edges_from(self.edges@, node_id@),
    {
        let key: String = node_id.to_owned();
        let n = self.edges.len();
        let mut r: Vec<&GraphEdge> = Vec::new();
        let mut i: usize = 0;
        while i < n
            invariant
                n == self.edges@.len(),
                0 <= i <= n,
                key@ == node_id@,
                r@.map_values(|e: &GraphEdge| *e) == spec_edges_from(
                    self.edges@.take(i as int),
                    node_id@,
                ),
            decreases n - i,
        {
            proof {
                assert(self.edges@.take(i + 1int).drop_last() =~= self.edges@.take(i as int));
                assert(self.edges@.take(i + 1int).last() == self.edges@[i as int]);
            }
            if self.edges[i].from == key {
                r.push(&self.edges[i]);
                proof {
                    assert(r@.map_values(|e: &GraphEdge| *e) =~= spec_edges_from(
                        self.edges@.take(i + 1int),
                        node_id@,
                    ));
                }
            } else {
                proof {
                    assert(r@.map_values(|e: &GraphEdge| *e) =~= spec_edges_from(
                        self.edges@.take(i + 1int),
                        node_id@,
                    ));
                }
            }
            i += 1;
        }
        proof {
            assert(self.edges@.take(n as int) =~= self.edges@);
        }
        r
    }

    /// All edges whose destination is the given node id, in insertion order.
    pub fn edges_to(&self, node_id: &str) -> (r: Vec<&GraphEdge>)
        ensures
            r@.map_values(|e: &GraphEdge| *e) == spec_edges_to(self.edges@, node_id@),
    {
        let key: String = node_id.to_owned();
        let n = self.edges.len();
        let mut r: Vec<&GraphEdge> = Vec::new();
        let mut i: usize = 0;
        while i < n
            invariant
                n == self.edges@.len(),
                0 <= i <= n,
                key@ == node_id@,
                r@.map_values(|e: &GraphEdge| *e) == spec_edges_to(
                    self.edges@.take(i as int),
                    node_id@,
                ),
            decreases n - i,
        {
            proof {
                assert(self.edges@.take(i + 1int).drop_last() =~= self.edges@.take(i as int));
                assert(self.edges@.take(i + 1int).last() == self.edges@[i as int]);
            }
            if self.edges[i].to == key {
                r.push(&self.edges[i]);
                proof {
                    assert(r@.map_values(|e: &GraphEdge| *e) =~= spec_edges_to(
                        self.edges@.take(i + 1int),
                        node_id@,
                    ));
                }
            } else {
                proof {
                    assert(r@.map_values(|e: &GraphEdge| *e) =~= spec_edges_to(
                        self.edges@.take(i + 1int),
                        node_id@,
                    ));
                }
            }
            i += 1;
        }
        proof {
            assert(self.edges@.take(n as int) =~= self.edges@);
        }
        r
    }
}

impl Default for GraphData {
    /// An empty graph.
    fn default() -> (r: GraphData)
        ensures
            r.nodes@.len() == 0,
            r.edges@.len() == 0,
    {
        GraphData::new()
    }
}

/// Everything drawn for a sequence of edges, in order.
pub open spec fn spec_edges_cmds(edges: Seq<GraphEdge>, nodes: Seq<GraphNode>) -> Seq<DrawCmd>
    decreases edges.len(),
{
    if edges.len() == 0 {
        Seq::empty()
    } else {
        spec_edges_cmds(edges.drop_last(), nodes) + crate::canvas::edge::spec_render_edge(
            edges.last(),
            nodes,
        )
    }
}

/// Everything drawn for a sequence of nodes, in order.
pub open spec fn spec_nodes_cmds(nodes: Seq<GraphNode>) -> Seq<DrawCmd>
    decreases nodes.len(),
{
    if nodes.len() == 0 {
        Seq::empty()
    } else {
        spec_nodes_cmds(nodes.drop_last()) + crate::canvas::node::spec_render_node(nodes.last())
    }
}

/// Everything one render pass draws: all edges first (so they appear
/// beneath the nodes), then all nodes, each in insertion order.
pub open spec fn spec_paint(g: GraphData) -> Seq<DrawCmd> {
    spec_edges_cmds(g.edges@, g.nodes@) + spec_nodes_cmds(g.nodes@)
}

/// Graph canvas composer.
///
/// Borrows a graph for one render pass and resolves the viewport: the
/// caller-supplied bounds where present, the calculated bounds otherwise.
pub struct GraphCanvas<'a> {
    /// The graph to render.
    pub graph: &'a GraphData,
    /// Caller-supplied override for the x bounds.
    pub x_bounds: Option<(i64, i64)>,
    /// Caller-supplied override for the y bounds.
    pub y_bounds: Option<(i64, i64)>,
}

/// The viewport a canvas resolves to: the overrides where present, the
/// calculated bounds otherwise.
pub open spec fn spec_resolved_bounds(c: GraphCanvas) -> (int, int, int, int) {
    let auto = crate::canvas::bounds::spec_calculate_bounds(c.graph.nodes@);
    let x = match c.x_bounds {
        Some(b) => (b.0 as int, b.1 as int),
        None => (auto.0, auto.1),
    };
    let y = match c.y_bounds {
        Some(b) => (b.0 as int, b.1 as int),
        None => (auto.2, auto.3),
    };
    (x.0, x.1, y.0, y.1)
}

impl<'a> GraphCanvas<'a> {
    /// Create a new graph canvas for one render pass over `graph`.
    pub fn new(graph: &'a GraphData) -> (r: GraphCanvas<'a>)
        ensures
            r.graph == graph,
            r.x_bounds.is_none(),
            r.y_bounds.is_none(),
    {
        GraphCanvas { graph, x_bounds: None, y_bounds: None }
    }

    /// Set custom x bounds, overriding the automatic calculation.
    pub fn x_bounds(self, min: i64, max: i64) -> (r: GraphCanvas<'a>)
        ensures
            r.graph == self.graph,
            r.x_bounds == Some((min, max)),
            r.y_bounds == self.y_bounds,
    {
        GraphCanvas { x_bounds: Some((min, max)), ..self }
    }

    /// Set custom y bounds, overriding the automatic calculation.
    pub fn y_bounds(self, min: i64, max: i64) -> (r: GraphCanvas<'a>)
        ensures
            r.graph == self.graph,
            r.x_bounds == self.x_bounds,
            r.y_bounds == Some((min, max)),
    {
        GraphCanvas { y_bounds: Some((min, max)), ..self }
    }

    /// The viewport for this render pass: caller-supplied bounds where
    /// present, calculated bounds otherwise.
    pub fn get_bounds(&self) -> (r: (i64, i64, i64, i64))
        requires
            forall|i: int| 0 <= i < self.graph.nodes@.len() ==> #[trigger] self.graph.nodes@[i].wf(),
        ensures
            (r.0 as int, r.1 as int, r.2 as int, r.3 as int) == spec_resolved_bounds(*self),
    {
        let auto = crate::canvas::bounds::calculate_bounds(self.graph.nodes.as_slice());
        let (min_x, max_x) = match self.x_bounds {
            Some(b) => b,
            None => (auto.0, auto.1),
        };
        let (min_y, max_y) = match self.y_bounds {
            Some(b) => b,
            None => (auto.2, auto.3),
        };
        (min_x, max_x, min_y, max_y)
    }

    /// Append one full render pass to `cmds`: every edge in insertion
    /// order, then every node in insertion order.
    pub fn paint(&self, cmds: &mut Vec<DrawCmd>)
        requires
            forall|i: int| 0 <= i < self.graph.nodes@.len() ==> #[trigger] self.graph.nodes@[i].wf(),
        ensures
            final(cmds)@ == old(cmds)@ + spec_paint(*self.graph),
    {
        let ghost nodes_view = self.graph.nodes@;
        let n_edges = self.graph.edges.len();
        let mut i: usize = 0;
        while i < n_edges
            invariant
                n_edges == self.graph.edges@.len(),
                0 <= i <= n_edges,
                forall|k: int| 0 <= k < nodes_view.len() ==> #[trigger] nodes_view[k].wf(),
                nodes_view == self.graph.nodes@,
                cmds@ == old(cmds)@ + spec_edges_cmds(self.graph.edges@.take(i as int), nodes_view),
            decreases n_edges - i,
        {
            proof {
                assert(self.graph.edges@.take(i + 1int).drop_last() =~= self.graph.edges@.take(
                    i as int,
                ));
                assert(self.graph.edges@.take(i + 1int).last() == self.graph.edges@[i as int]);
            }
            crate::canvas::edge::render_edge(cmds, &self.graph.edges[i], &self.graph.nodes);
            proof {
                assert(cmds@ =~= old(cmds)@ + spec_edges_cmds(
                    self.graph.edges@.take(i + 1int),
                    nodes_view,
                ));
            }
            i += 1;
        }
        proof {
            assert(self.graph.edges@.take(n_edges as int) =~= self.graph.edges@);
        }
        let n_nodes = self.graph.nodes.len();
        let mut j: usize = 0;
        while j < n_nodes
            invariant
                n_nodes == self.graph.nodes@.len(),
                0 <= j <= n_nodes,
                forall|k: int| 0 <= k < nodes_view.len() ==> #[trigger] nodes_view[k].wf(),
                nodes_view == self.graph.nodes@,
                cmds@ == old(cmds)@ + spec_edges_cmds(self.graph.edges@, nodes_view)
                    + spec_nodes_cmds(self.graph.nodes@.take(j as int)),
            decreases n_nodes - j,
        {
            proof {
                assert(self.graph.nodes@.take(j + 1int).drop_last() =~= self.graph.nodes@.take(
                    j as int,
                ));
                assert(self.graph.nodes@.take(j + 1int).last() == self.graph.nodes@[j as int]);
            }
            crate::canvas::node::render_node(cmds, &self.graph.nodes[j]);
            proof {
                assert(cmds@ =~= old(cmds)@ + spec_edges_cmds(self.graph.edges@, nodes_view)
                    + spec_nodes_cmds(self.graph.nodes@.take(j + 1int)));
            }
            j += 1;
        }
        proof {
            assert(self.graph.nodes@.take(n_nodes as int) =~= self.graph.nodes@);
            assert(cmds@ =~= old(cmds)@ + spec_paint(*self.graph));
        }
    }

    /// One full render pass: the resolved viewport and every drawing
    /// primitive, edges beneath nodes.
    pub fn render(&self) -> (r: ((i64, i64, i64, i64), Vec<DrawCmd>))
        requires
            forall|i: int| 0 <= i < self.graph.nodes@.len() ==> #[trigger] self.graph.nodes@[i].wf(),
        ensures
            (r.0.0 as int, r.0.1 as int, r.0.2 as int, r.0.3 as int) == spec_resolved_bounds(
                *self,
            ),
            r.1@ == spec_paint(*self.graph),
    {
        let bounds = self.get_bounds();
        let mut cmds: Vec<DrawCmd> = Vec::new();
        self.paint(&mut cmds);
        proof {
            assert(cmds@ =~= spec_paint(*self.graph));
        }
        (bounds, cmds)
    }
}

} // verus!
