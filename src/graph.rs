//! The execution graph of a frame: the two compute stages and the external
//! display step, with the edges that order them.
//!
//! The render stage runs before the simulation stage, so it draws the
//! particles as the previous frame's simulation left them (one frame of
//! latency); the display step runs last and shows the texture drawn in the
//! same frame.

use vstd::prelude::*;

verus! {

/// A node of the execution graph.
#[derive(Clone, Copy, Debug, PartialEq, Eq, Structural)]
pub enum GraphNode {
    /// The simulation stage.
    Simulation,
    /// The render stage.
    Render,
    /// The host's display step, which presents the output texture.
    Display,
}

impl GraphNode {
    /// The name under which the node is registered with the host.
    pub fn label(self) -> (r: &'static str)
        ensures
            self == GraphNode::Simulation ==> r@ == "simulation"@,
            self == GraphNode::Render ==> r@ == "render"@,
            self == GraphNode::Display ==> r@ == "display"@,
    {
        match self {
            GraphNode::Simulation => "simulation",
            GraphNode::Render => "render",
            GraphNode::Display => "display",
        }
    }
}

/// The declared edges, each `(before, after)`: the simulation precedes the
/// display, and the render stage precedes the simulation.
pub open spec fn graph_edges_spec() -> Seq<(GraphNode, GraphNode)> {
    seq![(GraphNode::Simulation, GraphNode::Display), (GraphNode::Render, GraphNode::Simulation)]
}

/// The order in which a frame runs the nodes.
pub open spec fn tick_order_spec() -> Seq<GraphNode> {
    seq![GraphNode::Render, GraphNode::Simulation, GraphNode::Display]
}

/// `order` runs each node of the graph exactly once.
pub open spec fn runs_each_node_once(order: Seq<GraphNode>) -> bool {
    &&& order.len() == 3
    &&& order.no_duplicates()
    &&& order.contains(GraphNode::Simulation)
    &&& order.contains(GraphNode::Render)
    &&& order.contains(GraphNode::Display)
}

/// For every edge `(a, b)`, `order` runs `a` before `b`.
pub open spec fn respects_edges(order: Seq<GraphNode>, edges: Seq<(GraphNode, GraphNode)>) -> bool {
    forall|k: int|
        0 <= k < edges.len() ==> exists|i: int, j: int|
            0 <= i < j < order.len() && order[i] == (#[trigger] edges[k]).0 && order[j] == edges[k].1
}

/// The declared edges.
pub fn graph_edges() -> (r: Vec<(GraphNode, GraphNode)>)
    ensures
        r@ == graph_edges_spec(),
{
    let mut r: Vec<(GraphNode, GraphNode)> = Vec::new();
    r.push((GraphNode::Simulation, GraphNode::Display));
    r.push((GraphNode::Render, GraphNode::Simulation));
    assert(r@ =~= graph_edges_spec());
    r
}

/// The order of one frame: render, then simulation, then display.
pub fn tick_order() -> (r: Vec<GraphNode>)
    ensures
        r@ == tick_order_spec(),
{
    let mut r: Vec<GraphNode> = Vec::new();
    r.push(GraphNode::Render);
    r.push(GraphNode::Simulation);
    r.push(GraphNode::Display);
    assert(r@ =~= tick_order_spec());
    r
}

/// The order of a frame runs every node once and honours every declared
/// edge.
pub proof fn lemma_tick_order_respects_edges()
    ensures
        runs_each_node_once(tick_order_spec()),
        respects_edges(tick_order_spec(), graph_edges_spec()),
{
    let order = tick_order_spec();
    let edges = graph_edges_spec();
    assert(order[0] == GraphNode::Render);
    assert(order[1] == GraphNode::Simulation);
    assert(order[2] == GraphNode::Display);
    assert forall|k: int| 0 <= k < edges.len() implies exists|i: int, j: int|
        0 <= i < j < order.len() && order[i] == (#[trigger] edges[k]).0 && order[j]
            == edges[k].1 by {
        if k == 0 {
            assert(0 <= 1 < 2 < order.len() && order[1] == edges[k].0 && order[2] == edges[k].1);
        } else {
            assert(0 <= 0 < 1 < order.len() && order[0] == edges[k].0 && order[1] == edges[k].1);
        }
    }
}

} // verus!
