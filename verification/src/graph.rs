use vstd::prelude::*;

use petgraph::visit::EdgeRef;

verus! {

// The workflow's dependency graph is a directed petgraph graph whose node
// weights are tool positions and whose edge weights are input slots
// (0 = primary, 1 = secondary).  The graph is opaque to the verifier; the
// two names below stand for what it holds, and every access goes through
// the wrappers, whose contracts say how each call changes or reads those
// names, as the graph crate's source shows.

#[verifier::external_type_specification]
#[verifier::external_body]
#[verifier::reject_recursive_types(N)]
#[verifier::reject_recursive_types(E)]
#[verifier::reject_recursive_types(Ty)]
#[verifier::reject_recursive_types(Ix)]
pub struct ExGraph<N, E, Ty, Ix>(petgraph::graph::Graph<N, E, Ty, Ix>);

#[verifier::external_type_specification]
#[verifier::external_body]
pub struct ExDirected(petgraph::Directed);

/// How many nodes the graph holds.
pub uninterp spec fn graph_node_count(
    g: petgraph::graph::Graph<u64, u8, petgraph::Directed, u32>,
) -> int;

/// The edges the graph holds, in insertion order: (source node, target
/// node, input slot).
pub uninterp spec fn graph_edges(
    g: petgraph::graph::Graph<u64, u8, petgraph::Directed, u32>,
) -> Seq<(int, int, int)>;

/// Relies on `Graph::with_capacity`: a graph with no nodes and no edges.
#[verifier::external_body]
pub(crate) fn graph_with_capacity(nodes: usize, edges: usize) -> (g: petgraph::graph::Graph<
    u64,
    u8,
    petgraph::Directed,
    u32,
>)
    ensures
        graph_node_count(g) == 0,
        graph_edges(g) == Seq::<(int, int, int)>::empty(),
{
    petgraph::graph::Graph::with_capacity(nodes, edges)
}

/// Relies on `Graph::add_node`: appends one node and returns its index,
/// which is the previous node count; edges are untouched.  The index type
/// caps the node count.
#[verifier::external_body]
pub(crate) fn graph_add_node(
    g: &mut petgraph::graph::Graph<u64, u8, petgraph::Directed, u32>,
    weight: u64,
) -> (ix: usize)
    requires
        graph_node_count(*old(g)) < 0xffff_ffff,
    ensures
        graph_node_count(*final(g)) == graph_node_count(*old(g)) + 1,
        graph_edges(*final(g)) == graph_edges(*old(g)),
        ix as int == graph_node_count(*old(g)),
{
    g.add_node(weight).index()
}

/// Relies on `Graph::add_edge`: appends one edge from `src` to `dst`
/// carrying `slot`; nodes are untouched.  Both endpoints must exist, and
/// the index type caps the edge count.
#[verifier::external_body]
pub(crate) fn graph_add_edge(
    g: &mut petgraph::graph::Graph<u64, u8, petgraph::Directed, u32>,
    src: usize,
    dst: usize,
    slot: u8,
)
    requires
        0 <= src < graph_node_count(*old(g)),
        0 <= dst < graph_node_count(*old(g)),
        graph_edges(*old(g)).len() < 0xffff_ffff,
    ensures
        graph_node_count(*final(g)) == graph_node_count(*old(g)),
        graph_edges(*final(g)) == graph_edges(*old(g)).push(
            (src as int, dst as int, slot as int),
        ),
{
    g.add_edge(
        petgraph::graph::NodeIndex::new(src),
        petgraph::graph::NodeIndex::new(dst),
        slot,
    );
}

/// Relies on `Graph::edge_references`: every edge of the graph, in
/// insertion order, as (source node, target node, input slot).
#[verifier::external_body]
pub(crate) fn graph_edge_list(
    g: &petgraph::graph::Graph<u64, u8, petgraph::Directed, u32>,
) -> (v: Vec<(usize, usize, u8)>)
    ensures
        v@.len() == graph_edges(*g).len(),
        forall|k: int|
            0 <= k < v@.len() ==> (#[trigger] v@[k]).0 as int == graph_edges(*g)[k].0 && v@[k].1
                as int == graph_edges(*g)[k].1 && v@[k].2 as int == graph_edges(*g)[k].2,
{
    g.edge_references().map(
        |e: petgraph::graph::EdgeReference<'_, u8, u32>|
            (e.source().index(), e.target().index(), *e.weight()),
    ).collect()
}

} // verus!
