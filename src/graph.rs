use vstd::prelude::*;
use petgraph::visit::EdgeRef;

verus! {

#[verifier::external_type_specification]
#[verifier::external_body]
#[verifier::reject_recursive_types(N)]
#[verifier::reject_recursive_types(E)]
#[verifier::reject_recursive_types(Ty)]
#[verifier::reject_recursive_types(Ix)]
pub struct ExGraph<N, E, Ty, Ix>(petgraph::Graph<N, E, Ty, Ix>);

#[verifier::external_type_specification]
#[verifier::external_body]
pub struct ExUndirected(petgraph::Undirected);

/// The undirected graphs this library transcodes: a node may carry a weight,
/// every edge carries one.
pub type WeightedGraph = petgraph::Graph<Option<i64>, i64, petgraph::Undirected>;

/// For each node, in index order, the `(target index, edge weight)` pairs that
/// `Graph::edges` yields for it, in iteration order.
pub uninterp spec fn graph_adjacency(g: WeightedGraph) -> Seq<Seq<(int, int)>>;

/// For each node, in index order, the weight it carries.
pub uninterp spec fn graph_node_weights(g: WeightedGraph) -> Seq<Option<int>>;

/// Relies on `Graph::node_count`: the number of nodes, which is also the
/// length of both sequences above (nodes are indexed `0..node_count`).
#[verifier::external_body]
pub(crate) fn node_count(g: &WeightedGraph) -> (r: usize)
    ensures
        r == graph_adjacency(*g).len(),
        r == graph_node_weights(*g).len(),
{
    g.node_count()
}

/// Relies on `Graph::edges` on an existing node: the edges connected to it,
/// each seen as the pair of its other endpoint's index and its weight.
#[verifier::external_body]
pub(crate) fn node_edges(g: &WeightedGraph, node: usize) -> (r: Vec<(usize, i64)>)
    requires
        node < graph_adjacency(*g).len(),
    ensures
        r@.len() == graph_adjacency(*g)[node as int].len(),
        forall|j: int| 0 <= j < r@.len() ==> {
            &&& r@[j].0 as int == graph_adjacency(*g)[node as int][j].0
            &&& r@[j].1 as int == graph_adjacency(*g)[node as int][j].1
        },
{
    g.edges(petgraph::graph::NodeIndex::new(node)).map(|e| (e.target().index(), *e.weight())).collect()
}

/// Relies on `Graph::node_weight` on an existing node: the weight stored for it.
#[verifier::external_body]
pub(crate) fn node_weight(g: &WeightedGraph, node: usize) -> (r: Option<i64>)
    requires
        node < graph_node_weights(*g).len(),
    ensures
        r.is_some() == graph_node_weights(*g)[node as int].is_some(),
        r.is_some() ==> r.unwrap() as int == graph_node_weights(*g)[node as int].unwrap(),
{
    g.node_weight(petgraph::graph::NodeIndex::new(node)).copied().flatten()
}

} // verus!
