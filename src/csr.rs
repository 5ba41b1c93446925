use vstd::prelude::*;
use crate::error::KaminParError;
use crate::graph::{graph_adjacency, node_count, node_edges, WeightedGraph};

verus! {

/// Number of adjacency entries of the first `i` nodes.
pub open spec fn degree_sum(adj: Seq<Seq<(int, int)>>, i: int) -> int
    decreases i,
{
    if i <= 0 || i > adj.len() { 0 } else { degree_sum(adj, i - 1) + adj[i - 1].len() }
}

/// The offsets array: entry `i` is the number of adjacency entries before node `i`.
pub open spec fn spec_offsets(adj: Seq<Seq<(int, int)>>) -> Seq<int> {
    Seq::new((adj.len() + 1) as nat, |i: int| degree_sum(adj, i))
}

pub open spec fn row_targets(row: Seq<(int, int)>) -> Seq<int> {
    row.map_values(|p: (int, int)| p.0)
}

pub open spec fn row_weights(row: Seq<(int, int)>) -> Seq<int> {
    row.map_values(|p: (int, int)| p.1)
}

/// Neighbor indices of the first `i` nodes, node after node.
pub open spec fn flat_targets(adj: Seq<Seq<(int, int)>>, i: int) -> Seq<int>
    decreases i,
{
    if i <= 0 || i > adj.len() { seq![] } else { flat_targets(adj, i - 1) + row_targets(adj[i - 1]) }
}

/// Edge weights of the first `i` nodes, node after node.
pub open spec fn flat_weights(adj: Seq<Seq<(int, int)>>, i: int) -> Seq<int>
    decreases i,
{
    if i <= 0 || i > adj.len() { seq![] } else { flat_weights(adj, i - 1) + row_weights(adj[i - 1]) }
}

/// The neighbors array.
pub open spec fn spec_neighbors(adj: Seq<Seq<(int, int)>>) -> Seq<int> {
    flat_targets(adj, adj.len() as int)
}

/// The edge-weight array under strict coercion.
pub open spec fn spec_edge_weights(adj: Seq<Seq<(int, int)>>) -> Seq<int> {
    flat_weights(adj, adj.len() as int)
}

/// `(v, j)` names the `j`-th adjacency entry of node `v`.
pub open spec fn is_entry(adj: Seq<Seq<(int, int)>>, v: int, j: int) -> bool {
    0 <= v < adj.len() && 0 <= j < adj[v].len()
}

/// Entry `(u, i)` comes before entry `(v, j)` in transcoding order.
pub open spec fn before(u: int, i: int, v: int, j: int) -> bool {
    u < v || (u == v && i < j)
}

pub open spec fn bad_target(adj: Seq<Seq<(int, int)>>, v: int, j: int) -> bool {
    is_entry(adj, v, j) && adj[v][j].0 > u32::MAX
}

pub open spec fn has_bad_target(adj: Seq<Seq<(int, int)>>) -> bool {
    exists|v: int, j: int| bad_target(adj, v, j)
}

/// `(v, j)` is the first entry whose target does not fit in `u32`.
pub open spec fn first_bad_target(adj: Seq<Seq<(int, int)>>, v: int, j: int) -> bool {
    bad_target(adj, v, j) && forall|u: int, i: int| before(u, i, v, j) ==> !bad_target(adj, u, i)
}

pub open spec fn as_ints_u64(s: Seq<u64>) -> Seq<int> {
    s.map_values(|x: u64| x as int)
}

pub open spec fn as_ints_u32(s: Seq<u32>) -> Seq<int> {
    s.map_values(|x: u32| x as int)
}

pub open spec fn as_ints_i32(s: Seq<i32>) -> Seq<int> {
    s.map_values(|x: i32| x as int)
}

/// Builds the offsets and neighbors arrays of `graph`, walking its nodes in
/// index order and each node's edges in the graph's own iteration order.
pub fn create_edges_and_nodes(graph: &WeightedGraph) -> (r: Result<(Vec<u64>, Vec<u32>), KaminParError>)
    ensures
        r.is_ok() == !has_bad_target(graph_adjacency(*graph)),
        r matches Ok((offsets, neighbors)) ==> {
            &&& as_ints_u64(offsets@) == spec_offsets(graph_adjacency(*graph))
            &&& as_ints_u32(neighbors@) == spec_neighbors(graph_adjacency(*graph))
        },
        r matches Err(e) ==> e matches KaminParError::NodeIdConversionError { node, position, index }
            && first_bad_target(graph_adjacency(*graph), node as int, position as int)
            && index as int == graph_adjacency(*graph)[node as int][position as int].0,
{
    let ghost adj = graph_adjacency(*graph);
    let n = node_count(graph);
    let mut nodes: Vec<u64> = Vec::new();
    let mut edges: Vec<u32> = Vec::new();
    nodes.push(0);
    let mut v: usize = 0;
    assert(as_ints_u64(nodes@) =~= spec_offsets(adj).take(1));
    while v < n
        invariant
            n == adj.len(),
            adj == graph_adjacency(*graph),
            v <= n,
            as_ints_u64(nodes@) == spec_offsets(adj).take(v + 1),
            as_ints_u32(edges@) == flat_targets(adj, v as int),
            edges@.len() == degree_sum(adj, v as int),
            forall|u: int, i: int| u < v ==> !bad_target(adj, u, i),
        decreases n - v,
    {
        let row = node_edges(graph, v);
        let ghost base = edges@;
        let mut j: usize = 0;
        while j < row.len()
            invariant
                n == adj.len(),
                adj == graph_adjacency(*graph),
                v < n,
                j <= row@.len(),
                row@.len() == adj[v as int].len(),
                forall|k: int| 0 <= k < row@.len() ==> {
                    &&& row@[k].0 as int == adj[v as int][k].0
                    &&& row@[k].1 as int == adj[v as int][k].1
                },
                as_ints_u32(edges@) == flat_targets(adj, v as int) + row_targets(adj[v as int]).take(j as int),
                edges@.len() == degree_sum(adj, v as int) + j,
                forall|u: int, i: int| u < v ==> !bad_target(adj, u, i),
                forall|i: int| i < j ==> !bad_target(adj, v as int, i),
            decreases row@.len() - j,
        {
            let target = row[j].0;
            if target > u32::MAX as usize {
                assert(bad_target(adj, v as int, j as int));
                assert forall|u: int, i: int| before(u, i, v as int, j as int) implies !bad_target(adj, u, i) by {}
                return Err(KaminParError::NodeIdConversionError { node: v, position: j, index: target });
            }
            let ghost prev = edges@;
            edges.push(target as u32);
            assert(as_ints_u32(edges@) =~= as_ints_u32(prev).push(target as int));
            assert(row_targets(adj[v as int]).take(j + 1) =~= row_targets(adj[v as int]).take(j as int).push(target as int));
            j += 1;
        }
        assert(row_targets(adj[v as int]).take(j as int) =~= row_targets(adj[v as int]));
        assert(flat_targets(adj, v + 1) == flat_targets(adj, v as int) + row_targets(adj[v as int]));
        let ghost prev = nodes@;
        nodes.push(edges.len() as u64);
        assert(as_ints_u64(nodes@) =~= as_ints_u64(prev).push(edges@.len() as int));
        assert(spec_offsets(adj).take(v + 2) =~= spec_offsets(adj).take(v + 1).push(degree_sum(adj, v + 1)));
        v += 1;
    }
    assert(spec_offsets(adj).take(n + 1) =~= spec_offsets(adj));
    assert(!has_bad_target(adj)) by {
        assert forall|u: int, i: int| !bad_target(adj, u, i) by {
            if bad_target(adj, u, i) {
                assert(u < v);
            }
        }
    }
    Ok((nodes, edges))
}

} // verus!
