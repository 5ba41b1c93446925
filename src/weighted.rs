use vstd::prelude::*;
use crate::csr::{as_ints_i32, before, flat_weights, is_entry, row_weights, spec_edge_weights};
use crate::error::KaminParError;
use crate::graph::{graph_adjacency, graph_node_weights, node_count, node_edges, node_weight, WeightedGraph};
use crate::weights::{coerce_weight, fits_i32};

verus! {

/// A node weight that strict coercion cannot use: absent, or too wide.
pub open spec fn node_fault(w: Option<int>) -> bool {
    w is None || !fits_i32(w.unwrap())
}

pub open spec fn has_node_fault(nw: Seq<Option<int>>) -> bool {
    exists|v: int| 0 <= v < nw.len() && node_fault(nw[v])
}

/// Node `v` is the first whose weight strict coercion cannot use.
pub open spec fn first_node_fault(nw: Seq<Option<int>>, v: int) -> bool {
    &&& 0 <= v < nw.len()
    &&& node_fault(nw[v])
    &&& forall|u: int| 0 <= u < v ==> !node_fault(nw[u])
}

/// The error strict node weighting reports for its first faulty node.
pub open spec fn node_weight_error(nw: Seq<Option<int>>, e: KaminParError) -> bool {
    match e {
        KaminParError::NodeWeightMissing { node } => first_node_fault(nw, node as int) && nw[node as int] is None,
        KaminParError::WeightOutOfRange { node, position, value } => {
            &&& position is None
            &&& first_node_fault(nw, node as int)
            &&& nw[node as int] == Some(value as int)
        },
        _ => false,
    }
}

/// The node-weight array when no node is faulty.
pub open spec fn spec_node_weights(nw: Seq<Option<int>>) -> Seq<int> {
    nw.map_values(|w: Option<int>| w.unwrap())
}

pub open spec fn bad_weight(adj: Seq<Seq<(int, int)>>, v: int, j: int) -> bool {
    is_entry(adj, v, j) && !fits_i32(adj[v][j].1)
}

pub open spec fn has_bad_weight(adj: Seq<Seq<(int, int)>>) -> bool {
    exists|v: int, j: int| bad_weight(adj, v, j)
}

/// The error strict edge weighting reports: the first edge weight that does
/// not fit.
pub open spec fn edge_weight_error(adj: Seq<Seq<(int, int)>>, e: KaminParError) -> bool {
    match e {
        KaminParError::WeightOutOfRange { node, position, value } => {
            &&& position is Some
            &&& bad_weight(adj, node as int, position.unwrap() as int)
            &&& forall|u: int, i: int| before(u, i, node as int, position.unwrap() as int) ==> !bad_weight(adj, u, i)
            &&& value as int == adj[node as int][position.unwrap() as int].1
        },
        _ => false,
    }
}

/// The weights of `s` that fit in `i32`, in order.
pub open spec fn kept(s: Seq<int>) -> Seq<int>
    decreases s.len(),
{
    if s.len() == 0 {
        seq![]
    } else if fits_i32(s.last()) {
        kept(s.drop_last()).push(s.last())
    } else {
        kept(s.drop_last())
    }
}

/// How many weights of `s` do not fit in `i32`.
pub open spec fn dropped(s: Seq<int>) -> nat
    decreases s.len(),
{
    if s.len() == 0 {
        0
    } else if fits_i32(s.last()) {
        dropped(s.drop_last())
    } else {
        dropped(s.drop_last()) + 1
    }
}

/// The edge-weight array under best-effort coercion.
pub open spec fn spec_lenient_edge_weights(adj: Seq<Seq<(int, int)>>) -> Seq<int> {
    kept(spec_edge_weights(adj))
}

proof fn lemma_kept_append(a: Seq<int>, b: Seq<int>)
    ensures
        kept(a + b) == kept(a) + kept(b),
    decreases b.len(),
{
    if b.len() == 0 {
        assert(a + b =~= a);
        assert(kept(a) + kept(b) =~= kept(a));
    } else {
        lemma_kept_append(a, b.drop_last());
        assert((a + b).drop_last() =~= a + b.drop_last());
        assert((a + b).last() == b.last());
        assert(kept(a) + kept(b.drop_last()).push(b.last()) =~= (kept(a) + kept(b.drop_last())).push(b.last()));
    }
}

/// Strict node weighting: the weight of every node, in index order; fails on
/// the first node whose weight is missing or does not fit in `i32`.
pub fn node_weights_strict(graph: &WeightedGraph) -> (r: Result<Vec<i32>, KaminParError>)
    ensures
        r.is_ok() == !has_node_fault(graph_node_weights(*graph)),
        r matches Ok(w) ==> as_ints_i32(w@) == spec_node_weights(graph_node_weights(*graph)),
        r matches Err(e) ==> node_weight_error(graph_node_weights(*graph), e),
{
    let ghost nw = graph_node_weights(*graph);
    let n = node_count(graph);
    let mut out: Vec<i32> = Vec::new();
    let mut v: usize = 0;
    while v < n
        invariant
            n == nw.len(),
            nw == graph_node_weights(*graph),
            v <= n,
            as_ints_i32(out@) == spec_node_weights(nw).take(v as int),
            forall|u: int| 0 <= u < v ==> !node_fault(nw[u]),
        decreases n - v,
    {
        match node_weight(graph, v) {
            None => {
                return Err(KaminParError::NodeWeightMissing { node: v });
            },
            Some(w) => match coerce_weight(w) {
                None => {
                    return Err(KaminParError::WeightOutOfRange { node: v, position: None, value: w });
                },
                Some(x) => {
                    let ghost prev = out@;
                    out.push(x);
                    assert(as_ints_i32(out@) =~= as_ints_i32(prev).push(x as int));
                    assert(spec_node_weights(nw).take(v + 1) =~= spec_node_weights(nw).take(v as int).push(x as int));
                },
            },
        }
        v += 1;
    }
    assert(spec_node_weights(nw).take(n as int) =~= spec_node_weights(nw));
    Ok(out)
}

/// Strict edge weighting: the weight of every adjacency entry, in
/// transcoding order; fails on the first one that does not fit in `i32`.
pub fn edge_weights_strict(graph: &WeightedGraph) -> (r: Result<Vec<i32>, KaminParError>)
    ensures
        r.is_ok() == !has_bad_weight(graph_adjacency(*graph)),
        r matches Ok(w) ==> as_ints_i32(w@) == spec_edge_weights(graph_adjacency(*graph)),
        r matches Err(e) ==> edge_weight_error(graph_adjacency(*graph), e),
{
    let ghost adj = graph_adjacency(*graph);
    let n = node_count(graph);
    let mut out: Vec<i32> = Vec::new();
    let mut v: usize = 0;
    while v < n
        invariant
            n == adj.len(),
            adj == graph_adjacency(*graph),
            v <= n,
            as_ints_i32(out@) == flat_weights(adj, v as int),
            forall|u: int, i: int| u < v ==> !bad_weight(adj, u, i),
        decreases n - v,
    {
        let row = node_edges(graph, v);
        let mut j: usize = 0;
        while j < row.len()
            invariant
                n == adj.len(),
                adj == graph_adjacency(*graph),
                v < n,
                j <= row@.len(),
                row@.len() == adj[v as int].len(),
                forall|k: int| 0 <= k < row@.len() ==> {
                    &&& row@[k].0 as int == adj[v as int][k].0
                    &&& row@[k].1 as int == adj[v as int][k].1
                },
                as_ints_i32(out@) == flat_weights(adj, v as int) + row_weights(adj[v as int]).take(j as int),
                forall|u: int, i: int| u < v ==> !bad_weight(adj, u, i),
                forall|i: int| i < j ==> !bad_weight(adj, v as int, i),
            decreases row@.len() - j,
        {
            let w = row[j].1;
            match coerce_weight(w) {
                None => {
                    assert(bad_weight(adj, v as int, j as int));
                    assert forall|u: int, i: int| before(u, i, v as int, j as int) implies !bad_weight(adj, u, i) by {}
                    return Err(KaminParError::WeightOutOfRange { node: v, position: Some(j), value: w });
                },
                Some(x) => {
                    let ghost prev = out@;
                    out.push(x);
                    assert(as_ints_i32(out@) =~= as_ints_i32(prev).push(x as int));
                    assert(row_weights(adj[v as int]).take(j + 1) =~= row_weights(adj[v as int]).take(j as int).push(x as int));
                },
            }
            j += 1;
        }
        assert(row_weights(adj[v as int]).take(j as int) =~= row_weights(adj[v as int]));
        assert(flat_weights(adj, v + 1) == flat_weights(adj, v as int) + row_weights(adj[v as int]));
        v += 1;
    }
    assert(!has_bad_weight(adj)) by {
        assert forall|u: int, i: int| !bad_weight(adj, u, i) by {
            if bad_weight(adj, u, i) {
                assert(u < v);
            }
        }
    }
    Ok(out)
}

/// Best-effort edge weighting: the weights of the adjacency entries that fit
/// in `i32`, in transcoding order; the others are left out, so the result can
/// be shorter than the neighbors array.
pub fn edge_weights_lenient(graph: &WeightedGraph) -> (r: Vec<i32>)
    ensures
        as_ints_i32(r@) == spec_lenient_edge_weights(graph_adjacency(*graph)),
{
    let ghost adj = graph_adjacency(*graph);
    let n = node_count(graph);
    let mut out: Vec<i32> = Vec::new();
    let mut v: usize = 0;
    assert(kept(seq![]) =~= seq![]);
    while v < n
        invariant
            n == adj.len(),
            adj == graph_adjacency(*graph),
            v <= n,
            as_ints_i32(out@) == kept(flat_weights(adj, v as int)),
        decreases n - v,
    {
        let row = node_edges(graph, v);
        let mut j: usize = 0;
        while j < row.len()
            invariant
                n == adj.len(),
                adj == graph_adjacency(*graph),
                v < n,
                j <= row@.len(),
                row@.len() == adj[v as int].len(),
                forall|k: int| 0 <= k < row@.len() ==> {
                    &&& row@[k].0 as int == adj[v as int][k].0
                    &&& row@[k].1 as int == adj[v as int][k].1
                },
                as_ints_i32(out@) == kept(flat_weights(adj, v as int)) + kept(row_weights(adj[v as int]).take(j as int)),
            decreases row@.len() - j,
        {
            let w = row[j].1;
            let ghost s = row_weights(adj[v as int]).take(j + 1);
            assert(s.drop_last() =~= row_weights(adj[v as int]).take(j as int));
            assert(s.last() == w as int);
            match coerce_weight(w) {
                None => {},
                Some(x) => {
                    let ghost prev = out@;
                    out.push(x);
                    assert(as_ints_i32(out@) =~= as_ints_i32(prev).push(x as int));
                    assert(kept(flat_weights(adj, v as int)) + kept(s) =~= (kept(flat_weights(adj, v as int)) + kept(s.drop_last())).push(x as int));
                },
            }
            j += 1;
        }
        assert(row_weights(adj[v as int]).take(j as int) =~= row_weights(adj[v as int]));
        assert(flat_weights(adj, v + 1) == flat_weights(adj, v as int) + row_weights(adj[v as int]));
        proof {
            lemma_kept_append(flat_weights(adj, v as int), row_weights(adj[v as int]));
        }
        v += 1;
    }
    out
}

} // verus!
