use vstd::prelude::*;
use crate::csr::{
    as_ints_i32, as_ints_u32, as_ints_u64, before, bad_target, degree_sum, first_bad_target, flat_targets,
    flat_weights, has_bad_target, spec_edge_weights, spec_neighbors, spec_offsets,
};
use crate::error::KaminParError;
use crate::transcode::{csr_matches, edge_policy, transcode_error, transcode_succeeds, uses_node_weights, Coercion, Csr, WeightMode};
use crate::weighted::{bad_weight, dropped, first_node_fault, has_node_fault, kept, node_fault, spec_lenient_edge_weights};
use crate::weights::fits_i32;

verus! {

proof fn lemma_flat_lengths(adj: Seq<Seq<(int, int)>>, i: int)
    requires
        0 <= i <= adj.len(),
    ensures
        flat_targets(adj, i).len() == degree_sum(adj, i),
        flat_weights(adj, i).len() == degree_sum(adj, i),
    decreases i,
{
    if i > 0 {
        lemma_flat_lengths(adj, i - 1);
    }
}

proof fn lemma_kept_dropped(s: Seq<int>)
    ensures
        kept(s).len() + dropped(s) == s.len(),
    decreases s.len(),
{
    if s.len() > 0 {
        lemma_kept_dropped(s.drop_last());
    }
}

/// The offsets array has one entry per node plus one, starts at zero, and
/// ends at the length of the neighbors array, which is the sum of all degrees.
pub proof fn lemma_csr_lengths(adj: Seq<Seq<(int, int)>>)
    ensures
        spec_offsets(adj).len() == adj.len() + 1,
        spec_offsets(adj)[0] == 0,
        spec_neighbors(adj).len() == spec_offsets(adj)[adj.len() as int],
        spec_offsets(adj)[adj.len() as int] == degree_sum(adj, adj.len() as int),
{
    lemma_flat_lengths(adj, adj.len() as int);
}

/// Consecutive offsets differ by the degree of the node between them, as the
/// graph's adjacency iteration reports it.
pub proof fn lemma_offsets_give_degrees(adj: Seq<Seq<(int, int)>>, v: int)
    requires
        0 <= v < adj.len(),
    ensures
        spec_offsets(adj)[v + 1] - spec_offsets(adj)[v] == adj[v].len(),
{
}

/// With node weights requested, a node without a weight makes transcoding
/// fail; and when nothing else is wrong, the failure is `NodeWeightMissing`.
pub proof fn lemma_missing_node_weight_fails(adj: Seq<Seq<(int, int)>>, nw: Seq<Option<int>>, mode: WeightMode, v: int)
    requires
        uses_node_weights(mode),
        0 <= v < nw.len(),
        nw[v] is None,
    ensures
        !transcode_succeeds(adj, nw, mode),
        !has_bad_target(adj) && (forall|u: int| 0 <= u < nw.len() && nw[u] is Some ==> fits_i32(nw[u].unwrap()))
            ==> forall|e: KaminParError| transcode_error(adj, nw, mode, e) ==> e is NodeWeightMissing,
{
    assert(node_fault(nw[v]));
}

/// Under strict edge coercion, an edge weight that does not fit in `i32`
/// makes transcoding fail; when it is the only faulty item, the failure is
/// `WeightOutOfRange` naming that edge and its value.
pub proof fn lemma_wide_edge_weight_fails(adj: Seq<Seq<(int, int)>>, nw: Seq<Option<int>>, mode: WeightMode, v: int, j: int)
    requires
        edge_policy(mode) == Some(Coercion::Strict),
        bad_weight(adj, v, j),
    ensures
        !transcode_succeeds(adj, nw, mode),
        ({
            &&& !has_bad_target(adj)
            &&& uses_node_weights(mode) ==> !has_node_fault(nw)
            &&& forall|u: int, i: int| bad_weight(adj, u, i) ==> u == v && i == j
        }) ==> forall|e: KaminParError| transcode_error(adj, nw, mode, e) ==> e == (KaminParError::WeightOutOfRange {
            node: v as usize,
            position: Some(j as usize),
            value: adj[v][j].1 as i64,
        }),
{
}

/// Best-effort edge coercion leaves out exactly the weights that do not fit:
/// its array is shorter than the neighbors array by their number.
pub proof fn lemma_lenient_weights_length(adj: Seq<Seq<(int, int)>>)
    ensures
        spec_lenient_edge_weights(adj).len() + dropped(spec_edge_weights(adj)) == spec_neighbors(adj).len(),
{
    lemma_flat_lengths(adj, adj.len() as int);
    lemma_kept_dropped(spec_edge_weights(adj));
}

proof fn lemma_first_bad_target_unique(adj: Seq<Seq<(int, int)>>, v1: int, j1: int, v2: int, j2: int)
    requires
        first_bad_target(adj, v1, j1),
        first_bad_target(adj, v2, j2),
    ensures
        v1 == v2 && j1 == j2,
{
    if before(v1, j1, v2, j2) {
        assert(!bad_target(adj, v1, j1));
    } else if before(v2, j2, v1, j1) {
        assert(!bad_target(adj, v2, j2));
    }
}

/// Transcoding is deterministic: the same adjacency, node weights and mode
/// give the same arrays, and on failure the same error.
pub proof fn lemma_transcode_deterministic(
    adj: Seq<Seq<(int, int)>>,
    nw: Seq<Option<int>>,
    mode: WeightMode,
    c1: Csr,
    c2: Csr,
    e1: KaminParError,
    e2: KaminParError,
)
    ensures
        csr_matches(adj, nw, mode, c1) && csr_matches(adj, nw, mode, c2) ==> {
            &&& c1.offsets@ == c2.offsets@
            &&& c1.neighbors@ == c2.neighbors@
            &&& c1.node_weights.is_some() == c2.node_weights.is_some()
            &&& c1.node_weights matches Some(w1) ==> w1@ == c2.node_weights.unwrap()@
            &&& c1.edge_weights.is_some() == c2.edge_weights.is_some()
            &&& c1.edge_weights matches Some(w1) ==> w1@ == c2.edge_weights.unwrap()@
        },
        transcode_error(adj, nw, mode, e1) && transcode_error(adj, nw, mode, e2) ==> e1 == e2,
{
    if csr_matches(adj, nw, mode, c1) && csr_matches(adj, nw, mode, c2) {
        assert(c1.offsets@ =~= c2.offsets@) by {
            assert(as_ints_u64(c1.offsets@).len() == c1.offsets@.len() && as_ints_u64(c2.offsets@).len() == c2.offsets@.len());
            assert forall|i: int| 0 <= i < c1.offsets@.len() implies c1.offsets@[i] == c2.offsets@[i] by {
                assert(as_ints_u64(c1.offsets@)[i] == as_ints_u64(c2.offsets@)[i]);
            }
        }
        assert(c1.neighbors@ =~= c2.neighbors@) by {
            assert(as_ints_u32(c1.neighbors@).len() == c1.neighbors@.len() && as_ints_u32(c2.neighbors@).len() == c2.neighbors@.len());
            assert forall|i: int| 0 <= i < c1.neighbors@.len() implies c1.neighbors@[i] == c2.neighbors@[i] by {
                assert(as_ints_u32(c1.neighbors@)[i] == as_ints_u32(c2.neighbors@)[i]);
            }
        }
        if c1.node_weights is Some {
            let w1 = c1.node_weights.unwrap();
            let w2 = c2.node_weights.unwrap();
            assert(w1@ =~= w2@) by {
                assert(as_ints_i32(w1@).len() == w1@.len() && as_ints_i32(w2@).len() == w2@.len());
                assert forall|i: int| 0 <= i < w1@.len() implies w1@[i] == w2@[i] by {
                    assert(as_ints_i32(w1@)[i] == as_ints_i32(w2@)[i]);
                }
            }
        }
        if c1.edge_weights is Some {
            let w1 = c1.edge_weights.unwrap();
            let w2 = c2.edge_weights.unwrap();
            assert(w1@ =~= w2@) by {
                assert(as_ints_i32(w1@).len() == w1@.len() && as_ints_i32(w2@).len() == w2@.len());
                assert forall|i: int| 0 <= i < w1@.len() implies w1@[i] == w2@[i] by {
                    assert(as_ints_i32(w1@)[i] == as_ints_i32(w2@)[i]);
                }
            }
        }
    }
    if transcode_error(adj, nw, mode, e1) && transcode_error(adj, nw, mode, e2) {
        if has_bad_target(adj) {
            let (v1, j1) = match e1 {
                KaminParError::NodeIdConversionError { node, position, .. } => (node as int, position as int),
                _ => (0, 0),
            };
            let (v2, j2) = match e2 {
                KaminParError::NodeIdConversionError { node, position, .. } => (node as int, position as int),
                _ => (0, 0),
            };
            lemma_first_bad_target_unique(adj, v1, j1, v2, j2);
        } else if uses_node_weights(mode) && has_node_fault(nw) {
            let v1 = match e1 {
                KaminParError::NodeWeightMissing { node } => node as int,
                KaminParError::WeightOutOfRange { node, .. } => node as int,
                _ => 0,
            };
            let v2 = match e2 {
                KaminParError::NodeWeightMissing { node } => node as int,
                KaminParError::WeightOutOfRange { node, .. } => node as int,
                _ => 0,
            };
            assert(first_node_fault(nw, v1));
            assert(first_node_fault(nw, v2));
            if v1 < v2 {
                assert(!node_fault(nw[v1]));
            } else if v2 < v1 {
                assert(!node_fault(nw[v2]));
            }
        } else {
            let (v1, j1) = match e1 {
                KaminParError::WeightOutOfRange { node, position, .. } => (node as int, position.unwrap() as int),
                _ => (0, 0),
            };
            let (v2, j2) = match e2 {
                KaminParError::WeightOutOfRange { node, position, .. } => (node as int, position.unwrap() as int),
                _ => (0, 0),
            };
            if before(v1, j1, v2, j2) {
                assert(!bad_weight(adj, v1, j1));
            } else if before(v2, j2, v1, j1) {
                assert(!bad_weight(adj, v2, j2));
            }
        }
    }
}

} // verus!
