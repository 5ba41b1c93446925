use vstd::prelude::*;
use crate::csr::{
    as_ints_i32, as_ints_u32, as_ints_u64, create_edges_and_nodes, first_bad_target, has_bad_target,
    spec_edge_weights, spec_neighbors, spec_offsets,
};
use crate::error::KaminParError;
use crate::graph::{graph_adjacency, graph_node_weights, WeightedGraph};
use crate::weighted::{
    edge_weight_error, edge_weights_lenient, edge_weights_strict, has_bad_weight, has_node_fault,
    node_weight_error, node_weights_strict, spec_lenient_edge_weights, spec_node_weights,
};

verus! {

/// How weights that do not fit in `i32` are handled.
#[derive(Debug, Clone, Copy, PartialEq, Eq, Structural)]
pub enum Coercion {
    /// The first such weight aborts the whole transcoding.
    Strict,
    /// Such weights are left out of the weight array.
    BestEffort,
}

/// Which weights are sent along with the adjacency.
#[derive(Debug, Clone, Copy, PartialEq, Eq, Structural)]
pub enum WeightMode {
    Unweighted,
    EdgeWeighted(Coercion),
    /// Node weights only, always coerced strictly.
    NodeWeighted,
    /// Node weights, coerced strictly, and edge weights under the given policy.
    Weighted(Coercion),
}

/// The compact adjacency representation of a graph.
pub struct Csr {
    pub offsets: Vec<u64>,
    pub neighbors: Vec<u32>,
    pub edge_weights: Option<Vec<i32>>,
    pub node_weights: Option<Vec<i32>>,
}

pub open spec fn uses_node_weights(mode: WeightMode) -> bool {
    mode is NodeWeighted || mode is Weighted
}

pub open spec fn edge_policy(mode: WeightMode) -> Option<Coercion> {
    match mode {
        WeightMode::EdgeWeighted(c) => Some(c),
        WeightMode::Weighted(c) => Some(c),
        _ => None,
    }
}

/// Transcoding succeeds: every target fits in `u32`, and every weight that
/// must be coerced strictly can be.
pub open spec fn transcode_succeeds(adj: Seq<Seq<(int, int)>>, nw: Seq<Option<int>>, mode: WeightMode) -> bool {
    &&& !has_bad_target(adj)
    &&& uses_node_weights(mode) ==> !has_node_fault(nw)
    &&& edge_policy(mode) == Some(Coercion::Strict) ==> !has_bad_weight(adj)
}

/// `c` is the transcoding of a graph with adjacency `adj` and node weights `nw`.
pub open spec fn csr_matches(adj: Seq<Seq<(int, int)>>, nw: Seq<Option<int>>, mode: WeightMode, c: Csr) -> bool {
    &&& as_ints_u64(c.offsets@) == spec_offsets(adj)
    &&& as_ints_u32(c.neighbors@) == spec_neighbors(adj)
    &&& c.node_weights.is_some() == uses_node_weights(mode)
    &&& c.node_weights matches Some(w) ==> as_ints_i32(w@) == spec_node_weights(nw)
    &&& c.edge_weights.is_some() == edge_policy(mode).is_some()
    &&& c.edge_weights matches Some(w) ==> as_ints_i32(w@) == if edge_policy(mode) == Some(Coercion::Strict) {
        spec_edge_weights(adj)
    } else {
        spec_lenient_edge_weights(adj)
    }
}

/// The error transcoding reports: checks run on targets first, then on node
/// weights, then on edge weights, each in transcoding order.
pub open spec fn transcode_error(adj: Seq<Seq<(int, int)>>, nw: Seq<Option<int>>, mode: WeightMode, e: KaminParError) -> bool {
    if has_bad_target(adj) {
        e matches KaminParError::NodeIdConversionError { node, position, index }
            && first_bad_target(adj, node as int, position as int)
            && index as int == adj[node as int][position as int].0
    } else if uses_node_weights(mode) && has_node_fault(nw) {
        node_weight_error(nw, e)
    } else {
        edge_weight_error(adj, e)
    }
}

/// Transcodes `graph` into its compact adjacency representation, with the
/// weights that `mode` asks for. Nothing partial is returned on failure.
pub fn transcode(graph: &WeightedGraph, mode: WeightMode) -> (r: Result<Csr, KaminParError>)
    ensures
        r.is_ok() == transcode_succeeds(graph_adjacency(*graph), graph_node_weights(*graph), mode),
        r matches Ok(c) ==> csr_matches(graph_adjacency(*graph), graph_node_weights(*graph), mode, c),
        r matches Err(e) ==> transcode_error(graph_adjacency(*graph), graph_node_weights(*graph), mode, e),
{
    let (offsets, neighbors) = match create_edges_and_nodes(graph) {
        Ok(arrays) => arrays,
        Err(e) => {
            return Err(e);
        },
    };
    let node_weights = match mode {
        WeightMode::NodeWeighted | WeightMode::Weighted(_) => match node_weights_strict(graph) {
            Ok(w) => Some(w),
            Err(e) => {
                return Err(e);
            },
        },
        _ => None,
    };
    let policy = match mode {
        WeightMode::EdgeWeighted(c) => Some(c),
        WeightMode::Weighted(c) => Some(c),
        _ => None,
    };
    let edge_weights = match policy {
        Some(Coercion::Strict) => match edge_weights_strict(graph) {
            Ok(w) => Some(w),
            Err(e) => {
                return Err(e);
            },
        },
        Some(Coercion::BestEffort) => Some(edge_weights_lenient(graph)),
        None => None,
    };
    Ok(Csr { offsets, neighbors, edge_weights, node_weights })
}

} // verus!
