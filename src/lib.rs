//! Transcoding of undirected `petgraph` graphs into the compact adjacency
//! arrays (offsets, neighbors, optional weights) that a multilevel
//! partitioning engine consumes.

mod graph;
mod error;
mod weights;
mod csr;
mod weighted;
mod transcode;
mod lemmas;
mod run;

pub use graph::{graph_adjacency, graph_node_weights, WeightedGraph};
pub use error::KaminParError;
pub use weights::{coerce_weight, fits_i32};
pub use run::{copy_assignment, resolve_threads};
pub use csr::{
    as_ints_i32, as_ints_u32, as_ints_u64, bad_target, before, create_edges_and_nodes, degree_sum,
    first_bad_target, flat_targets, flat_weights, has_bad_target, is_entry, row_targets, row_weights,
    spec_edge_weights, spec_neighbors, spec_offsets,
};
pub use weighted::{
    bad_weight, dropped, edge_weight_error, edge_weights_lenient, edge_weights_strict, first_node_fault,
    has_bad_weight, has_node_fault, kept, node_fault, node_weight_error, node_weights_strict,
    spec_lenient_edge_weights, spec_node_weights,
};
pub use transcode::{
    csr_matches, edge_policy, transcode, transcode_error, transcode_succeeds, uses_node_weights, Coercion, Csr,
    WeightMode,
};
pub use lemmas::{
    lemma_csr_lengths, lemma_lenient_weights_length, lemma_missing_node_weight_fails, lemma_offsets_give_degrees,
    lemma_transcode_deterministic, lemma_wide_edge_weight_fails,
};
