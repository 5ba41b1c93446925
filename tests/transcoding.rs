use kaminpar::{
    coerce_weight, copy_assignment, create_edges_and_nodes, resolve_threads, transcode, Coercion, KaminParError,
    WeightMode, WeightedGraph,
};
use petgraph::graph::NodeIndex;

fn graph(nodes: &[Option<i64>], edges: &[(u32, u32, i64)]) -> WeightedGraph {
    let mut g = WeightedGraph::new_undirected();
    for w in nodes {
        g.add_node(*w);
    }
    for (a, b, w) in edges {
        g.add_edge(NodeIndex::new(*a as usize), NodeIndex::new(*b as usize), *w);
    }
    g
}

fn path4() -> WeightedGraph {
    graph(&[Some(1), Some(1), Some(1), Some(1)], &[(0, 1, 1), (1, 2, 1), (2, 3, 1)])
}

fn sorted(s: &[u32]) -> Vec<u32> {
    let mut v = s.to_vec();
    v.sort();
    v
}

#[test]
fn path_graph_offsets_and_neighbors() {
    let g = path4();
    let csr = transcode(&g, WeightMode::Unweighted).unwrap();
    assert_eq!(csr.offsets, vec![0, 1, 3, 5, 6]);
    assert_eq!(csr.neighbors.len(), 6);
    let o = &csr.offsets;
    let n = &csr.neighbors;
    assert_eq!(sorted(&n[o[0] as usize..o[1] as usize]), vec![1]);
    assert_eq!(sorted(&n[o[1] as usize..o[2] as usize]), vec![0, 2]);
    assert_eq!(sorted(&n[o[2] as usize..o[3] as usize]), vec![1, 3]);
    assert_eq!(sorted(&n[o[3] as usize..o[4] as usize]), vec![2]);
    assert!(csr.edge_weights.is_none());
    assert!(csr.node_weights.is_none());
}

#[test]
fn path_graph_follows_adjacency_iteration_order() {
    let (offsets, neighbors) = create_edges_and_nodes(&path4()).unwrap();
    assert_eq!(offsets, vec![0, 1, 3, 5, 6]);
    assert_eq!(neighbors, vec![1, 2, 0, 3, 1, 2]);
}

#[test]
fn degree_sum_identity() {
    let g = graph(&[None; 5], &[(0, 1, 1), (0, 2, 1), (1, 2, 1), (3, 4, 1), (2, 4, 1)]);
    let csr = transcode(&g, WeightMode::Unweighted).unwrap();
    assert_eq!(csr.offsets.len(), 6);
    assert_eq!(csr.offsets[0], 0);
    assert_eq!(csr.neighbors.len() as u64, csr.offsets[5]);
    assert_eq!(csr.offsets[5], 2 * 5);
}

#[test]
fn offsets_give_degrees() {
    let g = graph(&[None; 5], &[(0, 1, 1), (0, 2, 1), (0, 3, 1), (3, 4, 1)]);
    let (offsets, _) = create_edges_and_nodes(&g).unwrap();
    let degrees: Vec<u64> = (0..5).map(|v| offsets[v + 1] - offsets[v]).collect();
    let expected: Vec<u64> = (0..5).map(|v| g.edges(NodeIndex::new(v)).count() as u64).collect();
    assert_eq!(degrees, expected);
    assert_eq!(degrees, vec![3, 1, 1, 2, 1]);
}

#[test]
fn empty_graph() {
    let g = graph(&[], &[]);
    let csr = transcode(&g, WeightMode::Weighted(Coercion::Strict)).unwrap();
    assert_eq!(csr.offsets, vec![0]);
    assert!(csr.neighbors.is_empty());
    assert_eq!(csr.edge_weights, Some(vec![]));
    assert_eq!(csr.node_weights, Some(vec![]));
}

#[test]
fn isolated_nodes_and_self_loop() {
    let g = graph(&[None, None, None], &[(1, 1, 4)]);
    let (offsets, neighbors) = create_edges_and_nodes(&g).unwrap();
    assert_eq!(offsets, vec![0, 0, 1, 1]);
    assert_eq!(neighbors, vec![1]);
}

#[test]
fn multi_edges_are_kept() {
    let g = graph(&[None, None], &[(0, 1, 2), (0, 1, 3)]);
    let csr = transcode(&g, WeightMode::EdgeWeighted(Coercion::Strict)).unwrap();
    assert_eq!(csr.offsets, vec![0, 2, 4]);
    assert_eq!(csr.neighbors, vec![1, 1, 0, 0]);
    assert_eq!(csr.edge_weights, Some(vec![3, 2, 3, 2]));
}

#[test]
fn missing_node_weight_fails() {
    let g = graph(&[Some(1), None, Some(2)], &[(0, 1, 1), (1, 2, 1)]);
    assert_eq!(transcode(&g, WeightMode::NodeWeighted).err(), Some(KaminParError::NodeWeightMissing { node: 1 }));
    assert_eq!(
        transcode(&g, WeightMode::Weighted(Coercion::BestEffort)).err(),
        Some(KaminParError::NodeWeightMissing { node: 1 })
    );
}

#[test]
fn missing_node_weight_is_ignored_without_node_weights() {
    let g = graph(&[Some(1), None, Some(2)], &[(0, 1, 5), (1, 2, 6)]);
    let csr = transcode(&g, WeightMode::EdgeWeighted(Coercion::Strict)).unwrap();
    assert_eq!(csr.edge_weights, Some(vec![5, 6, 5, 6]));
    assert!(csr.node_weights.is_none());
}

#[test]
fn node_weights_in_index_order() {
    let g = graph(&[Some(7), Some(-3), Some(i32::MAX as i64)], &[(0, 2, 1)]);
    let csr = transcode(&g, WeightMode::NodeWeighted).unwrap();
    assert_eq!(csr.node_weights, Some(vec![7, -3, i32::MAX]));
    assert!(csr.edge_weights.is_none());
}

#[test]
fn node_weight_out_of_range() {
    let big = i32::MAX as i64 + 1;
    let g = graph(&[Some(1), Some(big), None], &[]);
    assert_eq!(
        transcode(&g, WeightMode::NodeWeighted).err(),
        Some(KaminParError::WeightOutOfRange { node: 1, position: None, value: big })
    );
}

#[test]
fn node_errors_come_before_edge_errors() {
    let g = graph(&[None, Some(1)], &[(0, 1, i64::MAX)]);
    assert_eq!(
        transcode(&g, WeightMode::Weighted(Coercion::Strict)).err(),
        Some(KaminParError::NodeWeightMissing { node: 0 })
    );
}

#[test]
fn wide_edge_weight_strict_fails() {
    let big = i32::MAX as i64 + 1;
    let g = graph(&[None, None, None], &[(0, 1, 1), (1, 2, big)]);
    // node 1 sees edge (1, 2) first, at position 0
    assert_eq!(
        transcode(&g, WeightMode::EdgeWeighted(Coercion::Strict)).err(),
        Some(KaminParError::WeightOutOfRange { node: 1, position: Some(0), value: big })
    );
}

#[test]
fn wide_edge_weight_best_effort_drops() {
    let small = i32::MIN as i64 - 1;
    let g = graph(&[None, None, None], &[(0, 1, 4), (1, 2, small)]);
    let csr = transcode(&g, WeightMode::EdgeWeighted(Coercion::BestEffort)).unwrap();
    assert_eq!(csr.neighbors.len(), 4);
    let w = csr.edge_weights.unwrap();
    assert_eq!(w.len(), csr.neighbors.len() - 2);
    assert_eq!(w, vec![4, 4]);
}

#[test]
fn transcoding_is_deterministic() {
    let g = graph(&[Some(1), Some(2), Some(3)], &[(0, 1, 5), (1, 2, 6), (2, 0, 7)]);
    let a = transcode(&g, WeightMode::Weighted(Coercion::Strict)).unwrap();
    let b = transcode(&g, WeightMode::Weighted(Coercion::Strict)).unwrap();
    assert_eq!(a.offsets, b.offsets);
    assert_eq!(a.neighbors, b.neighbors);
    assert_eq!(a.edge_weights, b.edge_weights);
    assert_eq!(a.node_weights, b.node_weights);
}

#[test]
fn coercion_bounds() {
    assert_eq!(coerce_weight(i32::MAX as i64), Some(i32::MAX));
    assert_eq!(coerce_weight(i32::MIN as i64), Some(i32::MIN));
    assert_eq!(coerce_weight(i32::MAX as i64 + 1), None);
    assert_eq!(coerce_weight(i32::MIN as i64 - 1), None);
    assert_eq!(coerce_weight(-42), Some(-42));
}

#[test]
fn thread_resolution() {
    assert_eq!(resolve_threads(Some(4), 2), 4);
    assert_eq!(resolve_threads(None, 8), 8);
    assert_eq!(resolve_threads(Some(usize::MAX), 2), i32::MAX);
    assert_eq!(resolve_threads(None, u32::MAX), i32::MAX);
}

#[test]
fn assignment_is_copied() {
    let raw = [0u32, 1, 1, 0];
    assert_eq!(copy_assignment(&raw), vec![0, 1, 1, 0]);
    assert_eq!(copy_assignment(&[]), Vec::<u32>::new());
}
