use vstd::prelude::*;

verus! {

/// Why a graph could not be transcoded.
#[derive(Debug, Clone, Copy, PartialEq, Eq, Structural)]
pub enum KaminParError {
    /// Strict node weighting met a node without a weight.
    NodeWeightMissing { node: usize },
    /// The `position`-th edge of `node` leads to a node index that does not
    /// fit in `u32`.
    NodeIdConversionError { node: usize, position: usize, index: usize },
    /// A weight does not fit in `i32`: the weight of `node` itself when
    /// `position` is `None`, else that of its `position`-th edge.
    WeightOutOfRange { node: usize, position: Option<usize>, value: i64 },
}

} // verus!
