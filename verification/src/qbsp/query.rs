//! Results of potentially-visible and potentially-audible set queries.

use vstd::prelude::*;

use crate::qbsp::util::VisdataIter;

verus! {

/// A visibility query's result: clusters for Quake 2, leaf indices for the
/// other formats.
pub enum VisResult {
    /// An iterator of cluster ids.
    Clusters(VisdataIter),
    /// An iterator of leaf indices.
    LeafIndices(VisdataIter),
}

impl VisResult {
    /// The clusters, or the result unchanged when it holds leaf indices.
    pub fn into_clusters(self) -> (r: Result<VisdataIter, VisResult>)
        ensures
            self is Clusters ==> (r matches Ok(it) && self == VisResult::Clusters(it)),
            self is LeafIndices ==> r == Err::<VisdataIter, VisResult>(self),
    {
        match self {
            VisResult::Clusters(clusters) => Ok(clusters),
            other => Err(other),
        }
    }

    /// The leaf indices, or the result unchanged when it holds clusters.
    pub fn into_leaf_indices(self) -> (r: Result<VisdataIter, VisResult>)
        ensures
            self is LeafIndices ==> (r matches Ok(it) && self == VisResult::LeafIndices(it)),
            self is Clusters ==> r == Err::<VisdataIter, VisResult>(self),
    {
        match self {
            VisResult::LeafIndices(leaf_indices) => Ok(leaf_indices),
            other => Err(other),
        }
    }
}

} // verus!
