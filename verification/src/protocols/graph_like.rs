//! The minimal surface of a directed graph store over copyable node values.

use vstd::prelude::*;

use crate::errors::GraphError;

verus! {

/// Node and edge bookkeeping of a directed graph whose nodes are addressed
/// by the index their insertion returned.
pub trait GraphLike<T: Copy>: Sized {
    /// Removes every node and edge.
    fn clear_graph(&mut self);

    /// Adds a node and returns its index.
    fn add_node(&mut self, value: T) -> usize;

    /// Whether a node lives at `index`.
    fn contains_node(&self, index: usize) -> bool;

    /// The node at `index`, if one lives there.
    fn get_node(&self, index: usize) -> Option<T>;

    /// Removes and returns the node at `index`.
    fn remove_node(&mut self, a: usize) -> Option<T>;

    /// Adds an unweighted directed edge from `a` to `b`.
    fn add_edge(&mut self, a: usize, b: usize) -> Result<(), GraphError>;

    /// Adds a directed edge from `a` to `b` carrying `weight`.
    fn add_edge_with_weight(&mut self, a: usize, b: usize, weight: u64) -> Result<(), GraphError>;

    /// Whether a directed edge runs from `a` to `b`.
    fn contains_edge(&self, a: usize, b: usize) -> bool;

    /// Removes the directed edge from `a` to `b`.
    fn remove_edge(&mut self, a: usize, b: usize) -> Result<(), GraphError>;
}

} // verus!
