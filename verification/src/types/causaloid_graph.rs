//! A directed graph of causes, addressed by insertion index, with one
//! designated root.

use vstd::prelude::*;

verus! {

/// A directed acyclic arrangement of causes.  Nodes are appended and keep
/// their index; edges run from cause to effect.
#[derive(Debug, Clone)]
pub struct CausaloidGraph<T> {
    nodes: Vec<T>,
    edges: Vec<(usize, usize)>,
    root: Option<usize>,
}

impl<T> CausaloidGraph<T> {
    /// The nodes, in insertion order.
    pub closed spec fn spec_nodes(&self) -> Seq<T> {
        self.nodes@
    }

    /// The edges, in insertion order.
    pub closed spec fn spec_edges(&self) -> Seq<(usize, usize)> {
        self.edges@
    }

    /// The root index, if a root was added.
    pub closed spec fn spec_root(&self) -> Option<usize> {
        self.root
    }

    /// An empty graph with no root.
    pub fn new() -> (g: CausaloidGraph<T>)
        ensures
            g.spec_nodes().len() == 0,
            g.spec_edges().len() == 0,
            g.spec_root() is None,
    {
        CausaloidGraph { nodes: Vec::new(), edges: Vec::new(), root: None }
    }

    /// Adds the root cause and returns its index.
    pub fn add_root_causaloid(&mut self, value: T) -> (idx: usize)
        ensures
            idx == old(self).spec_nodes().len(),
            final(self).spec_nodes() == old(self).spec_nodes().push(value),
            final(self).spec_edges() == old(self).spec_edges(),
            final(self).spec_root() == Some(idx),
    {
        let idx = self.nodes.len();
        self.nodes.push(value);
        self.root = Some(idx);
        idx
    }

    /// Adds a cause and returns its index.
    pub fn add_causaloid(&mut self, value: T) -> (idx: usize)
        ensures
            idx == old(self).spec_nodes().len(),
            final(self).spec_nodes() == old(self).spec_nodes().push(value),
            final(self).spec_edges() == old(self).spec_edges(),
            final(self).spec_root() == old(self).spec_root(),
    {
        let idx = self.nodes.len();
        self.nodes.push(value);
        idx
    }

    /// Whether a cause lives at `index`.
    pub fn contains_causaloid(&self, index: usize) -> (r: bool)
        ensures
            r == (index < self.spec_nodes().len()),
    {
        index < self.nodes.len()
    }

    /// The cause at `index`, if any.
    pub fn get_causaloid(&self, index: usize) -> (r: Option<&T>)
        ensures
            match r {
                Some(v) => index < self.spec_nodes().len() && *v == self.spec_nodes()[index as int],
                None => index >= self.spec_nodes().len(),
            },
    {
        if index < self.nodes.len() {
            Some(&self.nodes[index])
        } else {
            None
        }
    }

    /// Whether a root was added.
    pub fn contains_root_causaloid(&self) -> (r: bool)
        ensures
            r == (self.spec_root() is Some),
    {
        self.root.is_some()
    }

    /// The root's index, if a root was added.
    pub fn get_root_index(&self) -> (r: Option<usize>)
        ensures
            r == self.spec_root(),
    {
        self.root
    }

    /// Links cause `a` to effect `b`; both must have been added.
    pub fn add_edge(&mut self, a: usize, b: usize)
        requires
            a < old(self).spec_nodes().len(),
            b < old(self).spec_nodes().len(),
        ensures
            final(self).spec_nodes() == old(self).spec_nodes(),
            final(self).spec_edges() == old(self).spec_edges().push((a, b)),
            final(self).spec_root() == old(self).spec_root(),
    {
        self.edges.push((a, b));
    }

    /// Whether an edge runs from `a` to `b`.
    pub fn contains_edge(&self, a: usize, b: usize) -> (r: bool)
        ensures
            r == exists|k: int|
                0 <= k < self.spec_edges().len() && #[trigger] self.spec_edges()[k] == (a, b),
    {
        let n = self.edges.len();
        let mut k: usize = 0;
        while k < n
            invariant
                n == self.spec_edges().len(),
                k <= n,
                forall|j: int| 0 <= j < k ==> #[trigger] self.spec_edges()[j] != (a, b),
            decreases n - k,
        {
            let (ea, eb) = self.edges[k];
            if ea == a && eb == b {
                proof {
                    assert(self.spec_edges()[k as int] == (a, b));
                }
                return true;
            }
            k += 1;
        }
        false
    }

    /// The number of causes held.
    pub fn size(&self) -> (n: usize)
        ensures
            n == self.spec_nodes().len(),
    {
        self.nodes.len()
    }

    /// Whether no cause is held.
    pub fn is_empty(&self) -> (r: bool)
        ensures
            r == (self.spec_nodes().len() == 0),
    {
        self.nodes.len() == 0
    }

    /// The number of causes held.
    pub fn count_nodes(&self) -> (n: usize)
        ensures
            n == self.spec_nodes().len(),
    {
        self.nodes.len()
    }

    /// The number of edges held.
    pub fn count_edges(&self) -> (n: usize)
        ensures
            n == self.spec_edges().len(),
    {
        self.edges.len()
    }
}

} // verus!
