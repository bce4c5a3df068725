//! The context graph: identified nodes of the five context node kinds,
//! addressed by insertion index, joined by directed, relation-kinded edges.
//!
//! Storage is an index arena: removed slots become tombstones so that the
//! index of every other node stays stable.

use vstd::prelude::*;
use vstd::string::StringExecFns;

use crate::errors::ContextIndexError;
use crate::protocols::contextuable::ContextuableGraph;
use crate::protocols::contextuable::Datable;
use crate::protocols::contextuable::SpaceTemporal;
use crate::protocols::contextuable::Spatial;
use crate::protocols::contextuable::Temporable;
use crate::types::context_types::contextoid::Contextoid;
use crate::types::context_types::node_types::RelationKind;

verus! {

/// How many of the slots hold a live node.
pub open spec fn live_count<C>(s: Seq<Option<C>>) -> int
    decreases s.len(),
{
    if s.len() == 0 {
        0
    } else {
        live_count(s.drop_last()) + if s.last() is Some {
            1int
        } else {
            0int
        }
    }
}

/// Whether a directed edge from `a` to `b` occurs in `edges`.
pub open spec fn has_edge(edges: Seq<(usize, usize, RelationKind)>, a: usize, b: usize) -> bool {
    exists|k: int| 0 <= k < edges.len() && (#[trigger] edges[k]).0 == a && edges[k].1 == b
}

/// A named, identified context over one choice of the four node kinds.
#[derive(Debug, Clone)]
pub struct Context<D, S, T, ST> where
    D: Datable,
    S: Spatial,
    T: Temporable,
    ST: SpaceTemporal,
 {
    id: u64,
    name: String,
    nodes: Vec<Option<Contextoid<D, S, T, ST>>>,
    edges: Vec<(usize, usize, RelationKind)>,
}

impl<D, S, T, ST> Context<D, S, T, ST> where
    D: Datable,
    S: Spatial,
    T: Temporable,
    ST: SpaceTemporal,
 {
    /// The identity, as an abstract value.
    pub closed spec fn spec_id(&self) -> u64 {
        self.id
    }

    /// The name, as an abstract value.
    pub closed spec fn spec_name(&self) -> Seq<char> {
        self.name@
    }

    /// The node slots, in insertion order; a `None` is a removed node.
    pub closed spec fn spec_nodes(&self) -> Seq<Option<Contextoid<D, S, T, ST>>> {
        self.nodes@
    }

    /// The edges, in insertion order.
    pub closed spec fn spec_edges(&self) -> Seq<(usize, usize, RelationKind)> {
        self.edges@
    }

    /// Creates a new context with the given node capacity.
    pub fn with_capacity(id: u64, name: &str, capacity: usize) -> (c: Context<D, S, T, ST>)
        ensures
            c.spec_id() == id,
            c.spec_name() == name@,
            c.spec_nodes().len() == 0,
            c.spec_edges().len() == 0,
    {
        Context {
            id,
            name: String::from_str(name),
            nodes: Vec::with_capacity(capacity),
            edges: Vec::new(),
        }
    }

    /// Returns the name of the context.
    pub fn name(&self) -> (n: &str)
        ensures
            n@ == self.spec_name(),
    {
        self.name.as_str()
    }

    /// The identity of the context.
    pub fn id(&self) -> (id: u64)
        ensures
            id == self.spec_id(),
    {
        self.id
    }
}

impl<D, S, T, ST> ContextuableGraph<D, S, T, ST> for Context<D, S, T, ST> where
    D: Datable,
    S: Spatial,
    T: Temporable,
    ST: SpaceTemporal,
 {
    /// Appends the node and returns its index; no other slot changes.
    fn add_node(&mut self, value: Contextoid<D, S, T, ST>) -> (idx: usize)
        ensures
            idx == old(self).spec_nodes().len(),
            final(self).spec_nodes() == old(self).spec_nodes().push(Some(value)),
            final(self).spec_edges() == old(self).spec_edges(),
    {
        let idx = self.nodes.len();
        self.nodes.push(Some(value));
        idx
    }

    /// A node lives at `index` exactly when the slot exists and was not
    /// removed.
    fn contains_node(&self, index: usize) -> (r: bool)
        ensures
            r == (index < self.spec_nodes().len() && self.spec_nodes()[index as int] is Some),
    {
        index < self.nodes.len() && self.nodes[index].is_some()
    }

    /// The node at `index`; `None` exactly when no node lives there.
    fn get_node(&self, index: usize) -> (r: Option<&Contextoid<D, S, T, ST>>)
        ensures
            match r {
                Some(node) => index < self.spec_nodes().len() && self.spec_nodes()[index as int]
                    == Some(*node),
                None => !(index < self.spec_nodes().len() && self.spec_nodes()[index as int]
                    is Some),
            },
    {
        if index < self.nodes.len() {
            self.nodes[index].as_ref()
        } else {
            None
        }
    }

    /// Removes the node at `index`, leaving a tombstone so every other
    /// index stays valid; fails exactly when no node lives there.
    fn remove_node(&mut self, index: usize) -> (r: Result<(), ContextIndexError>)
        ensures
            match r {
                Ok(()) => {
                    &&& index < old(self).spec_nodes().len()
                    &&& old(self).spec_nodes()[index as int] is Some
                    &&& final(self).spec_nodes() == old(self).spec_nodes().update(
                        index as int,
                        None::<Contextoid<D, S, T, ST>>,
                    )
                    &&& final(self).spec_edges() == old(self).spec_edges()
                },
                Err(_) => {
                    &&& !(index < old(self).spec_nodes().len() && old(self).spec_nodes()[
                        index as int] is Some)
                    &&& *final(self) == *old(self)
                },
            },
    {
        if index < self.nodes.len() && self.nodes[index].is_some() {
            self.nodes[index] = None;
            Ok(())
        } else {
            Err(ContextIndexError::new(String::from_str("index not found")))
        }
    }

    /// Adds a directed edge from `a` to `b`; fails exactly when either end
    /// is not a live node or the edge already exists.
    fn add_edge(&mut self, a: usize, b: usize, weight: RelationKind) -> (r: Result<
        (),
        ContextIndexError,
    >)
        ensures
            match r {
                Ok(()) => {
                    &&& a < old(self).spec_nodes().len() && old(self).spec_nodes()[a as int]
                        is Some
                    &&& b < old(self).spec_nodes().len() && old(self).spec_nodes()[b as int]
                        is Some
                    &&& !has_edge(old(self).spec_edges(), a, b)
                    &&& final(self).spec_edges() == old(self).spec_edges().push((a, b, weight))
                    &&& final(self).spec_nodes() == old(self).spec_nodes()
                },
                Err(_) => {
                    &&& {
                        ||| !(a < old(self).spec_nodes().len() && old(self).spec_nodes()[a as int]
                            is Some)
                        ||| !(b < old(self).spec_nodes().len() && old(self).spec_nodes()[b as int]
                            is Some)
                        ||| has_edge(old(self).spec_edges(), a, b)
                    }
                    &&& *final(self) == *old(self)
                },
            },
    {
        if !(a < self.nodes.len() && self.nodes[a].is_some()) {
            return Err(ContextIndexError::new(String::from_str("index a not found")));
        }
        if !(b < self.nodes.len() && self.nodes[b].is_some()) {
            return Err(ContextIndexError::new(String::from_str("index b not found")));
        }
        if self.contains_edge(a, b) {
            return Err(ContextIndexError::new(String::from_str("edge already exists")));
        }
        self.edges.push((a, b, weight));
        Ok(())
    }

    /// A directed edge runs from `a` to `b` exactly when one was added and
    /// not removed.
    fn contains_edge(&self, a: usize, b: usize) -> (r: bool)
        ensures
            r == has_edge(self.spec_edges(), a, b),
    {
        let n = self.edges.len();
        let mut k: usize = 0;
        while k < n
            invariant
                n == self.spec_edges().len(),
                k <= n,
                forall|j: int|
                    0 <= j < k ==> !((#[trigger] self.spec_edges()[j]).0 == a
                        && self.spec_edges()[j].1 == b),
            decreases n - k,
        {
            let (ea, eb, _) = self.edges[k];
            if ea == a && eb == b {
                return true;
            }
            k += 1;
        }
        false
    }

    /// Removes the directed edge from `a` to `b`; fails exactly when either
    /// end is not a live node or no such edge exists.
    fn remove_edge(&mut self, a: usize, b: usize) -> (r: Result<(), ContextIndexError>)
        ensures
            match r {
                Ok(()) => {
                    &&& has_edge(old(self).spec_edges(), a, b)
                    &&& final(self).spec_nodes() == old(self).spec_nodes()
                    &&& exists|k: int|
                        {
                            &&& 0 <= k < old(self).spec_edges().len()
                            &&& (#[trigger] old(self).spec_edges()[k]).0 == a
                            &&& old(self).spec_edges()[k].1 == b
                            &&& final(self).spec_edges() == old(self).spec_edges().remove(k)
                        }
                },
                Err(_) => {
                    &&& {
                        ||| !(a < old(self).spec_nodes().len() && old(self).spec_nodes()[a as int]
                            is Some)
                        ||| !(b < old(self).spec_nodes().len() && old(self).spec_nodes()[b as int]
                            is Some)
                        ||| !has_edge(old(self).spec_edges(), a, b)
                    }
                    &&& *final(self) == *old(self)
                },
            },
    {
        if !(a < self.nodes.len() && self.nodes[a].is_some()) {
            return Err(ContextIndexError::new(String::from_str("index a not found")));
        }
        if !(b < self.nodes.len() && self.nodes[b].is_some()) {
            return Err(ContextIndexError::new(String::from_str("index b not found")));
        }
        let n = self.edges.len();
        let mut k: usize = 0;
        while k < n
            invariant
                *self == *old(self),
                n == self.spec_edges().len(),
                k <= n,
                forall|j: int|
                    0 <= j < k ==> !((#[trigger] self.spec_edges()[j]).0 == a
                        && self.spec_edges()[j].1 == b),
            decreases n - k,
        {
            let (ea, eb, _) = self.edges[k];
            if ea == a && eb == b {
                proof {
                    assert((old(self).spec_edges()[k as int]).0 == a && old(self).spec_edges()[
                        k as int].1 == b);
                }
                self.edges.remove(k);
                return Ok(());
            }
            k += 1;
        }
        Err(ContextIndexError::new(String::from_str("edge does not exist")))
    }

    /// The number of live nodes.
    fn size(&self) -> (n: usize)
        ensures
            n == live_count(self.spec_nodes()),
    {
        self.node_count()
    }

    /// Whether no node lives in the context.
    fn is_empty(&self) -> (r: bool)
        ensures
            r == (live_count(self.spec_nodes()) == 0),
    {
        self.node_count() == 0
    }

    /// The number of live nodes.
    fn node_count(&self) -> (n: usize)
        ensures
            n == live_count(self.spec_nodes()),
    {
        let len = self.nodes.len();
        let mut count: usize = 0;
        let mut k: usize = 0;
        while k < len
            invariant
                len == self.spec_nodes().len(),
                k <= len,
                count == live_count(self.spec_nodes().take(k as int)),
                count <= k,
            decreases len - k,
        {
            proof {
                assert(self.spec_nodes().take(k + 1).drop_last() =~= self.spec_nodes().take(
                    k as int,
                ));
            }
            if self.nodes[k].is_some() {
                count += 1;
            }
            k += 1;
        }
        proof {
            assert(self.spec_nodes().take(len as int) =~= self.spec_nodes());
        }
        count
    }

    /// The number of edges.
    fn edge_count(&self) -> (n: usize)
        ensures
            n == self.spec_edges().len(),
    {
        self.edges.len()
    }
}

/// Live nodes are never more than slots, so a node count always fits.
pub proof fn lemma_live_count_bounds<C>(s: Seq<Option<C>>)
    ensures
        0 <= live_count(s) <= s.len(),
    decreases s.len(),
{
    if s.len() > 0 {
        lemma_live_count_bounds(s.drop_last());
    }
}

} // verus!
