//! One element of a context graph: an identified node of one of the five
//! node kinds.

use vstd::prelude::*;

use crate::protocols::contextuable::Contextuable;
use crate::protocols::contextuable::Datable;
use crate::protocols::contextuable::SpaceTemporal;
use crate::protocols::contextuable::Spatial;
use crate::protocols::contextuable::Temporable;
use crate::protocols::identifiable::Identifiable;
use crate::types::context_types::node_types::Root;

verus! {

/// Which kind of node a contextoid is, with the node's payload.
#[derive(Debug, Clone, Copy, PartialEq, Eq)]
pub enum ContextoidType<D, S, T, ST> where
    D: Datable,
    S: Spatial,
    T: Temporable,
    ST: SpaceTemporal,
 {
    Datoid(D),
    Tempoid(T),
    Root(Root),
    Spaceoid(S),
    SpaceTempoid(ST),
}

/// An identified node of a context graph.
#[derive(Debug, Clone, Copy, PartialEq, Eq)]
pub struct Contextoid<D, S, T, ST> where
    D: Datable,
    S: Spatial,
    T: Temporable,
    ST: SpaceTemporal,
 {
    id: u64,
    vertex_type: ContextoidType<D, S, T, ST>,
}

impl<D, S, T, ST> Contextoid<D, S, T, ST> where
    D: Datable,
    S: Spatial,
    T: Temporable,
    ST: SpaceTemporal,
 {
    /// The node kind, as an abstract value.
    pub closed spec fn spec_vertex_type(&self) -> ContextoidType<D, S, T, ST> {
        self.vertex_type
    }

    /// A node with the given identity and kind.
    pub fn new(id: u64, vertex_type: ContextoidType<D, S, T, ST>) -> (c: Contextoid<D, S, T, ST>)
        ensures
            c.spec_id() == id,
            c.spec_vertex_type() == vertex_type,
    {
        Contextoid { id, vertex_type }
    }
}

impl<D, S, T, ST> Identifiable for Contextoid<D, S, T, ST> where
    D: Datable,
    S: Spatial,
    T: Temporable,
    ST: SpaceTemporal,
 {
    closed spec fn spec_id(&self) -> u64 {
        self.id
    }

    fn id(&self) -> u64 {
        self.id
    }
}

impl<D, S, T, ST> Contextuable<D, S, T, ST> for Contextoid<D, S, T, ST> where
    D: Datable,
    S: Spatial,
    T: Temporable,
    ST: SpaceTemporal,
 {
    fn vertex_type(&self) -> (vt: &ContextoidType<D, S, T, ST>)
        ensures
            *vt == self.spec_vertex_type(),
    {
        &self.vertex_type
    }
}

} // verus!
