//! The traits of the context model: kinds of context nodes and the surface
//! of a context graph.

use vstd::prelude::*;

use crate::errors::ContextIndexError;
use crate::protocols::identifiable::Identifiable;
use crate::types::context_types::contextoid::Contextoid;
use crate::types::context_types::contextoid::ContextoidType;
use crate::types::context_types::node_types::RelationKind;
use crate::types::context_types::node_types::TimeScale;

verus! {

/// A node kind carrying plain data.
pub trait Datable: Identifiable {

}

/// A node kind carrying a time under a scale.
pub trait Temporable: Identifiable {
    /// The time scale, as an abstract value.
    spec fn spec_time_scale(&self) -> TimeScale;

    /// The time unit, as an abstract value.
    spec fn spec_time_unit(&self) -> u32;

    /// The granularity the time unit is expressed in.
    fn time_scale(&self) -> (ts: TimeScale)
        ensures
            ts == self.spec_time_scale(),
    ;

    /// The time value, in units of the scale.
    fn time_unit(&self) -> (tu: u32)
        ensures
            tu == self.spec_time_unit(),
    ;
}

/// A node kind carrying a position in three dimensions.
pub trait Spatial: Identifiable {
    /// The first coordinate, as an abstract value.
    spec fn spec_x(&self) -> i64;

    /// The second coordinate, as an abstract value.
    spec fn spec_y(&self) -> i64;

    /// The third coordinate, as an abstract value.
    spec fn spec_z(&self) -> i64;

    /// The first coordinate.
    fn x(&self) -> (v: i64)
        ensures
            v == self.spec_x(),
    ;

    /// The second coordinate.
    fn y(&self) -> (v: i64)
        ensures
            v == self.spec_y(),
    ;

    /// The third coordinate.
    fn z(&self) -> (v: i64)
        ensures
            v == self.spec_z(),
    ;
}

/// A node kind carrying both a position and a time; `t` is the fourth
/// dimension.
pub trait SpaceTemporal: Identifiable + Spatial + Temporable {
    /// The fourth dimension, as an abstract value.
    spec fn spec_t(&self) -> u64;

    /// The fourth dimension, time.
    fn t(&self) -> (v: u64)
        ensures
            v == self.spec_t(),
    ;
}

/// A context element that knows which kind of node it is.
pub trait Contextuable<D, S, T, ST>: Identifiable where
    D: Datable,
    S: Spatial,
    T: Temporable,
    ST: SpaceTemporal,
 {
    /// The node kind and payload.
    fn vertex_type(&self) -> &ContextoidType<D, S, T, ST>;
}

/// The surface of a context graph: nodes addressed by insertion index,
/// directed edges carrying a relation kind.
pub trait ContextuableGraph<D, S, T, ST>: Sized where
    D: Datable,
    S: Spatial,
    T: Temporable,
    ST: SpaceTemporal,
 {
    /// Adds a node and returns its index.
    fn add_node(&mut self, value: Contextoid<D, S, T, ST>) -> usize;

    /// Whether a node lives at `index`.
    fn contains_node(&self, index: usize) -> bool;

    /// The node at `index`, if one lives there.
    fn get_node(&self, index: usize) -> Option<&Contextoid<D, S, T, ST>>;

    /// Removes the node at `index`.
    fn remove_node(&mut self, index: usize) -> Result<(), ContextIndexError>;

    /// Adds a directed edge from `a` to `b` carrying `weight`.
    fn add_edge(&mut self, a: usize, b: usize, weight: RelationKind) -> Result<
        (),
        ContextIndexError,
    >;

    /// Whether a directed edge runs from `a` to `b`.
    fn contains_edge(&self, a: usize, b: usize) -> bool;

    /// Removes the directed edge from `a` to `b`.
    fn remove_edge(&mut self, a: usize, b: usize) -> Result<(), ContextIndexError>;

    /// The number of live nodes.
    fn size(&self) -> usize;

    /// Whether the graph holds no live node.
    fn is_empty(&self) -> bool;

    /// The number of live nodes.
    fn node_count(&self) -> usize;

    /// The number of edges.
    fn edge_count(&self) -> usize;
}

} // verus!
