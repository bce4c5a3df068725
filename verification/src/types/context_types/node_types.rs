//! The concrete node kinds a context graph can hold.

use vstd::prelude::*;

use crate::protocols::contextuable::Datable;
use crate::protocols::contextuable::SpaceTemporal;
use crate::protocols::contextuable::Spatial;
use crate::protocols::contextuable::Temporable;
use crate::protocols::identifiable::Identifiable;

verus! {

/// The granularity a time value is expressed in.
#[derive(Debug, Clone, Copy, PartialEq, Eq, Structural)]
pub enum TimeScale {
    NoScale,
    Second,
    Minute,
    Hour,
    Day,
    Month,
    Year,
}

/// The kind of relation an edge of a context graph expresses.
#[derive(Debug, Clone, Copy, PartialEq, Eq, Structural)]
pub enum RelationKind {
    Datial,
    Temporal,
    Spatial,
    SpaceTemporal,
}

/// The root node of a context graph.
#[derive(Debug, Clone, Copy, PartialEq, Eq, Structural)]
pub struct Root {
    id: u64,
}

impl Root {
    /// A root with the given identity.
    pub fn new(id: u64) -> (r: Root)
        ensures
            r.spec_id() == id,
    {
        Root { id }
    }
}

impl Identifiable for Root {
    closed spec fn spec_id(&self) -> u64 {
        self.id
    }

    fn id(&self) -> u64 {
        self.id
    }
}

/// A plain data node.
#[derive(Debug, Clone, Copy, PartialEq, Eq, Structural)]
pub struct Data<T> {
    id: u64,
    data: T,
}

impl<T: Copy> Data<T> {
    /// A data node with the given identity and payload.
    pub fn new(id: u64, data: T) -> (d: Data<T>)
        ensures
            d.spec_id() == id,
            d.spec_data() == data,
    {
        Data { id, data }
    }

    /// The payload, as an abstract value.
    pub closed spec fn spec_data(&self) -> T {
        self.data
    }

    /// The payload.
    pub fn data(&self) -> (d: T)
        ensures
            d == self.spec_data(),
    {
        self.data
    }
}

impl<T: Copy> Identifiable for Data<T> {
    closed spec fn spec_id(&self) -> u64 {
        self.id
    }

    fn id(&self) -> u64 {
        self.id
    }
}

impl<T: Copy> Datable for Data<T> {

}

/// A spatial node: a position in three dimensions.
#[derive(Debug, Clone, Copy, PartialEq, Eq, Structural)]
pub struct Space {
    id: u64,
    x: i64,
    y: i64,
    z: i64,
}

impl Space {
    /// A spatial node at the given position.
    pub fn new(id: u64, x: i64, y: i64, z: i64) -> (s: Space)
        ensures
            s.spec_id() == id,
            s.spec_x() == x,
            s.spec_y() == y,
            s.spec_z() == z,
    {
        Space { id, x, y, z }
    }
}

impl Identifiable for Space {
    closed spec fn spec_id(&self) -> u64 {
        self.id
    }

    fn id(&self) -> u64 {
        self.id
    }
}

impl Spatial for Space {
    closed spec fn spec_x(&self) -> i64 {
        self.x
    }

    closed spec fn spec_y(&self) -> i64 {
        self.y
    }

    closed spec fn spec_z(&self) -> i64 {
        self.z
    }

    fn x(&self) -> i64 {
        self.x
    }

    fn y(&self) -> i64 {
        self.y
    }

    fn z(&self) -> i64 {
        self.z
    }
}

/// A temporal node: a time unit under a scale.
#[derive(Debug, Clone, Copy, PartialEq, Eq, Structural)]
pub struct Time {
    id: u64,
    time_scale: TimeScale,
    time_unit: u32,
}

impl Time {
    /// A temporal node with the given scale and unit.
    pub fn new(id: u64, time_scale: TimeScale, time_unit: u32) -> (t: Time)
        ensures
            t.spec_id() == id,
            t.spec_time_scale() == time_scale,
            t.spec_time_unit() == time_unit,
    {
        Time { id, time_scale, time_unit }
    }
}

impl Identifiable for Time {
    closed spec fn spec_id(&self) -> u64 {
        self.id
    }

    fn id(&self) -> u64 {
        self.id
    }
}

impl Temporable for Time {
    closed spec fn spec_time_scale(&self) -> TimeScale {
        self.time_scale
    }

    closed spec fn spec_time_unit(&self) -> u32 {
        self.time_unit
    }

    fn time_scale(&self) -> TimeScale {
        self.time_scale
    }

    fn time_unit(&self) -> u32 {
        self.time_unit
    }
}

/// A node carrying both a position and a time, the fourth dimension kept in
/// `t`.
#[derive(Debug, Clone, Copy, PartialEq, Eq, Structural)]
pub struct SpaceTime {
    id: u64,
    time_scale: TimeScale,
    time_unit: u32,
    x: i64,
    y: i64,
    z: i64,
    t: u64,
}

impl SpaceTime {
    /// A space-time node.
    pub fn new(id: u64, time_scale: TimeScale, time_unit: u32, x: i64, y: i64, z: i64, t: u64) -> (st: SpaceTime)
        ensures
            st.spec_id() == id,
            st.spec_time_scale() == time_scale,
            st.spec_time_unit() == time_unit,
            st.spec_x() == x,
            st.spec_y() == y,
            st.spec_z() == z,
            st.spec_t() == t,
    {
        SpaceTime { id, time_scale, time_unit, x, y, z, t }
    }
}

impl Identifiable for SpaceTime {
    closed spec fn spec_id(&self) -> u64 {
        self.id
    }

    fn id(&self) -> u64 {
        self.id
    }
}

impl Temporable for SpaceTime {
    closed spec fn spec_time_scale(&self) -> TimeScale {
        self.time_scale
    }

    closed spec fn spec_time_unit(&self) -> u32 {
        self.time_unit
    }

    fn time_scale(&self) -> TimeScale {
        self.time_scale
    }

    fn time_unit(&self) -> u32 {
        self.time_unit
    }
}

impl Spatial for SpaceTime {
    closed spec fn spec_x(&self) -> i64 {
        self.x
    }

    closed spec fn spec_y(&self) -> i64 {
        self.y
    }

    closed spec fn spec_z(&self) -> i64 {
        self.z
    }

    fn x(&self) -> i64 {
        self.x
    }

    fn y(&self) -> i64 {
        self.y
    }

    fn z(&self) -> i64 {
        self.z
    }
}

impl SpaceTemporal for SpaceTime {
    closed spec fn spec_t(&self) -> u64 {
        self.t
    }

    fn t(&self) -> u64 {
        self.t
    }
}

/// The data node kind of the base context.
pub type Dataoid = Data<i64>;

/// The spatial node kind of the base context.
pub type Spaceoid = Space;

/// The temporal node kind of the base context.
pub type Tempoid = Time;

/// The space-time node kind of the base context.
pub type SpaceTempoid = SpaceTime;

} // verus!
