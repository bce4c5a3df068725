//! A data node that accepts adjustments.

use vstd::prelude::*;
use vstd::string::StringExecFns;

use crate::protocols::adjustable::Adjustable;
use crate::protocols::identifiable::Identifiable;
use crate::types::text::dec_text;
use crate::types::text::i64_to_text;
use crate::types::text::int_text;
use crate::types::text::u64_to_text;

verus! {

/// The one-line rendering of an adjustable data node.
pub open spec fn adjustable_data_text(id: u64, data: int) -> Seq<char> {
    "AdjustableData: id: "@ + dec_text(id as nat) + " data: "@ + int_text(data)
}

/// A data node whose payload may be adjusted in place.
#[derive(Debug, Clone, Copy, PartialEq, Eq, Structural)]
pub struct AdjustableData {
    id: u64,
    data: i64,
}

impl AdjustableData {
    /// The payload, as an abstract value.
    pub closed spec fn spec_data(&self) -> i64 {
        self.data
    }

    /// An adjustable data node.
    pub fn new(id: u64, data: i64) -> (d: AdjustableData)
        ensures
            d.spec_id() == id,
            d.spec_data() == data,
    {
        AdjustableData { id, data }
    }

    /// The payload.
    pub fn data(&self) -> (d: i64)
        ensures
            d == self.spec_data(),
    {
        self.data
    }

    /// Replaces the payload.
    pub fn set_data(&mut self, data: i64)
        ensures
            final(self).spec_id() == old(self).spec_id(),
            final(self).spec_data() == data,
    {
        self.data = data;
    }

    /// The one-line rendering: identity and payload.
    pub fn to_text(&self) -> (s: String)
        ensures
            s@ == adjustable_data_text(self.spec_id(), self.spec_data() as int),
    {
        let mut s = String::from_str("AdjustableData: id: ");
        let id_text = u64_to_text(self.id);
        s.append(id_text.as_str());
        s.append(" data: ");
        let data_text = i64_to_text(self.data);
        s.append(data_text.as_str());
        proof {
            assert(s@ =~= adjustable_data_text(self.spec_id(), self.spec_data() as int));
        }
        s
    }
}

impl Identifiable for AdjustableData {
    closed spec fn spec_id(&self) -> u64 {
        self.id
    }

    fn id(&self) -> u64 {
        self.id
    }
}

/// Adjustment stays optional for this node kind: the default no-op applies.
impl Adjustable for AdjustableData {

}

} // verus!
