//! Error types of the reasoning model.
//!
//! Each error carries its message; `to_text` renders the message under the
//! error's name, the way the errors present themselves to a caller.

use vstd::prelude::*;
use vstd::string::StringExecFns;

verus! {

/// Causal reasoning over a single cause failed.
#[derive(Debug, Clone)]
pub struct CausalityError(pub String);

/// Causal reasoning over a causal graph failed.
#[derive(Debug, Clone)]
pub struct CausalityGraphError(pub String);

/// A causal graph was addressed with an index it does not hold.
#[derive(Debug, Clone)]
pub struct CausalGraphIndexError(pub String);

/// A context graph was addressed with an index it does not hold.
#[derive(Debug, Clone)]
pub struct ContextIndexError(pub String);

/// An adjustment could not be applied to a node.
#[derive(Debug, Clone)]
pub struct AdjustmentError(pub String);

/// A graph storage operation failed.
#[derive(Debug, Clone)]
pub struct GraphError(pub String);

impl CausalityError {
    /// An error carrying `message`.
    pub fn new(message: String) -> (e: CausalityError)
        ensures
            e.0@ == message@,
    {
        CausalityError(message)
    }

    /// The message under the error's name.
    pub fn to_text(&self) -> (s: String)
        ensures
            s@ == "CausalityError: "@ + self.0@,
    {
        let mut s = String::from_str("CausalityError: ");
        s.append(self.0.as_str());
        s
    }
}

impl CausalityGraphError {
    /// An error carrying `message`.
    pub fn new(message: String) -> (e: CausalityGraphError)
        ensures
            e.0@ == message@,
    {
        CausalityGraphError(message)
    }

    /// The message under the error's name.
    pub fn to_text(&self) -> (s: String)
        ensures
            s@ == "CausalityGraphError: "@ + self.0@,
    {
        let mut s = String::from_str("CausalityGraphError: ");
        s.append(self.0.as_str());
        s
    }
}

impl CausalGraphIndexError {
    /// An error carrying `message`.
    pub fn new(message: String) -> (e: CausalGraphIndexError)
        ensures
            e.0@ == message@,
    {
        CausalGraphIndexError(message)
    }

    /// The message under the error's name.
    pub fn to_text(&self) -> (s: String)
        ensures
            s@ == "CausalGraphIndexError: "@ + self.0@,
    {
        let mut s = String::from_str("CausalGraphIndexError: ");
        s.append(self.0.as_str());
        s
    }
}

impl ContextIndexError {
    /// An error carrying `message`.
    pub fn new(message: String) -> (e: ContextIndexError)
        ensures
            e.0@ == message@,
    {
        ContextIndexError(message)
    }

    /// The message under the error's name.
    pub fn to_text(&self) -> (s: String)
        ensures
            s@ == "ContextIndexError: "@ + self.0@,
    {
        let mut s = String::from_str("ContextIndexError: ");
        s.append(self.0.as_str());
        s
    }
}

impl AdjustmentError {
    /// An error carrying `message`.
    pub fn new(message: String) -> (e: AdjustmentError)
        ensures
            e.0@ == message@,
    {
        AdjustmentError(message)
    }

    /// The message under the error's name.
    pub fn to_text(&self) -> (s: String)
        ensures
            s@ == "AdjustmentError: "@ + self.0@,
    {
        let mut s = String::from_str("AdjustmentError: ");
        s.append(self.0.as_str());
        s
    }
}

impl GraphError {
    /// An error carrying `message`.
    pub fn new(message: String) -> (e: GraphError)
        ensures
            e.0@ == message@,
    {
        GraphError(message)
    }

    /// The message under the error's name.
    pub fn to_text(&self) -> (s: String)
        ensures
            s@ == "GraphError: "@ + self.0@,
    {
        let mut s = String::from_str("GraphError: ");
        s.append(self.0.as_str());
        s
    }
}

} // verus!
