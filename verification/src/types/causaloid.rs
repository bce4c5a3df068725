//! The causaloid: one identified cause, testable against observations.
//!
//! A causaloid is a singleton (one causal test), a collection of causaloids,
//! or a whole causal graph; it may carry a context.  Testing a singleton
//! records whether the cause fired, and an active causaloid can explain its
//! last evaluation.

use vstd::prelude::*;
use vstd::string::StringExecFns;

use crate::errors::CausalityError;
use crate::protocols::causable::Causable;
use crate::protocols::causable::CausalFunction;
use crate::types::causaloid_graph::CausaloidGraph;
use crate::types::context_types::context_graph::Context;
use crate::types::context_types::node_types::Dataoid;
use crate::types::context_types::node_types::SpaceTempoid;
use crate::types::context_types::node_types::Spaceoid;
use crate::types::context_types::node_types::Tempoid;
use crate::types::numerical::NumericalValue;
use crate::types::numerical::numerical_text;
use crate::types::text::bool_text;
use crate::types::text::bool_to_text;
use crate::types::text::dec_text;
use crate::types::text::u64_to_text;

verus! {

/// The context over the base node kinds, the one causaloids carry.
pub type BaseContext = Context<Dataoid, Spaceoid, Tempoid, SpaceTempoid>;

/// A causal test firing at a fixed threshold: the cause is active exactly
/// when the observation reaches the threshold.  It never rejects an
/// observation.
#[derive(Debug, Clone, Copy, PartialEq, Eq, Structural)]
pub struct ThresholdCause {
    threshold: NumericalValue,
}

impl ThresholdCause {
    /// A test firing at `threshold`.
    pub fn new(threshold: NumericalValue) -> (c: ThresholdCause)
        ensures
            c.spec_threshold() == threshold,
    {
        ThresholdCause { threshold }
    }

    /// The threshold, as an abstract value.
    pub closed spec fn spec_threshold(&self) -> NumericalValue {
        self.threshold
    }
}

impl CausalFunction for ThresholdCause {
    open spec fn spec_eval(&self, obs: NumericalValue) -> Option<bool> {
        Some(obs.spec_hundredths() >= self.spec_threshold().spec_hundredths())
    }

    fn evaluate(&self, obs: &NumericalValue) -> Result<bool, CausalityError> {
        Ok(obs.ge(&self.threshold))
    }
}

/// Which of the three shapes a causaloid has.
#[derive(Debug, Clone, Copy, PartialEq, Eq, Structural)]
pub enum CausalType {
    /// One causal test.
    Singleton,
    /// A collection of causaloids.
    Collection,
    /// A causal graph of causaloids.
    Graph,
}

/// The shape's name, as text.
pub open spec fn causal_type_text(kind: CausalType) -> Seq<char> {
    match kind {
        CausalType::Singleton => "Singleton"@,
        CausalType::Collection => "Collection"@,
        CausalType::Graph => "Graph"@,
    }
}

/// One identified, testable cause.
#[derive(Debug)]
pub struct Causaloid<C> where C: CausalFunction {
    id: u64,
    description: String,
    kind: CausalType,
    active: bool,
    last_obs: Option<NumericalValue>,
    causal_fn: Option<C>,
    causal_coll: Option<Vec<Causaloid<C>>>,
    causal_graph: Option<CausaloidGraph<Causaloid<C>>>,
    context: Option<BaseContext>,
}

/// The explanation of an evaluated singleton cause.
pub open spec fn explain_text(
    id: u64,
    description: Seq<char>,
    obs: NumericalValue,
    active: bool,
) -> Seq<char> {
    "Causaloid: "@ + dec_text(id as nat) + " "@ + description + " on last data "@ + numerical_text(
        obs.spec_hundredths(),
    ) + " evaluated to "@ + bool_text(active)
}

/// The one-line rendering of a causaloid.
pub open spec fn causaloid_text(
    id: u64,
    kind: CausalType,
    description: Seq<char>,
    active: bool,
) -> Seq<char> {
    "Causaloid id: "@ + dec_text(id as nat) + " \n Causaloid type: "@ + causal_type_text(kind)
        + " \n description: "@ + description + " is active: "@ + bool_text(active)
}

impl<C> Causaloid<C> where C: CausalFunction {
    /// The identity, as an abstract value.
    pub closed spec fn spec_id(&self) -> u64 {
        self.id
    }

    /// The description, as an abstract value.
    pub closed spec fn spec_description(&self) -> Seq<char> {
        self.description@
    }

    /// The shape, as an abstract value.
    pub closed spec fn spec_kind(&self) -> CausalType {
        self.kind
    }

    /// The last observation tested, if any.
    pub closed spec fn spec_last_obs(&self) -> Option<NumericalValue> {
        self.last_obs
    }

    /// The causal test of a singleton.
    pub closed spec fn spec_causal_fn(&self) -> Option<C> {
        self.causal_fn
    }

    /// The held collection, for the collection shape.
    pub closed spec fn spec_causal_coll(&self) -> Option<Vec<Causaloid<C>>> {
        self.causal_coll
    }

    /// The held graph, for the graph shape.
    pub closed spec fn spec_causal_graph(&self) -> Option<CausaloidGraph<Causaloid<C>>> {
        self.causal_graph
    }

    /// The carried context, if any.
    pub closed spec fn spec_context(&self) -> Option<BaseContext> {
        self.context
    }

    /// Shape soundness: exactly the payload of the causaloid's shape is
    /// present.
    pub open spec fn wf(&self) -> bool {
        match self.spec_kind() {
            CausalType::Singleton => self.spec_causal_fn() is Some && self.spec_causal_coll()
                is None && self.spec_causal_graph() is None,
            CausalType::Collection => self.spec_causal_fn() is None && self.spec_causal_coll()
                is Some && self.spec_causal_graph() is None,
            CausalType::Graph => self.spec_causal_fn() is None && self.spec_causal_coll() is None
                && self.spec_causal_graph() is Some,
        }
    }

    /// A singleton cause, inactive until tested.
    pub fn new(id: u64, causal_fn: C, description: &str) -> (c: Causaloid<C>)
        ensures
            c.wf(),
            c.spec_id() == id,
            c.spec_kind() == CausalType::Singleton,
            c.spec_description() == description@,
            !c.spec_active(),
            c.spec_last_obs() is None,
            c.spec_causal_fn() == Some(causal_fn),
            c.spec_context() is None,
    {
        Causaloid {
            id,
            description: String::from_str(description),
            kind: CausalType::Singleton,
            active: false,
            last_obs: None,
            causal_fn: Some(causal_fn),
            causal_coll: None,
            causal_graph: None,
            context: None,
        }
    }

    /// A singleton cause carrying a context.
    pub fn new_with_context(
        id: u64,
        causal_fn: C,
        context: Option<&BaseContext>,
        description: &str,
    ) -> (c: Causaloid<C>)
        ensures
            c.wf(),
            c.spec_id() == id,
            c.spec_kind() == CausalType::Singleton,
            c.spec_description() == description@,
            !c.spec_active(),
            c.spec_last_obs() is None,
            c.spec_causal_fn() == Some(causal_fn),
            c.spec_context() is Some <==> context is Some,
    {
        let ctx = match context {
            Some(ctx_ref) => Some(ctx_ref.clone()),
            None => None,
        };
        Causaloid {
            id,
            description: String::from_str(description),
            kind: CausalType::Singleton,
            active: false,
            last_obs: None,
            causal_fn: Some(causal_fn),
            causal_coll: None,
            causal_graph: None,
            context: ctx,
        }
    }

    /// A causaloid over a collection of causes, inactive until reasoned
    /// over.
    pub fn from_causal_collection(
        id: u64,
        causal_coll: Vec<Causaloid<C>>,
        description: &str,
    ) -> (c: Causaloid<C>)
        ensures
            c.wf(),
            c.spec_id() == id,
            c.spec_kind() == CausalType::Collection,
            c.spec_description() == description@,
            !c.spec_active(),
            c.spec_causal_coll() == Some(causal_coll),
            c.spec_causal_graph() is None,
            c.spec_context() is None,
    {
        Causaloid {
            id,
            description: String::from_str(description),
            kind: CausalType::Collection,
            active: false,
            last_obs: None,
            causal_fn: None,
            causal_coll: Some(causal_coll),
            causal_graph: None,
            context: None,
        }
    }

    /// A causaloid over a collection of causes, carrying a context.
    pub fn from_causal_collection_with_context(
        id: u64,
        causal_coll: Vec<Causaloid<C>>,
        context: Option<&BaseContext>,
        description: &str,
    ) -> (c: Causaloid<C>)
        ensures
            c.wf(),
            c.spec_id() == id,
            c.spec_kind() == CausalType::Collection,
            c.spec_description() == description@,
            !c.spec_active(),
            c.spec_causal_coll() == Some(causal_coll),
            c.spec_causal_graph() is None,
            c.spec_context() is Some <==> context is Some,
    {
        let ctx = match context {
            Some(ctx_ref) => Some(ctx_ref.clone()),
            None => None,
        };
        Causaloid {
            id,
            description: String::from_str(description),
            kind: CausalType::Collection,
            active: false,
            last_obs: None,
            causal_fn: None,
            causal_coll: Some(causal_coll),
            causal_graph: None,
            context: ctx,
        }
    }

    /// A causaloid over a causal graph, inactive until reasoned over.
    pub fn from_causal_graph(
        id: u64,
        causal_graph: CausaloidGraph<Causaloid<C>>,
        description: &str,
    ) -> (c: Causaloid<C>)
        ensures
            c.wf(),
            c.spec_id() == id,
            c.spec_kind() == CausalType::Graph,
            c.spec_description() == description@,
            !c.spec_active(),
            c.spec_causal_coll() is None,
            c.spec_causal_graph() is Some,
            c.spec_context() is None,
    {
        Causaloid {
            id,
            description: String::from_str(description),
            kind: CausalType::Graph,
            active: false,
            last_obs: None,
            causal_fn: None,
            causal_coll: None,
            causal_graph: Some(causal_graph),
            context: None,
        }
    }

    /// A causaloid over a causal graph, carrying a context.
    pub fn from_causal_graph_with_context(
        id: u64,
        causal_graph: CausaloidGraph<Causaloid<C>>,
        context: Option<&BaseContext>,
        description: &str,
    ) -> (c: Causaloid<C>)
        ensures
            c.wf(),
            c.spec_id() == id,
            c.spec_kind() == CausalType::Graph,
            c.spec_description() == description@,
            !c.spec_active(),
            c.spec_causal_coll() is None,
            c.spec_causal_graph() is Some,
            c.spec_context() is Some <==> context is Some,
    {
        let ctx = match context {
            Some(ctx_ref) => Some(ctx_ref.clone()),
            None => None,
        };
        Causaloid {
            id,
            description: String::from_str(description),
            kind: CausalType::Graph,
            active: false,
            last_obs: None,
            causal_fn: None,
            causal_coll: None,
            causal_graph: Some(causal_graph),
            context: ctx,
        }
    }

    /// Whether this causaloid is a single causal test.
    pub fn is_singleton(&self) -> (r: bool)
        ensures
            r == (self.spec_kind() == CausalType::Singleton),
    {
        matches!(self.kind, CausalType::Singleton)
    }

    /// The identity.
    pub fn id(&self) -> (id: u64)
        ensures
            id == self.spec_id(),
    {
        self.id
    }

    /// The description.
    pub fn description(&self) -> (d: &str)
        ensures
            d@ == self.spec_description(),
    {
        self.description.as_str()
    }

    /// The held collection, for the collection shape.
    pub fn causal_collection(&self) -> (r: Option<&Vec<Causaloid<C>>>)
        ensures
            match r {
                Some(coll) => self.spec_causal_coll() == Some(*coll),
                None => self.spec_causal_coll() is None,
            },
    {
        self.causal_coll.as_ref()
    }

    /// The held graph, for the graph shape.
    pub fn causal_graph(&self) -> (r: Option<&CausaloidGraph<Causaloid<C>>>)
        ensures
            match r {
                Some(graph) => self.spec_causal_graph() == Some(*graph),
                None => self.spec_causal_graph() is None,
            },
    {
        self.causal_graph.as_ref()
    }

    /// The carried context, if any.
    pub fn context(&self) -> (r: Option<&BaseContext>)
        ensures
            match r {
                Some(context) => self.spec_context() == Some(*context),
                None => self.spec_context() is None,
            },
    {
        self.context.as_ref()
    }

    /// The one-line rendering: identity, shape, description and activation
    /// state.
    pub fn to_text(&self) -> (s: String)
        ensures
            s@ == causaloid_text(
                self.spec_id(),
                self.spec_kind(),
                self.spec_description(),
                self.spec_active(),
            ),
    {
        let mut s = String::from_str("Causaloid id: ");
        let id_text = u64_to_text(self.id);
        s.append(id_text.as_str());
        s.append(" \n Causaloid type: ");
        match self.kind {
            CausalType::Singleton => s.append("Singleton"),
            CausalType::Collection => s.append("Collection"),
            CausalType::Graph => s.append("Graph"),
        }
        s.append(" \n description: ");
        s.append(self.description.as_str());
        s.append(" is active: ");
        let active_text = bool_to_text(self.active);
        s.append(active_text.as_str());
        proof {
            assert(s@ =~= causaloid_text(
                self.spec_id(),
                self.spec_kind(),
                self.spec_description(),
                self.spec_active(),
            ));
        }
        s
    }
}

impl<C> Causable for Causaloid<C> where C: CausalFunction {
    closed spec fn spec_active(&self) -> bool {
        self.active
    }

    fn is_active(&self) -> bool {
        self.active
    }

    /// Tests a singleton cause against one observation and records the answer
    /// and observation; a causaloid of another shape, or one whose test
    /// rejects the observation, reports an error and stays as it was.
    fn verify_single_cause(&mut self, obs: &NumericalValue) -> (r: Result<bool, CausalityError>)
        ensures
            match (old(self).spec_kind(), old(self).spec_causal_fn()) {
                (CausalType::Singleton, Some(f)) => match f.spec_eval(*obs) {
                    Some(b) => {
                        &&& r matches Ok(v) && v == b
                        &&& final(self).spec_active() == b
                        &&& final(self).spec_last_obs() == Some(*obs)
                        &&& final(self).spec_kind() == old(self).spec_kind()
                        &&& final(self).spec_id() == old(self).spec_id()
                        &&& final(self).spec_description() == old(self).spec_description()
                        &&& final(self).spec_causal_fn() == old(self).spec_causal_fn()
                    },
                    None => r is Err && *final(self) == *old(self),
                },
                _ => r is Err && *final(self) == *old(self),
            },
    {
        if !matches!(self.kind, CausalType::Singleton) {
            return Err(
                CausalityError::new(String::from_str("causaloid is not a single cause")),
            );
        }
        match &self.causal_fn {
            Some(f) => {
                match f.evaluate(obs) {
                    Ok(fired) => {
                        self.active = fired;
                        self.last_obs = Some(*obs);
                        Ok(fired)
                    },
                    Err(e) => Err(e),
                }
            },
            None => Err(CausalityError::new(String::from_str("causaloid holds no causal test"))),
        }
    }

    /// Explains the last evaluation of an active singleton cause; a
    /// causaloid that has never fired, or is not a singleton, reports an
    /// error.
    fn explain(&self) -> (r: Result<String, CausalityError>)
        ensures
            match r {
                Ok(s) => {
                    &&& self.spec_active()
                    &&& self.spec_kind() == CausalType::Singleton
                    &&& self.spec_last_obs() matches Some(obs) && s@ == explain_text(
                        self.spec_id(),
                        self.spec_description(),
                        obs,
                        self.spec_active(),
                    )
                },
                Err(_) => !self.spec_active() || self.spec_kind() != CausalType::Singleton || self
                    .spec_last_obs() is None,
            },
    {
        if !self.active {
            return Err(
                CausalityError::new(
                    String::from_str("causaloid has not yet been evaluated as active"),
                ),
            );
        }
        if !matches!(self.kind, CausalType::Singleton) {
            return Err(
                CausalityError::new(String::from_str("causaloid is not a single cause")),
            );
        }
        match &self.last_obs {
            Some(obs) => {
                let mut s = String::from_str("Causaloid: ");
                let id_text = u64_to_text(self.id);
                s.append(id_text.as_str());
                s.append(" ");
                s.append(self.description.as_str());
                s.append(" on last data ");
                let obs_text = obs.to_text();
                s.append(obs_text.as_str());
                s.append(" evaluated to ");
                let active_text = bool_to_text(self.active);
                s.append(active_text.as_str());
                proof {
                    assert(s@ =~= explain_text(
                        self.spec_id(),
                        self.spec_description(),
                        self.spec_last_obs()->Some_0,
                        self.spec_active(),
                    ));
                }
                Ok(s)
            },
            None => Err(
                CausalityError::new(String::from_str("causaloid holds no last observation")),
            ),
        }
    }
}

} // verus!
