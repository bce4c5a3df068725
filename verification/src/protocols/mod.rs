pub mod adjustable;
pub mod assumable;
pub mod causable;
pub mod contextuable;
pub mod graph_like;
pub mod identifiable;
pub mod observable;
pub mod indexable;
