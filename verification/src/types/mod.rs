pub mod context_types;
pub mod array_grid;
pub mod assumption;
pub mod causaloid;
pub mod causaloid_graph;
pub mod index_store;
pub mod inference;
pub mod numerical;
pub mod observation;
pub mod text;
