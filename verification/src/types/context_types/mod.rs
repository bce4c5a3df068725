pub mod adjustable_data;
pub mod context_graph;
pub mod contextoid;
pub mod node_types;
