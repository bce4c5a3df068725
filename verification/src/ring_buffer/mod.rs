pub mod barrier;
pub mod consumer;
pub mod cursor_sequence;
pub mod executor;
pub mod producer;
pub mod ring;
pub mod sequence;
pub mod wait_strategy;
