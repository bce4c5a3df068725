pub mod assumable;
pub mod causable;
pub mod observable;
