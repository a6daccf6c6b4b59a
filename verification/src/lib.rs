pub mod arith;
pub mod chart;
pub mod laws;
pub mod sim;
