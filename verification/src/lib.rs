//! A feed-forward neural-network training engine built on a dense matrix
//! type whose scalars are IEEE-754 double-precision values carried as their
//! 64-bit patterns, so that every shape rule, every cached-state transition
//! and the exact dataflow of each operation is machine-checked.

pub mod error;
pub mod scalar;
pub mod activation;
pub mod initializer;
pub mod layer;
pub mod learning_rate;
pub mod matrix;
pub mod optimizer;
