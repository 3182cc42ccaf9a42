//! Keep the items of a `Vec` whose positions fall in a range, dropping the
//! rest, either in place or by moving the kept items onto another `Vec`.
pub mod bounds;
pub mod laws;
pub mod remain;

pub use bounds::{Bound, IndexRange};
pub use remain::{end, remain_bounds, remain_to_bounds, VecRemain};
