//! Gradient-free training of a small feed-forward network: the layout of its
//! weights, and the decisions of a coordinate-descent search with random
//! restarts. The arithmetic of the forward pass and of the loss is done by
//! the caller, which hands each loss back as an order key.
use vstd::prelude::*;

pub mod descent;
pub mod restarts;
pub mod score;
pub mod topology;

verus! {

} // verus!
