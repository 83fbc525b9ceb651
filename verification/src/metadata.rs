//! Markers for the order in which an operator's deltas arrive.
use vstd::prelude::*;

verus! {

/// The order of a flow's deltas.
pub trait Order {}

} // verus!
