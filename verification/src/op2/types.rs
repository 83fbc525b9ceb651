//! The two kinds of flow: dataflow (each item is an event) and reactive
//! (each item is the latest value of a lattice).
use vstd::prelude::*;
use super::sealed::Sealed;

verus! {

/// Dataflow: a stream of owned items.
pub struct DF {
    _private: (),
}

/// Reactive: a stream of successive lattice values.
pub struct RX {
    _private: (),
}

/// The kind of a flow. This trait is sealed and cannot be implemented for
/// types outside this crate.
pub trait Flow: Sealed {}

impl Flow for DF {}

impl Flow for RX {}

} // verus!
