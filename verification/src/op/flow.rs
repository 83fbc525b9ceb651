//! The two kinds of flow, with the type of their items.
use vstd::prelude::*;
use crate::lattice::Merge;
use super::sealed::Sealed;

verus! {

/// Dataflow: a stream of owned items of type `T`.
pub struct DF<T> {
    _private: T,
}

/// Reactive: a stream of successive values of the lattice `F`.
pub struct RX<F: Merge> {
    _private: F::Domain,
}

/// The kind of a flow and the type of its items. This trait is sealed and
/// cannot be implemented for types outside this crate.
pub trait Flow: Sealed {
    type Domain;
}

impl<T> Flow for DF<T> {
    type Domain = T;
}

impl<F: Merge> Flow for RX<F> {
    type Domain = F::Domain;
}

} // verus!
