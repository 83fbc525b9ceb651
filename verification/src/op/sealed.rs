//! The seal that keeps `Flow` to the two flow kinds of this crate.
use vstd::prelude::*;
use crate::lattice::Merge;

verus! {

pub trait Sealed {}

impl<T> Sealed for super::flow::DF<T> {}

impl<F: Merge> Sealed for super::flow::RX<F> {}

} // verus!
