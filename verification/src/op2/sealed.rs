//! The seal that keeps `Flow` to the two flow kinds of this crate.
use vstd::prelude::*;

verus! {

pub trait Sealed {}

impl Sealed for super::types::DF {}

impl Sealed for super::types::RX {}

} // verus!
