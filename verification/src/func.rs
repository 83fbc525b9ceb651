//! Functions that operators apply to items: each is a function of its
//! argument alone, so an operator's contract can say what it computes.
use vstd::prelude::*;
use std::marker::PhantomData;
use crate::lattice::Merge;

verus! {

/// A function on owned values.
pub trait PureFn {
    type Indomain;
    type Outdomain;

    spec fn call_spec(&self, item: Self::Indomain) -> Self::Outdomain;

    fn call(&self, item: Self::Indomain) -> (r: Self::Outdomain)
        ensures
            r == self.call_spec(item),
    ;
}

/// A function on a borrowed argument with an owned result.
pub trait PureRefFn {
    type Indomain;
    type Outdomain;

    spec fn call_spec(&self, item: Self::Indomain) -> Self::Outdomain;

    fn call(&self, item: &Self::Indomain) -> (r: Self::Outdomain)
        ensures
            r == self.call_spec(*item),
    ;
}

/// A function from a borrowed argument to a part of it.
pub trait PureRefRefFn {
    type Indomain;
    type Outdomain;

    spec fn call_spec(&self, item: Self::Indomain) -> Self::Outdomain;

    fn call<'a>(&self, item: &'a Self::Indomain) -> (r: &'a Self::Outdomain)
        ensures
            *r == self.call_spec(*item),
    ;
}

/// A function of a dataflow item together with the current reactive value.
pub trait RendezvousFn {
    type InDf;
    type InRx;
    type Outdomain;

    spec fn call_spec(&self, item: (Self::InDf, Self::InRx)) -> Self::Outdomain;

    fn call(&self, item: (Self::InDf, Self::InRx)) -> (r: Self::Outdomain)
        ensures
            r == self.call_spec(item),
    ;
}

/// A monotonic filter from one lattice to another: it picks out a part of
/// the input value, or nothing.
pub trait MonotonicFilterRefFn {
    type Inmerge: Merge;
    type Outmerge: Merge;

    spec fn call_spec(
        &self,
        item: <Self::Inmerge as Merge>::Domain,
    ) -> Option<<Self::Outmerge as Merge>::Domain>;

    fn call<'a>(&self, item: &'a <Self::Inmerge as Merge>::Domain) -> (r: Option<
        &'a <Self::Outmerge as Merge>::Domain,
    >)
        ensures
            match r {
                Some(x) => self.call_spec(*item) == Some(*x),
                None => self.call_spec(*item) is None,
            },
    ;
}

/// A map from one lattice to another that respects the lattice elements:
/// values standing for the same element map to values standing for the
/// same element.
pub trait Morphism {
    type Inmerge: Merge;
    type Outmerge: Merge;

    spec fn map_spec(&self, x: <Self::Inmerge as Merge>::Lattice) -> <Self::Outmerge as Merge>::Lattice;

    fn call(&self, item: <Self::Inmerge as Merge>::Domain) -> (r: <Self::Outmerge as Merge>::Domain)
        ensures
            Self::Outmerge::lattice(r) == self.map_spec(Self::Inmerge::lattice(item)),
    ;
}

/// A closure that may be called on any argument.
#[verifier::reject_recursive_types(A)]
#[verifier::reject_recursive_types(B)]
pub struct TotalFn<A, B, F: Fn(A) -> B> {
    f: F,
    _phantom: PhantomData<(A, B)>,
}

impl<A, B, F: Fn(A) -> B> TotalFn<A, B, F> {
    #[verifier::type_invariant]
    spec fn total(self) -> bool {
        forall|x: A| call_requires(self.f, (x,))
    }

    pub closed spec fn func(&self) -> F {
        self.f
    }

    /// Wraps `f`, which must accept every argument.
    pub fn new(f: F) -> (r: Self)
        requires
            forall|x: A| call_requires(f, (x,)),
        ensures
            r.func() == f,
    {
        TotalFn { f, _phantom: PhantomData }
    }

    /// Calls the closure.
    pub fn call(&self, x: A) -> (r: B)
        ensures
            call_ensures(self.func(), (x,), r),
    {
        proof {
            use_type_invariant(self);
        }
        (self.f)(x)
    }
}

/// A closure on borrowed arguments that may be called on any argument.
#[verifier::reject_recursive_types(A)]
#[verifier::reject_recursive_types(B)]
pub struct TotalRefFn<A, B, F: Fn(&A) -> B> {
    f: F,
    _phantom: PhantomData<(A, B)>,
}

impl<A, B, F: Fn(&A) -> B> TotalRefFn<A, B, F> {
    #[verifier::type_invariant]
    spec fn total(self) -> bool {
        forall|x: &A| call_requires(self.f, (x,))
    }

    pub closed spec fn func(&self) -> F {
        self.f
    }

    /// Wraps `f`, which must accept every argument.
    pub fn new(f: F) -> (r: Self)
        requires
            forall|x: &A| call_requires(f, (x,)),
        ensures
            r.func() == f,
    {
        TotalRefFn { f, _phantom: PhantomData }
    }

    /// Calls the closure.
    pub fn call(&self, x: &A) -> (r: B)
        ensures
            call_ensures(self.func(), (x,), r),
    {
        proof {
            use_type_invariant(self);
        }
        (self.f)(x)
    }
}

} // verus!
