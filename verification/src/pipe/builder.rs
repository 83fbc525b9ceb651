//! Building a chain of pipes front to back, and connecting it to its last
//! pipe.
use vstd::prelude::*;
use crate::lattice::{Lattice, MaxMerge, SetUnionRepr};
use super::{FilterPipe, FlattenPipe, MapPipe, Pipe, Tank, Unconnected, UnconnectedPipe};

verus! {

/// Two unconnected pipes, the first feeding the second.
pub struct ChainedUnconnected<P: Unconnected<NextPipe = Q::ThisPipe>, Q: Unconnected> {
    first: P,
    second: Q,
}

impl<P: Unconnected<NextPipe = Q::ThisPipe>, Q: Unconnected> ChainedUnconnected<P, Q> {
    pub closed spec fn first_spec(&self) -> P {
        self.first
    }

    pub closed spec fn second_spec(&self) -> Q {
        self.second
    }

    pub fn new(first: P, second: Q) -> (r: Self)
        ensures
            r.first_spec() == first,
            r.second_spec() == second,
    {
        ChainedUnconnected { first, second }
    }
}

impl<P: Unconnected<NextPipe = Q::ThisPipe>, Q: Unconnected> Unconnected for ChainedUnconnected<P, Q> {
    type ThisPipe = P::ThisPipe;
    type NextPipe = Q::NextPipe;

    /// The second is connected to `next`, then the first to the result.
    open spec fn connected(self, next: Q::NextPipe, r: P::ThisPipe) -> bool {
        exists|mid: Q::ThisPipe|
            #[trigger] self.second_spec().connected(next, mid) && self.first_spec().connected(mid, r)
    }

    fn connect(self, next_pipe: Q::NextPipe) -> (r: P::ThisPipe) {
        let ghost this = self;
        let mid = self.second.connect(next_pipe);
        let ghost midg = mid;
        let r = self.first.connect(mid);
        assert(this.second_spec().connected(next_pipe, midg));
        r
    }
}

/// Builds a chain of map pipes.
pub struct Builder<U> {
    unconnected: U,
}

impl<U> Builder<U> {
    pub closed spec fn unconnected_spec(&self) -> U {
        self.unconnected
    }
}

impl Builder<()> {
    /// An empty chain.
    pub fn new() -> (r: Self)
        ensures
            r.unconnected_spec() == (),
    {
        Builder { unconnected: () }
    }

    /// A chain of one map pipe. `mapper` must accept every item.
    pub fn map<T, F: Fn(T) -> P::Item, P: Pipe>(self, mapper: F) -> (r: Builder<
        UnconnectedPipe<MapPipe<T, F, P>>,
    >)
        requires
            forall|x: T| call_requires(mapper, (x,)),
        ensures
            r.unconnected_spec().args_spec() == mapper,
    {
        Builder { unconnected: UnconnectedPipe::<MapPipe<T, F, P>>::new(mapper) }
    }
}

impl<U: Unconnected<NextPipe = MapPipe<T, F, P>>, T, F: Fn(T) -> P::Item, P: Pipe> Builder<U> {
    /// The chain followed by one more map pipe. `mapper` must accept every
    /// item.
    pub fn map(self, mapper: F) -> (r: Builder<ChainedUnconnected<U, UnconnectedPipe<MapPipe<T, F, P>>>>)
        requires
            forall|x: T| call_requires(mapper, (x,)),
        ensures
            r.unconnected_spec().first_spec() == self.unconnected_spec(),
            r.unconnected_spec().second_spec().args_spec() == mapper,
    {
        Builder {
            unconnected: ChainedUnconnected::new(
                self.unconnected,
                UnconnectedPipe::<MapPipe<T, F, P>>::new(mapper),
            ),
        }
    }
}

impl<U: Unconnected> Builder<U> {
    /// Connects the chain to its last pipe.
    pub fn connect(self, tank: U::NextPipe) -> (r: U::ThisPipe)
        ensures
            self.unconnected_spec().connected(tank, r),
    {
        self.unconnected.connect(tank)
    }
}

/// The decimal digits of `n`, most significant first, as `Display` writes
/// an unsigned integer.
pub open spec fn decimal(n: nat) -> Seq<char>
    decreases n,
{
    if n < 10 {
        seq![(48 + n) as char]
    } else {
        decimal(n / 10).push((48 + n % 10) as char)
    }
}

/// `usize::to_string`: the decimal digits of `n`, as `Display` writes them.
#[verifier::external_body]
fn usize_text(n: usize) -> (r: String)
    ensures
        r@ == decimal(n as nat),
{
    n.to_string()
}

/// `Hello `, the decimal digits of `n`, and ` :)`.
fn hello_line(n: usize) -> (r: String)
    ensures
        r@ == "Hello "@ + decimal(n as nat) + " :)"@,
{
    let mut line = String::from_str("Hello ");
    let digits = usize_text(n);
    line.append(digits.as_str());
    line.append(" :)");
    line
}

/// `pat` occurs in `s` as a run of consecutive characters.
pub open spec fn occurs_in(s: Seq<char>, pat: Seq<char>) -> bool {
    exists|i: int| 0 <= i && i + pat.len() <= s.len() && #[trigger] s.subrange(i, i + pat.len()) == pat
}

/// `str::contains` with a string pattern: whether `pat` occurs in `s`.
#[verifier::external_body]
fn str_contains(s: &str, pat: &str) -> (r: bool)
    ensures
        r == occurs_in(s@, pat@),
{
    s.contains(pat)
}

/// A chain of three map pipes into a tank of strings.
pub fn test2() {
    let tank = Tank::new(Lattice::<SetUnionRepr<String>>::new(Vec::new()));

    let builder = Builder::new();
    let builder = builder.map(|x: usize| -> (r: usize) { x.wrapping_add(10) }).map(
        |x: usize| -> (r: String) { hello_line(x.wrapping_sub(2)) },
    ).map(|x: String| -> (r: Vec<String>) { vec![x] }).connect(tank);
    let _ = builder;
}

/// An unconnected map pipe. `f` must accept every item.
fn unconnected_map<T, F: Fn(T) -> P::Item, P: Pipe>(f: F) -> (r: UnconnectedPipe<MapPipe<T, F, P>>)
    requires
        forall|x: T| call_requires(f, (x,)),
    ensures
        r.args_spec() == f,
{
    UnconnectedPipe::new(f)
}

/// An unconnected filter pipe. `f` must accept every item.
fn unconnected_filter<T, F: Fn(&T) -> bool, P: Pipe<Item = T>>(f: F) -> (r: UnconnectedPipe<
    FilterPipe<F, P>,
>)
    requires
        forall|x: &T| call_requires(f, (x,)),
    ensures
        r.args_spec() == f,
{
    UnconnectedPipe::new(f)
}

/// An unconnected flatten pipe.
fn unconnected_flatten<I, P: Pipe<Item = I>>() -> (r: UnconnectedPipe<FlattenPipe<I, P>>) {
    UnconnectedPipe::new(())
}

/// A filter, a map into two triples, a flatten and a map into a tank of
/// triples, chained by hand.
pub fn test() {
    let tank = Tank::new(Lattice::<SetUnionRepr<(String, u64, String)>>::new(Vec::new()));

    let builder = unconnected_filter(
        |kv: &(String, u64, String)| -> (r: bool) { !str_contains(kv.2.as_str(), "Christ") },
    );
    let builder = ChainedUnconnected::new(
        builder,
        unconnected_map(
            |kv: (String, u64, String)| -> (r: Vec<(String, u64, String)>)
                {
                    let (k, t, v) = kv;
                    let k2 = k.clone();
                    vec![(k, t, v), (k2, t.wrapping_sub(1), "other str".to_owned())]
                },
        ),
    );
    let builder = ChainedUnconnected::new(builder, unconnected_flatten());
    let builder = ChainedUnconnected::new(
        builder,
        unconnected_map(
            |kv: (String, u64, String)| -> (r: Vec<(String, u64, String)>) { vec![kv] },
        ),
    );

    let _final_pipe = builder.connect(tank);
}

} // verus!
