//! Lattices. A lattice representation is a concrete value (`Domain`) that
//! stands for an abstract lattice element (`Lattice`); merging a delta into
//! a value moves it to the join of the two elements, and the join is
//! commutative, associative and idempotent.
use vstd::prelude::*;
use std::marker::PhantomData;

verus! {

/// A total order on the keys of a type, as the max and min lattices need.
pub trait TotalOrder: Sized {
    type Key;

    /// What the order compares.
    spec fn key(self) -> Self::Key;

    spec fn key_le(a: Self::Key, b: Self::Key) -> bool;

    proof fn lemma_le_reflexive(a: Self::Key)
        ensures
            Self::key_le(a, a),
    ;

    proof fn lemma_le_total(a: Self::Key, b: Self::Key)
        ensures
            Self::key_le(a, b) || Self::key_le(b, a),
    ;

    proof fn lemma_le_antisymmetric(a: Self::Key, b: Self::Key)
        requires
            Self::key_le(a, b),
            Self::key_le(b, a),
        ensures
            a == b,
    ;

    proof fn lemma_le_transitive(a: Self::Key, b: Self::Key, c: Self::Key)
        requires
            Self::key_le(a, b),
            Self::key_le(b, c),
        ensures
            Self::key_le(a, c),
    ;

    /// Compares two values by the order of their keys.
    fn le_exec(&self, other: &Self) -> (r: bool)
        ensures
            r == Self::key_le(self.key(), other.key()),
    ;

    /// A copy of the value.
    fn copy_keyed(&self) -> (r: Self)
        ensures
            r == *self,
    ;
}

impl TotalOrder for u64 {
    type Key = u64;

    open spec fn key(self) -> u64 {
        self
    }

    open spec fn key_le(a: u64, b: u64) -> bool {
        a <= b
    }

    proof fn lemma_le_reflexive(a: u64) {
    }

    proof fn lemma_le_total(a: u64, b: u64) {
    }

    proof fn lemma_le_antisymmetric(a: u64, b: u64) {
    }

    proof fn lemma_le_transitive(a: u64, b: u64, c: u64) {
    }

    fn le_exec(&self, other: &Self) -> (r: bool) {
        *self <= *other
    }

    fn copy_keyed(&self) -> (r: Self) {
        *self
    }
}

/// Lexicographic order on strings of characters, by code point.
pub open spec fn lex_le(a: Seq<char>, b: Seq<char>) -> bool
    decreases a.len(),
{
    if a.len() == 0 {
        true
    } else if b.len() == 0 {
        false
    } else if a[0] == b[0] {
        lex_le(a.drop_first(), b.drop_first())
    } else {
        (a[0] as int) < (b[0] as int)
    }
}

proof fn lemma_lex_reflexive(a: Seq<char>)
    ensures
        lex_le(a, a),
    decreases a.len(),
{
    if a.len() > 0 {
        lemma_lex_reflexive(a.drop_first());
    }
}

proof fn lemma_lex_total(a: Seq<char>, b: Seq<char>)
    ensures
        lex_le(a, b) || lex_le(b, a),
    decreases a.len(),
{
    if a.len() > 0 && b.len() > 0 {
        if a[0] == b[0] {
            lemma_lex_total(a.drop_first(), b.drop_first());
        } else {
            assert((a[0] as int) != (b[0] as int));
        }
    }
}

proof fn lemma_lex_antisymmetric(a: Seq<char>, b: Seq<char>)
    requires
        lex_le(a, b),
        lex_le(b, a),
    ensures
        a == b,
    decreases a.len(),
{
    if a.len() > 0 {
        lemma_lex_antisymmetric(a.drop_first(), b.drop_first());
        assert(a =~= seq![a[0]] + a.drop_first());
        assert(b =~= seq![b[0]] + b.drop_first());
    } else {
        assert(b.len() == 0);
        assert(a =~= b);
    }
}

proof fn lemma_lex_transitive(a: Seq<char>, b: Seq<char>, c: Seq<char>)
    requires
        lex_le(a, b),
        lex_le(b, c),
    ensures
        lex_le(a, c),
    decreases a.len(),
{
    if a.len() > 0 && b.len() > 0 && c.len() > 0 && a[0] == b[0] && b[0] == c[0] {
        lemma_lex_transitive(a.drop_first(), b.drop_first(), c.drop_first());
    }
}

/// `<String as PartialOrd>::le`. std orders strings by their UTF-8 bytes,
/// lexicographically; UTF-8 keeps the order of code points, so this is the
/// lexicographic order of the characters.
#[verifier::external_body]
fn string_le(a: &String, b: &String) -> (r: bool)
    ensures
        r == lex_le(a@, b@),
{
    a <= b
}

impl TotalOrder for String {
    type Key = Seq<char>;

    open spec fn key(self) -> Seq<char> {
        self@
    }

    open spec fn key_le(a: Seq<char>, b: Seq<char>) -> bool {
        lex_le(a, b)
    }

    proof fn lemma_le_reflexive(a: Seq<char>) {
        lemma_lex_reflexive(a);
    }

    proof fn lemma_le_total(a: Seq<char>, b: Seq<char>) {
        lemma_lex_total(a, b);
    }

    proof fn lemma_le_antisymmetric(a: Seq<char>, b: Seq<char>) {
        lemma_lex_antisymmetric(a, b);
    }

    proof fn lemma_le_transitive(a: Seq<char>, b: Seq<char>, c: Seq<char>) {
        lemma_lex_transitive(a, b, c);
    }

    fn le_exec(&self, other: &Self) -> (r: bool) {
        string_le(self, other)
    }

    fn copy_keyed(&self) -> (r: Self) {
        self.clone()
    }
}

/// A lattice representation: values of `Domain` stand for elements of
/// `Lattice`, and merging joins them.
pub trait Merge {
    type Domain;

    type Lattice;

    /// The lattice element a value stands for.
    spec fn lattice(d: Self::Domain) -> Self::Lattice;

    /// The least upper bound of two elements.
    spec fn join(x: Self::Lattice, y: Self::Lattice) -> Self::Lattice;

    /// Merges `delta` into `val`: `val` moves to the join of the two.
    fn merge_in(val: &mut Self::Domain, delta: Self::Domain)
        ensures
            Self::lattice(*final(val)) == Self::join(Self::lattice(*old(val)), Self::lattice(delta)),
    ;

    /// `b` is a copy of `a`: a value with the same contents, standing for
    /// the same element.
    spec fn copy_of(a: Self::Domain, b: Self::Domain) -> bool;

    /// A copy of the value.
    fn copy(d: &Self::Domain) -> (r: Self::Domain)
        ensures
            Self::copy_of(*d, r),
            Self::lattice(r) == Self::lattice(*d),
    ;

    proof fn lemma_join_commutative(x: Self::Lattice, y: Self::Lattice)
        ensures
            Self::join(x, y) == Self::join(y, x),
    ;

    proof fn lemma_join_associative(x: Self::Lattice, y: Self::Lattice, z: Self::Lattice)
        ensures
            Self::join(Self::join(x, y), z) == Self::join(x, Self::join(y, z)),
    ;

    proof fn lemma_join_idempotent(x: Self::Lattice)
        ensures
            Self::join(x, x) == x,
    ;
}

/// The lattice of a total order where merging keeps the larger value.
pub struct MaxMerge<T> {
    _phantom: PhantomData<T>,
}

impl<T: TotalOrder> Merge for MaxMerge<T> {
    type Domain = T;

    type Lattice = T::Key;

    open spec fn lattice(d: T) -> T::Key {
        d.key()
    }

    open spec fn copy_of(a: T, b: T) -> bool {
        b == a
    }

    open spec fn join(x: T::Key, y: T::Key) -> T::Key {
        if T::key_le(y, x) {
            x
        } else {
            y
        }
    }

    fn merge_in(val: &mut T, delta: T) {
        if !delta.le_exec(val) {
            *val = delta;
        }
    }

    fn copy(d: &T) -> (r: T) {
        d.copy_keyed()
    }

    proof fn lemma_join_commutative(x: T::Key, y: T::Key) {
        T::lemma_le_total(x, y);
        if T::key_le(x, y) && T::key_le(y, x) {
            T::lemma_le_antisymmetric(x, y);
        }
    }

    proof fn lemma_join_associative(x: T::Key, y: T::Key, z: T::Key) {
        lemma_order_cases::<T>(x, y, z);
    }

    proof fn lemma_join_idempotent(x: T::Key) {
        T::lemma_le_reflexive(x);
    }
}

/// The lattice of a total order where merging keeps the smaller value.
pub struct MinMerge<T> {
    _phantom: PhantomData<T>,
}

impl<T: TotalOrder> Merge for MinMerge<T> {
    type Domain = T;

    type Lattice = T::Key;

    open spec fn lattice(d: T) -> T::Key {
        d.key()
    }

    open spec fn copy_of(a: T, b: T) -> bool {
        b == a
    }

    open spec fn join(x: T::Key, y: T::Key) -> T::Key {
        if T::key_le(x, y) {
            x
        } else {
            y
        }
    }

    fn merge_in(val: &mut T, delta: T) {
        if !val.le_exec(&delta) {
            *val = delta;
        }
    }

    fn copy(d: &T) -> (r: T) {
        d.copy_keyed()
    }

    proof fn lemma_join_commutative(x: T::Key, y: T::Key) {
        T::lemma_le_total(x, y);
        if T::key_le(x, y) && T::key_le(y, x) {
            T::lemma_le_antisymmetric(x, y);
        }
    }

    proof fn lemma_join_associative(x: T::Key, y: T::Key, z: T::Key) {
        lemma_order_cases::<T>(x, y, z);
    }

    proof fn lemma_join_idempotent(x: T::Key) {
        T::lemma_le_reflexive(x);
    }
}

/// The facts of a total order on three keys that associativity needs.
proof fn lemma_order_cases<T: TotalOrder>(x: T::Key, y: T::Key, z: T::Key)
    ensures
        T::key_le(x, y) || T::key_le(y, x),
        T::key_le(y, z) || T::key_le(z, y),
        T::key_le(x, z) || T::key_le(z, x),
        T::key_le(x, y) && T::key_le(y, x) ==> x == y,
        T::key_le(y, z) && T::key_le(z, y) ==> y == z,
        T::key_le(x, z) && T::key_le(z, x) ==> x == z,
        T::key_le(x, y) && T::key_le(y, z) ==> T::key_le(x, z),
        T::key_le(z, y) && T::key_le(y, x) ==> T::key_le(z, x),
        T::key_le(y, x) && T::key_le(x, z) ==> T::key_le(y, z),
        T::key_le(z, x) && T::key_le(x, y) ==> T::key_le(z, y),
        T::key_le(x, z) && T::key_le(z, y) ==> T::key_le(x, y),
        T::key_le(y, z) && T::key_le(z, x) ==> T::key_le(y, x),
{
    T::lemma_le_total(x, y);
    T::lemma_le_total(y, z);
    T::lemma_le_total(x, z);
    if T::key_le(x, y) && T::key_le(y, x) {
        T::lemma_le_antisymmetric(x, y);
    }
    if T::key_le(y, z) && T::key_le(z, y) {
        T::lemma_le_antisymmetric(y, z);
    }
    if T::key_le(x, z) && T::key_le(z, x) {
        T::lemma_le_antisymmetric(x, z);
    }
    if T::key_le(x, y) && T::key_le(y, z) {
        T::lemma_le_transitive(x, y, z);
    }
    if T::key_le(z, y) && T::key_le(y, x) {
        T::lemma_le_transitive(z, y, x);
    }
    if T::key_le(y, x) && T::key_le(x, z) {
        T::lemma_le_transitive(y, x, z);
    }
    if T::key_le(z, x) && T::key_le(x, y) {
        T::lemma_le_transitive(z, x, y);
    }
    if T::key_le(x, z) && T::key_le(z, y) {
        T::lemma_le_transitive(x, z, y);
    }
    if T::key_le(y, z) && T::key_le(z, x) {
        T::lemma_le_transitive(y, z, x);
    }
}

/// Values that can be duplicated exactly.
pub trait Duplicate: Sized {
    fn duplicate(&self) -> (r: Self)
        ensures
            r == *self,
    ;
}

impl Duplicate for u64 {
    fn duplicate(&self) -> (r: Self) {
        *self
    }
}

impl<A: Duplicate, B: Duplicate> Duplicate for (A, B) {
    fn duplicate(&self) -> (r: Self) {
        (self.0.duplicate(), self.1.duplicate())
    }
}

impl<A: Duplicate, B: Duplicate, C: Duplicate> Duplicate for (A, B, C) {
    fn duplicate(&self) -> (r: Self) {
        (self.0.duplicate(), self.1.duplicate(), self.2.duplicate())
    }
}

impl Duplicate for String {
    fn duplicate(&self) -> (r: Self) {
        self.clone()
    }
}

/// The set lattice, represented by a vector of its elements (which may
/// repeat): merging appends.
pub struct SetUnionRepr<T> {
    _phantom: PhantomData<T>,
}

impl<T: Duplicate> Merge for SetUnionRepr<T> {
    type Domain = Vec<T>;

    type Lattice = Set<T>;

    open spec fn lattice(d: Vec<T>) -> Set<T> {
        d@.to_set()
    }

    /// The same elements in the same order.
    open spec fn copy_of(a: Vec<T>, b: Vec<T>) -> bool {
        b@ == a@
    }

    open spec fn join(x: Set<T>, y: Set<T>) -> Set<T> {
        x.union(y)
    }

    fn merge_in(val: &mut Vec<T>, delta: Vec<T>) {
        let mut delta = delta;
        let ghost a = val@;
        let ghost b = delta@;
        val.append(&mut delta);
        proof {
            lemma_to_set_concat(a, b);
        }
    }

    fn copy(d: &Vec<T>) -> (r: Vec<T>) {
        let mut r: Vec<T> = Vec::new();
        let mut i: usize = 0;
        while i < d.len()
            invariant
                i <= d.len(),
                r@ == d@.take(i as int),
            decreases d.len() - i,
        {
            let x: T = d[i].duplicate();
            r.push(x);
            i = i + 1;
            assert(r@ =~= d@.take(i as int));
        }
        assert(d@.take(d.len() as int) =~= d@);
        r
    }

    proof fn lemma_join_commutative(x: Set<T>, y: Set<T>) {
        assert(x.union(y) =~= y.union(x));
    }

    proof fn lemma_join_associative(x: Set<T>, y: Set<T>, z: Set<T>) {
        assert(x.union(y).union(z) =~= x.union(y.union(z)));
    }

    proof fn lemma_join_idempotent(x: Set<T>) {
        assert(x.union(x) =~= x);
    }
}

/// The elements of a concatenation are those of its two parts.
pub proof fn lemma_to_set_concat<T>(a: Seq<T>, b: Seq<T>)
    ensures
        (a + b).to_set() == a.to_set().union(b.to_set()),
{
    assert forall|x: T| (a + b).to_set().contains(x) <==> a.to_set().union(b.to_set()).contains(x) by {
        if (a + b).to_set().contains(x) {
            let i = choose|i: int| 0 <= i < (a + b).len() && (a + b)[i] == x;
            if i < a.len() {
                assert(a[i] == x);
            } else {
                assert(b[i - a.len()] == x);
            }
        }
        if a.to_set().contains(x) {
            let i = choose|i: int| 0 <= i < a.len() && a[i] == x;
            assert((a + b)[i] == x);
        }
        if b.to_set().contains(x) {
            let i = choose|i: int| 0 <= i < b.len() && b[i] == x;
            assert((a + b)[a.len() + i] == x);
        }
    }
    assert((a + b).to_set() =~= a.to_set().union(b.to_set()));
}

/// Merging the same delta again changes nothing.
pub proof fn lemma_join_repeat<F: Merge>(s: F::Lattice, d: F::Lattice)
    ensures
        F::join(F::join(s, d), d) == F::join(s, d),
{
    F::lemma_join_associative(s, d, d);
    F::lemma_join_idempotent(d);
}

/// The order in which two deltas are merged does not matter.
pub proof fn lemma_join_reorder<F: Merge>(s: F::Lattice, d1: F::Lattice, d2: F::Lattice)
    ensures
        F::join(F::join(s, d1), d2) == F::join(F::join(s, d2), d1),
{
    F::lemma_join_associative(s, d1, d2);
    F::lemma_join_commutative(d1, d2);
    F::lemma_join_associative(s, d2, d1);
}

/// The element reached from `start` by merging each of `items` in turn.
pub open spec fn join_fold<F: Merge>(start: F::Lattice, items: Seq<F::Domain>) -> F::Lattice
    decreases items.len(),
{
    if items.len() == 0 {
        start
    } else {
        F::join(join_fold::<F>(start, items.drop_last()), F::lattice(items.last()))
    }
}

/// `a` is below `b` in the order of the lattice: their join is `b`.
pub open spec fn below<F: Merge>(a: F::Lattice, b: F::Lattice) -> bool {
    F::join(a, b) == b
}

/// Every element is below its join with another.
pub proof fn lemma_below_join<F: Merge>(a: F::Lattice, x: F::Lattice)
    ensures
        below::<F>(a, a),
        below::<F>(a, F::join(a, x)),
{
    F::lemma_join_idempotent(a);
    F::lemma_join_associative(a, a, x);
}

/// Along values each below the next, every value is below every later one.
pub proof fn lemma_rising_run<F: Merge>(vals: Seq<F::Lattice>)
    requires
        forall|i: int| 0 <= i < vals.len() - 1 ==> #[trigger] below::<F>(vals[i], vals[i + 1]),
    ensures
        forall|i: int, j: int| 0 <= i <= j < vals.len() ==> #[trigger] below::<F>(vals[i], vals[j]),
{
    assert forall|i: int, j: int| 0 <= i <= j < vals.len() implies #[trigger] below::<F>(
        vals[i],
        vals[j],
    ) by {
        lemma_rising_between::<F>(vals, i, j);
    }
}

proof fn lemma_rising_between<F: Merge>(vals: Seq<F::Lattice>, i: int, j: int)
    requires
        forall|k: int| 0 <= k < vals.len() - 1 ==> #[trigger] below::<F>(vals[k], vals[k + 1]),
        0 <= i <= j < vals.len(),
    ensures
        below::<F>(vals[i], vals[j]),
    decreases j - i,
{
    if i == j {
        F::lemma_join_idempotent(vals[i]);
    } else {
        lemma_rising_between::<F>(vals, i, j - 1);
        let k = j - 1;
        assert(below::<F>(vals[k], vals[k + 1]));
        assert(vals[k + 1] == vals[j]);
        F::lemma_join_associative(vals[i], vals[j - 1], vals[j]);
    }
}

/// Along values `vals`, each the join of the one before with the element
/// of the next of `items`, the last value is the join of the first with
/// every item, in order.
pub proof fn lemma_join_run<F: Merge>(vals: Seq<F::Lattice>, items: Seq<F::Domain>)
    requires
        vals.len() == items.len() + 1,
        forall|i: int|
            0 <= i < items.len() ==> vals[i + 1] == F::join(vals[i], F::lattice(#[trigger] items[i])),
    ensures
        vals.last() == join_fold::<F>(vals[0], items),
    decreases items.len(),
{
    if items.len() > 0 {
        let n = items.len() as int;
        let vs = vals.drop_last();
        let its = items.drop_last();
        assert forall|i: int| 0 <= i < its.len() implies vs[i + 1] == F::join(
            vs[i],
            F::lattice(#[trigger] its[i]),
        ) by {
            assert(items[i] == its[i]);
        }
        lemma_join_run::<F>(vs, its);
        assert(items[n - 1] == items.last());
        assert(vals[n] == F::join(vals[n - 1], F::lattice(items[n - 1])));
    }
}

/// Merging one more delta at any point of a sequence of merges ends at the
/// join of the sequence's result with that delta.
pub proof fn lemma_join_fold_insert<F: Merge>(
    s: F::Lattice,
    items: Seq<F::Domain>,
    i: int,
    x: F::Domain,
)
    requires
        0 <= i <= items.len(),
    ensures
        join_fold::<F>(s, items.insert(i, x)) == F::join(join_fold::<F>(s, items), F::lattice(x)),
    decreases items.len(),
{
    if i == items.len() {
        assert(items.insert(i, x) =~= items.push(x));
        assert(items.push(x).drop_last() =~= items);
    } else {
        let init = items.drop_last();
        let l = items.last();
        lemma_join_fold_insert::<F>(s, init, i, x);
        assert(items.insert(i, x).drop_last() =~= init.insert(i, x));
        assert(items.insert(i, x).last() == l);
        lemma_join_reorder::<F>(join_fold::<F>(s, init), F::lattice(x), F::lattice(l));
    }
}

/// The order in which deltas are merged does not matter: merging the same
/// deltas, in any order, ends at the same element.
pub proof fn lemma_join_fold_permutation<F: Merge>(
    s: F::Lattice,
    a: Seq<F::Domain>,
    b: Seq<F::Domain>,
)
    requires
        a.to_multiset() == b.to_multiset(),
    ensures
        join_fold::<F>(s, a) == join_fold::<F>(s, b),
    decreases a.len(),
{
    broadcast use vstd::seq_lib::group_to_multiset_ensures;

    if a.len() == 0 {
        assert(b.to_multiset().len() == 0);
        assert(b =~= Seq::<F::Domain>::empty());
    } else {
        let x = a.last();
        let a2 = a.drop_last();
        assert(a =~= a2.push(x));
        assert(a.to_multiset().count(x) > 0);
        assert(b.to_multiset().count(x) > 0);
        assert(b.contains(x));
        let i = choose|i: int| 0 <= i < b.len() && b[i] == x;
        let b2 = b.remove(i);
        assert(b2.to_multiset() == b.to_multiset().remove(x));
        assert(a2.to_multiset() =~= a.to_multiset().remove(x));
        lemma_join_fold_permutation::<F>(s, a2, b2);
        assert(b2.insert(i, x) =~= b);
        lemma_join_fold_insert::<F>(s, b2, i, x);
    }
}

/// The max lattice, by the name the operators use for a representation.
pub type MaxRepr<T> = MaxMerge<T>;

/// The min lattice, by the name the operators use for a representation.
pub type MinRepr<T> = MinMerge<T>;

/// A value of the lattice `F`, which only moves up by merges.
pub struct Lattice<F: Merge> {
    value: F::Domain,
}

impl<F: Merge> Lattice<F> {
    pub closed spec fn domain_spec(&self) -> F::Domain {
        self.value
    }

    /// The lattice element this value stands for.
    pub open spec fn element(&self) -> F::Lattice {
        F::lattice(self.domain_spec())
    }

    /// A lattice value starting at `value`.
    pub fn new(value: F::Domain) -> (r: Self)
        ensures
            r.domain_spec() == value,
    {
        Lattice { value }
    }

    /// Merges `delta` into this value.
    pub fn merge_in(&mut self, delta: F::Domain)
        ensures
            final(self).element() == F::join(old(self).element(), F::lattice(delta)),
    {
        F::merge_in(&mut self.value, delta);
    }

    /// The current value.
    pub fn as_reveal(&self) -> (r: &F::Domain)
        ensures
            *r == self.domain_spec(),
    {
        &self.value
    }

    /// The current value, taking the lattice apart.
    pub fn into_reveal(self) -> (r: F::Domain)
        ensures
            r == self.domain_spec(),
    {
        self.value
    }
}

} // verus!
