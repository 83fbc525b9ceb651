//! A pipe at the end of a pipeline, accumulating what reaches it.
use vstd::prelude::*;
use std::collections::HashMap;
use std::hash::Hash;
use crate::lattice::{Lattice, Merge, join_fold};
use super::flatten_pipe::{merge_run, merged_all};
use vstd::std_specs::hash::obeys_key_model;
use super::Pipe;

verus! {

/// Merges every item it takes into a lattice value.
#[verifier::reject_recursive_types(F)]
pub struct Tank<F: Merge> {
    lattice: Lattice<F>,
}

impl<F: Merge> Tank<F> {
    pub closed spec fn lattice_spec(&self) -> Lattice<F> {
        self.lattice
    }

    pub fn new(lattice: Lattice<F>) -> (r: Self)
        ensures
            r.lattice_spec() == lattice,
    {
        Tank { lattice }
    }

    /// The value accumulated so far.
    pub fn get_lattice(&self) -> (r: &Lattice<F>)
        ensures
            *r == self.lattice_spec(),
    {
        &self.lattice
    }
}

impl<F: Merge> Pipe for Tank<F> {
    type Item = F::Domain;

    /// The value moves to its join with the item.
    open spec fn merged(pre: Self, input: F::Domain, post: Self) -> bool {
        post.lattice_spec().element() == F::join(pre.lattice_spec().element(), F::lattice(input))
    }

    fn merge_in(&mut self, input: F::Domain) {
        self.lattice.merge_in(input);
    }
}

/// Along a run of merges into a tank, each state holds the join of the
/// first with the items merged so far.
proof fn lemma_tank_run<F: Merge>(states: Seq<Tank<F>>, items: Seq<F::Domain>, k: int)
    requires
        merge_run(states, items),
        0 <= k <= items.len(),
    ensures
        states[k].lattice_spec().element() == join_fold::<F>(
            states[0].lattice_spec().element(),
            items.take(k),
        ),
    decreases k,
{
    if k > 0 {
        lemma_tank_run(states, items, k - 1);
        let i = k - 1;
        assert(Tank::<F>::merged(states[i], items[i], states[i + 1]));
        assert(items.take(k).drop_last() =~= items.take(k - 1));
    } else {
        assert(items.take(0) =~= Seq::<F::Domain>::empty());
    }
}

/// Merging items into a tank, one merge at a time, leaves it holding the
/// join of its first value with every item, in the order merged.
pub proof fn lemma_tank_accumulates<F: Merge>(pre: Tank<F>, items: Seq<F::Domain>, post: Tank<F>)
    requires
        merged_all(pre, items, post),
    ensures
        post.lattice_spec().element() == join_fold::<F>(pre.lattice_spec().element(), items),
{
    let states = choose|states: Seq<Tank<F>>|
        #[trigger] merge_run(states, items) && states[0] == pre && states.last() == post;
    lemma_tank_run(states, items, items.len() as int);
    assert(items.take(items.len() as int) =~= items);
}

impl<K: Eq + Hash, VF: Merge, F: Merge<Domain = HashMap<K, Lattice<VF>>>> Tank<F> {
    /// A pipe taking key-value pairs: each becomes a one-entry map, merged
    /// into this tank.
    pub fn kv_pipe(self) -> (r: KvPipe<K, VF, F>)
        ensures
            r.tank_spec() == self,
    {
        KvPipe { tank: self }
    }
}

/// The key-value pipe of a tank of maps.
#[verifier::reject_recursive_types(K)]
#[verifier::reject_recursive_types(VF)]
#[verifier::reject_recursive_types(F)]
pub struct KvPipe<K: Eq + Hash, VF: Merge, F: Merge<Domain = HashMap<K, Lattice<VF>>>> {
    tank: Tank<F>,
}

impl<K: Eq + Hash, VF: Merge, F: Merge<Domain = HashMap<K, Lattice<VF>>>> KvPipe<K, VF, F> {
    pub closed spec fn tank_spec(&self) -> Tank<F> {
        self.tank
    }

    /// The tank the pairs are merged into.
    pub fn into_tank(self) -> (r: Tank<F>)
        ensures
            r == self.tank_spec(),
    {
        self.tank
    }
}

impl<K: Eq + Hash, VF: Merge, F: Merge<Domain = HashMap<K, Lattice<VF>>>> Pipe for KvPipe<K, VF, F> {
    type Item = (K, Lattice<VF>);

    /// The map holding just this pair is merged into the tank. (What a map
    /// holds is known where the key type follows the hashing model.)
    open spec fn merged(pre: Self, input: (K, Lattice<VF>), post: Self) -> bool {
        exists|m: HashMap<K, Lattice<VF>>|
            #[trigger] Tank::<F>::merged(pre.tank_spec(), m, post.tank_spec()) && (
            obeys_key_model::<K>() ==> m@ == Map::<K, Lattice<VF>>::empty().insert(input.0, input.1))
    }

    fn merge_in(&mut self, input: (K, Lattice<VF>)) {
        let ghost pre = *self;
        let (k, v) = input;
        let mut y: HashMap<K, Lattice<VF>> = HashMap::new();
        y.insert(k, v);
        let ghost yg = y;
        self.tank.merge_in(y);
        assert(Tank::<F>::merged(pre.tank_spec(), yg, self.tank_spec()));
    }
}

} // verus!
