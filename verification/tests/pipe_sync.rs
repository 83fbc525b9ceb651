use spinachflow::lattice::{Lattice, MaxMerge, SetUnionRepr};
use spinachflow::pipe::builder::{test as builder_example, test2 as builder_example2, Builder, ChainedUnconnected};
use spinachflow::pipe::{FilterPipe, FlattenPipe, MapPipe, MergePipe, Pipe, PipeConstructor, PipeConstructorStruct, SplitPipe, Tank, Unconnected, UnconnectedPipe};

fn max_tank(start: u64) -> Tank<MaxMerge<u64>> {
    Tank::new(Lattice::<MaxMerge<u64>>::new(start))
}

#[test]
fn tank_keeps_the_join_of_what_it_took() {
    let mut tank = max_tank(3);
    tank.merge_in(9);
    tank.merge_in(4);
    assert_eq!(*tank.get_lattice().as_reveal(), 9);
}

#[test]
fn set_tank_collects_every_item() {
    let mut tank = Tank::new(Lattice::<SetUnionRepr<u64>>::new(Vec::new()));
    tank.merge_in(vec![2]);
    tank.merge_in(vec![1, 2]);
    assert_eq!(*tank.get_lattice().as_reveal(), vec![2, 1, 2]);
}

#[test]
fn map_pipe_maps_before_merging() {
    let mut p = MapPipe::new(max_tank(0), |x: u64| x.wrapping_mul(2));
    p.merge_in(5);
    p.merge_in(3);
    assert_eq!(*p.pipe().get_lattice().as_reveal(), 10);
}

#[test]
fn filter_pipe_drops_rejected_items() {
    let mut p = FilterPipe::new(max_tank(0), |x: &u64| *x % 2 == 1);
    p.merge_in(8);
    assert_eq!(*p.pipe().get_lattice().as_reveal(), 0);
    p.merge_in(7);
    assert_eq!(*p.pipe().get_lattice().as_reveal(), 7);
}

#[test]
fn flatten_pipe_merges_each_element_in_order() {
    let mut p = FlattenPipe::new(Tank::new(Lattice::<SetUnionRepr<u64>>::new(Vec::new())));
    p.merge_in(vec![vec![1], vec![2, 3]]);
    p.merge_in(Vec::new());
    assert_eq!(*p.pipe().get_lattice().as_reveal(), vec![1, 2, 3]);
}

#[test]
fn split_pipe_sends_each_item_to_one_side() {
    let mut p = SplitPipe::new(max_tank(0), max_tank(0), |x: &u64| *x < 10);
    p.merge_in(4);
    p.merge_in(40);
    p.merge_in(2);
    assert_eq!(*p.pipe_l().get_lattice().as_reveal(), 4);
    assert_eq!(*p.pipe_r().get_lattice().as_reveal(), 40);
}

#[test]
fn merge_pipe_clones_share_one_pipe() {
    let mut a = MergePipe::new(max_tank(0));
    let mut b = a.clone();
    a.merge_in(3);
    b.merge_in(5);
    let _ = (a, b);
}

#[test]
fn unconnected_pipes_build_back_to_front() {
    let first = UnconnectedPipe::<MapPipe<u64, _, FilterPipe<_, Tank<MaxMerge<u64>>>>>::new(|x: u64| x.wrapping_add(1));
    let second = UnconnectedPipe::<FilterPipe<_, Tank<MaxMerge<u64>>>>::new(|x: &u64| *x > 5);
    let chain = ChainedUnconnected::new(first, second);
    let mut pipe = chain.connect(max_tank(0));
    pipe.merge_in(3);
    pipe.merge_in(9);
    assert_eq!(*pipe.pipe().pipe().get_lattice().as_reveal(), 10);
}

#[test]
fn pipe_constructor_struct_builds_the_pipe() {
    let c = PipeConstructorStruct::<FlattenPipe<u64, Tank<MaxMerge<u64>>>>::new(());
    let mut p = c.construct(max_tank(1));
    p.merge_in(vec![6, 2]);
    assert_eq!(*p.pipe().get_lattice().as_reveal(), 6);
    let mut q = <FlattenPipe<u64, Tank<MaxMerge<u64>>> as PipeConstructor>::new(max_tank(0), ());
    q.merge_in(vec![3]);
    assert_eq!(*q.pipe().get_lattice().as_reveal(), 3);
}

#[test]
fn builder_chains_maps_into_a_tank() {
    let mut pipe = Builder::new()
        .map(|x: u64| x.wrapping_add(10))
        .map(|x: u64| vec![x])
        .connect(Tank::new(Lattice::<SetUnionRepr<u64>>::new(Vec::new())));
    pipe.merge_in(1);
    pipe.merge_in(2);
    assert_eq!(*pipe.pipe().pipe().get_lattice().as_reveal(), vec![11, 12]);
}

#[test]
fn builder_examples_run() {
    builder_example();
    builder_example2();
}

/// Maps merged key by key, each value a max lattice.
struct MapOfMax;

impl spinachflow::lattice::Merge for MapOfMax {
    type Domain = std::collections::HashMap<u64, Lattice<MaxMerge<u64>>>;
    type Lattice = ();

    fn lattice(_d: Self::Domain) -> () {}

    fn join(_x: (), _y: ()) -> () {}

    fn copy_of(_a: Self::Domain, _b: Self::Domain) -> bool {
        true
    }

    fn merge_in(val: &mut Self::Domain, delta: Self::Domain) {
        for (k, v) in delta {
            let d = v.into_reveal();
            match val.get_mut(&k) {
                Some(l) => l.merge_in(d),
                None => {
                    val.insert(k, Lattice::new(d));
                }
            }
        }
    }

    fn copy(d: &Self::Domain) -> Self::Domain {
        d.iter().map(|(k, v)| (*k, Lattice::new(*v.as_reveal()))).collect()
    }

    fn lemma_join_commutative(_x: (), _y: ()) {}

    fn lemma_join_associative(_x: (), _y: (), _z: ()) {}

    fn lemma_join_idempotent(_x: ()) {}
}

#[test]
fn kv_pipe_merges_one_entry_maps() {
    let tank = Tank::new(Lattice::<MapOfMax>::new(std::collections::HashMap::new()));
    let mut kv = tank.kv_pipe();
    kv.merge_in((1, Lattice::new(5)));
    kv.merge_in((1, Lattice::new(3)));
    kv.merge_in((2, Lattice::new(7)));
    let tank = kv.into_tank();
    let map = tank.get_lattice().as_reveal();
    assert_eq!(map.len(), 2);
    assert_eq!(*map[&1].as_reveal(), 5);
    assert_eq!(*map[&2].as_reveal(), 7);
}
