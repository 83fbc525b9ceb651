//! Symmetric hash join of two set-valued flows keyed by their first
//! component.
use vstd::prelude::*;
use std::collections::HashMap;
use std::task::Context;
use crate::lattice::{Merge, SetUnionRepr};
use crate::task::Poll;
use std::marker::PhantomData;
use crate::metadata::Order;
use super::optrait::{Op, OpDelta, delta_run};

verus! {

broadcast use vstd::std_specs::hash::group_hash_axioms;

/// The pairs a table holds: `(k, v)` for each `v` listed under `k`.
pub open spec fn table_pairs(m: Map<u64, Vec<u64>>) -> Set<(u64, u64)> {
    Set::new(|p: (u64, u64)| m.contains_key(p.0) && m[p.0]@.contains(p.1))
}

/// The join of two sets of pairs on their first component.
pub open spec fn join_triples(a: Set<(u64, u64)>, b: Set<(u64, u64)>) -> Set<(u64, u64, u64)> {
    Set::new(|t: (u64, u64, u64)| a.contains((t.0, t.1)) && b.contains((t.0, t.2)))
}

/// The pairs of a polled delta, none if there was no delta.
pub open spec fn delta_pairs(r: Poll<Option<Vec<(u64, u64)>>>) -> Set<(u64, u64)> {
    match r {
        Poll::Ready(Some(d)) => d@.to_set(),
        _ => Set::empty(),
    }
}

/// One poll of the join, given what the two sides gave: the deltas are
/// added to the tables, and what is produced is the join of the new left
/// pairs with the old right table, and of the new left table with the new
/// right pairs. The join ends when both sides have ended; it yields only
/// when it produced something.
pub open spec fn sym_join_step(
    a: Set<(u64, u64)>,
    b: Set<(u64, u64)>,
    ra: Poll<Option<Vec<(u64, u64)>>>,
    rb: Poll<Option<Vec<(u64, u64)>>>,
    a2: Set<(u64, u64)>,
    b2: Set<(u64, u64)>,
    out: Poll<Option<Vec<(u64, u64, u64)>>>,
) -> bool {
    let da = delta_pairs(ra);
    let db = delta_pairs(rb);
    let produced = join_triples(da, b).union(join_triples(a2, db));
    &&& a2 == a.union(da)
    &&& b2 == b.union(db)
    &&& if ra == Poll::<Option<Vec<(u64, u64)>>>::Ready(None) && rb == Poll::<
        Option<Vec<(u64, u64)>>,
    >::Ready(None) {
        out == Poll::<Option<Vec<(u64, u64, u64)>>>::Ready(None)
    } else if produced.is_empty() {
        out is Pending
    } else {
        out matches Poll::Ready(Some(v)) && v@.to_set() == produced
    }
}

/// What one poll produces, together with what earlier polls produced, is
/// the join of everything received so far: the join grows exactly by the
/// new left pairs against the old right side and the new left side against
/// the new right pairs.
pub proof fn lemma_sym_join_incremental(
    a: Set<(u64, u64)>,
    b: Set<(u64, u64)>,
    da: Set<(u64, u64)>,
    db: Set<(u64, u64)>,
)
    ensures
        join_triples(a.union(da), b.union(db)) == join_triples(a, b).union(
            join_triples(da, b),
        ).union(join_triples(a.union(da), db)),
{
    assert(join_triples(a.union(da), b.union(db)) =~= join_triples(a, b).union(
        join_triples(da, b),
    ).union(join_triples(a.union(da), db)));
}

/// The triples a poll of the join produced: those of its delta, if any.
pub open spec fn produced_triples(out: Poll<Option<Vec<(u64, u64, u64)>>>) -> Set<(u64, u64, u64)> {
    match out {
        Poll::Ready(Some(v)) => v@.to_set(),
        _ => Set::empty(),
    }
}

/// The join misses nothing and invents nothing: if what it produced before
/// a poll is the join of the pairs it had received, then with what the poll
/// produces it is the join of the pairs received after the poll.
pub proof fn lemma_sym_join_step_complete(
    a: Set<(u64, u64)>,
    b: Set<(u64, u64)>,
    ra: Poll<Option<Vec<(u64, u64)>>>,
    rb: Poll<Option<Vec<(u64, u64)>>>,
    a2: Set<(u64, u64)>,
    b2: Set<(u64, u64)>,
    out: Poll<Option<Vec<(u64, u64, u64)>>>,
    emitted: Set<(u64, u64, u64)>,
)
    requires
        sym_join_step(a, b, ra, rb, a2, b2, out),
        emitted == join_triples(a, b),
    ensures
        emitted.union(produced_triples(out)) == join_triples(a2, b2),
{
    let da = delta_pairs(ra);
    let db = delta_pairs(rb);
    lemma_sym_join_incremental(a, b, da, db);
    let produced = join_triples(da, b).union(join_triples(a2, db));
    if ra == Poll::<Option<Vec<(u64, u64)>>>::Ready(None) && rb == Poll::<
        Option<Vec<(u64, u64)>>,
    >::Ready(None) {
        assert(da =~= Set::<(u64, u64)>::empty());
        assert(db =~= Set::<(u64, u64)>::empty());
        assert(join_triples(da, b) =~= Set::<(u64, u64, u64)>::empty());
        assert(join_triples(a2, db) =~= Set::<(u64, u64, u64)>::empty());
        assert(emitted.union(produced_triples(out)) =~= join_triples(a2, b2));
    } else if produced.is_empty() {
        assert(produced =~= Set::<(u64, u64, u64)>::empty());
        assert(emitted.union(produced_triples(out)) =~= join_triples(a2, b2));
    } else {
        assert(emitted.union(produced_triples(out)) =~= join_triples(a2, b2));
    }
}

/// Whether `v` occurs in `vs`.
fn vec_contains(vs: &Vec<u64>, v: u64) -> (r: bool)
    ensures
        r == vs@.contains(v),
{
    let mut i: usize = 0;
    while i < vs.len()
        invariant
            i <= vs.len(),
            forall|j: int| 0 <= j < i ==> vs@[j] != v,
        decreases vs.len() - i,
    {
        if vs[i] == v {
            return true;
        }
        i = i + 1;
    }
    false
}

/// Adds the pair `(k, v)` to a table.
fn table_insert(m: &mut HashMap<u64, Vec<u64>>, k: u64, v: u64)
    ensures
        table_pairs(final(m)@) == table_pairs(old(m)@).insert((k, v)),
{
    let ghost before = m@;
    let vs = match m.remove(&k) {
        Some(vs) => {
            let mut vs = vs;
            if !vec_contains(&vs, v) {
                vs.push(v);
            }
            vs
        },
        None => {
            let mut vs: Vec<u64> = Vec::new();
            vs.push(v);
            vs
        },
    };
    assert(vs@.contains(v)) by {
        if !(before.contains_key(k) && before[k]@.contains(v)) {
            assert(vs@[vs@.len() - 1] == v);
        }
    }
    m.insert(k, vs);
    assert forall|p: (u64, u64)| #[trigger]
        table_pairs(m@).contains(p) <==> table_pairs(before).insert((k, v)).contains(p) by {
        if p.0 == k && p != (k, v) {
            if before.contains_key(k) {
                if before[k]@.contains(p.1) {
                    let j = choose|j: int| 0 <= j < before[k]@.len() && before[k]@[j] == p.1;
                    assert(vs@[j] == p.1);
                }
                if vs@.contains(p.1) {
                    let j = choose|j: int| 0 <= j < vs@.len() && vs@[j] == p.1;
                    if j < before[k]@.len() {
                        assert(before[k]@[j] == p.1);
                    }
                }
            } else {
                if vs@.contains(p.1) {
                    let j = choose|j: int| 0 <= j < vs@.len() && vs@[j] == p.1;
                    assert(vs@[j] == v);
                }
            }
        }
    }
    assert(table_pairs(m@) =~= table_pairs(before).insert((k, v)));
}

/// Adds every pair of `delta` to a table.
fn table_insert_all(m: &mut HashMap<u64, Vec<u64>>, delta: &Vec<(u64, u64)>)
    ensures
        table_pairs(final(m)@) == table_pairs(old(m)@).union(delta@.to_set()),
{
    let ghost before = table_pairs(m@);
    let mut i: usize = 0;
    while i < delta.len()
        invariant
            i <= delta.len(),
            table_pairs(m@) == before.union(delta@.take(i as int).to_set()),
        decreases delta.len() - i,
    {
        let (k, v) = delta[i];
        table_insert(m, k, v);
        proof {
            assert(delta@.take(i + 1) =~= delta@.take(i as int).push((k, v)));
            lemma_to_set_push(delta@.take(i as int), (k, v));
            assert(before.union(delta@.take(i as int).to_set()).insert((k, v)) =~= before.union(
                delta@.take(i as int).to_set().insert((k, v)),
            ));
        }
        i = i + 1;
    }
    assert(delta@.take(delta.len() as int) =~= delta@);
}

/// The elements of a sequence with one more item.
proof fn lemma_to_set_push<T>(s: Seq<T>, x: T)
    ensures
        s.push(x).to_set() == s.to_set().insert(x),
{
    assert forall|y: T| #[trigger] s.push(x).to_set().contains(y) <==> s.to_set().insert(
        x,
    ).contains(y) by {
        if s.push(x).to_set().contains(y) && y != x {
            let j = choose|j: int| 0 <= j < s.push(x).len() && s.push(x)[j] == y;
            assert(s[j] == y);
        }
        if s.to_set().contains(y) {
            let j = choose|j: int| 0 <= j < s.len() && s[j] == y;
            assert(s.push(x)[j] == y);
        }
        if y == x {
            assert(s.push(x)[s.len() as int] == x);
        }
    }
    assert(s.push(x).to_set() =~= s.to_set().insert(x));
}

/// Appends the join of the pairs of `delta` (as left pairs when
/// `delta_is_left`, else as right pairs) with the pairs of the table of the
/// other side.
fn emit_join(
    delta: &Vec<(u64, u64)>,
    other: &HashMap<u64, Vec<u64>>,
    delta_is_left: bool,
    out: &mut Vec<(u64, u64, u64)>,
)
    ensures
        final(out)@.to_set() == old(out)@.to_set().union(
            if delta_is_left {
                join_triples(delta@.to_set(), table_pairs(other@))
            } else {
                join_triples(table_pairs(other@), delta@.to_set())
            },
        ),
{
    let ghost start = out@.to_set();
    let ghost target = if delta_is_left {
        join_triples(delta@.to_set(), table_pairs(other@))
    } else {
        join_triples(table_pairs(other@), delta@.to_set())
    };
    let mut i: usize = 0;
    while i < delta.len()
        invariant
            i <= delta.len(),
            target == (if delta_is_left {
                join_triples(delta@.to_set(), table_pairs(other@))
            } else {
                join_triples(table_pairs(other@), delta@.to_set())
            }),
            out@.to_set() == start.union(
                target.filter(
                    |t: (u64, u64, u64)|
                        delta@.take(i as int).to_set().contains(
                            if delta_is_left {
                                (t.0, t.1)
                            } else {
                                (t.0, t.2)
                            },
                        ),
                ),
            ),
        decreases delta.len() - i,
    {
        let (k, v) = delta[i];
        let ghost before_i = out@.to_set();
        match other.get(&k) {
            Some(vs) => {
                let mut j: usize = 0;
                while j < vs.len()
                    invariant
                        j <= vs.len(),
                        out@.to_set() == before_i.union(
                            Set::new(
                                |t: (u64, u64, u64)|
                                    exists|jj: int|
                                        0 <= jj < j && t == (if delta_is_left {
                                            (k, v, vs@[jj])
                                        } else {
                                            (k, vs@[jj], v)
                                        }),
                            ),
                        ),
                    decreases vs.len() - j,
                {
                    let t = if delta_is_left {
                        (k, v, vs[j])
                    } else {
                        (k, vs[j], v)
                    };
                    let ghost prev = out@;
                    out.push(t);
                    proof {
                        lemma_to_set_push(prev, t);
                        assert(Set::new(
                            |t: (u64, u64, u64)|
                                exists|jj: int|
                                    0 <= jj < j + 1 && t == (if delta_is_left {
                                        (k, v, vs@[jj])
                                    } else {
                                        (k, vs@[jj], v)
                                    }),
                        ) =~= Set::new(
                            |t: (u64, u64, u64)|
                                exists|jj: int|
                                    0 <= jj < j && t == (if delta_is_left {
                                        (k, v, vs@[jj])
                                    } else {
                                        (k, vs@[jj], v)
                                    }),
                        ).insert(t));
                    }
                    j = j + 1;
                }
            },
            None => {},
        }
        proof {
            assert(delta@.take(i + 1) =~= delta@.take(i as int).push((k, v)));
            lemma_to_set_push(delta@.take(i as int), (k, v));
            let f_old = |t: (u64, u64, u64)|
                delta@.take(i as int).to_set().contains(
                    if delta_is_left {
                        (t.0, t.1)
                    } else {
                        (t.0, t.2)
                    },
                );
            let f_new = |t: (u64, u64, u64)|
                delta@.take(i + 1).to_set().contains(
                    if delta_is_left {
                        (t.0, t.1)
                    } else {
                        (t.0, t.2)
                    },
                );
            assert forall|t: (u64, u64, u64)| #[trigger]
                out@.to_set().contains(t) <==> start.union(target.filter(f_new)).contains(t) by {
                if out@.to_set().contains(t) && !before_i.contains(t) {
                    // t was produced for the pair (k, v)
                    if other@.contains_key(k) {
                        let vs = other@[k];
                        let jj = choose|jj: int|
                            0 <= jj < vs@.len() && t == (if delta_is_left {
                                (k, v, vs@[jj])
                            } else {
                                (k, vs@[jj], v)
                            });
                        assert(vs@.contains(vs@[jj]));
                        assert(delta@.to_set().contains((k, v))) by {
                            assert(delta@[i as int] == (k, v));
                        }
                    }
                }
                if start.union(target.filter(f_new)).contains(t) && !start.contains(t)
                    && !target.filter(f_old).contains(t) {
                    let key = if delta_is_left {
                        (t.0, t.1)
                    } else {
                        (t.0, t.2)
                    };
                    assert(key == (k, v));
                    let w = if delta_is_left {
                        t.2
                    } else {
                        t.1
                    };
                    assert(table_pairs(other@).contains((k, w)));
                    let vs = other@[k];
                    let jj = choose|jj: int| 0 <= jj < vs@.len() && vs@[jj] == w;
                    assert(t == (if delta_is_left {
                        (k, v, vs@[jj])
                    } else {
                        (k, vs@[jj], v)
                    }));
                }
            }
            assert(out@.to_set() =~= start.union(target.filter(f_new)));
        }
        i = i + 1;
    }
    proof {
        assert(delta@.take(delta.len() as int) =~= delta@);
        assert(target.filter(
            |t: (u64, u64, u64)|
                delta@.take(delta.len() as int).to_set().contains(
                    if delta_is_left {
                        (t.0, t.1)
                    } else {
                        (t.0, t.2)
                    },
                ),
        ) =~= target);
    }
}

/// A symmetric hash join of the pair flows of `op_a` and `op_b`: each
/// side's pairs are kept in a table by key, and each new pair is joined
/// with the table of the other side.
pub struct SymHashJoinOp<A, B>
where
    A: OpDelta<LatRepr = SetUnionRepr<(u64, u64)>>,
    B: OpDelta<LatRepr = SetUnionRepr<(u64, u64)>>,
{
    op_a: A,
    op_b: B,
    table_a: HashMap<u64, Vec<u64>>,
    table_b: HashMap<u64, Vec<u64>>,
}

impl<A, B> SymHashJoinOp<A, B>
where
    A: OpDelta<LatRepr = SetUnionRepr<(u64, u64)>>,
    B: OpDelta<LatRepr = SetUnionRepr<(u64, u64)>>,
{
    /// The left pairs received so far.
    pub closed spec fn pairs_a(&self) -> Set<(u64, u64)> {
        table_pairs(self.table_a@)
    }

    /// The right pairs received so far.
    pub closed spec fn pairs_b(&self) -> Set<(u64, u64)> {
        table_pairs(self.table_b@)
    }

    pub closed spec fn op_a_spec(&self) -> A {
        self.op_a
    }

    pub closed spec fn op_b_spec(&self) -> B {
        self.op_b
    }

    /// A join of `op_a` and `op_b` that has received nothing yet.
    pub fn new(op_a: A, op_b: B) -> (r: Self)
        ensures
            r.op_a_spec() == op_a,
            r.op_b_spec() == op_b,
            r.pairs_a() == Set::<(u64, u64)>::empty(),
            r.pairs_b() == Set::<(u64, u64)>::empty(),
    {
        let r = SymHashJoinOp { op_a, op_b, table_a: HashMap::new(), table_b: HashMap::new() };
        assert(r.pairs_a() =~= Set::<(u64, u64)>::empty());
        assert(r.pairs_b() =~= Set::<(u64, u64)>::empty());
        r
    }
}

impl<A, B> Op for SymHashJoinOp<A, B>
where
    A: OpDelta<LatRepr = SetUnionRepr<(u64, u64)>>,
    B: OpDelta<LatRepr = SetUnionRepr<(u64, u64)>>,
{
    type LatRepr = SetUnionRepr<(u64, u64, u64)>;
}

impl<A, B> OpDelta for SymHashJoinOp<A, B>
where
    A: OpDelta<LatRepr = SetUnionRepr<(u64, u64)>>,
    B: OpDelta<LatRepr = SetUnionRepr<(u64, u64)>>,
{
    open spec fn delta_polled(pre: Self, post: Self, out: Poll<Option<Vec<(u64, u64, u64)>>>) -> bool {
        exists|ra: Poll<Option<Vec<(u64, u64)>>>, rb: Poll<Option<Vec<(u64, u64)>>>|
            #![trigger A::delta_polled(pre.op_a_spec(), post.op_a_spec(), ra), B::delta_polled(pre.op_b_spec(), post.op_b_spec(), rb)]
            A::delta_polled(pre.op_a_spec(), post.op_a_spec(), ra) && B::delta_polled(
                pre.op_b_spec(),
                post.op_b_spec(),
                rb,
            ) && sym_join_step(
                pre.pairs_a(),
                pre.pairs_b(),
                ra,
                rb,
                post.pairs_a(),
                post.pairs_b(),
                out,
            )
    }

    fn poll_delta(&mut self, ctx: &mut Context<'_>) -> (out: Poll<Option<Vec<(u64, u64, u64)>>>) {
        let ghost a0 = self.pairs_a();
        let ghost b0 = self.pairs_b();
        let ghost pre = *self;
        let mut out: Vec<(u64, u64, u64)> = Vec::new();
        let ra = self.op_a.poll_delta(ctx);
        let eos = match &ra {
            Poll::Ready(Some(delta)) => {
                table_insert_all(&mut self.table_a, delta);
                emit_join(delta, &self.table_b, true, &mut out);
                false
            },
            Poll::Ready(None) => true,
            Poll::Pending => false,
        };
        let rb = self.op_b.poll_delta(ctx);
        let ghost a1 = self.pairs_a();
        proof {
            assert(out@.to_set() =~= join_triples(delta_pairs(ra), b0)) by {
                assert(Seq::<(u64, u64, u64)>::empty().to_set() =~= Set::empty());
            }
        }
        match &rb {
            Poll::Ready(Some(delta)) => {
                table_insert_all(&mut self.table_b, delta);
                emit_join(delta, &self.table_a, false, &mut out);
            },
            Poll::Ready(None) => {
                if eos {
                    proof {
                        assert(self.pairs_a() =~= a0.union(delta_pairs(ra)));
                        assert(self.pairs_b() =~= b0.union(delta_pairs(rb)));
                        assert(sym_join_step(a0, b0, ra, rb, self.pairs_a(), self.pairs_b(), Poll::Ready(None)));
                        assert(A::delta_polled(pre.op_a_spec(), self.op_a_spec(), ra));
                        assert(B::delta_polled(pre.op_b_spec(), self.op_b_spec(), rb));
                    }
                    return Poll::Ready(None);
                }
            },
            Poll::Pending => {},
        }
        proof {
            assert(self.pairs_a() =~= a0.union(delta_pairs(ra)));
            assert(self.pairs_b() =~= b0.union(delta_pairs(rb)));
            assert(out@.to_set() =~= join_triples(delta_pairs(ra), b0).union(
                join_triples(a1, delta_pairs(rb)),
            ));
            assert(A::delta_polled(pre.op_a_spec(), self.op_a_spec(), ra));
            assert(B::delta_polled(pre.op_b_spec(), self.op_b_spec(), rb));
        }
        if out.len() > 0 {
            proof {
                assert(out@.to_set().contains(out@[0]));
            }
            let r = Poll::Ready(Some(out));
            assert(sym_join_step(a0, b0, ra, rb, self.pairs_a(), self.pairs_b(), r));
            r
        } else {
            proof {
                assert(out@.to_set() =~= Set::<(u64, u64, u64)>::empty());
            }
            assert(sym_join_step(a0, b0, ra, rb, self.pairs_a(), self.pairs_b(), Poll::Pending));
            Poll::Pending
        }
    }
}

/// The order of the deltas of a join of flows ordered by `A` and `B`.
pub struct SymHashJoinOrder<A: Order, B: Order>(PhantomData<(A, B)>);

impl<A: Order, B: Order> Order for SymHashJoinOrder<A, B> {}

/// The triples produced over the outcomes `outs`.
pub open spec fn produced_all(outs: Seq<Poll<Option<Vec<(u64, u64, u64)>>>>) -> Set<(u64, u64, u64)>
    decreases outs.len(),
{
    if outs.len() == 0 {
        Set::empty()
    } else {
        produced_all(outs.drop_last()).union(produced_triples(outs.last()))
    }
}

/// Over any run of polls the join misses nothing and invents nothing: what
/// it had joined at the start, with everything it produced along the run,
/// is the join of all the pairs it had received by the end.
pub proof fn lemma_sym_join_run_complete<A, B>(
    states: Seq<SymHashJoinOp<A, B>>,
    outs: Seq<Poll<Option<Vec<(u64, u64, u64)>>>>,
)
    where
        A: OpDelta<LatRepr = SetUnionRepr<(u64, u64)>>,
        B: OpDelta<LatRepr = SetUnionRepr<(u64, u64)>>,
    requires
        delta_run(states, outs),
    ensures
        join_triples(states[0].pairs_a(), states[0].pairs_b()).union(produced_all(outs)) == join_triples(
            states.last().pairs_a(),
            states.last().pairs_b(),
        ),
    decreases outs.len(),
{
    if outs.len() == 0 {
        assert(join_triples(states[0].pairs_a(), states[0].pairs_b()).union(produced_all(outs))
            =~= join_triples(states[0].pairs_a(), states[0].pairs_b()));
    } else {
        let n = outs.len() as int;
        let st = states.drop_last();
        let os = outs.drop_last();
        assert forall|i: int| 0 <= i < os.len() implies #[trigger] SymHashJoinOp::<A, B>::delta_polled(
            st[i],
            st[i + 1],
            os[i],
        ) by {
            assert(SymHashJoinOp::<A, B>::delta_polled(states[i], states[i + 1], outs[i]));
        }
        lemma_sym_join_run_complete(st, os);
        let pre = states[n - 1];
        let post = states[n];
        assert(SymHashJoinOp::<A, B>::delta_polled(pre, post, outs[n - 1]));
        let (ra, rb) = choose|ra: Poll<Option<Vec<(u64, u64)>>>, rb: Poll<Option<Vec<(u64, u64)>>>|
            #![trigger A::delta_polled(pre.op_a_spec(), post.op_a_spec(), ra), B::delta_polled(pre.op_b_spec(), post.op_b_spec(), rb)]
            A::delta_polled(pre.op_a_spec(), post.op_a_spec(), ra) && B::delta_polled(
                pre.op_b_spec(),
                post.op_b_spec(),
                rb,
            ) && sym_join_step(
                pre.pairs_a(),
                pre.pairs_b(),
                ra,
                rb,
                post.pairs_a(),
                post.pairs_b(),
                outs[n - 1],
            );
        let start = join_triples(states[0].pairs_a(), states[0].pairs_b());
        lemma_sym_join_step_complete(
            pre.pairs_a(),
            pre.pairs_b(),
            ra,
            rb,
            post.pairs_a(),
            post.pairs_b(),
            outs[n - 1],
            start.union(produced_all(os)),
        );
        assert(outs.last() == outs[n - 1]);
        assert(start.union(produced_all(outs)) =~= start.union(produced_all(os)).union(
            produced_triples(outs[n - 1]),
        ));
    }
}

} // verus!
