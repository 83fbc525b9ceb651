# spinachflow

Push- and pull-based dataflow operators over lattices, written in Verus.
Operators state, as a relation between their value before and after a
call, what a pull or a push does; composite operators state theirs in terms
of the operators they wrap, and Verus proves each body against its
contract. The futures that drive compositions state one poll each in an
inherent `poll_once`, which their `Future::poll` calls.

Operators whose sides share state through a `RefCell` (splits, handoffs,
the merge pipe, the shared lattice operator) can say little of a call
beyond what they were built with, because contracts do not follow what a
cell holds; the decisions they take on that state are stated one call
down, on the state itself (`SplitCore`, `Handoff`, `send_once`).

Layout of `src/`:

- `lattice`: lattices (`Merge`) with their join laws: max, min and set
  union; `Lattice`, a value that only moves up; the laws that merging in
  any order, or twice, gives the same element.
- `op`: lattice-flow operators (`OpDelta`, `OpValue`) — symmetric hash
  join, merge, split, morphisms — and the first generation of pull/push
  operators with their compositions (`comp`, `dyncomp`), handoffs,
  map/filter/flatten, the decisions of the timer-interval operators given
  whether their timer elapsed, and the decisions taken on reads of
  standard input and of TCP frames.
- `op2`: the second generation of pull/push operators, with the one-slot
  handoff and its laws.
- `pull`: pull-only operators, including a lattice operator shared between
  clones.
- `pipes`, `ops`: push-only operators by reference or value, shared or
  exclusive, and the adapters between them.
- `pipe`: synchronous pipes built back to front and ending in a `Tank`,
  with the law that a tank holds the join of all it took.
- `task`, `feedback`, `channel`, `convert`: the calls into std, `futures`
  and `tokio`, each with the contract it is trusted to meet.

`app/` holds what talks to the outside world: standard input and output,
TCP and UDP sockets, the sending halves of channels, the tokio timers of
the interval operators, and the async loops that drive compositions.
