//! Lattice-flow operators: each carries a lattice representation and
//! yields deltas of it, or its current value.
pub mod flow;
pub mod sealed;
pub mod optrait;
pub mod symhashjoinop;
pub mod nullop;
pub mod constop;
pub mod latticeop;
pub mod mergeop;
pub mod morphop;
pub mod cloneop;
pub mod splitop;
pub mod op;
pub mod naryop;
pub mod rendezvousop;
pub mod referenceop;
pub mod toownedop;
pub mod debugop;
pub mod mapfilterop;
pub mod stdinop;
pub mod maprendezvous;
pub mod monotonicop;
pub mod handoffop;
pub mod util;
pub mod timingop;
pub mod comp;
pub mod dyncomp;
pub mod channelop;
pub mod tcpop;
