//! Push- and pull-based dataflow operators over lattices, with their
//! scheduling decisions verified.
#![allow(unused_imports)]

pub mod task;
pub mod lattice;
pub mod op2;
pub mod func;
pub mod feedback;
pub mod convert;
pub mod metadata;
pub mod op;
pub mod pull;
pub mod channel;
pub mod pipes;
pub mod ops;
pub mod pipe;
