//! Operators with explicit move and reference variants of pulling and
//! pushing.
pub mod types;
pub mod sealed;
pub mod op;
pub mod util;
pub mod nullop;
pub mod handoffop;
pub mod cloneop;
pub mod debugop;
pub mod referenceop;
pub mod latticeop;
pub mod mapfilterop;
pub mod staticcomp;
pub mod channelop;
