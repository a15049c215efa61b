//! Safe, verified core of a binding layer over a reference-counted foreign
//! object system: ownership and wrapper handles, runtime type identity with
//! checked downcasts, enum and flags marshaling with explicit unknown-value
//! handling, error-domain classification, and a two-phase asynchronous
//! completion model driven by a cooperative event loop.
//!
//! The foreign process state (object table, type registry, pending
//! asynchronous operations, the set of reachable file paths) is held in an
//! explicit [`runtime::Runtime`] value, so that every operation's effect on
//! it can be stated and proved.

pub mod cast;
pub mod enumeration;
pub mod error;
pub mod flags;
pub mod gio;
pub mod gtype;
pub mod mainloop;
pub mod object;
pub mod runtime;
pub mod value;
