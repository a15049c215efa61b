//! Marshaling support for introspected enumerations.

use vstd::prelude::*;

verus! {

/// The failure of converting a foreign integer into a declared enum
/// variant: no variant carries the code, and the raw code is kept so the
/// caller loses nothing.
#[derive(Clone, Copy, PartialEq, Eq, Structural, Debug)]
pub struct UnknownValue(pub i32);

} // verus!
