//! Identifiers shared by all architectures.

use vstd::prelude::*;

verus! {

/// Integer type that carries a register identifier.
pub type RegIdInt = u16;

/// Architecture-independent identifier of a register.
#[derive(Copy, Clone, Debug, Eq, Hash, Ord, PartialEq, PartialOrd, Structural)]
pub struct RegId(pub RegIdInt);

} // verus!
