//! The options of an op.
use vstd::prelude::*;

verus! {

/// The options that the author of an op chose.
#[derive(Clone, Copy, PartialEq, Eq, Structural, Debug)]
pub struct MacroConfig {
    /// The op has a fast call as well.
    pub fast: bool,
}

} // verus!
