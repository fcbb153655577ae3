//! Source locations.

use vstd::prelude::*;

verus! {

/// The span of source text that a piece of syntax was read from.
#[derive(Clone, Copy, PartialEq, Eq, Structural, Hash, Debug)]
pub struct Region {
    pub start_line: u32,
    pub end_line: u32,
    pub start_col: u16,
    pub end_col: u16,
}

impl Region {
    /// The region of syntax that was read from no source text.
    pub open spec fn spec_zero() -> Region {
        Region { start_line: 0, end_line: 0, start_col: 0, end_col: 0 }
    }

    /// The region of syntax that was read from no source text.
    #[verifier::when_used_as_spec(spec_zero)]
    pub fn zero() -> (region: Region)
        ensures
            region == Region::spec_zero(),
    {
        Region { start_line: 0, end_line: 0, start_col: 0, end_col: 0 }
    }
}

/// A value together with the region it was read from.
#[derive(Clone, PartialEq, Eq, Debug)]
pub struct Located<T> {
    pub region: Region,
    pub value: T,
}

} // verus!
