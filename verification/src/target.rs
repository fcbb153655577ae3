//! The machine that code is generated for.

use vstd::prelude::*;

verus! {

/// A processor architecture that code can be generated for.
#[allow(non_camel_case_types)]
#[derive(Clone, Copy, PartialEq, Eq, Structural, Hash, Debug)]
pub enum Architecture {
    X86_64,
    X86_32,
    Aarch64,
    Arm,
    Wasm32,
}

/// What has to be known of the target to lay values out in memory.
#[derive(Clone, Copy, PartialEq, Eq, Structural, Hash, Debug)]
pub struct TargetInfo {
    pub architecture: Architecture,
}

} // verus!
