//! Builtin resolution for the compiler: numeric widths and the names of the
//! low-level intrinsics that implement numeric primitives at each width, and
//! the synthesized definitions of the builtins whose result is an open tag
//! union.

pub mod bitcode;
pub mod builder;
pub mod builtins;
pub mod expr;
pub mod intrinsic;
pub mod region;
pub mod semantics;
pub mod subs;
pub mod symbol;
pub mod target;
pub mod width;
