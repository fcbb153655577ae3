//! The identifiers that the compiler itself defines and that this library
//! names: the numeric types under each of their spellings, the builtins that
//! are synthesized as definitions, their parameters, and the primitives that
//! their bodies call.

use vstd::prelude::*;

verus! {

/// A builtin identifier.
///
/// A fixed-width numeric type has three spellings: the short name that
/// programs write (`I64`), the descriptive name that it abbreviates
/// (`Signed64`), and the internal name of its private tag (`@Signed64`).
#[allow(non_camel_case_types)]
#[derive(Clone, Copy, PartialEq, Eq, Structural, Hash, Debug)]
pub enum Symbol {
    NUM_I128,
    NUM_SIGNED128,
    NUM_AT_SIGNED128,
    NUM_I64,
    NUM_SIGNED64,
    NUM_AT_SIGNED64,
    NUM_I32,
    NUM_SIGNED32,
    NUM_AT_SIGNED32,
    NUM_I16,
    NUM_SIGNED16,
    NUM_AT_SIGNED16,
    NUM_I8,
    NUM_SIGNED8,
    NUM_AT_SIGNED8,
    NUM_U128,
    NUM_UNSIGNED128,
    NUM_AT_UNSIGNED128,
    NUM_U64,
    NUM_UNSIGNED64,
    NUM_AT_UNSIGNED64,
    NUM_U32,
    NUM_UNSIGNED32,
    NUM_AT_UNSIGNED32,
    NUM_U16,
    NUM_UNSIGNED16,
    NUM_AT_UNSIGNED16,
    NUM_U8,
    NUM_UNSIGNED8,
    NUM_AT_UNSIGNED8,
    NUM_F64,
    NUM_BINARY64,
    NUM_AT_BINARY64,
    NUM_F32,
    NUM_BINARY32,
    NUM_AT_BINARY32,
    /// `Num.isLt`: whether the first number is below the second.
    NUM_LT,
    /// `Num.neg`: the negation of a number.
    NUM_NEG,
    /// `Int.isLt`: whether the first integer is below the second.
    INT_LT,
    /// `Int.isNeq` on 64-bit integers: whether two integers differ.
    INT_NEQ_I64,
    /// `Int.abs`, a synthesized builtin.
    INT_ABS,
    /// The parameter of `Int.abs`.
    INT_ABS_ARG,
    /// `Int.div`, a synthesized builtin.
    INT_DIV,
    /// The first parameter of `Int.div`.
    INT_DIV_ARG_NUMERATOR,
    /// The second parameter of `Int.div`.
    INT_DIV_ARG_DENOMINATOR,
    /// The division primitive, which does not check its denominator.
    INT_DIV_UNSAFE,
    /// `List.len`: the number of elements of a list.
    LIST_LEN,
    /// `List.isEmpty`: whether a list has no element.
    LIST_IS_EMPTY,
    /// `List.get`, a synthesized builtin.
    LIST_GET,
    /// The first parameter of `List.get`: the list.
    LIST_GET_ARG_LIST,
    /// The second parameter of `List.get`: the index.
    LIST_GET_ARG_INDEX,
    /// The lookup primitive, which does not check its index.
    LIST_GET_UNSAFE,
    /// `List.first`, a synthesized builtin.
    LIST_FIRST,
    /// The parameter of `List.first`.
    LIST_FIRST_ARG,
}

} // verus!
