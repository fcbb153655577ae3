//! The names under which the precompiled runtime offers its functions.
//!
//! A name is made of the runtime's namespace, a module and an operation,
//! with dots between them. Where an operation has one function for each
//! numeric width, the width is appended after one more dot: such an
//! operation has a table of names, made anew by each call of its function
//! here.

use crate::intrinsic::{
    float_intrinsic, int_intrinsic, int_to_int_intrinsic, IntToIntrinsicName, IntrinsicName,
};
use vstd::prelude::*;

verus! {

/// The arc sine of a float.
pub fn num_asin() -> (table: IntrinsicName)
    ensures
        table.is_float_table("roc_builtins.num.asin"@),
{
    float_intrinsic("roc_builtins.num.asin")
}

/// The arc cosine of a float.
pub fn num_acos() -> (table: IntrinsicName)
    ensures
        table.is_float_table("roc_builtins.num.acos"@),
{
    float_intrinsic("roc_builtins.num.acos")
}

/// The arc tangent of a float.
pub fn num_atan() -> (table: IntrinsicName)
    ensures
        table.is_float_table("roc_builtins.num.atan"@),
{
    float_intrinsic("roc_builtins.num.atan")
}

/// Whether a float is neither infinite nor not a number.
pub fn num_is_finite() -> (table: IntrinsicName)
    ensures
        table.is_float_table("roc_builtins.num.is_finite"@),
{
    float_intrinsic("roc_builtins.num.is_finite")
}

/// An integer raised to the power of another.
pub fn num_pow_int() -> (table: IntrinsicName)
    ensures
        table.is_int_table("roc_builtins.num.pow_int"@),
{
    int_intrinsic("roc_builtins.num.pow_int")
}

/// The quotient of two integers, rounded up.
pub fn num_div_ceil() -> (table: IntrinsicName)
    ensures
        table.is_int_table("roc_builtins.num.div_ceil"@),
{
    int_intrinsic("roc_builtins.num.div_ceil")
}

/// A float rounded to the nearest integer.
pub fn num_round() -> (table: IntrinsicName)
    ensures
        table.is_float_table("roc_builtins.num.round"@),
{
    float_intrinsic("roc_builtins.num.round")
}

pub const NUM_BYTES_TO_U16: &'static str = "roc_builtins.num.bytes_to_u16";
pub const NUM_BYTES_TO_U32: &'static str = "roc_builtins.num.bytes_to_u32";

pub const STR_INIT: &'static str = "roc_builtins.str.init";
pub const STR_COUNT_SEGMENTS: &'static str = "roc_builtins.str.count_segments";
pub const STR_CONCAT: &'static str = "roc_builtins.str.concat";
pub const STR_JOIN_WITH: &'static str = "roc_builtins.str.joinWith";
pub const STR_STR_SPLIT_IN_PLACE: &'static str = "roc_builtins.str.str_split_in_place";
pub const STR_COUNT_GRAPEHEME_CLUSTERS: &'static str = "roc_builtins.str.count_grapheme_clusters";
pub const STR_STARTS_WITH: &'static str = "roc_builtins.str.starts_with";
pub const STR_STARTS_WITH_CODE_PT: &'static str = "roc_builtins.str.starts_with_code_point";
pub const STR_ENDS_WITH: &'static str = "roc_builtins.str.ends_with";
pub const STR_NUMBER_OF_BYTES: &'static str = "roc_builtins.str.number_of_bytes";
/// An integer written as a string.
pub fn str_from_int() -> (table: IntrinsicName)
    ensures
        table.is_int_table("roc_builtins.str.from_int"@),
{
    int_intrinsic("roc_builtins.str.from_int")
}

pub const STR_FROM_FLOAT: &'static str = "roc_builtins.str.from_float";
/// The integer that a string writes.
pub fn str_to_int() -> (table: IntrinsicName)
    ensures
        table.is_int_table("roc_builtins.str.to_int"@),
{
    int_intrinsic("roc_builtins.str.to_int")
}

/// The float that a string writes.
pub fn str_to_float() -> (table: IntrinsicName)
    ensures
        table.is_float_table("roc_builtins.str.to_float"@),
{
    float_intrinsic("roc_builtins.str.to_float")
}

pub const STR_TO_DECIMAL: &'static str = "roc_builtins.str.to_decimal";
pub const STR_EQUAL: &'static str = "roc_builtins.str.equal";
pub const STR_TO_UTF8: &'static str = "roc_builtins.str.to_utf8";
pub const STR_FROM_UTF8: &'static str = "roc_builtins.str.from_utf8";
pub const STR_FROM_UTF8_RANGE: &'static str = "roc_builtins.str.from_utf8_range";
pub const STR_REPEAT: &'static str = "roc_builtins.str.repeat";
pub const STR_TRIM: &'static str = "roc_builtins.str.trim";
pub const STR_TRIM_LEFT: &'static str = "roc_builtins.str.trim_left";
pub const STR_TRIM_RIGHT: &'static str = "roc_builtins.str.trim_right";

pub const DICT_HASH: &'static str = "roc_builtins.dict.hash";
pub const DICT_HASH_STR: &'static str = "roc_builtins.dict.hash_str";
pub const DICT_LEN: &'static str = "roc_builtins.dict.len";
pub const DICT_EMPTY: &'static str = "roc_builtins.dict.empty";
pub const DICT_INSERT: &'static str = "roc_builtins.dict.insert";
pub const DICT_REMOVE: &'static str = "roc_builtins.dict.remove";
pub const DICT_CONTAINS: &'static str = "roc_builtins.dict.contains";
pub const DICT_GET: &'static str = "roc_builtins.dict.get";
pub const DICT_ELEMENTS_RC: &'static str = "roc_builtins.dict.elementsRc";
pub const DICT_KEYS: &'static str = "roc_builtins.dict.keys";
pub const DICT_VALUES: &'static str = "roc_builtins.dict.values";
pub const DICT_UNION: &'static str = "roc_builtins.dict.union";
pub const DICT_DIFFERENCE: &'static str = "roc_builtins.dict.difference";
pub const DICT_INTERSECTION: &'static str = "roc_builtins.dict.intersection";
pub const DICT_WALK: &'static str = "roc_builtins.dict.walk";

pub const SET_FROM_LIST: &'static str = "roc_builtins.dict.set_from_list";

pub const LIST_MAP: &'static str = "roc_builtins.list.map";
pub const LIST_MAP2: &'static str = "roc_builtins.list.map2";
pub const LIST_MAP3: &'static str = "roc_builtins.list.map3";
pub const LIST_MAP4: &'static str = "roc_builtins.list.map4";
pub const LIST_MAP_WITH_INDEX: &'static str = "roc_builtins.list.map_with_index";
pub const LIST_KEEP_IF: &'static str = "roc_builtins.list.keep_if";
pub const LIST_KEEP_OKS: &'static str = "roc_builtins.list.keep_oks";
pub const LIST_KEEP_ERRS: &'static str = "roc_builtins.list.keep_errs";
pub const LIST_WALK: &'static str = "roc_builtins.list.walk";
pub const LIST_WALK_UNTIL: &'static str = "roc_builtins.list.walkUntil";
pub const LIST_WALK_BACKWARDS: &'static str = "roc_builtins.list.walk_backwards";
pub const LIST_CONTAINS: &'static str = "roc_builtins.list.contains";
pub const LIST_REPEAT: &'static str = "roc_builtins.list.repeat";
pub const LIST_APPEND: &'static str = "roc_builtins.list.append";
pub const LIST_PREPEND: &'static str = "roc_builtins.list.prepend";
pub const LIST_SUBLIST: &'static str = "roc_builtins.list.sublist";
pub const LIST_DROP_AT: &'static str = "roc_builtins.list.drop_at";
pub const LIST_SWAP: &'static str = "roc_builtins.list.swap";
pub const LIST_SINGLE: &'static str = "roc_builtins.list.single";
pub const LIST_JOIN: &'static str = "roc_builtins.list.join";
pub const LIST_RANGE: &'static str = "roc_builtins.list.range";
pub const LIST_REVERSE: &'static str = "roc_builtins.list.reverse";
pub const LIST_SORT_WITH: &'static str = "roc_builtins.list.sort_with";
pub const LIST_CONCAT: &'static str = "roc_builtins.list.concat";
pub const LIST_REPLACE: &'static str = "roc_builtins.list.replace";
pub const LIST_REPLACE_IN_PLACE: &'static str = "roc_builtins.list.replace_in_place";
pub const LIST_ANY: &'static str = "roc_builtins.list.any";
pub const LIST_ALL: &'static str = "roc_builtins.list.all";
pub const LIST_FIND_UNSAFE: &'static str = "roc_builtins.list.find_unsafe";

pub const DEC_FROM_STR: &'static str = "roc_builtins.dec.from_str";
pub const DEC_FROM_F64: &'static str = "roc_builtins.dec.from_f64";
pub const DEC_EQ: &'static str = "roc_builtins.dec.eq";
pub const DEC_NEQ: &'static str = "roc_builtins.dec.neq";
pub const DEC_NEGATE: &'static str = "roc_builtins.dec.negate";
pub const DEC_ADD_WITH_OVERFLOW: &'static str = "roc_builtins.dec.add_with_overflow";
pub const DEC_SUB_WITH_OVERFLOW: &'static str = "roc_builtins.dec.sub_with_overflow";
pub const DEC_MUL_WITH_OVERFLOW: &'static str = "roc_builtins.dec.mul_with_overflow";
pub const DEC_DIV: &'static str = "roc_builtins.dec.div";

pub const UTILS_TEST_PANIC: &'static str = "roc_builtins.utils.test_panic";
pub const UTILS_INCREF: &'static str = "roc_builtins.utils.incref";
pub const UTILS_DECREF: &'static str = "roc_builtins.utils.decref";
pub const UTILS_DECREF_CHECK_NULL: &'static str = "roc_builtins.utils.decref_check_null";
pub const UTILS_EXPECT_FAILED: &'static str = "roc_builtins.expect.expect_failed";
pub const UTILS_GET_EXPECT_FAILURES: &'static str = "roc_builtins.expect.get_expect_failures";
pub const UTILS_DEINIT_FAILURES: &'static str = "roc_builtins.expect.deinit_failures";

/// The conversions between integer widths that fail where the argument is
/// above the largest number of the width converted to.
pub fn num_int_to_int_checking_max() -> (tables: IntToIntrinsicName)
    ensures
        tables.is_conversion_tables("roc_builtins.num.int_to_"@, "_checking_max"@),
{
    int_to_int_intrinsic("roc_builtins.num.int_to_", "_checking_max")
}

/// The conversions between integer widths that fail where the argument is
/// above the largest number of the width converted to or below the smallest.
pub fn num_int_to_int_checking_max_and_min() -> (tables: IntToIntrinsicName)
    ensures
        tables.is_conversion_tables("roc_builtins.num.int_to_"@, "_checking_max_and_min"@),
{
    int_to_int_intrinsic("roc_builtins.num.int_to_", "_checking_max_and_min")
}

} // verus!
