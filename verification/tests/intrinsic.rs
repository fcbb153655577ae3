use roc_builtins::bitcode;
use roc_builtins::intrinsic::{
    float_intrinsic, int_intrinsic, int_to_int_intrinsic, llvm_int_intrinsic, IntToIntrinsicName,
    IntrinsicName,
};
use roc_builtins::width::{DecWidth, FloatWidth, IntWidth};
use std::collections::HashSet;

const INT_WIDTHS: [IntWidth; 10] = [
    IntWidth::U8,
    IntWidth::U16,
    IntWidth::U32,
    IntWidth::U64,
    IntWidth::U128,
    IntWidth::I8,
    IntWidth::I16,
    IntWidth::I32,
    IntWidth::I64,
    IntWidth::I128,
];

const FLOAT_WIDTHS: [FloatWidth; 3] = [FloatWidth::F32, FloatWidth::F64, FloatWidth::F128];

fn populated(table: &IntrinsicName) -> Vec<String> {
    table.options.iter().filter(|name| !name.is_empty()).cloned().collect()
}

#[test]
fn default_table_is_empty() {
    let table = IntrinsicName::default();
    assert_eq!(table.options.len(), 14);
    assert!(table.options.iter().all(|name| name.is_empty()));
    assert_eq!(&table[DecWidth::Dec], "");
    assert_eq!(&table[FloatWidth::F64], "");
    assert_eq!(&table[IntWidth::I32], "");
}

#[test]
fn default_conversion_tables_are_empty() {
    let tables = IntToIntrinsicName::default();
    assert_eq!(tables.options.len(), 10);
    for target in INT_WIDTHS {
        assert_eq!(tables[target], IntrinsicName::default());
    }
}

#[test]
fn default_of_the_trait_is_the_default_table() {
    let table: IntrinsicName = Default::default();
    assert_eq!(table, IntrinsicName::default());
    let tables: IntToIntrinsicName = Default::default();
    assert_eq!(tables, IntToIntrinsicName::default());
}

#[test]
fn float_table_names() {
    let table = float_intrinsic("roc_builtins.num.asin");
    assert_eq!(&table[FloatWidth::F32], "roc_builtins.num.asin.f32");
    assert_eq!(&table[FloatWidth::F64], "roc_builtins.num.asin.f64");
    assert_eq!(&table[FloatWidth::F128], "roc_builtins.num.asin.f128");
}

#[test]
fn float_table_has_no_other_name() {
    let table = float_intrinsic("roc_builtins.num.asin");
    assert_eq!(&table[DecWidth::Dec], "");
    for width in INT_WIDTHS {
        assert_eq!(&table[width], "");
    }
    assert_eq!(populated(&table).len(), 3);
}

#[test]
fn float_table_slots() {
    let table = float_intrinsic("op");
    assert_eq!(table.options[1], "op.f32");
    assert_eq!(table.options[2], "op.f64");
    assert_eq!(table.options[3], "op.f128");
}

#[test]
fn int_table_names() {
    let table = int_intrinsic("roc_builtins.num.pow_int");
    let names: Vec<&str> = INT_WIDTHS.iter().map(|width| &table[*width]).collect();
    assert_eq!(
        names,
        vec![
            "roc_builtins.num.pow_int.u8",
            "roc_builtins.num.pow_int.u16",
            "roc_builtins.num.pow_int.u32",
            "roc_builtins.num.pow_int.u64",
            "roc_builtins.num.pow_int.u128",
            "roc_builtins.num.pow_int.i8",
            "roc_builtins.num.pow_int.i16",
            "roc_builtins.num.pow_int.i32",
            "roc_builtins.num.pow_int.i64",
            "roc_builtins.num.pow_int.i128",
        ]
    );
}

#[test]
fn int_table_has_no_other_name() {
    let table = int_intrinsic("roc_builtins.num.pow_int");
    assert_eq!(&table[DecWidth::Dec], "");
    for width in FLOAT_WIDTHS {
        assert_eq!(&table[width], "");
    }
    assert_eq!(populated(&table).len(), 10);
}

#[test]
fn int_table_slots_are_unsigned_then_signed() {
    let table = int_intrinsic("op");
    let slots: Vec<&str> = table.options[4..].iter().map(|name| name.as_str()).collect();
    assert_eq!(
        slots,
        vec![
            "op.u8", "op.u16", "op.u32", "op.u64", "op.u128", "op.i8", "op.i16", "op.i32",
            "op.i64", "op.i128",
        ]
    );
}

#[test]
fn llvm_table_keeps_the_two_names_apart() {
    let table = llvm_int_intrinsic("llvm.sadd", "llvm.uadd");
    assert_eq!(&table[IntWidth::U8], "llvm.uadd.i8");
    assert_eq!(&table[IntWidth::U16], "llvm.uadd.i16");
    assert_eq!(&table[IntWidth::U32], "llvm.uadd.i32");
    assert_eq!(&table[IntWidth::U64], "llvm.uadd.i64");
    assert_eq!(&table[IntWidth::U128], "llvm.uadd.i128");
    assert_eq!(&table[IntWidth::I8], "llvm.sadd.i8");
    assert_eq!(&table[IntWidth::I16], "llvm.sadd.i16");
    assert_eq!(&table[IntWidth::I32], "llvm.sadd.i32");
    assert_eq!(&table[IntWidth::I64], "llvm.sadd.i64");
    assert_eq!(&table[IntWidth::I128], "llvm.sadd.i128");
    assert_eq!(&table[FloatWidth::F32], "");
    assert_eq!(&table[DecWidth::Dec], "");
}

#[test]
fn llvm_table_with_one_name_shares_it_between_signed_and_unsigned() {
    let table = llvm_int_intrinsic("llvm.ctpop", "llvm.ctpop");
    assert_eq!(&table[IntWidth::U32], &table[IntWidth::I32]);
    assert_ne!(&table[IntWidth::U32], &table[IntWidth::U64]);
}

#[test]
fn conversion_table_names() {
    let tables = int_to_int_intrinsic("roc_builtins.num.int_to_", "_checking_max");
    assert_eq!(&tables[IntWidth::U8][IntWidth::I64], "roc_builtins.num.int_to_u8_checking_max.i64");
    assert_eq!(
        &tables[IntWidth::I128][IntWidth::U16],
        "roc_builtins.num.int_to_i128_checking_max.u16"
    );
    assert_eq!(
        &tables[IntWidth::I32][IntWidth::I32],
        "roc_builtins.num.int_to_i32_checking_max.i32"
    );
}

#[test]
fn conversion_tables_are_int_tables_named_by_target() {
    let tables = int_to_int_intrinsic("pre_", "_post");
    for target in INT_WIDTHS {
        let name = format!("pre_{}_post", target.type_name_str());
        assert_eq!(tables[target], int_intrinsic(&name));
    }
}

#[test]
fn conversion_tables_from_the_catalog() {
    let max = bitcode::num_int_to_int_checking_max();
    let max_and_min = bitcode::num_int_to_int_checking_max_and_min();
    assert_eq!(
        &max[IntWidth::U64][IntWidth::U128],
        "roc_builtins.num.int_to_u64_checking_max.u128"
    );
    assert_eq!(
        &max_and_min[IntWidth::I8][IntWidth::I16],
        "roc_builtins.num.int_to_i8_checking_max_and_min.i16"
    );
}

#[test]
fn tables_from_the_catalog() {
    assert_eq!(bitcode::num_asin(), float_intrinsic("roc_builtins.num.asin"));
    assert_eq!(bitcode::num_acos(), float_intrinsic("roc_builtins.num.acos"));
    assert_eq!(bitcode::num_atan(), float_intrinsic("roc_builtins.num.atan"));
    assert_eq!(bitcode::num_is_finite(), float_intrinsic("roc_builtins.num.is_finite"));
    assert_eq!(bitcode::num_round(), float_intrinsic("roc_builtins.num.round"));
    assert_eq!(bitcode::str_to_float(), float_intrinsic("roc_builtins.str.to_float"));
    assert_eq!(bitcode::num_pow_int(), int_intrinsic("roc_builtins.num.pow_int"));
    assert_eq!(bitcode::num_div_ceil(), int_intrinsic("roc_builtins.num.div_ceil"));
    assert_eq!(bitcode::str_from_int(), int_intrinsic("roc_builtins.str.from_int"));
    assert_eq!(bitcode::str_to_int(), int_intrinsic("roc_builtins.str.to_int"));
}

#[test]
fn plain_names_from_the_catalog() {
    assert_eq!(bitcode::NUM_BYTES_TO_U16, "roc_builtins.num.bytes_to_u16");
    assert_eq!(bitcode::STR_JOIN_WITH, "roc_builtins.str.joinWith");
    assert_eq!(bitcode::DICT_ELEMENTS_RC, "roc_builtins.dict.elementsRc");
    assert_eq!(bitcode::SET_FROM_LIST, "roc_builtins.dict.set_from_list");
    assert_eq!(bitcode::LIST_WALK_UNTIL, "roc_builtins.list.walkUntil");
    assert_eq!(bitcode::DEC_DIV, "roc_builtins.dec.div");
    assert_eq!(bitcode::UTILS_EXPECT_FAILED, "roc_builtins.expect.expect_failed");
}

#[test]
fn every_name_starts_with_its_operation_and_ends_with_its_width() {
    let operation = "roc_builtins.str.to_int";
    let table = bitcode::str_to_int();
    for width in INT_WIDTHS {
        let name = &table[width];
        assert!(name.starts_with(operation));
        assert!(name.ends_with(&format!(".{}", width.type_name_str())));
        assert_eq!(name.len(), operation.len() + 1 + width.type_name_str().len());
    }
    let operation = "roc_builtins.num.round";
    let table = bitcode::num_round();
    let suffixes = [".f32", ".f64", ".f128"];
    for (width, suffix) in FLOAT_WIDTHS.iter().zip(suffixes) {
        assert_eq!(table[*width], format!("{}{}", operation, suffix));
    }
}

#[test]
fn no_two_names_of_the_catalog_collide() {
    let tables = vec![
        bitcode::num_asin(),
        bitcode::num_acos(),
        bitcode::num_atan(),
        bitcode::num_is_finite(),
        bitcode::num_pow_int(),
        bitcode::num_div_ceil(),
        bitcode::num_round(),
        bitcode::str_from_int(),
        bitcode::str_to_int(),
        bitcode::str_to_float(),
    ];
    let mut names: Vec<String> = Vec::new();
    for table in &tables {
        names.extend(populated(table));
    }
    for tables in [
        bitcode::num_int_to_int_checking_max(),
        bitcode::num_int_to_int_checking_max_and_min(),
    ] {
        for target in INT_WIDTHS {
            names.extend(populated(&tables[target]));
        }
    }
    assert_eq!(names.len(), 6 * 3 + 4 * 10 + 2 * 100);
    let distinct: HashSet<&String> = names.iter().collect();
    assert_eq!(distinct.len(), names.len());
}
