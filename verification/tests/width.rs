use roc_builtins::symbol::Symbol;
use roc_builtins::target::{Architecture, TargetInfo};
use roc_builtins::width::{DecWidth, FloatWidth, IntWidth};

const INT_WIDTHS: [IntWidth; 10] = [
    IntWidth::U8,
    IntWidth::U16,
    IntWidth::U32,
    IntWidth::U64,
    IntWidth::U128,
    IntWidth::I8,
    IntWidth::I16,
    IntWidth::I32,
    IntWidth::I64,
    IntWidth::I128,
];

const FLOAT_WIDTHS: [FloatWidth; 3] = [FloatWidth::F32, FloatWidth::F64, FloatWidth::F128];

const ARCHITECTURES: [Architecture; 5] = [
    Architecture::X86_64,
    Architecture::X86_32,
    Architecture::Aarch64,
    Architecture::Arm,
    Architecture::Wasm32,
];

fn target(architecture: Architecture) -> TargetInfo {
    TargetInfo { architecture }
}

#[test]
fn int_stack_size_is_bit_count_over_eight() {
    let sizes: Vec<u32> = INT_WIDTHS.iter().map(|width| width.stack_size()).collect();
    assert_eq!(sizes, vec![1, 2, 4, 8, 16, 1, 2, 4, 8, 16]);
}

#[test]
fn int_stack_size_matches_the_number_in_the_type_name() {
    for width in INT_WIDTHS {
        let bits: u32 = width.type_name_str()[1..].parse().unwrap();
        assert_eq!(width.stack_size() * 8, bits);
    }
}

#[test]
fn float_stack_size() {
    assert_eq!(FloatWidth::F32.stack_size(), 4);
    assert_eq!(FloatWidth::F64.stack_size(), 8);
    assert_eq!(FloatWidth::F128.stack_size(), 16);
}

#[test]
fn eight_byte_ints_are_aligned_to_four_on_x86_32_only() {
    for width in [IntWidth::U64, IntWidth::I64] {
        assert_eq!(width.alignment_bytes(target(Architecture::X86_64)), 8);
        assert_eq!(width.alignment_bytes(target(Architecture::Aarch64)), 8);
        assert_eq!(width.alignment_bytes(target(Architecture::Arm)), 8);
        assert_eq!(width.alignment_bytes(target(Architecture::Wasm32)), 8);
        assert_eq!(width.alignment_bytes(target(Architecture::X86_32)), 4);
    }
}

#[test]
fn eight_byte_float_is_aligned_to_four_on_x86_32_only() {
    assert_eq!(FloatWidth::F64.alignment_bytes(target(Architecture::X86_64)), 8);
    assert_eq!(FloatWidth::F64.alignment_bytes(target(Architecture::Aarch64)), 8);
    assert_eq!(FloatWidth::F64.alignment_bytes(target(Architecture::Arm)), 8);
    assert_eq!(FloatWidth::F64.alignment_bytes(target(Architecture::Wasm32)), 8);
    assert_eq!(FloatWidth::F64.alignment_bytes(target(Architecture::X86_32)), 4);
}

#[test]
fn other_ints_are_aligned_to_their_size_everywhere() {
    for architecture in ARCHITECTURES {
        for width in INT_WIDTHS {
            if width.stack_size() != 8 {
                assert_eq!(width.alignment_bytes(target(architecture)), width.stack_size());
            }
        }
        assert_eq!(IntWidth::U8.alignment_bytes(target(architecture)), 1);
        assert_eq!(IntWidth::I16.alignment_bytes(target(architecture)), 2);
        assert_eq!(IntWidth::U32.alignment_bytes(target(architecture)), 4);
        assert_eq!(IntWidth::I128.alignment_bytes(target(architecture)), 16);
    }
}

#[test]
fn other_floats_are_aligned_to_their_size_everywhere() {
    for architecture in ARCHITECTURES {
        assert_eq!(FloatWidth::F32.alignment_bytes(target(architecture)), 4);
        assert_eq!(FloatWidth::F128.alignment_bytes(target(architecture)), 16);
    }
}

#[test]
fn alignment_on_x86_32_is_not_always_the_size() {
    let x86_32 = target(Architecture::X86_32);
    assert_ne!(IntWidth::I64.alignment_bytes(x86_32), IntWidth::I64.stack_size());
    assert_ne!(FloatWidth::F64.alignment_bytes(x86_32), FloatWidth::F64.stack_size());
}

#[test]
fn signed_widths() {
    let signed: Vec<bool> = INT_WIDTHS.iter().map(|width| width.is_signed()).collect();
    assert_eq!(signed, vec![false, false, false, false, false, true, true, true, true, true]);
}

#[test]
fn type_names() {
    let names: Vec<&str> = INT_WIDTHS.iter().map(|width| width.type_name_str()).collect();
    assert_eq!(names, vec!["u8", "u16", "u32", "u64", "u128", "i8", "i16", "i32", "i64", "i128"]);
}

#[test]
fn every_spelling_of_the_64_bit_float_names_it() {
    assert_eq!(FloatWidth::try_from_symbol(Symbol::NUM_F64), Some(FloatWidth::F64));
    assert_eq!(FloatWidth::try_from_symbol(Symbol::NUM_BINARY64), Some(FloatWidth::F64));
    assert_eq!(FloatWidth::try_from_symbol(Symbol::NUM_AT_BINARY64), Some(FloatWidth::F64));
}

#[test]
fn every_spelling_of_the_32_bit_float_names_it() {
    assert_eq!(FloatWidth::try_from_symbol(Symbol::NUM_F32), Some(FloatWidth::F32));
    assert_eq!(FloatWidth::try_from_symbol(Symbol::NUM_BINARY32), Some(FloatWidth::F32));
    assert_eq!(FloatWidth::try_from_symbol(Symbol::NUM_AT_BINARY32), Some(FloatWidth::F32));
}

#[test]
fn no_symbol_names_the_128_bit_float() {
    let symbols = [
        Symbol::NUM_F32,
        Symbol::NUM_F64,
        Symbol::NUM_I128,
        Symbol::NUM_U128,
        Symbol::NUM_SIGNED128,
        Symbol::NUM_AT_UNSIGNED128,
    ];
    for symbol in symbols {
        assert_ne!(FloatWidth::try_from_symbol(symbol), Some(FloatWidth::F128));
    }
}

#[test]
fn float_width_of_other_symbols_is_none() {
    assert_eq!(FloatWidth::try_from_symbol(Symbol::NUM_I64), None);
    assert_eq!(FloatWidth::try_from_symbol(Symbol::NUM_LT), None);
    assert_eq!(FloatWidth::try_from_symbol(Symbol::LIST_GET), None);
}

#[test]
fn every_spelling_of_an_int_names_it() {
    let spellings = [
        (IntWidth::U8, [Symbol::NUM_U8, Symbol::NUM_UNSIGNED8, Symbol::NUM_AT_UNSIGNED8]),
        (IntWidth::U16, [Symbol::NUM_U16, Symbol::NUM_UNSIGNED16, Symbol::NUM_AT_UNSIGNED16]),
        (IntWidth::U32, [Symbol::NUM_U32, Symbol::NUM_UNSIGNED32, Symbol::NUM_AT_UNSIGNED32]),
        (IntWidth::U64, [Symbol::NUM_U64, Symbol::NUM_UNSIGNED64, Symbol::NUM_AT_UNSIGNED64]),
        (IntWidth::U128, [Symbol::NUM_U128, Symbol::NUM_UNSIGNED128, Symbol::NUM_AT_UNSIGNED128]),
        (IntWidth::I8, [Symbol::NUM_I8, Symbol::NUM_SIGNED8, Symbol::NUM_AT_SIGNED8]),
        (IntWidth::I16, [Symbol::NUM_I16, Symbol::NUM_SIGNED16, Symbol::NUM_AT_SIGNED16]),
        (IntWidth::I32, [Symbol::NUM_I32, Symbol::NUM_SIGNED32, Symbol::NUM_AT_SIGNED32]),
        (IntWidth::I64, [Symbol::NUM_I64, Symbol::NUM_SIGNED64, Symbol::NUM_AT_SIGNED64]),
        (IntWidth::I128, [Symbol::NUM_I128, Symbol::NUM_SIGNED128, Symbol::NUM_AT_SIGNED128]),
    ];
    for (width, symbols) in spellings {
        for symbol in symbols {
            assert_eq!(IntWidth::try_from_symbol(symbol), Some(width));
        }
    }
}

#[test]
fn int_width_of_other_symbols_is_none() {
    assert_eq!(IntWidth::try_from_symbol(Symbol::NUM_F64), None);
    assert_eq!(IntWidth::try_from_symbol(Symbol::NUM_AT_BINARY32), None);
    assert_eq!(IntWidth::try_from_symbol(Symbol::INT_DIV), None);
    assert_eq!(IntWidth::try_from_symbol(Symbol::LIST_FIRST_ARG), None);
}

#[test]
fn the_decimal_type_has_one_width() {
    assert_eq!(DecWidth::Dec, DecWidth::Dec);
    assert_eq!(FLOAT_WIDTHS.len(), 3);
}
