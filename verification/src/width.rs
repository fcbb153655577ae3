//! The widths of the numeric types: how many bytes a number of each width
//! takes, how it is aligned on each target, and which identifiers name it.

use crate::symbol::Symbol;
use crate::target::{Architecture, TargetInfo};
use vstd::prelude::*;

verus! {

/// The character that writes the digit `d`.
pub open spec fn digit(d: nat) -> char {
    if d == 0 {
        '0'
    } else if d == 1 {
        '1'
    } else if d == 2 {
        '2'
    } else if d == 3 {
        '3'
    } else if d == 4 {
        '4'
    } else if d == 5 {
        '5'
    } else if d == 6 {
        '6'
    } else if d == 7 {
        '7'
    } else if d == 8 {
        '8'
    } else {
        '9'
    }
}

/// The number `n` written in decimal.
pub open spec fn decimal(n: nat) -> Seq<char>
    decreases n,
{
    if n < 10 {
        seq![digit(n)]
    } else {
        decimal(n / 10).push(digit(n % 10))
    }
}

/// How many bytes a value of `bits` bits is aligned to on `architecture`.
///
/// A value is aligned to its own size, with one exception: on 32-bit x86 a
/// value of 8 bytes is aligned to 4.
pub open spec fn alignment_of(bits: nat, architecture: Architecture) -> nat {
    if bits == 64 && architecture == Architecture::X86_32 {
        4
    } else {
        bits / 8
    }
}

/// The width of the decimal type, which has only one.
#[derive(Clone, Copy, PartialEq, Eq, Structural, Hash, Debug)]
pub enum DecWidth {
    Dec,
}

/// The width of a floating-point type.
#[derive(Clone, Copy, PartialEq, Eq, Structural, Hash, Debug)]
pub enum FloatWidth {
    F32,
    F64,
    F128,
}

impl FloatWidth {
    /// How many bits a number of this width has.
    pub open spec fn bits(self) -> nat {
        match self {
            FloatWidth::F32 => 32,
            FloatWidth::F64 => 64,
            FloatWidth::F128 => 128,
        }
    }

    /// The identifiers that name the type of this width: its short name,
    /// the name that it abbreviates, and its internal name. No identifier
    /// names the type of 128 bits.
    pub open spec fn names(self) -> Set<Symbol> {
        match self {
            FloatWidth::F32 => set![Symbol::NUM_F32, Symbol::NUM_BINARY32, Symbol::NUM_AT_BINARY32],
            FloatWidth::F64 => set![Symbol::NUM_F64, Symbol::NUM_BINARY64, Symbol::NUM_AT_BINARY64],
            FloatWidth::F128 => set![],
        }
    }

    /// The width among whose names `symbol` is, if there is one.
    pub open spec fn named_by(symbol: Symbol) -> Option<FloatWidth> {
        if FloatWidth::F32.names().contains(symbol) {
            Some(FloatWidth::F32)
        } else if FloatWidth::F64.names().contains(symbol) {
            Some(FloatWidth::F64)
        } else if FloatWidth::F128.names().contains(symbol) {
            Some(FloatWidth::F128)
        } else {
            None
        }
    }

    /// How many bytes a number of this width takes in memory.
    pub fn stack_size(&self) -> (size: u32)
        ensures
            size == self.bits() / 8,
            size == 4 || size == 8 || size == 16,
    {
        match self {
            FloatWidth::F32 => 4,
            FloatWidth::F64 => 8,
            FloatWidth::F128 => 16,
        }
    }

    /// How many bytes a number of this width is aligned to on the target.
    pub fn alignment_bytes(&self, target_info: TargetInfo) -> (alignment: u32)
        ensures
            alignment == alignment_of(self.bits(), target_info.architecture),
    {
        match self {
            FloatWidth::F32 => 4,
            FloatWidth::F64 => match target_info.architecture {
                Architecture::X86_64
                | Architecture::Aarch64
                | Architecture::Arm
                | Architecture::Wasm32 => 8,
                Architecture::X86_32 => 4,
            },
            FloatWidth::F128 => 16,
        }
    }

    /// The width of the floating-point type that `symbol` names, under any
    /// of its spellings; `None` where it names no such type.
    pub fn try_from_symbol(symbol: Symbol) -> (width: Option<FloatWidth>)
        ensures
            width == FloatWidth::named_by(symbol),
    {
        match symbol {
            Symbol::NUM_F64 | Symbol::NUM_BINARY64 | Symbol::NUM_AT_BINARY64 => Some(
                FloatWidth::F64,
            ),
            Symbol::NUM_F32 | Symbol::NUM_BINARY32 | Symbol::NUM_AT_BINARY32 => Some(
                FloatWidth::F32,
            ),
            _ => None,
        }
    }
}

/// An identifier names a float width exactly where it is one of that
/// width's names. So all spellings of one type name the same width, and no
/// identifier names two widths.
pub proof fn lemma_float_width_named_by(width: FloatWidth, symbol: Symbol)
    ensures
        FloatWidth::named_by(symbol) == Some(width) <==> width.names().contains(symbol),
{
}

/// Two identifiers that are both names of one float width name the same
/// width: that one.
pub proof fn lemma_float_spellings_agree(width: FloatWidth, symbol1: Symbol, symbol2: Symbol)
    requires
        width.names().contains(symbol1),
        width.names().contains(symbol2),
    ensures
        FloatWidth::named_by(symbol1) == Some(width),
        FloatWidth::named_by(symbol2) == FloatWidth::named_by(symbol1),
{
}

/// The width of an integer type, and whether it has a sign.
#[derive(Clone, Copy, PartialEq, Eq, Structural, Hash, Debug)]
pub enum IntWidth {
    U8,
    U16,
    U32,
    U64,
    U128,
    I8,
    I16,
    I32,
    I64,
    I128,
}

impl IntWidth {
    /// How many bits a number of this width has.
    pub open spec fn bits(self) -> nat {
        match self {
            IntWidth::U8 | IntWidth::I8 => 8,
            IntWidth::U16 | IntWidth::I16 => 16,
            IntWidth::U32 | IntWidth::I32 => 32,
            IntWidth::U64 | IntWidth::I64 => 64,
            IntWidth::U128 | IntWidth::I128 => 128,
        }
    }

    /// Whether a number of this width has a sign.
    pub open spec fn signed(self) -> bool {
        match self {
            IntWidth::I8 | IntWidth::I16 | IntWidth::I32 | IntWidth::I64 | IntWidth::I128 => true,
            IntWidth::U8 | IntWidth::U16 | IntWidth::U32 | IntWidth::U64 | IntWidth::U128 => false,
        }
    }

    /// The place of this width in the order of the widths: the unsigned ones
    /// from the narrowest to the widest, then the signed ones likewise.
    pub open spec fn ordinal(self) -> int {
        match self {
            IntWidth::U8 => 0,
            IntWidth::U16 => 1,
            IntWidth::U32 => 2,
            IntWidth::U64 => 3,
            IntWidth::U128 => 4,
            IntWidth::I8 => 5,
            IntWidth::I16 => 6,
            IntWidth::I32 => 7,
            IntWidth::I64 => 8,
            IntWidth::I128 => 9,
        }
    }

    /// The name of the machine type of this width: `u` or `i`, then the
    /// number of bits.
    pub open spec fn type_name_chars(self) -> Seq<char> {
        seq![if self.signed() { 'i' } else { 'u' }] + decimal(self.bits())
    }

    /// The identifiers that name the type of this width: its short name,
    /// the name that it abbreviates, and its internal name.
    pub open spec fn names(self) -> Set<Symbol> {
        match self {
            IntWidth::U8 => set![Symbol::NUM_U8, Symbol::NUM_UNSIGNED8, Symbol::NUM_AT_UNSIGNED8],
            IntWidth::U16 => set![
                Symbol::NUM_U16,
                Symbol::NUM_UNSIGNED16,
                Symbol::NUM_AT_UNSIGNED16,
            ],
            IntWidth::U32 => set![
                Symbol::NUM_U32,
                Symbol::NUM_UNSIGNED32,
                Symbol::NUM_AT_UNSIGNED32,
            ],
            IntWidth::U64 => set![
                Symbol::NUM_U64,
                Symbol::NUM_UNSIGNED64,
                Symbol::NUM_AT_UNSIGNED64,
            ],
            IntWidth::U128 => set![
                Symbol::NUM_U128,
                Symbol::NUM_UNSIGNED128,
                Symbol::NUM_AT_UNSIGNED128,
            ],
            IntWidth::I8 => set![Symbol::NUM_I8, Symbol::NUM_SIGNED8, Symbol::NUM_AT_SIGNED8],
            IntWidth::I16 => set![Symbol::NUM_I16, Symbol::NUM_SIGNED16, Symbol::NUM_AT_SIGNED16],
            IntWidth::I32 => set![Symbol::NUM_I32, Symbol::NUM_SIGNED32, Symbol::NUM_AT_SIGNED32],
            IntWidth::I64 => set![Symbol::NUM_I64, Symbol::NUM_SIGNED64, Symbol::NUM_AT_SIGNED64],
            IntWidth::I128 => set![
                Symbol::NUM_I128,
                Symbol::NUM_SIGNED128,
                Symbol::NUM_AT_SIGNED128,
            ],
        }
    }

    /// The width among whose names `symbol` is, if there is one.
    pub open spec fn named_by(symbol: Symbol) -> Option<IntWidth> {
        if IntWidth::U8.names().contains(symbol) {
            Some(IntWidth::U8)
        } else if IntWidth::U16.names().contains(symbol) {
            Some(IntWidth::U16)
        } else if IntWidth::U32.names().contains(symbol) {
            Some(IntWidth::U32)
        } else if IntWidth::U64.names().contains(symbol) {
            Some(IntWidth::U64)
        } else if IntWidth::U128.names().contains(symbol) {
            Some(IntWidth::U128)
        } else if IntWidth::I8.names().contains(symbol) {
            Some(IntWidth::I8)
        } else if IntWidth::I16.names().contains(symbol) {
            Some(IntWidth::I16)
        } else if IntWidth::I32.names().contains(symbol) {
            Some(IntWidth::I32)
        } else if IntWidth::I64.names().contains(symbol) {
            Some(IntWidth::I64)
        } else if IntWidth::I128.names().contains(symbol) {
            Some(IntWidth::I128)
        } else {
            None
        }
    }

    /// Whether a number of this width has a sign.
    pub fn is_signed(&self) -> (signed: bool)
        ensures
            signed == self.signed(),
    {
        matches!(
            self,
            IntWidth::I8 | IntWidth::I16 | IntWidth::I32 | IntWidth::I64 | IntWidth::I128
        )
    }

    /// How many bytes a number of this width takes in memory.
    pub fn stack_size(&self) -> (size: u32)
        ensures
            size == self.bits() / 8,
            size == 1 || size == 2 || size == 4 || size == 8 || size == 16,
    {
        match self {
            IntWidth::U8 | IntWidth::I8 => 1,
            IntWidth::U16 | IntWidth::I16 => 2,
            IntWidth::U32 | IntWidth::I32 => 4,
            IntWidth::U64 | IntWidth::I64 => 8,
            IntWidth::U128 | IntWidth::I128 => 16,
        }
    }

    /// How many bytes a number of this width is aligned to on the target.
    pub fn alignment_bytes(&self, target_info: TargetInfo) -> (alignment: u32)
        ensures
            alignment == alignment_of(self.bits(), target_info.architecture),
    {
        match self {
            IntWidth::U8 | IntWidth::I8 => 1,
            IntWidth::U16 | IntWidth::I16 => 2,
            IntWidth::U32 | IntWidth::I32 => 4,
            IntWidth::U64 | IntWidth::I64 => match target_info.architecture {
                Architecture::X86_64
                | Architecture::Aarch64
                | Architecture::Arm
                | Architecture::Wasm32 => 8,
                Architecture::X86_32 => 4,
            },
            IntWidth::U128 | IntWidth::I128 => 16,
        }
    }

    /// The width of the integer type that `symbol` names, under any of its
    /// spellings; `None` where it names no such type.
    pub fn try_from_symbol(symbol: Symbol) -> (width: Option<IntWidth>)
        ensures
            width == IntWidth::named_by(symbol),
    {
        match symbol {
            Symbol::NUM_I128 | Symbol::NUM_SIGNED128 | Symbol::NUM_AT_SIGNED128 => Some(
                IntWidth::I128,
            ),
            Symbol::NUM_I64 | Symbol::NUM_SIGNED64 | Symbol::NUM_AT_SIGNED64 => Some(IntWidth::I64),
            Symbol::NUM_I32 | Symbol::NUM_SIGNED32 | Symbol::NUM_AT_SIGNED32 => Some(IntWidth::I32),
            Symbol::NUM_I16 | Symbol::NUM_SIGNED16 | Symbol::NUM_AT_SIGNED16 => Some(IntWidth::I16),
            Symbol::NUM_I8 | Symbol::NUM_SIGNED8 | Symbol::NUM_AT_SIGNED8 => Some(IntWidth::I8),
            Symbol::NUM_U128 | Symbol::NUM_UNSIGNED128 | Symbol::NUM_AT_UNSIGNED128 => Some(
                IntWidth::U128,
            ),
            Symbol::NUM_U64 | Symbol::NUM_UNSIGNED64 | Symbol::NUM_AT_UNSIGNED64 => Some(
                IntWidth::U64,
            ),
            Symbol::NUM_U32 | Symbol::NUM_UNSIGNED32 | Symbol::NUM_AT_UNSIGNED32 => Some(
                IntWidth::U32,
            ),
            Symbol::NUM_U16 | Symbol::NUM_UNSIGNED16 | Symbol::NUM_AT_UNSIGNED16 => Some(
                IntWidth::U16,
            ),
            Symbol::NUM_U8 | Symbol::NUM_UNSIGNED8 | Symbol::NUM_AT_UNSIGNED8 => Some(IntWidth::U8),
            _ => None,
        }
    }

    /// The name of the machine type of this width, such as `u8` or `i128`.
    pub fn type_name_str(&self) -> (name: &'static str)
        ensures
            name@ == self.type_name_chars(),
    {
        proof {
            reveal_with_fuel(decimal, 3);
        }
        match self {
            IntWidth::I8 => {
                proof {
                    reveal_strlit("i8");
                }
                assert("i8"@ =~= self.type_name_chars());
                "i8"
            },
            IntWidth::I16 => {
                proof {
                    reveal_strlit("i16");
                }
                assert("i16"@ =~= self.type_name_chars());
                "i16"
            },
            IntWidth::I32 => {
                proof {
                    reveal_strlit("i32");
                }
                assert("i32"@ =~= self.type_name_chars());
                "i32"
            },
            IntWidth::I64 => {
                proof {
                    reveal_strlit("i64");
                }
                assert("i64"@ =~= self.type_name_chars());
                "i64"
            },
            IntWidth::I128 => {
                proof {
                    reveal_strlit("i128");
                }
                assert("i128"@ =~= self.type_name_chars());
                "i128"
            },
            IntWidth::U8 => {
                proof {
                    reveal_strlit("u8");
                }
                assert("u8"@ =~= self.type_name_chars());
                "u8"
            },
            IntWidth::U16 => {
                proof {
                    reveal_strlit("u16");
                }
                assert("u16"@ =~= self.type_name_chars());
                "u16"
            },
            IntWidth::U32 => {
                proof {
                    reveal_strlit("u32");
                }
                assert("u32"@ =~= self.type_name_chars());
                "u32"
            },
            IntWidth::U64 => {
                proof {
                    reveal_strlit("u64");
                }
                assert("u64"@ =~= self.type_name_chars());
                "u64"
            },
            IntWidth::U128 => {
                proof {
                    reveal_strlit("u128");
                }
                assert("u128"@ =~= self.type_name_chars());
                "u128"
            },
        }
    }
}

/// An identifier names an integer width exactly where it is one of that
/// width's names. So all spellings of one type name the same width, and no
/// identifier names two widths.
pub proof fn lemma_int_width_named_by(width: IntWidth, symbol: Symbol)
    ensures
        IntWidth::named_by(symbol) == Some(width) <==> width.names().contains(symbol),
{
}

/// Two identifiers that are both names of one integer width name the same
/// width: that one.
pub proof fn lemma_int_spellings_agree(width: IntWidth, symbol1: Symbol, symbol2: Symbol)
    requires
        width.names().contains(symbol1),
        width.names().contains(symbol2),
    ensures
        IntWidth::named_by(symbol1) == Some(width),
        IntWidth::named_by(symbol2) == IntWidth::named_by(symbol1),
{
}

/// No identifier names both a float width and an integer width.
pub proof fn lemma_float_or_int(symbol: Symbol)
    ensures
        FloatWidth::named_by(symbol) is None || IntWidth::named_by(symbol) is None,
{
}

} // verus!
