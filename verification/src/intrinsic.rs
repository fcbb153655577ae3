//! Tables of the names of the low-level intrinsics that implement one
//! operation at each width.

use crate::width::{decimal, DecWidth, FloatWidth, IntWidth};
use vstd::prelude::*;
use vstd::string::StringExecFns;

verus! {

/// The names of the intrinsics that implement one operation, one for each
/// width that the operation has.
///
/// Slot 0 is for the decimal width, slots 1 to 3 for the float widths from
/// the narrowest, slots 4 to 13 for the integer widths in their order. A
/// slot holds the empty string where the operation has no intrinsic at that
/// width.
#[derive(Clone, PartialEq, Eq, Debug)]
pub struct IntrinsicName {
    pub options: [String; 14],
}

impl DecWidth {
    /// The slot of this width in a table of intrinsic names.
    pub open spec fn slot(self) -> int {
        0
    }
}

impl FloatWidth {
    /// The slot of this width in a table of intrinsic names.
    pub open spec fn slot(self) -> int {
        match self {
            FloatWidth::F32 => 1,
            FloatWidth::F64 => 2,
            FloatWidth::F128 => 3,
        }
    }

    /// What an intrinsic's name ends in at this width: `.f`, then the number
    /// of bits.
    pub open spec fn suffix(self) -> Seq<char> {
        seq!['.', 'f'] + decimal(self.bits())
    }
}

impl IntWidth {
    /// The slot of this width in a table of intrinsic names.
    pub open spec fn slot(self) -> int {
        4 + self.ordinal()
    }

    /// What an intrinsic's name ends in at this width: a dot, then the name
    /// of the machine type.
    pub open spec fn suffix(self) -> Seq<char> {
        seq!['.'] + self.type_name_chars()
    }

    /// What the name of one of LLVM's intrinsics ends in at this width: `.i`,
    /// then the number of bits. LLVM has one integer type of each size, for
    /// numbers with a sign and without.
    pub open spec fn size_suffix(self) -> Seq<char> {
        seq!['.', 'i'] + decimal(self.bits())
    }
}

/// Every width has a slot of its own among the 14 of a table.
pub proof fn lemma_slots_distinct()
    ensures
        forall|width: FloatWidth| 0 < #[trigger] width.slot() < 4,
        forall|width: IntWidth| 4 <= #[trigger] width.slot() < 14,
        forall|width1: FloatWidth, width2: FloatWidth|
            #[trigger] width1.slot() == #[trigger] width2.slot() ==> width1 == width2,
        forall|width1: IntWidth, width2: IntWidth|
            #[trigger] width1.slot() == #[trigger] width2.slot() ==> width1 == width2,
{
}

impl IntrinsicName {
    /// The name in the slot `slot`.
    pub open spec fn at(self, slot: int) -> Seq<char> {
        self.options@[slot]@
    }

    /// The name of the intrinsic at the decimal width.
    pub open spec fn dec_name(self) -> Seq<char> {
        self.at(DecWidth::Dec.slot())
    }

    /// The name of the intrinsic at a float width.
    pub open spec fn float_name(self, width: FloatWidth) -> Seq<char> {
        self.at(width.slot())
    }

    /// The name of the intrinsic at an integer width.
    pub open spec fn int_name(self, width: IntWidth) -> Seq<char> {
        self.at(width.slot())
    }

    /// Whether the table has no intrinsic at the decimal width.
    pub open spec fn has_no_dec(self) -> bool {
        self.dec_name().len() == 0
    }

    /// Whether the table has no intrinsic at any float width.
    pub open spec fn has_no_float(self) -> bool {
        forall|width: FloatWidth| (#[trigger] self.float_name(width)).len() == 0
    }

    /// Whether the table has no intrinsic at any integer width.
    pub open spec fn has_no_int(self) -> bool {
        forall|width: IntWidth| (#[trigger] self.int_name(width)).len() == 0
    }

    /// Whether this is the table of the operation named `name` that has an
    /// intrinsic at each float width and at no other: `name` qualified by
    /// the width.
    pub open spec fn is_float_table(self, name: Seq<char>) -> bool {
        &&& forall|width: FloatWidth| #[trigger] self.float_name(width) == name + width.suffix()
        &&& self.has_no_dec()
        &&& self.has_no_int()
    }

    /// Whether this is the table of the operation named `name` that has an
    /// intrinsic at each integer width and at no other: `name` qualified by
    /// the width.
    pub open spec fn is_int_table(self, name: Seq<char>) -> bool {
        &&& forall|width: IntWidth| #[trigger] self.int_name(width) == name + width.suffix()
        &&& self.has_no_dec()
        &&& self.has_no_float()
    }

    /// Whether this is the table of an operation that has an intrinsic at
    /// each integer width and at no other, named `signed_name` at the widths
    /// with a sign and `unsigned_name` at those without, and qualified by
    /// the size of the width alone.
    pub open spec fn is_llvm_int_table(
        self,
        signed_name: Seq<char>,
        unsigned_name: Seq<char>,
    ) -> bool {
        &&& forall|width: IntWidth| #[trigger]
            self.int_name(width) == (if width.signed() {
                signed_name
            } else {
                unsigned_name
            }) + width.size_suffix()
        &&& self.has_no_dec()
        &&& self.has_no_float()
    }

    /// The table of an operation that has no intrinsic at any width.
    pub fn default() -> (table: IntrinsicName)
        ensures
            table.has_no_dec(),
            table.has_no_float(),
            table.has_no_int(),
    {
        IntrinsicName {
            options: [
                String::new(),
                String::new(),
                String::new(),
                String::new(),
                String::new(),
                String::new(),
                String::new(),
                String::new(),
                String::new(),
                String::new(),
                String::new(),
                String::new(),
                String::new(),
                String::new(),
            ],
        }
    }
}

impl Default for IntrinsicName {
    /// The table of an operation that has no intrinsic at any width.
    fn default() -> (table: IntrinsicName)
        ensures
            table.has_no_dec(),
            table.has_no_float(),
            table.has_no_int(),
    {
        IntrinsicName::default()
    }
}

impl std::ops::Index<DecWidth> for IntrinsicName {
    type Output = str;

    /// The name of the intrinsic at the decimal width; the empty string
    /// where the operation has none.
    fn index(&self, index: DecWidth) -> (name: &str)
        ensures
            name@ == self.dec_name(),
    {
        self.options[0].as_str()
    }
}

impl vstd::std_specs::core::IndexSpecImpl<DecWidth> for IntrinsicName {
    open spec fn index_req(&self, index: &DecWidth) -> bool {
        true
    }
}

impl std::ops::Index<FloatWidth> for IntrinsicName {
    type Output = str;

    /// The name of the intrinsic at a float width; the empty string where
    /// the operation has none.
    fn index(&self, index: FloatWidth) -> (name: &str)
        ensures
            name@ == self.float_name(index),
    {
        match index {
            FloatWidth::F32 => self.options[1].as_str(),
            FloatWidth::F64 => self.options[2].as_str(),
            FloatWidth::F128 => self.options[3].as_str(),
        }
    }
}

impl vstd::std_specs::core::IndexSpecImpl<FloatWidth> for IntrinsicName {
    open spec fn index_req(&self, index: &FloatWidth) -> bool {
        true
    }
}

impl std::ops::Index<IntWidth> for IntrinsicName {
    type Output = str;

    /// The name of the intrinsic at an integer width; the empty string
    /// where the operation has none.
    fn index(&self, index: IntWidth) -> (name: &str)
        ensures
            name@ == self.int_name(index),
    {
        match index {
            IntWidth::U8 => self.options[4].as_str(),
            IntWidth::U16 => self.options[5].as_str(),
            IntWidth::U32 => self.options[6].as_str(),
            IntWidth::U64 => self.options[7].as_str(),
            IntWidth::U128 => self.options[8].as_str(),
            IntWidth::I8 => self.options[9].as_str(),
            IntWidth::I16 => self.options[10].as_str(),
            IntWidth::I32 => self.options[11].as_str(),
            IntWidth::I64 => self.options[12].as_str(),
            IntWidth::I128 => self.options[13].as_str(),
        }
    }
}

impl vstd::std_specs::core::IndexSpecImpl<IntWidth> for IntrinsicName {
    open spec fn index_req(&self, index: &IntWidth) -> bool {
        true
    }
}

/// The name `name` followed by `suffix`.
fn qualified(name: &str, suffix: &str) -> (full: String)
    ensures
        full@ == name@ + suffix@,
{
    String::from_str(name).concat(suffix)
}

/// The table of the operation named `name` that has an intrinsic at each
/// float width and at no other: `name` qualified by the width.
pub fn float_intrinsic(name: &str) -> (table: IntrinsicName)
    ensures
        table.is_float_table(name@),
{
    proof {
        reveal_with_fuel(decimal, 3);
        reveal_strlit(".f32");
        reveal_strlit(".f64");
        reveal_strlit(".f128");
        assert(".f32"@ =~= FloatWidth::F32.suffix());
        assert(".f64"@ =~= FloatWidth::F64.suffix());
        assert(".f128"@ =~= FloatWidth::F128.suffix());
    }
    IntrinsicName {
        options: [
            String::new(),
            qualified(name, ".f32"),
            qualified(name, ".f64"),
            qualified(name, ".f128"),
            String::new(),
            String::new(),
            String::new(),
            String::new(),
            String::new(),
            String::new(),
            String::new(),
            String::new(),
            String::new(),
            String::new(),
        ],
    }
}

/// The table of the operation named `name` that has an intrinsic at each
/// integer width and at no other: `name` qualified by the width. The one
/// name serves the widths with a sign and those without.
pub fn int_intrinsic(name: &str) -> (table: IntrinsicName)
    ensures
        table.is_int_table(name@),
{
    proof {
        reveal_with_fuel(decimal, 3);
        reveal_strlit(".u8");
        reveal_strlit(".u16");
        reveal_strlit(".u32");
        reveal_strlit(".u64");
        reveal_strlit(".u128");
        reveal_strlit(".i8");
        reveal_strlit(".i16");
        reveal_strlit(".i32");
        reveal_strlit(".i64");
        reveal_strlit(".i128");
        assert(".u8"@ =~= IntWidth::U8.suffix());
        assert(".u16"@ =~= IntWidth::U16.suffix());
        assert(".u32"@ =~= IntWidth::U32.suffix());
        assert(".u64"@ =~= IntWidth::U64.suffix());
        assert(".u128"@ =~= IntWidth::U128.suffix());
        assert(".i8"@ =~= IntWidth::I8.suffix());
        assert(".i16"@ =~= IntWidth::I16.suffix());
        assert(".i32"@ =~= IntWidth::I32.suffix());
        assert(".i64"@ =~= IntWidth::I64.suffix());
        assert(".i128"@ =~= IntWidth::I128.suffix());
    }
    IntrinsicName {
        options: [
            String::new(),
            String::new(),
            String::new(),
            String::new(),
            qualified(name, ".u8"),
            qualified(name, ".u16"),
            qualified(name, ".u32"),
            qualified(name, ".u64"),
            qualified(name, ".u128"),
            qualified(name, ".i8"),
            qualified(name, ".i16"),
            qualified(name, ".i32"),
            qualified(name, ".i64"),
            qualified(name, ".i128"),
        ],
    }
}

/// The table of an operation that the code generator's own intrinsics
/// implement, with one name for the widths with a sign and one for those
/// without. Those intrinsics tell the widths apart by their size alone, so
/// both names are qualified as the width with a sign is.
pub fn llvm_int_intrinsic(signed_name: &str, unsigned_name: &str) -> (table: IntrinsicName)
    ensures
        table.is_llvm_int_table(signed_name@, unsigned_name@),
{
    proof {
        reveal_with_fuel(decimal, 3);
        reveal_strlit(".i8");
        reveal_strlit(".i16");
        reveal_strlit(".i32");
        reveal_strlit(".i64");
        reveal_strlit(".i128");
        assert(".i8"@ =~= IntWidth::I8.size_suffix());
        assert(".i16"@ =~= IntWidth::I16.size_suffix());
        assert(".i32"@ =~= IntWidth::I32.size_suffix());
        assert(".i64"@ =~= IntWidth::I64.size_suffix());
        assert(".i128"@ =~= IntWidth::I128.size_suffix());
    }
    IntrinsicName {
        options: [
            String::new(),
            String::new(),
            String::new(),
            String::new(),
            qualified(unsigned_name, ".i8"),
            qualified(unsigned_name, ".i16"),
            qualified(unsigned_name, ".i32"),
            qualified(unsigned_name, ".i64"),
            qualified(unsigned_name, ".i128"),
            qualified(signed_name, ".i8"),
            qualified(signed_name, ".i16"),
            qualified(signed_name, ".i32"),
            qualified(signed_name, ".i64"),
            qualified(signed_name, ".i128"),
        ],
    }
}

/// For each integer width, the table of the operation that converts to that
/// width. Within such a table, a width selects the intrinsic that converts
/// an argument of that width.
#[derive(Clone, PartialEq, Eq, Debug)]
pub struct IntToIntrinsicName {
    pub options: [IntrinsicName; 10],
}

impl IntToIntrinsicName {
    /// The table of the operation that converts to `width`.
    pub open spec fn entry(self, width: IntWidth) -> IntrinsicName {
        self.options@[width.ordinal()]
    }

    /// Whether these are the tables of the conversions whose names hold the
    /// width converted to between `prefix` and `suffix`: each has an
    /// intrinsic for an argument of each integer width, and no other.
    pub open spec fn is_conversion_tables(self, prefix: Seq<char>, suffix: Seq<char>) -> bool {
        forall|target: IntWidth|
            (#[trigger] self.entry(target)).is_int_table(
                prefix + target.type_name_chars() + suffix,
            )
    }

    /// The tables of conversions that have no intrinsic at any width.
    pub fn default() -> (tables: IntToIntrinsicName)
        ensures
            forall|width: IntWidth|
                {
                    &&& (#[trigger] tables.entry(width)).has_no_dec()
                    &&& tables.entry(width).has_no_float()
                    &&& tables.entry(width).has_no_int()
                },
    {
        IntToIntrinsicName {
            options: [
                IntrinsicName::default(),
                IntrinsicName::default(),
                IntrinsicName::default(),
                IntrinsicName::default(),
                IntrinsicName::default(),
                IntrinsicName::default(),
                IntrinsicName::default(),
                IntrinsicName::default(),
                IntrinsicName::default(),
                IntrinsicName::default(),
            ],
        }
    }
}

impl Default for IntToIntrinsicName {
    /// The tables of conversions that have no intrinsic at any width.
    fn default() -> (tables: IntToIntrinsicName)
        ensures
            forall|width: IntWidth|
                {
                    &&& (#[trigger] tables.entry(width)).has_no_dec()
                    &&& tables.entry(width).has_no_float()
                    &&& tables.entry(width).has_no_int()
                },
    {
        IntToIntrinsicName::default()
    }
}

impl std::ops::Index<IntWidth> for IntToIntrinsicName {
    type Output = IntrinsicName;

    /// The table of the operation that converts to the width `index`.
    fn index(&self, index: IntWidth) -> (table: &IntrinsicName)
        ensures
            *table == self.entry(index),
    {
        match index {
            IntWidth::U8 => &self.options[0],
            IntWidth::U16 => &self.options[1],
            IntWidth::U32 => &self.options[2],
            IntWidth::U64 => &self.options[3],
            IntWidth::U128 => &self.options[4],
            IntWidth::I8 => &self.options[5],
            IntWidth::I16 => &self.options[6],
            IntWidth::I32 => &self.options[7],
            IntWidth::I64 => &self.options[8],
            IntWidth::I128 => &self.options[9],
        }
    }
}

impl vstd::std_specs::core::IndexSpecImpl<IntWidth> for IntToIntrinsicName {
    open spec fn index_req(&self, index: &IntWidth) -> bool {
        true
    }
}

/// The name of the intrinsic that converts an argument of the width
/// `argument` to the width `target`: between `prefix` and `suffix` stands the
/// machine type converted to, and the whole is qualified by the argument's
/// width.
pub open spec fn conversion_name(
    prefix: Seq<char>,
    target: IntWidth,
    suffix: Seq<char>,
    argument: IntWidth,
) -> Seq<char> {
    prefix + target.type_name_chars() + suffix + argument.suffix()
}

/// The table of the operation that converts to the width `target`.
fn conversion_to(name_prefix: &str, target: IntWidth, name_suffix: &str) -> (table: IntrinsicName)
    ensures
        table.is_int_table(name_prefix@ + target.type_name_chars() + name_suffix@),
{
    let name = qualified(name_prefix, target.type_name_str()).concat(name_suffix);
    int_intrinsic(name.as_str())
}

/// The tables of the checked conversions between integer widths whose names
/// hold the width converted to between `name_prefix` and `name_suffix`.
pub fn int_to_int_intrinsic(name_prefix: &str, name_suffix: &str) -> (tables: IntToIntrinsicName)
    ensures
        tables.is_conversion_tables(name_prefix@, name_suffix@),
{
    IntToIntrinsicName {
        options: [
            conversion_to(name_prefix, IntWidth::U8, name_suffix),
            conversion_to(name_prefix, IntWidth::U16, name_suffix),
            conversion_to(name_prefix, IntWidth::U32, name_suffix),
            conversion_to(name_prefix, IntWidth::U64, name_suffix),
            conversion_to(name_prefix, IntWidth::U128, name_suffix),
            conversion_to(name_prefix, IntWidth::I8, name_suffix),
            conversion_to(name_prefix, IntWidth::I16, name_suffix),
            conversion_to(name_prefix, IntWidth::I32, name_suffix),
            conversion_to(name_prefix, IntWidth::I64, name_suffix),
            conversion_to(name_prefix, IntWidth::I128, name_suffix),
        ],
    }
}

/// Whether `suffix` starts with a dot and holds no other.
pub open spec fn dotted(suffix: Seq<char>) -> bool {
    &&& suffix.len() > 0
    &&& suffix[0] == '.'
    &&& forall|i: int| 0 < i < suffix.len() ==> suffix[i] != '.'
}

/// A number written in decimal has at least one digit, and no dot.
proof fn lemma_decimal_has_no_dot(n: nat)
    ensures
        decimal(n).len() > 0,
        forall|i: int| 0 <= i < decimal(n).len() ==> decimal(n)[i] != '.',
    decreases n,
{
    if n >= 10 {
        lemma_decimal_has_no_dot(n / 10);
    }
}

/// What a name is qualified by at any width starts with a dot and holds no
/// other.
pub proof fn lemma_suffixes_dotted()
    ensures
        forall|width: FloatWidth| dotted(#[trigger] width.suffix()),
        forall|width: IntWidth| dotted(#[trigger] width.suffix()),
        forall|width: IntWidth| dotted(#[trigger] width.size_suffix()),
{
    assert forall|width: FloatWidth| dotted(#[trigger] width.suffix()) by {
        lemma_decimal_has_no_dot(width.bits());
    }
    assert forall|width: IntWidth| dotted(#[trigger] width.suffix()) by {
        lemma_decimal_has_no_dot(width.bits());
    }
    assert forall|width: IntWidth| dotted(#[trigger] width.size_suffix()) by {
        lemma_decimal_has_no_dot(width.bits());
    }
}

/// A name that ends in a dotted suffix can be taken apart in one way only:
/// where two such names are the same, so are what stands before the
/// suffixes, and the suffixes.
pub proof fn lemma_qualified_apart(
    name1: Seq<char>,
    suffix1: Seq<char>,
    name2: Seq<char>,
    suffix2: Seq<char>,
)
    requires
        dotted(suffix1),
        dotted(suffix2),
        name1 + suffix1 == name2 + suffix2,
    ensures
        name1 == name2,
        suffix1 == suffix2,
{
    let full = name1 + suffix1;
    assert(full.len() == name1.len() + suffix1.len());
    assert(full.len() == name2.len() + suffix2.len());
    if suffix1.len() < suffix2.len() {
        assert(full[name1.len() as int] == suffix1[0]);
        assert((name2 + suffix2)[name1.len() as int] == suffix2[name1.len() - name2.len()]);
    } else if suffix2.len() < suffix1.len() {
        assert((name2 + suffix2)[name2.len() as int] == suffix2[0]);
        assert(full[name2.len() as int] == suffix1[name2.len() - name1.len()]);
    } else {
        assert forall|i: int| 0 <= i < name1.len() implies name1[i] == name2[i] by {
            assert(full[i] == name1[i]);
            assert((name2 + suffix2)[i] == name2[i]);
        }
        assert(name1 =~= name2);
        assert forall|i: int| 0 <= i < suffix1.len() implies suffix1[i] == suffix2[i] by {
            assert(full[name1.len() + i] == suffix1[i]);
            assert((name2 + suffix2)[name2.len() + i] == suffix2[i]);
        }
        assert(suffix1 =~= suffix2);
    }
}

/// Widths that qualify a name alike are the same width, with one exception:
/// the names of the code generator's own intrinsics do not tell a width with
/// a sign from the one of its size without.
pub proof fn lemma_suffixes_distinct()
    ensures
        forall|width1: FloatWidth, width2: FloatWidth|
            #[trigger] width1.suffix() == #[trigger] width2.suffix() ==> width1 == width2,
        forall|width1: IntWidth, width2: IntWidth|
            #[trigger] width1.suffix() == #[trigger] width2.suffix() ==> width1 == width2,
        forall|width1: IntWidth, width2: IntWidth|
            #[trigger] width1.type_name_chars() == #[trigger] width2.type_name_chars() ==> width1
                == width2,
        forall|width1: FloatWidth, width2: IntWidth|
            #[trigger] width1.suffix() != #[trigger] width2.suffix(),
        forall|width1: IntWidth, width2: IntWidth|
            #[trigger] width1.size_suffix() == #[trigger] width2.size_suffix()
                ==> width1.bits() == width2.bits(),
{
    reveal_with_fuel(decimal, 3);
    assert(decimal(8) =~= seq!['8']);
    assert(decimal(16) =~= seq!['1', '6']);
    assert(decimal(32) =~= seq!['3', '2']);
    assert(decimal(64) =~= seq!['6', '4']);
    assert(decimal(128) =~= seq!['1', '2', '8']);
    assert forall|width1: FloatWidth, width2: FloatWidth|
        #[trigger] width1.suffix() == #[trigger] width2.suffix() implies width1 == width2 by {
        assert(width1.suffix().len() == width2.suffix().len());
        assert(width1.suffix()[2] == width2.suffix()[2]);
    }
    assert forall|width1: IntWidth, width2: IntWidth|
        #[trigger] width1.type_name_chars() == #[trigger] width2.type_name_chars() implies width1
            == width2 by {
        assert(width1.type_name_chars().len() == width2.type_name_chars().len());
        assert(width1.type_name_chars()[0] == width2.type_name_chars()[0]);
        assert(width1.type_name_chars()[1] == width2.type_name_chars()[1]);
    }
    assert forall|width1: IntWidth, width2: IntWidth|
        #[trigger] width1.suffix() == #[trigger] width2.suffix() implies width1 == width2 by {
        assert(width1.suffix().len() == width2.suffix().len());
        assert(width1.suffix()[1] == width2.suffix()[1]);
        assert(width1.suffix()[2] == width2.suffix()[2]);
    }
    assert forall|width1: FloatWidth, width2: IntWidth|
        #[trigger] width1.suffix() != #[trigger] width2.suffix() by {
        assert(width1.suffix()[1] == 'f');
        assert(width2.suffix()[1] != 'f');
    }
    assert forall|width1: IntWidth, width2: IntWidth|
        #[trigger] width1.size_suffix() == #[trigger] width2.size_suffix()
            implies width1.bits() == width2.bits() by {
        assert(width1.size_suffix().len() == width2.size_suffix().len());
        assert(width1.size_suffix()[2] == width2.size_suffix()[2]);
    }
}

/// The names of two float intrinsics are the same only where both the
/// operation's name and the width are: no two of them collide.
pub proof fn lemma_float_names_distinct(
    name1: Seq<char>,
    width1: FloatWidth,
    name2: Seq<char>,
    width2: FloatWidth,
)
    ensures
        name1 + width1.suffix() == name2 + width2.suffix() <==> name1 == name2 && width1
            == width2,
{
    lemma_suffixes_dotted();
    lemma_suffixes_distinct();
    if name1 + width1.suffix() == name2 + width2.suffix() {
        lemma_qualified_apart(name1, width1.suffix(), name2, width2.suffix());
    }
}

/// The names of two integer intrinsics are the same only where both the
/// operation's name and the width are: no two of them collide.
pub proof fn lemma_int_names_distinct(
    name1: Seq<char>,
    width1: IntWidth,
    name2: Seq<char>,
    width2: IntWidth,
)
    ensures
        name1 + width1.suffix() == name2 + width2.suffix() <==> name1 == name2 && width1
            == width2,
{
    lemma_suffixes_dotted();
    lemma_suffixes_distinct();
    if name1 + width1.suffix() == name2 + width2.suffix() {
        lemma_qualified_apart(name1, width1.suffix(), name2, width2.suffix());
    }
}

/// The name of a float intrinsic is never that of an integer intrinsic,
/// whatever the operations' names.
pub proof fn lemma_float_and_int_names_distinct(
    name1: Seq<char>,
    width1: FloatWidth,
    name2: Seq<char>,
    width2: IntWidth,
)
    ensures
        name1 + width1.suffix() != name2 + width2.suffix(),
{
    lemma_suffixes_dotted();
    lemma_suffixes_distinct();
    if name1 + width1.suffix() == name2 + width2.suffix() {
        lemma_qualified_apart(name1, width1.suffix(), name2, width2.suffix());
    }
}

/// The names of two of the code generator's own intrinsics are the same only
/// where the operation's name and the size of the width are: a width with a
/// sign and the one of its size without share a name exactly where the
/// operation has one name for both.
pub proof fn lemma_llvm_names_distinct(
    name1: Seq<char>,
    width1: IntWidth,
    name2: Seq<char>,
    width2: IntWidth,
)
    ensures
        name1 + width1.size_suffix() == name2 + width2.size_suffix() <==> name1 == name2
            && width1.bits() == width2.bits(),
{
    lemma_suffixes_dotted();
    lemma_suffixes_distinct();
    if name1 + width1.size_suffix() == name2 + width2.size_suffix() {
        lemma_qualified_apart(name1, width1.size_suffix(), name2, width2.size_suffix());
    }
}

/// Within one family of conversions, the names of two intrinsics are the
/// same only where both the width converted to and the argument's width are.
pub proof fn lemma_conversion_names_distinct(
    prefix: Seq<char>,
    suffix: Seq<char>,
    target1: IntWidth,
    argument1: IntWidth,
    target2: IntWidth,
    argument2: IntWidth,
)
    ensures
        conversion_name(prefix, target1, suffix, argument1) == conversion_name(
            prefix,
            target2,
            suffix,
            argument2,
        ) <==> target1 == target2 && argument1 == argument2,
{
    lemma_suffixes_distinct();
    let base1 = prefix + target1.type_name_chars() + suffix;
    let base2 = prefix + target2.type_name_chars() + suffix;
    if base1 + argument1.suffix() == base2 + argument2.suffix() {
        lemma_int_names_distinct(base1, argument1, base2, argument2);
        let name1 = target1.type_name_chars();
        let name2 = target2.type_name_chars();
        assert(base1.len() == prefix.len() + name1.len() + suffix.len());
        assert(base2.len() == prefix.len() + name2.len() + suffix.len());
        assert forall|i: int| 0 <= i < name1.len() implies name1[i] == name2[i] by {
            assert(base1[prefix.len() + i] == name1[i]);
            assert(base2[prefix.len() + i] == name2[i]);
        }
        assert(name1 =~= name2);
    }
}

} // verus!
