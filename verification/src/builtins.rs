//! The builtins that are synthesized as definitions.
//!
//! The result of each is an open tag union, or depends on a check that is
//! written best in the language itself. Each definition makes its check,
//! takes one of two branches, and leaves the work to a primitive.

use crate::builder::{
    all_unlocated, call, conditional, defn, occurrences_in, one_if_within, syntaxes, tag,
};
use crate::expr::{Def, Expr, Pattern, Syntax};
use crate::subs::{VarStore, Variable};
use crate::symbol::Symbol;
use vstd::prelude::*;

verus! {

broadcast use VarStore::lemma_next_index_in_range;

/// A sequence of one expression has the syntax, the regions and the
/// variables of that expression.
proof fn lemma_one_expr(exprs: Seq<Expr>)
    requires
        exprs.len() == 1,
    ensures
        syntaxes(exprs) == seq![exprs[0].syntax()],
        all_unlocated(exprs) == exprs[0].unlocated(),
        forall|var: Variable| #[trigger] occurrences_in(exprs, 1, var) == exprs[0].occurrences(var),
{
    assert(syntaxes(exprs) =~= seq![exprs[0].syntax()]);
    assert forall|var: Variable| #[trigger]
        occurrences_in(exprs, 1, var) == exprs[0].occurrences(var) by {
        assert(occurrences_in(exprs, 0, var) == 0);
    }
}

/// A sequence of two expressions has the syntax, the regions and the
/// variables of the two.
proof fn lemma_two_exprs(exprs: Seq<Expr>)
    requires
        exprs.len() == 2,
    ensures
        syntaxes(exprs) == seq![exprs[0].syntax(), exprs[1].syntax()],
        all_unlocated(exprs) == (exprs[0].unlocated() && exprs[1].unlocated()),
        forall|var: Variable| #[trigger]
            occurrences_in(exprs, 2, var) == exprs[0].occurrences(var) + exprs[1].occurrences(
                var,
            ),
{
    assert(syntaxes(exprs) =~= seq![exprs[0].syntax(), exprs[1].syntax()]);
    assert forall|var: Variable| #[trigger]
        occurrences_in(exprs, 2, var) == exprs[0].occurrences(var) + exprs[1].occurrences(
            var,
        ) by {
        assert(occurrences_in(exprs, 0, var) == 0);
        assert(occurrences_in(exprs, 1, var) == exprs[0].occurrences(var));
    }
}

/// What a reference to a name says, where it stands, and that no type
/// variable occurs in it.
proof fn lemma_var(symbol: Symbol)
    ensures
        Expr::Var(symbol).syntax() == Syntax::Var(symbol),
        Expr::Var(symbol).unlocated(),
        forall|var: Variable| #[trigger] Expr::Var(symbol).occurrences(var) == 0,
{
}

/// What an integer literal says, where it stands, and that the variable of
/// its type is the only one that occurs in it.
proof fn lemma_int(var: Variable, n: i64)
    ensures
        Expr::Int(var, n).syntax() == Syntax::Int(n as int),
        Expr::Int(var, n).unlocated(),
        forall|other: Variable| #[trigger]
            Expr::Int(var, n).occurrences(other) == one_if_within(
                var.index(),
                var.index() + 1,
                other,
            ),
{
}

/// Whether `def` is a synthesized definition of the name `name` that took
/// the variables with an index from `start` up to `end`: it has no source
/// text and no signature, binds no name but its own, and each of those
/// variables occurs in it exactly once, and no other variable at all.
pub open spec fn is_synthesized(def: Def, name: Symbol, start: int, end: int) -> bool {
    &&& def.loc_pattern.value == Pattern::Identifier(name)
    &&& def.unlocated()
    &&& def.pattern_vars@.len() == 0
    &&& def.annotation is None
    &&& forall|var: Variable| #[trigger] def.occurrences(var) == one_if_within(start, end, var)
}

/// The variables with an index from `start` up to, but not including, `end`.
pub open spec fn block(start: int, end: int) -> Set<Variable> {
    Set::new(|var: Variable| start <= var.index() < end)
}

/// There are as many variables with an index from `start` up to `end` as
/// there are such indices.
proof fn lemma_block_len(start: int, end: int)
    requires
        0 <= start <= end <= u32::MAX + 1,
    ensures
        block(start, end).finite(),
        block(start, end).len() == end - start,
    decreases end - start,
{
    if start == end {
        assert(block(start, end) =~= Set::<Variable>::empty());
    } else {
        lemma_block_len(start, end - 1);
        let last = Variable((end - 1) as u32);
        assert(block(start, end) =~= block(start, end - 1).insert(last));
    }
}

/// In a synthesized definition no type variable stands in two positions, and
/// the variables that occur in it are as many as were taken from the
/// allocator for it.
pub proof fn lemma_synthesized_vars_distinct(def: Def, name: Symbol, start: int, end: int)
    requires
        is_synthesized(def, name, start, end),
        0 <= start <= end <= u32::MAX + 1,
    ensures
        forall|var: Variable| #[trigger] def.occurrences(var) <= 1,
        def.vars() == block(start, end),
        def.vars().finite(),
        def.vars().len() == end - start,
{
    lemma_block_len(start, end);
    assert(def.vars() =~= block(start, end));
}

/// How many times `var` occurs in the first `n` of the definitions `defs`.
pub open spec fn occurrences_in_defs(defs: Seq<Def>, n: nat, var: Variable) -> nat
    decreases n,
{
    if n == 0 || n > defs.len() {
        0
    } else {
        occurrences_in_defs(defs, (n - 1) as nat, var) + defs[n - 1].occurrences(var)
    }
}

/// How many variables `list_get` takes from its allocator.
pub const LIST_GET_VARS: u32 = 26;

/// `\list, index -> if index < List.len list then Ok (List.getUnsafe list
/// index) else Err OutOfBounds`
pub open spec fn list_get_syntax() -> Syntax {
    Syntax::function(
        Symbol::LIST_GET,
        seq![Symbol::LIST_GET_ARG_LIST, Symbol::LIST_GET_ARG_INDEX],
        Syntax::if_else(
            Syntax::apply(
                Symbol::NUM_LT,
                seq![
                    Syntax::Var(Symbol::LIST_GET_ARG_INDEX),
                    Syntax::apply(Symbol::LIST_LEN, seq![Syntax::Var(Symbol::LIST_GET_ARG_LIST)]),
                ],
            ),
            Syntax::Tag {
                name: "Ok"@,
                args: seq![
                    Syntax::apply(
                        Symbol::LIST_GET_UNSAFE,
                        seq![
                            Syntax::Var(Symbol::LIST_GET_ARG_LIST),
                            Syntax::Var(Symbol::LIST_GET_ARG_INDEX),
                        ],
                    ),
                ],
            },
            Syntax::Tag {
                name: "Err"@,
                args: seq![Syntax::Tag { name: "OutOfBounds"@, args: seq![] }],
            },
        ),
    )
}

/// The definition of `List.get : List elem, Int -> Result elem [ OutOfBounds ]*`.
///
/// It checks the index against the length of the list and only then looks
/// the element up with the primitive that does not check.
pub fn list_get(var_store: &mut VarStore) -> (def: Def)
    requires
        old(var_store).next_index() + LIST_GET_VARS <= u32::MAX,
    ensures
        final(var_store).next_index() == old(var_store).next_index() + LIST_GET_VARS,
        def.loc_expr.value.syntax() == list_get_syntax(),
        is_synthesized(
            def,
            Symbol::LIST_GET,
            old(var_store).next_index(),
            final(var_store).next_index(),
        ),
{
    proof {
        lemma_var(Symbol::LIST_GET_ARG_LIST);
        lemma_var(Symbol::LIST_GET_ARG_INDEX);
    }
    // List.len list
    let args = vec![Expr::Var(Symbol::LIST_GET_ARG_LIST)];
    proof {
        lemma_one_expr(args@);
    }
    let len = call(Symbol::LIST_LEN, args, var_store);
    // index < List.len list
    let args = vec![Expr::Var(Symbol::LIST_GET_ARG_INDEX), len];
    proof {
        lemma_two_exprs(args@);
    }
    let in_bounds = call(Symbol::NUM_LT, args, var_store);
    // List.getUnsafe list index
    let args = vec![Expr::Var(Symbol::LIST_GET_ARG_LIST), Expr::Var(Symbol::LIST_GET_ARG_INDEX)];
    proof {
        lemma_two_exprs(args@);
    }
    let element = call(Symbol::LIST_GET_UNSAFE, args, var_store);
    // Ok (List.getUnsafe list index)
    let args = vec![element];
    proof {
        lemma_one_expr(args@);
    }
    let ok = tag("Ok", args, var_store);
    // Err OutOfBounds
    let args = Vec::new();
    proof {
        assert(syntaxes(args@) =~= Seq::<Syntax>::empty());
    }
    let out_of_bounds = tag("OutOfBounds", args, var_store);
    let args = vec![out_of_bounds];
    proof {
        lemma_one_expr(args@);
    }
    let err = tag("Err", args, var_store);
    let body = conditional(in_bounds, ok, err, var_store);
    let params = vec![Symbol::LIST_GET_ARG_LIST, Symbol::LIST_GET_ARG_INDEX];
    assert(params@ =~= seq![Symbol::LIST_GET_ARG_LIST, Symbol::LIST_GET_ARG_INDEX]);
    defn(Symbol::LIST_GET, params, var_store, body)
}

/// How many variables `list_first` takes from its allocator.
pub const LIST_FIRST_VARS: u32 = 22;

/// `\list -> if List.isEmpty list then Err SequenceWasEmpty else Ok
/// (List.getUnsafe list 0)`
pub open spec fn list_first_syntax() -> Syntax {
    Syntax::function(
        Symbol::LIST_FIRST,
        seq![Symbol::LIST_FIRST_ARG],
        Syntax::if_else(
            Syntax::apply(Symbol::LIST_IS_EMPTY, seq![Syntax::Var(Symbol::LIST_FIRST_ARG)]),
            Syntax::Tag {
                name: "Err"@,
                args: seq![Syntax::Tag { name: "SequenceWasEmpty"@, args: seq![] }],
            },
            Syntax::Tag {
                name: "Ok"@,
                args: seq![
                    Syntax::apply(
                        Symbol::LIST_GET_UNSAFE,
                        seq![Syntax::Var(Symbol::LIST_FIRST_ARG), Syntax::Int(0)],
                    ),
                ],
            },
        ),
    )
}

/// The definition of `List.first : List elem -> Result elem [ SequenceWasEmpty ]*`.
///
/// Its condition asks whether the list is empty, so the branch taken where
/// the condition holds is the one that fails.
pub fn list_first(var_store: &mut VarStore) -> (def: Def)
    requires
        old(var_store).next_index() + LIST_FIRST_VARS <= u32::MAX,
    ensures
        final(var_store).next_index() == old(var_store).next_index() + LIST_FIRST_VARS,
        def.loc_expr.value.syntax() == list_first_syntax(),
        is_synthesized(
            def,
            Symbol::LIST_FIRST,
            old(var_store).next_index(),
            final(var_store).next_index(),
        ),
{
    proof {
        lemma_var(Symbol::LIST_FIRST_ARG);
    }
    // List.isEmpty list
    let args = vec![Expr::Var(Symbol::LIST_FIRST_ARG)];
    proof {
        lemma_one_expr(args@);
    }
    let is_empty = call(Symbol::LIST_IS_EMPTY, args, var_store);
    // Err SequenceWasEmpty
    let args = Vec::new();
    proof {
        assert(syntaxes(args@) =~= Seq::<Syntax>::empty());
    }
    let was_empty = tag("SequenceWasEmpty", args, var_store);
    let args = vec![was_empty];
    proof {
        lemma_one_expr(args@);
    }
    let err = tag("Err", args, var_store);
    // List.getUnsafe list 0
    let zero_var = var_store.fresh();
    proof {
        lemma_int(zero_var, 0);
    }
    let zero = Expr::Int(zero_var, 0);
    let args = vec![Expr::Var(Symbol::LIST_FIRST_ARG), zero];
    proof {
        lemma_two_exprs(args@);
    }
    let element = call(Symbol::LIST_GET_UNSAFE, args, var_store);
    // Ok (List.getUnsafe list 0)
    let args = vec![element];
    proof {
        lemma_one_expr(args@);
    }
    let ok = tag("Ok", args, var_store);
    let body = conditional(is_empty, err, ok, var_store);
    let params = vec![Symbol::LIST_FIRST_ARG];
    assert(params@ =~= seq![Symbol::LIST_FIRST_ARG]);
    defn(Symbol::LIST_FIRST, params, var_store, body)
}

/// How many variables `int_div` takes from its allocator.
pub const INT_DIV_VARS: u32 = 24;

/// `\numerator, denominator -> if denominator != 0 then Ok (Int.divUnsafe
/// numerator denominator) else Err DivByZero`
pub open spec fn int_div_syntax() -> Syntax {
    Syntax::function(
        Symbol::INT_DIV,
        seq![Symbol::INT_DIV_ARG_NUMERATOR, Symbol::INT_DIV_ARG_DENOMINATOR],
        Syntax::if_else(
            Syntax::apply(
                Symbol::INT_NEQ_I64,
                seq![Syntax::Var(Symbol::INT_DIV_ARG_DENOMINATOR), Syntax::Int(0)],
            ),
            Syntax::Tag {
                name: "Ok"@,
                args: seq![
                    Syntax::apply(
                        Symbol::INT_DIV_UNSAFE,
                        seq![
                            Syntax::Var(Symbol::INT_DIV_ARG_NUMERATOR),
                            Syntax::Var(Symbol::INT_DIV_ARG_DENOMINATOR),
                        ],
                    ),
                ],
            },
            Syntax::Tag {
                name: "Err"@,
                args: seq![Syntax::Tag { name: "DivByZero"@, args: seq![] }],
            },
        ),
    )
}

/// The definition of `Int.div : Int, Int -> Result Int [ DivByZero ]*`.
///
/// It checks that the denominator is not zero and only then divides with
/// the primitive that does not check.
pub fn int_div(var_store: &mut VarStore) -> (def: Def)
    requires
        old(var_store).next_index() + INT_DIV_VARS <= u32::MAX,
    ensures
        final(var_store).next_index() == old(var_store).next_index() + INT_DIV_VARS,
        def.loc_expr.value.syntax() == int_div_syntax(),
        is_synthesized(
            def,
            Symbol::INT_DIV,
            old(var_store).next_index(),
            final(var_store).next_index(),
        ),
{
    proof {
        lemma_var(Symbol::INT_DIV_ARG_NUMERATOR);
        lemma_var(Symbol::INT_DIV_ARG_DENOMINATOR);
    }
    // denominator != 0
    let zero_var = var_store.fresh();
    proof {
        lemma_int(zero_var, 0);
    }
    let zero = Expr::Int(zero_var, 0);
    let args = vec![Expr::Var(Symbol::INT_DIV_ARG_DENOMINATOR), zero];
    proof {
        lemma_two_exprs(args@);
    }
    let not_zero = call(Symbol::INT_NEQ_I64, args, var_store);
    // Int.divUnsafe numerator denominator
    let args = vec![
        Expr::Var(Symbol::INT_DIV_ARG_NUMERATOR),
        Expr::Var(Symbol::INT_DIV_ARG_DENOMINATOR),
    ];
    proof {
        lemma_two_exprs(args@);
    }
    let quotient = call(Symbol::INT_DIV_UNSAFE, args, var_store);
    // Ok (Int.divUnsafe numerator denominator)
    let args = vec![quotient];
    proof {
        lemma_one_expr(args@);
    }
    let ok = tag("Ok", args, var_store);
    // Err DivByZero
    let args = Vec::new();
    proof {
        assert(syntaxes(args@) =~= Seq::<Syntax>::empty());
    }
    let div_by_zero = tag("DivByZero", args, var_store);
    let args = vec![div_by_zero];
    proof {
        lemma_one_expr(args@);
    }
    let err = tag("Err", args, var_store);
    let body = conditional(not_zero, ok, err, var_store);
    let params = vec![Symbol::INT_DIV_ARG_NUMERATOR, Symbol::INT_DIV_ARG_DENOMINATOR];
    assert(params@ =~= seq![Symbol::INT_DIV_ARG_NUMERATOR, Symbol::INT_DIV_ARG_DENOMINATOR]);
    defn(Symbol::INT_DIV, params, var_store, body)
}

/// How many variables `int_abs` takes from its allocator.
pub const INT_ABS_VARS: u32 = 14;

/// `\n -> if 0 < n then n else Num.neg n`
pub open spec fn int_abs_syntax() -> Syntax {
    Syntax::function(
        Symbol::INT_ABS,
        seq![Symbol::INT_ABS_ARG],
        Syntax::if_else(
            Syntax::apply(
                Symbol::INT_LT,
                seq![Syntax::Int(0), Syntax::Var(Symbol::INT_ABS_ARG)],
            ),
            Syntax::Var(Symbol::INT_ABS_ARG),
            Syntax::apply(Symbol::NUM_NEG, seq![Syntax::Var(Symbol::INT_ABS_ARG)]),
        ),
    )
}

/// The definition of `Int.abs : Int -> Int`.
///
/// An integer above zero is handed on as it is; any other is negated. The
/// result is a plain integer, not a tag.
pub fn int_abs(var_store: &mut VarStore) -> (def: Def)
    requires
        old(var_store).next_index() + INT_ABS_VARS <= u32::MAX,
    ensures
        final(var_store).next_index() == old(var_store).next_index() + INT_ABS_VARS,
        def.loc_expr.value.syntax() == int_abs_syntax(),
        is_synthesized(
            def,
            Symbol::INT_ABS,
            old(var_store).next_index(),
            final(var_store).next_index(),
        ),
{
    proof {
        lemma_var(Symbol::INT_ABS_ARG);
    }
    // 0 < n
    let zero_var = var_store.fresh();
    proof {
        lemma_int(zero_var, 0);
    }
    let zero = Expr::Int(zero_var, 0);
    let args = vec![zero, Expr::Var(Symbol::INT_ABS_ARG)];
    proof {
        lemma_two_exprs(args@);
    }
    let above_zero = call(Symbol::INT_LT, args, var_store);
    // Num.neg n
    let args = vec![Expr::Var(Symbol::INT_ABS_ARG)];
    proof {
        lemma_one_expr(args@);
    }
    let negated = call(Symbol::NUM_NEG, args, var_store);
    let body = conditional(above_zero, Expr::Var(Symbol::INT_ABS_ARG), negated, var_store);
    let params = vec![Symbol::INT_ABS_ARG];
    assert(params@ =~= seq![Symbol::INT_ABS_ARG]);
    defn(Symbol::INT_ABS, params, var_store, body)
}

/// How many variables `builtin_defs` takes from its allocator.
pub const BUILTIN_DEFS_VARS: u32 = 86;

/// The builtins that have to take part in type inference like any other
/// definition, because their result is an open tag union: in order,
/// `List.get`, `List.first`, `Int.div` and `Int.abs`.
///
/// Which number a tag such as `OutOfBounds` gets at run time depends on the
/// other tags of the union that the result is unified with where the
/// builtin is called, so code generation cannot fix it beforehand. Each of
/// these definitions therefore makes its check in ordinary code and leaves
/// the work to a primitive whose result holds no open union.
///
/// The definitions share no type variable: each takes its own run of
/// variables from `var_store`, one after the other.
pub fn builtin_defs(var_store: &mut VarStore) -> (defs: Vec<Def>)
    requires
        old(var_store).next_index() + BUILTIN_DEFS_VARS <= u32::MAX,
    ensures
        final(var_store).next_index() == old(var_store).next_index() + BUILTIN_DEFS_VARS,
        defs@.len() == 4,
        defs@[0].loc_expr.value.syntax() == list_get_syntax(),
        is_synthesized(
            defs@[0],
            Symbol::LIST_GET,
            old(var_store).next_index(),
            old(var_store).next_index() + LIST_GET_VARS,
        ),
        defs@[1].loc_expr.value.syntax() == list_first_syntax(),
        is_synthesized(
            defs@[1],
            Symbol::LIST_FIRST,
            old(var_store).next_index() + LIST_GET_VARS,
            old(var_store).next_index() + LIST_GET_VARS + LIST_FIRST_VARS,
        ),
        defs@[2].loc_expr.value.syntax() == int_div_syntax(),
        is_synthesized(
            defs@[2],
            Symbol::INT_DIV,
            old(var_store).next_index() + LIST_GET_VARS + LIST_FIRST_VARS,
            old(var_store).next_index() + LIST_GET_VARS + LIST_FIRST_VARS + INT_DIV_VARS,
        ),
        defs@[3].loc_expr.value.syntax() == int_abs_syntax(),
        is_synthesized(
            defs@[3],
            Symbol::INT_ABS,
            old(var_store).next_index() + LIST_GET_VARS + LIST_FIRST_VARS + INT_DIV_VARS,
            final(var_store).next_index(),
        ),
        forall|var: Variable| #[trigger]
            occurrences_in_defs(defs@, 4, var) == one_if_within(
                old(var_store).next_index(),
                final(var_store).next_index(),
                var,
            ),
{
    let mut defs: Vec<Def> = Vec::new();
    defs.push(list_get(var_store));
    defs.push(list_first(var_store));
    defs.push(int_div(var_store));
    defs.push(int_abs(var_store));
    proof {
        reveal_with_fuel(occurrences_in_defs, 5);
    }
    defs
}

} // verus!
