//! A small toolkit for assembling expressions and definitions that have no
//! source text.
//!
//! Every position of what is assembled gets a type variable of its own from
//! the allocator of the module being compiled. A variable that stood in two
//! positions would make inference unify what has nothing to do with each
//! other.

use crate::expr::{
    occurrences_in_params, CalledVia, Def, Expr, Pattern, Recursive, Syntax, TagName,
};
use crate::region::{Located, Region};
use crate::subs::{VarStore, Variable};
use crate::symbol::Symbol;
use vstd::prelude::*;
use vstd::string::StringExecFns;

verus! {

broadcast use VarStore::lemma_next_index_in_range;

/// 1 if `var` is one of the variables with an index from `lo` up to, but not
/// including, `hi`, else 0.
pub open spec fn one_if_within(lo: int, hi: int, var: Variable) -> nat {
    if lo <= var.index() < hi {
        1
    } else {
        0
    }
}

/// How many times `var` occurs in the first `n` of the expressions `exprs`.
pub open spec fn occurrences_in(exprs: Seq<Expr>, n: nat, var: Variable) -> nat
    decreases n,
{
    if n == 0 || n > exprs.len() {
        0
    } else {
        occurrences_in(exprs, (n - 1) as nat, var) + exprs[n - 1].occurrences(var)
    }
}

/// The value with the region of syntax that has no source text.
pub fn no_region<T>(value: T) -> (located: Located<T>)
    ensures
        located.region == Region::zero(),
        located.value == value,
{
    Located { region: Region::zero(), value }
}

/// The arguments `args` as a call or a tag holds them: each at no region,
/// with the variables from index `start` on, in order.
pub open spec fn with_fresh_vars(args: Seq<Expr>, start: int) -> Seq<(Variable, Located<Expr>)> {
    Seq::new(
        args.len(),
        |i: int| (Variable((start + i) as u32), Located { region: Region::zero(), value: args[i] }),
    )
}

/// The syntax of each of the expressions `exprs`.
pub open spec fn syntaxes(exprs: Seq<Expr>) -> Seq<Syntax> {
    Seq::new(exprs.len(), |i: int| exprs[i].syntax())
}

/// Whether each of the expressions `exprs` stands at no region throughout.
pub open spec fn all_unlocated(exprs: Seq<Expr>) -> bool {
    forall|i: int| 0 <= i < exprs.len() ==> (#[trigger] exprs[i]).unlocated()
}

/// Attaching fresh variables to arguments adds one occurrence of each of
/// those variables and changes no other count.
proof fn lemma_occurrences_with_fresh_vars(args: Seq<Expr>, start: int, n: nat, var: Variable)
    requires
        n <= args.len(),
        0 <= start,
        start + args.len() <= u32::MAX,
    ensures
        Expr::occurrences_in_args(with_fresh_vars(args, start), n, var) == occurrences_in(
            args,
            n,
            var,
        ) + one_if_within(start, start + n, var),
    decreases n,
{
    if n > 0 {
        lemma_occurrences_with_fresh_vars(args, start, (n - 1) as nat, var);
    }
}

/// The arguments `args`, each at no region and with a variable of its own
/// from `var_store`.
fn attach_fresh_vars(args: Vec<Expr>, var_store: &mut VarStore) -> (attached: Vec<
    (Variable, Located<Expr>),
>)
    requires
        old(var_store).next_index() + args@.len() <= u32::MAX,
    ensures
        attached@ == with_fresh_vars(args@, old(var_store).next_index()),
        final(var_store).next_index() == old(var_store).next_index() + args@.len(),
{
    let ghost start = var_store.next_index();
    let ghost n = args@.len();
    let mut attached: Vec<(Variable, Located<Expr>)> = Vec::new();
    for arg in it: args
        invariant
            attached@.len() == it.index(),
            it.seq() == args@,
            n == args@.len(),
            start + n <= u32::MAX,
            var_store.next_index() == start + it.index(),
            forall|j: int|
                0 <= j < it.index() ==> attached@[j] == with_fresh_vars(args@, start)[j],
    {
        let var = var_store.fresh();
        attached.push((var, no_region(arg)));
    }
    attached
}

/// Whether `expr` is the call of the function named `symbol` on `args` that
/// takes its variables from index `start` on: the variable of the function's
/// type, that of the result's type, then one for each argument.
pub open spec fn is_call(expr: Expr, symbol: Symbol, args: Seq<Expr>, start: int) -> bool {
    &&& expr matches Expr::Call(head, call_args, called_via)
    &&& head.0 == Variable(start as u32)
    &&& head.1 == (Located { region: Region::zero(), value: Expr::Var(symbol) })
    &&& head.2 == Variable((start + 1) as u32)
    &&& call_args@ == with_fresh_vars(args, start + 2)
    &&& called_via == CalledVia::Space
}

/// The call of the function named `symbol` on `args`, written with a space.
///
/// Every position of the call gets a variable of its own from `var_store`.
pub fn call(symbol: Symbol, args: Vec<Expr>, var_store: &mut VarStore) -> (expr: Expr)
    requires
        old(var_store).next_index() + args@.len() + 2 <= u32::MAX,
    ensures
        final(var_store).next_index() == old(var_store).next_index() + args@.len() + 2,
        is_call(expr, symbol, args@, old(var_store).next_index()),
        expr.syntax() == Syntax::apply(symbol, syntaxes(args@)),
        all_unlocated(args@) ==> expr.unlocated(),
        forall|var: Variable|
            #[trigger] expr.occurrences(var) == occurrences_in(args@, args@.len(), var)
                + one_if_within(
                old(var_store).next_index(),
                final(var_store).next_index(),
                var,
            ),
{
    let ghost start = var_store.next_index();
    let ghost arg_seq = args@;
    let fn_var = var_store.fresh();
    let ret_var = var_store.fresh();
    let call_args = attach_fresh_vars(args, var_store);
    let expr = Expr::Call(
        Box::new((fn_var, no_region(Expr::Var(symbol)), ret_var)),
        call_args,
        CalledVia::Space,
    );
    proof {
        assert(Expr::Var(symbol).syntax() == Syntax::Var(symbol));
        assert(Expr::Var(symbol).unlocated());
        assert(expr.syntax()->Call_args =~= syntaxes(arg_seq));
        assert forall|var: Variable|
            #[trigger] expr.occurrences(var) == occurrences_in(arg_seq, arg_seq.len(), var)
                + one_if_within(start, start + arg_seq.len() + 2, var) by {
            assert(Expr::Var(symbol).occurrences(var) == 0);
            lemma_occurrences_with_fresh_vars(arg_seq, start + 2, arg_seq.len(), var);
        }
    }
    expr
}

/// Whether `expr` is the tag `name` applied to `args` that takes its
/// variables from index `start` on: the variable of the variant's type, that
/// of the rest of the union, then one for each argument.
pub open spec fn is_tag(expr: Expr, name: Seq<char>, args: Seq<Expr>, start: int) -> bool {
    &&& expr matches Expr::Tag { variant_var, ext_var, name: tag_name, arguments }
    &&& variant_var == Variable(start as u32)
    &&& ext_var == Variable((start + 1) as u32)
    &&& tag_name@ == name
    &&& arguments@ == with_fresh_vars(args, start + 2)
}

/// The global tag `name` applied to `args`.
///
/// Every position of the application gets a variable of its own from
/// `var_store`, among them one for the rest of the open union.
pub fn tag(name: &str, args: Vec<Expr>, var_store: &mut VarStore) -> (expr: Expr)
    requires
        old(var_store).next_index() + args@.len() + 2 <= u32::MAX,
    ensures
        final(var_store).next_index() == old(var_store).next_index() + args@.len() + 2,
        is_tag(expr, name@, args@, old(var_store).next_index()),
        expr.syntax() == (Syntax::Tag { name: name@, args: syntaxes(args@) }),
        all_unlocated(args@) ==> expr.unlocated(),
        forall|var: Variable|
            #[trigger] expr.occurrences(var) == occurrences_in(args@, args@.len(), var)
                + one_if_within(
                old(var_store).next_index(),
                final(var_store).next_index(),
                var,
            ),
{
    let ghost start = var_store.next_index();
    let ghost arg_seq = args@;
    let variant_var = var_store.fresh();
    let ext_var = var_store.fresh();
    let arguments = attach_fresh_vars(args, var_store);
    let expr = Expr::Tag {
        variant_var,
        ext_var,
        name: TagName::Global(String::from_str(name)),
        arguments,
    };
    proof {
        assert(expr.syntax()->Tag_args =~= syntaxes(arg_seq));
        assert forall|var: Variable|
            #[trigger] expr.occurrences(var) == occurrences_in(arg_seq, arg_seq.len(), var)
                + one_if_within(start, start + arg_seq.len() + 2, var) by {
            lemma_occurrences_with_fresh_vars(arg_seq, start + 2, arg_seq.len(), var);
        }
    }
    expr
}

/// Whether `expr` is the conditional with the one condition `cond` that
/// takes its two variables from index `start` on: the variable of the
/// condition's type, then that of the branches' type.
pub open spec fn is_conditional(
    expr: Expr,
    cond: Expr,
    then_branch: Expr,
    else_branch: Expr,
    start: int,
) -> bool {
    &&& expr matches Expr::If { cond_var, branch_var, branches, final_else }
    &&& cond_var == Variable(start as u32)
    &&& branch_var == Variable((start + 1) as u32)
    &&& branches@ == seq![
        (
            Located { region: Region::zero(), value: cond },
            Located { region: Region::zero(), value: then_branch },
        ),
    ]
    &&& *final_else == (Located { region: Region::zero(), value: else_branch })
}

/// The conditional whose value is that of `then_branch` where `cond` holds
/// and that of `else_branch` where it does not.
pub fn conditional(
    cond: Expr,
    then_branch: Expr,
    else_branch: Expr,
    var_store: &mut VarStore,
) -> (expr: Expr)
    requires
        old(var_store).next_index() + 2 <= u32::MAX,
    ensures
        final(var_store).next_index() == old(var_store).next_index() + 2,
        is_conditional(expr, cond, then_branch, else_branch, old(var_store).next_index()),
        expr.syntax() == Syntax::if_else(
            cond.syntax(),
            then_branch.syntax(),
            else_branch.syntax(),
        ),
        cond.unlocated() && then_branch.unlocated() && else_branch.unlocated()
            ==> expr.unlocated(),
        forall|var: Variable|
            #[trigger] expr.occurrences(var) == cond.occurrences(var) + then_branch.occurrences(
                var,
            ) + else_branch.occurrences(var) + one_if_within(
                old(var_store).next_index(),
                final(var_store).next_index(),
                var,
            ),
{
    let ghost start = var_store.next_index();
    let cond_var = var_store.fresh();
    let branch_var = var_store.fresh();
    let mut branches: Vec<(Located<Expr>, Located<Expr>)> = Vec::new();
    branches.push((no_region(cond), no_region(then_branch)));
    let expr = Expr::If {
        cond_var,
        branch_var,
        branches,
        final_else: Box::new(no_region(else_branch)),
    };
    proof {
        assert(expr->If_branches@ =~= seq![
            (
                Located { region: Region::zero(), value: cond },
                Located { region: Region::zero(), value: then_branch },
            ),
        ]);
        assert(expr.syntax()->If_branches =~= seq![(cond.syntax(), then_branch.syntax())]);
        assert forall|var: Variable|
            #[trigger] expr.occurrences(var) == cond.occurrences(var) + then_branch.occurrences(
                var,
            ) + else_branch.occurrences(var) + one_if_within(start, start + 2, var) by {
            let branches = expr->If_branches@;
            assert(Expr::occurrences_in_branches(branches, 0, var) == 0);
            assert(Expr::occurrences_in_branches(branches, 1, var) == cond.occurrences(var)
                + then_branch.occurrences(var));
        }
    }
    expr
}

/// The parameters named `params` as a closure holds them: each an
/// identifier pattern at no region, with the variables from index `start`
/// on, in order.
pub open spec fn params_with_fresh_vars(params: Seq<Symbol>, start: int) -> Seq<
    (Variable, Located<Pattern>),
> {
    Seq::new(
        params.len(),
        |i: int|
            (
                Variable((start + i) as u32),
                Located { region: Region::zero(), value: Pattern::Identifier(params[i]) },
            ),
    )
}

/// Fresh parameter variables occur once each.
proof fn lemma_occurrences_in_fresh_params(params: Seq<Symbol>, start: int, n: nat, var: Variable)
    requires
        n <= params.len(),
        0 <= start,
        start + params.len() <= u32::MAX,
    ensures
        occurrences_in_params(params_with_fresh_vars(params, start), n, var) == one_if_within(
            start,
            start + n,
            var,
        ),
    decreases n,
{
    if n > 0 {
        lemma_occurrences_in_fresh_params(params, start, (n - 1) as nat, var);
    }
}

/// Whether `def` defines `fn_name` as the function of `params` with the body
/// `body`, with no signature, and takes its variables from index `start` on:
/// one for each parameter, then the variable of the function's type, that of
/// the body's type, and that of the definition's expression.
pub open spec fn is_defn(
    def: Def,
    fn_name: Symbol,
    params: Seq<Symbol>,
    body: Expr,
    start: int,
) -> bool {
    &&& def.loc_pattern == (Located {
        region: Region::zero(),
        value: Pattern::Identifier(fn_name),
    })
    &&& def.loc_expr.region == Region::zero()
    &&& def.loc_expr.value matches Expr::Closure(
        closure_var,
        name,
        recursive,
        closure_args,
        closure_body,
    )
    &&& closure_var == Variable((start + params.len()) as u32)
    &&& name == fn_name
    &&& recursive == Recursive::NotRecursive
    &&& closure_args@ == params_with_fresh_vars(params, start)
    &&& closure_body.0 == (Located { region: Region::zero(), value: body })
    &&& closure_body.1 == Variable((start + params.len() + 1) as u32)
    &&& def.expr_var == Variable((start + params.len() + 2) as u32)
    &&& def.pattern_vars@.len() == 0
    &&& def.annotation is None
}

/// The definition of `fn_name` as the function that is not recursive, takes
/// `args` and has the body `body`. It has no signature: its type is inferred.
///
/// Every position of the definition gets a variable of its own from
/// `var_store`.
pub fn defn(fn_name: Symbol, args: Vec<Symbol>, var_store: &mut VarStore, body: Expr) -> (def: Def)
    requires
        old(var_store).next_index() + args@.len() + 3 <= u32::MAX,
    ensures
        final(var_store).next_index() == old(var_store).next_index() + args@.len() + 3,
        is_defn(def, fn_name, args@, body, old(var_store).next_index()),
        def.loc_expr.value.syntax() == Syntax::function(fn_name, args@, body.syntax()),
        body.unlocated() ==> def.unlocated(),
        forall|var: Variable|
            #[trigger] def.occurrences(var) == body.occurrences(var) + one_if_within(
                old(var_store).next_index(),
                final(var_store).next_index(),
                var,
            ),
{
    let ghost start = var_store.next_index();
    let ghost params = args@;
    let mut closure_args: Vec<(Variable, Located<Pattern>)> = Vec::new();
    for symbol in it: args
        invariant
            closure_args@.len() == it.index(),
            it.seq() == params,
            start + params.len() + 3 <= u32::MAX,
            var_store.next_index() == start + it.index(),
            forall|j: int|
                0 <= j < it.index() ==> closure_args@[j] == params_with_fresh_vars(
                    params,
                    start,
                )[j],
    {
        let var = var_store.fresh();
        closure_args.push((var, no_region(Pattern::Identifier(symbol))));
    }
    assert(closure_args@ =~= params_with_fresh_vars(params, start));
    let closure_var = var_store.fresh();
    let ret_var = var_store.fresh();
    let expr = Expr::Closure(
        closure_var,
        fn_name,
        Recursive::NotRecursive,
        closure_args,
        Box::new((no_region(body), ret_var)),
    );
    let def = Def {
        loc_pattern: no_region(Pattern::Identifier(fn_name)),
        loc_expr: no_region(expr),
        expr_var: var_store.fresh(),
        pattern_vars: Vec::new(),
        annotation: None,
    };
    proof {
        assert(def.loc_expr.value.syntax()->Closure_params =~= Syntax::function(
            fn_name,
            params,
            body.syntax(),
        )->Closure_params);
        assert forall|var: Variable|
            #[trigger] def.occurrences(var) == body.occurrences(var) + one_if_within(
                start,
                start + params.len() + 3,
                var,
            ) by {
            lemma_occurrences_in_fresh_params(params, start, params.len(), var);
        }
    }
    def
}

} // verus!
