//! What the synthesized builtins compute.
//!
//! The meaning of an expression is given for the part of the language that
//! the builtins are written in: integers, lists, tags, conditionals and
//! calls of primitives. Integers are the mathematical ones: a machine
//! integer that overflows is outside this model.

use crate::builtins::{int_abs_syntax, int_div_syntax, list_first_syntax, list_get_syntax};
use crate::expr::{Pattern, Syntax};
use crate::symbol::Symbol;
use vstd::prelude::*;

verus! {

/// What an expression is worth.
pub enum Value {
    Int(int),
    Bool(bool),
    List(Seq<Value>),
    /// A tag applied to its arguments.
    Tag(Seq<char>, Seq<Value>),
    /// The worth of an expression whose evaluation goes wrong: a name that is
    /// not bound, a primitive applied to what it is not defined on.
    Stuck,
}

impl Value {
    /// `Ok value`
    pub open spec fn ok(value: Value) -> Value {
        Value::Tag("Ok"@, seq![value])
    }

    /// `Err tag`, for the tag named `name` that has no argument.
    pub open spec fn err(name: Seq<char>) -> Value {
        Value::Tag("Err"@, seq![Value::Tag(name, seq![])])
    }
}

/// The quotient of `n` by `d`, rounded towards zero.
pub open spec fn quotient(n: int, d: int) -> int
    recommends
        d != 0,
{
    if n >= 0 && d > 0 {
        n / d
    } else if n >= 0 {
        -(n / (-d))
    } else if d > 0 {
        -((-n) / d)
    } else {
        (-n) / (-d)
    }
}

/// What the primitive named `symbol` gives on `args`.
pub open spec fn primitive(symbol: Symbol, args: Seq<Value>) -> Value {
    match symbol {
        Symbol::NUM_LT | Symbol::INT_LT => if args.len() == 2 && args[0] is Int && args[1] is Int {
            Value::Bool(args[0]->Int_0 < args[1]->Int_0)
        } else {
            Value::Stuck
        },
        Symbol::INT_NEQ_I64 => if args.len() == 2 && args[0] is Int && args[1] is Int {
            Value::Bool(args[0]->Int_0 != args[1]->Int_0)
        } else {
            Value::Stuck
        },
        Symbol::NUM_NEG => if args.len() == 1 && args[0] is Int {
            Value::Int(-args[0]->Int_0)
        } else {
            Value::Stuck
        },
        Symbol::INT_DIV_UNSAFE => if args.len() == 2 && args[0] is Int && args[1] is Int
            && args[1]->Int_0 != 0 {
            Value::Int(quotient(args[0]->Int_0, args[1]->Int_0))
        } else {
            Value::Stuck
        },
        Symbol::LIST_LEN => if args.len() == 1 && args[0] is List {
            Value::Int(args[0]->List_0.len() as int)
        } else {
            Value::Stuck
        },
        Symbol::LIST_IS_EMPTY => if args.len() == 1 && args[0] is List {
            Value::Bool(args[0]->List_0.len() == 0)
        } else {
            Value::Stuck
        },
        Symbol::LIST_GET_UNSAFE => if args.len() == 2 && args[0] is List && args[1] is Int && 0
            <= args[1]->Int_0 < args[0]->List_0.len() {
            args[0]->List_0[args[1]->Int_0]
        } else {
            Value::Stuck
        },
        _ => Value::Stuck,
    }
}

/// What the expression `syntax` is worth where the names have the worth that
/// `env` gives them.
pub open spec fn eval(syntax: Syntax, env: Map<Symbol, Value>) -> Value
    decreases syntax, (if syntax is If {
            syntax->If_branches.len() + 1
        } else {
            0
        }),
{
    match syntax {
        Syntax::Int(n) => Value::Int(n),
        Syntax::Var(symbol) => if env.dom().contains(symbol) {
            env[symbol]
        } else {
            Value::Stuck
        },
        Syntax::If { .. } => eval_branches(syntax, 0, env),
        Syntax::Call { callee, args, .. } => match *callee {
            Syntax::Var(symbol) => primitive(
                symbol,
                Seq::new(
                    args.len(),
                    |i: int|
                        if 0 <= i < args.len() {
                            eval(args[i], env)
                        } else {
                            Value::Stuck
                        },
                ),
            ),
            _ => Value::Stuck,
        },
        Syntax::Tag { name, args } => Value::Tag(
            name,
            Seq::new(
                args.len(),
                |i: int|
                    if 0 <= i < args.len() {
                        eval(args[i], env)
                    } else {
                        Value::Stuck
                    },
            ),
        ),
        Syntax::Closure { .. } => Value::Stuck,
    }
}

/// What the conditional `conditional` is worth once its branches before
/// `from` have been passed over: the worth of the first branch from there
/// whose condition holds, and that of the last branch where none holds.
pub open spec fn eval_branches(conditional: Syntax, from: nat, env: Map<Symbol, Value>) -> Value
    decreases conditional, (if conditional is If {
            conditional->If_branches.len() - from
        } else {
            0
        }),
{
    match conditional {
        Syntax::If { branches, final_else } => if from >= branches.len() {
            eval(*final_else, env)
        } else {
            match eval(branches[from as int].0, env) {
                Value::Bool(true) => eval(branches[from as int].1, env),
                Value::Bool(false) => eval_branches(conditional, from + 1, env),
                _ => Value::Stuck,
            }
        },
        _ => Value::Stuck,
    }
}

/// The worth that the first `n` of the parameters `params` give to the names
/// they bind, where they are bound to `args`.
pub open spec fn bind(params: Seq<Pattern>, args: Seq<Value>, n: nat) -> Map<Symbol, Value>
    decreases n,
{
    if n == 0 || n > params.len() || n > args.len() {
        Map::empty()
    } else {
        match params[n - 1] {
            Pattern::Identifier(symbol) => bind(params, args, (n - 1) as nat).insert(
                symbol,
                args[n - 1],
            ),
        }
    }
}

/// What the function `function` gives on `args`.
pub open spec fn apply(function: Syntax, args: Seq<Value>) -> Value {
    match function {
        Syntax::Closure { params, body, .. } => if params.len() == args.len() {
            eval(*body, bind(params, args, params.len()))
        } else {
            Value::Stuck
        },
        _ => Value::Stuck,
    }
}

/// What a conditional with one condition is worth.
proof fn lemma_eval_if_else(
    cond: Syntax,
    then_branch: Syntax,
    else_branch: Syntax,
    env: Map<Symbol, Value>,
)
    ensures
        eval(Syntax::if_else(cond, then_branch, else_branch), env) == (match eval(cond, env) {
            Value::Bool(true) => eval(then_branch, env),
            Value::Bool(false) => eval(else_branch, env),
            _ => Value::Stuck,
        }),
{
    let conditional = Syntax::if_else(cond, then_branch, else_branch);
    assert(eval(conditional, env) == eval_branches(conditional, 0, env));
    assert(eval_branches(conditional, 1, env) == eval(else_branch, env));
}

/// What the call of a primitive on one argument is worth.
proof fn lemma_eval_apply_1(symbol: Symbol, a: Syntax, env: Map<Symbol, Value>)
    ensures
        eval(Syntax::apply(symbol, seq![a]), env) == primitive(symbol, seq![eval(a, env)]),
{
    let args = seq![a];
    let values = Seq::new(
        args.len(),
        |i: int|
            if 0 <= i < args.len() {
                eval(args[i], env)
            } else {
                Value::Stuck
            },
    );
    assert(values =~= seq![eval(a, env)]);
}

/// What the call of a primitive on two arguments is worth.
proof fn lemma_eval_apply_2(symbol: Symbol, a: Syntax, b: Syntax, env: Map<Symbol, Value>)
    ensures
        eval(Syntax::apply(symbol, seq![a, b]), env) == primitive(
            symbol,
            seq![eval(a, env), eval(b, env)],
        ),
{
    let args = seq![a, b];
    let values = Seq::new(
        args.len(),
        |i: int|
            if 0 <= i < args.len() {
                eval(args[i], env)
            } else {
                Value::Stuck
            },
    );
    assert(values =~= seq![eval(a, env), eval(b, env)]);
}

/// What a tag without arguments is worth.
proof fn lemma_eval_tag_0(name: Seq<char>, env: Map<Symbol, Value>)
    ensures
        eval(Syntax::Tag { name, args: seq![] }, env) == Value::Tag(name, seq![]),
{
    let value = eval(Syntax::Tag { name, args: seq![] }, env);
    assert(value->Tag_1 =~= Seq::<Value>::empty());
}

/// What a tag with one argument is worth.
proof fn lemma_eval_tag_1(name: Seq<char>, a: Syntax, env: Map<Symbol, Value>)
    ensures
        eval(Syntax::Tag { name, args: seq![a] }, env) == Value::Tag(name, seq![eval(a, env)]),
{
    let value = eval(Syntax::Tag { name, args: seq![a] }, env);
    assert(value->Tag_1 =~= seq![eval(a, env)]);
}

/// What a function of one parameter gives.
proof fn lemma_apply_1(name: Symbol, param: Symbol, body: Syntax, a: Value)
    ensures
        apply(Syntax::function(name, seq![param], body), seq![a]) == eval(
            body,
            Map::<Symbol, Value>::empty().insert(param, a),
        ),
{
    let function = Syntax::function(name, seq![param], body);
    let params = function->Closure_params;
    assert(bind(params, seq![a], 0) == Map::<Symbol, Value>::empty());
    assert(bind(params, seq![a], 1) == Map::<Symbol, Value>::empty().insert(param, a));
}

/// What a function of two parameters gives.
proof fn lemma_apply_2(
    name: Symbol,
    param1: Symbol,
    param2: Symbol,
    body: Syntax,
    a: Value,
    b: Value,
)
    ensures
        apply(Syntax::function(name, seq![param1, param2], body), seq![a, b]) == eval(
            body,
            Map::<Symbol, Value>::empty().insert(param1, a).insert(param2, b),
        ),
{
    let function = Syntax::function(name, seq![param1, param2], body);
    let params = function->Closure_params;
    let args = seq![a, b];
    assert(bind(params, args, 0) == Map::<Symbol, Value>::empty());
    assert(bind(params, args, 1) == Map::<Symbol, Value>::empty().insert(param1, a));
    assert(bind(params, args, 2) == Map::<Symbol, Value>::empty().insert(param1, a).insert(
        param2,
        b,
    ));
}

/// `List.get` gives the element at an index below the length of the list,
/// wrapped in `Ok`, and `Err OutOfBounds` at any other index. An empty list
/// has no index below its length.
pub proof fn lemma_list_get_meaning(list: Seq<Value>, index: int)
    requires
        0 <= index,
    ensures
        apply(list_get_syntax(), seq![Value::List(list), Value::Int(index)]) == (if index
            < list.len() {
            Value::ok(list[index])
        } else {
            Value::err("OutOfBounds"@)
        }),
{
    let env = Map::<Symbol, Value>::empty().insert(
        Symbol::LIST_GET_ARG_LIST,
        Value::List(list),
    ).insert(Symbol::LIST_GET_ARG_INDEX, Value::Int(index));
    let list_var = Syntax::Var(Symbol::LIST_GET_ARG_LIST);
    let index_var = Syntax::Var(Symbol::LIST_GET_ARG_INDEX);
    let len = Syntax::apply(Symbol::LIST_LEN, seq![list_var]);
    let in_bounds = Syntax::apply(Symbol::NUM_LT, seq![index_var, len]);
    let element = Syntax::apply(Symbol::LIST_GET_UNSAFE, seq![list_var, index_var]);
    let ok = Syntax::Tag { name: "Ok"@, args: seq![element] };
    let out_of_bounds = Syntax::Tag { name: "OutOfBounds"@, args: seq![] };
    let err = Syntax::Tag { name: "Err"@, args: seq![out_of_bounds] };
    let body = Syntax::if_else(in_bounds, ok, err);
    lemma_apply_2(
        Symbol::LIST_GET,
        Symbol::LIST_GET_ARG_LIST,
        Symbol::LIST_GET_ARG_INDEX,
        body,
        Value::List(list),
        Value::Int(index),
    );
    assert(eval(list_var, env) == Value::List(list));
    assert(eval(index_var, env) == Value::Int(index));
    lemma_eval_apply_1(Symbol::LIST_LEN, list_var, env);
    lemma_eval_apply_2(Symbol::NUM_LT, index_var, len, env);
    lemma_eval_apply_2(Symbol::LIST_GET_UNSAFE, list_var, index_var, env);
    lemma_eval_tag_1("Ok"@, element, env);
    lemma_eval_tag_0("OutOfBounds"@, env);
    lemma_eval_tag_1("Err"@, out_of_bounds, env);
    lemma_eval_if_else(in_bounds, ok, err, env);
}

/// `List.first` gives `Err SequenceWasEmpty` on the empty list and the
/// element at index 0 of any other, wrapped in `Ok`.
pub proof fn lemma_list_first_meaning(list: Seq<Value>)
    ensures
        apply(list_first_syntax(), seq![Value::List(list)]) == (if list.len() == 0 {
            Value::err("SequenceWasEmpty"@)
        } else {
            Value::ok(list[0])
        }),
{
    let env = Map::<Symbol, Value>::empty().insert(Symbol::LIST_FIRST_ARG, Value::List(list));
    let list_var = Syntax::Var(Symbol::LIST_FIRST_ARG);
    let is_empty = Syntax::apply(Symbol::LIST_IS_EMPTY, seq![list_var]);
    let was_empty = Syntax::Tag { name: "SequenceWasEmpty"@, args: seq![] };
    let err = Syntax::Tag { name: "Err"@, args: seq![was_empty] };
    let element = Syntax::apply(Symbol::LIST_GET_UNSAFE, seq![list_var, Syntax::Int(0)]);
    let ok = Syntax::Tag { name: "Ok"@, args: seq![element] };
    let body = Syntax::if_else(is_empty, err, ok);
    lemma_apply_1(Symbol::LIST_FIRST, Symbol::LIST_FIRST_ARG, body, Value::List(list));
    assert(eval(list_var, env) == Value::List(list));
    assert(eval(Syntax::Int(0), env) == Value::Int(0));
    lemma_eval_apply_1(Symbol::LIST_IS_EMPTY, list_var, env);
    lemma_eval_tag_0("SequenceWasEmpty"@, env);
    lemma_eval_tag_1("Err"@, was_empty, env);
    lemma_eval_apply_2(Symbol::LIST_GET_UNSAFE, list_var, Syntax::Int(0), env);
    lemma_eval_tag_1("Ok"@, element, env);
    lemma_eval_if_else(is_empty, err, ok, env);
}

/// `Int.div` gives `Err DivByZero` where the denominator is zero, and the
/// quotient, rounded towards zero and wrapped in `Ok`, where it is not.
pub proof fn lemma_int_div_meaning(numerator: int, denominator: int)
    ensures
        apply(int_div_syntax(), seq![Value::Int(numerator), Value::Int(denominator)]) == (
        if denominator == 0 {
            Value::err("DivByZero"@)
        } else {
            Value::ok(Value::Int(quotient(numerator, denominator)))
        }),
{
    let env = Map::<Symbol, Value>::empty().insert(
        Symbol::INT_DIV_ARG_NUMERATOR,
        Value::Int(numerator),
    ).insert(Symbol::INT_DIV_ARG_DENOMINATOR, Value::Int(denominator));
    let numerator_var = Syntax::Var(Symbol::INT_DIV_ARG_NUMERATOR);
    let denominator_var = Syntax::Var(Symbol::INT_DIV_ARG_DENOMINATOR);
    let not_zero = Syntax::apply(Symbol::INT_NEQ_I64, seq![denominator_var, Syntax::Int(0)]);
    let divided = Syntax::apply(Symbol::INT_DIV_UNSAFE, seq![numerator_var, denominator_var]);
    let ok = Syntax::Tag { name: "Ok"@, args: seq![divided] };
    let div_by_zero = Syntax::Tag { name: "DivByZero"@, args: seq![] };
    let err = Syntax::Tag { name: "Err"@, args: seq![div_by_zero] };
    let body = Syntax::if_else(not_zero, ok, err);
    lemma_apply_2(
        Symbol::INT_DIV,
        Symbol::INT_DIV_ARG_NUMERATOR,
        Symbol::INT_DIV_ARG_DENOMINATOR,
        body,
        Value::Int(numerator),
        Value::Int(denominator),
    );
    assert(eval(numerator_var, env) == Value::Int(numerator));
    assert(eval(denominator_var, env) == Value::Int(denominator));
    assert(eval(Syntax::Int(0), env) == Value::Int(0));
    lemma_eval_apply_2(Symbol::INT_NEQ_I64, denominator_var, Syntax::Int(0), env);
    lemma_eval_apply_2(Symbol::INT_DIV_UNSAFE, numerator_var, denominator_var, env);
    lemma_eval_tag_1("Ok"@, divided, env);
    lemma_eval_tag_0("DivByZero"@, env);
    lemma_eval_tag_1("Err"@, div_by_zero, env);
    lemma_eval_if_else(not_zero, ok, err, env);
}

/// `Int.abs` gives the distance of an integer from zero, as a plain
/// integer.
pub proof fn lemma_int_abs_meaning(n: int)
    ensures
        apply(int_abs_syntax(), seq![Value::Int(n)]) == Value::Int(
            if n < 0 {
                -n
            } else {
                n
            },
        ),
{
    let env = Map::<Symbol, Value>::empty().insert(Symbol::INT_ABS_ARG, Value::Int(n));
    let n_var = Syntax::Var(Symbol::INT_ABS_ARG);
    let above_zero = Syntax::apply(Symbol::INT_LT, seq![Syntax::Int(0), n_var]);
    let negated = Syntax::apply(Symbol::NUM_NEG, seq![n_var]);
    let body = Syntax::if_else(above_zero, n_var, negated);
    lemma_apply_1(Symbol::INT_ABS, Symbol::INT_ABS_ARG, body, Value::Int(n));
    assert(eval(n_var, env) == Value::Int(n));
    assert(eval(Syntax::Int(0), env) == Value::Int(0));
    lemma_eval_apply_2(Symbol::INT_LT, Syntax::Int(0), n_var, env);
    lemma_eval_apply_1(Symbol::NUM_NEG, n_var, env);
    lemma_eval_if_else(above_zero, n_var, negated, env);
}

} // verus!
