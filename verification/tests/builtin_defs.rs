use roc_builtins::builder::{call, conditional, defn, no_region, tag};
use roc_builtins::builtins::{
    builtin_defs, int_abs, int_div, list_first, list_get, BUILTIN_DEFS_VARS, INT_ABS_VARS,
    INT_DIV_VARS, LIST_FIRST_VARS, LIST_GET_VARS,
};
use roc_builtins::expr::{CalledVia, Def, Expr, Pattern, Recursive, TagName};
use roc_builtins::region::{Located, Region};
use roc_builtins::subs::{VarStore, Variable};
use roc_builtins::symbol::Symbol;
use std::collections::HashSet;

/// What an expression of the builtins' language is worth.
#[derive(Clone, Debug, PartialEq)]
enum Value {
    Int(i64),
    Bool(bool),
    List(Vec<Value>),
    Tag(String, Vec<Value>),
}

fn ok(value: Value) -> Value {
    Value::Tag("Ok".to_string(), vec![value])
}

fn err(name: &str) -> Value {
    Value::Tag("Err".to_string(), vec![Value::Tag(name.to_string(), vec![])])
}

fn ints(numbers: &[i64]) -> Value {
    Value::List(numbers.iter().map(|n| Value::Int(*n)).collect())
}

fn primitive(symbol: Symbol, args: &[Value]) -> Value {
    match (symbol, args) {
        (Symbol::NUM_LT | Symbol::INT_LT, [Value::Int(a), Value::Int(b)]) => Value::Bool(a < b),
        (Symbol::INT_NEQ_I64, [Value::Int(a), Value::Int(b)]) => Value::Bool(a != b),
        (Symbol::NUM_NEG, [Value::Int(a)]) => Value::Int(-a),
        (Symbol::INT_DIV_UNSAFE, [Value::Int(a), Value::Int(b)]) => Value::Int(a / b),
        (Symbol::LIST_LEN, [Value::List(list)]) => Value::Int(list.len() as i64),
        (Symbol::LIST_IS_EMPTY, [Value::List(list)]) => Value::Bool(list.is_empty()),
        (Symbol::LIST_GET_UNSAFE, [Value::List(list), Value::Int(index)]) => {
            list[*index as usize].clone()
        }
        _ => panic!("{:?} is not defined on {:?}", symbol, args),
    }
}

fn eval(expr: &Expr, env: &[(Symbol, Value)]) -> Value {
    match expr {
        Expr::Int(_, n) => Value::Int(*n),
        Expr::Var(symbol) => match env.iter().find(|(name, _)| name == symbol) {
            Some((_, value)) => value.clone(),
            None => panic!("{:?} is not bound", symbol),
        },
        Expr::If { branches, final_else, .. } => {
            for (cond, branch) in branches {
                match eval(&cond.value, env) {
                    Value::Bool(true) => return eval(&branch.value, env),
                    Value::Bool(false) => {}
                    other => panic!("{:?} is no condition", other),
                }
            }
            eval(&final_else.value, env)
        }
        Expr::Call(head, args, _) => match &head.1.value {
            Expr::Var(symbol) => {
                let values: Vec<Value> = args.iter().map(|arg| eval(&arg.1.value, env)).collect();
                primitive(*symbol, &values)
            }
            other => panic!("{:?} is no primitive", other),
        },
        Expr::Tag { name: TagName::Global(name), arguments, .. } => Value::Tag(
            name.clone(),
            arguments.iter().map(|arg| eval(&arg.1.value, env)).collect(),
        ),
        Expr::Closure(..) => panic!("a function is not a value here"),
    }
}

/// What the function that `def` defines gives on `args`.
fn run(def: &Def, args: Vec<Value>) -> Value {
    match &def.loc_expr.value {
        Expr::Closure(_, _, _, params, body) => {
            assert_eq!(params.len(), args.len());
            let env: Vec<(Symbol, Value)> = params
                .iter()
                .zip(args)
                .map(|(param, arg)| match param.1.value {
                    Pattern::Identifier(symbol) => (symbol, arg),
                })
                .collect();
            eval(&body.0.value, &env)
        }
        other => panic!("{:?} is no function", other),
    }
}

/// Every type variable in `expr`, once for each position it stands in.
fn collect_vars(expr: &Expr, vars: &mut Vec<Variable>) {
    match expr {
        Expr::Int(var, _) => vars.push(*var),
        Expr::Var(_) => {}
        Expr::If { cond_var, branch_var, branches, final_else } => {
            vars.push(*cond_var);
            vars.push(*branch_var);
            for (cond, branch) in branches {
                collect_vars(&cond.value, vars);
                collect_vars(&branch.value, vars);
            }
            collect_vars(&final_else.value, vars);
        }
        Expr::Call(head, args, _) => {
            vars.push(head.0);
            collect_vars(&head.1.value, vars);
            vars.push(head.2);
            for (var, arg) in args {
                vars.push(*var);
                collect_vars(&arg.value, vars);
            }
        }
        Expr::Tag { variant_var, ext_var, arguments, .. } => {
            vars.push(*variant_var);
            vars.push(*ext_var);
            for (var, arg) in arguments {
                vars.push(*var);
                collect_vars(&arg.value, vars);
            }
        }
        Expr::Closure(var, _, _, params, body) => {
            vars.push(*var);
            for (param_var, _) in params {
                vars.push(*param_var);
            }
            collect_vars(&body.0.value, vars);
            vars.push(body.1);
        }
    }
}

fn def_vars(def: &Def) -> Vec<Variable> {
    let mut vars = Vec::new();
    collect_vars(&def.loc_expr.value, &mut vars);
    vars.push(def.expr_var);
    for (_, var) in &def.pattern_vars {
        vars.push(*var);
    }
    vars
}

/// Whether every region in `expr` is the one of no source text.
fn unlocated(expr: &Expr) -> bool {
    let zero = Region::zero();
    match expr {
        Expr::Int(..) | Expr::Var(_) => true,
        Expr::If { branches, final_else, .. } => {
            branches.iter().all(|(cond, branch)| {
                cond.region == zero
                    && branch.region == zero
                    && unlocated(&cond.value)
                    && unlocated(&branch.value)
            }) && final_else.region == zero
                && unlocated(&final_else.value)
        }
        Expr::Call(head, args, _) => {
            head.1.region == zero
                && unlocated(&head.1.value)
                && args.iter().all(|(_, arg)| arg.region == zero && unlocated(&arg.value))
        }
        Expr::Tag { arguments, .. } => {
            arguments.iter().all(|(_, arg)| arg.region == zero && unlocated(&arg.value))
        }
        Expr::Closure(_, _, _, params, body) => {
            params.iter().all(|(_, param)| param.region == zero)
                && body.0.region == zero
                && unlocated(&body.0.value)
        }
    }
}

fn located<T>(value: T) -> Located<T> {
    Located { region: Region::zero(), value }
}

fn fresh_defs() -> Vec<Def> {
    builtin_defs(&mut VarStore::new())
}

#[test]
fn var_store_hands_out_consecutive_variables() {
    let mut var_store = VarStore::new();
    assert_eq!(var_store.remaining(), u32::MAX);
    assert_eq!(var_store.fresh(), Variable(0));
    assert_eq!(var_store.fresh(), Variable(1));
    assert_eq!(var_store.fresh(), Variable(2));
    assert_eq!(var_store.remaining(), u32::MAX - 3);
}

#[test]
fn var_store_goes_on_from_a_given_index() {
    let mut var_store = VarStore::starting_at(40);
    assert_eq!(var_store.fresh(), Variable(40));
    assert_eq!(var_store.fresh(), Variable(41));
    assert_eq!(var_store.remaining(), u32::MAX - 42);
    let mut last = VarStore::starting_at(u32::MAX - 1);
    assert_eq!(last.remaining(), 1);
    assert_eq!(last.fresh(), Variable(u32::MAX - 1));
    assert_eq!(last.remaining(), 0);
}

#[test]
fn builtin_defs_fit_into_the_last_variables() {
    let mut var_store = VarStore::starting_at(u32::MAX - BUILTIN_DEFS_VARS);
    let defs = builtin_defs(&mut var_store);
    assert_eq!(defs.len(), 4);
    assert_eq!(var_store.remaining(), 0);
    assert_eq!(defs[3].expr_var, Variable(u32::MAX - 1));
}

#[test]
fn no_region_is_the_zero_region() {
    let located = no_region(7u8);
    assert_eq!(located.region, Region::zero());
    assert_eq!(located.value, 7);
    assert_eq!(Region::zero(), Region { start_line: 0, end_line: 0, start_col: 0, end_col: 0 });
}

#[test]
fn call_attaches_a_variable_to_each_position() {
    let mut var_store = VarStore::new();
    var_store.fresh();
    let expr = call(
        Symbol::NUM_LT,
        vec![Expr::Var(Symbol::LIST_GET_ARG_INDEX), Expr::Var(Symbol::LIST_GET_ARG_LIST)],
        &mut var_store,
    );
    let expected = Expr::Call(
        Box::new((Variable(1), located(Expr::Var(Symbol::NUM_LT)), Variable(2))),
        vec![
            (Variable(3), located(Expr::Var(Symbol::LIST_GET_ARG_INDEX))),
            (Variable(4), located(Expr::Var(Symbol::LIST_GET_ARG_LIST))),
        ],
        CalledVia::Space,
    );
    assert_eq!(expr, expected);
    assert_eq!(var_store.fresh(), Variable(5));
}

#[test]
fn call_without_arguments() {
    let mut var_store = VarStore::new();
    let expr = call(Symbol::LIST_LEN, vec![], &mut var_store);
    let expected = Expr::Call(
        Box::new((Variable(0), located(Expr::Var(Symbol::LIST_LEN)), Variable(1))),
        vec![],
        CalledVia::Space,
    );
    assert_eq!(expr, expected);
    assert_eq!(var_store.fresh(), Variable(2));
}

#[test]
fn tag_attaches_a_variable_to_each_position() {
    let mut var_store = VarStore::new();
    let expr = tag("Ok", vec![Expr::Var(Symbol::INT_ABS_ARG)], &mut var_store);
    let expected = Expr::Tag {
        variant_var: Variable(0),
        ext_var: Variable(1),
        name: TagName::Global("Ok".to_string()),
        arguments: vec![(Variable(2), located(Expr::Var(Symbol::INT_ABS_ARG)))],
    };
    assert_eq!(expr, expected);
    assert_eq!(var_store.fresh(), Variable(3));
}

#[test]
fn tag_without_arguments() {
    let mut var_store = VarStore::new();
    let expr = tag("OutOfBounds", Vec::new(), &mut var_store);
    let expected = Expr::Tag {
        variant_var: Variable(0),
        ext_var: Variable(1),
        name: TagName::Global("OutOfBounds".to_string()),
        arguments: vec![],
    };
    assert_eq!(expr, expected);
}

#[test]
fn conditional_has_one_branch_and_an_else() {
    let mut var_store = VarStore::new();
    let expr = conditional(
        Expr::Var(Symbol::LIST_FIRST_ARG),
        Expr::Var(Symbol::INT_ABS_ARG),
        Expr::Var(Symbol::INT_DIV_ARG_NUMERATOR),
        &mut var_store,
    );
    let expected = Expr::If {
        cond_var: Variable(0),
        branch_var: Variable(1),
        branches: vec![(
            located(Expr::Var(Symbol::LIST_FIRST_ARG)),
            located(Expr::Var(Symbol::INT_ABS_ARG)),
        )],
        final_else: Box::new(located(Expr::Var(Symbol::INT_DIV_ARG_NUMERATOR))),
    };
    assert_eq!(expr, expected);
    assert_eq!(var_store.fresh(), Variable(2));
}

#[test]
fn defn_wraps_the_body_in_a_closure_that_is_not_recursive() {
    let mut var_store = VarStore::new();
    let def = defn(
        Symbol::INT_DIV,
        vec![Symbol::INT_DIV_ARG_NUMERATOR, Symbol::INT_DIV_ARG_DENOMINATOR],
        &mut var_store,
        Expr::Var(Symbol::INT_DIV_ARG_NUMERATOR),
    );
    let expected = Def {
        loc_pattern: located(Pattern::Identifier(Symbol::INT_DIV)),
        loc_expr: located(Expr::Closure(
            Variable(2),
            Symbol::INT_DIV,
            Recursive::NotRecursive,
            vec![
                (Variable(0), located(Pattern::Identifier(Symbol::INT_DIV_ARG_NUMERATOR))),
                (Variable(1), located(Pattern::Identifier(Symbol::INT_DIV_ARG_DENOMINATOR))),
            ],
            Box::new((located(Expr::Var(Symbol::INT_DIV_ARG_NUMERATOR)), Variable(3))),
        )),
        expr_var: Variable(4),
        pattern_vars: vec![],
        annotation: None,
    };
    assert_eq!(def, expected);
    assert_eq!(var_store.fresh(), Variable(5));
}

#[test]
fn builtin_defs_are_get_first_div_abs() {
    let defs = fresh_defs();
    let names: Vec<Pattern> = defs.iter().map(|def| def.loc_pattern.value).collect();
    assert_eq!(
        names,
        vec![
            Pattern::Identifier(Symbol::LIST_GET),
            Pattern::Identifier(Symbol::LIST_FIRST),
            Pattern::Identifier(Symbol::INT_DIV),
            Pattern::Identifier(Symbol::INT_ABS),
        ]
    );
}

#[test]
fn builtin_defs_equal_the_single_definitions() {
    let defs = fresh_defs();
    let mut var_store = VarStore::new();
    assert_eq!(defs[0], list_get(&mut var_store));
    assert_eq!(defs[1], list_first(&mut var_store));
    assert_eq!(defs[2], int_div(&mut var_store));
    assert_eq!(defs[3], int_abs(&mut var_store));
}

#[test]
fn builtin_defs_have_no_annotation_and_no_source_text() {
    for def in fresh_defs() {
        assert_eq!(def.annotation, None);
        assert!(def.pattern_vars.is_empty());
        assert_eq!(def.loc_pattern.region, Region::zero());
        assert_eq!(def.loc_expr.region, Region::zero());
        assert!(unlocated(&def.loc_expr.value));
    }
}

#[test]
fn builtin_defs_are_closures_over_their_parameters() {
    let expected = vec![
        (Symbol::LIST_GET, vec![Symbol::LIST_GET_ARG_LIST, Symbol::LIST_GET_ARG_INDEX]),
        (Symbol::LIST_FIRST, vec![Symbol::LIST_FIRST_ARG]),
        (Symbol::INT_DIV, vec![Symbol::INT_DIV_ARG_NUMERATOR, Symbol::INT_DIV_ARG_DENOMINATOR]),
        (Symbol::INT_ABS, vec![Symbol::INT_ABS_ARG]),
    ];
    for (def, (name, params)) in fresh_defs().iter().zip(expected) {
        match &def.loc_expr.value {
            Expr::Closure(_, closure_name, recursive, closure_params, _) => {
                assert_eq!(*closure_name, name);
                assert_eq!(*recursive, Recursive::NotRecursive);
                let bound: Vec<Pattern> =
                    closure_params.iter().map(|param| param.1.value).collect();
                let wanted: Vec<Pattern> =
                    params.iter().map(|symbol| Pattern::Identifier(*symbol)).collect();
                assert_eq!(bound, wanted);
            }
            other => panic!("{:?} is no closure", other),
        }
    }
}

#[test]
fn every_def_uses_each_of_its_variables_once() {
    let mut var_store = VarStore::new();
    let mut before = var_store.remaining();
    let makers: [fn(&mut VarStore) -> Def; 4] = [list_get, list_first, int_div, int_abs];
    for make in makers {
        let def = make(&mut var_store);
        let after = var_store.remaining();
        let allocated = (before - after) as usize;
        let vars = def_vars(&def);
        let distinct: HashSet<Variable> = vars.iter().copied().collect();
        assert_eq!(vars.len(), allocated);
        assert_eq!(distinct.len(), allocated);
        before = after;
    }
}

#[test]
fn defs_take_the_stated_number_of_variables() {
    let mut var_store = VarStore::new();
    assert_eq!(def_vars(&list_get(&mut var_store)).len() as u32, LIST_GET_VARS);
    assert_eq!(def_vars(&list_first(&mut var_store)).len() as u32, LIST_FIRST_VARS);
    assert_eq!(def_vars(&int_div(&mut var_store)).len() as u32, INT_DIV_VARS);
    assert_eq!(def_vars(&int_abs(&mut var_store)).len() as u32, INT_ABS_VARS);
    assert_eq!(LIST_GET_VARS, 26);
    assert_eq!(LIST_FIRST_VARS, 22);
    assert_eq!(INT_DIV_VARS, 24);
    assert_eq!(INT_ABS_VARS, 14);
    assert_eq!(BUILTIN_DEFS_VARS, 86);
    assert_eq!(var_store.remaining(), u32::MAX - BUILTIN_DEFS_VARS);
}

#[test]
fn builtin_defs_share_no_variable() {
    let mut var_store = VarStore::starting_at(1000);
    let defs = builtin_defs(&mut var_store);
    let mut vars = Vec::new();
    for def in &defs {
        vars.extend(def_vars(def));
    }
    let distinct: HashSet<Variable> = vars.iter().copied().collect();
    assert_eq!(vars.len(), 86);
    assert_eq!(distinct.len(), 86);
    let expected: HashSet<Variable> = (1000..1086).map(Variable).collect();
    assert_eq!(distinct, expected);
    assert_eq!(var_store.fresh(), Variable(1086));
}

#[test]
fn list_get_in_bounds() {
    let def = list_get(&mut VarStore::new());
    assert_eq!(run(&def, vec![ints(&[10, 20, 30]), Value::Int(1)]), ok(Value::Int(20)));
    assert_eq!(run(&def, vec![ints(&[10, 20, 30]), Value::Int(0)]), ok(Value::Int(10)));
    assert_eq!(run(&def, vec![ints(&[10, 20, 30]), Value::Int(2)]), ok(Value::Int(30)));
}

#[test]
fn list_get_out_of_bounds() {
    let def = list_get(&mut VarStore::new());
    assert_eq!(run(&def, vec![ints(&[10, 20, 30]), Value::Int(5)]), err("OutOfBounds"));
    assert_eq!(run(&def, vec![ints(&[10, 20, 30]), Value::Int(3)]), err("OutOfBounds"));
}

#[test]
fn list_get_on_empty_list() {
    let def = list_get(&mut VarStore::new());
    assert_eq!(run(&def, vec![ints(&[]), Value::Int(0)]), err("OutOfBounds"));
}

#[test]
fn list_first_of_empty_list() {
    let def = list_first(&mut VarStore::new());
    assert_eq!(run(&def, vec![ints(&[])]), err("SequenceWasEmpty"));
}

#[test]
fn list_first_of_one_element() {
    let def = list_first(&mut VarStore::new());
    assert_eq!(run(&def, vec![ints(&[7])]), ok(Value::Int(7)));
    assert_eq!(run(&def, vec![ints(&[10, 20, 30])]), ok(Value::Int(10)));
}

#[test]
fn list_first_fails_on_the_branch_whose_condition_holds() {
    let def = list_first(&mut VarStore::new());
    let Expr::Closure(_, _, _, _, body) = &def.loc_expr.value else {
        panic!("no closure");
    };
    let Expr::If { branches, final_else, .. } = &body.0.value else {
        panic!("no conditional");
    };
    assert_eq!(branches.len(), 1);
    assert!(matches!(
        &branches[0].0.value,
        Expr::Call(head, _, _) if head.1.value == Expr::Var(Symbol::LIST_IS_EMPTY)
    ));
    assert!(matches!(
        &branches[0].1.value,
        Expr::Tag { name: TagName::Global(name), .. } if name == "Err"
    ));
    assert!(matches!(
        &final_else.value,
        Expr::Tag { name: TagName::Global(name), .. } if name == "Ok"
    ));
}

#[test]
fn list_get_succeeds_on_the_branch_whose_condition_holds() {
    let def = list_get(&mut VarStore::new());
    let Expr::Closure(_, _, _, _, body) = &def.loc_expr.value else {
        panic!("no closure");
    };
    let Expr::If { branches, final_else, .. } = &body.0.value else {
        panic!("no conditional");
    };
    assert_eq!(branches.len(), 1);
    assert!(matches!(
        &branches[0].0.value,
        Expr::Call(head, _, _) if head.1.value == Expr::Var(Symbol::NUM_LT)
    ));
    assert!(matches!(
        &branches[0].1.value,
        Expr::Tag { name: TagName::Global(name), .. } if name == "Ok"
    ));
    assert!(matches!(
        &final_else.value,
        Expr::Tag { name: TagName::Global(name), .. } if name == "Err"
    ));
}

#[test]
fn int_div_by_zero() {
    let def = int_div(&mut VarStore::new());
    assert_eq!(run(&def, vec![Value::Int(10), Value::Int(0)]), err("DivByZero"));
    assert_eq!(run(&def, vec![Value::Int(0), Value::Int(0)]), err("DivByZero"));
}

#[test]
fn int_div_by_nonzero() {
    let def = int_div(&mut VarStore::new());
    assert_eq!(run(&def, vec![Value::Int(10), Value::Int(3)]), ok(Value::Int(3)));
    assert_eq!(run(&def, vec![Value::Int(-10), Value::Int(3)]), ok(Value::Int(-3)));
    assert_eq!(run(&def, vec![Value::Int(9), Value::Int(-3)]), ok(Value::Int(-3)));
}

#[test]
fn int_abs_of_positive_negative_and_zero() {
    let def = int_abs(&mut VarStore::new());
    assert_eq!(run(&def, vec![Value::Int(5)]), Value::Int(5));
    assert_eq!(run(&def, vec![Value::Int(-5)]), Value::Int(5));
    assert_eq!(run(&def, vec![Value::Int(0)]), Value::Int(0));
}

#[test]
fn int_abs_gives_no_tag() {
    let def = int_abs(&mut VarStore::new());
    let Expr::Closure(_, _, _, _, body) = &def.loc_expr.value else {
        panic!("no closure");
    };
    let Expr::If { branches, final_else, .. } = &body.0.value else {
        panic!("no conditional");
    };
    assert_eq!(branches[0].1.value, Expr::Var(Symbol::INT_ABS_ARG));
    assert!(matches!(
        &final_else.value,
        Expr::Call(head, _, _) if head.1.value == Expr::Var(Symbol::NUM_NEG)
    ));
}
