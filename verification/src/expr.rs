//! Expressions, patterns and definitions, as far as the synthesized builtins
//! need them.
//!
//! An expression holds a type variable in each position whose type inference
//! has to find, and a region beside each of its parts. What it says apart
//! from those is its `Syntax`.

use crate::region::{Located, Region};
use crate::subs::Variable;
use crate::symbol::Symbol;
use vstd::prelude::*;

verus! {

/// The name of a tag of a tag union.
#[derive(Clone, PartialEq, Eq, Debug)]
pub enum TagName {
    /// A tag that any module can write, such as `Ok`.
    Global(String),
}

impl View for TagName {
    type V = Seq<char>;

    open spec fn view(&self) -> Seq<char> {
        match self {
            TagName::Global(name) => name@,
        }
    }
}

/// How a call was written.
#[derive(Clone, Copy, PartialEq, Eq, Structural, Hash, Debug)]
pub enum CalledVia {
    /// The function, a space, and its arguments.
    Space,
    /// A binary operator between its two arguments.
    BinOp,
    /// A unary operator before its argument.
    UnaryOp,
}

/// Whether a closure calls itself.
#[derive(Clone, Copy, PartialEq, Eq, Structural, Hash, Debug)]
pub enum Recursive {
    NotRecursive,
    Recursive,
    TailRecursive,
}

/// A pattern that a value is bound by.
#[derive(Clone, Copy, PartialEq, Eq, Structural, Hash, Debug)]
pub enum Pattern {
    /// The pattern that binds any value to a name.
    Identifier(Symbol),
}

/// An expression, with a type variable in each position whose type is
/// inferred.
#[derive(PartialEq, Eq, Debug)]
pub enum Expr {
    /// An integer literal and the variable of its type.
    Int(Variable, i64),
    /// A reference to a name.
    Var(Symbol),
    /// A conditional: the branches are tried in order, and the first one
    /// whose condition holds gives the value; `final_else` gives it when
    /// none holds.
    If {
        cond_var: Variable,
        branch_var: Variable,
        branches: Vec<(Located<Expr>, Located<Expr>)>,
        final_else: Box<Located<Expr>>,
    },
    /// A call: the variable of the function's type, the function, and the
    /// variable of the result's type; then each argument with the variable
    /// of its type.
    Call(Box<(Variable, Located<Expr>, Variable)>, Vec<(Variable, Located<Expr>)>, CalledVia),
    /// A tag applied to its arguments. `ext_var` stands for the rest of the
    /// open union that the tag belongs to.
    Tag {
        variant_var: Variable,
        ext_var: Variable,
        name: TagName,
        arguments: Vec<(Variable, Located<Expr>)>,
    },
    /// A function: the variable of its type, its name, its parameters, each
    /// with the variable of its type, and its body with the variable of the
    /// body's type.
    Closure(
        Variable,
        Symbol,
        Recursive,
        Vec<(Variable, Located<Pattern>)>,
        Box<(Located<Expr>, Variable)>,
    ),
}

/// A type signature that source text gives for a definition.
#[derive(Clone, PartialEq, Eq, Debug)]
pub struct Annotation {
    pub signature: String,
}

/// A top-level definition: a pattern and the expression bound by it.
#[derive(PartialEq, Eq, Debug)]
pub struct Def {
    pub loc_pattern: Located<Pattern>,
    pub loc_expr: Located<Expr>,
    /// The variable of the type of `loc_expr`.
    pub expr_var: Variable,
    /// The names that the pattern binds, each with the variable of its type.
    pub pattern_vars: Vec<(Symbol, Variable)>,
    /// The signature written for the definition. Where there is none, the
    /// type is inferred.
    pub annotation: Option<Annotation>,
}

/// What an expression says once its type variables and regions are left
/// out.
#[allow(inconsistent_fields)]
pub enum Syntax {
    Int(int),
    Var(Symbol),
    If { branches: Seq<(Syntax, Syntax)>, final_else: Box<Syntax> },
    Call { callee: Box<Syntax>, args: Seq<Syntax>, called_via: CalledVia },
    Tag { name: Seq<char>, args: Seq<Syntax> },
    Closure { name: Symbol, recursive: Recursive, params: Seq<Pattern>, body: Box<Syntax> },
}

impl Syntax {
    /// The call of the function named `symbol` on `args`, written with a
    /// space.
    pub open spec fn apply(symbol: Symbol, args: Seq<Syntax>) -> Syntax {
        Syntax::Call {
            callee: Box::new(Syntax::Var(symbol)),
            args,
            called_via: CalledVia::Space,
        }
    }

    /// The conditional with one condition.
    pub open spec fn if_else(cond: Syntax, then_branch: Syntax, else_branch: Syntax) -> Syntax {
        Syntax::If { branches: seq![(cond, then_branch)], final_else: Box::new(else_branch) }
    }

    /// The function named `name` that is not recursive, binds its arguments
    /// to the names `params` and has the body `body`.
    pub open spec fn function(name: Symbol, params: Seq<Symbol>, body: Syntax) -> Syntax {
        Syntax::Closure {
            name,
            recursive: Recursive::NotRecursive,
            params: Seq::new(params.len(), |i: int| Pattern::Identifier(params[i])),
            body: Box::new(body),
        }
    }
}

/// 1 if the two variables are the same, else 0.
pub open spec fn one_if_same(a: Variable, b: Variable) -> nat {
    if a == b {
        1
    } else {
        0
    }
}

impl Expr {
    /// What the expression says once its type variables and regions are left
    /// out.
    pub open spec fn syntax(self) -> Syntax
        decreases self,
    {
        match self {
            Expr::Int(_, n) => Syntax::Int(n as int),
            Expr::Var(symbol) => Syntax::Var(symbol),
            Expr::If { cond_var, branch_var, branches, final_else } => Syntax::If {
                branches: Seq::new(
                    branches@.len(),
                    |i: int|
                        if 0 <= i < branches@.len() {
                            (branches@[i].0.value.syntax(), branches@[i].1.value.syntax())
                        } else {
                            arbitrary()
                        },
                ),
                final_else: Box::new(final_else.value.syntax()),
            },
            Expr::Call(head, args, called_via) => Syntax::Call {
                callee: Box::new(head.1.value.syntax()),
                args: Seq::new(
                    args@.len(),
                    |i: int|
                        if 0 <= i < args@.len() {
                            args@[i].1.value.syntax()
                        } else {
                            arbitrary()
                        },
                ),
                called_via,
            },
            Expr::Tag { variant_var, ext_var, name, arguments } => Syntax::Tag {
                name: name@,
                args: Seq::new(
                    arguments@.len(),
                    |i: int|
                        if 0 <= i < arguments@.len() {
                            arguments@[i].1.value.syntax()
                        } else {
                            arbitrary()
                        },
                ),
            },
            Expr::Closure(_, name, recursive, params, body) => Syntax::Closure {
                name,
                recursive,
                params: Seq::new(params@.len(), |i: int| params@[i].1.value),
                body: Box::new(body.0.value.syntax()),
            },
        }
    }

    /// Whether every part of the expression stands at the region of syntax
    /// that has no source text.
    pub open spec fn unlocated(self) -> bool
        decreases self,
    {
        match self {
            Expr::Int(_, _) => true,
            Expr::Var(_) => true,
            Expr::If { cond_var, branch_var, branches, final_else } => {
                &&& forall|i: int|
                    0 <= i < branches@.len() ==> {
                        &&& (#[trigger] branches@[i]).0.region == Region::zero()
                        &&& branches@[i].0.value.unlocated()
                        &&& branches@[i].1.region == Region::zero()
                        &&& branches@[i].1.value.unlocated()
                    }
                &&& final_else.region == Region::zero()
                &&& final_else.value.unlocated()
            },
            Expr::Call(head, args, _) => {
                &&& head.1.region == Region::zero()
                &&& head.1.value.unlocated()
                &&& forall|i: int|
                    0 <= i < args@.len() ==> {
                        &&& (#[trigger] args@[i]).1.region == Region::zero()
                        &&& args@[i].1.value.unlocated()
                    }
            },
            Expr::Tag { variant_var, ext_var, name, arguments } => {
                forall|i: int|
                    0 <= i < arguments@.len() ==> {
                        &&& (#[trigger] arguments@[i]).1.region == Region::zero()
                        &&& arguments@[i].1.value.unlocated()
                    }
            },
            Expr::Closure(_, _, _, params, body) => {
                &&& forall|i: int|
                    0 <= i < params@.len() ==> (#[trigger] params@[i]).1.region == Region::zero()
                &&& body.0.region == Region::zero()
                &&& body.0.value.unlocated()
            },
        }
    }

    /// How many times the type variable `var` occurs in the expression.
    pub open spec fn occurrences(self, var: Variable) -> nat
        decreases self, 0nat,
    {
        match self {
            Expr::Int(v, _) => one_if_same(v, var),
            Expr::Var(_) => 0,
            Expr::If { cond_var, branch_var, branches, final_else } => {
                one_if_same(cond_var, var) + one_if_same(branch_var, var)
                    + Expr::occurrences_in_branches(branches@, branches@.len(), var)
                    + final_else.value.occurrences(var)
            },
            Expr::Call(head, args, _) => {
                one_if_same(head.0, var) + head.1.value.occurrences(var) + one_if_same(head.2, var)
                    + Expr::occurrences_in_args(args@, args@.len(), var)
            },
            Expr::Tag { variant_var, ext_var, name, arguments } => {
                one_if_same(variant_var, var) + one_if_same(ext_var, var)
                    + Expr::occurrences_in_args(arguments@, arguments@.len(), var)
            },
            Expr::Closure(v, _, _, params, body) => {
                one_if_same(v, var) + occurrences_in_params(params@, params@.len(), var)
                    + body.0.value.occurrences(var) + one_if_same(body.1, var)
            },
        }
    }

    /// How many times `var` occurs in the first `n` of the arguments, each
    /// counted with the variable of its type.
    pub open spec fn occurrences_in_args(
        args: Seq<(Variable, Located<Expr>)>,
        n: nat,
        var: Variable,
    ) -> nat
        decreases args, n,
    {
        if n == 0 || n > args.len() {
            0
        } else {
            Expr::occurrences_in_args(args, (n - 1) as nat, var)
                + one_if_same(args[n - 1].0, var)
                + args[n - 1].1.value.occurrences(var)
        }
    }

    /// How many times `var` occurs in the first `n` of the branches.
    pub open spec fn occurrences_in_branches(
        branches: Seq<(Located<Expr>, Located<Expr>)>,
        n: nat,
        var: Variable,
    ) -> nat
        decreases branches, n,
    {
        if n == 0 || n > branches.len() {
            0
        } else {
            Expr::occurrences_in_branches(branches, (n - 1) as nat, var)
                + branches[n - 1].0.value.occurrences(var)
                + branches[n - 1].1.value.occurrences(var)
        }
    }
}

impl Def {
    /// How many times the type variable `var` occurs in the definition.
    pub open spec fn occurrences(self, var: Variable) -> nat {
        self.loc_expr.value.occurrences(var) + one_if_same(self.expr_var, var)
            + occurrences_in_pattern_vars(self.pattern_vars@, self.pattern_vars@.len(), var)
    }

    /// The type variables that occur in the definition.
    pub open spec fn vars(self) -> Set<Variable> {
        Set::new(|var: Variable| self.occurrences(var) > 0)
    }

    /// Whether every part of the definition stands at the region of syntax
    /// that has no source text.
    pub open spec fn unlocated(self) -> bool {
        &&& self.loc_pattern.region == Region::zero()
        &&& self.loc_expr.region == Region::zero()
        &&& self.loc_expr.value.unlocated()
    }
}

/// How many times `var` occurs among the variables of the first `n` of the
/// names that a pattern binds.
pub open spec fn occurrences_in_pattern_vars(
    pattern_vars: Seq<(Symbol, Variable)>,
    n: nat,
    var: Variable,
) -> nat
    decreases n,
{
    if n == 0 || n > pattern_vars.len() {
        0
    } else {
        occurrences_in_pattern_vars(pattern_vars, (n - 1) as nat, var)
            + one_if_same(pattern_vars[n - 1].1, var)
    }
}

/// How many times `var` occurs among the variables of the first `n` of the
/// parameters.
pub open spec fn occurrences_in_params(
    params: Seq<(Variable, Located<Pattern>)>,
    n: nat,
    var: Variable,
) -> nat
    decreases n,
{
    if n == 0 || n > params.len() {
        0
    } else {
        occurrences_in_params(params, (n - 1) as nat, var) + one_if_same(params[n - 1].0, var)
    }
}

} // verus!
