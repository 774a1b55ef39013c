//! The executable translation, verified against [`crate::model`].
//!
//! Every `from` constructor returns exactly the value of the corresponding
//! model function on its input node: the same typed tree on success, the
//! same fault on the first malformed node. Translation is fail-fast — the
//! first fault is returned outward through every recursive call and no
//! partial tree survives it.

use vstd::prelude::*;

use crate::ast::ArrayExpression;
use crate::ast::BooleanExpression;
use crate::ast::Case;
use crate::ast::CaseV;
use crate::ast::Contract;
use crate::ast::ContractV;
use crate::ast::Fault;
use crate::ast::Function;
use crate::ast::FunctionV;
use crate::ast::Signature;
use crate::ast::StateVariable;
use crate::ast::StateVariableV;
use crate::ast::Type;
use crate::ast::UintExpression;
use crate::ast::Variable;
use crate::ast::VariableV;
use crate::model;
use crate::model::FnScan;
use crate::node::Node;
use crate::node::Rule;

verus! {

impl Type {
    /// The sort a single sort-token node denotes.
    pub fn from(n: &Node) -> (r: Result<Type, Fault>)
        ensures
            r == model::sort_from(*n),
    {
        if n.rule != Rule::LogikonType {
            Err(Fault::MalformedNode)
        } else if n.has_text("Uint") {
            Ok(Type::Uint)
        } else if n.has_text("Bool") {
            Ok(Type::Bool)
        } else if n.has_text("List") {
            Ok(Type::List)
        } else if n.has_text("Array") {
            Ok(Type::Array)
        } else {
            Err(Fault::UnrecognizedSort)
        }
    }
}

impl Variable {
    /// An as yet untyped variable named by `n`'s matched text.
    pub fn from(n: &Node) -> (v: Variable)
        ensures
            v.deep_view() == (VariableV { name: n.text@, _type: Type::Unknown }),
    {
        Variable { name: n.text.clone(), _type: Type::Unknown }
    }
}

/// The declared sort of `name` in the environment: the sort of its first
/// binding, or `Unknown` where it is unbound.
#[verifier::loop_isolation(false)]
fn lookup_sort(env: &Vec<Variable>, name: &String) -> (t: Type)
    ensures
        t == model::lookup(env.deep_view(), name@),
{
    proof {
        assert(env.deep_view().skip(0) =~= env.deep_view());
    }
    let mut i: usize = 0;
    while i < env.len()
        invariant
            i <= env.len(),
            model::lookup(env.deep_view(), name@) == model::lookup(
                env.deep_view().skip(i as int),
                name@,
            ),
        decreases env.len() - i,
    {
        if env[i].name == *name {
            return env[i]._type;
        }
        proof {
            assert(env.deep_view().skip(i as int).drop_first() =~= env.deep_view().skip(
                i as int + 1,
            ));
        }
        i += 1;
    }
    Type::Unknown
}

/// The sort that directs equality dispatch: the declared sort of the first
/// operand's identifier, or `Unknown` where that operand is not one.
fn head_sort_of(n: &Node, env: &Vec<Variable>) -> (t: Type)
    ensures
        t == model::head_sort(*n, env.deep_view()),
{
    if n.rule == Rule::Statement && n.children.len() >= 1 && n.children[0].rule
        == Rule::Identifier {
        lookup_sort(env, &n.children[0].text)
    } else {
        Type::Unknown
    }
}

/// The comparison expression a relational operator token builds.
fn comparison(op: &Node, x: UintExpression, y: UintExpression) -> (r: BooleanExpression)
    requires
        model::is_comparison(op.text@),
    ensures
        r == model::comparison_expr(op.text@, x, y),
{
    if op.has_text("<") {
        BooleanExpression::Lt(Box::new(x), Box::new(y))
    } else if op.has_text(">") {
        BooleanExpression::Gt(Box::new(x), Box::new(y))
    } else if op.has_text("<=") {
        BooleanExpression::Le(Box::new(x), Box::new(y))
    } else {
        BooleanExpression::Ge(Box::new(x), Box::new(y))
    }
}

/// The arithmetic expression an arithmetic operator token builds.
fn arithmetic(op: &Node, x: UintExpression, y: UintExpression) -> (r: UintExpression)
    requires
        model::is_arithmetic(op.text@),
    ensures
        r == model::arithmetic_expr(op.text@, x, y),
{
    if op.has_text("+") {
        UintExpression::Plus(Box::new(x), Box::new(y))
    } else if op.has_text("-") {
        UintExpression::Minus(Box::new(x), Box::new(y))
    } else if op.has_text("*") {
        UintExpression::Times(Box::new(x), Box::new(y))
    } else {
        UintExpression::Div(Box::new(x), Box::new(y))
    }
}

impl BooleanExpression {
    /// Build the Boolean-sorted expression a statement node denotes.
    ///
    /// The caller chose Boolean context; `env` (the case's parameters and
    /// return variables, typed from the declared signature) only directs
    /// which variants `=` and `!=` select.
    pub fn from(n: &Node, env: &Vec<Variable>) -> (r: Result<BooleanExpression, Fault>)
        ensures
            r == model::build_bool(*n, env.deep_view()),
        decreases *n,
    {
        if n.rule != Rule::Statement || n.children.len() == 0 {
            return Err(Fault::MalformedNode);
        }
        let op = &n.children[0];
        match op.rule {
            Rule::Identifier => {
                if n.children.len() == 1 {
                    Ok(BooleanExpression::Identifier(op.text.clone()))
                } else {
                    Err(Fault::MalformedNode)
                }
            },
            Rule::Statement => {
                if n.children.len() == 1 {
                    BooleanExpression::from(op, env)
                } else {
                    Err(Fault::MalformedNode)
                }
            },
            Rule::UnaryOp => {
                if n.children.len() != 2 {
                    Err(Fault::ArityMismatch)
                } else if op.has_text("not") {
                    match BooleanExpression::from(&n.children[1], env) {
                        Ok(x) => Ok(BooleanExpression::Not(Box::new(x))),
                        Err(f) => Err(f),
                    }
                } else {
                    Err(Fault::UnknownOperator)
                }
            },
            Rule::BinaryOp => {
                if n.children.len() != 3 {
                    return Err(Fault::ArityMismatch);
                }
                if op.has_text("<") || op.has_text(">") || op.has_text("<=") || op.has_text(">=") {
                    match UintExpression::from(&n.children[1], env) {
                        Err(f) => Err(f),
                        Ok(x) => match UintExpression::from(&n.children[2], env) {
                            Err(f) => Err(f),
                            Ok(y) => Ok(comparison(op, x, y)),
                        },
                    }
                } else if op.has_text("=") || op.has_text("!=") {
                    let takes_eq = op.has_text("=");
                    if head_sort_of(&n.children[1], env) == Type::Uint {
                        match UintExpression::from(&n.children[1], env) {
                            Err(f) => Err(f),
                            Ok(x) => match UintExpression::from(&n.children[2], env) {
                                Err(f) => Err(f),
                                Ok(y) => Ok(
                                    if takes_eq {
                                        BooleanExpression::EqUint(Box::new(x), Box::new(y))
                                    } else {
                                        BooleanExpression::NeUint(Box::new(x), Box::new(y))
                                    },
                                ),
                            },
                        }
                    } else {
                        match BooleanExpression::from(&n.children[1], env) {
                            Err(f) => Err(f),
                            Ok(x) => match BooleanExpression::from(&n.children[2], env) {
                                Err(f) => Err(f),
                                Ok(y) => Ok(
                                    if takes_eq {
                                        BooleanExpression::EqBool(Box::new(x), Box::new(y))
                                    } else {
                                        BooleanExpression::NeBool(Box::new(x), Box::new(y))
                                    },
                                ),
                            },
                        }
                    }
                } else {
                    Err(Fault::UnknownOperator)
                }
            },
            Rule::TernaryOp => {
                if n.children.len() != 4 {
                    Err(Fault::ArityMismatch)
                } else if op.has_text("ite") {
                    match BooleanExpression::from(&n.children[1], env) {
                        Err(f) => Err(f),
                        Ok(c) => match BooleanExpression::from(&n.children[2], env) {
                            Err(f) => Err(f),
                            Ok(x) => match BooleanExpression::from(&n.children[3], env) {
                                Err(f) => Err(f),
                                Ok(y) => Ok(
                                    BooleanExpression::Ite(Box::new(c), Box::new(x), Box::new(y)),
                                ),
                            },
                        },
                    }
                } else {
                    Err(Fault::UnknownOperator)
                }
            },
            _ => Err(Fault::MalformedNode),
        }
    }
}

impl UintExpression {
    /// Build the unsigned-integer-sorted expression a statement node denotes.
    pub fn from(n: &Node, env: &Vec<Variable>) -> (r: Result<UintExpression, Fault>)
        ensures
            r == model::build_uint(*n, env.deep_view()),
        decreases *n,
    {
        if n.rule != Rule::Statement || n.children.len() == 0 {
            return Err(Fault::MalformedNode);
        }
        let op = &n.children[0];
        match op.rule {
            Rule::Identifier => {
                if n.children.len() == 1 {
                    Ok(UintExpression::Identifier(op.text.clone()))
                } else {
                    Err(Fault::MalformedNode)
                }
            },
            Rule::Statement => {
                if n.children.len() == 1 {
                    UintExpression::from(op, env)
                } else {
                    Err(Fault::MalformedNode)
                }
            },
            Rule::UnaryOp => {
                if n.children.len() != 2 {
                    Err(Fault::ArityMismatch)
                } else {
                    Err(Fault::UnknownOperator)
                }
            },
            Rule::BinaryOp => {
                if n.children.len() != 3 {
                    return Err(Fault::ArityMismatch);
                }
                if op.has_text("+") || op.has_text("-") || op.has_text("*") || op.has_text("/") {
                    match UintExpression::from(&n.children[1], env) {
                        Err(f) => Err(f),
                        Ok(x) => match UintExpression::from(&n.children[2], env) {
                            Err(f) => Err(f),
                            Ok(y) => Ok(arithmetic(op, x, y)),
                        },
                    }
                } else if op.has_text("select") {
                    match ArrayExpression::from(&n.children[1], env) {
                        Err(f) => Err(f),
                        Ok(x) => match UintExpression::from(&n.children[2], env) {
                            Err(f) => Err(f),
                            Ok(y) => Ok(UintExpression::Select(Box::new(x), Box::new(y))),
                        },
                    }
                } else {
                    Err(Fault::UnknownOperator)
                }
            },
            Rule::TernaryOp => {
                if n.children.len() != 4 {
                    Err(Fault::ArityMismatch)
                } else if op.has_text("ite") {
                    match BooleanExpression::from(&n.children[1], env) {
                        Err(f) => Err(f),
                        Ok(c) => match UintExpression::from(&n.children[2], env) {
                            Err(f) => Err(f),
                            Ok(x) => match UintExpression::from(&n.children[3], env) {
                                Err(f) => Err(f),
                                Ok(y) => Ok(
                                    UintExpression::Ite(Box::new(c), Box::new(x), Box::new(y)),
                                ),
                            },
                        },
                    }
                } else {
                    Err(Fault::UnknownOperator)
                }
            },
            _ => Err(Fault::MalformedNode),
        }
    }
}

impl ArrayExpression {
    /// Build the array-sorted expression a statement node denotes.
    pub fn from(n: &Node, env: &Vec<Variable>) -> (r: Result<ArrayExpression, Fault>)
        ensures
            r == model::build_array(*n, env.deep_view()),
        decreases *n,
    {
        if n.rule != Rule::Statement || n.children.len() == 0 {
            return Err(Fault::MalformedNode);
        }
        let op = &n.children[0];
        match op.rule {
            Rule::Identifier => {
                if n.children.len() == 1 {
                    Ok(ArrayExpression::Identifier(op.text.clone()))
                } else {
                    Err(Fault::MalformedNode)
                }
            },
            Rule::Statement => {
                if n.children.len() == 1 {
                    ArrayExpression::from(op, env)
                } else {
                    Err(Fault::MalformedNode)
                }
            },
            Rule::UnaryOp => {
                if n.children.len() != 2 {
                    Err(Fault::ArityMismatch)
                } else {
                    Err(Fault::UnknownOperator)
                }
            },
            Rule::BinaryOp => {
                if n.children.len() != 3 {
                    Err(Fault::ArityMismatch)
                } else {
                    Err(Fault::UnknownOperator)
                }
            },
            Rule::TernaryOp => {
                if n.children.len() != 4 {
                    Err(Fault::ArityMismatch)
                } else if op.has_text("store") {
                    match ArrayExpression::from(&n.children[1], env) {
                        Err(f) => Err(f),
                        Ok(a) => match UintExpression::from(&n.children[2], env) {
                            Err(f) => Err(f),
                            Ok(x) => match UintExpression::from(&n.children[3], env) {
                                Err(f) => Err(f),
                                Ok(y) => Ok(
                                    ArrayExpression::Store(Box::new(a), Box::new(x), Box::new(y)),
                                ),
                            },
                        },
                    }
                } else {
                    Err(Fault::UnknownOperator)
                }
            },
            _ => Err(Fault::MalformedNode),
        }
    }
}

/// The names declared by a parameter-list node, in order; every child must
/// be an identifier.
#[verifier::loop_isolation(false)]
fn names_of_list(n: &Node) -> (r: Result<Vec<String>, Fault>)
    ensures
        r matches Ok(v) ==> model::list_names(*n) == Ok::<Seq<Seq<char>>, Fault>(v.deep_view()),
        r matches Err(f) ==> model::list_names(*n) == Err::<Seq<Seq<char>>, Fault>(f),
{
    if n.rule != Rule::ParameterList {
        return Err(Fault::MalformedNode);
    }
    let mut out: Vec<String> = Vec::new();
    proof {
        assert(out.deep_view() =~= Seq::<Seq<char>>::empty());
    }
    let mut i: usize = 0;
    while i < n.children.len()
        invariant
            i <= n.children@.len(),
            model::names_from(*n, i as int, out.deep_view()) == model::names_from(
                *n,
                0,
                Seq::<Seq<char>>::empty(),
            ),
        decreases n.children@.len() - i,
    {
        let c = &n.children[i];
        if c.rule != Rule::Identifier {
            return Err(Fault::MalformedNode);
        }
        let ghost pre = out.deep_view();
        out.push(c.text.clone());
        proof {
            assert(out.deep_view() =~= pre.push(c.text@));
        }
        i += 1;
    }
    Ok(out)
}

/// The ordered sorts declared by a type-list node.
#[verifier::loop_isolation(false)]
fn sorts_of_list(n: &Node) -> (r: Result<Vec<Type>, Fault>)
    ensures
        r matches Ok(v) ==> model::list_sorts(*n) == Ok::<Seq<Type>, Fault>(v@),
        r matches Err(f) ==> model::list_sorts(*n) == Err::<Seq<Type>, Fault>(f),
{
    if n.rule != Rule::TypeList {
        return Err(Fault::MalformedNode);
    }
    let mut out: Vec<Type> = Vec::new();
    let mut i: usize = 0;
    while i < n.children.len()
        invariant
            i <= n.children@.len(),
            model::sorts_from(*n, i as int, out@) == model::sorts_from(
                *n,
                0,
                Seq::<Type>::empty(),
            ),
        decreases n.children@.len() - i,
    {
        match Type::from(&n.children[i]) {
            Err(f) => {
                return Err(f);
            },
            Ok(t) => {
                out.push(t);
            },
        }
        i += 1;
    }
    Ok(out)
}

/// Positional bindings of names to sorts, cut to the shorter list.
#[verifier::loop_isolation(false)]
fn typed_env_vec(names: &Vec<String>, sorts: &Vec<Type>) -> (r: Vec<Variable>)
    ensures
        r.deep_view() == model::typed_env(names.deep_view(), sorts@),
{
    let k: usize = if names.len() <= sorts.len() {
        names.len()
    } else {
        sorts.len()
    };
    let mut out: Vec<Variable> = Vec::new();
    let mut i: usize = 0;
    while i < k
        invariant
            i <= k,
            k <= names@.len() && k <= sorts@.len(),
            k == model::typed_env(names.deep_view(), sorts@).len(),
            out.deep_view().len() == i as int,
            forall|j: int|
                0 <= j < i as int ==> out.deep_view()[j] == (VariableV {
                    name: names.deep_view()[j],
                    _type: sorts@[j],
                }),
        decreases k - i,
    {
        let ghost pre = out.deep_view();
        out.push(Variable { name: names[i].clone(), _type: sorts[i] });
        proof {
            assert(out.deep_view() =~= pre.push(
                VariableV { name: names.deep_view()[i as int], _type: sorts@[i as int] },
            ));
        }
        i += 1;
    }
    proof {
        assert(out.deep_view() =~= model::typed_env(names.deep_view(), sorts@));
    }
    out
}

/// The given names as variables of sort `Unknown`.
#[verifier::loop_isolation(false)]
fn untyped_vars_vec(names: &Vec<String>) -> (r: Vec<Variable>)
    ensures
        r.deep_view() == model::untyped_vars(names.deep_view()),
{
    let mut out: Vec<Variable> = Vec::new();
    let mut i: usize = 0;
    while i < names.len()
        invariant
            i <= names@.len(),
            out.deep_view().len() == i as int,
            forall|j: int|
                0 <= j < i as int ==> out.deep_view()[j] == (VariableV {
                    name: names.deep_view()[j],
                    _type: Type::Unknown,
                }),
        decreases names@.len() - i,
    {
        let ghost pre = out.deep_view();
        out.push(Variable { name: names[i].clone(), _type: Type::Unknown });
        proof {
            assert(out.deep_view() =~= pre.push(
                VariableV { name: names.deep_view()[i as int], _type: Type::Unknown },
            ));
        }
        i += 1;
    }
    proof {
        assert(out.deep_view() =~= model::untyped_vars(names.deep_view()));
    }
    out
}

/// The Boolean expressions of the statements of a case body, in order.
#[verifier::loop_isolation(false)]
fn body_exprs(body: &Node, env: &Vec<Variable>) -> (r: Result<Vec<BooleanExpression>, Fault>)
    ensures
        r matches Ok(v) ==> model::body_from(
            *body,
            env.deep_view(),
            0,
            Seq::<BooleanExpression>::empty(),
        ) == Ok::<Seq<BooleanExpression>, Fault>(v.deep_view()),
        r matches Err(f) ==> model::body_from(
            *body,
            env.deep_view(),
            0,
            Seq::<BooleanExpression>::empty(),
        ) == Err::<Seq<BooleanExpression>, Fault>(f),
{
    let mut out: Vec<BooleanExpression> = Vec::new();
    proof {
        assert(out.deep_view() =~= Seq::<BooleanExpression>::empty());
    }
    let mut i: usize = 0;
    while i < body.children.len()
        invariant
            i <= body.children@.len(),
            model::body_from(*body, env.deep_view(), i as int, out.deep_view())
                == model::body_from(
                *body,
                env.deep_view(),
                0,
                Seq::<BooleanExpression>::empty(),
            ),
        decreases body.children@.len() - i,
    {
        match BooleanExpression::from(&body.children[i], env) {
            Err(f) => {
                return Err(f);
            },
            Ok(e) => {
                let ghost pre = out.deep_view();
                let ghost ev = e;
                out.push(e);
                proof {
                    assert(out.deep_view() =~= pre.push(ev));
                }
            },
        }
        i += 1;
    }
    Ok(out)
}

impl Case {
    /// The untyped case a case node denotes: one parameter list, one
    /// return-variable list, then at most one body. The declared signature
    /// is taken only to type the environment that directs equality
    /// dispatch inside the body; the produced variables stay `Unknown`
    /// until the function assembler re-annotates them.
    pub fn from(n: &Node, inputs: &Vec<Type>, outputs: &Vec<Type>) -> (r: Result<Case, Fault>)
        ensures
            r matches Ok(c) ==> model::case_from(*n, inputs@, outputs@) == Ok::<CaseV, Fault>(
                c.deep_view(),
            ),
            r matches Err(f) ==> model::case_from(*n, inputs@, outputs@) == Err::<CaseV, Fault>(f),
    {
        if n.rule != Rule::Case {
            return Err(Fault::MalformedNode);
        }
        if !(n.children.len() == 2 || n.children.len() == 3) {
            return Err(Fault::MalformedNode);
        }
        let pnames = match names_of_list(&n.children[0]) {
            Ok(v) => v,
            Err(f) => {
                return Err(f);
            },
        };
        let rnames = match names_of_list(&n.children[1]) {
            Ok(v) => v,
            Err(f) => {
                return Err(f);
            },
        };
        let mut env = typed_env_vec(&pnames, inputs);
        let mut renv = typed_env_vec(&rnames, outputs);
        env.append(&mut renv);
        proof {
            assert(env.deep_view() =~= model::case_env(
                pnames.deep_view(),
                rnames.deep_view(),
                inputs@,
                outputs@,
            ));
        }
        let expressions: Vec<BooleanExpression> = if n.children.len() == 3 {
            let body = &n.children[2];
            if body.rule != Rule::CaseBody {
                return Err(Fault::MalformedNode);
            }
            match body_exprs(body, &env) {
                Err(f) => {
                    return Err(f);
                },
                Ok(es) => es,
            }
        } else {
            let empty_body: Vec<BooleanExpression> = Vec::new();
            proof {
                assert(empty_body.deep_view() =~= Seq::<BooleanExpression>::empty());
            }
            empty_body
        };
        let parameters = untyped_vars_vec(&pnames);
        let return_values = untyped_vars_vec(&rnames);
        Ok(Case { parameters, expressions, return_values })
    }
}

/// One case re-annotated from the signature: parameter `i` takes the sort
/// of input `i`, return variable `j` the sort of output `j`. An empty
/// case — no parameters and no return variables — binds nothing and
/// passes through unchanged; any other count that disagrees with the
/// signature is an `ArityMismatch`, never a truncation or padding.
#[verifier::loop_isolation(false)]
fn retype_one(c: Case, inputs: &Vec<Type>, outputs: &Vec<Type>) -> (r: Result<Case, Fault>)
    ensures
        r matches Ok(rc) ==> model::retype_case(c.deep_view(), inputs@, outputs@) == Ok::<
            CaseV,
            Fault,
        >(rc.deep_view()),
        r matches Err(f) ==> model::retype_case(c.deep_view(), inputs@, outputs@) == Err::<
            CaseV,
            Fault,
        >(f),
{
    if c.parameters.len() == 0 && c.return_values.len() == 0 {
        return Ok(c);
    }
    if c.parameters.len() != inputs.len() || c.return_values.len() != outputs.len() {
        return Err(Fault::ArityMismatch);
    }
    let mut parameters: Vec<Variable> = Vec::new();
    let mut i: usize = 0;
    while i < inputs.len()
        invariant
            i <= inputs@.len(),
            c.parameters.deep_view().len() == inputs@.len(),
            parameters.deep_view().len() == i as int,
            forall|j: int|
                0 <= j < i as int ==> parameters.deep_view()[j] == (VariableV {
                    name: c.parameters.deep_view()[j].name,
                    _type: inputs@[j],
                }),
        decreases inputs@.len() - i,
    {
        let ghost pre = parameters.deep_view();
        parameters.push(Variable { name: c.parameters[i].name.clone(), _type: inputs[i] });
        proof {
            assert(parameters.deep_view() =~= pre.push(
                VariableV { name: c.parameters.deep_view()[i as int].name, _type: inputs@[i as int] },
            ));
        }
        i += 1;
    }
    let mut return_values: Vec<Variable> = Vec::new();
    let mut j: usize = 0;
    while j < outputs.len()
        invariant
            j <= outputs@.len(),
            c.return_values.deep_view().len() == outputs@.len(),
            return_values.deep_view().len() == j as int,
            forall|k: int|
                0 <= k < j as int ==> return_values.deep_view()[k] == (VariableV {
                    name: c.return_values.deep_view()[k].name,
                    _type: outputs@[k],
                }),
        decreases outputs@.len() - j,
    {
        let ghost pre = return_values.deep_view();
        return_values.push(
            Variable { name: c.return_values[j].name.clone(), _type: outputs[j] },
        );
        proof {
            assert(return_values.deep_view() =~= pre.push(
                VariableV {
                    name: c.return_values.deep_view()[j as int].name,
                    _type: outputs@[j as int],
                },
            ));
        }
        j += 1;
    }
    let rc = Case { parameters, expressions: c.expressions, return_values };
    proof {
        let spec_rc = model::retype_case(c.deep_view(), inputs@, outputs@)->Ok_0;
        assert(rc.deep_view().parameters =~= spec_rc.parameters);
        assert(rc.deep_view().return_values =~= spec_rc.return_values);
    }
    Ok(rc)
}

/// Every case re-annotated from the signature, in order.
#[verifier::loop_isolation(false)]
fn retype_cases(cases: Vec<Case>, inputs: &Vec<Type>, outputs: &Vec<Type>) -> (r: Result<
    Vec<Case>,
    Fault,
>)
    ensures
        r matches Ok(cs) ==> model::retype_from(
            cases.deep_view(),
            inputs@,
            outputs@,
            0,
            Seq::<CaseV>::empty(),
        ) == Ok::<Seq<CaseV>, Fault>(cs.deep_view()),
        r matches Err(f) ==> model::retype_from(
            cases.deep_view(),
            inputs@,
            outputs@,
            0,
            Seq::<CaseV>::empty(),
        ) == Err::<Seq<CaseV>, Fault>(f),
{
    let ghost orig = cases.deep_view();
    let mut rest = cases;
    let total: usize = rest.len();
    let mut out: Vec<Case> = Vec::new();
    proof {
        assert(out.deep_view() =~= Seq::<CaseV>::empty());
        assert(rest.deep_view() =~= orig.skip(0));
    }
    let mut i: usize = 0;
    while rest.len() > 0
        invariant
            i as int + rest@.len() == total as int,
            i as int + rest@.len() == orig.len(),
            rest.deep_view() =~= orig.skip(i as int),
            model::retype_from(orig, inputs@, outputs@, i as int, out.deep_view())
                == model::retype_from(orig, inputs@, outputs@, 0, Seq::<CaseV>::empty()),
        decreases rest@.len(),
    {
        let ghost prest = rest.deep_view();
        let c = rest.remove(0);
        proof {
            assert(c.deep_view() == prest[0]);
            assert(c.deep_view() == orig[i as int]);
            assert forall|j: int| 0 <= j < rest.deep_view().len() implies rest.deep_view()[j]
                == orig.skip(i as int + 1)[j] by {
                assert(rest.deep_view()[j] == prest[j + 1]);
            }
            assert(rest.deep_view() =~= orig.skip(i as int + 1));
        }
        match retype_one(c, inputs, outputs) {
            Err(f) => {
                return Err(f);
            },
            Ok(rc) => {
                let ghost pre = out.deep_view();
                let ghost rcv = rc.deep_view();
                out.push(rc);
                proof {
                    assert(out.deep_view() =~= pre.push(rcv));
                }
            },
        }
        i += 1;
    }
    Ok(out)
}

impl Function {
    /// The fully typed function a function-definition node denotes.
    ///
    /// The walk over the children collects the name, the recursion marker,
    /// the two type lists (inputs first) and the cases; the propagation
    /// pass then rewrites every case's parameters and return variables,
    /// positionally, with the declared sorts.
    #[verifier::loop_isolation(false)]
    pub fn from(n: &Node) -> (r: Result<Function, Fault>)
        ensures
            r matches Ok(func) ==> model::function_from(*n) == Ok::<FunctionV, Fault>(
                func.deep_view(),
            ),
            r matches Err(f) ==> model::function_from(*n) == Err::<FunctionV, Fault>(f),
    {
        if n.rule != Rule::FunctionDef {
            return Err(Fault::MalformedNode);
        }
        let mut name: Option<String> = None;
        let mut recursive: bool = false;
        let mut seen_inputs: bool = false;
        let mut seen_outputs: bool = false;
        let mut inputs: Vec<Type> = Vec::new();
        let mut outputs: Vec<Type> = Vec::new();
        let mut cases: Vec<Case> = Vec::new();
        proof {
            assert(cases.deep_view() =~= Seq::<CaseV>::empty());
        }
        let mut i: usize = 0;
        while i < n.children.len()
            invariant
                i <= n.children@.len(),
                model::fn_scan(
                    *n,
                    i as int,
                    FnScan {
                        name: name.deep_view(),
                        recursive: recursive,
                        seen_inputs: seen_inputs,
                        seen_outputs: seen_outputs,
                        inputs: inputs@,
                        outputs: outputs@,
                        cases: cases.deep_view(),
                    },
                ) == model::fn_scan(*n, 0, model::fn_scan_init()),
            decreases n.children@.len() - i,
        {
            let ghost s = FnScan {
                name: name.deep_view(),
                recursive: recursive,
                seen_inputs: seen_inputs,
                seen_outputs: seen_outputs,
                inputs: inputs@,
                outputs: outputs@,
                cases: cases.deep_view(),
            };
            let c = &n.children[i];
            match c.rule {
                Rule::Identifier => {
                    if name.is_some() {
                        proof {
                            assert(model::fn_scan(*n, i as int, s) == Err::<FnScan, Fault>(
                                Fault::MalformedNode,
                            ));
                        }
                        return Err(Fault::MalformedNode);
                    }
                    name = Some(c.text.clone());
                    proof {
                        assert(model::fn_step(s, *c) == Ok::<FnScan, Fault>(
                            FnScan { name: name.deep_view(), ..s },
                        ));
                    }
                },
                Rule::Recursive => {
                    if recursive {
                        return Err(Fault::MalformedNode);
                    }
                    recursive = true;
                    proof {
                        assert(model::fn_step(s, *c) == Ok::<FnScan, Fault>(
                            FnScan { recursive: true, ..s },
                        ));
                    }
                },
                Rule::TypeList => {
                    match sorts_of_list(c) {
                        Err(f) => {
                            proof {
                                assert(model::fn_scan(*n, i as int, s) == Err::<FnScan, Fault>(f));
                            }
                            return Err(f);
                        },
                        Ok(ts) => {
                            if !seen_inputs {
                                inputs = ts;
                                seen_inputs = true;
                                proof {
                                    assert(model::fn_step(s, *c) == Ok::<FnScan, Fault>(
                                        FnScan { seen_inputs: true, inputs: inputs@, ..s },
                                    ));
                                }
                            } else if !seen_outputs {
                                outputs = ts;
                                seen_outputs = true;
                                proof {
                                    assert(model::fn_step(s, *c) == Ok::<FnScan, Fault>(
                                        FnScan { seen_outputs: true, outputs: outputs@, ..s },
                                    ));
                                }
                            } else {
                                proof {
                                    assert(model::fn_scan(*n, i as int, s) == Err::<FnScan, Fault>(
                                        Fault::MalformedNode,
                                    ));
                                }
                                return Err(Fault::MalformedNode);
                            }
                        },
                    }
                },
                Rule::Case => {
                    match Case::from(c, &inputs, &outputs) {
                        Err(f) => {
                            proof {
                                assert(model::fn_scan(*n, i as int, s) == Err::<FnScan, Fault>(f));
                            }
                            return Err(f);
                        },
                        Ok(cv) => {
                            let ghost pre = cases.deep_view();
                            let ghost cvv = cv.deep_view();
                            cases.push(cv);
                            proof {
                                assert(cases.deep_view() =~= pre.push(cvv));
                                assert(model::fn_step(s, *c) == Ok::<FnScan, Fault>(
                                    FnScan { cases: cases.deep_view(), ..s },
                                ));
                            }
                        },
                    }
                },
                _ => {
                    proof {
                        assert(model::fn_scan(*n, i as int, s) == Err::<FnScan, Fault>(
                            Fault::MalformedNode,
                        ));
                    }
                    return Err(Fault::MalformedNode);
                },
            }
            i += 1;
        }
        let name = match name {
            None => {
                return Err(Fault::MalformedNode);
            },
            Some(nm) => nm,
        };
        if !seen_outputs {
            return Err(Fault::MalformedNode);
        }
        let cases = match retype_cases(cases, &inputs, &outputs) {
            Err(f) => {
                return Err(f);
            },
            Ok(cs) => cs,
        };
        Ok(
            Function {
                name,
                cases,
                recursive,
                signature: Signature { inputs, outputs },
            },
        )
    }
}

impl StateVariable {
    /// The state variable a declaration node denotes: a name and its sort.
    pub fn from(n: &Node) -> (r: Result<StateVariable, Fault>)
        ensures
            r matches Ok(sv) ==> model::state_var_from(*n) == Ok::<StateVariableV, Fault>(
                sv.deep_view(),
            ),
            r matches Err(f) ==> model::state_var_from(*n) == Err::<StateVariableV, Fault>(f),
    {
        if n.rule != Rule::StateVarDecl || n.children.len() != 2 {
            return Err(Fault::MalformedNode);
        }
        if n.children[0].rule != Rule::Identifier {
            return Err(Fault::MalformedNode);
        }
        match Type::from(&n.children[1]) {
            Err(f) => Err(f),
            Ok(t) => Ok(StateVariable { name: n.children[0].text.clone(), _type: t }),
        }
    }
}

impl Contract {
    /// The contract a top-level node denotes: every state-variable
    /// declaration and every function definition, in encounter order.
    /// No cross-function validation happens here.
    #[verifier::loop_isolation(false)]
    pub fn from(n: &Node) -> (r: Result<Contract, Fault>)
        ensures
            r matches Ok(c) ==> model::contract_from(*n) == Ok::<ContractV, Fault>(c.deep_view()),
            r matches Err(f) ==> model::contract_from(*n) == Err::<ContractV, Fault>(f),
    {
        if n.rule != Rule::Contract {
            return Err(Fault::MalformedNode);
        }
        let mut state: Vec<StateVariable> = Vec::new();
        let mut functions: Vec<Function> = Vec::new();
        proof {
            assert(state.deep_view() =~= Seq::<StateVariableV>::empty());
            assert(functions.deep_view() =~= Seq::<FunctionV>::empty());
        }
        let mut i: usize = 0;
        while i < n.children.len()
            invariant
                i <= n.children@.len(),
                model::contract_scan(
                    *n,
                    i as int,
                    ContractV { state: state.deep_view(), functions: functions.deep_view() },
                ) == model::contract_scan(
                    *n,
                    0,
                    ContractV {
                        state: Seq::<StateVariableV>::empty(),
                        functions: Seq::<FunctionV>::empty(),
                    },
                ),
            decreases n.children@.len() - i,
        {
            let ghost acc = ContractV {
                state: state.deep_view(),
                functions: functions.deep_view(),
            };
            let c = &n.children[i];
            match c.rule {
                Rule::FunctionDef => {
                    match Function::from(c) {
                        Err(f) => {
                            proof {
                                assert(model::contract_scan(*n, i as int, acc)
                                    == Err::<ContractV, Fault>(f));
                            }
                            return Err(f);
                        },
                        Ok(func) => {
                            let ghost pre = functions.deep_view();
                            let ghost fv = func.deep_view();
                            functions.push(func);
                            proof {
                                assert(functions.deep_view() =~= pre.push(fv));
                            }
                        },
                    }
                },
                Rule::StateVarDecl => {
                    match StateVariable::from(c) {
                        Err(f) => {
                            proof {
                                assert(model::contract_scan(*n, i as int, acc)
                                    == Err::<ContractV, Fault>(f));
                            }
                            return Err(f);
                        },
                        Ok(sv) => {
                            let ghost pre = state.deep_view();
                            let ghost svv = sv.deep_view();
                            state.push(sv);
                            proof {
                                assert(state.deep_view() =~= pre.push(svv));
                            }
                        },
                    }
                },
                _ => {
                    return Err(Fault::MalformedNode);
                },
            }
            i += 1;
        }
        Ok(Contract { state, functions })
    }
}

} // verus!
