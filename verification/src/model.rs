//! The mathematical model of the translation.
//!
//! Every executable function in [`crate::translate`] is specified against a
//! total spec function here: the spec function maps a parse-tree node (and,
//! where equality dispatch needs it, the case's symbol environment) to
//! exactly one outcome, either the translated value or the fault the
//! translation stops with. Since each executable result is pinned to the
//! value of a function of the input tree alone, translation is deterministic
//! by construction (see [`crate::laws`]).
//!
//! Sort direction: the entry point used for a subexpression is chosen by the
//! *caller*, from the sort that position expects; the node's own text never
//! decides the sort. The one place where the expected operand sort is not
//! fixed by the operator is equality (`=`, `!=`) in Boolean context: there
//! the declared sort of the first operand's identifier, read from the case's
//! symbol environment, picks the unsigned-integer variants over the Boolean
//! ones.

use vstd::prelude::*;

use crate::ast::BooleanExpression;
use crate::ast::ArrayExpression;
use crate::ast::UintExpression;
use crate::ast::CaseV;
use crate::ast::ContractV;
use crate::ast::Fault;
use crate::ast::FunctionV;
use crate::ast::SignatureV;
use crate::ast::StateVariableV;
use crate::ast::Type;
use crate::ast::VariableV;
use crate::node::Node;
use crate::node::Rule;

verus! {

// ---------------------------------------------------------------------------
// Sorts and operator vocabularies
// ---------------------------------------------------------------------------

/// The sort a single sort-token node denotes: one of the four spellings,
/// `UnrecognizedSort` outside them, `MalformedNode` if the node is not a
/// sort token at all.
pub open spec fn sort_from(n: Node) -> Result<Type, Fault> {
    if n.rule != Rule::LogikonType {
        Err(Fault::MalformedNode)
    } else if n.text@ == "Uint"@ {
        Ok(Type::Uint)
    } else if n.text@ == "Bool"@ {
        Ok(Type::Bool)
    } else if n.text@ == "List"@ {
        Ok(Type::List)
    } else if n.text@ == "Array"@ {
        Ok(Type::Array)
    } else {
        Err(Fault::UnrecognizedSort)
    }
}

/// The binary relational operators over unsigned-integer operands.
pub open spec fn is_comparison(t: Seq<char>) -> bool {
    t == "<"@ || t == ">"@ || t == "<="@ || t == ">="@
}

/// The binary arithmetic operators over unsigned-integer operands.
pub open spec fn is_arithmetic(t: Seq<char>) -> bool {
    t == "+"@ || t == "-"@ || t == "*"@ || t == "/"@
}

/// The comparison expression a relational operator token builds.
pub open spec fn comparison_expr(t: Seq<char>, x: UintExpression, y: UintExpression)
    -> BooleanExpression {
    if t == "<"@ {
        BooleanExpression::Lt(Box::new(x), Box::new(y))
    } else if t == ">"@ {
        BooleanExpression::Gt(Box::new(x), Box::new(y))
    } else if t == "<="@ {
        BooleanExpression::Le(Box::new(x), Box::new(y))
    } else {
        BooleanExpression::Ge(Box::new(x), Box::new(y))
    }
}

/// The arithmetic expression an arithmetic operator token builds.
pub open spec fn arithmetic_expr(t: Seq<char>, x: UintExpression, y: UintExpression)
    -> UintExpression {
    if t == "+"@ {
        UintExpression::Plus(Box::new(x), Box::new(y))
    } else if t == "-"@ {
        UintExpression::Minus(Box::new(x), Box::new(y))
    } else if t == "*"@ {
        UintExpression::Times(Box::new(x), Box::new(y))
    } else {
        UintExpression::Div(Box::new(x), Box::new(y))
    }
}

// ---------------------------------------------------------------------------
// The symbol environment of a case
// ---------------------------------------------------------------------------

/// The declared sort of `name` in the environment: the sort of its first
/// binding, or `Unknown` where it is unbound.
pub open spec fn lookup(env: Seq<VariableV>, name: Seq<char>) -> Type
    decreases env.len(),
{
    if env.len() == 0 {
        Type::Unknown
    } else if env[0].name == name {
        env[0]._type
    } else {
        lookup(env.drop_first(), name)
    }
}

/// Positional bindings of names to sorts, cut to the shorter list.
pub open spec fn typed_env(names: Seq<Seq<char>>, sorts: Seq<Type>) -> Seq<VariableV> {
    Seq::new(
        if names.len() <= sorts.len() {
            names.len()
        } else {
            sorts.len()
        },
        |i: int| VariableV { name: names[i], _type: sorts[i] },
    )
}

/// The environment a case body is built under: parameters bound to the
/// declared input sorts, then return variables bound to the output sorts,
/// each positionally.
pub open spec fn case_env(
    pnames: Seq<Seq<char>>,
    rnames: Seq<Seq<char>>,
    inputs: Seq<Type>,
    outputs: Seq<Type>,
) -> Seq<VariableV> {
    typed_env(pnames, inputs) + typed_env(rnames, outputs)
}

/// The sort that directs equality dispatch: the declared sort of the first
/// operand's identifier, or `Unknown` where that operand is not a plain
/// identifier.
pub open spec fn head_sort(n: Node, env: Seq<VariableV>) -> Type {
    if n.rule == Rule::Statement && n.children@.len() >= 1 && n.children@[0].rule
        == Rule::Identifier {
        lookup(env, n.children@[0].text@)
    } else {
        Type::Unknown
    }
}

// ---------------------------------------------------------------------------
// Expression building, one entry point per sort
// ---------------------------------------------------------------------------

/// The Boolean expression a statement node denotes under `env`.
pub open spec fn build_bool(n: Node, env: Seq<VariableV>) -> Result<BooleanExpression, Fault>
    decreases n,
{
    if n.rule != Rule::Statement || n.children@.len() < 1 {
        Err(Fault::MalformedNode)
    } else {
        let op = n.children@[0];
        if op.rule == Rule::Identifier {
            if n.children@.len() == 1 {
                Ok(BooleanExpression::Identifier(op.text))
            } else {
                Err(Fault::MalformedNode)
            }
        } else if op.rule == Rule::Statement {
            if n.children@.len() == 1 {
                build_bool(op, env)
            } else {
                Err(Fault::MalformedNode)
            }
        } else if op.rule == Rule::UnaryOp {
            if n.children@.len() != 2 {
                Err(Fault::ArityMismatch)
            } else if op.text@ == "not"@ {
                match build_bool(n.children@[1], env) {
                    Ok(x) => Ok(BooleanExpression::Not(Box::new(x))),
                    Err(f) => Err(f),
                }
            } else {
                Err(Fault::UnknownOperator)
            }
        } else if op.rule == Rule::BinaryOp {
            if n.children@.len() != 3 {
                Err(Fault::ArityMismatch)
            } else {
                let a1 = n.children@[1];
                let a2 = n.children@[2];
                if is_comparison(op.text@) {
                    match build_uint(a1, env) {
                        Err(f) => Err(f),
                        Ok(x) => match build_uint(a2, env) {
                            Err(f) => Err(f),
                            Ok(y) => Ok(comparison_expr(op.text@, x, y)),
                        },
                    }
                } else if op.text@ == "="@ || op.text@ == "!="@ {
                    if head_sort(a1, env) == Type::Uint {
                        match build_uint(a1, env) {
                            Err(f) => Err(f),
                            Ok(x) => match build_uint(a2, env) {
                                Err(f) => Err(f),
                                Ok(y) => Ok(
                                    if op.text@ == "="@ {
                                        BooleanExpression::EqUint(Box::new(x), Box::new(y))
                                    } else {
                                        BooleanExpression::NeUint(Box::new(x), Box::new(y))
                                    },
                                ),
                            },
                        }
                    } else {
                        match build_bool(a1, env) {
                            Err(f) => Err(f),
                            Ok(x) => match build_bool(a2, env) {
                                Err(f) => Err(f),
                                Ok(y) => Ok(
                                    if op.text@ == "="@ {
                                        BooleanExpression::EqBool(Box::new(x), Box::new(y))
                                    } else {
                                        BooleanExpression::NeBool(Box::new(x), Box::new(y))
                                    },
                                ),
                            },
                        }
                    }
                } else {
                    Err(Fault::UnknownOperator)
                }
            }
        } else if op.rule == Rule::TernaryOp {
            if n.children@.len() != 4 {
                Err(Fault::ArityMismatch)
            } else if op.text@ == "ite"@ {
                match build_bool(n.children@[1], env) {
                    Err(f) => Err(f),
                    Ok(c) => match build_bool(n.children@[2], env) {
                        Err(f) => Err(f),
                        Ok(x) => match build_bool(n.children@[3], env) {
                            Err(f) => Err(f),
                            Ok(y) => Ok(
                                BooleanExpression::Ite(Box::new(c), Box::new(x), Box::new(y)),
                            ),
                        },
                    },
                }
            } else {
                Err(Fault::UnknownOperator)
            }
        } else {
            Err(Fault::MalformedNode)
        }
    }
}

/// The unsigned-integer expression a statement node denotes under `env`.
pub open spec fn build_uint(n: Node, env: Seq<VariableV>) -> Result<UintExpression, Fault>
    decreases n,
{
    if n.rule != Rule::Statement || n.children@.len() < 1 {
        Err(Fault::MalformedNode)
    } else {
        let op = n.children@[0];
        if op.rule == Rule::Identifier {
            if n.children@.len() == 1 {
                Ok(UintExpression::Identifier(op.text))
            } else {
                Err(Fault::MalformedNode)
            }
        } else if op.rule == Rule::Statement {
            if n.children@.len() == 1 {
                build_uint(op, env)
            } else {
                Err(Fault::MalformedNode)
            }
        } else if op.rule == Rule::UnaryOp {
            if n.children@.len() != 2 {
                Err(Fault::ArityMismatch)
            } else {
                Err(Fault::UnknownOperator)
            }
        } else if op.rule == Rule::BinaryOp {
            if n.children@.len() != 3 {
                Err(Fault::ArityMismatch)
            } else {
                let a1 = n.children@[1];
                let a2 = n.children@[2];
                if is_arithmetic(op.text@) {
                    match build_uint(a1, env) {
                        Err(f) => Err(f),
                        Ok(x) => match build_uint(a2, env) {
                            Err(f) => Err(f),
                            Ok(y) => Ok(arithmetic_expr(op.text@, x, y)),
                        },
                    }
                } else if op.text@ == "select"@ {
                    match build_array(a1, env) {
                        Err(f) => Err(f),
                        Ok(x) => match build_uint(a2, env) {
                            Err(f) => Err(f),
                            Ok(y) => Ok(UintExpression::Select(Box::new(x), Box::new(y))),
                        },
                    }
                } else {
                    Err(Fault::UnknownOperator)
                }
            }
        } else if op.rule == Rule::TernaryOp {
            if n.children@.len() != 4 {
                Err(Fault::ArityMismatch)
            } else if op.text@ == "ite"@ {
                match build_bool(n.children@[1], env) {
                    Err(f) => Err(f),
                    Ok(c) => match build_uint(n.children@[2], env) {
                        Err(f) => Err(f),
                        Ok(x) => match build_uint(n.children@[3], env) {
                            Err(f) => Err(f),
                            Ok(y) => Ok(UintExpression::Ite(Box::new(c), Box::new(x), Box::new(y))),
                        },
                    },
                }
            } else {
                Err(Fault::UnknownOperator)
            }
        } else {
            Err(Fault::MalformedNode)
        }
    }
}

/// The array expression a statement node denotes under `env`.
pub open spec fn build_array(n: Node, env: Seq<VariableV>) -> Result<ArrayExpression, Fault>
    decreases n,
{
    if n.rule != Rule::Statement || n.children@.len() < 1 {
        Err(Fault::MalformedNode)
    } else {
        let op = n.children@[0];
        if op.rule == Rule::Identifier {
            if n.children@.len() == 1 {
                Ok(ArrayExpression::Identifier(op.text))
            } else {
                Err(Fault::MalformedNode)
            }
        } else if op.rule == Rule::Statement {
            if n.children@.len() == 1 {
                build_array(op, env)
            } else {
                Err(Fault::MalformedNode)
            }
        } else if op.rule == Rule::UnaryOp {
            if n.children@.len() != 2 {
                Err(Fault::ArityMismatch)
            } else {
                Err(Fault::UnknownOperator)
            }
        } else if op.rule == Rule::BinaryOp {
            if n.children@.len() != 3 {
                Err(Fault::ArityMismatch)
            } else {
                Err(Fault::UnknownOperator)
            }
        } else if op.rule == Rule::TernaryOp {
            if n.children@.len() != 4 {
                Err(Fault::ArityMismatch)
            } else if op.text@ == "store"@ {
                match build_array(n.children@[1], env) {
                    Err(f) => Err(f),
                    Ok(a) => match build_uint(n.children@[2], env) {
                        Err(f) => Err(f),
                        Ok(x) => match build_uint(n.children@[3], env) {
                            Err(f) => Err(f),
                            Ok(y) => Ok(ArrayExpression::Store(Box::new(a), Box::new(x), Box::new(y))),
                        },
                    },
                }
            } else {
                Err(Fault::UnknownOperator)
            }
        } else {
            Err(Fault::MalformedNode)
        }
    }
}

// ---------------------------------------------------------------------------
// Cases
// ---------------------------------------------------------------------------

/// The names gathered from the children of a parameter list from index `i`
/// on, each of which must be an identifier, appended to `acc`.
pub open spec fn names_from(n: Node, i: int, acc: Seq<Seq<char>>) -> Result<Seq<Seq<char>>, Fault>
    decreases n.children@.len() - i,
{
    if i >= n.children@.len() {
        Ok(acc)
    } else {
        let c = n.children@[i];
        if c.rule == Rule::Identifier {
            names_from(n, i + 1, acc.push(c.text@))
        } else {
            Err(Fault::MalformedNode)
        }
    }
}

/// The names declared by a parameter-list node.
pub open spec fn list_names(n: Node) -> Result<Seq<Seq<char>>, Fault> {
    if n.rule == Rule::ParameterList {
        names_from(n, 0, Seq::<Seq<char>>::empty())
    } else {
        Err(Fault::MalformedNode)
    }
}

/// The sorts gathered from the children of a type list from index `i` on,
/// appended to `acc`.
pub open spec fn sorts_from(n: Node, i: int, acc: Seq<Type>) -> Result<Seq<Type>, Fault>
    decreases n.children@.len() - i,
{
    if i >= n.children@.len() {
        Ok(acc)
    } else {
        match sort_from(n.children@[i]) {
            Err(f) => Err(f),
            Ok(t) => sorts_from(n, i + 1, acc.push(t)),
        }
    }
}

/// The ordered sorts declared by a type-list node.
pub open spec fn list_sorts(n: Node) -> Result<Seq<Type>, Fault> {
    if n.rule == Rule::TypeList {
        sorts_from(n, 0, Seq::<Type>::empty())
    } else {
        Err(Fault::MalformedNode)
    }
}

/// The Boolean expressions of the statements of a case body from index `i`
/// on, appended to `acc`.
pub open spec fn body_from(n: Node, env: Seq<VariableV>, i: int, acc: Seq<BooleanExpression>)
    -> Result<Seq<BooleanExpression>, Fault>
    decreases n.children@.len() - i,
{
    if i >= n.children@.len() {
        Ok(acc)
    } else {
        match build_bool(n.children@[i], env) {
            Err(f) => Err(f),
            Ok(e) => body_from(n, env, i + 1, acc.push(e)),
        }
    }
}

/// The given names as variables of sort `Unknown`: a case leaves its
/// variables untyped, for the function assembler to re-annotate.
pub open spec fn untyped_vars(names: Seq<Seq<char>>) -> Seq<VariableV> {
    Seq::new(names.len(), |i: int| VariableV { name: names[i], _type: Type::Unknown })
}

/// The untyped case a case node denotes. A case node holds exactly one
/// parameter list, one return-variable list, and then at most one body;
/// any other shape is a fault. Body statements are built in Boolean
/// context, under the environment drawn from the declared signature.
pub open spec fn case_from(n: Node, inputs: Seq<Type>, outputs: Seq<Type>)
    -> Result<CaseV, Fault> {
    if n.rule != Rule::Case {
        Err(Fault::MalformedNode)
    } else if !(n.children@.len() == 2 || n.children@.len() == 3) {
        Err(Fault::MalformedNode)
    } else {
        match list_names(n.children@[0]) {
            Err(f) => Err(f),
            Ok(pnames) => match list_names(n.children@[1]) {
                Err(f) => Err(f),
                Ok(rnames) => {
                    let env = case_env(pnames, rnames, inputs, outputs);
                    if n.children@.len() == 2 {
                        Ok(
                            CaseV {
                                parameters: untyped_vars(pnames),
                                expressions: Seq::<BooleanExpression>::empty(),
                                return_values: untyped_vars(rnames),
                            },
                        )
                    } else if n.children@[2].rule == Rule::CaseBody {
                        match body_from(
                            n.children@[2],
                            env,
                            0,
                            Seq::<BooleanExpression>::empty(),
                        ) {
                            Err(f) => Err(f),
                            Ok(es) => Ok(
                                CaseV {
                                    parameters: untyped_vars(pnames),
                                    expressions: es,
                                    return_values: untyped_vars(rnames),
                                },
                            ),
                        }
                    } else {
                        Err(Fault::MalformedNode)
                    }
                },
            },
        }
    }
}

// ---------------------------------------------------------------------------
// Signature propagation
// ---------------------------------------------------------------------------

/// Whether a case declares no pattern at all: no parameters and no return
/// variables. Such an empty case binds nothing, so the propagation pass
/// has nothing to re-annotate in it and it is accepted under any
/// signature.
pub open spec fn is_empty_case(c: CaseV) -> bool {
    c.parameters.len() == 0 && c.return_values.len() == 0
}

/// One case re-annotated from the signature: parameter `i` takes sort
/// `inputs[i]` and return variable `j` takes sort `outputs[j]`. An empty
/// case passes through unchanged; any other case must declare exactly one
/// parameter per input and one return variable per output — a
/// disagreement is an `ArityMismatch`, never a truncation or padding.
pub open spec fn retype_case(c: CaseV, inputs: Seq<Type>, outputs: Seq<Type>)
    -> Result<CaseV, Fault> {
    if is_empty_case(c) {
        Ok(c)
    } else if c.parameters.len() != inputs.len() || c.return_values.len() != outputs.len() {
        Err(Fault::ArityMismatch)
    } else {
        Ok(
            CaseV {
                parameters: Seq::new(
                    inputs.len(),
                    |i: int| VariableV { name: c.parameters[i].name, _type: inputs[i] },
                ),
                expressions: c.expressions,
                return_values: Seq::new(
                    outputs.len(),
                    |i: int| VariableV { name: c.return_values[i].name, _type: outputs[i] },
                ),
            },
        )
    }
}

/// The cases from index `i` on re-annotated from the signature, appended
/// to `acc`.
pub open spec fn retype_from(
    cases: Seq<CaseV>,
    inputs: Seq<Type>,
    outputs: Seq<Type>,
    i: int,
    acc: Seq<CaseV>,
) -> Result<Seq<CaseV>, Fault>
    decreases cases.len() - i,
{
    if i >= cases.len() {
        Ok(acc)
    } else {
        match retype_case(cases[i], inputs, outputs) {
            Err(f) => Err(f),
            Ok(c) => retype_from(cases, inputs, outputs, i + 1, acc.push(c)),
        }
    }
}

// ---------------------------------------------------------------------------
// Function definitions
// ---------------------------------------------------------------------------

/// The state of the walk over a function definition's children.
pub struct FnScan {
    pub name: Option<Seq<char>>,
    pub recursive: bool,
    pub seen_inputs: bool,
    pub seen_outputs: bool,
    pub inputs: Seq<Type>,
    pub outputs: Seq<Type>,
    pub cases: Seq<CaseV>,
}

/// The state before any child is read.
pub open spec fn fn_scan_init() -> FnScan {
    FnScan {
        name: None,
        recursive: false,
        seen_inputs: false,
        seen_outputs: false,
        inputs: Seq::<Type>::empty(),
        outputs: Seq::<Type>::empty(),
        cases: Seq::<CaseV>::empty(),
    }
}

/// One child of a function definition folded into the state: the name (at
/// most one), the recursion marker (at most one), exactly two type lists
/// (inputs first, then outputs), and any number of cases, each built under
/// the sorts read so far.
pub open spec fn fn_step(s: FnScan, c: Node) -> Result<FnScan, Fault> {
    if c.rule == Rule::Identifier {
        if s.name is Some {
            Err(Fault::MalformedNode)
        } else {
            Ok(FnScan { name: Some(c.text@), ..s })
        }
    } else if c.rule == Rule::Recursive {
        if s.recursive {
            Err(Fault::MalformedNode)
        } else {
            Ok(FnScan { recursive: true, ..s })
        }
    } else if c.rule == Rule::TypeList {
        match list_sorts(c) {
            Err(f) => Err(f),
            Ok(ts) => if !s.seen_inputs {
                Ok(FnScan { seen_inputs: true, inputs: ts, ..s })
            } else if !s.seen_outputs {
                Ok(FnScan { seen_outputs: true, outputs: ts, ..s })
            } else {
                Err(Fault::MalformedNode)
            },
        }
    } else if c.rule == Rule::Case {
        match case_from(c, s.inputs, s.outputs) {
            Err(f) => Err(f),
            Ok(cv) => Ok(FnScan { cases: s.cases.push(cv), ..s }),
        }
    } else {
        Err(Fault::MalformedNode)
    }
}

/// The state after folding the children of `n` from index `i` on.
pub open spec fn fn_scan(n: Node, i: int, s: FnScan) -> Result<FnScan, Fault>
    decreases n.children@.len() - i,
{
    if i >= n.children@.len() {
        Ok(s)
    } else {
        match fn_step(s, n.children@[i]) {
            Err(f) => Err(f),
            Ok(s2) => fn_scan(n, i + 1, s2),
        }
    }
}

/// The fully typed function a function-definition node denotes: the walk
/// over its children, a name and both type lists required, then the
/// signature-propagation pass over the collected cases.
pub open spec fn function_from(n: Node) -> Result<FunctionV, Fault> {
    if n.rule != Rule::FunctionDef {
        Err(Fault::MalformedNode)
    } else {
        match fn_scan(n, 0, fn_scan_init()) {
            Err(f) => Err(f),
            Ok(s) => match s.name {
                None => Err(Fault::MalformedNode),
                Some(nm) => if !s.seen_outputs {
                    Err(Fault::MalformedNode)
                } else {
                    match retype_from(s.cases, s.inputs, s.outputs, 0, Seq::<CaseV>::empty()) {
                        Err(f) => Err(f),
                        Ok(cs) => Ok(
                            FunctionV {
                                name: nm,
                                cases: cs,
                                recursive: s.recursive,
                                signature: SignatureV { inputs: s.inputs, outputs: s.outputs },
                            },
                        ),
                    }
                },
            },
        }
    }
}

// ---------------------------------------------------------------------------
// Contracts
// ---------------------------------------------------------------------------

/// The state variable a declaration node denotes: a name and its sort.
pub open spec fn state_var_from(n: Node) -> Result<StateVariableV, Fault> {
    if n.rule != Rule::StateVarDecl || n.children@.len() != 2 {
        Err(Fault::MalformedNode)
    } else if n.children@[0].rule != Rule::Identifier {
        Err(Fault::MalformedNode)
    } else {
        match sort_from(n.children@[1]) {
            Err(f) => Err(f),
            Ok(t) => Ok(StateVariableV { name: n.children@[0].text@, _type: t }),
        }
    }
}

/// The contract accumulated over the children of `n` from index `i` on.
pub open spec fn contract_scan(n: Node, i: int, acc: ContractV) -> Result<ContractV, Fault>
    decreases n.children@.len() - i,
{
    if i >= n.children@.len() {
        Ok(acc)
    } else {
        let c = n.children@[i];
        if c.rule == Rule::FunctionDef {
            match function_from(c) {
                Err(f) => Err(f),
                Ok(fv) => contract_scan(
                    n,
                    i + 1,
                    ContractV { functions: acc.functions.push(fv), ..acc },
                ),
            }
        } else if c.rule == Rule::StateVarDecl {
            match state_var_from(c) {
                Err(f) => Err(f),
                Ok(sv) => contract_scan(n, i + 1, ContractV { state: acc.state.push(sv), ..acc }),
            }
        } else {
            Err(Fault::MalformedNode)
        }
    }
}

/// The contract a top-level node denotes: every state-variable declaration
/// and every function definition, each list in encounter order.
pub open spec fn contract_from(n: Node) -> Result<ContractV, Fault> {
    if n.rule != Rule::Contract {
        Err(Fault::MalformedNode)
    } else {
        contract_scan(
            n,
            0,
            ContractV { state: Seq::<StateVariableV>::empty(), functions: Seq::<FunctionV>::empty() },
        )
    }
}

} // verus!
