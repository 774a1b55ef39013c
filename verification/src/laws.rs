//! Laws of the translation, stated over the model in [`crate::model`].
//!
//! Every executable constructor in [`crate::translate`] returns exactly the
//! value of its model function, so each law proved here holds of the
//! executable translation as well.

use vstd::prelude::*;

use crate::ast::CaseV;
use crate::ast::Fault;
use crate::ast::FunctionV;
use crate::ast::SignatureV;
use crate::ast::Type;
use crate::ast::VariableV;
use crate::model;
use crate::model::FnScan;
use crate::node::Node;
use crate::node::Rule;

verus! {

/// A case conforms to a signature when it is the empty case (no pattern
/// at all), or it has exactly one parameter per declared input and one
/// return variable per declared output, each carrying the declared sort
/// of its position.
pub open spec fn conforms(c: CaseV, sig: SignatureV) -> bool {
    model::is_empty_case(c) || {
        &&& c.parameters.len() == sig.inputs.len()
        &&& c.return_values.len() == sig.outputs.len()
        &&& forall|i: int|
            0 <= i < sig.inputs.len() ==> #[trigger] c.parameters[i]._type == sig.inputs[i]
        &&& forall|j: int|
            0 <= j < sig.outputs.len() ==> #[trigger] c.return_values[j]._type == sig.outputs[j]
    }
}

/// Whether a case's parameter and return counts agree with the declared
/// input and output counts.
pub open spec fn counts_agree(c: CaseV, inputs: Seq<Type>, outputs: Seq<Type>) -> bool {
    c.parameters.len() == inputs.len() && c.return_values.len() == outputs.len()
}

proof fn lemma_retype_from_ok(
    cases: Seq<CaseV>,
    inputs: Seq<Type>,
    outputs: Seq<Type>,
    i: int,
    acc: Seq<CaseV>,
    result: Seq<CaseV>,
)
    requires
        model::retype_from(cases, inputs, outputs, i, acc) == Ok::<Seq<CaseV>, Fault>(result),
        forall|k: int|
            0 <= k < acc.len() ==> conforms(
                #[trigger] acc[k],
                SignatureV { inputs, outputs },
            ),
    ensures
        forall|k: int|
            0 <= k < result.len() ==> conforms(
                #[trigger] result[k],
                SignatureV { inputs, outputs },
            ),
    decreases cases.len() - i,
{
    if i < cases.len() {
        let rc = model::retype_case(cases[i], inputs, outputs);
        match rc {
            Err(_) => {},
            Ok(c2) => {
                assert(conforms(c2, SignatureV { inputs, outputs }));
                assert(forall|k: int|
                    0 <= k < acc.push(c2).len() ==> conforms(
                        #[trigger] acc.push(c2)[k],
                        SignatureV { inputs, outputs },
                    ));
                lemma_retype_from_ok(cases, inputs, outputs, i + 1, acc.push(c2), result);
            },
        }
    }
}

proof fn lemma_retype_from_err(
    cases: Seq<CaseV>,
    inputs: Seq<Type>,
    outputs: Seq<Type>,
    i: int,
    acc: Seq<CaseV>,
)
    requires
        exists|k: int|
            i <= k < cases.len() && !model::is_empty_case(#[trigger] cases[k]) && !counts_agree(
                cases[k],
                inputs,
                outputs,
            ),
    ensures
        model::retype_from(cases, inputs, outputs, i, acc) == Err::<Seq<CaseV>, Fault>(
            Fault::ArityMismatch,
        ),
    decreases cases.len() - i,
{
    if model::is_empty_case(cases[i]) || counts_agree(cases[i], inputs, outputs) {
        let c2 = model::retype_case(cases[i], inputs, outputs)->Ok_0;
        lemma_retype_from_err(cases, inputs, outputs, i + 1, acc.push(c2));
    }
}

/// Signature propagation: in a successfully translated function definition,
/// every case conforms to the declared signature — its parameter count is
/// the input count, its return-variable count is the output count, and
/// parameter `i` / return variable `j` carry the sort of input `i` /
/// output `j`, for all cases of the function.
pub proof fn lemma_signature_propagation(n: Node, func: FunctionV)
    requires
        model::function_from(n) == Ok::<FunctionV, Fault>(func),
    ensures
        forall|ci: int|
            0 <= ci < func.cases.len() ==> conforms(#[trigger] func.cases[ci], func.signature),
{
    let s = model::fn_scan(n, 0, model::fn_scan_init())->Ok_0;
    lemma_retype_from_ok(s.cases, s.inputs, s.outputs, 0, Seq::<CaseV>::empty(), func.cases);
}

/// Arity mismatch is rejected: if the walk over a function definition's
/// children succeeds with a name and both type lists, but some collected
/// case declares a pattern whose parameter or return-variable count
/// disagrees with the signature, the translation faults with
/// `ArityMismatch`. Together with [`lemma_signature_propagation`] — a
/// successful translation has the counts agree exactly — no case is ever
/// silently truncated or padded. The one case exempt from the count check
/// is the empty case, which declares no pattern at all and binds nothing.
pub proof fn lemma_arity_mismatch_rejected(n: Node, s: FnScan)
    requires
        n.rule == Rule::FunctionDef,
        model::fn_scan(n, 0, model::fn_scan_init()) == Ok::<FnScan, Fault>(s),
        s.name is Some,
        s.seen_outputs,
        exists|k: int|
            0 <= k < s.cases.len() && !model::is_empty_case(#[trigger] s.cases[k])
                && !counts_agree(s.cases[k], s.inputs, s.outputs),
    ensures
        model::function_from(n) == Err::<FunctionV, Fault>(Fault::ArityMismatch),
{
    lemma_retype_from_err(s.cases, s.inputs, s.outputs, 0, Seq::<CaseV>::empty());
}

/// A sort token outside the closed vocabulary `Uint`, `Bool`, `List`,
/// `Array` is rejected with `UnrecognizedSort`; since every fault
/// propagates outward unchanged, no `Contract` value is produced from a
/// tree that holds one.
pub proof fn lemma_unrecognized_sort_rejected(n: Node)
    ensures
        n.rule == Rule::LogikonType && !(n.text@ == "Uint"@ || n.text@ == "Bool"@ || n.text@
            == "List"@ || n.text@ == "Array"@) ==> model::sort_from(n) == Err::<Type, Fault>(
            Fault::UnrecognizedSort,
        ),
{
}

/// An operator token outside the vocabulary valid for its sort and arity
/// is rejected with `UnknownOperator`, in every sort context; since every
/// fault propagates outward unchanged, no `Contract` value is produced
/// from a tree that holds one.
pub proof fn lemma_unknown_operator_rejected(n: Node, env: Seq<VariableV>)
    ensures
        n.rule == Rule::Statement && n.children@.len() == 2 && n.children@[0].rule == Rule::UnaryOp
            && n.children@[0].text@ != "not"@ ==> model::build_bool(n, env) == Err::<
            crate::ast::BooleanExpression,
            Fault,
        >(Fault::UnknownOperator),
        n.rule == Rule::Statement && n.children@.len() == 3 && n.children@[0].rule == Rule::BinaryOp
            && !(model::is_comparison(n.children@[0].text@) || n.children@[0].text@ == "="@
            || n.children@[0].text@ == "!="@) ==> model::build_bool(n, env) == Err::<
            crate::ast::BooleanExpression,
            Fault,
        >(Fault::UnknownOperator),
        n.rule == Rule::Statement && n.children@.len() == 4 && n.children@[0].rule
            == Rule::TernaryOp && n.children@[0].text@ != "ite"@ ==> model::build_bool(n, env)
            == Err::<crate::ast::BooleanExpression, Fault>(Fault::UnknownOperator),
        n.rule == Rule::Statement && n.children@.len() == 2 && n.children@[0].rule == Rule::UnaryOp
            ==> model::build_uint(n, env) == Err::<crate::ast::UintExpression, Fault>(
            Fault::UnknownOperator,
        ),
        n.rule == Rule::Statement && n.children@.len() == 3 && n.children@[0].rule == Rule::BinaryOp
            && !(model::is_arithmetic(n.children@[0].text@) || n.children@[0].text@ == "select"@)
            ==> model::build_uint(n, env) == Err::<crate::ast::UintExpression, Fault>(
            Fault::UnknownOperator,
        ),
        n.rule == Rule::Statement && n.children@.len() == 4 && n.children@[0].rule
            == Rule::TernaryOp && n.children@[0].text@ != "ite"@ ==> model::build_uint(n, env)
            == Err::<crate::ast::UintExpression, Fault>(Fault::UnknownOperator),
        n.rule == Rule::Statement && n.children@.len() == 2 && n.children@[0].rule == Rule::UnaryOp
            ==> model::build_array(n, env) == Err::<crate::ast::ArrayExpression, Fault>(
            Fault::UnknownOperator,
        ),
        n.rule == Rule::Statement && n.children@.len() == 3 && n.children@[0].rule == Rule::BinaryOp
            ==> model::build_array(n, env) == Err::<crate::ast::ArrayExpression, Fault>(
            Fault::UnknownOperator,
        ),
        n.rule == Rule::Statement && n.children@.len() == 4 && n.children@[0].rule
            == Rule::TernaryOp && n.children@[0].text@ != "store"@ ==> model::build_array(n, env)
            == Err::<crate::ast::ArrayExpression, Fault>(Fault::UnknownOperator),
{
}

/// Determinism: the translation is a total function of the parse tree
/// alone — it draws on no environment, no iteration order and no hidden
/// state — so translating equal trees yields structurally identical
/// results, the same typed tree or the same fault.
pub proof fn lemma_deterministic(n1: Node, n2: Node)
    requires
        n1 == n2,
    ensures
        model::contract_from(n1) == model::contract_from(n2),
        model::function_from(n1) == model::function_from(n2),
{
}

} // verus!
