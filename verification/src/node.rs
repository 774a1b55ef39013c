//! The generic tagged parse tree handed to the translation.
//!
//! An external grammar-matching engine turns source text into a tree of
//! tagged nodes; each node carries the rule tag it matched, the exact
//! matched text, and its ordered children. No semantics are attached at
//! this level: the translation alone decides what a node means, directed
//! by the sort its context expects.

use vstd::prelude::*;
use vstd::string::StringExecFns;

verus! {

/// The closed vocabulary of rule tags a parse-tree node can carry.
#[derive(Debug, Clone, Copy, PartialEq, Eq, Structural)]
pub enum Rule {
    /// A plain name: a variable, a function name, a state-variable name.
    Identifier,
    /// A name in call position; calls are not accepted by this translation.
    FunctionIdentifier,
    /// One sort token: `Uint`, `Bool`, `Array` or `List`.
    LogikonType,
    /// A parenthesized list of sort tokens (a signature's inputs or outputs).
    TypeList,
    /// A parenthesized list of identifiers (case parameters or returns).
    ParameterList,
    /// One guarded alternative of a function definition.
    Case,
    /// The list of body statements of a case.
    CaseBody,
    /// The marker that a function may refer to itself.
    Recursive,
    /// An operator of one operand.
    UnaryOp,
    /// An operator of two operands.
    BinaryOp,
    /// An operator of three operands.
    TernaryOp,
    /// One expression: an identifier or an operator with its operands.
    Statement,
    /// A whole `define` form.
    FunctionDef,
    /// A state-variable declaration: a name and its sort.
    StateVarDecl,
    /// The root of a contract source file.
    Contract,
}

/// One node of the parse tree: a rule tag, the matched source text, and
/// the ordered child nodes.
#[derive(Debug)]
pub struct Node {
    pub rule: Rule,
    pub text: String,
    pub children: Vec<Node>,
}

impl Node {
    /// Whether this node's matched text reads exactly `t`.
    pub fn has_text(&self, t: &str) -> (r: bool)
        ensures
            r == (self.text@ == t@),
    {
        let s: String = String::from_str(t);
        self.text == s
    }
}

} // verus!
