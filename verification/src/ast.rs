//! The typed abstract syntax tree and its mathematical model.
//!
//! Expressions are well-sorted by construction: the Boolean, unsigned-integer
//! and array expression trees are separate types, and each operator variant
//! holds operands of exactly the sorts the operator takes. Variables are
//! built in two phases: a case first carries them with sort [`Type::Unknown`],
//! and the function assembler re-annotates them positionally from the
//! function's declared signature.
//!
//! Each container type has a `deep_view` into a spec-level mirror (`Seq` in
//! place of `Vec`, `Seq<char>` in place of `String`), which the translation
//! contracts in [`crate::model`] are stated over.

use vstd::prelude::*;

verus! {

/// One of the four value sorts, plus the pre-propagation placeholder.
#[derive(Debug, Clone, Copy, Hash, PartialEq, Eq, Structural)]
pub enum Type {
    /// Not yet annotated; only case variables awaiting propagation carry it.
    Unknown,
    Uint,
    Array,
    Bool,
    List,
}

/// The faults a translation can stop with. Every fault is terminal: no
/// partial tree is returned and nothing is skipped or padded.
#[derive(Debug, Clone, Copy, Hash, PartialEq, Eq, Structural)]
pub enum Fault {
    /// A node's tag or child ordering differs from the expected grammar shape.
    MalformedNode,
    /// A sort token outside the closed vocabulary of the four sorts.
    UnrecognizedSort,
    /// An operator token outside the vocabulary valid for its sort and arity.
    UnknownOperator,
    /// A case's parameter or return count disagrees with the signature, or
    /// an operator received the wrong number of operands.
    ArityMismatch,
}

/// A Boolean-sorted expression.
#[derive(Debug, Hash, PartialEq)]
pub enum BooleanExpression {
    Identifier(String),
    EqBool(Box<BooleanExpression>, Box<BooleanExpression>),
    NeBool(Box<BooleanExpression>, Box<BooleanExpression>),
    EqUint(Box<UintExpression>, Box<UintExpression>),
    NeUint(Box<UintExpression>, Box<UintExpression>),
    Lt(Box<UintExpression>, Box<UintExpression>),
    Gt(Box<UintExpression>, Box<UintExpression>),
    Le(Box<UintExpression>, Box<UintExpression>),
    Ge(Box<UintExpression>, Box<UintExpression>),
    And(Box<BooleanExpression>, Box<BooleanExpression>),
    Or(Box<BooleanExpression>, Box<BooleanExpression>),
    Not(Box<BooleanExpression>),
    Ite(
        Box<BooleanExpression>,
        Box<BooleanExpression>,
        Box<BooleanExpression>,
    ),
    FunctionCall(String, Vec<Expression>),
}

/// An expression of either scalar sort, as a function-call argument.
#[derive(Debug, Hash, PartialEq)]
pub enum Expression {
    Boolean(BooleanExpression),
    Uint(UintExpression),
}

/// An unsigned-integer-sorted expression.
#[derive(Debug, Hash, PartialEq)]
pub enum UintExpression {
    Identifier(String),
    Plus(Box<UintExpression>, Box<UintExpression>),
    Minus(Box<UintExpression>, Box<UintExpression>),
    Times(Box<UintExpression>, Box<UintExpression>),
    Div(Box<UintExpression>, Box<UintExpression>),
    Ite(
        Box<BooleanExpression>,
        Box<UintExpression>,
        Box<UintExpression>,
    ),
    Select(Box<ArrayExpression>, Box<UintExpression>),
}

/// An array-sorted expression.
#[derive(Debug, Hash, PartialEq)]
pub enum ArrayExpression {
    Identifier(String),
    Store(
        Box<ArrayExpression>,
        Box<UintExpression>,
        Box<UintExpression>,
    ),
}

/// A named, sorted binding site: a case parameter or return variable.
#[derive(Debug, Hash, PartialEq)]
pub struct Variable {
    pub name: String,
    pub _type: Type,
}

/// A function's declared interface: ordered input and output sorts.
#[derive(Debug, Hash, PartialEq)]
pub struct Signature {
    pub inputs: Vec<Type>,
    pub outputs: Vec<Type>,
}

/// One guarded alternative of a function: named parameters, named return
/// variables, and a list of Boolean body statements.
#[derive(Debug, Hash, PartialEq)]
pub struct Case {
    pub parameters: Vec<Variable>,
    pub expressions: Vec<BooleanExpression>,
    pub return_values: Vec<Variable>,
}

/// A named, possibly self-referential operation with its signature and cases.
#[derive(Debug, Hash, PartialEq)]
pub struct Function {
    pub name: String,
    pub cases: Vec<Case>,
    pub recursive: bool,
    pub signature: Signature,
}

/// A named piece of persistent state.
#[derive(Debug, Hash, PartialEq)]
pub struct StateVariable {
    pub name: String,
    pub _type: Type,
}

/// A complete specification unit: state variables and function definitions,
/// each list in encounter order.
#[derive(Debug, Hash, PartialEq)]
pub struct Contract {
    pub state: Vec<StateVariable>,
    pub functions: Vec<Function>,
}

// ---------------------------------------------------------------------------
// Spec-level mirrors and deep views.
//
// Expression trees serve as their own model: spec code can build and compare
// them directly, so their deep view is the identity. The container types
// mirror `Vec` as `Seq` and `String` as `Seq<char>`.
// ---------------------------------------------------------------------------

impl DeepView for BooleanExpression {
    type V = BooleanExpression;

    open spec fn deep_view(&self) -> BooleanExpression {
        *self
    }
}

impl DeepView for UintExpression {
    type V = UintExpression;

    open spec fn deep_view(&self) -> UintExpression {
        *self
    }
}

impl DeepView for ArrayExpression {
    type V = ArrayExpression;

    open spec fn deep_view(&self) -> ArrayExpression {
        *self
    }
}

impl DeepView for Expression {
    type V = Expression;

    open spec fn deep_view(&self) -> Expression {
        *self
    }
}

impl DeepView for Type {
    type V = Type;

    open spec fn deep_view(&self) -> Type {
        *self
    }
}

/// Spec mirror of [`Variable`].
pub struct VariableV {
    pub name: Seq<char>,
    pub _type: Type,
}

impl DeepView for Variable {
    type V = VariableV;

    open spec fn deep_view(&self) -> VariableV {
        VariableV { name: self.name@, _type: self._type }
    }
}

/// Spec mirror of [`Signature`].
pub struct SignatureV {
    pub inputs: Seq<Type>,
    pub outputs: Seq<Type>,
}

impl DeepView for Signature {
    type V = SignatureV;

    open spec fn deep_view(&self) -> SignatureV {
        SignatureV { inputs: self.inputs@, outputs: self.outputs@ }
    }
}

/// Spec mirror of [`Case`].
pub struct CaseV {
    pub parameters: Seq<VariableV>,
    pub expressions: Seq<BooleanExpression>,
    pub return_values: Seq<VariableV>,
}

impl DeepView for Case {
    type V = CaseV;

    open spec fn deep_view(&self) -> CaseV {
        CaseV {
            parameters: self.parameters.deep_view(),
            expressions: self.expressions.deep_view(),
            return_values: self.return_values.deep_view(),
        }
    }
}

/// Spec mirror of [`Function`].
pub struct FunctionV {
    pub name: Seq<char>,
    pub cases: Seq<CaseV>,
    pub recursive: bool,
    pub signature: SignatureV,
}

impl DeepView for Function {
    type V = FunctionV;

    open spec fn deep_view(&self) -> FunctionV {
        FunctionV {
            name: self.name@,
            cases: self.cases.deep_view(),
            recursive: self.recursive,
            signature: self.signature.deep_view(),
        }
    }
}

/// Spec mirror of [`StateVariable`].
pub struct StateVariableV {
    pub name: Seq<char>,
    pub _type: Type,
}

impl DeepView for StateVariable {
    type V = StateVariableV;

    open spec fn deep_view(&self) -> StateVariableV {
        StateVariableV { name: self.name@, _type: self._type }
    }
}

/// Spec mirror of [`Contract`].
pub struct ContractV {
    pub state: Seq<StateVariableV>,
    pub functions: Seq<FunctionV>,
}

impl DeepView for Contract {
    type V = ContractV;

    open spec fn deep_view(&self) -> ContractV {
        ContractV { state: self.state.deep_view(), functions: self.functions.deep_view() }
    }
}

} // verus!
