//! Diagnostics: the closed taxonomy of semantic errors, the structured
//! record the analyzer emits for each one, and the result of a whole run.
//!
//! None of these errors is fatal to a run: analysis always completes and
//! returns the full, ordered diagnostic list.

use crate::ast::Pos;
use vstd::prelude::*;

verus! {

/// The closed taxonomy of semantic errors.
#[derive(Clone, Copy, PartialEq, Eq, Structural, Debug)]
pub enum ErrorKind {
    /// A second function declaration with a name already declared.
    DuplicateDefinition,
    /// A use of a variable name with no live binding.
    UndeclaredVariable,
    /// An assignment to a binding declared without `mut`.
    ImmutableAssignment,
    /// Incompatible types where matching ones are required.
    TypeMismatch,
    /// An `if`, `while` condition that is not boolean.
    ConditionTypeError,
    /// A returned value incompatible with the declared return type.
    ReturnTypeMismatch,
    /// A function with a non-unit return type and no return in its body.
    MissingReturn,
    /// A call of a function name that no declaration defines.
    UndefinedFunction,
    /// A call with the wrong number of arguments.
    ArityMismatch { expected: usize, given: usize },
    /// A `break` or `continue` lexically outside every loop body.
    MisplacedControlFlow,
    /// Traversal stopped in a subtree nested deeper than the analyzer's
    /// recursion budget.
    RecursionLimitExceeded,
}

/// The mathematical content of one diagnostic: its kind and the position of
/// the construct that triggered it. The human-readable message of a
/// [`Diagnostic`] is a pure function of the kind, so this pair determines the
/// whole record.
#[derive(Clone, Copy, PartialEq, Eq, Structural, Debug)]
pub struct DiagInfo {
    pub kind: ErrorKind,
    pub pos: Pos,
}

/// One reported semantic error: its kind, a human-readable message, and the
/// source position of the triggering construct.
#[derive(Clone, Debug)]
pub struct Diagnostic {
    pub kind: ErrorKind,
    pub message: String,
    pub pos: Pos,
}

impl Diagnostic {
    /// The kind and position of this diagnostic, as one value.
    pub open spec fn info(self) -> DiagInfo {
        DiagInfo { kind: self.kind, pos: self.pos }
    }
}

/// The message that belongs to each error kind.
pub open spec fn message_spec(kind: ErrorKind) -> Seq<char> {
    match kind {
        ErrorKind::DuplicateDefinition => "duplicate definition"@,
        ErrorKind::UndeclaredVariable => "use of undeclared variable"@,
        ErrorKind::ImmutableAssignment => "assignment to immutable binding"@,
        ErrorKind::TypeMismatch => "type mismatch"@,
        ErrorKind::ConditionTypeError => "condition must be boolean"@,
        ErrorKind::ReturnTypeMismatch => "returned value has wrong type"@,
        ErrorKind::MissingReturn => "missing return in non-unit function"@,
        ErrorKind::UndefinedFunction => "call of undefined function"@,
        ErrorKind::ArityMismatch { .. } => "wrong number of arguments"@,
        ErrorKind::MisplacedControlFlow => "break or continue outside a loop"@,
        ErrorKind::RecursionLimitExceeded => "nesting too deep to analyze"@,
    }
}

/// Builds the message for an error kind.
pub fn message_for(kind: ErrorKind) -> (s: String)
    ensures
        s@ == message_spec(kind),
{
    match kind {
        ErrorKind::DuplicateDefinition => String::from_str("duplicate definition"),
        ErrorKind::UndeclaredVariable => String::from_str("use of undeclared variable"),
        ErrorKind::ImmutableAssignment => String::from_str("assignment to immutable binding"),
        ErrorKind::TypeMismatch => String::from_str("type mismatch"),
        ErrorKind::ConditionTypeError => String::from_str("condition must be boolean"),
        ErrorKind::ReturnTypeMismatch => String::from_str("returned value has wrong type"),
        ErrorKind::MissingReturn => String::from_str("missing return in non-unit function"),
        ErrorKind::UndefinedFunction => String::from_str("call of undefined function"),
        ErrorKind::ArityMismatch { .. } => String::from_str("wrong number of arguments"),
        ErrorKind::MisplacedControlFlow => String::from_str("break or continue outside a loop"),
        ErrorKind::RecursionLimitExceeded => String::from_str("nesting too deep to analyze"),
    }
}

/// The kinds and positions of a sequence of diagnostics.
pub open spec fn infos_of(ds: Seq<Diagnostic>) -> Seq<DiagInfo> {
    ds.map_values(|d: Diagnostic| d.info())
}

/// Every diagnostic in the sequence carries the message of its kind.
pub open spec fn messages_wf(ds: Seq<Diagnostic>) -> bool {
    forall|i: int|
        0 <= i < ds.len() ==> (#[trigger] ds[i]).message@ == message_spec(ds[i].kind)
}

/// The outcome of analyzing one program: whether it was accepted, and the
/// ordered diagnostics. A program is accepted exactly when no diagnostic was
/// recorded.
pub struct AnalysisResult {
    pub accepted: bool,
    pub diagnostics: Vec<Diagnostic>,
}

} // verus!
