//! What a caller tells the function and statement productions about the
//! position they are in.

use vstd::prelude::*;
use crate::ast::FunctionType;

verus! {

/// The kind of function that is asked for. It decides whether a name is
/// required and, with the presence of a body, the type of the node.
#[derive(Clone, Copy, Debug, PartialEq, Eq, Structural)]
pub enum FunctionKind {
    Declaration,
    DefaultExport,
    Expression,
    TSDeclaration,
}

impl FunctionKind {
    pub open spec fn spec_is_id_required(self) -> bool {
        self == FunctionKind::Declaration
    }

    pub open spec fn spec_is_expression(self) -> bool {
        self == FunctionKind::Expression
    }

    pub fn is_id_required(self) -> (b: bool)
        ensures
            b == self.spec_is_id_required(),
    {
        matches!(self, FunctionKind::Declaration)
    }

    pub fn is_expression(self) -> (b: bool)
        ensures
            b == self.spec_is_expression(),
    {
        self == FunctionKind::Expression
    }
}

/// The type of a function node, from the kind that was asked for and from
/// whether a body was found.
pub open spec fn spec_function_type(kind: FunctionKind, has_body: bool) -> FunctionType {
    match kind {
        FunctionKind::Declaration | FunctionKind::DefaultExport => if has_body {
            FunctionType::FunctionDeclaration
        } else {
            FunctionType::TSDeclareFunction
        },
        FunctionKind::Expression => if has_body {
            FunctionType::FunctionExpression
        } else {
            FunctionType::TSEmptyBodyFunctionExpression
        },
        FunctionKind::TSDeclaration => FunctionType::TSDeclareFunction,
    }
}

/// Executable form of [`spec_function_type`].
pub fn function_type(kind: FunctionKind, has_body: bool) -> (t: FunctionType)
    ensures
        t == spec_function_type(kind, has_body),
        !has_body ==> t.spec_is_bodiless(),
{
    match kind {
        FunctionKind::Declaration | FunctionKind::DefaultExport => {
            if has_body {
                FunctionType::FunctionDeclaration
            } else {
                FunctionType::TSDeclareFunction
            }
        },
        FunctionKind::Expression => {
            if has_body {
                FunctionType::FunctionExpression
            } else {
                FunctionType::TSEmptyBodyFunctionExpression
            }
        },
        FunctionKind::TSDeclaration => FunctionType::TSDeclareFunction,
    }
}

/// A function node has a type without a body exactly if no body was found or
/// a TypeScript declaration was asked for: the type never says more than
/// the kind and the body's presence do.
pub proof fn lemma_bodiless_types(kind: FunctionKind, has_body: bool)
    ensures
        spec_function_type(kind, has_body).spec_is_bodiless() <==> (!has_body || kind
            == FunctionKind::TSDeclaration),
        has_body && kind != FunctionKind::TSDeclaration ==> (spec_function_type(kind, has_body)
            == FunctionType::FunctionExpression <==> kind == FunctionKind::Expression),
{
}

/// Where a statement stands: in a list of statements, or as the body of
/// another statement without braces around it.
#[derive(Clone, Copy, Debug, PartialEq, Eq, Structural)]
pub enum StatementContext {
    StatementList,
    If,
    Label,
    Do,
    While,
    With,
    For,
}

impl StatementContext {
    pub open spec fn spec_is_single_statement(self) -> bool {
        self != StatementContext::StatementList
    }

    pub fn is_single_statement(self) -> (b: bool)
        ensures
            b == self.spec_is_single_statement(),
    {
        self != StatementContext::StatementList
    }
}

} // verus!
