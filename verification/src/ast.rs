//! The syntax tree.
//!
//! Nodes live in one vector per parse and refer to each other by index. A
//! node is stored after all of its children, so an index always points at a
//! node that was complete when its parent was made, and nothing is ever
//! changed after it was stored.

use vstd::prelude::*;
use crate::span::Span;
use crate::modifiers::Accessibility;

verus! {

/// The index of a node in its tree.
pub type NodeId = usize;

/// A run of child indices in the tree's list table.
#[derive(Clone, Copy, Debug, PartialEq, Eq, Structural)]
pub struct NodeList {
    pub start: usize,
    pub len: usize,
}

/// What a function node is; derived from the kind of function that was asked
/// for and from whether a body was found, never chosen freely.
#[derive(Clone, Copy, Debug, PartialEq, Eq, Structural)]
pub enum FunctionType {
    FunctionDeclaration,
    FunctionExpression,
    TSDeclareFunction,
    TSEmptyBodyFunctionExpression,
}

impl FunctionType {
    /// The types of functions that have no body.
    pub open spec fn spec_is_bodiless(self) -> bool {
        self == FunctionType::TSDeclareFunction || self
            == FunctionType::TSEmptyBodyFunctionExpression
    }

    pub fn is_bodiless(self) -> (b: bool)
        ensures
            b == self.spec_is_bodiless(),
    {
        self == FunctionType::TSDeclareFunction || self
            == FunctionType::TSEmptyBodyFunctionExpression
    }
}

#[derive(Clone, Copy, Debug, PartialEq, Eq, Structural)]
pub enum FormalParameterKind {
    FormalParameter,
    UniqueFormalParameters,
    ArrowFormalParameters,
    Signature,
}

#[derive(Clone, Copy, Debug, PartialEq, Eq, Structural)]
pub enum VariableKind {
    Var,
    Let,
    Const,
}

#[derive(Clone, Copy, Debug, PartialEq, Eq, Structural)]
pub enum LiteralKind {
    Null,
    True,
    False,
    Number,
    Str,
}

/// One node of the tree.
#[allow(inconsistent_fields)]
#[derive(Clone, Copy, Debug, PartialEq, Eq, Structural)]
pub enum Node {
    /// Stands where a production gave up after a hard failure.
    Dummy { span: Span },
    Program { span: Span, body: NodeList },
    BlockStatement { span: Span, body: NodeList },
    EmptyStatement { span: Span },
    ExpressionStatement { span: Span, expression: NodeId },
    IfStatement { span: Span, test: NodeId, consequent: NodeId, alternate: Option<NodeId> },
    ReturnStatement { span: Span, argument: Option<NodeId> },
    VariableDeclaration { span: Span, kind: VariableKind, declarations: NodeList },
    VariableDeclarator { span: Span, id: NodeId, init: Option<NodeId> },
    ExportDefaultDeclaration { span: Span, declaration: NodeId },
    ClassDeclaration { span: Span, id: Option<NodeId>, body: NodeList },
    MethodDefinition { span: Span, key: NodeId, value: NodeId, is_static: bool },
    Function {
        span: Span,
        function_type: FunctionType,
        id: Option<NodeId>,
        generator: bool,
        is_async: bool,
        declare: bool,
        type_parameters: Option<NodeId>,
        this_param: Option<NodeId>,
        params: NodeId,
        return_type: Option<NodeId>,
        body: Option<NodeId>,
    },
    FunctionBody { span: Span, statements: NodeList },
    FormalParameters {
        span: Span,
        kind: FormalParameterKind,
        items: NodeList,
        rest: Option<NodeId>,
    },
    FormalParameter {
        span: Span,
        decorators: NodeList,
        pattern: NodeId,
        accessibility: Option<Accessibility>,
        readonly: bool,
        is_override: bool,
    },
    BindingRestElement { span: Span, argument: NodeId },
    BindingIdentifier { span: Span },
    BindingPattern { span: Span, id: NodeId, type_annotation: Option<NodeId>, optional: bool },
    AssignmentPattern { span: Span, left: NodeId, right: NodeId },
    Decorator { span: Span, expression: NodeId },
    TSThisParameter { span: Span, this_span: Span, type_annotation: Option<NodeId> },
    TSTypeParameterDeclaration { span: Span, params: NodeList },
    TSTypeParameter { span: Span, name: NodeId },
    TSTypeAnnotation { span: Span, type_node: NodeId },
    TSTypeReference { span: Span },
    TSVoidKeyword { span: Span },
    IdentifierReference { span: Span },
    IdentifierName { span: Span },
    ThisExpression { span: Span },
    Literal { span: Span, kind: LiteralKind },
    RegExpLiteral { span: Span },
    ArrayExpression { span: Span, elements: NodeList },
    SpreadElement { span: Span, argument: NodeId },
    ParenthesizedExpression { span: Span, expression: NodeId },
    CallExpression { span: Span, callee: NodeId, arguments: NodeList },
    NewExpression { span: Span, callee: NodeId, arguments: NodeList },
    StaticMemberExpression { span: Span, object: NodeId, property: NodeId },
    ComputedMemberExpression { span: Span, object: NodeId, expression: NodeId },
    AssignmentExpression { span: Span, left: NodeId, right: NodeId },
    YieldExpression { span: Span, delegate: bool, argument: Option<NodeId> },
}

/// An optional child lies below `id`.
pub open spec fn opt_below(child: Option<NodeId>, id: int) -> bool {
    child matches Some(c) ==> c < id
}

/// A child list lies inside the table and names only nodes below `id`.
pub open spec fn list_below(list: NodeList, id: int, lists: Seq<NodeId>) -> bool {
    &&& list.start + list.len <= lists.len()
    &&& forall|k: int| list.start <= k < list.start + list.len ==> #[trigger] lists[k] < id
}

impl Node {
    pub open spec fn spec_span(self) -> Span {
        match self {
            Node::Dummy { span } => span,
            Node::Program { span, .. } => span,
            Node::BlockStatement { span, .. } => span,
            Node::EmptyStatement { span } => span,
            Node::ExpressionStatement { span, .. } => span,
            Node::IfStatement { span, .. } => span,
            Node::ReturnStatement { span, .. } => span,
            Node::VariableDeclaration { span, .. } => span,
            Node::VariableDeclarator { span, .. } => span,
            Node::ExportDefaultDeclaration { span, .. } => span,
            Node::ClassDeclaration { span, .. } => span,
            Node::MethodDefinition { span, .. } => span,
            Node::Function { span, .. } => span,
            Node::FunctionBody { span, .. } => span,
            Node::FormalParameters { span, .. } => span,
            Node::FormalParameter { span, .. } => span,
            Node::BindingRestElement { span, .. } => span,
            Node::BindingIdentifier { span } => span,
            Node::BindingPattern { span, .. } => span,
            Node::AssignmentPattern { span, .. } => span,
            Node::Decorator { span, .. } => span,
            Node::TSThisParameter { span, .. } => span,
            Node::TSTypeParameterDeclaration { span, .. } => span,
            Node::TSTypeParameter { span, .. } => span,
            Node::TSTypeAnnotation { span, .. } => span,
            Node::TSTypeReference { span } => span,
            Node::TSVoidKeyword { span } => span,
            Node::IdentifierReference { span } => span,
            Node::IdentifierName { span } => span,
            Node::ThisExpression { span } => span,
            Node::Literal { span, .. } => span,
            Node::RegExpLiteral { span } => span,
            Node::ArrayExpression { span, .. } => span,
            Node::SpreadElement { span, .. } => span,
            Node::ParenthesizedExpression { span, .. } => span,
            Node::CallExpression { span, .. } => span,
            Node::NewExpression { span, .. } => span,
            Node::StaticMemberExpression { span, .. } => span,
            Node::ComputedMemberExpression { span, .. } => span,
            Node::AssignmentExpression { span, .. } => span,
            Node::YieldExpression { span, .. } => span,
        }
    }

    /// Every child that the node names lies below `id`, every child list lies
    /// inside `lists`, and a function without a body has a type that allows
    /// that.
    pub open spec fn links_below(self, id: int, lists: Seq<NodeId>) -> bool {
        match self {
            Node::Program { body, .. } => list_below(body, id, lists),
            Node::BlockStatement { body, .. } => list_below(body, id, lists),
            Node::ExpressionStatement { expression, .. } => expression < id,
            Node::IfStatement { test, consequent, alternate, .. } => test < id && consequent < id
                && opt_below(alternate, id),
            Node::ReturnStatement { argument, .. } => opt_below(argument, id),
            Node::VariableDeclaration { declarations, .. } => list_below(declarations, id, lists),
            Node::VariableDeclarator { id: name, init, .. } => name < id && opt_below(init, id),
            Node::ExportDefaultDeclaration { declaration, .. } => declaration < id,
            Node::ClassDeclaration { id: name, body, .. } => opt_below(name, id) && list_below(
                body,
                id,
                lists,
            ),
            Node::MethodDefinition { key, value, .. } => key < id && value < id,
            Node::Function {
                function_type,
                id: name,
                type_parameters,
                this_param,
                params,
                return_type,
                body,
                ..
            } => opt_below(name, id) && opt_below(type_parameters, id) && opt_below(
                this_param,
                id,
            ) && params < id && opt_below(return_type, id) && opt_below(body, id) && (body is None
                ==> function_type.spec_is_bodiless()),
            Node::FunctionBody { statements, .. } => list_below(statements, id, lists),
            Node::FormalParameters { items, rest, .. } => list_below(items, id, lists)
                && opt_below(rest, id),
            Node::FormalParameter { decorators, pattern, .. } => list_below(
                decorators,
                id,
                lists,
            ) && pattern < id,
            Node::BindingRestElement { argument, .. } => argument < id,
            Node::BindingPattern { id: name, type_annotation, .. } => name < id && opt_below(
                type_annotation,
                id,
            ),
            Node::AssignmentPattern { left, right, .. } => left < id && right < id,
            Node::Decorator { expression, .. } => expression < id,
            Node::TSThisParameter { type_annotation, .. } => opt_below(type_annotation, id),
            Node::TSTypeParameterDeclaration { params, .. } => list_below(params, id, lists),
            Node::TSTypeParameter { name, .. } => name < id,
            Node::TSTypeAnnotation { type_node, .. } => type_node < id,
            Node::ArrayExpression { elements, .. } => list_below(elements, id, lists),
            Node::SpreadElement { argument, .. } => argument < id,
            Node::ParenthesizedExpression { expression, .. } => expression < id,
            Node::CallExpression { callee, arguments, .. } => callee < id && list_below(
                arguments,
                id,
                lists,
            ),
            Node::NewExpression { callee, arguments, .. } => callee < id && list_below(
                arguments,
                id,
                lists,
            ),
            Node::StaticMemberExpression { object, property, .. } => object < id && property < id,
            Node::ComputedMemberExpression { object, expression, .. } => object < id && expression
                < id,
            Node::AssignmentExpression { left, right, .. } => left < id && right < id,
            Node::YieldExpression { argument, .. } => opt_below(argument, id),
            _ => true,
        }
    }

    /// What holds of a node stored at index `id`: its span is valid and
    /// [`Node::links_below`] holds.
    pub open spec fn wf_at(self, id: int, lists: Seq<NodeId>) -> bool {
        self.spec_span().wf() && self.links_below(id, lists)
    }

    pub fn span(&self) -> (s: Span)
        ensures
            s == self.spec_span(),
    {
        match self {
            Node::Dummy { span } => *span,
            Node::Program { span, .. } => *span,
            Node::BlockStatement { span, .. } => *span,
            Node::EmptyStatement { span } => *span,
            Node::ExpressionStatement { span, .. } => *span,
            Node::IfStatement { span, .. } => *span,
            Node::ReturnStatement { span, .. } => *span,
            Node::VariableDeclaration { span, .. } => *span,
            Node::VariableDeclarator { span, .. } => *span,
            Node::ExportDefaultDeclaration { span, .. } => *span,
            Node::ClassDeclaration { span, .. } => *span,
            Node::MethodDefinition { span, .. } => *span,
            Node::Function { span, .. } => *span,
            Node::FunctionBody { span, .. } => *span,
            Node::FormalParameters { span, .. } => *span,
            Node::FormalParameter { span, .. } => *span,
            Node::BindingRestElement { span, .. } => *span,
            Node::BindingIdentifier { span } => *span,
            Node::BindingPattern { span, .. } => *span,
            Node::AssignmentPattern { span, .. } => *span,
            Node::Decorator { span, .. } => *span,
            Node::TSThisParameter { span, .. } => *span,
            Node::TSTypeParameterDeclaration { span, .. } => *span,
            Node::TSTypeParameter { span, .. } => *span,
            Node::TSTypeAnnotation { span, .. } => *span,
            Node::TSTypeReference { span } => *span,
            Node::TSVoidKeyword { span } => *span,
            Node::IdentifierReference { span } => *span,
            Node::IdentifierName { span } => *span,
            Node::ThisExpression { span } => *span,
            Node::Literal { span, .. } => *span,
            Node::RegExpLiteral { span } => *span,
            Node::ArrayExpression { span, .. } => *span,
            Node::SpreadElement { span, .. } => *span,
            Node::ParenthesizedExpression { span, .. } => *span,
            Node::CallExpression { span, .. } => *span,
            Node::NewExpression { span, .. } => *span,
            Node::StaticMemberExpression { span, .. } => *span,
            Node::ComputedMemberExpression { span, .. } => *span,
            Node::AssignmentExpression { span, .. } => *span,
            Node::YieldExpression { span, .. } => *span,
        }
    }
}

/// The tree is well formed: every node satisfies [`Node::wf_at`] at its own
/// index.
pub open spec fn spec_tree_wf(nodes: Seq<Node>, lists: Seq<NodeId>) -> bool {
    forall|i: int| 0 <= i < nodes.len() ==> (#[trigger] nodes[i]).wf_at(i, lists)
}

/// A node that is well formed against a list table stays so when the table
/// grows at its end.
pub proof fn lemma_wf_at_grows(node: Node, id: int, lists: Seq<NodeId>, more: Seq<NodeId>)
    requires
        node.wf_at(id, lists),
    ensures
        node.wf_at(id, lists + more),
{
    assert forall|l: NodeList| list_below(l, id, lists) implies list_below(
        l,
        id,
        lists + more,
    ) by {
        assert forall|k: int| l.start <= k < l.start + l.len implies #[trigger] (lists + more)[k]
            < id by {
            assert((lists + more)[k] == lists[k]);
        }
    }
}

/// A well-formed tree stays well formed when its list table grows at its end.
pub proof fn lemma_tree_wf_lists_grow(nodes: Seq<Node>, lists: Seq<NodeId>, more: Seq<NodeId>)
    requires
        spec_tree_wf(nodes, lists),
    ensures
        spec_tree_wf(nodes, lists + more),
{
    assert forall|i: int| 0 <= i < nodes.len() implies (#[trigger] nodes[i]).wf_at(
        i,
        lists + more,
    ) by {
        lemma_wf_at_grows(nodes[i], i, lists, more);
    }
}

/// A syntax tree: the nodes, and the table that holds their child lists.
pub struct Ast {
    pub nodes: Vec<Node>,
    pub lists: Vec<NodeId>,
}

impl Ast {
    pub open spec fn wf(&self) -> bool {
        spec_tree_wf(self.nodes@, self.lists@)
    }

    /// The children that `list` names, or nothing where `list` does not lie
    /// inside the table.
    pub open spec fn spec_items(&self, list: NodeList) -> Seq<NodeId> {
        if list.start + list.len <= self.lists@.len() {
            self.lists@.subrange(list.start as int, list.start + list.len)
        } else {
            Seq::empty()
        }
    }

    pub fn new() -> (ast: Ast)
        ensures
            ast.nodes@ == Seq::<Node>::empty(),
            ast.lists@ == Seq::<NodeId>::empty(),
            ast.wf(),
    {
        Ast { nodes: Vec::new(), lists: Vec::new() }
    }

    pub fn len(&self) -> (n: usize)
        ensures
            n == self.nodes@.len(),
    {
        self.nodes.len()
    }

    /// The node at `id`, if there is one.
    pub fn get(&self, id: NodeId) -> (node: Option<Node>)
        ensures
            node == if id < self.nodes@.len() {
                Some(self.nodes@[id as int])
            } else {
                None
            },
    {
        if id < self.nodes.len() {
            Some(self.nodes[id])
        } else {
            None
        }
    }

    /// The node at `id`.
    pub fn node(&self, id: NodeId) -> (node: Node)
        requires
            id < self.nodes@.len(),
        ensures
            node == self.nodes@[id as int],
    {
        self.nodes[id]
    }

    /// The children that `list` names, in order.
    pub fn items(&self, list: NodeList) -> (out: Vec<NodeId>)
        ensures
            out@ == self.spec_items(list),
    {
        let mut out: Vec<NodeId> = Vec::new();
        if list.len > self.lists.len() || list.start > self.lists.len() - list.len {
            return out;
        }
        let mut i: usize = 0;
        while i < list.len
            invariant
                i <= list.len,
                list.start + list.len <= self.lists@.len() <= usize::MAX,
                out@ == self.lists@.subrange(list.start as int, list.start + i),
            decreases list.len - i,
        {
            out.push(self.lists[list.start + i]);
            i += 1;
            assert(out@ =~= self.lists@.subrange(list.start as int, list.start + i));
        }
        out
    }

    /// The child at place `i` of `list`, if there is one.
    pub fn item(&self, list: NodeList, i: usize) -> (child: Option<NodeId>)
        ensures
            child == if i < self.spec_items(list).len() {
                Some(self.spec_items(list)[i as int])
            } else {
                None
            },
            self.wf() && child is Some ==> forall|id: int|
                0 <= id < self.nodes@.len() && list_below(list, id, self.lists@) ==> child->0 < id,
    {
        if list.len > self.lists.len() || list.start > self.lists.len() - list.len {
            return None;
        }
        if i < list.len {
            Some(self.lists[list.start + i])
        } else {
            None
        }
    }
}

} // verus!
