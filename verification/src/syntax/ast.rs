//! Typed nodes: a node of the tree together with the knowledge of what
//! kind of node it is.

use vstd::prelude::*;
use crate::syntax::syntax_kind::SyntaxKind;
use crate::syntax::tree::{is_type_ref, spec_is_type_ref, SyntaxNode};

verus! {

/// A name at the place of its definition.
#[derive(Clone, Copy, Debug, PartialEq, Eq)]
pub struct Name<'a> {
    pub syntax: SyntaxNode<'a>,
}

impl<'a> Name<'a> {
    /// The node as one of this type, if it is of the type's kind.
    pub open spec fn spec_cast(syntax: SyntaxNode<'a>) -> Option<Name<'a>> {
        if syntax.spec_kind() == SyntaxKind::NAME {
            Some(Name { syntax })
        } else {
            None
        }
    }

    /// The node as one of this type, if it is of the type's kind.
    pub fn cast(syntax: SyntaxNode<'a>) -> (node: Option<Name<'a>>)
        requires
            syntax.wf(),
        ensures
            node == Self::spec_cast(syntax),
    {
        if syntax.kind() == SyntaxKind::NAME {
            Some(Name { syntax })
        } else {
            None
        }
    }
}

/// A name at a place of use.
#[derive(Clone, Copy, Debug, PartialEq, Eq)]
pub struct NameRef<'a> {
    pub syntax: SyntaxNode<'a>,
}

impl<'a> NameRef<'a> {
    /// The node as one of this type, if it is of the type's kind.
    pub open spec fn spec_cast(syntax: SyntaxNode<'a>) -> Option<NameRef<'a>> {
        if syntax.spec_kind() == SyntaxKind::NAME_REF {
            Some(NameRef { syntax })
        } else {
            None
        }
    }

    /// The node as one of this type, if it is of the type's kind.
    pub fn cast(syntax: SyntaxNode<'a>) -> (node: Option<NameRef<'a>>)
        requires
            syntax.wf(),
        ensures
            node == Self::spec_cast(syntax),
    {
        if syntax.kind() == SyntaxKind::NAME_REF {
            Some(NameRef { syntax })
        } else {
            None
        }
    }
}

/// An attribute.
#[derive(Clone, Copy, Debug, PartialEq, Eq)]
pub struct Attr<'a> {
    pub syntax: SyntaxNode<'a>,
}

impl<'a> Attr<'a> {
    /// The node as one of this type, if it is of the type's kind.
    pub open spec fn spec_cast(syntax: SyntaxNode<'a>) -> Option<Attr<'a>> {
        if syntax.spec_kind() == SyntaxKind::ATTR {
            Some(Attr { syntax })
        } else {
            None
        }
    }

    /// The node as one of this type, if it is of the type's kind.
    pub fn cast(syntax: SyntaxNode<'a>) -> (node: Option<Attr<'a>>)
        requires
            syntax.wf(),
        ensures
            node == Self::spec_cast(syntax),
    {
        if syntax.kind() == SyntaxKind::ATTR {
            Some(Attr { syntax })
        } else {
            None
        }
    }
}

/// A bracketed run of tokens.
#[derive(Clone, Copy, Debug, PartialEq, Eq)]
pub struct TokenTree<'a> {
    pub syntax: SyntaxNode<'a>,
}

impl<'a> TokenTree<'a> {
    /// The node as one of this type, if it is of the type's kind.
    pub open spec fn spec_cast(syntax: SyntaxNode<'a>) -> Option<TokenTree<'a>> {
        if syntax.spec_kind() == SyntaxKind::TOKEN_TREE {
            Some(TokenTree { syntax })
        } else {
            None
        }
    }

    /// The node as one of this type, if it is of the type's kind.
    pub fn cast(syntax: SyntaxNode<'a>) -> (node: Option<TokenTree<'a>>)
        requires
            syntax.wf(),
        ensures
            node == Self::spec_cast(syntax),
    {
        if syntax.kind() == SyntaxKind::TOKEN_TREE {
            Some(TokenTree { syntax })
        } else {
            None
        }
    }
}

/// One segment of a path.
#[derive(Clone, Copy, Debug, PartialEq, Eq)]
pub struct PathSegment<'a> {
    pub syntax: SyntaxNode<'a>,
}

impl<'a> PathSegment<'a> {
    /// The node as one of this type, if it is of the type's kind.
    pub open spec fn spec_cast(syntax: SyntaxNode<'a>) -> Option<PathSegment<'a>> {
        if syntax.spec_kind() == SyntaxKind::PATH_SEGMENT {
            Some(PathSegment { syntax })
        } else {
            None
        }
    }

    /// The node as one of this type, if it is of the type's kind.
    pub fn cast(syntax: SyntaxNode<'a>) -> (node: Option<PathSegment<'a>>)
        requires
            syntax.wf(),
        ensures
            node == Self::spec_cast(syntax),
    {
        if syntax.kind() == SyntaxKind::PATH_SEGMENT {
            Some(PathSegment { syntax })
        } else {
            None
        }
    }
}

/// A path.
#[derive(Clone, Copy, Debug, PartialEq, Eq)]
pub struct Path<'a> {
    pub syntax: SyntaxNode<'a>,
}

impl<'a> Path<'a> {
    /// The node as one of this type, if it is of the type's kind.
    pub open spec fn spec_cast(syntax: SyntaxNode<'a>) -> Option<Path<'a>> {
        if syntax.spec_kind() == SyntaxKind::PATH {
            Some(Path { syntax })
        } else {
            None
        }
    }

    /// The node as one of this type, if it is of the type's kind.
    pub fn cast(syntax: SyntaxNode<'a>) -> (node: Option<Path<'a>>)
        requires
            syntax.wf(),
        ensures
            node == Self::spec_cast(syntax),
    {
        if syntax.kind() == SyntaxKind::PATH {
            Some(Path { syntax })
        } else {
            None
        }
    }
}

/// A module item.
#[derive(Clone, Copy, Debug, PartialEq, Eq)]
pub struct Module<'a> {
    pub syntax: SyntaxNode<'a>,
}

impl<'a> Module<'a> {
    /// The node as one of this type, if it is of the type's kind.
    pub open spec fn spec_cast(syntax: SyntaxNode<'a>) -> Option<Module<'a>> {
        if syntax.spec_kind() == SyntaxKind::MODULE {
            Some(Module { syntax })
        } else {
            None
        }
    }

    /// The node as one of this type, if it is of the type's kind.
    pub fn cast(syntax: SyntaxNode<'a>) -> (node: Option<Module<'a>>)
        requires
            syntax.wf(),
        ensures
            node == Self::spec_cast(syntax),
    {
        if syntax.kind() == SyntaxKind::MODULE {
            Some(Module { syntax })
        } else {
            None
        }
    }
}

/// A tree of a use item.
#[derive(Clone, Copy, Debug, PartialEq, Eq)]
pub struct UseTree<'a> {
    pub syntax: SyntaxNode<'a>,
}

impl<'a> UseTree<'a> {
    /// The node as one of this type, if it is of the type's kind.
    pub open spec fn spec_cast(syntax: SyntaxNode<'a>) -> Option<UseTree<'a>> {
        if syntax.spec_kind() == SyntaxKind::USE_TREE {
            Some(UseTree { syntax })
        } else {
            None
        }
    }

    /// The node as one of this type, if it is of the type's kind.
    pub fn cast(syntax: SyntaxNode<'a>) -> (node: Option<UseTree<'a>>)
        requires
            syntax.wf(),
        ensures
            node == Self::spec_cast(syntax),
    {
        if syntax.kind() == SyntaxKind::USE_TREE {
            Some(UseTree { syntax })
        } else {
            None
        }
    }
}

/// The braced list of a use tree.
#[derive(Clone, Copy, Debug, PartialEq, Eq)]
pub struct UseTreeList<'a> {
    pub syntax: SyntaxNode<'a>,
}

impl<'a> UseTreeList<'a> {
    /// The node as one of this type, if it is of the type's kind.
    pub open spec fn spec_cast(syntax: SyntaxNode<'a>) -> Option<UseTreeList<'a>> {
        if syntax.spec_kind() == SyntaxKind::USE_TREE_LIST {
            Some(UseTreeList { syntax })
        } else {
            None
        }
    }

    /// The node as one of this type, if it is of the type's kind.
    pub fn cast(syntax: SyntaxNode<'a>) -> (node: Option<UseTreeList<'a>>)
        requires
            syntax.wf(),
        ensures
            node == Self::spec_cast(syntax),
    {
        if syntax.kind() == SyntaxKind::USE_TREE_LIST {
            Some(UseTreeList { syntax })
        } else {
            None
        }
    }
}

/// An impl block.
#[derive(Clone, Copy, Debug, PartialEq, Eq)]
pub struct ImplBlock<'a> {
    pub syntax: SyntaxNode<'a>,
}

impl<'a> ImplBlock<'a> {
    /// The node as one of this type, if it is of the type's kind.
    pub open spec fn spec_cast(syntax: SyntaxNode<'a>) -> Option<ImplBlock<'a>> {
        if syntax.spec_kind() == SyntaxKind::IMPL_BLOCK {
            Some(ImplBlock { syntax })
        } else {
            None
        }
    }

    /// The node as one of this type, if it is of the type's kind.
    pub fn cast(syntax: SyntaxNode<'a>) -> (node: Option<ImplBlock<'a>>)
        requires
            syntax.wf(),
        ensures
            node == Self::spec_cast(syntax),
    {
        if syntax.kind() == SyntaxKind::IMPL_BLOCK {
            Some(ImplBlock { syntax })
        } else {
            None
        }
    }
}

/// A struct definition.
#[derive(Clone, Copy, Debug, PartialEq, Eq)]
pub struct StructDef<'a> {
    pub syntax: SyntaxNode<'a>,
}

impl<'a> StructDef<'a> {
    /// The node as one of this type, if it is of the type's kind.
    pub open spec fn spec_cast(syntax: SyntaxNode<'a>) -> Option<StructDef<'a>> {
        if syntax.spec_kind() == SyntaxKind::STRUCT_DEF {
            Some(StructDef { syntax })
        } else {
            None
        }
    }

    /// The node as one of this type, if it is of the type's kind.
    pub fn cast(syntax: SyntaxNode<'a>) -> (node: Option<StructDef<'a>>)
        requires
            syntax.wf(),
        ensures
            node == Self::spec_cast(syntax),
    {
        if syntax.kind() == SyntaxKind::STRUCT_DEF {
            Some(StructDef { syntax })
        } else {
            None
        }
    }
}

/// An enum definition.
#[derive(Clone, Copy, Debug, PartialEq, Eq)]
pub struct EnumDef<'a> {
    pub syntax: SyntaxNode<'a>,
}

impl<'a> EnumDef<'a> {
    /// The node as one of this type, if it is of the type's kind.
    pub open spec fn spec_cast(syntax: SyntaxNode<'a>) -> Option<EnumDef<'a>> {
        if syntax.spec_kind() == SyntaxKind::ENUM_DEF {
            Some(EnumDef { syntax })
        } else {
            None
        }
    }

    /// The node as one of this type, if it is of the type's kind.
    pub fn cast(syntax: SyntaxNode<'a>) -> (node: Option<EnumDef<'a>>)
        requires
            syntax.wf(),
        ensures
            node == Self::spec_cast(syntax),
    {
        if syntax.kind() == SyntaxKind::ENUM_DEF {
            Some(EnumDef { syntax })
        } else {
            None
        }
    }
}

/// A variant of an enum.
#[derive(Clone, Copy, Debug, PartialEq, Eq)]
pub struct EnumVariant<'a> {
    pub syntax: SyntaxNode<'a>,
}

impl<'a> EnumVariant<'a> {
    /// The node as one of this type, if it is of the type's kind.
    pub open spec fn spec_cast(syntax: SyntaxNode<'a>) -> Option<EnumVariant<'a>> {
        if syntax.spec_kind() == SyntaxKind::ENUM_VARIANT {
            Some(EnumVariant { syntax })
        } else {
            None
        }
    }

    /// The node as one of this type, if it is of the type's kind.
    pub fn cast(syntax: SyntaxNode<'a>) -> (node: Option<EnumVariant<'a>>)
        requires
            syntax.wf(),
        ensures
            node == Self::spec_cast(syntax),
    {
        if syntax.kind() == SyntaxKind::ENUM_VARIANT {
            Some(EnumVariant { syntax })
        } else {
            None
        }
    }
}

/// The braced list of named fields.
#[derive(Clone, Copy, Debug, PartialEq, Eq)]
pub struct NamedFieldDefList<'a> {
    pub syntax: SyntaxNode<'a>,
}

impl<'a> NamedFieldDefList<'a> {
    /// The node as one of this type, if it is of the type's kind.
    pub open spec fn spec_cast(syntax: SyntaxNode<'a>) -> Option<NamedFieldDefList<'a>> {
        if syntax.spec_kind() == SyntaxKind::NAMED_FIELD_DEF_LIST {
            Some(NamedFieldDefList { syntax })
        } else {
            None
        }
    }

    /// The node as one of this type, if it is of the type's kind.
    pub fn cast(syntax: SyntaxNode<'a>) -> (node: Option<NamedFieldDefList<'a>>)
        requires
            syntax.wf(),
        ensures
            node == Self::spec_cast(syntax),
    {
        if syntax.kind() == SyntaxKind::NAMED_FIELD_DEF_LIST {
            Some(NamedFieldDefList { syntax })
        } else {
            None
        }
    }
}

/// The parenthesised list of positional fields.
#[derive(Clone, Copy, Debug, PartialEq, Eq)]
pub struct PosFieldDefList<'a> {
    pub syntax: SyntaxNode<'a>,
}

impl<'a> PosFieldDefList<'a> {
    /// The node as one of this type, if it is of the type's kind.
    pub open spec fn spec_cast(syntax: SyntaxNode<'a>) -> Option<PosFieldDefList<'a>> {
        if syntax.spec_kind() == SyntaxKind::POS_FIELD_DEF_LIST {
            Some(PosFieldDefList { syntax })
        } else {
            None
        }
    }

    /// The node as one of this type, if it is of the type's kind.
    pub fn cast(syntax: SyntaxNode<'a>) -> (node: Option<PosFieldDefList<'a>>)
        requires
            syntax.wf(),
        ensures
            node == Self::spec_cast(syntax),
    {
        if syntax.kind() == SyntaxKind::POS_FIELD_DEF_LIST {
            Some(PosFieldDefList { syntax })
        } else {
            None
        }
    }
}

/// A let statement.
#[derive(Clone, Copy, Debug, PartialEq, Eq)]
pub struct LetStmt<'a> {
    pub syntax: SyntaxNode<'a>,
}

impl<'a> LetStmt<'a> {
    /// The node as one of this type, if it is of the type's kind.
    pub open spec fn spec_cast(syntax: SyntaxNode<'a>) -> Option<LetStmt<'a>> {
        if syntax.spec_kind() == SyntaxKind::LET_STMT {
            Some(LetStmt { syntax })
        } else {
            None
        }
    }

    /// The node as one of this type, if it is of the type's kind.
    pub fn cast(syntax: SyntaxNode<'a>) -> (node: Option<LetStmt<'a>>)
        requires
            syntax.wf(),
        ensures
            node == Self::spec_cast(syntax),
    {
        if syntax.kind() == SyntaxKind::LET_STMT {
            Some(LetStmt { syntax })
        } else {
            None
        }
    }
}

/// An expression statement.
#[derive(Clone, Copy, Debug, PartialEq, Eq)]
pub struct ExprStmt<'a> {
    pub syntax: SyntaxNode<'a>,
}

impl<'a> ExprStmt<'a> {
    /// The node as one of this type, if it is of the type's kind.
    pub open spec fn spec_cast(syntax: SyntaxNode<'a>) -> Option<ExprStmt<'a>> {
        if syntax.spec_kind() == SyntaxKind::EXPR_STMT {
            Some(ExprStmt { syntax })
        } else {
            None
        }
    }

    /// The node as one of this type, if it is of the type's kind.
    pub fn cast(syntax: SyntaxNode<'a>) -> (node: Option<ExprStmt<'a>>)
        requires
            syntax.wf(),
        ensures
            node == Self::spec_cast(syntax),
    {
        if syntax.kind() == SyntaxKind::EXPR_STMT {
            Some(ExprStmt { syntax })
        } else {
            None
        }
    }
}

/// A field access.
#[derive(Clone, Copy, Debug, PartialEq, Eq)]
pub struct FieldExpr<'a> {
    pub syntax: SyntaxNode<'a>,
}

impl<'a> FieldExpr<'a> {
    /// The node as one of this type, if it is of the type's kind.
    pub open spec fn spec_cast(syntax: SyntaxNode<'a>) -> Option<FieldExpr<'a>> {
        if syntax.spec_kind() == SyntaxKind::FIELD_EXPR {
            Some(FieldExpr { syntax })
        } else {
            None
        }
    }

    /// The node as one of this type, if it is of the type's kind.
    pub fn cast(syntax: SyntaxNode<'a>) -> (node: Option<FieldExpr<'a>>)
        requires
            syntax.wf(),
        ensures
            node == Self::spec_cast(syntax),
    {
        if syntax.kind() == SyntaxKind::FIELD_EXPR {
            Some(FieldExpr { syntax })
        } else {
            None
        }
    }
}

/// A reference pattern.
#[derive(Clone, Copy, Debug, PartialEq, Eq)]
pub struct RefPat<'a> {
    pub syntax: SyntaxNode<'a>,
}

impl<'a> RefPat<'a> {
    /// The node as one of this type, if it is of the type's kind.
    pub open spec fn spec_cast(syntax: SyntaxNode<'a>) -> Option<RefPat<'a>> {
        if syntax.spec_kind() == SyntaxKind::REF_PAT {
            Some(RefPat { syntax })
        } else {
            None
        }
    }

    /// The node as one of this type, if it is of the type's kind.
    pub fn cast(syntax: SyntaxNode<'a>) -> (node: Option<RefPat<'a>>)
        requires
            syntax.wf(),
        ensures
            node == Self::spec_cast(syntax),
    {
        if syntax.kind() == SyntaxKind::REF_PAT {
            Some(RefPat { syntax })
        } else {
            None
        }
    }
}

/// A binding pattern.
#[derive(Clone, Copy, Debug, PartialEq, Eq)]
pub struct BindPat<'a> {
    pub syntax: SyntaxNode<'a>,
}

impl<'a> BindPat<'a> {
    /// The node as one of this type, if it is of the type's kind.
    pub open spec fn spec_cast(syntax: SyntaxNode<'a>) -> Option<BindPat<'a>> {
        if syntax.spec_kind() == SyntaxKind::BIND_PAT {
            Some(BindPat { syntax })
        } else {
            None
        }
    }

    /// The node as one of this type, if it is of the type's kind.
    pub fn cast(syntax: SyntaxNode<'a>) -> (node: Option<BindPat<'a>>)
        requires
            syntax.wf(),
        ensures
            node == Self::spec_cast(syntax),
    {
        if syntax.kind() == SyntaxKind::BIND_PAT {
            Some(BindPat { syntax })
        } else {
            None
        }
    }
}

/// A raw pointer type.
#[derive(Clone, Copy, Debug, PartialEq, Eq)]
pub struct PointerType<'a> {
    pub syntax: SyntaxNode<'a>,
}

impl<'a> PointerType<'a> {
    /// The node as one of this type, if it is of the type's kind.
    pub open spec fn spec_cast(syntax: SyntaxNode<'a>) -> Option<PointerType<'a>> {
        if syntax.spec_kind() == SyntaxKind::POINTER_TYPE {
            Some(PointerType { syntax })
        } else {
            None
        }
    }

    /// The node as one of this type, if it is of the type's kind.
    pub fn cast(syntax: SyntaxNode<'a>) -> (node: Option<PointerType<'a>>)
        requires
            syntax.wf(),
        ensures
            node == Self::spec_cast(syntax),
    {
        if syntax.kind() == SyntaxKind::POINTER_TYPE {
            Some(PointerType { syntax })
        } else {
            None
        }
    }
}

/// A reference type.
#[derive(Clone, Copy, Debug, PartialEq, Eq)]
pub struct ReferenceType<'a> {
    pub syntax: SyntaxNode<'a>,
}

impl<'a> ReferenceType<'a> {
    /// The node as one of this type, if it is of the type's kind.
    pub open spec fn spec_cast(syntax: SyntaxNode<'a>) -> Option<ReferenceType<'a>> {
        if syntax.spec_kind() == SyntaxKind::REFERENCE_TYPE {
            Some(ReferenceType { syntax })
        } else {
            None
        }
    }

    /// The node as one of this type, if it is of the type's kind.
    pub fn cast(syntax: SyntaxNode<'a>) -> (node: Option<ReferenceType<'a>>)
        requires
            syntax.wf(),
        ensures
            node == Self::spec_cast(syntax),
    {
        if syntax.kind() == SyntaxKind::REFERENCE_TYPE {
            Some(ReferenceType { syntax })
        } else {
            None
        }
    }
}

/// The receiver parameter of a method.
#[derive(Clone, Copy, Debug, PartialEq, Eq)]
pub struct SelfParam<'a> {
    pub syntax: SyntaxNode<'a>,
}

impl<'a> SelfParam<'a> {
    /// The node as one of this type, if it is of the type's kind.
    pub open spec fn spec_cast(syntax: SyntaxNode<'a>) -> Option<SelfParam<'a>> {
        if syntax.spec_kind() == SyntaxKind::SELF_PARAM {
            Some(SelfParam { syntax })
        } else {
            None
        }
    }

    /// The node as one of this type, if it is of the type's kind.
    pub fn cast(syntax: SyntaxNode<'a>) -> (node: Option<SelfParam<'a>>)
        requires
            syntax.wf(),
        ensures
            node == Self::spec_cast(syntax),
    {
        if syntax.kind() == SyntaxKind::SELF_PARAM {
            Some(SelfParam { syntax })
        } else {
            None
        }
    }
}

/// A lifetime parameter.
#[derive(Clone, Copy, Debug, PartialEq, Eq)]
pub struct LifetimeParam<'a> {
    pub syntax: SyntaxNode<'a>,
}

impl<'a> LifetimeParam<'a> {
    /// The node as one of this type, if it is of the type's kind.
    pub open spec fn spec_cast(syntax: SyntaxNode<'a>) -> Option<LifetimeParam<'a>> {
        if syntax.spec_kind() == SyntaxKind::LIFETIME_PARAM {
            Some(LifetimeParam { syntax })
        } else {
            None
        }
    }

    /// The node as one of this type, if it is of the type's kind.
    pub fn cast(syntax: SyntaxNode<'a>) -> (node: Option<LifetimeParam<'a>>)
        requires
            syntax.wf(),
        ensures
            node == Self::spec_cast(syntax),
    {
        if syntax.kind() == SyntaxKind::LIFETIME_PARAM {
            Some(LifetimeParam { syntax })
        } else {
            None
        }
    }
}

/// A predicate of a where clause.
#[derive(Clone, Copy, Debug, PartialEq, Eq)]
pub struct WherePred<'a> {
    pub syntax: SyntaxNode<'a>,
}

impl<'a> WherePred<'a> {
    /// The node as one of this type, if it is of the type's kind.
    pub open spec fn spec_cast(syntax: SyntaxNode<'a>) -> Option<WherePred<'a>> {
        if syntax.spec_kind() == SyntaxKind::WHERE_PRED {
            Some(WherePred { syntax })
        } else {
            None
        }
    }

    /// The node as one of this type, if it is of the type's kind.
    pub fn cast(syntax: SyntaxNode<'a>) -> (node: Option<WherePred<'a>>)
        requires
            syntax.wf(),
        ensures
            node == Self::spec_cast(syntax),
    {
        if syntax.kind() == SyntaxKind::WHERE_PRED {
            Some(WherePred { syntax })
        } else {
            None
        }
    }
}

/// A type.
#[derive(Clone, Copy, Debug, PartialEq, Eq)]
pub struct TypeRef<'a> {
    pub syntax: SyntaxNode<'a>,
}

impl<'a> TypeRef<'a> {
    /// The node as a type, if it is of one of the kinds of types.
    pub open spec fn spec_cast(syntax: SyntaxNode<'a>) -> Option<TypeRef<'a>> {
        if spec_is_type_ref(syntax.spec_kind()) {
            Some(TypeRef { syntax })
        } else {
            None
        }
    }

    /// The node as a type, if it is of one of the kinds of types.
    pub fn cast(syntax: SyntaxNode<'a>) -> (node: Option<TypeRef<'a>>)
        requires
            syntax.wf(),
        ensures
            node == Self::spec_cast(syntax),
    {
        if is_type_ref(syntax.kind()) {
            Some(TypeRef { syntax })
        } else {
            None
        }
    }
}

} // verus!
