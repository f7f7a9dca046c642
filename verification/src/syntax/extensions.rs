//! What the typed nodes tell beyond their children of a single kind: texts,
//! flags, and the shapes that a node can take.

use vstd::prelude::*;
use crate::syntax::ast::{
    Attr, BindPat, EnumDef, EnumVariant, ExprStmt, FieldExpr, ImplBlock, LetStmt, LifetimeParam,
    Module, Name, NameRef, NamedFieldDefList, Path, PathSegment, PointerType, PosFieldDefList,
    RefPat, ReferenceType, SelfParam, StructDef, TokenTree, TypeRef, UseTree, UseTreeList,
    WherePred,
};
use crate::syntax::syntax_kind::SyntaxKind;
use crate::syntax::tree::{first_match, lemma_first_match, Pattern, SyntaxElement, SyntaxNode, SyntaxToken};
use crate::syntax::tuples::{collect_quadruple, collect_triple};

verus! {

/// The text of the first child of `syntax`, a token.
fn first_token_text<'a>(syntax: SyntaxNode<'a>) -> (text: &'a String)
    requires
        syntax.wf(),
        syntax.spec_children().len() > 0,
        syntax.spec_children()[0] is Token,
    ensures
        text@ == syntax.spec_children()[0]->Token_0.spec_text(),
{
    match syntax.child(0) {
        SyntaxElement::Token(ident) => ident.text(),
        SyntaxElement::Node(_) => vstd::pervasive::unreached(),
    }
}

/// Whether the last child of `syntax` is a semicolon.
fn ends_with_semi(syntax: SyntaxNode) -> (yes: bool)
    requires
        syntax.wf(),
    ensures
        yes == spec_ends_with_semi(syntax),
{
    match syntax.last_child_or_token() {
        None => false,
        Some(node) => node.kind() == SyntaxKind::SEMI,
    }
}

/// Whether the last child of `syntax` is a semicolon.
pub open spec fn spec_ends_with_semi(syntax: SyntaxNode) -> bool {
    syntax.spec_children().len() > 0 && syntax.spec_children().last().spec_kind()
        == SyntaxKind::SEMI
}

/// The first child of `syntax` that is a token of kind `kind`.
pub open spec fn spec_token_of_kind<'a>(syntax: SyntaxNode<'a>, kind: SyntaxKind) -> Option<
    SyntaxToken<'a>,
> {
    match syntax.spec_find(Pattern::Token(kind), 0) {
        Some(SyntaxElement::Token(token)) => Some(token),
        _ => None,
    }
}

/// The first child of `syntax` that is a token of kind `kind`.
fn token_of_kind<'a>(syntax: SyntaxNode<'a>, kind: SyntaxKind) -> (token: Option<SyntaxToken<'a>>)
    requires
        syntax.wf(),
    ensures
        token == spec_token_of_kind(syntax, kind),
        token is Some == syntax.spec_has(Pattern::Token(kind)),
        token matches Some(token) ==> token.wf(),
{
    match syntax.find(Pattern::Token(kind), 0) {
        Some(SyntaxElement::Token(token)) => Some(token),
        _ => None,
    }
}

/// The first child of `syntax` that is a node of kind `kind`.
pub open spec fn spec_node_of_kind<'a>(syntax: SyntaxNode<'a>, kind: SyntaxKind) -> Option<
    SyntaxNode<'a>,
> {
    match syntax.spec_find(Pattern::Node(kind), 0) {
        Some(SyntaxElement::Node(node)) => Some(node),
        _ => None,
    }
}

/// The first child of `syntax` that is a node of kind `kind`.
fn node_of_kind<'a>(syntax: SyntaxNode<'a>, kind: SyntaxKind) -> (node: Option<SyntaxNode<'a>>)
    requires
        syntax.wf(),
    ensures
        node == spec_node_of_kind(syntax, kind),
        node matches Some(node) ==> node.wf() && node.spec_kind() == kind,
{
    match syntax.find(Pattern::Node(kind), 0) {
        Some(SyntaxElement::Node(node)) => Some(node),
        _ => None,
    }
}

/// The text of `element`, if it is an identifier token.
pub open spec fn spec_ident_text(element: SyntaxElement) -> Option<Seq<char>> {
    match element {
        SyntaxElement::Token(token) => if token.spec_kind() == SyntaxKind::IDENT {
            Some(token.spec_text())
        } else {
            None
        },
        SyntaxElement::Node(_) => None,
    }
}

/// The text of `element`, if it is an identifier token.
fn ident_text(element: SyntaxElement) -> (text: Option<String>)
    requires
        element.wf(),
    ensures
        match text {
            Some(text) => spec_ident_text(element) == Some(text@),
            None => spec_ident_text(element) is None,
        },
{
    if element.kind() == SyntaxKind::IDENT {
        match element.as_token() {
            Some(token) => Some(token.text().clone()),
            None => None,
        }
    } else {
        None
    }
}

impl<'a> Name<'a> {
    /// The text of the name: that of its first child, which is a token.
    pub fn text(&self) -> (text: &'a String)
        requires
            self.syntax.wf(),
            self.syntax.spec_children().len() > 0,
            self.syntax.spec_children()[0] is Token,
        ensures
            text@ == self.syntax.spec_children()[0]->Token_0.spec_text(),
    {
        first_token_text(self.syntax)
    }
}

impl<'a> NameRef<'a> {
    /// The text of the name: that of its first child, which is a token.
    pub fn text(&self) -> (text: &'a String)
        requires
            self.syntax.wf(),
            self.syntax.spec_children().len() > 0,
            self.syntax.spec_children()[0] is Token,
        ensures
            text@ == self.syntax.spec_children()[0]->Token_0.spec_text(),
    {
        first_token_text(self.syntax)
    }
}

impl<'a> Attr<'a> {
    /// The token tree of the attribute: its first child of that kind.
    pub open spec fn spec_value(&self) -> Option<TokenTree<'a>> {
        match spec_node_of_kind(self.syntax, SyntaxKind::TOKEN_TREE) {
            Some(syntax) => Some(TokenTree { syntax }),
            None => None,
        }
    }

    /// The token tree of the attribute: its first child of that kind.
    pub fn value(&self) -> (value: Option<TokenTree<'a>>)
        requires
            self.syntax.wf(),
        ensures
            value == self.spec_value(),
            value matches Some(tt) ==> tt.syntax.wf(),
    {
        match node_of_kind(self.syntax, SyntaxKind::TOKEN_TREE) {
            Some(syntax) => Some(TokenTree { syntax }),
            None => None,
        }
    }

    /// Whether the attribute is an inner one: it has a token tree, and the
    /// nearest node before the tree is of the kind of `!`.
    pub open spec fn spec_is_inner(&self) -> bool {
        match self.spec_value() {
            Some(tt) => match tt.syntax.spec_prev_sibling() {
                Some(prev) => prev.spec_kind() == SyntaxKind::EXCL,
                None => false,
            },
            None => false,
        }
    }

    /// Whether the attribute is an inner one.
    pub fn is_inner(&self) -> (inner: bool)
        requires
            self.syntax.wf(),
        ensures
            inner == self.spec_is_inner(),
    {
        let tt = match self.value() {
            None => return false,
            Some(tt) => tt,
        };
        let prev = match tt.syntax.prev_sibling() {
            None => return false,
            Some(prev) => prev,
        };
        prev.kind() == SyntaxKind::EXCL
    }

    /// The word of an attribute that is a single word in brackets: the
    /// text of the second of the three children of its token tree, if that
    /// is an identifier.
    pub open spec fn spec_as_atom(&self) -> Option<Seq<char>> {
        match self.spec_value() {
            Some(tt) => if tt.syntax.spec_children().len() == 3 {
                spec_ident_text(tt.syntax.spec_children()[1])
            } else {
                None
            },
            None => None,
        }
    }

    /// The word of an attribute that is a single word in brackets.
    pub fn as_atom(&self) -> (atom: Option<String>)
        requires
            self.syntax.wf(),
        ensures
            match atom {
                Some(atom) => self.spec_as_atom() == Some(atom@),
                None => self.spec_as_atom() is None,
            },
    {
        let tt = match self.value() {
            Some(tt) => tt,
            None => {
                return None;
            },
        };
        match collect_triple(tt.syntax.children_with_tokens()) {
            Some((_bra, attr, _ket)) => ident_text(attr),
            None => None,
        }
    }

    /// The word and the arguments of an attribute that is a call in
    /// brackets: its token tree has four children, the second an identifier
    /// and the third a token tree.
    pub open spec fn spec_as_call(&self) -> Option<(Seq<char>, TokenTree<'a>)> {
        match self.spec_value() {
            Some(tt) => {
                let children = tt.syntax.spec_children();
                if children.len() == 4 {
                    match (spec_ident_text(children[1]), children[2]) {
                        (Some(text), SyntaxElement::Node(args)) => match TokenTree::spec_cast(
                            args,
                        ) {
                            Some(args) => Some((text, args)),
                            None => None,
                        },
                        _ => None,
                    }
                } else {
                    None
                }
            },
            None => None,
        }
    }

    /// The word and the arguments of an attribute that is a call in
    /// brackets.
    pub fn as_call(&self) -> (call: Option<(String, TokenTree<'a>)>)
        requires
            self.syntax.wf(),
        ensures
            match call {
                Some((word, args)) => self.spec_as_call() == Some((word@, args)),
                None => self.spec_as_call() is None,
            },
    {
        let tt = match self.value() {
            Some(tt) => tt,
            None => {
                return None;
            },
        };
        let (_bra, attr, args, _ket) = match collect_quadruple(tt.syntax.children_with_tokens()) {
            Some(quadruple) => quadruple,
            None => {
                return None;
            },
        };
        let args = match args.as_node() {
            Some(args) => match TokenTree::cast(args) {
                Some(args) => args,
                None => {
                    return None;
                },
            },
            None => {
                return None;
            },
        };
        match ident_text(attr) {
            Some(word) => Some((word, args)),
            None => None,
        }
    }

    /// The word of an attribute that begins with a word, whatever follows:
    /// the text of the second child of its token tree, if that is an
    /// identifier.
    pub open spec fn spec_as_named(&self) -> Option<Seq<char>> {
        match self.spec_value() {
            Some(tt) => if tt.syntax.spec_children().len() >= 2 {
                spec_ident_text(tt.syntax.spec_children()[1])
            } else {
                None
            },
            None => None,
        }
    }

    /// The word of an attribute that begins with a word.
    pub fn as_named(&self) -> (word: Option<String>)
        requires
            self.syntax.wf(),
        ensures
            match word {
                Some(word) => self.spec_as_named() == Some(word@),
                None => self.spec_as_named() is None,
            },
    {
        let tt = match self.value() {
            Some(tt) => tt,
            None => {
                return None;
            },
        };
        if tt.syntax.child_count() >= 2 {
            ident_text(tt.syntax.child(1))
        } else {
            None
        }
    }
}

/// What a path segment is.
#[derive(Debug, Clone, Copy, PartialEq, Eq)]
pub enum PathSegmentKind<'a> {
    Name(NameRef<'a>),
    SelfKw,
    SuperKw,
    CrateKw,
}

impl<'a> PathSegment<'a> {
    /// The name of the segment: its first child of that kind.
    pub open spec fn spec_name_ref(&self) -> Option<NameRef<'a>> {
        match spec_node_of_kind(self.syntax, SyntaxKind::NAME_REF) {
            Some(syntax) => Some(NameRef { syntax }),
            None => None,
        }
    }

    /// The name of the segment: its first child of that kind.
    pub fn name_ref(&self) -> (name_ref: Option<NameRef<'a>>)
        requires
            self.syntax.wf(),
        ensures
            name_ref == self.spec_name_ref(),
            name_ref matches Some(name_ref) ==> name_ref.syntax.wf(),
    {
        match node_of_kind(self.syntax, SyntaxKind::NAME_REF) {
            Some(syntax) => Some(NameRef { syntax }),
            None => None,
        }
    }

    /// The path that the segment is part of. Segments are always nested in
    /// paths.
    pub fn parent_path(&self) -> (path: Path<'a>)
        requires
            self.syntax.wf(),
            self.syntax.spec_parent() matches Some(parent) && parent.spec_kind()
                == SyntaxKind::PATH,
        ensures
            Some(path.syntax) == self.syntax.spec_parent(),
            path.syntax.wf(),
    {
        match self.syntax.parent() {
            Some(parent) => Path { syntax: parent },
            None => vstd::pervasive::unreached(),
        }
    }

    /// What the segment is: a name if it has one, else the keyword that is
    /// its first child, if that is `self`, `super` or `crate`.
    pub open spec fn spec_kind(&self) -> Option<PathSegmentKind<'a>> {
        match self.spec_name_ref() {
            Some(name_ref) => Some(PathSegmentKind::Name(name_ref)),
            None => if self.syntax.spec_children().len() > 0 {
                let first = self.syntax.spec_children()[0].spec_kind();
                if first == SyntaxKind::SELF_KW {
                    Some(PathSegmentKind::SelfKw)
                } else if first == SyntaxKind::SUPER_KW {
                    Some(PathSegmentKind::SuperKw)
                } else if first == SyntaxKind::CRATE_KW {
                    Some(PathSegmentKind::CrateKw)
                } else {
                    None
                }
            } else {
                None
            },
        }
    }

    /// What the segment is.
    pub fn kind(&self) -> (kind: Option<PathSegmentKind<'a>>)
        requires
            self.syntax.wf(),
        ensures
            kind == self.spec_kind(),
    {
        let res = if let Some(name_ref) = self.name_ref() {
            PathSegmentKind::Name(name_ref)
        } else {
            let first = match self.syntax.first_child_or_token() {
                Some(first) => first,
                None => {
                    return None;
                },
            };
            match first.kind() {
                SyntaxKind::SELF_KW => PathSegmentKind::SelfKw,
                SyntaxKind::SUPER_KW => PathSegmentKind::SuperKw,
                SyntaxKind::CRATE_KW => PathSegmentKind::CrateKw,
                _ => {
                    return None;
                },
            }
        };
        Some(res)
    }

    /// Whether the segment begins with `::`.
    pub fn has_colon_colon(&self) -> (yes: bool)
        requires
            self.syntax.wf(),
        ensures
            yes == (self.syntax.spec_children().len() > 0 && self.syntax.spec_children()[0].spec_kind()
                == SyntaxKind::COLONCOLON),
    {
        match self.syntax.first_child_or_token() {
            Some(first) => first.kind() == SyntaxKind::COLONCOLON,
            None => false,
        }
    }
}

impl<'a> Path<'a> {
    /// The path that this path is the qualifier of, if there is one: its
    /// parent, if that is a path.
    pub fn parent_path(&self) -> (path: Option<Path<'a>>)
        requires
            self.syntax.wf(),
        ensures
            path == (match self.syntax.spec_parent() {
                Some(parent) => Path::spec_cast(parent),
                None => None,
            }),
    {
        match self.syntax.parent() {
            Some(parent) => Path::cast(parent),
            None => None,
        }
    }
}

impl<'a> Module<'a> {
    /// Whether the module is declared with a semicolon, its body being in
    /// another file.
    pub fn has_semi(&self) -> (yes: bool)
        requires
            self.syntax.wf(),
        ensures
            yes == spec_ends_with_semi(self.syntax),
    {
        ends_with_semi(self.syntax)
    }
}

impl<'a> UseTree<'a> {
    /// Whether the tree has a `*` among its children.
    pub fn has_star(&self) -> (yes: bool)
        requires
            self.syntax.wf(),
        ensures
            yes == self.syntax.spec_has(Pattern::Kind(SyntaxKind::STAR)),
    {
        self.syntax.has(Pattern::Kind(SyntaxKind::STAR))
    }
}

impl<'a> UseTreeList<'a> {
    /// The use tree that the list belongs to. Lists are always nested in
    /// use trees.
    pub fn parent_use_tree(&self) -> (tree: UseTree<'a>)
        requires
            self.syntax.wf(),
            self.syntax.spec_parent() matches Some(parent) && parent.spec_kind()
                == SyntaxKind::USE_TREE,
        ensures
            Some(tree.syntax) == self.syntax.spec_parent(),
            tree.syntax.wf(),
    {
        match self.syntax.parent() {
            Some(parent) => UseTree { syntax: parent },
            None => vstd::pervasive::unreached(),
        }
    }
}

impl<'a> ImplBlock<'a> {
    /// The first two types among the children of the block, in order.
    pub open spec fn spec_target(&self) -> (Option<TypeRef<'a>>, Option<TypeRef<'a>>) {
        let children = self.syntax.spec_children();
        match first_match(children, Pattern::TypeRef, 0) {
            Some(first) => (
                Some(TypeRef { syntax: children[first]->Node_0 }),
                match first_match(children, Pattern::TypeRef, first + 1) {
                    Some(second) => Some(TypeRef { syntax: children[second]->Node_0 }),
                    None => None,
                },
            ),
            None => (None, None),
        }
    }

    /// The type that the block is for: the second of its types if it has
    /// two, for then the first is a trait; else the first.
    pub fn target_type(&self) -> (ty: Option<TypeRef<'a>>)
        requires
            self.syntax.wf(),
        ensures
            ty == (match self.spec_target() {
                (first, Some(second)) => Some(second),
                (first, None) => first,
            }),
    {
        match self.target() {
            (Some(t), None) | (_, Some(t)) => Some(t),
            _ => None,
        }
    }

    /// The trait that the block implements: the first of its types, if it
    /// has two.
    pub fn target_trait(&self) -> (tr: Option<TypeRef<'a>>)
        requires
            self.syntax.wf(),
        ensures
            tr == (match self.spec_target() {
                (Some(first), Some(second)) => Some(first),
                _ => None,
            }),
    {
        match self.target() {
            (Some(t), Some(_)) => Some(t),
            _ => None,
        }
    }

    /// The first two types among the children of the block, in order.
    pub fn target(&self) -> (types: (Option<TypeRef<'a>>, Option<TypeRef<'a>>))
        requires
            self.syntax.wf(),
        ensures
            types == self.spec_target(),
    {
        proof {
            lemma_first_match(self.syntax.spec_children(), Pattern::TypeRef, 0);
        }
        let first = match self.syntax.position(Pattern::TypeRef, 0) {
            Some(first) => first,
            None => {
                return (None, None);
            },
        };
        proof {
            lemma_first_match(self.syntax.spec_children(), Pattern::TypeRef, first + 1);
        }
        let second = if first < self.syntax.child_count() {
            match self.syntax.position(Pattern::TypeRef, first + 1) {
                Some(second) => match self.syntax.child(second) {
                    SyntaxElement::Node(syntax) => Some(TypeRef { syntax }),
                    SyntaxElement::Token(_) => None,
                },
                None => None,
            }
        } else {
            None
        };
        match self.syntax.child(first) {
            SyntaxElement::Node(syntax) => (Some(TypeRef { syntax }), second),
            SyntaxElement::Token(_) => (None, None),
        }
    }
}

/// The shape of a struct or of an enum variant.
#[derive(Debug, Clone, Copy, PartialEq, Eq)]
pub enum StructKind<'a> {
    Tuple(PosFieldDefList<'a>),
    Named(NamedFieldDefList<'a>),
    Unit,
}

impl<'a> StructKind<'a> {
    /// The shape of the definition at `node`: named, if it has a list of
    /// named fields; else a tuple, if it has a list of positional fields;
    /// else a unit.
    pub open spec fn spec_from_node(node: SyntaxNode<'a>) -> StructKind<'a> {
        match spec_node_of_kind(node, SyntaxKind::NAMED_FIELD_DEF_LIST) {
            Some(syntax) => StructKind::Named(NamedFieldDefList { syntax }),
            None => match spec_node_of_kind(node, SyntaxKind::POS_FIELD_DEF_LIST) {
                Some(syntax) => StructKind::Tuple(PosFieldDefList { syntax }),
                None => StructKind::Unit,
            },
        }
    }

    /// The shape of the definition at `node`.
    pub fn from_node(node: SyntaxNode<'a>) -> (kind: StructKind<'a>)
        requires
            node.wf(),
        ensures
            kind == Self::spec_from_node(node),
    {
        if let Some(syntax) = node_of_kind(node, SyntaxKind::NAMED_FIELD_DEF_LIST) {
            StructKind::Named(NamedFieldDefList { syntax })
        } else if let Some(syntax) = node_of_kind(node, SyntaxKind::POS_FIELD_DEF_LIST) {
            StructKind::Tuple(PosFieldDefList { syntax })
        } else {
            StructKind::Unit
        }
    }
}

impl<'a> StructDef<'a> {
    /// The shape of the struct.
    pub fn kind(&self) -> (kind: StructKind<'a>)
        requires
            self.syntax.wf(),
        ensures
            kind == StructKind::spec_from_node(self.syntax),
    {
        StructKind::from_node(self.syntax)
    }
}

impl<'a> EnumVariant<'a> {
    /// The enum that the variant belongs to: the parent of its parent.
    /// Variants are always nested in enums.
    pub fn parent_enum(&self) -> (parent: EnumDef<'a>)
        requires
            self.syntax.wf(),
            self.syntax.spec_parent() matches Some(list) && (list.spec_parent() matches Some(def)
                && def.spec_kind() == SyntaxKind::ENUM_DEF),
        ensures
            Some(parent.syntax) == self.syntax.spec_parent()->0.spec_parent(),
            parent.syntax.wf(),
    {
        let def = match self.syntax.parent() {
            Some(list) => list.parent(),
            None => None,
        };
        match def {
            Some(syntax) => EnumDef { syntax },
            None => vstd::pervasive::unreached(),
        }
    }

    /// The shape of the variant.
    pub fn kind(&self) -> (kind: StructKind<'a>)
        requires
            self.syntax.wf(),
        ensures
            kind == StructKind::spec_from_node(self.syntax),
    {
        StructKind::from_node(self.syntax)
    }
}

impl<'a> LetStmt<'a> {
    /// Whether the statement ends with a semicolon.
    pub fn has_semi(&self) -> (yes: bool)
        requires
            self.syntax.wf(),
        ensures
            yes == spec_ends_with_semi(self.syntax),
    {
        ends_with_semi(self.syntax)
    }
}

impl<'a> ExprStmt<'a> {
    /// Whether the statement ends with a semicolon.
    pub fn has_semi(&self) -> (yes: bool)
        requires
            self.syntax.wf(),
        ensures
            yes == spec_ends_with_semi(self.syntax),
    {
        ends_with_semi(self.syntax)
    }
}

/// What a field access names.
#[derive(Debug, Clone, Copy, PartialEq, Eq)]
pub enum FieldKind<'a> {
    Name(NameRef<'a>),
    Index(SyntaxToken<'a>),
}

impl<'a> FieldExpr<'a> {
    /// The name of the field: the first child of that kind.
    pub open spec fn spec_name_ref(&self) -> Option<NameRef<'a>> {
        match spec_node_of_kind(self.syntax, SyntaxKind::NAME_REF) {
            Some(syntax) => Some(NameRef { syntax }),
            None => None,
        }
    }

    /// The name of the field: the first child of that kind.
    pub fn name_ref(&self) -> (name_ref: Option<NameRef<'a>>)
        requires
            self.syntax.wf(),
        ensures
            name_ref == self.spec_name_ref(),
    {
        match node_of_kind(self.syntax, SyntaxKind::NAME_REF) {
            Some(syntax) => Some(NameRef { syntax }),
            None => None,
        }
    }

    /// The number of the field: the first child that is a number, if that
    /// child is a token. A number of floats is taken here as well and left
    /// to be turned down later.
    pub open spec fn spec_index_token(&self) -> Option<SyntaxToken<'a>> {
        match self.syntax.spec_find(Pattern::Number, 0) {
            Some(SyntaxElement::Token(token)) => Some(token),
            _ => None,
        }
    }

    /// The number of the field.
    pub fn index_token(&self) -> (token: Option<SyntaxToken<'a>>)
        requires
            self.syntax.wf(),
        ensures
            token == self.spec_index_token(),
    {
        match self.syntax.find(Pattern::Number, 0) {
            Some(number) => number.as_token(),
            None => None,
        }
    }

    /// What the access names: the field's name if there is one, else its
    /// number if there is one.
    pub fn field_access(&self) -> (kind: Option<FieldKind<'a>>)
        requires
            self.syntax.wf(),
        ensures
            kind == (match self.spec_name_ref() {
                Some(name_ref) => Some(FieldKind::Name(name_ref)),
                None => match self.spec_index_token() {
                    Some(token) => Some(FieldKind::Index(token)),
                    None => None,
                },
            }),
    {
        if let Some(nr) = self.name_ref() {
            Some(FieldKind::Name(nr))
        } else if let Some(tok) = self.index_token() {
            Some(FieldKind::Index(tok))
        } else {
            None
        }
    }
}

impl<'a> RefPat<'a> {
    /// Whether the pattern has `mut` among its children.
    pub fn is_mut(&self) -> (yes: bool)
        requires
            self.syntax.wf(),
        ensures
            yes == self.syntax.spec_has(Pattern::Kind(SyntaxKind::MUT_KW)),
    {
        self.syntax.has(Pattern::Kind(SyntaxKind::MUT_KW))
    }
}

impl<'a> BindPat<'a> {
    /// Whether the binding has `mut` among its children.
    pub fn is_mutable(&self) -> (yes: bool)
        requires
            self.syntax.wf(),
        ensures
            yes == self.syntax.spec_has(Pattern::Kind(SyntaxKind::MUT_KW)),
    {
        self.syntax.has(Pattern::Kind(SyntaxKind::MUT_KW))
    }

    /// Whether the binding has `ref` among its children.
    pub fn is_ref(&self) -> (yes: bool)
        requires
            self.syntax.wf(),
        ensures
            yes == self.syntax.spec_has(Pattern::Kind(SyntaxKind::REF_KW)),
    {
        self.syntax.has(Pattern::Kind(SyntaxKind::REF_KW))
    }
}

impl<'a> PointerType<'a> {
    /// Whether the pointer type has `mut` among its children.
    pub fn is_mut(&self) -> (yes: bool)
        requires
            self.syntax.wf(),
        ensures
            yes == self.syntax.spec_has(Pattern::Kind(SyntaxKind::MUT_KW)),
    {
        self.syntax.has(Pattern::Kind(SyntaxKind::MUT_KW))
    }
}

impl<'a> ReferenceType<'a> {
    /// Whether the reference type has `mut` among its children.
    pub fn is_mut(&self) -> (yes: bool)
        requires
            self.syntax.wf(),
        ensures
            yes == self.syntax.spec_has(Pattern::Kind(SyntaxKind::MUT_KW)),
    {
        self.syntax.has(Pattern::Kind(SyntaxKind::MUT_KW))
    }
}

/// How a method takes its receiver.
#[derive(Copy, Clone, Debug, PartialEq, Eq, Hash, Structural)]
pub enum SelfParamKind {
    /// self
    Owned,
    /// &self
    Ref,
    /// &mut self
    MutRef,
}

impl<'a> SelfParam<'a> {
    /// The `self` token of the parameter. A receiver parameter always has
    /// one.
    pub fn self_kw_token(&self) -> (token: SyntaxToken<'a>)
        requires
            self.syntax.wf(),
            self.syntax.spec_has(Pattern::Token(SyntaxKind::SELF_KW)),
        ensures
            Some(token) == spec_token_of_kind(self.syntax, SyntaxKind::SELF_KW),
            token.wf(),
    {
        match token_of_kind(self.syntax, SyntaxKind::SELF_KW) {
            Some(token) => token,
            None => vstd::pervasive::unreached(),
        }
    }

    /// How the receiver is taken: by value if there is no `&`; else by
    /// mutable reference if a `mut` follows the first `&`, for a `mut`
    /// before it makes no mutable reference; else by shared reference.
    pub open spec fn spec_kind(&self) -> SelfParamKind {
        let children = self.syntax.spec_children();
        match first_match(children, Pattern::Kind(SyntaxKind::AMP), 0) {
            Some(amp) => if first_match(children, Pattern::Kind(SyntaxKind::MUT_KW), amp)
                is Some {
                SelfParamKind::MutRef
            } else {
                SelfParamKind::Ref
            },
            None => SelfParamKind::Owned,
        }
    }

    /// How the receiver is taken.
    pub fn kind(&self) -> (kind: SelfParamKind)
        requires
            self.syntax.wf(),
        ensures
            kind == self.spec_kind(),
    {
        match self.syntax.position(Pattern::Kind(SyntaxKind::AMP), 0) {
            Some(amp) => {
                if self.syntax.position(Pattern::Kind(SyntaxKind::MUT_KW), amp).is_some() {
                    SelfParamKind::MutRef
                } else {
                    SelfParamKind::Ref
                }
            },
            None => SelfParamKind::Owned,
        }
    }
}

impl<'a> LifetimeParam<'a> {
    /// The lifetime of the parameter: its first token of that kind.
    pub fn lifetime_token(&self) -> (token: Option<SyntaxToken<'a>>)
        requires
            self.syntax.wf(),
        ensures
            token == spec_token_of_kind(self.syntax, SyntaxKind::LIFETIME),
    {
        token_of_kind(self.syntax, SyntaxKind::LIFETIME)
    }
}

impl<'a> WherePred<'a> {
    /// The lifetime that the predicate bounds: its first token of that
    /// kind.
    pub fn lifetime_token(&self) -> (token: Option<SyntaxToken<'a>>)
        requires
            self.syntax.wf(),
        ensures
            token == spec_token_of_kind(self.syntax, SyntaxKind::LIFETIME),
    {
        token_of_kind(self.syntax, SyntaxKind::LIFETIME)
    }
}

} // verus!
