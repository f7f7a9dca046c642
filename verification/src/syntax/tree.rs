//! Syntax trees. A tree keeps its nodes and tokens in two arenas; a node
//! lists its children, nodes and tokens alike, in source order, and names
//! its parent.

use vstd::prelude::*;
use crate::syntax::syntax_kind::SyntaxKind;

verus! {

/// A child of a node: a position in the arena of nodes or of tokens.
#[derive(Clone, Copy, Debug, PartialEq, Eq, Hash, Structural)]
pub enum Child {
    Node(usize),
    Token(usize),
}

/// A node: its kind, its parent if it has one, its children in source
/// order.
#[derive(Debug, PartialEq, Eq)]
pub struct NodeData {
    pub kind: SyntaxKind,
    pub parent: Option<usize>,
    pub children: Vec<Child>,
}

/// A token: its kind and its text.
#[derive(Debug, PartialEq, Eq)]
pub struct TokenData {
    pub kind: SyntaxKind,
    pub text: String,
}

/// A syntax tree whose parents and children are all in the tree.
#[derive(Debug, PartialEq, Eq)]
pub struct SyntaxTree {
    nodes: Vec<NodeData>,
    tokens: Vec<TokenData>,
}

/// Whether `child` is a position in arenas of `nodes` nodes and `tokens`
/// tokens.
pub open spec fn child_in_range(child: Child, nodes: int, tokens: int) -> bool {
    match child {
        Child::Node(n) => n < nodes,
        Child::Token(t) => t < tokens,
    }
}

/// Whether the parent and the children of `node` are positions in arenas
/// of `nodes` nodes and `tokens` tokens.
pub open spec fn node_in_range(node: NodeData, nodes: int, tokens: int) -> bool {
    &&& node.parent matches Some(p) ==> p < nodes
    &&& forall|c: int|
        0 <= c < node.children@.len() ==> child_in_range(
            #[trigger] node.children@[c],
            nodes,
            tokens,
        )
}

/// Whether every node names only nodes and tokens of these arenas.
pub open spec fn arenas_wf(nodes: Seq<NodeData>, tokens: Seq<TokenData>) -> bool {
    forall|n: int|
        0 <= n < nodes.len() ==> node_in_range(
            #[trigger] nodes[n],
            nodes.len() as int,
            tokens.len() as int,
        )
}

/// Decides `node_in_range`.
fn check_node(node: &NodeData, nodes: usize, tokens: usize) -> (ok: bool)
    ensures
        ok == node_in_range(*node, nodes as int, tokens as int),
{
    if let Some(p) = node.parent {
        if p >= nodes {
            return false;
        }
    }
    let mut c: usize = 0;
    while c < node.children.len()
        invariant
            c <= node.children@.len(),
            forall|d: int|
                0 <= d < c ==> child_in_range(
                    #[trigger] node.children@[d],
                    nodes as int,
                    tokens as int,
                ),
        decreases node.children@.len() - c,
    {
        let ok = match node.children[c] {
            Child::Node(n) => n < nodes,
            Child::Token(t) => t < tokens,
        };
        if !ok {
            return false;
        }
        c += 1;
    }
    true
}

impl SyntaxTree {
    /// The arena of nodes.
    pub closed spec fn nodes(&self) -> Seq<NodeData> {
        self.nodes@
    }

    /// The arena of tokens.
    pub closed spec fn tokens(&self) -> Seq<TokenData> {
        self.tokens@
    }

    /// Every node names only nodes and tokens of the tree.
    #[verifier::type_invariant]
    pub closed spec fn wf(&self) -> bool {
        arenas_wf(self.nodes@, self.tokens@)
    }

    /// The tree with these arenas, or none if a node names a parent or a
    /// child that is not in them.
    pub fn new(nodes: Vec<NodeData>, tokens: Vec<TokenData>) -> (tree: Option<SyntaxTree>)
        ensures
            match tree {
                Some(tree) => arenas_wf(nodes@, tokens@) && tree.nodes() == nodes@ && tree.tokens()
                    == tokens@ && tree.wf(),
                None => !arenas_wf(nodes@, tokens@),
            },
    {
        let mut n: usize = 0;
        while n < nodes.len()
            invariant
                n <= nodes@.len(),
                forall|m: int|
                    0 <= m < n ==> node_in_range(
                        #[trigger] nodes@[m],
                        nodes@.len() as int,
                        tokens@.len() as int,
                    ),
            decreases nodes@.len() - n,
        {
            if !check_node(&nodes[n], nodes.len(), tokens.len()) {
                return None;
            }
            n += 1;
        }
        Some(SyntaxTree { nodes, tokens })
    }

    /// The node at position `id`, if the tree has one there.
    pub fn node(&self, id: usize) -> (node: Option<SyntaxNode<'_>>)
        ensures
            node == (if id < self.nodes().len() {
                Some(SyntaxNode { tree: self, id })
            } else {
                None
            }),
            node matches Some(node) ==> node.wf(),
    {
        proof {
            use_type_invariant(self);
        }
        if id < self.nodes.len() {
            Some(SyntaxNode { tree: self, id })
        } else {
            None
        }
    }
}

/// A node of a tree.
#[derive(Clone, Copy, Debug, PartialEq, Eq)]
pub struct SyntaxNode<'a> {
    pub tree: &'a SyntaxTree,
    pub id: usize,
}

/// A token of a tree.
#[derive(Clone, Copy, Debug, PartialEq, Eq)]
pub struct SyntaxToken<'a> {
    pub tree: &'a SyntaxTree,
    pub id: usize,
}

/// A node or a token of a tree.
#[derive(Clone, Copy, Debug, PartialEq, Eq)]
pub enum SyntaxElement<'a> {
    Node(SyntaxNode<'a>),
    Token(SyntaxToken<'a>),
}

/// What a search among the children of a node looks for.
#[derive(Clone, Copy, Debug, PartialEq, Eq)]
pub enum Pattern {
    /// A node or a token of this kind.
    Kind(SyntaxKind),
    /// A token of this kind.
    Token(SyntaxKind),
    /// A node of this kind.
    Node(SyntaxKind),
    /// A node that is a type.
    TypeRef,
    /// A node or a token that is a number, of integers or of floats.
    Number,
}

/// Whether a node of this kind is a type.
pub open spec fn spec_is_type_ref(kind: SyntaxKind) -> bool {
    ||| kind == SyntaxKind::PAREN_TYPE
    ||| kind == SyntaxKind::TUPLE_TYPE
    ||| kind == SyntaxKind::NEVER_TYPE
    ||| kind == SyntaxKind::PATH_TYPE
    ||| kind == SyntaxKind::POINTER_TYPE
    ||| kind == SyntaxKind::ARRAY_TYPE
    ||| kind == SyntaxKind::SLICE_TYPE
    ||| kind == SyntaxKind::REFERENCE_TYPE
    ||| kind == SyntaxKind::PLACEHOLDER_TYPE
    ||| kind == SyntaxKind::FN_POINTER_TYPE
    ||| kind == SyntaxKind::FOR_TYPE
    ||| kind == SyntaxKind::IMPL_TRAIT_TYPE
    ||| kind == SyntaxKind::DYN_TRAIT_TYPE
}

/// Whether a node of this kind is a type.
pub fn is_type_ref(kind: SyntaxKind) -> (yes: bool)
    ensures
        yes == spec_is_type_ref(kind),
{
    match kind {
        SyntaxKind::PAREN_TYPE
        | SyntaxKind::TUPLE_TYPE
        | SyntaxKind::NEVER_TYPE
        | SyntaxKind::PATH_TYPE
        | SyntaxKind::POINTER_TYPE
        | SyntaxKind::ARRAY_TYPE
        | SyntaxKind::SLICE_TYPE
        | SyntaxKind::REFERENCE_TYPE
        | SyntaxKind::PLACEHOLDER_TYPE
        | SyntaxKind::FN_POINTER_TYPE
        | SyntaxKind::FOR_TYPE
        | SyntaxKind::IMPL_TRAIT_TYPE
        | SyntaxKind::DYN_TRAIT_TYPE => true,
        _ => false,
    }
}

impl Pattern {
    /// Whether `element` is what the pattern looks for.
    pub open spec fn spec_matches(self, element: SyntaxElement) -> bool {
        match self {
            Pattern::Kind(kind) => element.spec_kind() == kind,
            Pattern::Token(kind) => element is Token && element.spec_kind() == kind,
            Pattern::Node(kind) => element is Node && element.spec_kind() == kind,
            Pattern::TypeRef => element is Node && spec_is_type_ref(element.spec_kind()),
            Pattern::Number => element.spec_kind() == SyntaxKind::INT_NUMBER || element.spec_kind()
                == SyntaxKind::FLOAT_NUMBER,
        }
    }

    /// Whether `element` is what the pattern looks for.
    pub fn matches(self, element: SyntaxElement) -> (yes: bool)
        requires
            element.wf(),
        ensures
            yes == self.spec_matches(element),
    {
        match self {
            Pattern::Kind(kind) => element.kind() == kind,
            Pattern::Token(kind) => match element {
                SyntaxElement::Token(token) => token.kind() == kind,
                SyntaxElement::Node(_) => false,
            },
            Pattern::Node(kind) => match element {
                SyntaxElement::Node(node) => node.kind() == kind,
                SyntaxElement::Token(_) => false,
            },
            Pattern::TypeRef => match element {
                SyntaxElement::Node(node) => is_type_ref(node.kind()),
                SyntaxElement::Token(_) => false,
            },
            Pattern::Number => {
                let kind = element.kind();
                kind == SyntaxKind::INT_NUMBER || kind == SyntaxKind::FLOAT_NUMBER
            },
        }
    }
}

/// The position of the first of `elements` at or after `from` that
/// `pattern` matches.
pub open spec fn first_match(elements: Seq<SyntaxElement>, pattern: Pattern, from: int) -> Option<
    int,
>
    decreases elements.len() - from,
{
    if from < 0 || from >= elements.len() {
        None
    } else if pattern.spec_matches(elements[from]) {
        Some(from)
    } else {
        first_match(elements, pattern, from + 1)
    }
}

/// The node among the first `n` of `children` that is nearest to the end.
pub open spec fn last_node_before(children: Seq<Child>, n: int) -> Option<usize>
    decreases n,
{
    if n <= 0 || n > children.len() {
        None
    } else {
        match children[n - 1] {
            Child::Node(node) => Some(node),
            Child::Token(_) => last_node_before(children, n - 1),
        }
    }
}

/// The position of the node `id` among `children`, at or after `from`.
pub open spec fn position_of_node(children: Seq<Child>, id: usize, from: int) -> Option<int>
    decreases children.len() - from,
{
    if from < 0 || from >= children.len() {
        None
    } else if children[from] == Child::Node(id) {
        Some(from)
    } else {
        position_of_node(children, id, from + 1)
    }
}

impl<'a> SyntaxToken<'a> {
    /// The token is one of its tree.
    pub open spec fn wf(self) -> bool {
        self.id < self.tree.tokens().len()
    }

    /// The kind of the token.
    pub open spec fn spec_kind(self) -> SyntaxKind {
        self.tree.tokens()[self.id as int].kind
    }

    /// The text of the token.
    pub open spec fn spec_text(self) -> Seq<char> {
        self.tree.tokens()[self.id as int].text@
    }

    /// The kind of the token.
    pub fn kind(&self) -> (kind: SyntaxKind)
        requires
            self.wf(),
        ensures
            kind == self.spec_kind(),
    {
        self.tree.tokens[self.id].kind
    }

    /// The text of the token.
    pub fn text(&self) -> (text: &'a String)
        requires
            self.wf(),
        ensures
            text@ == self.spec_text(),
    {
        &self.tree.tokens[self.id].text
    }
}

impl<'a> SyntaxElement<'a> {
    /// The element is one of its tree.
    pub open spec fn wf(self) -> bool {
        match self {
            SyntaxElement::Node(node) => node.wf(),
            SyntaxElement::Token(token) => token.wf(),
        }
    }

    /// The kind of the element.
    pub open spec fn spec_kind(self) -> SyntaxKind {
        match self {
            SyntaxElement::Node(node) => node.spec_kind(),
            SyntaxElement::Token(token) => token.spec_kind(),
        }
    }

    /// The kind of the element.
    pub fn kind(&self) -> (kind: SyntaxKind)
        requires
            self.wf(),
        ensures
            kind == self.spec_kind(),
    {
        match self {
            SyntaxElement::Node(node) => node.kind(),
            SyntaxElement::Token(token) => token.kind(),
        }
    }

    /// The element as a token, if it is one.
    pub fn as_token(&self) -> (token: Option<SyntaxToken<'a>>)
        ensures
            token == (match *self {
                SyntaxElement::Token(token) => Some(token),
                SyntaxElement::Node(_) => None,
            }),
    {
        match self {
            SyntaxElement::Token(token) => Some(*token),
            SyntaxElement::Node(_) => None,
        }
    }

    /// The element as a node, if it is one.
    pub fn as_node(&self) -> (node: Option<SyntaxNode<'a>>)
        ensures
            node == (match *self {
                SyntaxElement::Node(node) => Some(node),
                SyntaxElement::Token(_) => None,
            }),
    {
        match self {
            SyntaxElement::Node(node) => Some(*node),
            SyntaxElement::Token(_) => None,
        }
    }
}

impl<'a> SyntaxNode<'a> {
    /// The node is one of its tree.
    pub open spec fn wf(self) -> bool {
        self.id < self.tree.nodes().len()
    }

    /// The kind of the node.
    pub open spec fn spec_kind(self) -> SyntaxKind {
        self.tree.nodes()[self.id as int].kind
    }

    /// The element of this node's tree that `child` stands for.
    pub open spec fn element(self, child: Child) -> SyntaxElement<'a> {
        match child {
            Child::Node(id) => SyntaxElement::Node(SyntaxNode { tree: self.tree, id }),
            Child::Token(id) => SyntaxElement::Token(SyntaxToken { tree: self.tree, id }),
        }
    }

    /// The children of the node, nodes and tokens alike, in source order.
    pub open spec fn spec_children(self) -> Seq<SyntaxElement<'a>> {
        Seq::new(
            self.tree.nodes()[self.id as int].children@.len(),
            |i: int| self.element(self.tree.nodes()[self.id as int].children@[i]),
        )
    }

    /// The parent of the node, if it has one.
    pub open spec fn spec_parent(self) -> Option<SyntaxNode<'a>> {
        match self.tree.nodes()[self.id as int].parent {
            Some(id) => Some(SyntaxNode { tree: self.tree, id }),
            None => None,
        }
    }

    /// The nearest node before this one among the children of its parent:
    /// tokens in between are passed over. None if the node has no parent,
    /// is not among its parent's children, or has only tokens before it.
    pub open spec fn spec_prev_sibling(self) -> Option<SyntaxNode<'a>> {
        match self.tree.nodes()[self.id as int].parent {
            Some(p) => {
                let siblings = self.tree.nodes()[p as int].children@;
                match position_of_node(siblings, self.id, 0) {
                    Some(at) => match last_node_before(siblings, at) {
                        Some(id) => Some(SyntaxNode { tree: self.tree, id }),
                        None => None,
                    },
                    None => None,
                }
            },
            None => None,
        }
    }

    /// The first child at or after position `from` that `pattern` matches.
    pub open spec fn spec_find(self, pattern: Pattern, from: int) -> Option<SyntaxElement<'a>> {
        match first_match(self.spec_children(), pattern, from) {
            Some(at) => Some(self.spec_children()[at]),
            None => None,
        }
    }

    /// Whether `pattern` matches some child.
    pub open spec fn spec_has(self, pattern: Pattern) -> bool {
        first_match(self.spec_children(), pattern, 0) is Some
    }

    /// The kind of the node.
    pub fn kind(&self) -> (kind: SyntaxKind)
        requires
            self.wf(),
        ensures
            kind == self.spec_kind(),
    {
        self.tree.nodes[self.id].kind
    }

    /// The parent of the node, if it has one.
    pub fn parent(&self) -> (parent: Option<SyntaxNode<'a>>)
        requires
            self.wf(),
        ensures
            parent == self.spec_parent(),
            parent matches Some(parent) ==> parent.wf(),
    {
        proof {
            use_type_invariant(self.tree);
        }
        match self.tree.nodes[self.id].parent {
            Some(id) => Some(SyntaxNode { tree: self.tree, id }),
            None => None,
        }
    }

    /// How many children the node has.
    pub fn child_count(&self) -> (count: usize)
        requires
            self.wf(),
        ensures
            count == self.spec_children().len(),
    {
        self.tree.nodes[self.id].children.len()
    }

    /// The child at position `at`.
    pub fn child(&self, at: usize) -> (child: SyntaxElement<'a>)
        requires
            self.wf(),
            at < self.spec_children().len(),
        ensures
            child == self.spec_children()[at as int],
            child.wf(),
    {
        proof {
            use_type_invariant(self.tree);
        }
        match self.tree.nodes[self.id].children[at] {
            Child::Node(id) => SyntaxElement::Node(SyntaxNode { tree: self.tree, id }),
            Child::Token(id) => SyntaxElement::Token(SyntaxToken { tree: self.tree, id }),
        }
    }

    /// The children of the node, nodes and tokens alike, in source order.
    pub fn children_with_tokens(&self) -> (children: Vec<SyntaxElement<'a>>)
        requires
            self.wf(),
        ensures
            children@ == self.spec_children(),
            forall|i: int| 0 <= i < children@.len() ==> (#[trigger] children@[i]).wf(),
    {
        let mut children: Vec<SyntaxElement<'a>> = Vec::new();
        let count = self.child_count();
        let mut i: usize = 0;
        while i < count
            invariant
                self.wf(),
                i <= count,
                count == self.spec_children().len(),
                children@.len() == i,
                forall|j: int| 0 <= j < i ==> children@[j] == self.spec_children()[j],
                forall|j: int| 0 <= j < i ==> (#[trigger] children@[j]).wf(),
            decreases count - i,
        {
            children.push(self.child(i));
            i += 1;
        }
        children
    }

    /// The first child, node or token.
    pub fn first_child_or_token(&self) -> (first: Option<SyntaxElement<'a>>)
        requires
            self.wf(),
        ensures
            first == (if self.spec_children().len() > 0 {
                Some(self.spec_children()[0])
            } else {
                None
            }),
            first matches Some(first) ==> first.wf(),
    {
        if self.child_count() > 0 {
            Some(self.child(0))
        } else {
            None
        }
    }

    /// The last child, node or token.
    pub fn last_child_or_token(&self) -> (last: Option<SyntaxElement<'a>>)
        requires
            self.wf(),
        ensures
            last == (if self.spec_children().len() > 0 {
                Some(self.spec_children().last())
            } else {
                None
            }),
            last matches Some(last) ==> last.wf(),
    {
        let count = self.child_count();
        if count > 0 {
            Some(self.child(count - 1))
        } else {
            None
        }
    }

    /// The position of the first child at or after `from` that `pattern`
    /// matches.
    pub fn position(&self, pattern: Pattern, from: usize) -> (at: Option<usize>)
        requires
            self.wf(),
        ensures
            match at {
                Some(at) => first_match(self.spec_children(), pattern, from as int) == Some(
                    at as int,
                ) && from <= at < self.spec_children().len(),
                None => first_match(self.spec_children(), pattern, from as int) is None,
            },
    {
        let count = self.child_count();
        let mut i: usize = from;
        while i < count
            invariant
                self.wf(),
                from <= i,
                count == self.spec_children().len(),
                first_match(self.spec_children(), pattern, from as int) == first_match(
                    self.spec_children(),
                    pattern,
                    i as int,
                ),
            decreases count - i,
        {
            if pattern.matches(self.child(i)) {
                return Some(i);
            }
            i += 1;
        }
        None
    }

    /// The first child at or after position `from` that `pattern` matches.
    pub fn find(&self, pattern: Pattern, from: usize) -> (found: Option<SyntaxElement<'a>>)
        requires
            self.wf(),
        ensures
            found == self.spec_find(pattern, from as int),
            found matches Some(found) ==> found.wf() && pattern.spec_matches(found),
    {
        proof {
            lemma_first_match(self.spec_children(), pattern, from as int);
        }
        match self.position(pattern, from) {
            Some(at) => Some(self.child(at)),
            None => None,
        }
    }

    /// Whether `pattern` matches some child.
    pub fn has(&self, pattern: Pattern) -> (yes: bool)
        requires
            self.wf(),
        ensures
            yes == self.spec_has(pattern),
    {
        self.position(pattern, 0).is_some()
    }

    /// The nearest node before this one among the children of its parent.
    pub fn prev_sibling(&self) -> (prev: Option<SyntaxNode<'a>>)
        requires
            self.wf(),
        ensures
            prev == self.spec_prev_sibling(),
            prev matches Some(prev) ==> prev.wf(),
    {
        proof {
            use_type_invariant(self.tree);
        }
        let parent = match self.tree.nodes[self.id].parent {
            Some(p) => p,
            None => {
                return None;
            },
        };
        let siblings = &self.tree.nodes[parent].children;
        let mut prev: Option<usize> = None;
        let mut i: usize = 0;
        while i < siblings.len()
            invariant
                i <= siblings@.len(),
                self.wf(),
                parent < self.tree.nodes().len(),
                self.tree.nodes()[self.id as int].parent == Some(parent),
                position_of_node(siblings@, self.id, 0) == position_of_node(
                    siblings@,
                    self.id,
                    i as int,
                ),
                prev == last_node_before(siblings@, i as int),
                prev matches Some(id) ==> id < self.tree.nodes().len(),
                node_in_range(
                    self.tree.nodes()[parent as int],
                    self.tree.nodes().len() as int,
                    self.tree.tokens().len() as int,
                ),
                *siblings == self.tree.nodes()[parent as int].children,
            decreases siblings@.len() - i,
        {
            match siblings[i] {
                Child::Node(id) => {
                    if id == self.id {
                        return match prev {
                            Some(id) => Some(SyntaxNode { tree: self.tree, id }),
                            None => None,
                        };
                    }
                    prev = Some(id);
                },
                Child::Token(_) => {},
            }
            i += 1;
        }
        None
    }
}

/// What the first match is: a child that the pattern matches, with no such
/// child between `from` and it; or no match, and no such child from `from`
/// on.
pub proof fn lemma_first_match(elements: Seq<SyntaxElement>, pattern: Pattern, from: int)
    requires
        0 <= from,
    ensures
        match first_match(elements, pattern, from) {
            Some(at) => from <= at < elements.len() && pattern.spec_matches(elements[at])
                && forall|j: int| from <= j < at ==> !pattern.spec_matches(#[trigger] elements[j]),
            None => forall|j: int|
                from <= j < elements.len() ==> !pattern.spec_matches(#[trigger] elements[j]),
        },
    decreases elements.len() - from,
{
    if from < elements.len() && !pattern.spec_matches(elements[from]) {
        lemma_first_match(elements, pattern, from + 1);
    }
}

} // verus!
