use method_resolution::syntax::ast::{
    Attr, BindPat, EnumVariant, ExprStmt, FieldExpr, ImplBlock, LetStmt, LifetimeParam, Module, Name,
    NameRef, Path, PathSegment, PointerType, RefPat, ReferenceType, SelfParam, StructDef, TypeRef,
    UseTree, UseTreeList, WherePred,
};
use method_resolution::syntax::extensions::{FieldKind, PathSegmentKind, SelfParamKind, StructKind};
use method_resolution::syntax::syntax_kind::SyntaxKind;
use method_resolution::syntax::tree::{Child, NodeData, Pattern, SyntaxElement, SyntaxTree, TokenData};

struct Build {
    nodes: Vec<NodeData>,
    tokens: Vec<TokenData>,
}

impl Build {
    fn new() -> Build {
        Build { nodes: Vec::new(), tokens: Vec::new() }
    }

    fn node(&mut self, kind: SyntaxKind, parent: Option<usize>) -> usize {
        let id = self.nodes.len();
        self.nodes.push(NodeData { kind, parent, children: Vec::new() });
        if let Some(p) = parent {
            self.nodes[p].children.push(Child::Node(id));
        }
        id
    }

    fn token(&mut self, parent: usize, kind: SyntaxKind, text: &str) -> usize {
        let id = self.tokens.len();
        self.tokens.push(TokenData { kind, text: text.to_string() });
        self.nodes[parent].children.push(Child::Token(id));
        id
    }

    fn finish(self) -> SyntaxTree {
        SyntaxTree::new(self.nodes, self.tokens).unwrap()
    }
}

#[test]
fn tree_with_a_child_out_of_range_is_refused() {
    let nodes = vec![NodeData { kind: SyntaxKind::NAME, parent: None, children: vec![Child::Token(0)] }];
    assert!(SyntaxTree::new(nodes, vec![]).is_none());
    let nodes = vec![NodeData { kind: SyntaxKind::NAME, parent: Some(1), children: vec![] }];
    assert!(SyntaxTree::new(nodes, vec![]).is_none());
    let nodes = vec![NodeData { kind: SyntaxKind::NAME, parent: None, children: vec![Child::Node(3)] }];
    assert!(SyntaxTree::new(nodes, vec![]).is_none());
    let tree = SyntaxTree::new(vec![], vec![]).unwrap();
    assert!(tree.node(0).is_none());
}

#[test]
fn name_and_name_ref_have_the_text_of_their_identifier() {
    let mut b = Build::new();
    let root = b.node(SyntaxKind::SOURCE_FILE, None);
    let name = b.node(SyntaxKind::NAME, Some(root));
    b.token(name, SyntaxKind::IDENT, "foo");
    let name_ref = b.node(SyntaxKind::NAME_REF, Some(root));
    b.token(name_ref, SyntaxKind::IDENT, "bar");
    let tree = b.finish();
    let name = Name::cast(tree.node(name).unwrap()).unwrap();
    assert_eq!(name.text(), "foo");
    let name_ref = NameRef::cast(tree.node(name_ref).unwrap()).unwrap();
    assert_eq!(name_ref.text(), "bar");
    assert!(Name::cast(tree.node(root).unwrap()).is_none());
    assert!(NameRef::cast(name.syntax).is_none());
}

fn attr_tree(words: &[(SyntaxKind, &str)], with_args: bool) -> (SyntaxTree, usize) {
    let mut b = Build::new();
    let attr = b.node(SyntaxKind::ATTR, None);
    b.token(attr, SyntaxKind::POUND, "#");
    let tt = b.node(SyntaxKind::TOKEN_TREE, Some(attr));
    b.token(tt, SyntaxKind::L_BRACK, "[");
    for (kind, text) in words {
        b.token(tt, *kind, text);
    }
    if with_args {
        let args = b.node(SyntaxKind::TOKEN_TREE, Some(tt));
        b.token(args, SyntaxKind::L_PAREN, "(");
        b.token(args, SyntaxKind::IDENT, "test");
        b.token(args, SyntaxKind::R_PAREN, ")");
    }
    b.token(tt, SyntaxKind::R_BRACK, "]");
    (b.finish(), attr)
}

#[test]
fn attr_of_one_word_is_an_atom() {
    let (tree, attr) = attr_tree(&[(SyntaxKind::IDENT, "inline")], false);
    let attr = Attr::cast(tree.node(attr).unwrap()).unwrap();
    assert_eq!(attr.as_atom(), Some("inline".to_string()));
    assert_eq!(attr.as_named(), Some("inline".to_string()));
    assert_eq!(attr.as_call(), None);
    assert!(!attr.is_inner());
}

#[test]
fn attr_with_arguments_is_a_call() {
    let (tree, attr) = attr_tree(&[(SyntaxKind::IDENT, "cfg")], true);
    let attr = Attr::cast(tree.node(attr).unwrap()).unwrap();
    assert_eq!(attr.as_atom(), None);
    assert_eq!(attr.as_named(), Some("cfg".to_string()));
    let (word, args) = attr.as_call().unwrap();
    assert_eq!(word, "cfg");
    assert_eq!(args.syntax.kind(), SyntaxKind::TOKEN_TREE);
    assert_eq!(args.syntax.child_count(), 3);
    assert_eq!(args.syntax.parent(), attr.value().map(|tt| tt.syntax));
}

#[test]
fn attr_whose_word_is_no_identifier_has_no_name() {
    let (tree, attr) = attr_tree(&[(SyntaxKind::STRING, "\"x\"")], false);
    let attr = Attr::cast(tree.node(attr).unwrap()).unwrap();
    assert_eq!(attr.as_atom(), None);
    assert_eq!(attr.as_named(), None);
    let (tree, attr) = attr_tree(&[(SyntaxKind::IDENT, "a"), (SyntaxKind::EQ, "="), (SyntaxKind::STRING, "\"b\"")], false);
    let attr = Attr::cast(tree.node(attr).unwrap()).unwrap();
    assert_eq!(attr.as_atom(), None);
    assert_eq!(attr.as_call(), None);
    assert_eq!(attr.as_named(), Some("a".to_string()));
}

#[test]
fn attr_without_a_token_tree_has_nothing() {
    let mut b = Build::new();
    let attr = b.node(SyntaxKind::ATTR, None);
    b.token(attr, SyntaxKind::POUND, "#");
    let tree = b.finish();
    let attr = Attr::cast(tree.node(attr).unwrap()).unwrap();
    assert_eq!(attr.value(), None);
    assert!(!attr.is_inner());
    assert_eq!(attr.as_atom(), None);
    assert_eq!(attr.as_call(), None);
    assert_eq!(attr.as_named(), None);
}

#[test]
fn attr_is_inner_by_the_node_before_its_token_tree() {
    // A token `!` before the tree is passed over: only nodes count.
    let mut b = Build::new();
    let attr = b.node(SyntaxKind::ATTR, None);
    b.token(attr, SyntaxKind::POUND, "#");
    b.token(attr, SyntaxKind::EXCL, "!");
    b.node(SyntaxKind::TOKEN_TREE, Some(attr));
    let tree = b.finish();
    assert!(!Attr::cast(tree.node(attr).unwrap()).unwrap().is_inner());

    let mut b = Build::new();
    let attr = b.node(SyntaxKind::ATTR, None);
    b.node(SyntaxKind::EXCL, Some(attr));
    b.token(attr, SyntaxKind::WHITESPACE, " ");
    b.node(SyntaxKind::TOKEN_TREE, Some(attr));
    let tree = b.finish();
    assert!(Attr::cast(tree.node(attr).unwrap()).unwrap().is_inner());

    let mut b = Build::new();
    let attr = b.node(SyntaxKind::ATTR, None);
    b.node(SyntaxKind::EXCL, Some(attr));
    b.node(SyntaxKind::NAME, Some(attr));
    b.node(SyntaxKind::TOKEN_TREE, Some(attr));
    let tree = b.finish();
    assert!(!Attr::cast(tree.node(attr).unwrap()).unwrap().is_inner());
}

#[test]
fn path_segment_kinds() {
    let mut b = Build::new();
    let outer = b.node(SyntaxKind::PATH, None);
    let path = b.node(SyntaxKind::PATH, Some(outer));
    let named = b.node(SyntaxKind::PATH_SEGMENT, Some(path));
    b.token(named, SyntaxKind::COLONCOLON, "::");
    let name_ref = b.node(SyntaxKind::NAME_REF, Some(named));
    b.token(name_ref, SyntaxKind::IDENT, "a");
    let self_segment = b.node(SyntaxKind::PATH_SEGMENT, Some(outer));
    b.token(self_segment, SyntaxKind::SELF_KW, "self");
    let super_segment = b.node(SyntaxKind::PATH_SEGMENT, Some(outer));
    b.token(super_segment, SyntaxKind::SUPER_KW, "super");
    let crate_segment = b.node(SyntaxKind::PATH_SEGMENT, Some(outer));
    b.token(crate_segment, SyntaxKind::CRATE_KW, "crate");
    let odd_segment = b.node(SyntaxKind::PATH_SEGMENT, Some(outer));
    b.token(odd_segment, SyntaxKind::STAR, "*");
    let empty_segment = b.node(SyntaxKind::PATH_SEGMENT, Some(outer));
    let tree = b.finish();
    let segment = |id: usize| PathSegment::cast(tree.node(id).unwrap()).unwrap();

    let named = segment(named);
    assert_eq!(named.kind(), Some(PathSegmentKind::Name(NameRef::cast(tree.node(name_ref).unwrap()).unwrap())));
    assert!(named.has_colon_colon());
    assert_eq!(named.parent_path().syntax, tree.node(path).unwrap());
    assert_eq!(segment(self_segment).kind(), Some(PathSegmentKind::SelfKw));
    assert_eq!(segment(super_segment).kind(), Some(PathSegmentKind::SuperKw));
    assert_eq!(segment(crate_segment).kind(), Some(PathSegmentKind::CrateKw));
    assert_eq!(segment(odd_segment).kind(), None);
    assert_eq!(segment(empty_segment).kind(), None);
    assert!(!segment(self_segment).has_colon_colon());
    assert!(!segment(empty_segment).has_colon_colon());

    let inner = Path::cast(tree.node(path).unwrap()).unwrap();
    assert_eq!(inner.parent_path(), Path::cast(tree.node(outer).unwrap()));
    let outer = Path::cast(tree.node(outer).unwrap()).unwrap();
    assert_eq!(outer.parent_path(), None);
}

#[test]
fn path_under_another_node_has_no_parent_path() {
    let mut b = Build::new();
    let use_tree = b.node(SyntaxKind::USE_TREE, None);
    let path = b.node(SyntaxKind::PATH, Some(use_tree));
    let tree = b.finish();
    assert_eq!(Path::cast(tree.node(path).unwrap()).unwrap().parent_path(), None);
}

#[test]
fn semicolons_at_the_end() {
    let mut b = Build::new();
    let root = b.node(SyntaxKind::SOURCE_FILE, None);
    let declared = b.node(SyntaxKind::MODULE, Some(root));
    b.token(declared, SyntaxKind::MOD_KW, "mod");
    b.token(declared, SyntaxKind::SEMI, ";");
    let inline = b.node(SyntaxKind::MODULE, Some(root));
    b.token(inline, SyntaxKind::MOD_KW, "mod");
    b.node(SyntaxKind::ITEM_LIST, Some(inline));
    let empty = b.node(SyntaxKind::MODULE, Some(root));
    let let_stmt = b.node(SyntaxKind::LET_STMT, Some(root));
    b.token(let_stmt, SyntaxKind::LET_KW, "let");
    b.token(let_stmt, SyntaxKind::SEMI, ";");
    let open_let = b.node(SyntaxKind::LET_STMT, Some(root));
    b.token(open_let, SyntaxKind::SEMI, ";");
    b.token(open_let, SyntaxKind::LET_KW, "let");
    let expr_stmt = b.node(SyntaxKind::EXPR_STMT, Some(root));
    b.node(SyntaxKind::LITERAL, Some(expr_stmt));
    b.token(expr_stmt, SyntaxKind::SEMI, ";");
    let tail = b.node(SyntaxKind::EXPR_STMT, Some(root));
    b.node(SyntaxKind::LITERAL, Some(tail));
    let tree = b.finish();
    assert!(Module::cast(tree.node(declared).unwrap()).unwrap().has_semi());
    assert!(!Module::cast(tree.node(inline).unwrap()).unwrap().has_semi());
    assert!(!Module::cast(tree.node(empty).unwrap()).unwrap().has_semi());
    assert!(LetStmt::cast(tree.node(let_stmt).unwrap()).unwrap().has_semi());
    assert!(!LetStmt::cast(tree.node(open_let).unwrap()).unwrap().has_semi());
    assert!(ExprStmt::cast(tree.node(expr_stmt).unwrap()).unwrap().has_semi());
    assert!(!ExprStmt::cast(tree.node(tail).unwrap()).unwrap().has_semi());
}

#[test]
fn use_trees() {
    let mut b = Build::new();
    let outer = b.node(SyntaxKind::USE_TREE, None);
    b.node(SyntaxKind::PATH, Some(outer));
    let list = b.node(SyntaxKind::USE_TREE_LIST, Some(outer));
    let glob = b.node(SyntaxKind::USE_TREE, Some(list));
    b.node(SyntaxKind::PATH, Some(glob));
    b.token(glob, SyntaxKind::COLONCOLON, "::");
    b.token(glob, SyntaxKind::STAR, "*");
    let tree = b.finish();
    let outer_tree = UseTree::cast(tree.node(outer).unwrap()).unwrap();
    assert!(!outer_tree.has_star());
    assert!(UseTree::cast(tree.node(glob).unwrap()).unwrap().has_star());
    let list = UseTreeList::cast(tree.node(list).unwrap()).unwrap();
    assert_eq!(list.parent_use_tree(), outer_tree);
}

#[test]
fn impl_block_targets() {
    let mut b = Build::new();
    let root = b.node(SyntaxKind::SOURCE_FILE, None);
    let inherent = b.node(SyntaxKind::IMPL_BLOCK, Some(root));
    b.token(inherent, SyntaxKind::IMPL_KW, "impl");
    let s = b.node(SyntaxKind::PATH_TYPE, Some(inherent));
    b.node(SyntaxKind::ITEM_LIST, Some(inherent));
    let by_trait = b.node(SyntaxKind::IMPL_BLOCK, Some(root));
    b.token(by_trait, SyntaxKind::IMPL_KW, "impl");
    let tr = b.node(SyntaxKind::PATH_TYPE, Some(by_trait));
    b.token(by_trait, SyntaxKind::WHITESPACE, " ");
    let target = b.node(SyntaxKind::REFERENCE_TYPE, Some(by_trait));
    b.node(SyntaxKind::TUPLE_TYPE, Some(by_trait));
    let bare = b.node(SyntaxKind::IMPL_BLOCK, Some(root));
    b.token(bare, SyntaxKind::IMPL_KW, "impl");
    let tree = b.finish();
    let type_ref = |id: usize| TypeRef::cast(tree.node(id).unwrap());

    let inherent = ImplBlock::cast(tree.node(inherent).unwrap()).unwrap();
    assert_eq!(inherent.target(), (type_ref(s), None));
    assert_eq!(inherent.target_type(), type_ref(s));
    assert_eq!(inherent.target_trait(), None);
    let by_trait = ImplBlock::cast(tree.node(by_trait).unwrap()).unwrap();
    assert_eq!(by_trait.target(), (type_ref(tr), type_ref(target)));
    assert_eq!(by_trait.target_type(), type_ref(target));
    assert_eq!(by_trait.target_trait(), type_ref(tr));
    let bare = ImplBlock::cast(tree.node(bare).unwrap()).unwrap();
    assert_eq!(bare.target_type(), None);
    assert_eq!(bare.target_trait(), None);
    assert!(type_ref(root).is_none());
    assert!(type_ref(s).is_some());
}

#[test]
fn struct_kinds() {
    let mut b = Build::new();
    let def = b.node(SyntaxKind::ENUM_DEF, None);
    let list = b.node(SyntaxKind::ENUM_VARIANT_LIST, Some(def));
    let unit = b.node(SyntaxKind::ENUM_VARIANT, Some(list));
    b.node(SyntaxKind::NAME, Some(unit));
    let tuple = b.node(SyntaxKind::ENUM_VARIANT, Some(list));
    b.node(SyntaxKind::NAME, Some(tuple));
    let pos = b.node(SyntaxKind::POS_FIELD_DEF_LIST, Some(tuple));
    let named = b.node(SyntaxKind::STRUCT_DEF, Some(def));
    b.token(named, SyntaxKind::STRUCT_KW, "struct");
    let both_pos = b.node(SyntaxKind::POS_FIELD_DEF_LIST, Some(named));
    let fields = b.node(SyntaxKind::NAMED_FIELD_DEF_LIST, Some(named));
    let tree = b.finish();
    let unit = EnumVariant::cast(tree.node(unit).unwrap()).unwrap();
    assert_eq!(unit.kind(), StructKind::Unit);
    assert_eq!(unit.parent_enum().syntax, tree.node(def).unwrap());
    let tuple = EnumVariant::cast(tree.node(tuple).unwrap()).unwrap();
    match tuple.kind() {
        StructKind::Tuple(list) => assert_eq!(list.syntax, tree.node(pos).unwrap()),
        other => panic!("not a tuple: {:?}", other),
    }
    let named = StructDef::cast(tree.node(named).unwrap()).unwrap();
    match named.kind() {
        StructKind::Named(list) => assert_eq!(list.syntax, tree.node(fields).unwrap()),
        other => panic!("not named: {:?}", other),
    }
    assert_ne!(tree.node(both_pos), tree.node(fields));
    assert_eq!(StructKind::from_node(tree.node(def).unwrap()), StructKind::Unit);
}

#[test]
fn field_accesses() {
    let mut b = Build::new();
    let root = b.node(SyntaxKind::SOURCE_FILE, None);
    let by_name = b.node(SyntaxKind::FIELD_EXPR, Some(root));
    b.node(SyntaxKind::PATH_EXPR, Some(by_name));
    b.token(by_name, SyntaxKind::DOT, ".");
    let name_ref = b.node(SyntaxKind::NAME_REF, Some(by_name));
    b.token(name_ref, SyntaxKind::IDENT, "foo");
    let by_index = b.node(SyntaxKind::FIELD_EXPR, Some(root));
    b.node(SyntaxKind::PATH_EXPR, Some(by_index));
    b.token(by_index, SyntaxKind::DOT, ".");
    let zero = b.token(by_index, SyntaxKind::INT_NUMBER, "0");
    let by_float = b.node(SyntaxKind::FIELD_EXPR, Some(root));
    let float = b.token(by_float, SyntaxKind::FLOAT_NUMBER, "0.1");
    b.token(by_float, SyntaxKind::INT_NUMBER, "2");
    let by_node = b.node(SyntaxKind::FIELD_EXPR, Some(root));
    b.node(SyntaxKind::INT_NUMBER, Some(by_node));
    b.token(by_node, SyntaxKind::INT_NUMBER, "3");
    let neither = b.node(SyntaxKind::FIELD_EXPR, Some(root));
    b.token(neither, SyntaxKind::DOT, ".");
    let tree = b.finish();
    let field = |id: usize| FieldExpr::cast(tree.node(id).unwrap()).unwrap();

    assert_eq!(field(by_name).field_access(), Some(FieldKind::Name(NameRef::cast(tree.node(name_ref).unwrap()).unwrap())));
    assert_eq!(field(by_name).index_token(), None);
    let token = field(by_index).index_token().unwrap();
    assert_eq!(token.id, zero);
    assert_eq!(token.text(), "0");
    assert_eq!(token.kind(), SyntaxKind::INT_NUMBER);
    assert_eq!(field(by_index).field_access(), Some(FieldKind::Index(token)));
    assert_eq!(field(by_float).index_token().map(|t| t.id), Some(float));
    // The first number is a node: it is found, and it is no token.
    assert_eq!(field(by_node).index_token(), None);
    assert_eq!(field(by_node).field_access(), None);
    assert_eq!(field(neither).field_access(), None);
}

fn with_tokens(kind: SyntaxKind, tokens: &[SyntaxKind]) -> (SyntaxTree, usize) {
    let mut b = Build::new();
    let node = b.node(kind, None);
    for token in tokens {
        b.token(node, *token, "");
    }
    (b.finish(), node)
}

#[test]
fn mutability_flags() {
    let (tree, id) = with_tokens(SyntaxKind::REF_PAT, &[SyntaxKind::AMP, SyntaxKind::MUT_KW]);
    assert!(RefPat::cast(tree.node(id).unwrap()).unwrap().is_mut());
    let (tree, id) = with_tokens(SyntaxKind::REF_PAT, &[SyntaxKind::AMP]);
    assert!(!RefPat::cast(tree.node(id).unwrap()).unwrap().is_mut());
    let (tree, id) = with_tokens(SyntaxKind::BIND_PAT, &[SyntaxKind::REF_KW, SyntaxKind::MUT_KW]);
    let pat = BindPat::cast(tree.node(id).unwrap()).unwrap();
    assert!(pat.is_mutable() && pat.is_ref());
    let (tree, id) = with_tokens(SyntaxKind::BIND_PAT, &[SyntaxKind::REF_KW]);
    let pat = BindPat::cast(tree.node(id).unwrap()).unwrap();
    assert!(!pat.is_mutable() && pat.is_ref());
    let (tree, id) = with_tokens(SyntaxKind::BIND_PAT, &[]);
    let pat = BindPat::cast(tree.node(id).unwrap()).unwrap();
    assert!(!pat.is_mutable() && !pat.is_ref());
    let (tree, id) = with_tokens(SyntaxKind::POINTER_TYPE, &[SyntaxKind::STAR, SyntaxKind::MUT_KW]);
    assert!(PointerType::cast(tree.node(id).unwrap()).unwrap().is_mut());
    let (tree, id) = with_tokens(SyntaxKind::POINTER_TYPE, &[SyntaxKind::STAR]);
    assert!(!PointerType::cast(tree.node(id).unwrap()).unwrap().is_mut());
    let (tree, id) = with_tokens(SyntaxKind::REFERENCE_TYPE, &[SyntaxKind::AMP, SyntaxKind::MUT_KW]);
    assert!(ReferenceType::cast(tree.node(id).unwrap()).unwrap().is_mut());
    let (tree, id) = with_tokens(SyntaxKind::REFERENCE_TYPE, &[SyntaxKind::AMP, SyntaxKind::LIFETIME]);
    assert!(!ReferenceType::cast(tree.node(id).unwrap()).unwrap().is_mut());
}

#[test]
fn self_param_kinds() {
    let kind = |tokens: &[SyntaxKind]| {
        let (tree, id) = with_tokens(SyntaxKind::SELF_PARAM, tokens);
        SelfParam::cast(tree.node(id).unwrap()).unwrap().kind()
    };
    assert_eq!(kind(&[SyntaxKind::SELF_KW]), SelfParamKind::Owned);
    assert_eq!(kind(&[SyntaxKind::MUT_KW, SyntaxKind::SELF_KW]), SelfParamKind::Owned);
    assert_eq!(kind(&[SyntaxKind::AMP, SyntaxKind::SELF_KW]), SelfParamKind::Ref);
    assert_eq!(kind(&[SyntaxKind::AMP, SyntaxKind::MUT_KW, SyntaxKind::SELF_KW]), SelfParamKind::MutRef);
    // `mut &self` is no `&mut self`.
    assert_eq!(kind(&[SyntaxKind::MUT_KW, SyntaxKind::AMP, SyntaxKind::SELF_KW]), SelfParamKind::Ref);
    assert_eq!(kind(&[SyntaxKind::AMP, SyntaxKind::LIFETIME, SyntaxKind::MUT_KW, SyntaxKind::SELF_KW]), SelfParamKind::MutRef);
    assert_eq!(kind(&[]), SelfParamKind::Owned);
}

#[test]
fn self_and_lifetime_tokens() {
    let mut b = Build::new();
    let root = b.node(SyntaxKind::PARAM_LIST, None);
    let param = b.node(SyntaxKind::SELF_PARAM, Some(root));
    b.token(param, SyntaxKind::AMP, "&");
    b.node(SyntaxKind::SELF_KW, Some(param));
    let this = b.token(param, SyntaxKind::SELF_KW, "self");
    b.token(param, SyntaxKind::SELF_KW, "self");
    let lifetime_param = b.node(SyntaxKind::LIFETIME_PARAM, Some(root));
    let a = b.token(lifetime_param, SyntaxKind::LIFETIME, "'a");
    let pred = b.node(SyntaxKind::WHERE_PRED, Some(root));
    b.node(SyntaxKind::PATH_TYPE, Some(pred));
    b.token(pred, SyntaxKind::COLON, ":");
    let bound = b.token(pred, SyntaxKind::LIFETIME, "'b");
    let no_lifetime = b.node(SyntaxKind::WHERE_PRED, Some(root));
    b.node(SyntaxKind::LIFETIME, Some(no_lifetime));
    let tree = b.finish();
    let token = SelfParam::cast(tree.node(param).unwrap()).unwrap().self_kw_token();
    assert_eq!(token.id, this);
    assert_eq!(token.text(), "self");
    let token = LifetimeParam::cast(tree.node(lifetime_param).unwrap()).unwrap().lifetime_token().unwrap();
    assert_eq!((token.id, token.text().as_str()), (a, "'a"));
    let token = WherePred::cast(tree.node(pred).unwrap()).unwrap().lifetime_token().unwrap();
    assert_eq!((token.id, token.text().as_str()), (bound, "'b"));
    assert_eq!(WherePred::cast(tree.node(no_lifetime).unwrap()).unwrap().lifetime_token(), None);
}

#[test]
fn searches_among_children() {
    let mut b = Build::new();
    let root = b.node(SyntaxKind::SOURCE_FILE, None);
    b.token(root, SyntaxKind::WHITESPACE, " ");
    let first = b.node(SyntaxKind::NAME, Some(root));
    b.token(root, SyntaxKind::COMMA, ",");
    let second = b.node(SyntaxKind::NAME, Some(root));
    let tree = b.finish();
    let root = tree.node(root).unwrap();
    assert_eq!(root.child_count(), 4);
    assert_eq!(root.children_with_tokens().len(), 4);
    assert_eq!(root.position(Pattern::Node(SyntaxKind::NAME), 0), Some(1));
    assert_eq!(root.position(Pattern::Node(SyntaxKind::NAME), 2), Some(3));
    assert_eq!(root.position(Pattern::Node(SyntaxKind::NAME), 4), None);
    assert_eq!(root.position(Pattern::Token(SyntaxKind::NAME), 0), None);
    assert_eq!(root.position(Pattern::Kind(SyntaxKind::COMMA), 0), Some(2));
    assert_eq!(root.find(Pattern::Node(SyntaxKind::NAME), 0), Some(SyntaxElement::Node(tree.node(first).unwrap())));
    assert!(root.has(Pattern::Token(SyntaxKind::COMMA)));
    assert!(!root.has(Pattern::TypeRef));
    assert!(!root.has(Pattern::Number));
    assert_eq!(tree.node(second).unwrap().prev_sibling(), tree.node(first));
    assert_eq!(tree.node(first).unwrap().prev_sibling(), None);
    assert_eq!(root.prev_sibling(), None);
    assert_eq!(root.first_child_or_token().map(|e| e.kind()), Some(SyntaxKind::WHITESPACE));
    assert_eq!(root.last_child_or_token().and_then(|e| e.as_node()), tree.node(second));
    assert_eq!(root.first_child_or_token().and_then(|e| e.as_node()), None);
    assert_eq!(tree.node(first).unwrap().first_child_or_token(), None);
}
