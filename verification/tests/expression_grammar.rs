use method_resolution::grammar::expressions::{
    begins_expr, current_op, path_expr_kind, postfix, prefix, Lookahead, Op, Postfix, Prefix, Restrictions,
};
use method_resolution::syntax::syntax_kind::SyntaxKind;
use method_resolution::syntax::syntax_kind::SyntaxKind::{
    AMP, AMPAMP, CALL_EXPR, COLONCOLON, DEREF_EXPR, DOT, DOTDOT, EOF, EQ, EQEQ, EXCL, FIELD_EXPR, FLOAT_NUMBER, GTEQ, IDENT, INDEX_EXPR, INT_NUMBER, LTEQ, L_ANGLE, L_BRACK, L_CURLY, L_PAREN, MACRO_CALL, METHOD_CALL_EXPR, MINUS, MINUSEQ, NEQ, NOT_EXPR, PATH_EXPR, PIPE, PIPEPIPE, PLUS, PLUSEQ, QUESTION, RANGE_EXPR, REF_EXPR, R_ANGLE, R_BRACK, R_PAREN, SEMI, SLASH, STAR, STRUCT_LIT, TRY_EXPR,
};

fn ahead(current: SyntaxKind, second: SyntaxKind, joint: bool) -> Lookahead {
    Lookahead { current, second, third: EOF, joint }
}

#[test]
fn compound_operators_need_their_tokens_side_by_side() {
    assert_eq!(current_op(&ahead(PLUS, EQ, true)), (1, Op::Composite(PLUSEQ, 2)));
    assert_eq!(current_op(&ahead(MINUS, EQ, true)), (1, Op::Composite(MINUSEQ, 2)));
    assert_eq!(current_op(&ahead(PIPE, PIPE, true)), (3, Op::Composite(PIPEPIPE, 2)));
    assert_eq!(current_op(&ahead(AMP, AMP, true)), (4, Op::Composite(AMPAMP, 2)));
    assert_eq!(current_op(&ahead(L_ANGLE, EQ, true)), (5, Op::Composite(LTEQ, 2)));
    assert_eq!(current_op(&ahead(R_ANGLE, EQ, true)), (5, Op::Composite(GTEQ, 2)));
    assert_eq!(current_op(&ahead(PLUS, EQ, false)), (6, Op::Simple));
    assert_eq!(current_op(&ahead(MINUS, EQ, false)), (6, Op::Simple));
    assert_eq!(current_op(&ahead(PIPE, PIPE, false)), (0, Op::Simple));
    assert_eq!(current_op(&ahead(AMP, AMP, false)), (0, Op::Simple));
    assert_eq!(current_op(&ahead(L_ANGLE, EQ, false)), (0, Op::Simple));
    assert!(ahead(PLUS, EQ, true).at_compound2(PLUS, EQ));
    assert!(!ahead(PLUS, EQ, true).at_compound2(PLUS, PLUS));
    assert!(!ahead(PLUS, EQ, false).at_compound2(PLUS, EQ));
}

#[test]
fn simple_operators_have_their_binding_power() {
    let power = |kind: SyntaxKind| current_op(&ahead(kind, IDENT, true));
    assert_eq!(power(EQ), (1, Op::Simple));
    assert_eq!(power(DOTDOT), (2, Op::Simple));
    assert_eq!(power(EQEQ), (5, Op::Simple));
    assert_eq!(power(NEQ), (5, Op::Simple));
    assert_eq!(power(MINUS), (6, Op::Simple));
    assert_eq!(power(PLUS), (6, Op::Simple));
    assert_eq!(power(STAR), (7, Op::Simple));
    assert_eq!(power(SLASH), (7, Op::Simple));
    assert_eq!(power(IDENT), (0, Op::Simple));
    assert_eq!(power(SEMI), (0, Op::Simple));
    assert_eq!(power(EOF), (0, Op::Simple));
    assert_eq!(power(L_ANGLE), (0, Op::Simple));
}

#[test]
fn prefix_forms() {
    assert_eq!(prefix(AMP), Prefix::Ref);
    assert_eq!(prefix(STAR), Prefix::Deref);
    assert_eq!(prefix(EXCL), Prefix::Not);
    assert_eq!(prefix(DOTDOT), Prefix::Range);
    assert_eq!(prefix(IDENT), Prefix::Atom);
    assert_eq!(prefix(MINUS), Prefix::Atom);
    assert_eq!(Prefix::Ref.node_kind(), Some(REF_EXPR));
    assert_eq!(Prefix::Deref.node_kind(), Some(DEREF_EXPR));
    assert_eq!(Prefix::Not.node_kind(), Some(NOT_EXPR));
    assert_eq!(Prefix::Range.node_kind(), Some(RANGE_EXPR));
    assert_eq!(Prefix::Atom.node_kind(), None);
    assert_eq!(Prefix::Ref.operand_power(), Some(255));
    assert_eq!(Prefix::Deref.operand_power(), Some(255));
    assert_eq!(Prefix::Not.operand_power(), Some(255));
    assert_eq!(Prefix::Range.operand_power(), Some(2));
    assert_eq!(Prefix::Atom.operand_power(), None);
    assert!(begins_expr(AMP, false) && begins_expr(STAR, false) && begins_expr(EXCL, false));
    assert!(!begins_expr(DOTDOT, false));
    assert!(begins_expr(IDENT, true));
    assert!(!begins_expr(SEMI, false));
}

#[test]
fn postfix_forms() {
    let form = |current, second, third, begins_atom| postfix(&Lookahead { current, second, third, joint: false }, begins_atom);
    assert_eq!(form(L_PAREN, R_PAREN, SEMI, false), Postfix::Call);
    assert_eq!(form(L_BRACK, INT_NUMBER, R_BRACK, true), Postfix::Index);
    assert_eq!(form(DOT, IDENT, L_PAREN, true), Postfix::MethodCall);
    assert_eq!(form(DOT, IDENT, COLONCOLON, true), Postfix::MethodCall);
    assert_eq!(form(DOT, IDENT, SEMI, true), Postfix::Field);
    assert_eq!(form(DOT, INT_NUMBER, L_PAREN, true), Postfix::Field);
    assert_eq!(form(DOT, FLOAT_NUMBER, SEMI, true), Postfix::End);
    assert_eq!(form(DOT, STAR, SEMI, false), Postfix::End);
    assert_eq!(form(DOTDOT, SEMI, EOF, false), Postfix::Range);
    assert_eq!(form(DOTDOT, INT_NUMBER, SEMI, true), Postfix::End);
    assert_eq!(form(DOTDOT, AMP, IDENT, false), Postfix::End);
    assert_eq!(form(QUESTION, SEMI, EOF, false), Postfix::Try);
    assert_eq!(form(SEMI, EOF, EOF, false), Postfix::End);
    assert_eq!(Postfix::Call.node_kind(), Some(CALL_EXPR));
    assert_eq!(Postfix::Index.node_kind(), Some(INDEX_EXPR));
    assert_eq!(Postfix::MethodCall.node_kind(), Some(METHOD_CALL_EXPR));
    assert_eq!(Postfix::Field.node_kind(), Some(FIELD_EXPR));
    assert_eq!(Postfix::Range.node_kind(), Some(RANGE_EXPR));
    assert_eq!(Postfix::Try.node_kind(), Some(TRY_EXPR));
    assert_eq!(Postfix::End.node_kind(), None);
}

#[test]
fn path_expression_kinds() {
    let free = Restrictions { forbid_structs: false };
    let before_block = Restrictions { forbid_structs: true };
    assert_eq!(path_expr_kind(L_CURLY, free), STRUCT_LIT);
    assert_eq!(path_expr_kind(L_CURLY, before_block), PATH_EXPR);
    assert_eq!(path_expr_kind(EXCL, free), MACRO_CALL);
    assert_eq!(path_expr_kind(EXCL, before_block), MACRO_CALL);
    assert_eq!(path_expr_kind(SEMI, free), PATH_EXPR);
}
