//! The kinds of the tokens and nodes of a syntax tree.

use vstd::prelude::*;

verus! {

/// What a token or a node of a syntax tree is.
#[allow(non_camel_case_types)]
#[derive(Clone, Copy, Debug, PartialEq, Eq, Hash, Structural)]
pub enum SyntaxKind {
    // Tokens.
    SEMI,
    COMMA,
    L_PAREN,
    R_PAREN,
    L_CURLY,
    R_CURLY,
    L_BRACK,
    R_BRACK,
    L_ANGLE,
    R_ANGLE,
    AT,
    POUND,
    TILDE,
    QUESTION,
    DOLLAR,
    AMP,
    PIPE,
    PLUS,
    STAR,
    SLASH,
    CARET,
    PERCENT,
    UNDERSCORE,
    DOT,
    DOTDOT,
    DOTDOTDOT,
    DOTDOTEQ,
    COLON,
    COLONCOLON,
    EQ,
    EQEQ,
    FAT_ARROW,
    EXCL,
    NEQ,
    MINUS,
    THIN_ARROW,
    LTEQ,
    GTEQ,
    PLUSEQ,
    MINUSEQ,
    AMPAMP,
    PIPEPIPE,
    CRATE_KW,
    SELF_KW,
    SUPER_KW,
    MUT_KW,
    REF_KW,
    IMPL_KW,
    MOD_KW,
    USE_KW,
    STRUCT_KW,
    ENUM_KW,
    LET_KW,
    FN_KW,
    INT_NUMBER,
    FLOAT_NUMBER,
    CHAR,
    STRING,
    ERROR,
    IDENT,
    WHITESPACE,
    LIFETIME,
    COMMENT,
    EOF,
    // Nodes.
    SOURCE_FILE,
    STRUCT_DEF,
    ENUM_DEF,
    FN_DEF,
    TRAIT_DEF,
    IMPL_BLOCK,
    MODULE,
    USE_ITEM,
    MACRO_CALL,
    TOKEN_TREE,
    PAREN_TYPE,
    TUPLE_TYPE,
    NEVER_TYPE,
    PATH_TYPE,
    POINTER_TYPE,
    ARRAY_TYPE,
    SLICE_TYPE,
    REFERENCE_TYPE,
    PLACEHOLDER_TYPE,
    FN_POINTER_TYPE,
    FOR_TYPE,
    IMPL_TRAIT_TYPE,
    DYN_TRAIT_TYPE,
    REF_PAT,
    BIND_PAT,
    TUPLE_EXPR,
    ARRAY_EXPR,
    PAREN_EXPR,
    PATH_EXPR,
    LAMBDA_EXPR,
    IF_EXPR,
    WHILE_EXPR,
    LOOP_EXPR,
    FOR_EXPR,
    BLOCK_EXPR,
    RETURN_EXPR,
    MATCH_EXPR,
    STRUCT_LIT,
    STRUCT_LIT_FIELD,
    CALL_EXPR,
    INDEX_EXPR,
    METHOD_CALL_EXPR,
    FIELD_EXPR,
    TRY_EXPR,
    CAST_EXPR,
    REF_EXPR,
    DEREF_EXPR,
    NOT_EXPR,
    RANGE_EXPR,
    BIN_EXPR,
    LITERAL,
    BLOCK,
    EXPR_STMT,
    LET_STMT,
    ENUM_VARIANT,
    ENUM_VARIANT_LIST,
    NAMED_FIELD_DEF_LIST,
    NAMED_FIELD_DEF,
    POS_FIELD_DEF_LIST,
    POS_FIELD_DEF,
    ITEM_LIST,
    ATTR,
    USE_TREE,
    USE_TREE_LIST,
    PATH,
    PATH_SEGMENT,
    NAME,
    NAME_REF,
    TYPE_PARAM_LIST,
    LIFETIME_PARAM,
    TYPE_PARAM,
    WHERE_CLAUSE,
    WHERE_PRED,
    PARAM_LIST,
    PARAM,
    SELF_PARAM,
    ARG_LIST,
    TYPE_ARG_LIST,
}

} // verus!
