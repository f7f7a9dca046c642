//! Expressions: the binding power of the operators, and which form of
//! expression the tokens ahead begin or continue.

use vstd::prelude::*;
use crate::syntax::syntax_kind::SyntaxKind;

verus! {

/// The tokens that the parser sees ahead: the kinds of the next three, and
/// whether the first two stand side by side with nothing between them.
#[derive(Clone, Copy, Debug, PartialEq, Eq)]
pub struct Lookahead {
    pub current: SyntaxKind,
    pub second: SyntaxKind,
    pub third: SyntaxKind,
    pub joint: bool,
}

/// What an expression may not be where it stands.
#[derive(Clone, Copy, Debug, PartialEq, Eq)]
pub struct Restrictions {
    /// No struct literal: it stands before a block, as in the condition of
    /// an `if`.
    pub forbid_structs: bool,
}

/// A binary operator: one token, or two tokens side by side that are
/// taken as one of the given kind.
#[derive(Clone, Copy, Debug, PartialEq, Eq, Structural)]
pub enum Op {
    Simple,
    Composite(SyntaxKind, u8),
}

impl Lookahead {
    /// Whether the tokens ahead are `first` and `second` side by side.
    pub open spec fn spec_at_compound2(&self, first: SyntaxKind, second: SyntaxKind) -> bool {
        self.current == first && self.second == second && self.joint
    }

    /// Whether the tokens ahead are `first` and `second` side by side.
    pub fn at_compound2(&self, first: SyntaxKind, second: SyntaxKind) -> (yes: bool)
        ensures
            yes == self.spec_at_compound2(first, second),
    {
        self.current == first && self.second == second && self.joint
    }
}

/// The binding power of the operator ahead and its form; power zero where
/// no binary operator is ahead. A higher power binds tighter: assignment
/// 1, ranges 2, `||` 3, `&&` 4, comparisons 5, sums 6, products 7.
pub open spec fn spec_current_op(p: Lookahead) -> (u8, Op) {
    if p.spec_at_compound2(SyntaxKind::PLUS, SyntaxKind::EQ) {
        (1, Op::Composite(SyntaxKind::PLUSEQ, 2))
    } else if p.spec_at_compound2(SyntaxKind::MINUS, SyntaxKind::EQ) {
        (1, Op::Composite(SyntaxKind::MINUSEQ, 2))
    } else if p.spec_at_compound2(SyntaxKind::PIPE, SyntaxKind::PIPE) {
        (3, Op::Composite(SyntaxKind::PIPEPIPE, 2))
    } else if p.spec_at_compound2(SyntaxKind::AMP, SyntaxKind::AMP) {
        (4, Op::Composite(SyntaxKind::AMPAMP, 2))
    } else if p.spec_at_compound2(SyntaxKind::L_ANGLE, SyntaxKind::EQ) {
        (5, Op::Composite(SyntaxKind::LTEQ, 2))
    } else if p.spec_at_compound2(SyntaxKind::R_ANGLE, SyntaxKind::EQ) {
        (5, Op::Composite(SyntaxKind::GTEQ, 2))
    } else {
        (
            match p.current {
                SyntaxKind::EQ => 1u8,
                SyntaxKind::DOTDOT => 2u8,
                SyntaxKind::EQEQ | SyntaxKind::NEQ => 5u8,
                SyntaxKind::MINUS | SyntaxKind::PLUS => 6u8,
                SyntaxKind::STAR | SyntaxKind::SLASH => 7u8,
                _ => 0u8,
            },
            Op::Simple,
        )
    }
}

/// The binding power of the operator ahead and its form.
pub fn current_op(p: &Lookahead) -> (op: (u8, Op))
    ensures
        op == spec_current_op(*p),
{
    if p.at_compound2(SyntaxKind::PLUS, SyntaxKind::EQ) {
        return (1, Op::Composite(SyntaxKind::PLUSEQ, 2));
    }
    if p.at_compound2(SyntaxKind::MINUS, SyntaxKind::EQ) {
        return (1, Op::Composite(SyntaxKind::MINUSEQ, 2));
    }
    if p.at_compound2(SyntaxKind::PIPE, SyntaxKind::PIPE) {
        return (3, Op::Composite(SyntaxKind::PIPEPIPE, 2));
    }
    if p.at_compound2(SyntaxKind::AMP, SyntaxKind::AMP) {
        return (4, Op::Composite(SyntaxKind::AMPAMP, 2));
    }
    if p.at_compound2(SyntaxKind::L_ANGLE, SyntaxKind::EQ) {
        return (5, Op::Composite(SyntaxKind::LTEQ, 2));
    }
    if p.at_compound2(SyntaxKind::R_ANGLE, SyntaxKind::EQ) {
        return (5, Op::Composite(SyntaxKind::GTEQ, 2));
    }
    let bp: u8 = match p.current {
        SyntaxKind::EQ => 1,
        SyntaxKind::DOTDOT => 2,
        SyntaxKind::EQEQ | SyntaxKind::NEQ => 5,
        SyntaxKind::MINUS | SyntaxKind::PLUS => 6,
        SyntaxKind::STAR | SyntaxKind::SLASH => 7,
        _ => 0,
    };
    (bp, Op::Simple)
}

/// How the left side of an expression begins.
#[derive(Clone, Copy, Debug, PartialEq, Eq, Structural)]
pub enum Prefix {
    /// `&`, with `mut` or without: a reference to what follows.
    Ref,
    /// `*`: what follows, dereferenced.
    Deref,
    /// `!`: what follows, negated.
    Not,
    /// `..`: a range without a start.
    Range,
    /// No prefix operator: an atom with its postfix operators.
    Atom,
}

impl Prefix {
    /// The kind of the node that a prefix operator makes; none for an
    /// atom.
    pub open spec fn spec_node_kind(self) -> Option<SyntaxKind> {
        match self {
            Prefix::Ref => Some(SyntaxKind::REF_EXPR),
            Prefix::Deref => Some(SyntaxKind::DEREF_EXPR),
            Prefix::Not => Some(SyntaxKind::NOT_EXPR),
            Prefix::Range => Some(SyntaxKind::RANGE_EXPR),
            Prefix::Atom => None,
        }
    }

    /// The kind of the node that a prefix operator makes.
    pub fn node_kind(self) -> (kind: Option<SyntaxKind>)
        ensures
            kind == self.spec_node_kind(),
    {
        match self {
            Prefix::Ref => Some(SyntaxKind::REF_EXPR),
            Prefix::Deref => Some(SyntaxKind::DEREF_EXPR),
            Prefix::Not => Some(SyntaxKind::NOT_EXPR),
            Prefix::Range => Some(SyntaxKind::RANGE_EXPR),
            Prefix::Atom => None,
        }
    }

    /// The binding power with which the operand of the prefix is parsed:
    /// the highest for `&`, `*` and `!`, so that they take the nearest
    /// operand alone; that of ranges for `..`.
    pub open spec fn spec_operand_power(self) -> Option<u8> {
        match self {
            Prefix::Ref | Prefix::Deref | Prefix::Not => Some(255u8),
            Prefix::Range => Some(2u8),
            Prefix::Atom => None,
        }
    }

    /// The binding power with which the operand of the prefix is parsed.
    pub fn operand_power(self) -> (power: Option<u8>)
        ensures
            power == self.spec_operand_power(),
    {
        match self {
            Prefix::Ref | Prefix::Deref | Prefix::Not => Some(255),
            Prefix::Range => Some(2),
            Prefix::Atom => None,
        }
    }
}

/// How the left side of an expression begins, by the token ahead.
pub open spec fn spec_prefix(current: SyntaxKind) -> Prefix {
    match current {
        SyntaxKind::AMP => Prefix::Ref,
        SyntaxKind::STAR => Prefix::Deref,
        SyntaxKind::EXCL => Prefix::Not,
        SyntaxKind::DOTDOT => Prefix::Range,
        _ => Prefix::Atom,
    }
}

/// How the left side of an expression begins, by the token ahead.
pub fn prefix(current: SyntaxKind) -> (form: Prefix)
    ensures
        form == spec_prefix(current),
{
    match current {
        SyntaxKind::AMP => Prefix::Ref,
        SyntaxKind::STAR => Prefix::Deref,
        SyntaxKind::EXCL => Prefix::Not,
        SyntaxKind::DOTDOT => Prefix::Range,
        _ => Prefix::Atom,
    }
}

/// Whether a token can begin an expression: a prefix operator that takes
/// an operand, or a token that begins an atom.
pub open spec fn spec_begins_expr(kind: SyntaxKind, begins_atom: bool) -> bool {
    kind == SyntaxKind::AMP || kind == SyntaxKind::STAR || kind == SyntaxKind::EXCL || begins_atom
}

/// Whether a token can begin an expression.
pub fn begins_expr(kind: SyntaxKind, begins_atom: bool) -> (yes: bool)
    ensures
        yes == spec_begins_expr(kind, begins_atom),
{
    kind == SyntaxKind::AMP || kind == SyntaxKind::STAR || kind == SyntaxKind::EXCL || begins_atom
}

/// How an expression goes on behind an operand.
#[derive(Clone, Copy, Debug, PartialEq, Eq, Structural)]
pub enum Postfix {
    /// `(`: a call.
    Call,
    /// `[`: an index.
    Index,
    /// `.name(` or `.name::`: a method call.
    MethodCall,
    /// `.name` or `.0`: a field.
    Field,
    /// `..` with no expression behind it: a range without an end.
    Range,
    /// `?`.
    Try,
    /// Nothing of these: the operand is complete.
    End,
}

impl Postfix {
    /// The kind of the node that the postfix operator makes; none at the
    /// end.
    pub open spec fn spec_node_kind(self) -> Option<SyntaxKind> {
        match self {
            Postfix::Call => Some(SyntaxKind::CALL_EXPR),
            Postfix::Index => Some(SyntaxKind::INDEX_EXPR),
            Postfix::MethodCall => Some(SyntaxKind::METHOD_CALL_EXPR),
            Postfix::Field => Some(SyntaxKind::FIELD_EXPR),
            Postfix::Range => Some(SyntaxKind::RANGE_EXPR),
            Postfix::Try => Some(SyntaxKind::TRY_EXPR),
            Postfix::End => None,
        }
    }

    /// The kind of the node that the postfix operator makes.
    pub fn node_kind(self) -> (kind: Option<SyntaxKind>)
        ensures
            kind == self.spec_node_kind(),
    {
        match self {
            Postfix::Call => Some(SyntaxKind::CALL_EXPR),
            Postfix::Index => Some(SyntaxKind::INDEX_EXPR),
            Postfix::MethodCall => Some(SyntaxKind::METHOD_CALL_EXPR),
            Postfix::Field => Some(SyntaxKind::FIELD_EXPR),
            Postfix::Range => Some(SyntaxKind::RANGE_EXPR),
            Postfix::Try => Some(SyntaxKind::TRY_EXPR),
            Postfix::End => None,
        }
    }
}

/// How an expression goes on behind an operand, by the tokens ahead;
/// `second_begins_atom` says whether the second of them can begin an atom.
pub open spec fn spec_postfix(p: Lookahead, second_begins_atom: bool) -> Postfix {
    if p.current == SyntaxKind::L_PAREN {
        Postfix::Call
    } else if p.current == SyntaxKind::L_BRACK {
        Postfix::Index
    } else if p.current == SyntaxKind::DOT && p.second == SyntaxKind::IDENT {
        if p.third == SyntaxKind::L_PAREN || p.third == SyntaxKind::COLONCOLON {
            Postfix::MethodCall
        } else {
            Postfix::Field
        }
    } else if p.current == SyntaxKind::DOT && p.second == SyntaxKind::INT_NUMBER {
        Postfix::Field
    } else if p.current == SyntaxKind::DOTDOT && !spec_begins_expr(p.second, second_begins_atom) {
        Postfix::Range
    } else if p.current == SyntaxKind::QUESTION {
        Postfix::Try
    } else {
        Postfix::End
    }
}

/// How an expression goes on behind an operand, by the tokens ahead.
pub fn postfix(p: &Lookahead, second_begins_atom: bool) -> (form: Postfix)
    ensures
        form == spec_postfix(*p, second_begins_atom),
{
    match p.current {
        SyntaxKind::L_PAREN => Postfix::Call,
        SyntaxKind::L_BRACK => Postfix::Index,
        SyntaxKind::DOT if p.second == SyntaxKind::IDENT => {
            if p.third == SyntaxKind::L_PAREN || p.third == SyntaxKind::COLONCOLON {
                Postfix::MethodCall
            } else {
                Postfix::Field
            }
        },
        SyntaxKind::DOT if p.second == SyntaxKind::INT_NUMBER => Postfix::Field,
        SyntaxKind::DOTDOT if !begins_expr(p.second, second_begins_atom) => Postfix::Range,
        SyntaxKind::QUESTION => Postfix::Try,
        _ => Postfix::End,
    }
}

/// What an expression that begins with a path is, by the token behind the
/// path: a struct literal before `{` where one is allowed, a macro call
/// before `!`, else the path itself.
pub open spec fn spec_path_expr_kind(current: SyntaxKind, r: Restrictions) -> SyntaxKind {
    if current == SyntaxKind::L_CURLY && !r.forbid_structs {
        SyntaxKind::STRUCT_LIT
    } else if current == SyntaxKind::EXCL {
        SyntaxKind::MACRO_CALL
    } else {
        SyntaxKind::PATH_EXPR
    }
}

/// What an expression that begins with a path is, by the token behind the
/// path.
pub fn path_expr_kind(current: SyntaxKind, r: Restrictions) -> (kind: SyntaxKind)
    ensures
        kind == spec_path_expr_kind(current, r),
{
    match current {
        SyntaxKind::L_CURLY if !r.forbid_structs => SyntaxKind::STRUCT_LIT,
        SyntaxKind::EXCL => SyntaxKind::MACRO_CALL,
        _ => SyntaxKind::PATH_EXPR,
    }
}

/// No operator binds as tightly as the operand of `&`, `*` and `!` asks:
/// such an operand is never the left side of a binary operator.
pub proof fn prefix_operand_takes_no_operator(p: Lookahead)
    ensures
        spec_current_op(p).0 < 255,
        forall|form: Prefix|
            form == Prefix::Ref || form == Prefix::Deref || form == Prefix::Not
                ==> #[trigger] form.spec_operand_power() == Some(255u8),
{
}

} // verus!
