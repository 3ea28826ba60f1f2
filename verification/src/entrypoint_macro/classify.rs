//! Classification of Rust expressions, as needed to parse match-arm-like instruction cases.

use vstd::prelude::*;

verus! {

/// The kind of a Rust expression.
#[derive(Debug, Clone, Copy, PartialEq, Eq, Structural)]
pub enum ExprKind {
    Array,
    Assign,
    Async,
    Await,
    Binary,
    Block,
    Break,
    Call,
    Cast,
    Closure,
    Const,
    Continue,
    Field,
    ForLoop,
    Group,
    If,
    Index,
    Infer,
    Let,
    Lit,
    Loop,
    Macro,
    Match,
    MethodCall,
    Paren,
    Path,
    Range,
    RawAddr,
    Reference,
    Repeat,
    Return,
    Struct,
    Try,
    TryBlock,
    Tuple,
    Unary,
    Unsafe,
    Verbatim,
    While,
    Yield,
    /// A kind of expression this classification does not know about.
    Other,
}

/// Expressions that end with a block, and so can end a match arm without a comma.
pub open spec fn is_block_like(kind: ExprKind) -> bool {
    ||| kind == ExprKind::If
    ||| kind == ExprKind::Match
    ||| kind == ExprKind::Block
    ||| kind == ExprKind::Unsafe
    ||| kind == ExprKind::While
    ||| kind == ExprKind::Loop
    ||| kind == ExprKind::ForLoop
    ||| kind == ExprKind::TryBlock
    ||| kind == ExprKind::Const
}

/// Decides if an expression used as an instruction case body needs a comma after it, the way a
/// match arm body does: every expression needs one, except those that end with a block.
/// Expressions of kinds not known here need one too.
pub fn requires_comma_to_be_match_arm(kind: ExprKind) -> (r: bool)
    ensures
        r == !is_block_like(kind),
{
    match kind {
        ExprKind::If
        | ExprKind::Match
        | ExprKind::Block
        | ExprKind::Unsafe
        | ExprKind::While
        | ExprKind::Loop
        | ExprKind::ForLoop
        | ExprKind::TryBlock
        | ExprKind::Const => false,
        ExprKind::Array
        | ExprKind::Assign
        | ExprKind::Async
        | ExprKind::Await
        | ExprKind::Binary
        | ExprKind::Break
        | ExprKind::Call
        | ExprKind::Cast
        | ExprKind::Closure
        | ExprKind::Continue
        | ExprKind::Field
        | ExprKind::Group
        | ExprKind::Index
        | ExprKind::Infer
        | ExprKind::Let
        | ExprKind::Lit
        | ExprKind::Macro
        | ExprKind::MethodCall
        | ExprKind::Paren
        | ExprKind::Path
        | ExprKind::Range
        | ExprKind::RawAddr
        | ExprKind::Reference
        | ExprKind::Repeat
        | ExprKind::Return
        | ExprKind::Struct
        | ExprKind::Try
        | ExprKind::Tuple
        | ExprKind::Unary
        | ExprKind::Yield
        | ExprKind::Verbatim => true,
        ExprKind::Other => true,
    }
}

} // verus!
