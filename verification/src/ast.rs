//! The parsed expressions lowering reads, as plain values: each node with
//! its id, the MIR type the checker recorded for it (if any), and its form.

use vstd::prelude::*;
use crate::mir::MirType;

verus! {

/// The suffix written on an integer literal, or given it by its magnitude.
#[derive(Clone, Copy, Debug, PartialEq, Eq, Structural)]
pub enum IntSuffix {
    I8,
    I16,
    I32,
    I64,
    U8,
    U16,
    U32,
    U64,
    /// Too big for `i64`, so read as a `u64`.
    U64ByMagnitude,
    Isize,
    Usize,
    I128,
    /// Too big for `u64`, so read as an `i128`.
    I128ByMagnitude,
    U128,
    /// Too big for `i128`, so read as a `u128`.
    U128ByMagnitude,
}

/// The binary operators other than `&&` and `||`.
#[derive(Clone, Copy, Debug, PartialEq, Eq, Structural)]
pub enum BinaryOp {
    Add,
    Sub,
    Mul,
    Div,
    Mod,
    Eq,
    Ne,
    Lt,
    Le,
    Gt,
    Ge,
    Shl,
    Shr,
}

/// The prefix operators modelled here: `&` and `!`.
#[derive(Clone, Copy, Debug, PartialEq, Eq, Structural)]
pub enum PrefixOp {
    Ref,
    Not,
}

/// An expression: its node id, the MIR type the checker recorded for the
/// node, and its form.
#[derive(Debug)]
pub struct Expr {
    pub id: u32,
    pub node_ty: Option<MirType>,
    pub kind: ExprKind,
}

/// The forms of expression modelled here.
#[derive(Debug)]
pub enum ExprKind {
    /// An integer literal: its value, its suffix, and the bit pattern of the
    /// same value as an `f64`, for a literal the checker settled as a float.
    Int { value: i128, suffix: Option<IntSuffix>, float_bits: u64 },
    /// A float literal, as the bit pattern of its `f64` value.
    Float { bits: u64, is_f32: bool },
    String(String),
    Bool(bool),
    /// The null pointer.
    Null,
    /// `()`, the unit value.
    Unit,
    /// A name.
    Ident(String),
    /// `left && right` (`is_and`) or `left || right`.
    Logical { is_and: bool, left: Box<Expr>, right: Box<Expr> },
    /// `start..end` (or `start..=end` when `inclusive`), either bound
    /// optional.
    Range { start: Option<Box<Expr>>, end: Option<Box<Expr>>, inclusive: bool },
    /// `if cond { then_branch } else { else_branch }`.
    If { cond: Box<Expr>, then_branch: Box<Expr>, else_branch: Option<Box<Expr>> },
    /// `op operand`.
    Unary { op: PrefixOp, operand: Box<Expr> },
    /// `left op right`.
    Binary { op: BinaryOp, left: Box<Expr>, right: Box<Expr> },
    /// `object[start..end]` (`object[start..=end]` when `inclusive`): an
    /// index by a range, either bound optional.
    Slice { object: Box<Expr>, start: Option<Box<Expr>>, end: Option<Box<Expr>>, inclusive: bool },
    /// `todo(message)`, or `unreachable(message)` when `unreachable`, the
    /// message optional.
    Panic { unreachable: bool, message: Option<Box<Expr>> },
}

} // verus!
