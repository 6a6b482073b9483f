//! Methods on integers and other scalars that lower to a few operators:
//! the fallible arithmetic (`checked_*`, `overflowing_*`), the bit and
//! wrapping methods, and `compare`. Each takes its arguments already
//! lowered, as operands.

use vstd::prelude::*;
use crate::builder::{recorded, lemma_recorded_start, MirBuilder, StmtForm};
use crate::iterators::{assign_op, assign_use, int_op, local_op};
use crate::lowerer::MirLowerer;
use crate::mir::{
    size_fits, size_of, BinOp, BlockId, LocalId, MirConst, MirOperand, MirRValue, MirStmt, MirTerminator, MirType,
    TypeList, UnaryOp,
};
use crate::ordering::{ordering_wrapped, ORDERING_EQUAL, ORDERING_GREATER, ORDERING_LESS};
use crate::sorting::call_form;
use crate::text::str_eq;

verus! {

/// The operators of a fallible arithmetic method: the one that tells
/// whether the operation fails, the one that computes its value, and
/// whether the method reports the failure beside a wrapped value
/// (`overflowing_*`) rather than answering nothing (`checked_*`).
pub open spec fn fallible_ops(method: Seq<char>) -> Option<(BinOp, BinOp, bool)> {
    if method == "checked_add"@ {
        Some((BinOp::OverflowAdd, BinOp::WrappingAdd, false))
    } else if method == "checked_sub"@ {
        Some((BinOp::OverflowSub, BinOp::WrappingSub, false))
    } else if method == "checked_mul"@ {
        Some((BinOp::OverflowMul, BinOp::WrappingMul, false))
    } else if method == "checked_div"@ {
        Some((BinOp::OverflowDiv, BinOp::Div, false))
    } else if method == "overflowing_add"@ {
        Some((BinOp::OverflowAdd, BinOp::WrappingAdd, true))
    } else if method == "overflowing_sub"@ {
        Some((BinOp::OverflowSub, BinOp::WrappingSub, true))
    } else if method == "overflowing_mul"@ {
        Some((BinOp::OverflowMul, BinOp::WrappingMul, true))
    } else {
        None
    }
}

/// The operator of an integer method that combines the receiver with one
/// operand: rotations, and the wrapping, unchecked and saturating forms of
/// the arithmetic (an unchecked operation lowers as the wrapping one).
pub open spec fn int_binary_op(method: Seq<char>) -> Option<BinOp> {
    if method == "rotate_left"@ {
        Some(BinOp::RotateLeft)
    } else if method == "rotate_right"@ {
        Some(BinOp::RotateRight)
    } else if method == "wrapping_add"@ || method == "unchecked_add"@ {
        Some(BinOp::WrappingAdd)
    } else if method == "wrapping_sub"@ || method == "unchecked_sub"@ {
        Some(BinOp::WrappingSub)
    } else if method == "wrapping_mul"@ || method == "unchecked_mul"@ {
        Some(BinOp::WrappingMul)
    } else if method == "wrapping_shl"@ {
        Some(BinOp::WrappingShl)
    } else if method == "wrapping_shr"@ {
        Some(BinOp::WrappingShr)
    } else if method == "saturating_add"@ {
        Some(BinOp::SaturatingAdd)
    } else if method == "saturating_sub"@ {
        Some(BinOp::SaturatingSub)
    } else if method == "saturating_mul"@ {
        Some(BinOp::SaturatingMul)
    } else {
        None
    }
}

/// The operator of a bit-counting or byte-order method, and whether it runs
/// on the complement of the receiver (the `*_ones` and `count_zeros`
/// forms). `to_be` swaps the bytes, on a little-endian host.
pub open spec fn int_unary_op(method: Seq<char>) -> Option<(UnaryOp, bool)> {
    if method == "count_ones"@ {
        Some((UnaryOp::CountOnes, false))
    } else if method == "count_zeros"@ {
        Some((UnaryOp::CountOnes, true))
    } else if method == "leading_zeros"@ {
        Some((UnaryOp::LeadingZeros, false))
    } else if method == "leading_ones"@ {
        Some((UnaryOp::LeadingZeros, true))
    } else if method == "trailing_zeros"@ {
        Some((UnaryOp::TrailingZeros, false))
    } else if method == "trailing_ones"@ {
        Some((UnaryOp::TrailingZeros, true))
    } else if method == "reverse_bits"@ {
        Some((UnaryOp::ReverseBits, false))
    } else if method == "swap_bytes"@ || method == "to_be"@ {
        Some((UnaryOp::SwapBytes, false))
    } else {
        None
    }
}

/// A pair of a value of `ty` and a `bool`.
pub open spec fn with_flag_ty(ty: MirType) -> MirType {
    MirType::Tuple(TypeList::Cons(Box::new(ty), Box::new(TypeList::Cons(Box::new(MirType::Bool), Box::new(TypeList::Nil)))))
}

/// `new` is `old` with the fallible operation `obj (flag_op/value_op) rhs`
/// on values of `ty` emitted, answering `r`. The failure flag goes into a
/// new `bool` temp first. Reporting (`wraps`): the wrapped value into a new
/// temp, and a new (value, flag) pair holding both, at offsets 0 and the
/// value's width. Refusing: a new optional of `ty`, and a branch on the
/// flag to a block storing tag 1, or else to one computing the value into a
/// new temp and storing tag 0 and the value at offset 8; both jump to a
/// third block, where the builder is left.
pub open spec fn fallible_emitted(
    old: MirBuilder,
    new: MirBuilder,
    flag_op: BinOp,
    value_op: BinOp,
    wraps: bool,
    obj: MirOperand,
    rhs: MirOperand,
    ty: MirType,
    r: (MirOperand, MirType),
) -> bool {
    let n = old.locals@.len();
    let c = old.current;
    let flag = LocalId(n as usize);
    let second = LocalId((n + 1) as usize);
    let third = LocalId((n + 2) as usize);
    let w = size_of(ty) as u32;
    let flag_stmt = (c, StmtForm::Exact(assign_op(flag, flag_op, obj, rhs)));
    if wraps {
        &&& recorded(
            old,
            new,
            seq![MirType::Bool, ty, with_flag_ty(ty)],
            seq![
                flag_stmt,
                (c, StmtForm::Exact(assign_op(second, value_op, obj, rhs))),
                (c, StmtForm::Exact(MirStmt::Store { addr: third, offset: 0, value: local_op(second), store_size: Some(w) })),
                (c, StmtForm::Exact(MirStmt::Store { addr: third, offset: w, value: local_op(flag), store_size: Some(1u32) })),
            ],
        )
        &&& new.terms@ == old.terms@
        &&& new.current == c
        &&& r == (local_op(third), with_flag_ty(ty))
    } else {
        let b = old.terms@.len();
        let none = BlockId(b as usize);
        let some = BlockId((b + 1) as usize);
        let merge = BlockId((b + 2) as usize);
        &&& recorded(
            old,
            new,
            seq![MirType::Bool, MirType::Option(Box::new(ty)), ty],
            seq![
                flag_stmt,
                (some, StmtForm::Exact(assign_op(third, value_op, obj, rhs))),
                (some, StmtForm::Exact(MirStmt::Store { addr: second, offset: 0, value: int_op(0), store_size: None })),
                (some, StmtForm::Exact(MirStmt::Store { addr: second, offset: 8, value: local_op(third), store_size: Some(w) })),
                (none, StmtForm::Exact(MirStmt::Store { addr: second, offset: 0, value: int_op(1), store_size: None })),
            ],
        )
        &&& new.terms@ == old.terms@.update(
            c.0 as int,
            Some(MirTerminator::Branch { cond: local_op(flag), then_block: none, else_block: some }),
        ) + seq![Some(MirTerminator::Goto { target: merge }), Some(MirTerminator::Goto { target: merge }), None]
        &&& new.current == merge
        &&& r == (local_op(second), MirType::Option(Box::new(ty)))
    }
}

/// `new` is `old` with a bit-counting or byte-order operator `op` applied
/// to `obj` of type `ty` into a new temp, answering `r`; with `complement`,
/// `obj` is complemented into a temp of its own first.
pub open spec fn unary_emitted(
    old: MirBuilder,
    new: MirBuilder,
    op: UnaryOp,
    complement: bool,
    obj: MirOperand,
    ty: MirType,
    r: Option<(MirOperand, MirType)>,
) -> bool {
    let n = old.locals@.len();
    let c = old.current;
    let first = LocalId(n as usize);
    let second = LocalId((n + 1) as usize);
    &&& new.terms@ == old.terms@
    &&& new.current == c
    &&& if complement {
        &&& new.locals@ == old.locals@ + seq![crate::builder::temp_decl(ty), crate::builder::temp_decl(ty)]
        &&& new.stmts@ == old.stmts@ + seq![
            crate::builder::placed(c, MirStmt::Assign { dst: first, rvalue: MirRValue::UnaryOp { op: UnaryOp::BitNot, operand: obj } }),
            crate::builder::placed(c, MirStmt::Assign { dst: second, rvalue: MirRValue::UnaryOp { op, operand: local_op(first) } }),
        ]
        &&& r == Some((local_op(second), ty))
    } else {
        &&& new.locals@ == old.locals@.push(crate::builder::temp_decl(ty))
        &&& new.stmts@ == old.stmts@.push(
            crate::builder::placed(c, MirStmt::Assign { dst: first, rvalue: MirRValue::UnaryOp { op, operand: obj } }),
        )
        &&& r == Some((local_op(first), ty))
    }
}

/// What an integer method `method` with the lowered arguments `args` on the
/// receiver `obj` of type `ty` emits and answers, from `old` to `new`: the
/// fallible arithmetic first; then a one-operand method into a new temp;
/// then, with no arguments, `to_le` as the receiver itself, or a
/// bit-counting or byte-order operator. Nothing, and nothing emitted, for
/// any other method or number of arguments.
pub open spec fn int_method_lowered(
    old: MirBuilder,
    new: MirBuilder,
    method: Seq<char>,
    args: Seq<MirOperand>,
    obj: MirOperand,
    ty: MirType,
    r: Option<(MirOperand, MirType)>,
) -> bool {
    let unchanged = r is None && new == old;
    match fallible_ops(method) {
        Some((flag_op, value_op, wraps)) if args.len() == 1 => {
            &&& r is Some
            &&& fallible_emitted(old, new, flag_op, value_op, wraps, obj, args[0], ty, r->0)
        },
        _ => match int_binary_op(method) {
            Some(op) => if args.len() == 1 {
                let out = LocalId(old.locals@.len() as usize);
                &&& crate::iterators::temp_then(old, new, ty, assign_op(out, op, obj, args[0]))
                &&& r == Some((local_op(out), ty))
            } else {
                unchanged
            },
            None => if args.len() != 0 {
                unchanged
            } else if method == "to_le"@ {
                r == Some((obj, ty)) && new == old
            } else {
                match int_unary_op(method) {
                    Some((op, complement)) => unary_emitted(old, new, op, complement, obj, ty, r),
                    None => unchanged,
                }
            },
        },
    }
}

/// How `compare` lowers on a receiver of type `ty`: through the runtime's
/// total order for floats, by `<` and `>` for the other scalars, and by
/// the tags for an enum whose variants carry no fields. Nothing for any
/// other type.
pub enum CompareWay {
    Total,
    Plain,
    Tags,
}

/// The way `compare` lowers on a receiver of type `ty`.
pub open spec fn compare_way(ctx: crate::lowerer::LowerCtx, ty: MirType) -> Option<CompareWay> {
    match ty {
        MirType::F32 | MirType::F64 => Some(CompareWay::Total),
        MirType::I8 | MirType::I16 | MirType::I32 | MirType::I64 | MirType::U8 | MirType::U16 | MirType::U32
        | MirType::U64 | MirType::Char | MirType::Bool => Some(CompareWay::Plain),
        MirType::Enum(id) => if id.id < ctx.enum_layouts@.len() && forall|v: int|
            0 <= v < ctx.enum_layouts@[id.id as int].variants@.len()
                ==> (#[trigger] ctx.enum_layouts@[id.id as int].variants@[v]).fields@.len() == 0 {
            Some(CompareWay::Tags)
        } else {
            None
        },
        _ => None,
    }
}

/// `new` is `old` with the three-way comparison of `a` and `b` computed
/// into a new `i64` temp `result`: `lt = a < b` into a new temp and a
/// branch on it to a block setting `Less`, or else to one computing
/// `gt = a > b` into a new temp and branching to a block setting
/// `Greater`, or else to one setting `Equal`; the three jump to a fifth new
/// block, where the builder is left.
pub open spec fn three_way(old: MirBuilder, new: MirBuilder, a: MirOperand, b: MirOperand) -> bool {
    let n = old.locals@.len();
    let c = old.current;
    let result = LocalId(n as usize);
    let lt = LocalId((n + 1) as usize);
    let gt = LocalId((n + 2) as usize);
    let k = old.terms@.len();
    let blk = |i: nat| BlockId((k + i) as usize);
    &&& recorded(
        old,
        new,
        seq![MirType::I64, MirType::Bool, MirType::Bool],
        seq![
            (c, StmtForm::Exact(assign_op(lt, BinOp::Lt, a, b))),
            (blk(0), StmtForm::Exact(assign_use(result, int_op(ORDERING_LESS)))),
            (blk(1), StmtForm::Exact(assign_op(gt, BinOp::Gt, a, b))),
            (blk(2), StmtForm::Exact(assign_use(result, int_op(ORDERING_GREATER)))),
            (blk(3), StmtForm::Exact(assign_use(result, int_op(ORDERING_EQUAL)))),
        ],
    )
    &&& new.terms@ == old.terms@.update(
        c.0 as int,
        Some(MirTerminator::Branch { cond: local_op(lt), then_block: blk(0), else_block: blk(1) }),
    ) + seq![
        Some(MirTerminator::Goto { target: blk(4) }),
        Some(MirTerminator::Branch { cond: local_op(gt), then_block: blk(2), else_block: blk(3) }),
        Some(MirTerminator::Goto { target: blk(4) }),
        Some(MirTerminator::Goto { target: blk(4) }),
        None,
    ]
    &&& new.current == blk(4)
}

/// What `obj.compare(rhs)` on a receiver of type `ty` emits, from `old` to
/// `new`, and answers, `r`, for a way of comparing: the runtime's
/// `f64_compare` into a new `i64` temp, whose tag is wrapped; or the
/// three-way comparison (of the two values, or of their tags read into two
/// new temps first), whose result is wrapped. `mid` is the builder before
/// the wrapping.
pub open spec fn compared(
    ctx: crate::lowerer::LowerCtx,
    old: MirBuilder,
    mid: MirBuilder,
    new: MirBuilder,
    way: CompareWay,
    obj: MirOperand,
    rhs: MirOperand,
    r: (MirOperand, MirType),
) -> bool {
    let n = old.locals@.len();
    let c = old.current;
    &&& match way {
        CompareWay::Total => {
            &&& recorded(old, mid, seq![MirType::I64], seq![(c, call_form(Some(LocalId(n as usize)), "f64_compare"@, seq![obj, rhs]))])
            &&& mid.terms@ == old.terms@
            &&& mid.current == c
            &&& ordering_wrapped(ctx, mid, new, local_op(LocalId(n as usize)), r)
        },
        CompareWay::Plain => {
            &&& three_way(old, mid, obj, rhs)
            &&& ordering_wrapped(ctx, mid, new, local_op(LocalId(n as usize)), r)
        },
        CompareWay::Tags => {
            let ta = LocalId(n as usize);
            let tb = LocalId((n + 1) as usize);
            &&& exists|t: MirBuilder|
                #![trigger three_way(t, mid, local_op(ta), local_op(tb))]
                t.locals@ == old.locals@ + seq![crate::builder::temp_decl(MirType::U16), crate::builder::temp_decl(MirType::U16)]
                    && t.stmts@ == old.stmts@ + seq![
                    crate::builder::placed(c, MirStmt::Assign { dst: ta, rvalue: MirRValue::EnumTag { value: obj } }),
                    crate::builder::placed(c, MirStmt::Assign { dst: tb, rvalue: MirRValue::EnumTag { value: rhs } }),
                ] && t.terms@ == old.terms@ && t.current == c && three_way(t, mid, local_op(ta), local_op(tb))
            &&& ordering_wrapped(ctx, mid, new, local_op(LocalId((n + 2) as usize)), r)
        },
    }
}

/// What `obj.compare(rhs)` emits, from `old` to `new`, and answers, for a
/// way of comparing: `compared` for some builder between the comparison
/// and its wrapping.
pub open spec fn compare_lowered(
    ctx: crate::lowerer::LowerCtx,
    old: MirBuilder,
    new: MirBuilder,
    way: CompareWay,
    obj: MirOperand,
    rhs: MirOperand,
    r: (MirOperand, MirType),
) -> bool {
    exists|mid: MirBuilder| #[trigger] compared(ctx, old, mid, new, way, obj, rhs, r)
}


/// The type `to_int` and `to_float` convert a receiver of type `ty` to:
/// `i64` from a float, `f64` from an integer of at most 64 bits; nothing
/// for any other method or receiver.
pub open spec fn conversion_target(method: Seq<char>, ty: MirType) -> Option<MirType> {
    if method == "to_int"@ && (ty is F32 || ty is F64) {
        Some(MirType::I64)
    } else if method == "to_float"@ && (ty is I8 || ty is I16 || ty is I32 || ty is I64 || ty is U8 || ty is U16
        || ty is U32 || ty is U64) {
        Some(MirType::F64)
    } else {
        None
    }
}

/// The fallible arithmetic methods, from the method's name.
pub fn fallible_arith_ops(method: &str) -> (r: Option<(BinOp, BinOp, bool)>)
    ensures
        r == fallible_ops(method@),
{
    if str_eq(method, "checked_add") {
        Some((BinOp::OverflowAdd, BinOp::WrappingAdd, false))
    } else if str_eq(method, "checked_sub") {
        Some((BinOp::OverflowSub, BinOp::WrappingSub, false))
    } else if str_eq(method, "checked_mul") {
        Some((BinOp::OverflowMul, BinOp::WrappingMul, false))
    } else if str_eq(method, "checked_div") {
        Some((BinOp::OverflowDiv, BinOp::Div, false))
    } else if str_eq(method, "overflowing_add") {
        Some((BinOp::OverflowAdd, BinOp::WrappingAdd, true))
    } else if str_eq(method, "overflowing_sub") {
        Some((BinOp::OverflowSub, BinOp::WrappingSub, true))
    } else if str_eq(method, "overflowing_mul") {
        Some((BinOp::OverflowMul, BinOp::WrappingMul, true))
    } else {
        None
    }
}

/// The one-operand integer methods, from the method's name.
pub fn int_binary_method(method: &str) -> (r: Option<BinOp>)
    ensures
        r == int_binary_op(method@),
{
    if str_eq(method, "rotate_left") {
        Some(BinOp::RotateLeft)
    } else if str_eq(method, "rotate_right") {
        Some(BinOp::RotateRight)
    } else if str_eq(method, "wrapping_add") || str_eq(method, "unchecked_add") {
        Some(BinOp::WrappingAdd)
    } else if str_eq(method, "wrapping_sub") || str_eq(method, "unchecked_sub") {
        Some(BinOp::WrappingSub)
    } else if str_eq(method, "wrapping_mul") || str_eq(method, "unchecked_mul") {
        Some(BinOp::WrappingMul)
    } else if str_eq(method, "wrapping_shl") {
        Some(BinOp::WrappingShl)
    } else if str_eq(method, "wrapping_shr") {
        Some(BinOp::WrappingShr)
    } else if str_eq(method, "saturating_add") {
        Some(BinOp::SaturatingAdd)
    } else if str_eq(method, "saturating_sub") {
        Some(BinOp::SaturatingSub)
    } else if str_eq(method, "saturating_mul") {
        Some(BinOp::SaturatingMul)
    } else {
        None
    }
}

/// The bit-counting and byte-order methods, from the method's name.
pub fn int_unary_method(method: &str) -> (r: Option<(UnaryOp, bool)>)
    ensures
        r == int_unary_op(method@),
{
    if str_eq(method, "count_ones") {
        Some((UnaryOp::CountOnes, false))
    } else if str_eq(method, "count_zeros") {
        Some((UnaryOp::CountOnes, true))
    } else if str_eq(method, "leading_zeros") {
        Some((UnaryOp::LeadingZeros, false))
    } else if str_eq(method, "leading_ones") {
        Some((UnaryOp::LeadingZeros, true))
    } else if str_eq(method, "trailing_zeros") {
        Some((UnaryOp::TrailingZeros, false))
    } else if str_eq(method, "trailing_ones") {
        Some((UnaryOp::TrailingZeros, true))
    } else if str_eq(method, "reverse_bits") {
        Some((UnaryOp::ReverseBits, false))
    } else if str_eq(method, "swap_bytes") || str_eq(method, "to_be") {
        Some((UnaryOp::SwapBytes, false))
    } else {
        None
    }
}

impl MirLowerer {
    /// `x.checked_op(y)` and `x.overflowing_op(y)` for the receiver `obj_op`
    /// of type `obj_ty` and the lowered arguments `args`: `T?`, empty on
    /// overflow, or a `(T, bool)` pair of the wrapped value and the overflow
    /// flag; see `fallible_emitted`. Nothing, and nothing emitted, for
    /// another method or another number of arguments.
    pub fn lower_fallible_arith(&mut self, method: &str, args: &Vec<MirOperand>, obj_op: &MirOperand, obj_ty: &MirType) -> (r:
        Option<(MirOperand, MirType)>)
        requires
            old(self).builder.wf(),
            size_fits(*obj_ty),
        ensures
            match fallible_ops(method@) {
                Some((flag_op, value_op, wraps)) if args@.len() == 1 => {
                    &&& r is Some
                    &&& fallible_emitted(
                        old(self).builder,
                        final(self).builder,
                        flag_op,
                        value_op,
                        wraps,
                        *obj_op,
                        args@[0],
                        *obj_ty,
                        r->0,
                    )
                },
                _ => r is None && final(self).builder == old(self).builder,
            },
            final(self).builder.wf(),
            final(self).ctx == old(self).ctx,
    {
        let (flag_op, value_op, wraps) = match fallible_arith_ops(method) {
            Some(t) => t,
            None => {
                return None;
            },
        };
        if args.len() != 1 {
            return None;
        }
        let ghost base = self.builder;
        let ghost c = base.current;
        proof {
            lemma_recorded_start(base);
        }
        let ghost mut temps: Seq<MirType> = Seq::empty();
        let ghost mut forms: Seq<(BlockId, StmtForm)> = Seq::empty();
        let rhs = args[0].duplicate();
        let flag = self.builder.temp_rec(Ghost(base), Ghost(temps), Ghost(forms), MirType::Bool);
        proof { temps = temps.push(MirType::Bool); }
        let st = MirStmt::Assign {
            dst: flag,
            rvalue: MirRValue::BinaryOp { op: flag_op, left: obj_op.duplicate(), right: rhs.duplicate() },
        };
        self.builder.stmt_rec(Ghost(base), Ghost(temps), Ghost(forms), st);
        proof { forms = forms.push((c, StmtForm::Exact(assign_op(flag, flag_op, *obj_op, rhs)))); }
        let w = obj_ty.size();
        if wraps {
            let wrapped = self.builder.temp_rec(Ghost(base), Ghost(temps), Ghost(forms), obj_ty.duplicate());
            proof { temps = temps.push(*obj_ty); }
            let st = MirStmt::Assign {
                dst: wrapped,
                rvalue: MirRValue::BinaryOp { op: value_op, left: obj_op.duplicate(), right: rhs.duplicate() },
            };
            self.builder.stmt_rec(Ghost(base), Ghost(temps), Ghost(forms), st);
            proof { forms = forms.push((c, StmtForm::Exact(assign_op(wrapped, value_op, *obj_op, rhs)))); }
            let pair_ty = MirType::Tuple(
                TypeList::Cons(
                    Box::new(obj_ty.duplicate()),
                    Box::new(TypeList::Cons(Box::new(MirType::Bool), Box::new(TypeList::Nil))),
                ),
            );
            let pair = self.builder.temp_rec(Ghost(base), Ghost(temps), Ghost(forms), pair_ty.duplicate());
            proof { temps = temps.push(with_flag_ty(*obj_ty)); }
            let st = MirStmt::Store { addr: pair, offset: 0, value: MirOperand::Local(wrapped), store_size: Some(w) };
            self.builder.stmt_rec(Ghost(base), Ghost(temps), Ghost(forms), st);
            proof { forms = forms.push((c, StmtForm::Exact(MirStmt::Store { addr: pair, offset: 0, value: local_op(wrapped), store_size: Some(w) }))); }
            let st = MirStmt::Store { addr: pair, offset: w, value: MirOperand::Local(flag), store_size: Some(1) };
            self.builder.stmt_rec(Ghost(base), Ghost(temps), Ghost(forms), st);
            proof {
                forms = forms.push((c, StmtForm::Exact(MirStmt::Store { addr: pair, offset: w, value: local_op(flag), store_size: Some(1u32) })));
                assert(temps =~= seq![MirType::Bool, *obj_ty, with_flag_ty(*obj_ty)]);
            }
            return Some((MirOperand::Local(pair), pair_ty));
        }
        let opt_ty = MirType::Option(Box::new(obj_ty.duplicate()));
        let result = self.builder.temp_rec(Ghost(base), Ghost(temps), Ghost(forms), opt_ty.duplicate());
        proof { temps = temps.push(MirType::Option(Box::new(*obj_ty))); }
        let none_block = self.builder.create_block();
        let some_block = self.builder.create_block();
        let merge_block = self.builder.create_block();
        self.builder.terminate(MirTerminator::Branch { cond: MirOperand::Local(flag), then_block: none_block, else_block: some_block });
        self.builder.switch_to_block(some_block);
        let value = self.builder.temp_rec(Ghost(base), Ghost(temps), Ghost(forms), obj_ty.duplicate());
        proof { temps = temps.push(*obj_ty); }
        let st = MirStmt::Assign {
            dst: value,
            rvalue: MirRValue::BinaryOp { op: value_op, left: obj_op.duplicate(), right: rhs.duplicate() },
        };
        self.builder.stmt_rec(Ghost(base), Ghost(temps), Ghost(forms), st);
        proof { forms = forms.push((some_block, StmtForm::Exact(assign_op(value, value_op, *obj_op, rhs)))); }
        let st = MirStmt::Store { addr: result, offset: 0, value: MirOperand::Constant(MirConst::Int(0)), store_size: None };
        self.builder.stmt_rec(Ghost(base), Ghost(temps), Ghost(forms), st);
        proof { forms = forms.push((some_block, StmtForm::Exact(MirStmt::Store { addr: result, offset: 0, value: int_op(0), store_size: None }))); }
        let st = MirStmt::Store { addr: result, offset: 8, value: MirOperand::Local(value), store_size: Some(w) };
        self.builder.stmt_rec(Ghost(base), Ghost(temps), Ghost(forms), st);
        proof { forms = forms.push((some_block, StmtForm::Exact(MirStmt::Store { addr: result, offset: 8, value: local_op(value), store_size: Some(w) }))); }
        self.builder.terminate(MirTerminator::Goto { target: merge_block });
        self.builder.switch_to_block(none_block);
        let st = MirStmt::Store { addr: result, offset: 0, value: MirOperand::Constant(MirConst::Int(1)), store_size: None };
        self.builder.stmt_rec(Ghost(base), Ghost(temps), Ghost(forms), st);
        proof { forms = forms.push((none_block, StmtForm::Exact(MirStmt::Store { addr: result, offset: 0, value: int_op(1), store_size: None }))); }
        self.builder.terminate(MirTerminator::Goto { target: merge_block });
        self.builder.switch_to_block(merge_block);
        proof {
            assert(temps =~= seq![MirType::Bool, MirType::Option(Box::new(*obj_ty)), *obj_ty]);
            assert(self.builder.terms@ =~= base.terms@.update(
                c.0 as int,
                Some(MirTerminator::Branch { cond: local_op(flag), then_block: none_block, else_block: some_block }),
            ) + seq![Some(MirTerminator::Goto { target: merge_block }), Some(MirTerminator::Goto { target: merge_block }), None]);
        }
        Some((MirOperand::Local(result), opt_ty))
    }

    /// The integer methods that lower to operators, for the receiver
    /// `obj_op` of type `obj_ty` and the lowered arguments `args`; see
    /// `int_method_lowered`.
    pub fn lower_int_bit_method(&mut self, method: &str, args: &Vec<MirOperand>, obj_op: &MirOperand, obj_ty: &MirType) -> (r:
        Option<(MirOperand, MirType)>)
        requires
            old(self).builder.wf(),
            size_fits(*obj_ty),
        ensures
            int_method_lowered(old(self).builder, final(self).builder, method@, args@, *obj_op, *obj_ty, r),
            final(self).builder.wf(),
            final(self).ctx == old(self).ctx,
    {
        if let Some(result) = self.lower_fallible_arith(method, args, obj_op, obj_ty) {
            return Some(result);
        }
        if let Some(op) = int_binary_method(method) {
            if args.len() != 1 {
                return None;
            }
            let out = self.builder.alloc_temp(obj_ty.duplicate());
            self.builder.push_stmt(
                MirStmt::Assign {
                    dst: out,
                    rvalue: MirRValue::BinaryOp { op, left: obj_op.duplicate(), right: args[0].duplicate() },
                },
            );
            return Some((MirOperand::Local(out), obj_ty.duplicate()));
        }
        if args.len() != 0 {
            return None;
        }
        if str_eq(method, "to_le") {
            return Some((obj_op.duplicate(), obj_ty.duplicate()));
        }
        let (op, complement) = match int_unary_method(method) {
            Some(t) => t,
            None => {
                return None;
            },
        };
        let ghost b0 = self.builder;
        let input = if complement {
            let flipped = self.builder.alloc_temp(obj_ty.duplicate());
            self.builder.push_stmt(
                MirStmt::Assign { dst: flipped, rvalue: MirRValue::UnaryOp { op: UnaryOp::BitNot, operand: obj_op.duplicate() } },
            );
            MirOperand::Local(flipped)
        } else {
            obj_op.duplicate()
        };
        let out = self.builder.alloc_temp(obj_ty.duplicate());
        self.builder.push_stmt(MirStmt::Assign { dst: out, rvalue: MirRValue::UnaryOp { op, operand: input } });
        let r = Some((MirOperand::Local(out), obj_ty.duplicate()));
        proof {
            if complement {
                assert(self.builder.locals@ =~= b0.locals@ + seq![crate::builder::temp_decl(*obj_ty), crate::builder::temp_decl(*obj_ty)]);
                assert(self.builder.stmts@ =~= b0.stmts@ + seq![
                    crate::builder::placed(b0.current, MirStmt::Assign { dst: LocalId(b0.locals@.len() as usize), rvalue: MirRValue::UnaryOp { op: UnaryOp::BitNot, operand: *obj_op } }),
                    crate::builder::placed(b0.current, MirStmt::Assign { dst: out, rvalue: MirRValue::UnaryOp { op, operand: input } }),
                ]);
            }
        }
        r
    }

    /// The three-way comparison of `a` and `b` into a new `i64` temp; see
    /// `three_way`. Leaves the builder in the block after it.
    fn emit_three_way(&mut self, a: &MirOperand, b: &MirOperand) -> (r: LocalId)
        requires
            old(self).builder.wf(),
        ensures
            r == LocalId(old(self).builder.locals@.len() as usize),
            three_way(old(self).builder, final(self).builder, *a, *b),
            final(self).builder.wf(),
            final(self).ctx == old(self).ctx,
    {
        let ghost base = self.builder;
        let ghost c = base.current;
        proof {
            lemma_recorded_start(base);
        }
        let ghost mut temps: Seq<MirType> = Seq::empty();
        let ghost mut forms: Seq<(BlockId, StmtForm)> = Seq::empty();
        let result = self.builder.temp_rec(Ghost(base), Ghost(temps), Ghost(forms), MirType::I64);
        proof { temps = temps.push(MirType::I64); }
        let lt = self.builder.temp_rec(Ghost(base), Ghost(temps), Ghost(forms), MirType::Bool);
        proof { temps = temps.push(MirType::Bool); }
        let st = MirStmt::Assign { dst: lt, rvalue: MirRValue::BinaryOp { op: BinOp::Lt, left: a.duplicate(), right: b.duplicate() } };
        self.builder.stmt_rec(Ghost(base), Ghost(temps), Ghost(forms), st);
        proof { forms = forms.push((c, StmtForm::Exact(assign_op(lt, BinOp::Lt, *a, *b)))); }
        let less_block = self.builder.create_block();
        let not_less_block = self.builder.create_block();
        let greater_block = self.builder.create_block();
        let equal_block = self.builder.create_block();
        let done_block = self.builder.create_block();
        self.builder.terminate(MirTerminator::Branch { cond: MirOperand::Local(lt), then_block: less_block, else_block: not_less_block });
        self.builder.switch_to_block(less_block);
        let st = MirStmt::Assign { dst: result, rvalue: MirRValue::Use(MirOperand::Constant(MirConst::Int(ORDERING_LESS))) };
        self.builder.stmt_rec(Ghost(base), Ghost(temps), Ghost(forms), st);
        proof { forms = forms.push((less_block, StmtForm::Exact(assign_use(result, int_op(ORDERING_LESS))))); }
        self.builder.terminate(MirTerminator::Goto { target: done_block });
        self.builder.switch_to_block(not_less_block);
        let gt = self.builder.temp_rec(Ghost(base), Ghost(temps), Ghost(forms), MirType::Bool);
        proof { temps = temps.push(MirType::Bool); }
        let st = MirStmt::Assign { dst: gt, rvalue: MirRValue::BinaryOp { op: BinOp::Gt, left: a.duplicate(), right: b.duplicate() } };
        self.builder.stmt_rec(Ghost(base), Ghost(temps), Ghost(forms), st);
        proof { forms = forms.push((not_less_block, StmtForm::Exact(assign_op(gt, BinOp::Gt, *a, *b)))); }
        self.builder.terminate(MirTerminator::Branch { cond: MirOperand::Local(gt), then_block: greater_block, else_block: equal_block });
        self.builder.switch_to_block(greater_block);
        let st = MirStmt::Assign { dst: result, rvalue: MirRValue::Use(MirOperand::Constant(MirConst::Int(ORDERING_GREATER))) };
        self.builder.stmt_rec(Ghost(base), Ghost(temps), Ghost(forms), st);
        proof { forms = forms.push((greater_block, StmtForm::Exact(assign_use(result, int_op(ORDERING_GREATER))))); }
        self.builder.terminate(MirTerminator::Goto { target: done_block });
        self.builder.switch_to_block(equal_block);
        let st = MirStmt::Assign { dst: result, rvalue: MirRValue::Use(MirOperand::Constant(MirConst::Int(ORDERING_EQUAL))) };
        self.builder.stmt_rec(Ghost(base), Ghost(temps), Ghost(forms), st);
        proof { forms = forms.push((equal_block, StmtForm::Exact(assign_use(result, int_op(ORDERING_EQUAL))))); }
        self.builder.terminate(MirTerminator::Goto { target: done_block });
        self.builder.switch_to_block(done_block);
        proof {
            assert(temps =~= seq![MirType::I64, MirType::Bool, MirType::Bool]);
            assert(self.builder.terms@ =~= base.terms@.update(
                c.0 as int,
                Some(MirTerminator::Branch { cond: local_op(lt), then_block: less_block, else_block: not_less_block }),
            ) + seq![
                Some(MirTerminator::Goto { target: done_block }),
                Some(MirTerminator::Branch { cond: local_op(gt), then_block: greater_block, else_block: equal_block }),
                Some(MirTerminator::Goto { target: done_block }),
                Some(MirTerminator::Goto { target: done_block }),
                None,
            ]);
        }
        result
    }

    /// Whether every variant of the enum layout at `idx` carries no fields.
    fn fieldless_enum(&self, idx: usize) -> (r: bool)
        requires
            idx < self.ctx.enum_layouts@.len(),
        ensures
            r == forall|v: int|
                0 <= v < self.ctx.enum_layouts@[idx as int].variants@.len()
                    ==> (#[trigger] self.ctx.enum_layouts@[idx as int].variants@[v]).fields@.len() == 0,
    {
        let n = self.ctx.enum_layouts[idx].variants.len();
        let mut v: usize = 0;
        while v < n
            invariant
                idx < self.ctx.enum_layouts@.len(),
                n == self.ctx.enum_layouts@[idx as int].variants@.len(),
                v <= n,
                forall|w: int| 0 <= w < v ==> (#[trigger] self.ctx.enum_layouts@[idx as int].variants@[w]).fields@.len() == 0,
            decreases n - v,
        {
            if self.ctx.enum_layouts[idx].variants[v].fields.len() > 0 {
                return false;
            }
            v = v + 1;
        }
        true
    }

    /// `obj.compare(rhs)` on a scalar or a fieldless enum `obj_op` of type
    /// `obj_ty`, with the lowered arguments `args`: a value of the
    /// comparison result enum; see `compared`. Nothing, and nothing
    /// emitted, for another method, another number of arguments, or
    /// another type.
    pub fn try_lower_primitive_compare(&mut self, method: &str, args: &Vec<MirOperand>, obj_op: &MirOperand, obj_ty: &MirType) -> (r:
        Option<(MirOperand, MirType)>)
        requires
            old(self).wf(),
        ensures
            match compare_way(old(self).ctx, *obj_ty) {
                Some(way) if method@ == "compare"@ && args@.len() == 1 => {
                    &&& r is Some
                    &&& compare_lowered(old(self).ctx, old(self).builder, final(self).builder, way, *obj_op, args@[0], r->0)
                },
                _ => r is None && final(self).builder == old(self).builder,
            },
            final(self).wf(),
            final(self).ctx == old(self).ctx,
    {
        if !str_eq(method, "compare") || args.len() != 1 {
            return None;
        }
        let rhs = args[0].duplicate();
        let ghost b0 = self.builder;
        let ghost n = b0.locals@.len();
        match obj_ty {
            MirType::F32 | MirType::F64 => {
                proof {
                    lemma_recorded_start(b0);
                }
                let ghost no_temps: Seq<MirType> = Seq::empty();
                let ghost no_forms: Seq<(BlockId, StmtForm)> = Seq::empty();
                let ghost one_temp: Seq<MirType> = seq![MirType::I64];
                let raw = self.builder.temp_rec(Ghost(b0), Ghost(no_temps), Ghost(no_forms), MirType::I64);
                let args2 = vec![obj_op.duplicate(), rhs];
                let ghost av = args2@;
                proof {
                    assert(no_temps.push(MirType::I64) =~= one_temp);
                }
                self.builder.call_rec(Ghost(b0), Ghost(one_temp), Ghost(no_forms), Some(raw), "f64_compare", args2);
                let ghost mid = self.builder;
                proof {
                    assert(av =~= seq![*obj_op, args@[0]]);
                    assert(no_forms.push((b0.current, call_form(Some(raw), "f64_compare"@, av))) =~= seq![(b0.current, call_form(Some(LocalId(n as usize)), "f64_compare"@, seq![*obj_op, args@[0]]))]);
                }
                let r = self.wrap_ordering(MirOperand::Local(raw));
                proof {
                    assert(compared(old(self).ctx, b0, mid, self.builder, CompareWay::Total, *obj_op, args@[0], r));
                    assert(compare_lowered(old(self).ctx, b0, self.builder, CompareWay::Total, *obj_op, args@[0], r));
                }
                return Some(r);
            },
            MirType::I8 | MirType::I16 | MirType::I32 | MirType::I64 | MirType::U8 | MirType::U16 | MirType::U32
            | MirType::U64 | MirType::Char | MirType::Bool => {
                let result = self.emit_three_way(obj_op, &rhs);
                let ghost mid = self.builder;
                let r = self.wrap_ordering(MirOperand::Local(result));
                proof {
                    assert(compared(old(self).ctx, b0, mid, self.builder, CompareWay::Plain, *obj_op, args@[0], r));
                    assert(compare_lowered(old(self).ctx, b0, self.builder, CompareWay::Plain, *obj_op, args@[0], r));
                }
                return Some(r);
            },
            MirType::Enum(id) => {
                let idx = id.id as usize;
                if idx >= self.ctx.enum_layouts.len() || !self.fieldless_enum(idx) {
                    return None;
                }
                let ta = self.emit_enum_tag(obj_op.duplicate());
                let tb = self.emit_enum_tag(rhs);
                let ghost t = self.builder;
                proof {
                    assert(t.locals@ =~= b0.locals@ + seq![crate::builder::temp_decl(MirType::U16), crate::builder::temp_decl(MirType::U16)]);
                    assert(t.stmts@ =~= b0.stmts@ + seq![
                        crate::builder::placed(b0.current, MirStmt::Assign { dst: ta, rvalue: MirRValue::EnumTag { value: *obj_op } }),
                        crate::builder::placed(b0.current, MirStmt::Assign { dst: tb, rvalue: MirRValue::EnumTag { value: args@[0] } }),
                    ]);
                }
                let result = self.emit_three_way(&MirOperand::Local(ta), &MirOperand::Local(tb));
                let ghost mid = self.builder;
                let r = self.wrap_ordering(MirOperand::Local(result));
                proof {
                    assert(compared(old(self).ctx, b0, mid, self.builder, CompareWay::Tags, *obj_op, args@[0], r));
                    assert(compare_lowered(old(self).ctx, b0, self.builder, CompareWay::Tags, *obj_op, args@[0], r));
                }
                return Some(r);
            },
            _ => {
                return None;
            },
        }
    }

    /// `x.to_int()` on a float and `x.to_float()` on an integer: a cast of
    /// the receiver `obj_op` into a new temp of the target type; see
    /// `conversion_target`. Nothing, and nothing emitted, with arguments or
    /// for any other method or receiver.
    pub fn try_lower_numeric_conversion(&mut self, method: &str, args: &Vec<MirOperand>, obj_op: &MirOperand, obj_ty: &MirType) -> (r:
        Option<(MirOperand, MirType)>)
        ensures
            match conversion_target(method@, *obj_ty) {
                Some(target) if args@.len() == 0 => {
                    let dst = LocalId(old(self).builder.locals@.len() as usize);
                    &&& crate::iterators::temp_then(
                        old(self).builder,
                        final(self).builder,
                        target,
                        MirStmt::Assign { dst, rvalue: MirRValue::Cast { value: *obj_op, target_ty: target } },
                    )
                    &&& r == Some((local_op(dst), target))
                },
                _ => r is None && final(self).builder == old(self).builder,
            },
            final(self).ctx == old(self).ctx,
    {
        if args.len() != 0 {
            return None;
        }
        let target = if str_eq(method, "to_int") {
            match obj_ty {
                MirType::F32 | MirType::F64 => MirType::I64,
                _ => {
                    proof {
                        reveal_strlit("to_int");
                        reveal_strlit("to_float");
                        assert("to_int"@.len() != "to_float"@.len());
                    }
                    return None;
                },
            }
        } else if str_eq(method, "to_float") {
            match obj_ty {
                MirType::I8 | MirType::I16 | MirType::I32 | MirType::I64 | MirType::U8 | MirType::U16 | MirType::U32
                | MirType::U64 => MirType::F64,
                _ => {
                    return None;
                },
            }
        } else {
            return None;
        };
        let dst = self.builder.alloc_temp(target.duplicate());
        self.builder.push_stmt(
            MirStmt::Assign { dst, rvalue: MirRValue::Cast { value: obj_op.duplicate(), target_ty: target.duplicate() } },
        );
        Some((MirOperand::Local(dst), target))
    }

    /// `e.discriminant()` on the enum value `obj_op` of type `obj_ty`, with
    /// the lowered arguments `args`: its tag read into a new `u16` temp.
    /// Nothing, and nothing emitted, with arguments, for another method, or
    /// for a receiver that is not an enum.
    pub fn try_lower_discriminant(&mut self, method: &str, args: &Vec<MirOperand>, obj_op: &MirOperand, obj_ty: &MirType) -> (r:
        Option<(MirOperand, MirType)>)
        ensures
            if method@ == "discriminant"@ && args@.len() == 0 && *obj_ty is Enum {
                let dst = LocalId(old(self).builder.locals@.len() as usize);
                &&& crate::iterators::temp_then(
                    old(self).builder,
                    final(self).builder,
                    MirType::U16,
                    MirStmt::Assign { dst, rvalue: MirRValue::EnumTag { value: *obj_op } },
                )
                &&& r == Some((local_op(dst), MirType::U16))
            } else {
                r is None && final(self).builder == old(self).builder
            },
            final(self).ctx == old(self).ctx,
    {
        let is_enum = match obj_ty {
            MirType::Enum(_) => true,
            _ => false,
        };
        if !str_eq(method, "discriminant") || args.len() != 0 || !is_enum {
            return None;
        }
        let tag = self.emit_enum_tag(obj_op.duplicate());
        Some((MirOperand::Local(tag), MirType::U16))
    }
}

} // verus!
