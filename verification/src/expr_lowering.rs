//! Lowering an expression of the modelled forms (`ast`) to MIR: literals,
//! `()`, names, `&&`/`||`, ranges, `if`, `&` and `!`, binary operators, slices by a
//! range, and `todo`/`unreachable`. Each form's lowering is stated by
//! `expr_lowered`, over the lowering of its parts.

use vstd::prelude::*;
use crate::ast::{BinaryOp, Expr, ExprKind, IntSuffix, PrefixOp};
use crate::bindings::{binding_name, find_binding};
use crate::builder::{is_call, placed, temp_decl, MirBuilder};
use crate::control::{assign_use, short_value, IfBlocks, ShortCircuit};
use crate::iterators::{int_op, local_op};
use crate::lowerer::{first_named, LocalBinding, LoweringError, MirLowerer};
use crate::mir::{
    BinOp, BlockId, FieldAccess, LocalId, MirConst, MirOperand, MirRValue, MirStmt, MirTerminator, MirType,
    UnaryOp,
};

verus! {

/// What lowering an expression gives: its operand and type, or an error.
pub type LoweredExpr = Result<(MirOperand, MirType), LoweringError>;

/// The type a suffix gives an integer literal; the word-sized ones are
/// 64 bits.
pub open spec fn suffix_ty(s: IntSuffix) -> MirType {
    match s {
        IntSuffix::I8 => MirType::I8,
        IntSuffix::I16 => MirType::I16,
        IntSuffix::I32 => MirType::I32,
        IntSuffix::I64 | IntSuffix::Isize => MirType::I64,
        IntSuffix::U8 => MirType::U8,
        IntSuffix::U16 => MirType::U16,
        IntSuffix::U32 => MirType::U32,
        IntSuffix::U64 | IntSuffix::U64ByMagnitude | IntSuffix::Usize => MirType::U64,
        IntSuffix::I128 | IntSuffix::I128ByMagnitude => MirType::I128,
        IntSuffix::U128 | IntSuffix::U128ByMagnitude => MirType::U128,
    }
}

/// `t` is an integer type.
pub open spec fn is_int_ty(t: MirType) -> bool {
    t is I8 || t is I16 || t is I32 || t is I64 || t is U8 || t is U16 || t is U32 || t is U64 || t is I128
        || t is U128
}

/// An integer literal lowered: a constant and no statement. Unsuffixed,
/// it takes the checker's type when that is a float (as the float of the
/// same value) or an integer type, and `i64` otherwise; unsuffixed or
/// suffixed only by its magnitude, it takes a 128-bit type the checker
/// settled on. A 128-bit literal is an `Int128` constant, any other an
/// `Int` of its value.
pub open spec fn int_literal(value: i128, suffix: Option<IntSuffix>, float_bits: u64, node_ty: Option<MirType>) -> (
    MirOperand,
    MirType,
) {
    let settled_float = match node_ty {
        Some(t) => suffix is None && (t is F32 || t is F64),
        None => false,
    };
    if settled_float {
        (MirOperand::Constant(MirConst::FloatBits(float_bits)), node_ty->0)
    } else {
        let base = match suffix {
            Some(s) => suffix_ty(s),
            None => match node_ty {
                Some(t) => if is_int_ty(t) {
                    t
                } else {
                    MirType::I64
                },
                None => MirType::I64,
            },
        };
        let widenable = suffix is None || suffix == Some(IntSuffix::U64ByMagnitude) || suffix == Some(
            IntSuffix::I128ByMagnitude,
        );
        let ty = match node_ty {
            Some(w) => if widenable && (w is I128 || w is U128) {
                w
            } else {
                base
            },
            None => base,
        };
        let k = if ty is I128 || ty is U128 {
            MirConst::Int128(value)
        } else {
            MirConst::Int(value as i64)
        };
        (MirOperand::Constant(k), ty)
    }
}

/// A name lowered, against the bindings `locals`: its local; or, when the
/// binding holds a result or an optional and the checker narrowed this use
/// to another type, that payload read into a new temp of the narrowed
/// type; an unbound name is an error.
pub open spec fn ident_lowered(
    locals: Seq<LocalBinding>,
    old: MirBuilder,
    new: MirBuilder,
    name: String,
    node_ty: Option<MirType>,
    r: LoweredExpr,
) -> bool {
    match first_named(locals, binding_name(), name@) {
        Some(i) => {
            let b = locals[i];
            let narrow = match node_ty {
                Some(n) => (b.ty is Result && !(n is Result)) || (b.ty is Option && !(n is Option)),
                None => false,
            };
            if narrow {
                let n = node_ty->0;
                let t = LocalId(old.locals@.len() as usize);
                &&& new.locals@ == old.locals@.push(temp_decl(n))
                &&& new.stmts@ == old.stmts@.push(
                    placed(
                        old.current,
                        MirStmt::Assign {
                            dst: t,
                            rvalue: MirRValue::Field {
                                base: local_op(b.local),
                                field_index: 0,
                                byte_offset: None,
                                access: FieldAccess::Word,
                            },
                        },
                    ),
                )
                &&& new.terms@ == old.terms@
                &&& new.current == old.current
                &&& r == Ok::<(MirOperand, MirType), LoweringError>((local_op(t), n))
            } else {
                new == old && r == Ok::<(MirOperand, MirType), LoweringError>((local_op(b.local), b.ty))
            }
        },
        None => new == old && r == Err::<(MirOperand, MirType), LoweringError>(
            LoweringError::UnresolvedVariable(name),
        ),
    }
}

/// What `lower_short_circuit` does; see there.
pub open spec fn sc_begun(old: MirBuilder, new: MirBuilder, op: BinOp, left: MirOperand, r: ShortCircuit) -> bool {
    let n = old.terms@.len();
    let rhs = BlockId(n as usize);
    let short = BlockId((n + 1) as usize);
    let merge = BlockId((n + 2) as usize);
    let res = LocalId(old.locals@.len() as usize);
    let branch = if op == BinOp::And {
        MirTerminator::Branch { cond: left, then_block: rhs, else_block: short }
    } else {
        MirTerminator::Branch { cond: left, then_block: short, else_block: rhs }
    };
    &&& r == ShortCircuit { rhs_block: rhs, merge_block: merge, result: res }
    &&& new.locals@ == old.locals@.push(temp_decl(MirType::Bool))
    &&& new.stmts@ == old.stmts@.push(
        placed(short, assign_use(res, MirOperand::Constant(MirConst::Int(short_value(op))))),
    )
    &&& new.terms@ == old.terms@.update(old.current.0 as int, Some(branch)) + seq![
        None,
        Some(MirTerminator::Goto { target: merge }),
        None,
    ]
    &&& new.current == rhs
}

/// Closing an open block by setting `dst` to `v` and going to `target`;
/// a block already ended is left as it is.
pub open spec fn closed_into(old: MirBuilder, new: MirBuilder, dst: LocalId, v: Option<MirOperand>, target: BlockId) -> bool {
    if old.terms@[old.current.0 as int] is None {
        &&& new.stmts@ == match v {
            Some(x) => old.stmts@.push(placed(old.current, assign_use(dst, x))),
            None => old.stmts@,
        }
        &&& new.terms@ == old.terms@.update(old.current.0 as int, Some(MirTerminator::Goto { target }))
    } else {
        &&& new.stmts@ == old.stmts@
        &&& new.terms@ == old.terms@
    }
}

/// What `finish_short_circuit` does; see there.
pub open spec fn sc_done(old: MirBuilder, new: MirBuilder, sc: ShortCircuit, right: MirOperand, r: (MirOperand, MirType)) -> bool {
    &&& closed_into(old, new, sc.result, Some(right), sc.merge_block)
    &&& new.locals@ == old.locals@
    &&& new.current == sc.merge_block
    &&& r == (local_op(sc.result), MirType::Bool)
}

/// What `lower_if` does; see there.
pub open spec fn if_begun(old: MirBuilder, new: MirBuilder, cond: MirOperand, r: IfBlocks) -> bool {
    let n = old.terms@.len();
    let then_block = BlockId(n as usize);
    let else_block = BlockId((n + 1) as usize);
    let merge_block = BlockId((n + 2) as usize);
    &&& r == IfBlocks { then_block, else_block, merge_block }
    &&& new.terms@ == old.terms@.update(
        old.current.0 as int,
        Some(MirTerminator::Branch { cond, then_block, else_block }),
    ) + seq![None, None, None]
    &&& new.locals@ == old.locals@
    &&& new.stmts@ == old.stmts@
    &&& new.current == then_block
}

/// What `lower_if_then` does; see there.
pub open spec fn if_then_done(old: MirBuilder, new: MirBuilder, blocks: IfBlocks, v: MirOperand, ty: MirType, r: LocalId) -> bool {
    &&& r == LocalId(old.locals@.len() as usize)
    &&& new.locals@ == old.locals@.push(temp_decl(ty))
    &&& closed_into(old, new, r, Some(v), blocks.merge_block)
    &&& new.current == blocks.else_block
}

/// What `finish_if` does; see there.
pub open spec fn if_done(
    old: MirBuilder,
    new: MirBuilder,
    blocks: IfBlocks,
    result: LocalId,
    else_val: Option<MirOperand>,
    then_ty: MirType,
    r: (MirOperand, MirType),
) -> bool {
    &&& closed_into(old, new, result, else_val, blocks.merge_block)
    &&& new.locals@ == old.locals@
    &&& new.current == blocks.merge_block
    &&& r == (local_op(result), then_ty)
}

/// Lowering `e` against the bindings `locals` takes the builder from `old`
/// to `new` and gives `r`. A literal is a constant with nothing emitted
/// (see `int_literal`); `()` is a new `Void` temp; a name, see
/// `ident_lowered`. A range takes a new pointer temp for its value, lowers
/// its bounds in order and calls `range` (`range_inclusive`) on them. `a &&
/// b` and `a || b` lower `a`, begin the short circuit on it, lower `b` in
/// its block and finish (see `lower_short_circuit`). `if` lowers the condition, branches
/// on it, lowers the then branch into the `if`'s value, the else branch, if
/// any, into the same, and meets (see `lower_if`). A prefix operator
/// lowers its operand, and then `unary_done`. A binary operator
/// lowers each operand once, left first, and then `binary_done`; a slice
/// lowers the receiver, the start and the end, and then `slice_done`; a
/// `todo` or `unreachable` lowers its message, and then `panic_done`. An
/// error in a part is the whole's error, and nothing after that part is
/// lowered.
pub open spec fn expr_lowered(locals: Seq<LocalBinding>, old: MirBuilder, new: MirBuilder, e: Expr, r: LoweredExpr) -> bool
    decreases e,
{
    match e.kind {
        ExprKind::Int { value, suffix, float_bits } => new == old && r == Ok::<(MirOperand, MirType), LoweringError>(
            int_literal(value, suffix, float_bits, e.node_ty),
        ),
        ExprKind::Float { bits, is_f32 } => new == old && r == Ok::<(MirOperand, MirType), LoweringError>(
            (MirOperand::Constant(MirConst::FloatBits(bits)), if is_f32 {
                MirType::F32
            } else {
                MirType::F64
            }),
        ),
        ExprKind::String(s) => new == old && r == Ok::<(MirOperand, MirType), LoweringError>(
            (MirOperand::Constant(MirConst::String(s)), MirType::String),
        ),
        ExprKind::Bool(b) => new == old && r == Ok::<(MirOperand, MirType), LoweringError>(
            (MirOperand::Constant(MirConst::Bool(b)), MirType::Bool),
        ),
        ExprKind::Null => new == old && r == Ok::<(MirOperand, MirType), LoweringError>(
            (MirOperand::Constant(MirConst::Int(0)), MirType::Ptr),
        ),
        ExprKind::Unit => {
            &&& new.locals@ == old.locals@.push(temp_decl(MirType::Void))
            &&& new.stmts@ == old.stmts@
            &&& new.terms@ == old.terms@
            &&& new.current == old.current
            &&& r == Ok::<(MirOperand, MirType), LoweringError>(
                (local_op(LocalId(old.locals@.len() as usize)), MirType::Void),
            )
        },
        ExprKind::Ident(name) => ident_lowered(locals, old, new, name, e.node_ty, r),
        ExprKind::Logical { is_and, left, right } => {
            let op = if is_and {
                BinOp::And
            } else {
                BinOp::Or
            };
            exists|b1: MirBuilder, rl: LoweredExpr|
                #![trigger stage(old, b1, rl)]
                {
                    &&& expr_lowered(locals, old, b1, *left, rl)
                    &&& match rl {
                        Err(x) => new == b1 && r == Err::<(MirOperand, MirType), LoweringError>(x),
                        Ok(lv) => {
                            let sc = short_circuit_of(b1);
                            exists|b2: MirBuilder, b3: MirBuilder, rr: LoweredExpr|
                                #![trigger stage(b2, b3, rr)]
                                {
                                    &&& sc_begun(b1, b2, op, lv.0, sc)
                                    &&& expr_lowered(locals, b2, b3, *right, rr)
                                    &&& match rr {
                                        Err(x) => new == b3 && r == Err::<(MirOperand, MirType), LoweringError>(x),
                                        Ok(rv) => {
                                            &&& sc_done(b3, new, sc, rv.0, (local_op(sc.result), MirType::Bool))
                                            &&& r == Ok::<(MirOperand, MirType), LoweringError>(
                                                (local_op(sc.result), MirType::Bool),
                                            )
                                        },
                                    }
                                }
                        },
                    }
                }
        },
        ExprKind::Range { start, end, inclusive } => {
            let res = LocalId(old.locals@.len() as usize);
            exists|b1: MirBuilder, b2: MirBuilder, rs: Option<LoweredExpr>|
                #![trigger opt_stage(b1, b2, rs)]
                {
                    &&& b1.locals@ == old.locals@.push(temp_decl(MirType::Ptr))
                    &&& b1.stmts@ == old.stmts@
                    &&& b1.terms@ == old.terms@
                    &&& b1.current == old.current
                    &&& opt_lowered(locals, b1, b2, start, rs)
                    &&& match rs {
                        Some(Err(x)) => new == b2 && r == Err::<(MirOperand, MirType), LoweringError>(x),
                        _ => exists|b3: MirBuilder, re: Option<LoweredExpr>|
                            #![trigger opt_stage(b2, b3, re)]
                            {
                                &&& opt_lowered(locals, b2, b3, end, re)
                                &&& match re {
                                    Some(Err(x)) => new == b3 && r == Err::<(MirOperand, MirType), LoweringError>(x),
                                    _ => {
                                        &&& new.locals@ == b3.locals@
                                        &&& new.stmts@.len() == b3.stmts@.len() + 1
                                        &&& new.stmts@.drop_last() == b3.stmts@
                                        &&& new.stmts@.last().block == b3.current
                                        &&& is_call(
                                            new.stmts@.last().stmt,
                                            Some(res),
                                            range_func(inclusive),
                                            bound_ops(rs) + bound_ops(re),
                                        )
                                        &&& new.terms@ == b3.terms@
                                        &&& new.current == b3.current
                                        &&& r == Ok::<(MirOperand, MirType), LoweringError>((local_op(res), MirType::Ptr))
                                    },
                                }
                            },
                    }
                }
        },
        ExprKind::If { cond, then_branch, else_branch } => exists|b1: MirBuilder, rc: LoweredExpr|
            #![trigger stage(old, b1, rc)]
            {
                &&& expr_lowered(locals, old, b1, *cond, rc)
                &&& match rc {
                    Err(x) => new == b1 && r == Err::<(MirOperand, MirType), LoweringError>(x),
                    Ok(cv) => {
                        let blocks = if_blocks_of(b1);
                        exists|b2: MirBuilder, b3: MirBuilder, rt: LoweredExpr|
                            #![trigger stage(b2, b3, rt)]
                            {
                                &&& if_begun(b1, b2, cv.0, blocks)
                                &&& expr_lowered(locals, b2, b3, *then_branch, rt)
                                &&& match rt {
                                    Err(x) => new == b3 && r == Err::<(MirOperand, MirType), LoweringError>(x),
                                    Ok(tv) => {
                                        let res = LocalId(b3.locals@.len() as usize);
                                        exists|b4: MirBuilder, b5: MirBuilder, re: Option<LoweredExpr>|
                                            #![trigger opt_stage(b4, b5, re)]
                                            {
                                                &&& if_then_done(b3, b4, blocks, tv.0, tv.1, res)
                                                &&& opt_lowered(locals, b4, b5, else_branch, re)
                                                &&& match re {
                                                    Some(Err(x)) => new == b5 && r == Err::<
                                                        (MirOperand, MirType),
                                                        LoweringError,
                                                    >(x),
                                                    Some(Ok(ev)) => {
                                                        &&& if_done(b5, new, blocks, res, Some(ev.0), tv.1, (local_op(res), tv.1))
                                                        &&& r == Ok::<(MirOperand, MirType), LoweringError>((local_op(res), tv.1))
                                                    },
                                                    None => {
                                                        &&& if_done(b5, new, blocks, res, None, tv.1, (local_op(res), tv.1))
                                                        &&& r == Ok::<(MirOperand, MirType), LoweringError>((local_op(res), tv.1))
                                                    },
                                                }
                                            }
                                    },
                                }
                            }
                    },
                }
            },
        ExprKind::Unary { op, operand } => exists|b1: MirBuilder, ro: LoweredExpr|
            #![trigger stage(old, b1, ro)]
            {
                &&& expr_lowered(locals, old, b1, *operand, ro)
                &&& match ro {
                    Err(x) => new == b1 && r == Err::<(MirOperand, MirType), LoweringError>(x),
                    Ok(ov) => unary_done(b1, new, op, ov, r),
                }
            },
        ExprKind::Binary { op, left, right } => exists|b1: MirBuilder, rl: LoweredExpr|
            #![trigger stage(old, b1, rl)]
            {
                &&& expr_lowered(locals, old, b1, *left, rl)
                &&& match rl {
                    Err(x) => new == b1 && r == Err::<(MirOperand, MirType), LoweringError>(x),
                    Ok(lv) => exists|b2: MirBuilder, rr: LoweredExpr|
                        #![trigger stage(b1, b2, rr)]
                        {
                            &&& expr_lowered(locals, b1, b2, *right, rr)
                            &&& match rr {
                                Err(x) => new == b2 && r == Err::<(MirOperand, MirType), LoweringError>(x),
                                Ok(rv) => binary_done(b2, new, op, lv, rv.0, r),
                            }
                        },
                }
            },
        ExprKind::Slice { object, start, end, inclusive } => exists|b1: MirBuilder, ro: LoweredExpr|
            #![trigger stage(old, b1, ro)]
            {
                &&& expr_lowered(locals, old, b1, *object, ro)
                &&& match ro {
                    Err(x) => new == b1 && r == Err::<(MirOperand, MirType), LoweringError>(x),
                    Ok(ov) => exists|b2: MirBuilder, rs: Option<LoweredExpr>|
                        #![trigger opt_stage(b1, b2, rs)]
                        {
                            &&& opt_lowered(locals, b1, b2, start, rs)
                            &&& match rs {
                                Some(Err(x)) => new == b2 && r == Err::<(MirOperand, MirType), LoweringError>(x),
                                _ => exists|b3: MirBuilder, re: Option<LoweredExpr>|
                                    #![trigger opt_stage(b2, b3, re)]
                                    {
                                        &&& opt_lowered(locals, b2, b3, end, re)
                                        &&& match re {
                                            Some(Err(x)) => new == b3 && r == Err::<(MirOperand, MirType), LoweringError>(x),
                                            _ => slice_done(
                                                b3,
                                                new,
                                                ov.0,
                                                slice_is_string(ov.1, object.node_ty),
                                                start_operand(rs),
                                                lowered_operand(re),
                                                inclusive,
                                                r,
                                            ),
                                        }
                                    },
                            }
                        },
                }
            },
        ExprKind::Panic { unreachable, message } => exists|b1: MirBuilder, rm: Option<LoweredExpr>|
            #![trigger opt_stage(old, b1, rm)]
            {
                &&& opt_lowered(locals, old, b1, message, rm)
                &&& match rm {
                    Some(Err(x)) => new == b1 && r == Err::<(MirOperand, MirType), LoweringError>(x),
                    _ => panic_done(b1, new, panic_message(unreachable, lowered_operand(rm)), r),
                }
            },
    }
}

/// The value `op operand` gives, and its type: `&x` of a local is its
/// address (of anything else, the value itself), a pointer; `!x` is the
/// negation, a `bool`.
pub open spec fn unary_value(op: PrefixOp, operand: MirOperand) -> (MirRValue, MirType) {
    match op {
        PrefixOp::Ref => (
            match operand {
                MirOperand::Local(id) => MirRValue::Ref(id),
                _ => MirRValue::Use(operand),
            },
            MirType::Ptr,
        ),
        PrefixOp::Not => (MirRValue::UnaryOp { op: UnaryOp::Not, operand }, MirType::Bool),
    }
}

/// After the operand is lowered: a new temp of the result type gets the
/// value (see `unary_value`) in the current block, and is the answer.
pub open spec fn unary_done(old: MirBuilder, new: MirBuilder, op: PrefixOp, operand: (MirOperand, MirType), r: LoweredExpr) -> bool {
    let t = LocalId(old.locals@.len() as usize);
    let (rv, ty) = unary_value(op, operand.0);
    &&& new.locals@ == old.locals@.push(temp_decl(ty))
    &&& new.stmts@ == old.stmts@.push(placed(old.current, MirStmt::Assign { dst: t, rvalue: rv }))
    &&& new.terms@ == old.terms@
    &&& new.current == old.current
    &&& r == Ok::<(MirOperand, MirType), LoweringError>((local_op(t), ty))
}

/// The first of two errors, in order.
pub open spec fn first_error(a: Option<LoweringError>, b: Option<LoweringError>) -> Option<LoweringError> {
    match a {
        Some(x) => Some(x),
        None => b,
    }
}

/// The error lowering `e` against the bindings `locals` stops at, if any:
/// the first name, in the order the parts are lowered, that no binding
/// holds. Every other form lowers without error.
pub open spec fn expr_error(locals: Seq<LocalBinding>, e: Expr) -> Option<LoweringError>
    decreases e,
{
    match e.kind {
        ExprKind::Ident(name) => match first_named(locals, binding_name(), name@) {
            Some(_) => None,
            None => Some(LoweringError::UnresolvedVariable(name)),
        },
        ExprKind::Logical { left, right, .. } => first_error(
            expr_error(locals, *left),
            expr_error(locals, *right),
        ),
        ExprKind::Binary { left, right, .. } => first_error(expr_error(locals, *left), expr_error(locals, *right)),
        ExprKind::Unary { operand, .. } => expr_error(locals, *operand),
        ExprKind::Range { start, end, .. } => first_error(
            match start {
                Some(x) => expr_error(locals, *x),
                None => None,
            },
            match end {
                Some(x) => expr_error(locals, *x),
                None => None,
            },
        ),
        ExprKind::If { cond, then_branch, else_branch } => first_error(
            expr_error(locals, *cond),
            first_error(
                expr_error(locals, *then_branch),
                match else_branch {
                    Some(x) => expr_error(locals, *x),
                    None => None,
                },
            ),
        ),
        ExprKind::Slice { object, start, end, .. } => first_error(
            expr_error(locals, *object),
            first_error(
                match start {
                    Some(x) => expr_error(locals, *x),
                    None => None,
                },
                match end {
                    Some(x) => expr_error(locals, *x),
                    None => None,
                },
            ),
        ),
        ExprKind::Panic { message, .. } => match message {
            Some(x) => expr_error(locals, *x),
            None => None,
        },
        _ => None,
    }
}

/// The MIR operator a binary operator lowers to.
pub open spec fn mir_binop(op: BinaryOp) -> BinOp {
    match op {
        BinaryOp::Add => BinOp::Add,
        BinaryOp::Sub => BinOp::Sub,
        BinaryOp::Mul => BinOp::Mul,
        BinaryOp::Div => BinOp::Div,
        BinaryOp::Mod => BinOp::Mod,
        BinaryOp::Eq => BinOp::Eq,
        BinaryOp::Ne => BinOp::Ne,
        BinaryOp::Lt => BinOp::Lt,
        BinaryOp::Le => BinOp::Le,
        BinaryOp::Gt => BinOp::Gt,
        BinaryOp::Ge => BinOp::Ge,
        BinaryOp::Shl => BinOp::Shl,
        BinaryOp::Shr => BinOp::Shr,
    }
}

/// Whether the operator compares its operands.
pub open spec fn is_comparison(op: BinaryOp) -> bool {
    op is Eq || op is Ne || op is Lt || op is Le || op is Gt || op is Ge
}

/// The type of `left op right` for a left operand of type `left`: `bool`
/// for a comparison, the left operand's type otherwise.
pub open spec fn binary_result_ty(op: BinaryOp, left: MirType) -> MirType {
    if is_comparison(op) {
        MirType::Bool
    } else {
        left
    }
}

/// `dst = left op right`.
pub open spec fn assign_binop(dst: LocalId, op: BinOp, left: MirOperand, right: MirOperand) -> MirStmt {
    MirStmt::Assign { dst, rvalue: MirRValue::BinaryOp { op, left, right } }
}

/// After both operands, `left` (with its type) and `right`, are lowered: a
/// temp of the result type gets `left op right` in the current block, and
/// is the answer.
pub open spec fn binary_done(
    old: MirBuilder,
    new: MirBuilder,
    op: BinaryOp,
    left: (MirOperand, MirType),
    right: MirOperand,
    r: LoweredExpr,
) -> bool {
    let t = LocalId(old.locals@.len() as usize);
    let ty = binary_result_ty(op, left.1);
    &&& new.locals@ == old.locals@.push(temp_decl(ty))
    &&& new.stmts@ == old.stmts@.push(placed(old.current, assign_binop(t, mir_binop(op), left.0, right)))
    &&& new.terms@ == old.terms@
    &&& new.current == old.current
    &&& r == Ok::<(MirOperand, MirType), LoweringError>((local_op(t), ty))
}

/// A slice is of a string when the receiver lowered to a string or the
/// checker recorded a string for it; of a Vec otherwise.
pub open spec fn slice_is_string(obj_ty: MirType, node_ty: Option<MirType>) -> bool {
    obj_ty is String || node_ty == Some(MirType::String)
}

/// The slice's start: the lowered bound, or 0 when there is none.
pub open spec fn start_operand(rs: Option<LoweredExpr>) -> MirOperand {
    match rs {
        Some(Ok(v)) => v.0,
        _ => int_op(0),
    }
}

/// The operand a lowered optional part gave, if it is there.
pub open spec fn lowered_operand(re: Option<LoweredExpr>) -> Option<MirOperand> {
    match re {
        Some(Ok(v)) => Some(v.0),
        _ => None,
    }
}

/// The runtime function that cuts a slice, and the one that measures the
/// receiver, for a string or a Vec.
pub open spec fn slice_funcs(is_string: bool) -> (Seq<char>, Seq<char>) {
    if is_string {
        ("string_substr"@, "string_len"@)
    } else {
        ("Vec_slice"@, "Vec_len"@)
    }
}

/// After the receiver `obj` and the bounds are lowered: the end is made
/// half-open in a new `i64` temp, as `end + 1`, when the range is
/// inclusive; with no end, a new `i64` temp gets the receiver's length.
/// Then a temp of the slice's type (a string, or a Vec pointer) gets the
/// cut `(obj, start, end)`, all in the current block, and is the answer.
pub open spec fn slice_done(
    old: MirBuilder,
    new: MirBuilder,
    obj: MirOperand,
    is_string: bool,
    start: MirOperand,
    end: Option<MirOperand>,
    inclusive: bool,
    r: LoweredExpr,
) -> bool {
    let n = old.locals@.len();
    let m = old.stmts@.len();
    let (cut, len_func) = slice_funcs(is_string);
    let ty = if is_string {
        MirType::String
    } else {
        MirType::Ptr
    };
    let extra = !(end is Some && !inclusive);
    let res = LocalId((if extra { n + 1 } else { n }) as usize);
    let end_op = match end {
        Some(e) => if inclusive {
            local_op(LocalId(n as usize))
        } else {
            e
        },
        None => local_op(LocalId(n as usize)),
    };
    &&& new.locals@ == if extra {
        old.locals@.push(temp_decl(MirType::I64)).push(temp_decl(ty))
    } else {
        old.locals@.push(temp_decl(ty))
    }
    &&& new.stmts@.len() == m + if extra { 2nat } else { 1nat }
    &&& new.stmts@.subrange(0, m as int) == old.stmts@
    &&& forall|i: int| m <= i < new.stmts@.len() ==> (#[trigger] new.stmts@[i]).block == old.current
    &&& match end {
        Some(e) => inclusive ==> new.stmts@[m as int].stmt == assign_binop(LocalId(n as usize), BinOp::Add, e, int_op(1)),
        None => is_call(new.stmts@[m as int].stmt, Some(LocalId(n as usize)), len_func, seq![obj]),
    }
    &&& is_call(new.stmts@.last().stmt, Some(res), cut, seq![obj, start, end_op])
    &&& new.terms@ == old.terms@
    &&& new.current == old.current
    &&& r == Ok::<(MirOperand, MirType), LoweringError>((local_op(res), ty))
}

/// The message a `todo` (or `unreachable`) panics with: its fixed words,
/// followed by `": "` and the message argument when that lowered to a
/// string constant.
pub open spec fn panic_message(unreachable: bool, arg: Option<MirOperand>) -> Seq<char> {
    let prefix = if unreachable {
        "entered unreachable code"@
    } else {
        "not yet implemented"@
    };
    match arg {
        Some(MirOperand::Constant(MirConst::String(s))) => prefix + ": "@ + s@,
        _ => prefix,
    }
}

/// `s` is `dst = panic(msg)`, with the message as a string constant.
pub open spec fn is_panic_call(s: MirStmt, dst: LocalId, msg: Seq<char>) -> bool {
    &&& s matches MirStmt::Call { dst: d, func: f, args: a }
    &&& d == Some(dst)
    &&& f@ == "panic"@
    &&& a@.len() == 1
    &&& a@[0] matches MirOperand::Constant(MirConst::String(text))
    &&& text@ == msg
}

/// A panic: a new `i64` temp gets `panic(msg)` in the current block, which
/// ends as unreachable; lowering goes on in a fresh block, and the temp is
/// the answer.
pub open spec fn panic_done(old: MirBuilder, new: MirBuilder, msg: Seq<char>, r: LoweredExpr) -> bool {
    let t = LocalId(old.locals@.len() as usize);
    &&& new.locals@ == old.locals@.push(temp_decl(MirType::I64))
    &&& new.stmts@.len() == old.stmts@.len() + 1
    &&& new.stmts@.drop_last() == old.stmts@
    &&& new.stmts@.last().block == old.current
    &&& is_panic_call(new.stmts@.last().stmt, t, msg)
    &&& new.terms@ == old.terms@.update(old.current.0 as int, Some(MirTerminator::Unreachable)).push(None)
    &&& new.current == BlockId(old.terms@.len() as usize)
    &&& r == Ok::<(MirOperand, MirType), LoweringError>((local_op(t), MirType::I64))
}

/// The runtime function that builds a range.
pub open spec fn range_func(inclusive: bool) -> Seq<char> {
    if inclusive {
        "range_inclusive"@
    } else {
        "range"@
    }
}

/// The operand of a range bound that was lowered, or none.
pub open spec fn bound_ops(r: Option<LoweredExpr>) -> Seq<MirOperand> {
    match r {
        Some(Ok(v)) => seq![v.0],
        _ => Seq::empty(),
    }
}

/// Names the builders before and after a part of an expression is lowered,
/// and what the part gave: the handle by which a proof points at that
/// part's lowering.
pub open spec fn stage(from: MirBuilder, to: MirBuilder, r: LoweredExpr) -> bool {
    true
}

/// `stage` for an optional part.
pub open spec fn opt_stage(from: MirBuilder, to: MirBuilder, r: Option<LoweredExpr>) -> bool {
    true
}

/// The short circuit begun on the builder `b`: its blocks are the next
/// three, its value the next local.
pub open spec fn short_circuit_of(b: MirBuilder) -> ShortCircuit {
    let n = b.terms@.len();
    ShortCircuit {
        rhs_block: BlockId(n as usize),
        merge_block: BlockId((n + 2) as usize),
        result: LocalId(b.locals@.len() as usize),
    }
}

/// The blocks of an `if` begun on the builder `b`: the next three.
pub open spec fn if_blocks_of(b: MirBuilder) -> IfBlocks {
    let n = b.terms@.len();
    IfBlocks {
        then_block: BlockId(n as usize),
        else_block: BlockId((n + 1) as usize),
        merge_block: BlockId((n + 2) as usize),
    }
}

/// An optional part (an else branch, a range bound), lowered when there
/// is one: nothing lowered and nothing emitted without one.
pub open spec fn opt_lowered(
    locals: Seq<LocalBinding>,
    old: MirBuilder,
    new: MirBuilder,
    else_branch: Option<Box<Expr>>,
    r: Option<LoweredExpr>,
) -> bool
    decreases else_branch,
{
    match else_branch {
        Some(e) => r is Some && expr_lowered(locals, old, new, *e, r->0),
        None => r is None && new == old,
    }
}

impl MirLowerer {
    /// The constant an integer literal lowers to; see `int_literal`.
    fn lower_int_literal(value: i128, suffix: Option<IntSuffix>, float_bits: u64, node_ty: &Option<MirType>) -> (r: (
        MirOperand,
        MirType,
    ))
        ensures
            r == int_literal(value, suffix, float_bits, *node_ty),
    {
        if suffix.is_none() {
            match node_ty {
                Some(MirType::F32) => {
                    return (MirOperand::Constant(MirConst::FloatBits(float_bits)), MirType::F32);
                },
                Some(MirType::F64) => {
                    return (MirOperand::Constant(MirConst::FloatBits(float_bits)), MirType::F64);
                },
                _ => {},
            }
        }
        let base = match suffix {
            Some(IntSuffix::I8) => MirType::I8,
            Some(IntSuffix::I16) => MirType::I16,
            Some(IntSuffix::I32) => MirType::I32,
            Some(IntSuffix::I64) | Some(IntSuffix::Isize) => MirType::I64,
            Some(IntSuffix::U8) => MirType::U8,
            Some(IntSuffix::U16) => MirType::U16,
            Some(IntSuffix::U32) => MirType::U32,
            Some(IntSuffix::U64) | Some(IntSuffix::U64ByMagnitude) | Some(IntSuffix::Usize) => MirType::U64,
            Some(IntSuffix::I128) | Some(IntSuffix::I128ByMagnitude) => MirType::I128,
            Some(IntSuffix::U128) | Some(IntSuffix::U128ByMagnitude) => MirType::U128,
            None => match node_ty {
                Some(t) => match t {
                    MirType::I8 | MirType::I16 | MirType::I32 | MirType::I64 | MirType::U8 | MirType::U16
                    | MirType::U32 | MirType::U64 | MirType::I128 | MirType::U128 => t.duplicate(),
                    _ => MirType::I64,
                },
                None => MirType::I64,
            },
        };
        let widenable = match suffix {
            None | Some(IntSuffix::U64ByMagnitude) | Some(IntSuffix::I128ByMagnitude) => true,
            _ => false,
        };
        let ty = match node_ty {
            Some(MirType::I128) if widenable => MirType::I128,
            Some(MirType::U128) if widenable => MirType::U128,
            _ => base,
        };
        let wide = match ty {
            MirType::I128 | MirType::U128 => true,
            _ => false,
        };
        let k = if wide {
            MirConst::Int128(value)
        } else {
            MirConst::Int(value as i64)
        };
        (MirOperand::Constant(k), ty)
    }

    /// A name, against this function's bindings; see `ident_lowered`.
    fn lower_ident(&mut self, name: &String, node_ty: &Option<MirType>) -> (r: LoweredExpr)
        ensures
            ident_lowered(old(self).locals@, old(self).builder, final(self).builder, *name, *node_ty, r),
            final(self).ctx == old(self).ctx,
            final(self).locals == old(self).locals,
    {
        let i = match find_binding(&self.locals, name.as_str()) {
            Some(i) => i,
            None => {
                return Err(LoweringError::UnresolvedVariable(name.clone()));
            },
        };
        let id = self.locals[i].local;
        let ty = self.locals[i].ty.duplicate();
        let narrow = match node_ty {
            Some(n) => {
                let wrapped_result = match &ty {
                    MirType::Result { .. } => true,
                    _ => false,
                };
                let wrapped_option = match &ty {
                    MirType::Option(_) => true,
                    _ => false,
                };
                let n_result = match n {
                    MirType::Result { .. } => true,
                    _ => false,
                };
                let n_option = match n {
                    MirType::Option(_) => true,
                    _ => false,
                };
                (wrapped_result && !n_result) || (wrapped_option && !n_option)
            },
            None => false,
        };
        if narrow {
            let n = match node_ty {
                Some(n) => n.duplicate(),
                None => MirType::I64,
            };
            let n2 = n.duplicate();
            let t = self.builder.alloc_temp(n);
            self.builder.push_stmt(
                MirStmt::Assign {
                    dst: t,
                    rvalue: MirRValue::Field {
                        base: MirOperand::Local(id),
                        field_index: 0,
                        byte_offset: None,
                        access: FieldAccess::Word,
                    },
                },
            );
            Ok((MirOperand::Local(t), n2))
        } else {
            Ok((MirOperand::Local(id), ty))
        }
    }

    /// The MIR operator for `op`.
    fn lower_binop(op: BinaryOp) -> (r: BinOp)
        ensures
            r == mir_binop(op),
    {
        match op {
            BinaryOp::Add => BinOp::Add,
            BinaryOp::Sub => BinOp::Sub,
            BinaryOp::Mul => BinOp::Mul,
            BinaryOp::Div => BinOp::Div,
            BinaryOp::Mod => BinOp::Mod,
            BinaryOp::Eq => BinOp::Eq,
            BinaryOp::Ne => BinOp::Ne,
            BinaryOp::Lt => BinOp::Lt,
            BinaryOp::Le => BinOp::Le,
            BinaryOp::Gt => BinOp::Gt,
            BinaryOp::Ge => BinOp::Ge,
            BinaryOp::Shl => BinOp::Shl,
            BinaryOp::Shr => BinOp::Shr,
        }
    }

    /// `op operand` once the operand is lowered; see `unary_done`.
    pub fn finish_unary(&mut self, op: PrefixOp, operand: (MirOperand, MirType)) -> (r: (MirOperand, MirType))
        requires
            old(self).builder.wf(),
        ensures
            unary_done(old(self).builder, final(self).builder, op, operand, Ok(r)),
            final(self).builder.wf(),
            final(self).ctx == old(self).ctx,
            final(self).locals == old(self).locals,
    {
        let (rv, ty) = match op {
            PrefixOp::Ref => (
                match operand.0 {
                    MirOperand::Local(id) => MirRValue::Ref(id),
                    other => MirRValue::Use(other),
                },
                MirType::Ptr,
            ),
            PrefixOp::Not => (MirRValue::UnaryOp { op: UnaryOp::Not, operand: operand.0 }, MirType::Bool),
        };
        let t = self.builder.alloc_temp(ty.duplicate());
        self.builder.push_stmt(MirStmt::Assign { dst: t, rvalue: rv });
        (MirOperand::Local(t), ty)
    }

    /// `left op right` once both operands are lowered; see `binary_done`.
    pub fn finish_binary(&mut self, op: BinaryOp, left: (MirOperand, MirType), right: MirOperand) -> (r: (
        MirOperand,
        MirType,
    ))
        requires
            old(self).builder.wf(),
        ensures
            binary_done(old(self).builder, final(self).builder, op, left, right, Ok(r)),
            final(self).builder.wf(),
            final(self).ctx == old(self).ctx,
            final(self).locals == old(self).locals,
    {
        let is_cmp = match op {
            BinaryOp::Eq | BinaryOp::Ne | BinaryOp::Lt | BinaryOp::Le | BinaryOp::Gt | BinaryOp::Ge => true,
            _ => false,
        };
        let ty = if is_cmp {
            MirType::Bool
        } else {
            left.1
        };
        let t = self.builder.alloc_temp(ty.duplicate());
        let mop = Self::lower_binop(op);
        self.builder.push_stmt(
            MirStmt::Assign { dst: t, rvalue: MirRValue::BinaryOp { op: mop, left: left.0, right: right } },
        );
        (MirOperand::Local(t), ty)
    }

    /// A slice of `obj` once its receiver and bounds are lowered; see
    /// `slice_done`.
    pub fn finish_slice(
        &mut self,
        obj: MirOperand,
        is_string: bool,
        start: MirOperand,
        end: Option<MirOperand>,
        inclusive: bool,
    ) -> (r: (MirOperand, MirType))
        requires
            old(self).builder.wf(),
        ensures
            slice_done(old(self).builder, final(self).builder, obj, is_string, start, end, inclusive, Ok(r)),
            final(self).builder.wf(),
            final(self).ctx == old(self).ctx,
            final(self).locals == old(self).locals,
    {
        let ghost b0 = self.builder;
        let (cut, len_func) = if is_string {
            ("string_substr", "string_len")
        } else {
            ("Vec_slice", "Vec_len")
        };
        let ty = if is_string {
            MirType::String
        } else {
            MirType::Ptr
        };
        let end_op = match end {
            Some(e) => if inclusive {
                let bumped = self.builder.alloc_temp(MirType::I64);
                self.builder.push_stmt(
                    MirStmt::Assign {
                        dst: bumped,
                        rvalue: MirRValue::BinaryOp {
                            op: BinOp::Add,
                            left: e,
                            right: MirOperand::Constant(MirConst::Int(1)),
                        },
                    },
                );
                MirOperand::Local(bumped)
            } else {
                e
            },
            None => {
                let len = self.builder.alloc_temp(MirType::I64);
                let a = vec![obj.duplicate()];
                proof {
                    assert(a@ =~= seq![obj]);
                }
                self.builder.push_call(Some(len), len_func, a);
                MirOperand::Local(len)
            },
        };
        let ghost b1 = self.builder;
        let res = self.builder.alloc_temp(ty.duplicate());
        let args = vec![obj, start, end_op];
        self.builder.push_call(Some(res), cut, args);
        proof {
            let m = b0.stmts@.len() as int;
            assert(self.builder.stmts@.subrange(0, m) =~= b0.stmts@);
            assert(self.builder.stmts@.subrange(0, b1.stmts@.len() as int) == b1.stmts@);
            assert forall|i: int| m <= i < self.builder.stmts@.len() implies (#[trigger] self.builder.stmts@[i]).block
                == b0.current by {
                if i < b1.stmts@.len() {
                    assert(self.builder.stmts@[i] == b1.stmts@[i]);
                }
            }
            if end is Some && inclusive || end is None {
                assert(self.builder.stmts@[m] == b1.stmts@[m]);
            }
        }
        (MirOperand::Local(res), ty)
    }

    /// A `todo` (or `unreachable`) once its message argument, if any, is
    /// lowered to `arg`; see `panic_done`.
    pub fn finish_panic(&mut self, unreachable: bool, arg: Option<MirOperand>) -> (r: (MirOperand, MirType))
        requires
            old(self).builder.wf(),
        ensures
            panic_done(old(self).builder, final(self).builder, panic_message(unreachable, arg), Ok(r)),
            final(self).builder.wf(),
            final(self).ctx == old(self).ctx,
            final(self).locals == old(self).locals,
    {
        let prefix = if unreachable {
            "entered unreachable code"
        } else {
            "not yet implemented"
        };
        let msg = match &arg {
            Some(MirOperand::Constant(MirConst::String(text))) => {
                let head = crate::debug_fmt::joined(prefix, ": ");
                crate::debug_fmt::joined(head.as_str(), text.as_str())
            },
            _ => String::from_str(prefix),
        };
        let ghost gmsg = msg@;
        let t = self.builder.alloc_temp(MirType::I64);
        let args = vec![MirOperand::Constant(MirConst::String(msg))];
        let ghost before = self.builder.stmts@;
        self.builder.push_call(Some(t), "panic", args);
        proof {
            assert(self.builder.stmts@.drop_last() =~= before);
            assert(gmsg == panic_message(unreachable, arg));
        }
        self.builder.terminate(MirTerminator::Unreachable);
        let cont = self.builder.create_block();
        self.builder.switch_to_block(cont);
        (MirOperand::Local(t), MirType::I64)
    }

    /// Lower the expression `e`; see `expr_lowered`.
    pub fn lower_expr(&mut self, e: &Expr) -> (r: LoweredExpr)
        requires
            old(self).builder.wf(),
        ensures
            expr_lowered(old(self).locals@, old(self).builder, final(self).builder, *e, r),
            match r {
                Ok(_) => expr_error(old(self).locals@, *e) is None,
                Err(x) => expr_error(old(self).locals@, *e) == Some(x),
            },
            final(self).builder.wf(),
            final(self).builder.terms@.len() >= old(self).builder.terms@.len(),
            final(self).ctx == old(self).ctx,
            final(self).locals == old(self).locals,
        decreases e,
    {
        match &e.kind {
            ExprKind::Int { value, suffix, float_bits } => Ok(
                Self::lower_int_literal(*value, *suffix, *float_bits, &e.node_ty),
            ),
            ExprKind::Float { bits, is_f32 } => Ok(
                (MirOperand::Constant(MirConst::FloatBits(*bits)), if *is_f32 {
                    MirType::F32
                } else {
                    MirType::F64
                }),
            ),
            ExprKind::String(s) => Ok((MirOperand::Constant(MirConst::String(s.clone())), MirType::String)),
            ExprKind::Bool(b) => Ok((MirOperand::Constant(MirConst::Bool(*b)), MirType::Bool)),
            ExprKind::Null => Ok((MirOperand::Constant(MirConst::Int(0)), MirType::Ptr)),
            ExprKind::Unit => {
                let local = self.builder.alloc_temp(MirType::Void);
                Ok((MirOperand::Local(local), MirType::Void))
            },
            ExprKind::Ident(name) => self.lower_ident(name, &e.node_ty),
            ExprKind::Logical { is_and, left, right } => {
                let op = if *is_and {
                    BinOp::And
                } else {
                    BinOp::Or
                };
                let ghost locals = self.locals@;
                let ghost b0 = self.builder;
                let rl = self.lower_expr(left);
                let ghost b1 = self.builder;
                        match rl {
                    Err(x) => {
                        proof {
                            assert(expr_lowered(locals, b0, b1, **left, Err(x)));
                            assert(stage(b0, b1, Err(x)));
                        }
                        Err(x)
                    },
                    Ok(lv) => {
                        let ghost glv = lv;
                        proof {
                            assert(expr_lowered(locals, b0, b1, **left, Ok(glv)));
                            assert(stage(b0, b1, Ok(glv)));
                        }
                        let sc = self.lower_short_circuit(op, lv.0);
                        let ghost b2 = self.builder;
                        proof {
                            assert(sc_begun(b1, b2, op, glv.0, sc));
                        }
                        let rr = self.lower_expr(right);
                        let ghost b3 = self.builder;
                        match rr {
                            Err(x) => {
                                proof {
                                    assert(expr_lowered(locals, b2, b3, **right, Err(x)));
                                    assert(stage(b2, b3, Err(x)));
                                }
                                Err(x)
                            },
                            Ok(rv) => {
                                let ghost grv = rv;
                                let v = self.finish_short_circuit(sc, rv.0);
                                proof {
                                    assert(sc_done(b3, self.builder, sc, grv.0, v));
                                    assert(expr_lowered(locals, b2, b3, **right, Ok(grv)));
                                    assert(stage(b2, b3, Ok(grv)));
                                }
                                Ok(v)
                            },
                        }
                    },
                }
            },
            ExprKind::Range { start, end, inclusive } => {
                let ghost locals = self.locals@;
                let res = self.builder.alloc_temp(MirType::Ptr);
                let ghost b1 = self.builder;
                let mut args: Vec<MirOperand> = Vec::new();
                let rs = match start {
                    Some(s) => Some(self.lower_expr(s)),
                    None => None,
                };
                let ghost b2 = self.builder;
                let ghost grs = rs;
                proof {
                    assert(opt_lowered(locals, b1, b2, *start, grs));
                    assert(opt_stage(b1, b2, grs));
                }
                match rs {
                    Some(Err(x)) => {
                        return Err(x);
                    },
                    Some(Ok(v)) => {
                        args.push(v.0);
                    },
                    None => {},
                }
                let re = match end {
                    Some(x) => Some(self.lower_expr(x)),
                    None => None,
                };
                let ghost b3 = self.builder;
                let ghost gre = re;
                proof {
                    assert(opt_lowered(locals, b2, b3, *end, gre));
                    assert(opt_stage(b2, b3, gre));
                }
                match re {
                    Some(Err(x)) => {
                        return Err(x);
                    },
                    Some(Ok(v)) => {
                        args.push(v.0);
                    },
                    None => {},
                }
                proof {
                    assert(args@ =~= bound_ops(grs) + bound_ops(gre));
                }
                let func = if *inclusive {
                    "range_inclusive"
                } else {
                    "range"
                };
                let ghost before = self.builder.stmts@;
                self.builder.push_call(Some(res), func, args);
                proof {
                    assert(self.builder.stmts@.drop_last() =~= before);
                }
                Ok((MirOperand::Local(res), MirType::Ptr))
            },
            ExprKind::If { cond, then_branch, else_branch } => {
                let ghost locals = self.locals@;
                let ghost b0 = self.builder;
                let rc = self.lower_expr(cond);
                let ghost b1 = self.builder;
                match rc {
                    Err(x) => {
                        proof {
                            assert(expr_lowered(locals, b0, b1, **cond, Err(x)));
                            assert(stage(b0, b1, Err(x)));
                        }
                        Err(x)
                    },
                    Ok(cv) => {
                        let ghost gcv = cv;
                        proof {
                            assert(expr_lowered(locals, b0, b1, **cond, Ok(gcv)));
                            assert(stage(b0, b1, Ok(gcv)));
                        }
                        let blocks = self.lower_if(cv.0);
                        let ghost b2 = self.builder;
                        proof {
                            assert(if_begun(b1, b2, gcv.0, blocks));
                        }
                        let rt = self.lower_expr(then_branch);
                        let ghost b3 = self.builder;
                        match rt {
                            Err(x) => {
                                proof {
                                    assert(expr_lowered(locals, b2, b3, **then_branch, Err(x)));
                                    assert(stage(b2, b3, Err(x)));
                                }
                                Err(x)
                            },
                            Ok(tv) => {
                                let ghost gtv = tv;
                                let then_ty = tv.1.duplicate();
                                let res = self.lower_if_then(blocks, tv.0, tv.1);
                                let ghost b4 = self.builder;
                                proof {
                                    assert(if_then_done(b3, b4, blocks, gtv.0, gtv.1, res));
                                    assert(expr_lowered(locals, b2, b3, **then_branch, Ok(gtv)));
                                    assert(stage(b2, b3, Ok(gtv)));
                                }
                                match else_branch {
                                    Some(eb) => {
                                        let re = self.lower_expr(eb);
                                        let ghost b5 = self.builder;
                                        proof {
                                            assert(opt_lowered(locals, b4, b5, *else_branch, Some(re)));
                                            assert(opt_stage(b4, b5, Some(re)));
                                        }
                                        match re {
                                            Ok(ev) => {
                                                let ghost gev = ev;
                                                let v = self.finish_if(blocks, res, Some(ev.0), then_ty);
                                                proof {
                                                    assert(if_done(b5, self.builder, blocks, res, Some(gev.0), gtv.1, v));
                                                }
                                                Ok(v)
                                            },
                                            Err(x) => {
                                                proof {
                                                    assert(opt_lowered(locals, b4, b5, *else_branch, Some(Err(x))));
                                                    assert(opt_stage(b4, b5, Some(Err(x))));
                                                }
                                                Err(x)
                                            },
                                        }
                                    },
                                    None => {
                                        let ghost b5 = self.builder;
                                        proof {
                                            assert(opt_lowered(locals, b4, b5, *else_branch, None));
                                            assert(opt_stage(b4, b5, None));
                                        }
                                        let v = self.finish_if(blocks, res, None, then_ty);
                                        proof {
                                            assert(if_done(b5, self.builder, blocks, res, None, gtv.1, v));
                                        }
                                        Ok(v)
                                    },
                                }
                            },
                        }
                    },
                }
            },
            ExprKind::Unary { op, operand } => {
                let ghost b0 = self.builder;
                let ro = self.lower_expr(operand);
                let ghost b1 = self.builder;
                proof {
                    assert(stage(b0, b1, ro));
                }
                match ro {
                    Err(x) => Err(x),
                    Ok(ov) => Ok(self.finish_unary(*op, ov)),
                }
            },
            ExprKind::Binary { op, left, right } => {
                let ghost locals = self.locals@;
                let ghost b0 = self.builder;
                let rl = self.lower_expr(left);
                let ghost b1 = self.builder;
                proof {
                    assert(stage(b0, b1, rl));
                }
                match rl {
                    Err(x) => Err(x),
                    Ok(lv) => {
                        let rr = self.lower_expr(right);
                        let ghost b2 = self.builder;
                        proof {
                            assert(stage(b1, b2, rr));
                        }
                        match rr {
                            Err(x) => Err(x),
                            Ok(rv) => Ok(self.finish_binary(*op, lv, rv.0)),
                        }
                    },
                }
            },
            ExprKind::Slice { object, start, end, inclusive } => {
                let ghost locals = self.locals@;
                let ghost b0 = self.builder;
                let ro = self.lower_expr(object);
                let ghost b1 = self.builder;
                proof {
                    assert(stage(b0, b1, ro));
                }
                match ro {
                    Err(x) => Err(x),
                    Ok(ov) => {
                        let is_string = match &ov.1 {
                            MirType::String => true,
                            _ => match &object.node_ty {
                                Some(MirType::String) => true,
                                _ => false,
                            },
                        };
                        let rs = match start {
                            Some(x) => Some(self.lower_expr(x)),
                            None => None,
                        };
                        let ghost b2 = self.builder;
                        let ghost grs = rs;
                        proof {
                            assert(opt_lowered(locals, b1, b2, *start, grs));
                            assert(opt_stage(b1, b2, grs));
                        }
                        let start_op = match rs {
                            Some(Err(x)) => {
                                return Err(x);
                            },
                            Some(Ok(v)) => v.0,
                            None => MirOperand::Constant(MirConst::Int(0)),
                        };
                        let re = match end {
                            Some(x) => Some(self.lower_expr(x)),
                            None => None,
                        };
                        let ghost b3 = self.builder;
                        let ghost gre = re;
                        proof {
                            assert(opt_lowered(locals, b2, b3, *end, gre));
                            assert(opt_stage(b2, b3, gre));
                        }
                        let end_op = match re {
                            Some(Err(x)) => {
                                return Err(x);
                            },
                            Some(Ok(v)) => Some(v.0),
                            None => None,
                        };
                        proof {
                            assert(is_string == slice_is_string(ov.1, object.node_ty));
                        }
                        Ok(self.finish_slice(ov.0, is_string, start_op, end_op, *inclusive))
                    },
                }
            },
            ExprKind::Panic { unreachable, message } => {
                let ghost locals = self.locals@;
                let ghost b0 = self.builder;
                let rm = match message {
                    Some(x) => Some(self.lower_expr(x)),
                    None => None,
                };
                let ghost b1 = self.builder;
                let ghost grm = rm;
                proof {
                    assert(opt_lowered(locals, b0, b1, *message, grm));
                    assert(opt_stage(b0, b1, grm));
                }
                let arg = match rm {
                    Some(Err(x)) => {
                        return Err(x);
                    },
                    Some(Ok(v)) => Some(v.0),
                    None => None,
                };
                Ok(self.finish_panic(*unreachable, arg))
            },
        }
    }
}

} // verus!
