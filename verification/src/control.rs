//! `if` and the short-circuit operators `&&` and `||`.
//!
//! Both lower an operand, branch on it, and lower the rest of the
//! construct inside the blocks the branch leads to. The lowering of the
//! operands themselves belongs to the expression lowering around these
//! functions; so each construct is lowered in steps, with the operands
//! lowered between them in the block the previous step left current.

use vstd::prelude::*;
use crate::builder::{placed, temp_decl};
use crate::iterators::local_op;
use crate::lowerer::MirLowerer;
use crate::mir::{BinOp, BlockId, LocalId, MirConst, MirOperand, MirRValue, MirStmt, MirTerminator, MirType};

verus! {

/// An `&&` or `||` whose right operand is being lowered: the block that
/// lowers it, the block both sides meet in, and the temp holding the value.
#[derive(Clone, Copy, Debug, PartialEq, Eq, Structural)]
pub struct ShortCircuit {
    pub rhs_block: BlockId,
    pub merge_block: BlockId,
    pub result: LocalId,
}

/// The blocks of an `if`: one per branch, and the one they meet in.
#[derive(Clone, Copy, Debug, PartialEq, Eq, Structural)]
pub struct IfBlocks {
    pub then_block: BlockId,
    pub else_block: BlockId,
    pub merge_block: BlockId,
}

/// The value an `&&` takes when its left operand is false (0), and an `||`
/// when it is true (1).
pub open spec fn short_value(op: BinOp) -> i64 {
    if op == BinOp::And {
        0
    } else {
        1
    }
}

/// `dst = value`.
pub open spec fn assign_use(dst: LocalId, value: MirOperand) -> MirStmt {
    MirStmt::Assign { dst, rvalue: MirRValue::Use(value) }
}

impl MirLowerer {
    /// The first step of `left && right` or `left || right`, with the
    /// lowered left operand `left_op`: three new blocks, for the right
    /// operand, for the short way and for where they meet; the current
    /// block branches on `left_op` to the right operand's block when it is
    /// true for `&&` (false for `||`), else to the short block; a new `bool`
    /// temp; the short block sets it to false for `&&` (true for `||`) and
    /// goes to the meeting block. The builder is left in the right
    /// operand's block, where the right operand is lowered next.
    pub fn lower_short_circuit(&mut self, op: BinOp, left_op: MirOperand) -> (r: ShortCircuit)
        requires
            old(self).builder.wf(),
            op == BinOp::And || op == BinOp::Or,
        ensures
            ({
                let b = old(self).builder;
                let n = b.terms@.len();
                let rhs = BlockId(n as usize);
                let short = BlockId((n + 1) as usize);
                let merge = BlockId((n + 2) as usize);
                let res = LocalId(b.locals@.len() as usize);
                let branch = if op == BinOp::And {
                    MirTerminator::Branch { cond: left_op, then_block: rhs, else_block: short }
                } else {
                    MirTerminator::Branch { cond: left_op, then_block: short, else_block: rhs }
                };
                &&& r == ShortCircuit { rhs_block: rhs, merge_block: merge, result: res }
                &&& final(self).builder.locals@ == b.locals@.push(temp_decl(MirType::Bool))
                &&& final(self).builder.stmts@ == b.stmts@.push(
                    placed(short, assign_use(res, MirOperand::Constant(MirConst::Int(short_value(op))))),
                )
                &&& final(self).builder.terms@ == b.terms@.update(b.current.0 as int, Some(branch)) + seq![
                    None,
                    Some(MirTerminator::Goto { target: merge }),
                    None,
                ]
                &&& final(self).builder.current == rhs
            }),
            final(self).builder.wf(),
            final(self).ctx == old(self).ctx,
            final(self).meta == old(self).meta,
            final(self).locals == old(self).locals,
    {
        let ghost b = self.builder;
        let ghost lo = left_op;
        let rhs_block = self.builder.create_block();
        let short_block = self.builder.create_block();
        let merge_block = self.builder.create_block();
        let is_and = match op {
            BinOp::And => true,
            _ => false,
        };
        let (then_block, else_block) = if is_and {
            (rhs_block, short_block)
        } else {
            (short_block, rhs_block)
        };
        self.builder.terminate(MirTerminator::Branch { cond: left_op, then_block, else_block });
        let result = self.builder.alloc_temp(MirType::Bool);
        self.builder.switch_to_block(short_block);
        let short_val: i64 = if is_and {
            0
        } else {
            1
        };
        self.builder.push_stmt(
            MirStmt::Assign { dst: result, rvalue: MirRValue::Use(MirOperand::Constant(MirConst::Int(short_val))) },
        );
        self.builder.terminate(MirTerminator::Goto { target: merge_block });
        self.builder.switch_to_block(rhs_block);
        proof {
            let branch = if op == BinOp::And {
                MirTerminator::Branch { cond: lo, then_block: rhs_block, else_block: short_block }
            } else {
                MirTerminator::Branch { cond: lo, then_block: short_block, else_block: rhs_block }
            };
            assert(self.builder.terms@ =~= b.terms@.update(b.current.0 as int, Some(branch)) + seq![
                None,
                Some(MirTerminator::Goto { target: merge_block }),
                None,
            ]);
        }
        ShortCircuit { rhs_block, merge_block, result }
    }

    /// The last step of `&&` or `||` begun as `sc`, with the lowered right
    /// operand `right_op`: when the current block is still open, it sets
    /// the value temp to `right_op` and goes to the meeting block. The
    /// builder is left in the meeting block; the value is the temp, a
    /// `bool`.
    pub fn finish_short_circuit(&mut self, sc: ShortCircuit, right_op: MirOperand) -> (r: (MirOperand, MirType))
        requires
            old(self).builder.wf(),
            sc.merge_block.0 < old(self).builder.terms@.len(),
        ensures
            ({
                let b = old(self).builder;
                if b.terms@[b.current.0 as int] is None {
                    &&& final(self).builder.stmts@ == b.stmts@.push(
                        placed(b.current, assign_use(sc.result, right_op)),
                    )
                    &&& final(self).builder.terms@ == b.terms@.update(
                        b.current.0 as int,
                        Some(MirTerminator::Goto { target: sc.merge_block }),
                    )
                } else {
                    &&& final(self).builder.stmts@ == b.stmts@
                    &&& final(self).builder.terms@ == b.terms@
                }
            }),
            final(self).builder.locals@ == old(self).builder.locals@,
            final(self).builder.current == sc.merge_block,
            final(self).builder.wf(),
            r == (local_op(sc.result), MirType::Bool),
            final(self).ctx == old(self).ctx,
            final(self).meta == old(self).meta,
            final(self).locals == old(self).locals,
    {
        if self.builder.current_block_unterminated() {
            self.builder.push_stmt(MirStmt::Assign { dst: sc.result, rvalue: MirRValue::Use(right_op) });
            self.builder.terminate(MirTerminator::Goto { target: sc.merge_block });
        }
        self.builder.switch_to_block(sc.merge_block);
        (MirOperand::Local(sc.result), MirType::Bool)
    }

    /// The first step of `if cond { .. } else { .. }`, with the lowered
    /// condition `cond_op`: three new blocks, for each branch and for where
    /// they meet; the current block branches on `cond_op` to the first when
    /// it is true, else to the second. The builder is left in the then
    /// block, where the then branch is lowered next.
    pub fn lower_if(&mut self, cond_op: MirOperand) -> (r: IfBlocks)
        requires
            old(self).builder.wf(),
        ensures
            ({
                let b = old(self).builder;
                let n = b.terms@.len();
                let then_block = BlockId(n as usize);
                let else_block = BlockId((n + 1) as usize);
                let merge_block = BlockId((n + 2) as usize);
                &&& r == IfBlocks { then_block, else_block, merge_block }
                &&& final(self).builder.terms@ == b.terms@.update(
                    b.current.0 as int,
                    Some(MirTerminator::Branch { cond: cond_op, then_block, else_block }),
                ) + seq![None, None, None]
                &&& final(self).builder.locals@ == b.locals@
                &&& final(self).builder.stmts@ == b.stmts@
                &&& final(self).builder.current == then_block
            }),
            final(self).builder.wf(),
            final(self).ctx == old(self).ctx,
            final(self).meta == old(self).meta,
            final(self).locals == old(self).locals,
    {
        let ghost b = self.builder;
        let ghost co = cond_op;
        let then_block = self.builder.create_block();
        let else_block = self.builder.create_block();
        let merge_block = self.builder.create_block();
        self.builder.terminate(MirTerminator::Branch { cond: cond_op, then_block, else_block });
        self.builder.switch_to_block(then_block);
        proof {
            assert(self.builder.terms@ =~= b.terms@.update(
                b.current.0 as int,
                Some(MirTerminator::Branch { cond: co, then_block, else_block }),
            ) + seq![None, None, None]);
        }
        IfBlocks { then_block, else_block, merge_block }
    }

    /// The middle step of an `if` begun as `blocks`, with the then branch
    /// lowered to `then_val` of type `then_ty`: a new temp of that type for
    /// the `if`'s value; when the current block is still open (the branch
    /// did not return), it sets the temp to `then_val` and goes to the
    /// meeting block. The builder is left in the else block, where the else
    /// branch, if any, is lowered next.
    pub fn lower_if_then(&mut self, blocks: IfBlocks, then_val: MirOperand, then_ty: MirType) -> (r: LocalId)
        requires
            old(self).builder.wf(),
            blocks.else_block.0 < old(self).builder.terms@.len(),
            blocks.merge_block.0 < old(self).builder.terms@.len(),
        ensures
            ({
                let b = old(self).builder;
                &&& r == LocalId(b.locals@.len() as usize)
                &&& final(self).builder.locals@ == b.locals@.push(temp_decl(then_ty))
                &&& if b.terms@[b.current.0 as int] is None {
                    &&& final(self).builder.stmts@ == b.stmts@.push(placed(b.current, assign_use(r, then_val)))
                    &&& final(self).builder.terms@ == b.terms@.update(
                        b.current.0 as int,
                        Some(MirTerminator::Goto { target: blocks.merge_block }),
                    )
                } else {
                    &&& final(self).builder.stmts@ == b.stmts@
                    &&& final(self).builder.terms@ == b.terms@
                }
            }),
            final(self).builder.current == blocks.else_block,
            final(self).builder.wf(),
            final(self).ctx == old(self).ctx,
            final(self).meta == old(self).meta,
            final(self).locals == old(self).locals,
    {
        let result = self.builder.alloc_temp(then_ty);
        if self.builder.current_block_unterminated() {
            self.builder.push_stmt(MirStmt::Assign { dst: result, rvalue: MirRValue::Use(then_val) });
            self.builder.terminate(MirTerminator::Goto { target: blocks.merge_block });
        }
        self.builder.switch_to_block(blocks.else_block);
        result
    }

    /// The last step of an `if` begun as `blocks` with value temp `result`
    /// and then branch type `then_ty`, with the else branch lowered to
    /// `else_val` (nothing when there is no else branch): when the current
    /// block is still open, it sets the temp to `else_val`, if any, and goes
    /// to the meeting block. The builder is left in the meeting block; the
    /// value is the temp, of the then branch's type.
    pub fn finish_if(&mut self, blocks: IfBlocks, result: LocalId, else_val: Option<MirOperand>, then_ty: MirType) -> (r: (
        MirOperand,
        MirType,
    ))
        requires
            old(self).builder.wf(),
            blocks.merge_block.0 < old(self).builder.terms@.len(),
        ensures
            ({
                let b = old(self).builder;
                if b.terms@[b.current.0 as int] is None {
                    &&& final(self).builder.stmts@ == match else_val {
                        Some(v) => b.stmts@.push(placed(b.current, assign_use(result, v))),
                        None => b.stmts@,
                    }
                    &&& final(self).builder.terms@ == b.terms@.update(
                        b.current.0 as int,
                        Some(MirTerminator::Goto { target: blocks.merge_block }),
                    )
                } else {
                    &&& final(self).builder.stmts@ == b.stmts@
                    &&& final(self).builder.terms@ == b.terms@
                }
            }),
            final(self).builder.locals@ == old(self).builder.locals@,
            final(self).builder.current == blocks.merge_block,
            final(self).builder.wf(),
            r == (local_op(result), then_ty),
            final(self).ctx == old(self).ctx,
            final(self).meta == old(self).meta,
            final(self).locals == old(self).locals,
    {
        if let Some(v) = else_val {
            if self.builder.current_block_unterminated() {
                self.builder.push_stmt(MirStmt::Assign { dst: result, rvalue: MirRValue::Use(v) });
            }
        }
        if self.builder.current_block_unterminated() {
            self.builder.terminate(MirTerminator::Goto { target: blocks.merge_block });
        }
        self.builder.switch_to_block(blocks.merge_block);
        (MirOperand::Local(result), then_ty)
    }
}

} // verus!
