//! `v.sort_by_key(f)` in place: each key extracted once into a parallel
//! `keys` Vec, then an insertion sort over the keys that swaps the same
//! pair in both Vecs. Insertion sort only swaps a pair whose keys compare
//! strictly less, so elements with equal keys keep their order.

use vstd::prelude::*;
use crate::builder::{recorded, MirBuilder, StmtForm};
use crate::iterators::{assign_op, assign_use, int_op, local_op, slot_size_spec};
use crate::lowerer::MirLowerer;
use crate::mir::{size_fits, BinOp, BlockId, LocalId, MirConst, MirOperand, MirRValue, MirStmt, MirTerminator, MirType};

verus! {

/// The types of the temps a sort by key makes, in order: the Vec, its
/// length, the keys, the extraction index and its test, the element, its
/// key, the next extraction index, the outer index and its test, the inner
/// index, its test, its predecessor, the two keys compared, their
/// comparison, and the next outer index.
pub open spec fn sort_temps(obj_ty: MirType, elem_ty: MirType, key_ty: MirType) -> Seq<MirType> {
    seq![
        obj_ty,
        MirType::I64,
        MirType::I64,
        MirType::I64,
        MirType::Bool,
        elem_ty,
        key_ty,
        MirType::I64,
        MirType::I64,
        MirType::Bool,
        MirType::I64,
        MirType::Bool,
        MirType::I64,
        key_ty,
        key_ty,
        MirType::Bool,
        MirType::I64,
    ]
}

/// A call of the form `dst = func(args)`.
pub open spec fn call_form(dst: Option<LocalId>, func: Seq<char>, args: Seq<MirOperand>) -> StmtForm {
    StmtForm::CallTo { dst, func, args }
}

/// The statements a sort by key emits, with their blocks, for a builder
/// that had `n` locals and `b` blocks and stood in `c`.
pub open spec fn sort_forms(
    n: nat,
    b: nat,
    c: BlockId,
    obj_op: MirOperand,
    key_fn: Seq<char>,
    key_ty: MirType,
) -> Seq<(BlockId, StmtForm)> {
    let l = |k: nat| LocalId((n + k) as usize);
    let o = |k: nat| local_op(LocalId((n + k) as usize));
    let blk = |k: nat| BlockId((b + k) as usize);
    let less = if key_ty is String {
        call_form(Some(l(15)), "string_lt"@, seq![o(13), o(14)])
    } else {
        StmtForm::Exact(assign_op(l(15), BinOp::Lt, o(13), o(14)))
    };
    seq![
        (c, StmtForm::Exact(assign_use(l(0), obj_op))),
        (c, call_form(Some(l(1)), "Vec_len"@, seq![o(0)])),
        (c, call_form(Some(l(2)), "Vec_new"@, seq![int_op(slot_size_spec(key_ty) as i64)])),
        (c, StmtForm::Exact(assign_use(l(3), int_op(0)))),
        (blk(0), StmtForm::Exact(assign_op(l(4), BinOp::Lt, o(3), o(1)))),
        (blk(1), call_form(Some(l(5)), "Vec_get"@, seq![o(0), o(3)])),
        (blk(1), call_form(Some(l(6)), key_fn, seq![o(5)])),
        (blk(1), call_form(None, "Vec_push"@, seq![o(2), o(6)])),
        (blk(2), StmtForm::Exact(assign_op(l(7), BinOp::Add, o(3), int_op(1)))),
        (blk(2), StmtForm::Exact(assign_use(l(3), o(7)))),
        (blk(3), StmtForm::Exact(assign_use(l(8), int_op(1)))),
        (blk(4), StmtForm::Exact(assign_op(l(9), BinOp::Lt, o(8), o(1)))),
        (blk(5), StmtForm::Exact(assign_use(l(10), o(8)))),
        (blk(8), StmtForm::Exact(assign_op(l(11), BinOp::Gt, o(10), int_op(0)))),
        (blk(9), StmtForm::Exact(assign_op(l(12), BinOp::Sub, o(10), int_op(1)))),
        (blk(9), call_form(Some(l(13)), "Vec_get"@, seq![o(2), o(10)])),
        (blk(9), call_form(Some(l(14)), "Vec_get"@, seq![o(2), o(12)])),
        (blk(9), less),
        (blk(10), call_form(None, "Vec_swap"@, seq![o(0), o(10), o(12)])),
        (blk(10), call_form(None, "Vec_swap"@, seq![o(2), o(10), o(12)])),
        (blk(10), StmtForm::Exact(assign_use(l(10), o(12)))),
        (blk(6), StmtForm::Exact(assign_op(l(16), BinOp::Add, o(8), int_op(1)))),
        (blk(6), StmtForm::Exact(assign_use(l(8), o(16)))),
        (blk(7), call_form(None, "Vec_free"@, seq![o(2)])),
    ]
}

/// The terminators of the eleven blocks a sort by key makes, numbered from
/// `b`, for temps numbered from `n`: extraction check, body, increment and
/// done; outer check, body, increment and done (left open); inner check,
/// comparison and shift.
pub open spec fn sort_terms(n: nat, b: nat) -> Seq<Option<MirTerminator>> {
    let o = |k: nat| local_op(LocalId((n + k) as usize));
    let blk = |k: nat| BlockId((b + k) as usize);
    seq![
        Some(MirTerminator::Branch { cond: o(4), then_block: blk(1), else_block: blk(3) }),
        Some(MirTerminator::Goto { target: blk(2) }),
        Some(MirTerminator::Goto { target: blk(0) }),
        Some(MirTerminator::Goto { target: blk(4) }),
        Some(MirTerminator::Branch { cond: o(9), then_block: blk(5), else_block: blk(7) }),
        Some(MirTerminator::Goto { target: blk(8) }),
        Some(MirTerminator::Goto { target: blk(4) }),
        None,
        Some(MirTerminator::Branch { cond: o(11), then_block: blk(9), else_block: blk(6) }),
        Some(MirTerminator::Branch { cond: o(15), then_block: blk(10), else_block: blk(6) }),
        Some(MirTerminator::Goto { target: blk(8) }),
    ]
}

/// The element type of the Vec being sorted: the one recorded for it, or
/// `i64` when none was.
pub open spec fn sort_elem_ty(elem_ty: Option<MirType>) -> MirType {
    match elem_ty {
        Some(t) => t,
        None => MirType::I64,
    }
}

impl MirLowerer {
    /// `v.sort_by_key(f)` for the Vec `obj_op` of type `obj_ty`, whose
    /// elements have the recorded type `elem_ty` (`i64` when none), with the
    /// key function lifted into `key_fn`, giving keys of type `key_ty`. The
    /// builder gains exactly the temps `sort_temps`, the statements
    /// `sort_forms` and the blocks `sort_terms`, after the current block
    /// jumps to the first of them; it is left in the block after the sort.
    /// The answer is unit.
    pub fn lower_iter_sort_by_key(
        &mut self,
        obj_op: &MirOperand,
        obj_ty: &MirType,
        elem_ty: Option<&MirType>,
        key_fn: &str,
        key_ty: &MirType,
    ) -> (r: (MirOperand, MirType))
        requires
            old(self).builder.wf(),
            size_fits(*key_ty),
        ensures
            ({
                let ob = old(self).builder;
                let n = ob.locals@.len();
                let b = ob.terms@.len();
                let et = sort_elem_ty(match elem_ty {
                    Some(t) => Some(*t),
                    None => None,
                });
                &&& recorded(
                    ob,
                    final(self).builder,
                    sort_temps(*obj_ty, et, *key_ty),
                    sort_forms(n, b, ob.current, *obj_op, key_fn@, *key_ty),
                )
                &&& final(self).builder.terms@ == ob.terms@.update(
                    ob.current.0 as int,
                    Some(MirTerminator::Goto { target: BlockId(b as usize) }),
                ) + sort_terms(n, b)
                &&& final(self).builder.current == BlockId((b + 7) as usize)
            }),
            r == (MirOperand::Constant(MirConst::Int(0)), MirType::Void),
            final(self).builder.wf(),
            final(self).ctx == old(self).ctx,
            final(self).collected_elem_types@ == old(self).collected_elem_types@,
    {
        let ghost base = self.builder;
        let ghost n = base.locals@.len();
        let ghost b = base.terms@.len();
        let ghost c = base.current;
        let et = match elem_ty {
            Some(t) => t.duplicate(),
            None => MirType::I64,
        };
        proof {
            crate::builder::lemma_recorded_start(base);
        }
        let ghost mut temps: Seq<MirType> = Seq::empty();
        let ghost mut forms: Seq<(BlockId, StmtForm)> = Seq::empty();

        let vec_local = self.builder.temp_rec(Ghost(base), Ghost(temps), Ghost(forms), obj_ty.duplicate());
        proof { temps = temps.push(*obj_ty); }
        self.builder.stmt_rec(Ghost(base), Ghost(temps), Ghost(forms), MirStmt::Assign { dst: vec_local, rvalue: MirRValue::Use(obj_op.duplicate()) });
        proof { forms = forms.push((c, StmtForm::Exact(assign_use(vec_local, *obj_op)))); }
        let len = self.builder.temp_rec(Ghost(base), Ghost(temps), Ghost(forms), MirType::I64);
        proof { temps = temps.push(MirType::I64); }
        let args = vec![MirOperand::Local(vec_local)];
        let ghost av = args@;
        self.builder.call_rec(Ghost(base), Ghost(temps), Ghost(forms), Some(len), "Vec_len", args);
        proof { forms = forms.push((c, call_form(Some(len), "Vec_len"@, av))); assert(av =~= seq![local_op(vec_local)]); }
        let keys = self.builder.temp_rec(Ghost(base), Ghost(temps), Ghost(forms), MirType::I64);
        proof { temps = temps.push(MirType::I64); }
        let keys_new_pos = self.builder.next_stmt_pos();
        let args: Vec<MirOperand> = Vec::new();
        let ghost av = args@;
        self.builder.call_rec(Ghost(base), Ghost(temps), Ghost(forms), Some(keys), "Vec_new", args);
        proof { forms = forms.push((c, call_form(Some(keys), "Vec_new"@, av))); }
        let ex_idx = self.builder.temp_rec(Ghost(base), Ghost(temps), Ghost(forms), MirType::I64);
        proof { temps = temps.push(MirType::I64); }
        self.builder.stmt_rec(Ghost(base), Ghost(temps), Ghost(forms), MirStmt::Assign { dst: ex_idx, rvalue: MirRValue::Use(MirOperand::Constant(MirConst::Int(0))) });
        proof { forms = forms.push((c, StmtForm::Exact(assign_use(ex_idx, int_op(0))))); }

        let ex_check = self.builder.create_block();
        let ex_body = self.builder.create_block();
        let ex_inc = self.builder.create_block();
        let ex_done = self.builder.create_block();
        self.builder.terminate(MirTerminator::Goto { target: ex_check });
        proof { assert(recorded(base, self.builder, temps, forms)); }

        self.builder.switch_to_block(ex_check);
        let ex_cond = self.builder.temp_rec(Ghost(base), Ghost(temps), Ghost(forms), MirType::Bool);
        proof { temps = temps.push(MirType::Bool); }
        let st = MirStmt::Assign {
            dst: ex_cond,
            rvalue: MirRValue::BinaryOp { op: BinOp::Lt, left: MirOperand::Local(ex_idx), right: MirOperand::Local(len) },
        };
        self.builder.stmt_rec(Ghost(base), Ghost(temps), Ghost(forms), st);
        proof { forms = forms.push((ex_check, StmtForm::Exact(assign_op(ex_cond, BinOp::Lt, local_op(ex_idx), local_op(len))))); }
        self.builder.terminate(MirTerminator::Branch { cond: MirOperand::Local(ex_cond), then_block: ex_body, else_block: ex_done });

        self.builder.switch_to_block(ex_body);
        let elem = self.builder.temp_rec(Ghost(base), Ghost(temps), Ghost(forms), et.duplicate());
        proof { temps = temps.push(et); }
        let args = vec![MirOperand::Local(vec_local), MirOperand::Local(ex_idx)];
        let ghost av = args@;
        self.builder.call_rec(Ghost(base), Ghost(temps), Ghost(forms), Some(elem), "Vec_get", args);
        proof { forms = forms.push((ex_body, call_form(Some(elem), "Vec_get"@, av))); }
        let key = self.builder.temp_rec(Ghost(base), Ghost(temps), Ghost(forms), key_ty.duplicate());
        proof { temps = temps.push(*key_ty); }
        let args = vec![MirOperand::Local(elem)];
        let ghost av = args@;
        self.builder.call_rec(Ghost(base), Ghost(temps), Ghost(forms), Some(key), key_fn, args);
        proof { forms = forms.push((ex_body, call_form(Some(key), key_fn@, av))); assert(av =~= seq![local_op(elem)]); }
        let args = vec![MirOperand::Local(keys), MirOperand::Local(key)];
        let ghost av = args@;
        self.builder.call_rec(Ghost(base), Ghost(temps), Ghost(forms), None, "Vec_push", args);
        proof { forms = forms.push((ex_body, call_form(None, "Vec_push"@, av))); }
        self.builder.terminate(MirTerminator::Goto { target: ex_inc });

        self.builder.switch_to_block(ex_inc);
        let ex_next = self.builder.temp_rec(Ghost(base), Ghost(temps), Ghost(forms), MirType::I64);
        proof { temps = temps.push(MirType::I64); }
        let st = MirStmt::Assign {
            dst: ex_next,
            rvalue: MirRValue::BinaryOp { op: BinOp::Add, left: MirOperand::Local(ex_idx), right: MirOperand::Constant(MirConst::Int(1)) },
        };
        self.builder.stmt_rec(Ghost(base), Ghost(temps), Ghost(forms), st);
        proof { forms = forms.push((ex_inc, StmtForm::Exact(assign_op(ex_next, BinOp::Add, local_op(ex_idx), int_op(1))))); }
        self.builder.stmt_rec(Ghost(base), Ghost(temps), Ghost(forms), MirStmt::Assign { dst: ex_idx, rvalue: MirRValue::Use(MirOperand::Local(ex_next)) });
        proof { forms = forms.push((ex_inc, StmtForm::Exact(assign_use(ex_idx, local_op(ex_next))))); }
        self.builder.terminate(MirTerminator::Goto { target: ex_check });

        self.builder.switch_to_block(ex_done);
        let slot = Self::mir_slot_size(key_ty);
        let ghost before_set = self.builder;
        let ghost m = base.stmts@.len() as int;
        proof {
            assert(crate::builder::is_call(before_set.stmts@[m + 2].stmt, Some(keys), "Vec_new"@, Seq::empty()));
        }
        let args = vec![MirOperand::Constant(MirConst::Int(slot))];
        let ghost av = args@;
        self.builder.set_call_args(keys_new_pos, "Vec_new", args);
        proof {
            crate::builder::lemma_recorded_set(base, before_set, self.builder, temps, forms, 2, call_form(Some(keys), "Vec_new"@, av));
            forms = forms.update(2, (c, call_form(Some(keys), "Vec_new"@, av)));
            assert(av =~= seq![int_op(slot_size_spec(*key_ty) as i64)]);
            assert(keys == LocalId((n + 2) as usize));
        }

        let i = self.builder.temp_rec(Ghost(base), Ghost(temps), Ghost(forms), MirType::I64);
        proof { temps = temps.push(MirType::I64); }
        self.builder.stmt_rec(Ghost(base), Ghost(temps), Ghost(forms), MirStmt::Assign { dst: i, rvalue: MirRValue::Use(MirOperand::Constant(MirConst::Int(1))) });
        proof { forms = forms.push((ex_done, StmtForm::Exact(assign_use(i, int_op(1))))); }
        let i_check = self.builder.create_block();
        let i_body = self.builder.create_block();
        let i_inc = self.builder.create_block();
        let i_done = self.builder.create_block();
        self.builder.terminate(MirTerminator::Goto { target: i_check });

        self.builder.switch_to_block(i_check);
        let i_cond = self.builder.temp_rec(Ghost(base), Ghost(temps), Ghost(forms), MirType::Bool);
        proof { temps = temps.push(MirType::Bool); }
        let st = MirStmt::Assign {
            dst: i_cond,
            rvalue: MirRValue::BinaryOp { op: BinOp::Lt, left: MirOperand::Local(i), right: MirOperand::Local(len) },
        };
        self.builder.stmt_rec(Ghost(base), Ghost(temps), Ghost(forms), st);
        proof { forms = forms.push((i_check, StmtForm::Exact(assign_op(i_cond, BinOp::Lt, local_op(i), local_op(len))))); }
        self.builder.terminate(MirTerminator::Branch { cond: MirOperand::Local(i_cond), then_block: i_body, else_block: i_done });

        let j = self.builder.temp_rec(Ghost(base), Ghost(temps), Ghost(forms), MirType::I64);
        proof { temps = temps.push(MirType::I64); }
        self.builder.switch_to_block(i_body);
        self.builder.stmt_rec(Ghost(base), Ghost(temps), Ghost(forms), MirStmt::Assign { dst: j, rvalue: MirRValue::Use(MirOperand::Local(i)) });
        proof { forms = forms.push((i_body, StmtForm::Exact(assign_use(j, local_op(i))))); }
        let j_check = self.builder.create_block();
        let j_body = self.builder.create_block();
        let j_shift = self.builder.create_block();
        self.builder.terminate(MirTerminator::Goto { target: j_check });

        self.builder.switch_to_block(j_check);
        let j_positive = self.builder.temp_rec(Ghost(base), Ghost(temps), Ghost(forms), MirType::Bool);
        proof { temps = temps.push(MirType::Bool); }
        let st = MirStmt::Assign {
            dst: j_positive,
            rvalue: MirRValue::BinaryOp { op: BinOp::Gt, left: MirOperand::Local(j), right: MirOperand::Constant(MirConst::Int(0)) },
        };
        self.builder.stmt_rec(Ghost(base), Ghost(temps), Ghost(forms), st);
        proof { forms = forms.push((j_check, StmtForm::Exact(assign_op(j_positive, BinOp::Gt, local_op(j), int_op(0))))); }
        self.builder.terminate(MirTerminator::Branch { cond: MirOperand::Local(j_positive), then_block: j_body, else_block: i_inc });

        self.builder.switch_to_block(j_body);
        let j_prev = self.builder.temp_rec(Ghost(base), Ghost(temps), Ghost(forms), MirType::I64);
        proof { temps = temps.push(MirType::I64); }
        let st = MirStmt::Assign {
            dst: j_prev,
            rvalue: MirRValue::BinaryOp { op: BinOp::Sub, left: MirOperand::Local(j), right: MirOperand::Constant(MirConst::Int(1)) },
        };
        self.builder.stmt_rec(Ghost(base), Ghost(temps), Ghost(forms), st);
        proof { forms = forms.push((j_body, StmtForm::Exact(assign_op(j_prev, BinOp::Sub, local_op(j), int_op(1))))); }
        let key_j = self.builder.temp_rec(Ghost(base), Ghost(temps), Ghost(forms), key_ty.duplicate());
        proof { temps = temps.push(*key_ty); }
        let args = vec![MirOperand::Local(keys), MirOperand::Local(j)];
        let ghost av = args@;
        self.builder.call_rec(Ghost(base), Ghost(temps), Ghost(forms), Some(key_j), "Vec_get", args);
        proof { forms = forms.push((j_body, call_form(Some(key_j), "Vec_get"@, av))); }
        let key_prev = self.builder.temp_rec(Ghost(base), Ghost(temps), Ghost(forms), key_ty.duplicate());
        proof { temps = temps.push(*key_ty); }
        let args = vec![MirOperand::Local(keys), MirOperand::Local(j_prev)];
        let ghost av = args@;
        self.builder.call_rec(Ghost(base), Ghost(temps), Ghost(forms), Some(key_prev), "Vec_get", args);
        proof { forms = forms.push((j_body, call_form(Some(key_prev), "Vec_get"@, av))); }
        let ghost bk = self.builder;
        let less = self.emit_key_less(key_ty, key_j, key_prev);
        let ghost less_form = if *key_ty is String {
            call_form(Some(less), "string_lt"@, seq![local_op(key_j), local_op(key_prev)])
        } else {
            StmtForm::Exact(assign_op(less, BinOp::Lt, local_op(key_j), local_op(key_prev)))
        };
        proof {
            assert(self.builder.stmts@.subrange(0, bk.stmts@.len() as int) =~= self.builder.stmts@.drop_last());
            crate::builder::lemma_recorded_temp_stmt(base, bk, self.builder, temps, forms, MirType::Bool, j_body, less_form);
            temps = temps.push(MirType::Bool);
            forms = forms.push((j_body, less_form));
        }
        self.builder.terminate(MirTerminator::Branch { cond: MirOperand::Local(less), then_block: j_shift, else_block: i_inc });

        self.builder.switch_to_block(j_shift);
        let args = vec![MirOperand::Local(vec_local), MirOperand::Local(j), MirOperand::Local(j_prev)];
        let ghost av = args@;
        self.builder.call_rec(Ghost(base), Ghost(temps), Ghost(forms), None, "Vec_swap", args);
        proof { forms = forms.push((j_shift, call_form(None, "Vec_swap"@, av))); }
        let args = vec![MirOperand::Local(keys), MirOperand::Local(j), MirOperand::Local(j_prev)];
        let ghost av = args@;
        self.builder.call_rec(Ghost(base), Ghost(temps), Ghost(forms), None, "Vec_swap", args);
        proof { forms = forms.push((j_shift, call_form(None, "Vec_swap"@, av))); }
        self.builder.stmt_rec(Ghost(base), Ghost(temps), Ghost(forms), MirStmt::Assign { dst: j, rvalue: MirRValue::Use(MirOperand::Local(j_prev)) });
        proof { forms = forms.push((j_shift, StmtForm::Exact(assign_use(j, local_op(j_prev))))); }
        self.builder.terminate(MirTerminator::Goto { target: j_check });

        self.builder.switch_to_block(i_inc);
        let i_next = self.builder.temp_rec(Ghost(base), Ghost(temps), Ghost(forms), MirType::I64);
        proof { temps = temps.push(MirType::I64); }
        let st = MirStmt::Assign {
            dst: i_next,
            rvalue: MirRValue::BinaryOp { op: BinOp::Add, left: MirOperand::Local(i), right: MirOperand::Constant(MirConst::Int(1)) },
        };
        self.builder.stmt_rec(Ghost(base), Ghost(temps), Ghost(forms), st);
        proof { forms = forms.push((i_inc, StmtForm::Exact(assign_op(i_next, BinOp::Add, local_op(i), int_op(1))))); }
        self.builder.stmt_rec(Ghost(base), Ghost(temps), Ghost(forms), MirStmt::Assign { dst: i, rvalue: MirRValue::Use(MirOperand::Local(i_next)) });
        proof { forms = forms.push((i_inc, StmtForm::Exact(assign_use(i, local_op(i_next))))); }
        self.builder.terminate(MirTerminator::Goto { target: i_check });

        self.builder.switch_to_block(i_done);
        let args = vec![MirOperand::Local(keys)];
        let ghost av = args@;
        self.builder.call_rec(Ghost(base), Ghost(temps), Ghost(forms), None, "Vec_free", args);
        proof {
            forms = forms.push((i_done, call_form(None, "Vec_free"@, av)));
            assert(av =~= seq![local_op(keys)]);
            let et_s = sort_elem_ty(match elem_ty {
                Some(t) => Some(*t),
                None => None,
            });
            assert(et == et_s);
            assert(temps =~= sort_temps(*obj_ty, et_s, *key_ty));
            assert(forms =~= sort_forms(n, b, c, *obj_op, key_fn@, *key_ty));
            assert(self.builder.terms@ =~= base.terms@.update(c.0 as int, Some(MirTerminator::Goto { target: BlockId(b as usize) }))
                + sort_terms(n, b));
        }
        (MirOperand::Constant(MirConst::Int(0)), MirType::Void)
    }
}

} // verus!
