//! Terminals that thread a value through the fused loop: `fold`, `reduce`
//! and `flat_map`. Their closures come lifted into functions, named here,
//! which the loop body calls: the accumulator and the element for `fold`
//! and `reduce`, the element for `flat_map`.

use vstd::prelude::*;
use crate::builder::{
    lemma_recorded_start, recorded, temp_decl, MirBuilder, StmtForm,
};
use crate::iterators::{
    adapters_applied, adapters_fold, assign_op, assign_use, int_op, keyed_insert, lemma_filter_terms_len,
    lemma_setup_blocks, local_op, loop_finished, loop_setup_shape, slot_size_spec, temp_call, temp_then,
    IterChain, IterLoopSetup,
};
use crate::lowerer::{LoweringError, MirLowerer};
use crate::mir::{size_fits, BinOp, BlockId, LocalId, MirConst, MirOperand, MirRValue, MirStmt, MirTerminator, MirType};
use crate::search::bool_op;
use crate::sorting::call_form;

verus! {

/// `new` is `old` with one fold step in the current block: `t = func(acc,
/// value)` into a new temp of type `ty`, then `acc = t`, and a jump to a
/// new block, where the builder is left.
pub open spec fn fold_step(
    old: MirBuilder,
    new: MirBuilder,
    acc: LocalId,
    ty: MirType,
    func: Seq<char>,
    value: MirOperand,
) -> bool {
    let c = old.current;
    let t = LocalId(old.locals@.len() as usize);
    let after = BlockId(old.terms@.len() as usize);
    &&& recorded(
        old,
        new,
        seq![ty],
        seq![
            (c, call_form(Some(t), func, seq![local_op(acc), value])),
            (c, StmtForm::Exact(assign_use(acc, local_op(t)))),
        ],
    )
    &&& new.terms@ == old.terms@.update(c.0 as int, Some(MirTerminator::Goto { target: after })).push(None)
    &&& new.current == after
}

/// The phases of a `fold` loop, from `old` to `new`: the accumulator made
/// and given `init` (`b1`), the loop set up (`b2`, `s`), the adapters
/// applied (`b3`, giving `out`), one fold step on the element (`b4`), and
/// the loop closed.
pub open spec fn fold_call_phases(
    old: MirBuilder,
    b1: MirBuilder,
    b2: MirBuilder,
    s: IterLoopSetup,
    b3: MirBuilder,
    out: (MirOperand, MirType),
    b4: MirBuilder,
    new: MirBuilder,
    chain: IterChain,
    init: MirOperand,
    init_ty: MirType,
    func: Seq<char>,
) -> bool {
    let acc = LocalId(old.locals@.len() as usize);
    &&& temp_then(old, b1, init_ty, assign_use(acc, init))
    &&& loop_setup_shape(b1, b2, chain, s)
    &&& adapters_applied(b2, b3, chain, local_op(s.elem_local), s.elem_ty, s.inc_block, s.idx, out)
    &&& fold_step(b3, b4, acc, init_ty, func, out.0)
    &&& loop_finished(b4, new, s)
}


/// `new` is `old` with the step of a `reduce` on the element `value` of
/// type `ty`: the accumulator `acc` and the flag `have` made; a branch on
/// `have` to a combining block, or else to a seeding block; the seeding
/// block taking the element as the accumulator and setting `have`; the
/// combining block replacing the accumulator by `func(acc, value)` through
/// a new temp; both jumping to a third new block, where the builder is
/// left.
pub open spec fn reduce_step(old: MirBuilder, new: MirBuilder, ty: MirType, func: Seq<char>, value: MirOperand) -> bool {
    let n = old.locals@.len();
    let c = old.current;
    let acc = LocalId(n as usize);
    let have = LocalId((n + 1) as usize);
    let t = LocalId((n + 2) as usize);
    let b = old.terms@.len();
    let seed = BlockId(b as usize);
    let combine = BlockId((b + 1) as usize);
    let after = BlockId((b + 2) as usize);
    &&& recorded(
        old,
        new,
        seq![ty, MirType::Bool, ty],
        seq![
            (seed, StmtForm::Exact(assign_use(acc, value))),
            (seed, StmtForm::Exact(assign_use(have, bool_op(true)))),
            (combine, call_form(Some(t), func, seq![local_op(acc), value])),
            (combine, StmtForm::Exact(assign_use(acc, local_op(t)))),
        ],
    )
    &&& new.terms@ == old.terms@.update(
        c.0 as int,
        Some(MirTerminator::Branch { cond: local_op(have), then_block: combine, else_block: seed }),
    ) + seq![
        Some(MirTerminator::Goto { target: after }),
        Some(MirTerminator::Goto { target: after }),
        None,
    ]
    &&& new.current == after
}

/// `new` is `old` with the answer of a `reduce` built after the loop: a new
/// optional of `ty`, and a branch on `have` to a block storing tag 0 and
/// `acc`, or else to one storing tag 1; both jump to a third new block,
/// where the builder is left.
pub open spec fn reduce_wrapped(old: MirBuilder, new: MirBuilder, acc: LocalId, have: LocalId, ty: MirType) -> bool {
    let result = LocalId(old.locals@.len() as usize);
    let b = old.terms@.len();
    let some = BlockId(b as usize);
    let none = BlockId((b + 1) as usize);
    let done = BlockId((b + 2) as usize);
    &&& recorded(
        old,
        new,
        seq![MirType::Option(Box::new(ty))],
        seq![
            (some, StmtForm::Exact(MirStmt::Store { addr: result, offset: 0, value: int_op(0), store_size: None })),
            (some, StmtForm::Exact(MirStmt::Store { addr: result, offset: 8, value: local_op(acc), store_size: None })),
            (none, StmtForm::Exact(MirStmt::Store { addr: result, offset: 0, value: int_op(1), store_size: None })),
        ],
    )
    &&& new.terms@ == old.terms@.update(
        old.current.0 as int,
        Some(MirTerminator::Branch { cond: local_op(have), then_block: some, else_block: none }),
    ) + seq![Some(MirTerminator::Goto { target: done }), Some(MirTerminator::Goto { target: done }), None]
    &&& new.current == done
}

/// The phases of a `reduce` loop, from `old` to `new`, answering `r`: the
/// loop set up (`b1`, `s`), the adapters applied (`b2`, giving `out`), the
/// reduce step on the element (`b3`), the loop closed (`b4`), and the
/// optional answer built from the accumulator and the flag the step made.
pub open spec fn reduce_phases(
    old: MirBuilder,
    b1: MirBuilder,
    s: IterLoopSetup,
    b2: MirBuilder,
    out: (MirOperand, MirType),
    b3: MirBuilder,
    b4: MirBuilder,
    new: MirBuilder,
    chain: IterChain,
    func: Seq<char>,
    r: (MirOperand, MirType),
) -> bool {
    let acc = LocalId(b2.locals@.len() as usize);
    let have = LocalId((b2.locals@.len() + 1) as usize);
    &&& loop_setup_shape(old, b1, chain, s)
    &&& adapters_applied(b1, b2, chain, local_op(s.elem_local), s.elem_ty, s.inc_block, s.idx, out)
    &&& reduce_step(b2, b3, out.1, func, out.0)
    &&& loop_finished(b3, b4, s)
    &&& reduce_wrapped(b4, new, acc, have, out.1)
    &&& r == (local_op(LocalId(b4.locals@.len() as usize)), MirType::Option(Box::new(out.1)))
}

/// `new` is `old` with `.reduce` lowered over `chain` with the function
/// `func` (see `reduce_phases`), answering `r`.
pub open spec fn reduced(old: MirBuilder, new: MirBuilder, chain: IterChain, func: Seq<char>, r: (MirOperand, MirType)) -> bool {
    exists|b1: MirBuilder, s: IterLoopSetup, b2: MirBuilder, out: (MirOperand, MirType), b3: MirBuilder, b4: MirBuilder|
        #[trigger] reduce_phases(old, b1, s, b2, out, b3, b4, new, chain, func, r)
}

/// A closure argument lifted into a named function: the function's name,
/// how many parameters the closure was written with, the type it returns,
/// and, when it returns a collection, the element type recorded for that.
#[derive(Debug)]
pub struct LiftedClosure {
    pub func: String,
    pub n_params: usize,
    pub ret_ty: MirType,
    pub ret_elem_ty: Option<MirType>,
}

/// The type a collection's element has when none was recorded: `i64`.
pub open spec fn elem_or_i64(t: Option<MirType>) -> MirType {
    match t {
        Some(t) => t,
        None => MirType::I64,
    }
}

/// The spec counterpart of an optional type reference.
pub open spec fn opt_ty(t: Option<&MirType>) -> Option<MirType> {
    match t {
        Some(t) => Some(*t),
        None => None,
    }
}

/// `new` is `old` with the inner loop of a `flat_map` on the element
/// `value`: `func(value)` called into a new temp, that Vec copied into
/// another, its length read, an inner index at 0; a jump to a new check
/// block that tests the index against the length and goes on to a new body
/// block, or back to the outer loop's increment block `inc` when done; the
/// body reading the inner element (of type `sub_ty`) and pushing it onto
/// `v`, then jumping to a new increment block, which bumps the inner index
/// through a temp and jumps back to the check. The builder is left in the
/// inner increment block.
pub open spec fn flat_step(
    old: MirBuilder,
    new: MirBuilder,
    v: LocalId,
    value: MirOperand,
    func: Seq<char>,
    sub_ty: MirType,
    inc: BlockId,
) -> bool {
    let n = old.locals@.len();
    let c = old.current;
    let l = |k: nat| LocalId((n + k) as usize);
    let o = |k: nat| local_op(LocalId((n + k) as usize));
    let b = old.terms@.len();
    let check = BlockId(b as usize);
    let body = BlockId((b + 1) as usize);
    let step = BlockId((b + 2) as usize);
    &&& recorded(
        old,
        new,
        seq![MirType::I64, MirType::I64, MirType::I64, MirType::I64, MirType::Bool, sub_ty, MirType::I64],
        seq![
            (c, call_form(Some(l(0)), func, seq![value])),
            (c, StmtForm::Exact(assign_use(l(1), o(0)))),
            (c, call_form(Some(l(2)), "Vec_len"@, seq![o(1)])),
            (c, StmtForm::Exact(assign_use(l(3), int_op(0)))),
            (check, StmtForm::Exact(assign_op(l(4), BinOp::Lt, o(3), o(2)))),
            (body, call_form(Some(l(5)), "Vec_get"@, seq![o(1), o(3)])),
            (body, call_form(None, "Vec_push"@, seq![local_op(v), o(5)])),
            (step, StmtForm::Exact(assign_op(l(6), BinOp::Add, o(3), int_op(1)))),
            (step, StmtForm::Exact(assign_use(l(3), o(6)))),
        ],
    )
    &&& new.terms@ == old.terms@.update(c.0 as int, Some(MirTerminator::Goto { target: check })) + seq![
        Some(MirTerminator::Branch { cond: o(4), then_block: body, else_block: inc }),
        Some(MirTerminator::Goto { target: step }),
        Some(MirTerminator::Goto { target: check }),
    ]
    &&& new.current == step
}

/// `new` is `old` with the outer loop's increment block bumping the index
/// through a new temp and jumping back to the check, and the builder moved
/// to the exit block; the block the builder stood in is already closed.
pub open spec fn loop_closed_after(old: MirBuilder, new: MirBuilder, s: IterLoopSetup) -> bool {
    let t = LocalId(old.locals@.len() as usize);
    &&& new.locals@ == old.locals@.push(temp_decl(MirType::I64))
    &&& new.stmts@ == old.stmts@ + seq![
        crate::builder::placed(s.inc_block, assign_op(t, BinOp::Add, local_op(s.idx), int_op(1))),
        crate::builder::placed(s.inc_block, assign_use(s.idx, local_op(t))),
    ]
    &&& new.terms@ == old.terms@.update(s.inc_block.0 as int, Some(MirTerminator::Goto { target: s.check_block }))
    &&& new.current == s.exit_block
}

/// The phases of a `flat_map` loop, from `old` to `new`: the result Vec
/// made for elements of `sub_ty` (`b1`), the loop set up (`b2`, `s`), the
/// adapters applied (`b3`, giving `out`), the inner loop over what `func`
/// gives for the element (`b4`), and the outer loop closed. The result's
/// element type is recorded in the collected-types table, from `tbl` to
/// `new_tbl`.
pub open spec fn flat_map_phases(
    old: MirBuilder,
    b1: MirBuilder,
    b2: MirBuilder,
    s: IterLoopSetup,
    b3: MirBuilder,
    out: (MirOperand, MirType),
    b4: MirBuilder,
    new: MirBuilder,
    chain: IterChain,
    func: Seq<char>,
    sub_ty: MirType,
    tbl: Seq<(LocalId, MirType)>,
    new_tbl: Seq<(LocalId, MirType)>,
) -> bool {
    let v = LocalId(old.locals@.len() as usize);
    &&& temp_call(old, b1, v, "Vec_new"@, seq![int_op(slot_size_spec(sub_ty) as i64)])
    &&& loop_setup_shape(b1, b2, chain, s)
    &&& adapters_applied(b2, b3, chain, local_op(s.elem_local), s.elem_ty, s.inc_block, s.idx, out)
    &&& flat_step(b3, b4, v, out.0, func, sub_ty, s.inc_block)
    &&& loop_closed_after(b4, new, s)
    &&& new_tbl == keyed_insert(tbl, v, sub_ty)
}

impl MirLowerer {
    /// `.fold(init, f)` with `f` lifted into `func`: an accumulator of
    /// `init`'s type starting at `init`, replaced on every element by
    /// `func(acc, elem)`; the answer is the accumulator. See
    /// `fold_call_phases`.
    pub fn lower_iter_fold(&mut self, chain: &IterChain, init: &MirOperand, init_ty: &MirType, func: &str) -> (r: (
        MirOperand,
        MirType,
    ))
        requires
            old(self).builder.wf(),
            size_fits(chain.source_ty),
        ensures
            r == (local_op(LocalId(old(self).builder.locals@.len() as usize)), *init_ty),
            exists|b1: MirBuilder, b2: MirBuilder, s: IterLoopSetup, b3: MirBuilder, out: (MirOperand, MirType), b4: MirBuilder|
                #[trigger] fold_call_phases(
                    old(self).builder,
                    b1,
                    b2,
                    s,
                    b3,
                    out,
                    b4,
                    final(self).builder,
                    *chain,
                    *init,
                    *init_ty,
                    func@,
                ),
            final(self).builder.wf(),
            final(self).ctx == old(self).ctx,
            final(self).collected_elem_types@ == old(self).collected_elem_types@,
    {
        let acc = self.builder.alloc_temp(init_ty.duplicate());
        self.builder.push_stmt(MirStmt::Assign { dst: acc, rvalue: MirRValue::Use(init.duplicate()) });
        let ghost b1 = self.builder;
        let setup = self.setup_iter_chain_loop(chain);
        let ghost b2 = self.builder;
        proof {
            lemma_setup_blocks(b1, b2, *chain, setup);
        }
        let (final_op, final_ty) = self.apply_iter_adapters(
            chain,
            MirOperand::Local(setup.elem_local),
            setup.elem_ty.duplicate(),
            setup.inc_block,
            setup.idx,
        );
        let ghost b3 = self.builder;
        let ghost out = (final_op, final_ty);
        proof {
            lemma_filter_terms_len(b2.terms@, b3.terms@, adapters_fold(
                chain.adapters@,
                chain.adapters@.len() as int,
                local_op(setup.elem_local),
                setup.elem_ty,
                setup.idx,
                b2.locals@.len(),
                b2.terms@.len(),
                b2.current,
            ).4, b2.current, setup.inc_block);
            lemma_recorded_start(b3);
        }
        let ghost no_temps: Seq<MirType> = Seq::empty();
        let ghost no_forms: Seq<(BlockId, StmtForm)> = Seq::empty();
        let ghost one_temp = seq![*init_ty];
        let t = self.builder.temp_rec(Ghost(b3), Ghost(no_temps), Ghost(no_forms), init_ty.duplicate());
        let args = vec![MirOperand::Local(acc), final_op];
        let ghost av = args@;
        proof {
            assert(no_temps.push(*init_ty) =~= one_temp);
        }
        self.builder.call_rec(Ghost(b3), Ghost(one_temp), Ghost(no_forms), Some(t), func, args);
        let ghost f0 = seq![(b3.current, call_form(Some(t), func@, av))];
        proof {
            assert(av =~= seq![local_op(acc), out.0]);
            assert(no_forms.push((b3.current, call_form(Some(t), func@, av))) =~= f0);
        }
        self.builder.stmt_rec(
            Ghost(b3),
            Ghost(one_temp),
            Ghost(f0),
            MirStmt::Assign { dst: acc, rvalue: MirRValue::Use(MirOperand::Local(t)) },
        );
        let after = self.builder.create_block();
        self.builder.terminate(MirTerminator::Goto { target: after });
        self.builder.switch_to_block(after);
        let ghost b4 = self.builder;
        proof {
            assert(b4.terms@ =~= b3.terms@.update(b3.current.0 as int, Some(MirTerminator::Goto { target: after })).push(None));
            assert(fold_step(b3, b4, acc, *init_ty, func@, out.0));
        }
        self.finish_iter_loop(&setup);
        proof {
            assert(temp_then(old(self).builder, b1, *init_ty, assign_use(acc, *init)));
            assert(fold_call_phases(old(self).builder, b1, b2, setup, b3, out, b4, self.builder, *chain, *init, *init_ty, func@));
        }
        (MirOperand::Local(acc), init_ty.duplicate())
    }

    /// `.reduce(f)` with the closure `f` given as `closure`: an error,
    /// with nothing emitted, when the argument is not a closure or the
    /// closure does not take two parameters. Otherwise `fold` seeded with
    /// the first element the adapters yield, with the closure lifted into
    /// its function, so the answer is an optional of the element's type,
    /// present when the loop ran at least once. See `reduce_phases`.
    pub fn lower_iter_reduce(&mut self, chain: &IterChain, closure: Option<&LiftedClosure>) -> (r: Result<
        (MirOperand, MirType),
        LoweringError,
    >)
        requires
            old(self).builder.wf(),
            size_fits(chain.source_ty),
        ensures
            match closure {
                None => {
                    &&& r matches Err(LoweringError::InvalidConstruct(m))
                    &&& m@ == "reduce takes a closure"@
                    &&& final(self).builder == old(self).builder
                },
                Some(c) => if c.n_params != 2 {
                    &&& r matches Err(LoweringError::InvalidConstruct(m))
                    &&& m@ == "reduce's closure takes two parameters"@
                    &&& final(self).builder == old(self).builder
                } else {
                    r matches Ok(v) && reduced(old(self).builder, final(self).builder, *chain, c.func@, v)
                },
            },
            final(self).builder.wf(),
            final(self).ctx == old(self).ctx,
            final(self).collected_elem_types@ == old(self).collected_elem_types@,
    {
        let c = match closure {
            Some(c) => c,
            None => {
                return Err(LoweringError::InvalidConstruct(String::from_str("reduce takes a closure")));
            },
        };
        if c.n_params != 2 {
            return Err(LoweringError::InvalidConstruct(String::from_str("reduce's closure takes two parameters")));
        }
        Ok(self.reduce_with(chain, c.func.as_str()))
    }

    /// `.reduce` over `chain` with the closure lifted into `func`; see
    /// `lower_iter_reduce`.
    pub(crate) fn reduce_with(&mut self, chain: &IterChain, func: &str) -> (r: (MirOperand, MirType))
        requires
            old(self).builder.wf(),
            size_fits(chain.source_ty),
        ensures
            reduced(old(self).builder, final(self).builder, *chain, func@, r),
            final(self).builder.wf(),
            final(self).ctx == old(self).ctx,
            final(self).collected_elem_types@ == old(self).collected_elem_types@,
    {
        let setup = self.setup_iter_chain_loop(chain);
        let ghost b1 = self.builder;
        proof {
            lemma_setup_blocks(old(self).builder, b1, *chain, setup);
        }
        let (final_op, final_ty) = self.apply_iter_adapters(
            chain,
            MirOperand::Local(setup.elem_local),
            setup.elem_ty.duplicate(),
            setup.inc_block,
            setup.idx,
        );
        let ghost b2 = self.builder;
        let ghost out = (final_op, final_ty);
        proof {
            lemma_filter_terms_len(b1.terms@, b2.terms@, adapters_fold(
                chain.adapters@,
                chain.adapters@.len() as int,
                local_op(setup.elem_local),
                setup.elem_ty,
                setup.idx,
                b1.locals@.len(),
                b1.terms@.len(),
                b1.current,
            ).4, b1.current, setup.inc_block);
            lemma_recorded_start(b2);
        }
        let ghost mut temps: Seq<MirType> = Seq::empty();
        let ghost mut forms: Seq<(BlockId, StmtForm)> = Seq::empty();
        let acc = self.builder.temp_rec(Ghost(b2), Ghost(temps), Ghost(forms), final_ty.duplicate());
        proof { temps = temps.push(final_ty); }
        let have = self.builder.temp_rec(Ghost(b2), Ghost(temps), Ghost(forms), MirType::Bool);
        proof { temps = temps.push(MirType::Bool); }
        let seed = self.builder.create_block();
        let combine = self.builder.create_block();
        let after = self.builder.create_block();
        self.builder.terminate(MirTerminator::Branch { cond: MirOperand::Local(have), then_block: combine, else_block: seed });

        self.builder.switch_to_block(seed);
        self.builder.stmt_rec(Ghost(b2), Ghost(temps), Ghost(forms), MirStmt::Assign { dst: acc, rvalue: MirRValue::Use(final_op.duplicate()) });
        proof { forms = forms.push((seed, StmtForm::Exact(assign_use(acc, out.0)))); }
        self.builder.stmt_rec(
            Ghost(b2),
            Ghost(temps),
            Ghost(forms),
            MirStmt::Assign { dst: have, rvalue: MirRValue::Use(MirOperand::Constant(MirConst::Bool(true))) },
        );
        proof { forms = forms.push((seed, StmtForm::Exact(assign_use(have, bool_op(true))))); }
        self.builder.terminate(MirTerminator::Goto { target: after });

        self.builder.switch_to_block(combine);
        let t = self.builder.temp_rec(Ghost(b2), Ghost(temps), Ghost(forms), final_ty.duplicate());
        proof { temps = temps.push(final_ty); }
        let args = vec![MirOperand::Local(acc), final_op.duplicate()];
        let ghost av = args@;
        self.builder.call_rec(Ghost(b2), Ghost(temps), Ghost(forms), Some(t), func, args);
        proof { forms = forms.push((combine, call_form(Some(t), func@, av))); }
        self.builder.stmt_rec(Ghost(b2), Ghost(temps), Ghost(forms), MirStmt::Assign { dst: acc, rvalue: MirRValue::Use(MirOperand::Local(t)) });
        proof { forms = forms.push((combine, StmtForm::Exact(assign_use(acc, local_op(t))))); }
        self.builder.terminate(MirTerminator::Goto { target: after });
        self.builder.switch_to_block(after);
        let ghost b3 = self.builder;
        proof {
            assert(av =~= seq![local_op(acc), out.0]);
            assert(b3.terms@ =~= b2.terms@.update(
                b2.current.0 as int,
                Some(MirTerminator::Branch { cond: local_op(have), then_block: combine, else_block: seed }),
            ) + seq![
                Some(MirTerminator::Goto { target: after }),
                Some(MirTerminator::Goto { target: after }),
                None,
            ]);
            assert(temps =~= seq![final_ty, MirType::Bool, final_ty]);
            assert(reduce_step(b2, b3, final_ty, func@, out.0));
        }
        self.finish_iter_loop(&setup);
        let ghost b4 = self.builder;
        proof {
            lemma_recorded_start(b4);
        }
        let ghost no_forms: Seq<(BlockId, StmtForm)> = Seq::empty();
        let ghost one_temp = seq![MirType::Option(Box::new(final_ty))];
        let opt_ty = MirType::Option(Box::new(final_ty.duplicate()));
        let result = self.builder.temp_rec(Ghost(b4), Ghost(Seq::<MirType>::empty()), Ghost(no_forms), opt_ty.duplicate());
        proof {
            assert(Seq::<MirType>::empty().push(MirType::Option(Box::new(final_ty))) =~= one_temp);
        }
        let some_block = self.builder.create_block();
        let none_block = self.builder.create_block();
        let done_block = self.builder.create_block();
        self.builder.terminate(MirTerminator::Branch { cond: MirOperand::Local(have), then_block: some_block, else_block: none_block });
        self.builder.switch_to_block(some_block);
        let ghost mut wf: Seq<(BlockId, StmtForm)> = Seq::empty();
        self.builder.stmt_rec(
            Ghost(b4),
            Ghost(one_temp),
            Ghost(wf),
            MirStmt::Store { addr: result, offset: 0, value: MirOperand::Constant(MirConst::Int(0)), store_size: None },
        );
        proof { wf = wf.push((some_block, StmtForm::Exact(MirStmt::Store { addr: result, offset: 0, value: int_op(0), store_size: None }))); }
        self.builder.stmt_rec(
            Ghost(b4),
            Ghost(one_temp),
            Ghost(wf),
            MirStmt::Store { addr: result, offset: 8, value: MirOperand::Local(acc), store_size: None },
        );
        proof { wf = wf.push((some_block, StmtForm::Exact(MirStmt::Store { addr: result, offset: 8, value: local_op(acc), store_size: None }))); }
        self.builder.terminate(MirTerminator::Goto { target: done_block });
        self.builder.switch_to_block(none_block);
        self.builder.stmt_rec(
            Ghost(b4),
            Ghost(one_temp),
            Ghost(wf),
            MirStmt::Store { addr: result, offset: 0, value: MirOperand::Constant(MirConst::Int(1)), store_size: None },
        );
        proof { wf = wf.push((none_block, StmtForm::Exact(MirStmt::Store { addr: result, offset: 0, value: int_op(1), store_size: None }))); }
        self.builder.terminate(MirTerminator::Goto { target: done_block });
        self.builder.switch_to_block(done_block);
        let r = (MirOperand::Local(result), opt_ty);
        proof {
            assert(self.builder.terms@ =~= b4.terms@.update(
                b4.current.0 as int,
                Some(MirTerminator::Branch { cond: local_op(have), then_block: some_block, else_block: none_block }),
            ) + seq![Some(MirTerminator::Goto { target: done_block }), Some(MirTerminator::Goto { target: done_block }), None]);
            assert(reduce_wrapped(b4, self.builder, acc, have, final_ty));
            assert(reduce_phases(old(self).builder, b1, setup, b2, out, b3, b4, self.builder, *chain, func@, r));
        }
        r
    }

    /// `.flat_map(f)` with `f` lifted into `func`, whose Vecs hold elements
    /// of the recorded type `sub_elem_ty` (`i64` when none): a Vec of every
    /// element of every Vec `func` gives for the elements the adapters
    /// yield, in order. The result's element type is recorded for it. See
    /// `flat_map_phases`.
    pub fn lower_iter_flat_map(&mut self, chain: &IterChain, func: &str, sub_elem_ty: Option<&MirType>) -> (r: (
        MirOperand,
        MirType,
    ))
        requires
            old(self).builder.wf(),
            size_fits(chain.source_ty),
            size_fits(elem_or_i64(opt_ty(sub_elem_ty))),
        ensures
            r == (local_op(LocalId(old(self).builder.locals@.len() as usize)), MirType::I64),
            exists|b1: MirBuilder, b2: MirBuilder, s: IterLoopSetup, b3: MirBuilder, out: (MirOperand, MirType), b4: MirBuilder|
                #[trigger] flat_map_phases(
                    old(self).builder,
                    b1,
                    b2,
                    s,
                    b3,
                    out,
                    b4,
                    final(self).builder,
                    *chain,
                    func@,
                    elem_or_i64(opt_ty(sub_elem_ty)),
                    old(self).collected_elem_types@,
                    final(self).collected_elem_types@,
                ),
            final(self).builder.wf(),
            final(self).ctx == old(self).ctx,
    {
        let sub_ty = match sub_elem_ty {
            Some(t) => t.duplicate(),
            None => MirType::I64,
        };
        let result_vec = self.builder.alloc_temp(MirType::I64);
        let slot = Self::mir_slot_size(&sub_ty);
        let ghost b0 = self.builder;
        let args = vec![MirOperand::Constant(MirConst::Int(slot))];
        let ghost av0 = args@;
        self.builder.push_call(Some(result_vec), "Vec_new", args);
        let ghost b1 = self.builder;
        proof {
            assert(av0 =~= seq![int_op(slot_size_spec(sub_ty) as i64)]);
            assert(b1.stmts@.subrange(0, b0.stmts@.len() as int) == b0.stmts@);
        }
        let setup = self.setup_iter_chain_loop(chain);
        let ghost b2 = self.builder;
        proof {
            lemma_setup_blocks(b1, b2, *chain, setup);
        }
        let (final_op, final_ty) = self.apply_iter_adapters(
            chain,
            MirOperand::Local(setup.elem_local),
            setup.elem_ty.duplicate(),
            setup.inc_block,
            setup.idx,
        );
        let ghost b3 = self.builder;
        let ghost out = (final_op, final_ty);
        proof {
            lemma_filter_terms_len(b2.terms@, b3.terms@, adapters_fold(
                chain.adapters@,
                chain.adapters@.len() as int,
                local_op(setup.elem_local),
                setup.elem_ty,
                setup.idx,
                b2.locals@.len(),
                b2.terms@.len(),
                b2.current,
            ).4, b2.current, setup.inc_block);
            lemma_recorded_start(b3);
        }
        let ghost c = b3.current;
        let ghost mut temps: Seq<MirType> = Seq::empty();
        let ghost mut forms: Seq<(BlockId, StmtForm)> = Seq::empty();
        let got = self.builder.temp_rec(Ghost(b3), Ghost(temps), Ghost(forms), MirType::I64);
        proof { temps = temps.push(MirType::I64); }
        let args = vec![final_op];
        let ghost av = args@;
        self.builder.call_rec(Ghost(b3), Ghost(temps), Ghost(forms), Some(got), func, args);
        proof { forms = forms.push((c, call_form(Some(got), func@, av))); assert(av =~= seq![out.0]); }
        let sub_vec = self.builder.temp_rec(Ghost(b3), Ghost(temps), Ghost(forms), MirType::I64);
        proof { temps = temps.push(MirType::I64); }
        self.builder.stmt_rec(Ghost(b3), Ghost(temps), Ghost(forms), MirStmt::Assign { dst: sub_vec, rvalue: MirRValue::Use(MirOperand::Local(got)) });
        proof { forms = forms.push((c, StmtForm::Exact(assign_use(sub_vec, local_op(got))))); }
        let sub_len = self.builder.temp_rec(Ghost(b3), Ghost(temps), Ghost(forms), MirType::I64);
        proof { temps = temps.push(MirType::I64); }
        let args = vec![MirOperand::Local(sub_vec)];
        let ghost av = args@;
        self.builder.call_rec(Ghost(b3), Ghost(temps), Ghost(forms), Some(sub_len), "Vec_len", args);
        proof { forms = forms.push((c, call_form(Some(sub_len), "Vec_len"@, av))); assert(av =~= seq![local_op(sub_vec)]); }
        let sub_idx = self.builder.temp_rec(Ghost(b3), Ghost(temps), Ghost(forms), MirType::I64);
        proof { temps = temps.push(MirType::I64); }
        self.builder.stmt_rec(
            Ghost(b3),
            Ghost(temps),
            Ghost(forms),
            MirStmt::Assign { dst: sub_idx, rvalue: MirRValue::Use(MirOperand::Constant(MirConst::Int(0))) },
        );
        proof { forms = forms.push((c, StmtForm::Exact(assign_use(sub_idx, int_op(0))))); }
        let sub_check = self.builder.create_block();
        let sub_body = self.builder.create_block();
        let sub_inc = self.builder.create_block();
        self.builder.terminate(MirTerminator::Goto { target: sub_check });

        self.builder.switch_to_block(sub_check);
        let sub_cond = self.builder.temp_rec(Ghost(b3), Ghost(temps), Ghost(forms), MirType::Bool);
        proof { temps = temps.push(MirType::Bool); }
        let st = MirStmt::Assign {
            dst: sub_cond,
            rvalue: MirRValue::BinaryOp { op: BinOp::Lt, left: MirOperand::Local(sub_idx), right: MirOperand::Local(sub_len) },
        };
        self.builder.stmt_rec(Ghost(b3), Ghost(temps), Ghost(forms), st);
        proof { forms = forms.push((sub_check, StmtForm::Exact(assign_op(sub_cond, BinOp::Lt, local_op(sub_idx), local_op(sub_len))))); }
        self.builder.terminate(MirTerminator::Branch { cond: MirOperand::Local(sub_cond), then_block: sub_body, else_block: setup.inc_block });

        self.builder.switch_to_block(sub_body);
        let sub_elem = self.builder.temp_rec(Ghost(b3), Ghost(temps), Ghost(forms), sub_ty.duplicate());
        proof { temps = temps.push(sub_ty); }
        let args = vec![MirOperand::Local(sub_vec), MirOperand::Local(sub_idx)];
        let ghost av = args@;
        self.builder.call_rec(Ghost(b3), Ghost(temps), Ghost(forms), Some(sub_elem), "Vec_get", args);
        proof { forms = forms.push((sub_body, call_form(Some(sub_elem), "Vec_get"@, av))); }
        let args = vec![MirOperand::Local(result_vec), MirOperand::Local(sub_elem)];
        let ghost av = args@;
        self.builder.call_rec(Ghost(b3), Ghost(temps), Ghost(forms), None, "Vec_push", args);
        proof { forms = forms.push((sub_body, call_form(None, "Vec_push"@, av))); }
        self.builder.terminate(MirTerminator::Goto { target: sub_inc });

        self.builder.switch_to_block(sub_inc);
        let sub_next = self.builder.temp_rec(Ghost(b3), Ghost(temps), Ghost(forms), MirType::I64);
        proof { temps = temps.push(MirType::I64); }
        let st = MirStmt::Assign {
            dst: sub_next,
            rvalue: MirRValue::BinaryOp { op: BinOp::Add, left: MirOperand::Local(sub_idx), right: MirOperand::Constant(MirConst::Int(1)) },
        };
        self.builder.stmt_rec(Ghost(b3), Ghost(temps), Ghost(forms), st);
        proof { forms = forms.push((sub_inc, StmtForm::Exact(assign_op(sub_next, BinOp::Add, local_op(sub_idx), int_op(1))))); }
        self.builder.stmt_rec(Ghost(b3), Ghost(temps), Ghost(forms), MirStmt::Assign { dst: sub_idx, rvalue: MirRValue::Use(MirOperand::Local(sub_next)) });
        proof { forms = forms.push((sub_inc, StmtForm::Exact(assign_use(sub_idx, local_op(sub_next))))); }
        self.builder.terminate(MirTerminator::Goto { target: sub_check });
        let ghost b4 = self.builder;
        proof {
            assert(temps =~= seq![MirType::I64, MirType::I64, MirType::I64, MirType::I64, MirType::Bool, sub_ty, MirType::I64]);
            assert(b4.terms@ =~= b3.terms@.update(c.0 as int, Some(MirTerminator::Goto { target: sub_check })) + seq![
                Some(MirTerminator::Branch { cond: local_op(sub_cond), then_block: sub_body, else_block: setup.inc_block }),
                Some(MirTerminator::Goto { target: sub_inc }),
                Some(MirTerminator::Goto { target: sub_check }),
            ]);
            assert(flat_step(b3, b4, result_vec, out.0, func@, sub_ty, setup.inc_block));
        }
        self.emit_iter_increment(setup.idx, setup.inc_block, setup.check_block);
        self.builder.switch_to_block(setup.exit_block);
        self.insert_collected(result_vec, sub_ty);
        proof {
            assert(temp_call(old(self).builder, b1, result_vec, "Vec_new"@, seq![int_op(slot_size_spec(sub_ty) as i64)]));
            assert(flat_map_phases(
                old(self).builder,
                b1,
                b2,
                setup,
                b3,
                out,
                b4,
                self.builder,
                *chain,
                func@,
                sub_ty,
                old(self).collected_elem_types@,
                self.collected_elem_types@,
            ));
        }
        (MirOperand::Local(result_vec), MirType::I64)
    }
}

} // verus!
