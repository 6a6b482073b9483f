//! `v.try_push(x)` on a bounded Vec: the push when there is room, and the
//! rejected element handed back as `GrowError.Full(x)` when there is not.

use vstd::prelude::*;
use crate::builder::{lemma_recorded_start, recorded, MirBuilder, StmtForm};
use crate::iterators::{int_op, local_op};
use crate::lowerer::{first_named, variant_name, LowerCtx, MirLowerer, VariantLayout};
use crate::mir::{
    size_fits, size_of, BlockId, EnumLayoutId, LocalId, MirConst, MirOperand, MirStmt, MirTerminator, MirType,
    RESULT_PAYLOAD_OFFSET, RESULT_TAG_OFFSET,
};
use crate::sorting::call_form;
use crate::text::str_eq;

verus! {

/// What a `try_push` needs of its recorded type: a result whose error side
/// is a registered enum with a `Full` variant. The result type, the error
/// type, the enum's tag offset, and the `Full` variant.
pub open spec fn try_push_target(ctx: LowerCtx, node_ty: Option<MirType>) -> Option<(MirType, MirType, u32, VariantLayout)> {
    match node_ty {
        Some(MirType::Result { ok, err }) => match *err {
            MirType::Enum(eid) => if eid.id < ctx.enum_layouts@.len() {
                let layout = ctx.enum_layouts@[eid.id as int];
                match first_named(layout.variants@, variant_name(), "Full"@) {
                    Some(k) => Some((MirType::Result { ok, err }, *err, layout.tag_offset, layout.variants@[k])),
                    None => None,
                }
            } else {
                None
            },
            _ => None,
        },
        _ => None,
    }
}

/// The size a store of a value of `size` bytes names: the size itself
/// past a word, none (a word) otherwise.
pub open spec fn wide_size(size: nat) -> Option<u32> {
    if size > 8 {
        Some(size as u32)
    } else {
        None
    }
}

/// `Store { addr, offset, value, size }`.
pub open spec fn store(addr: LocalId, offset: u32, value: MirOperand, size: Option<u32>) -> MirStmt {
    MirStmt::Store { addr, offset, value, store_size: size }
}

/// What `try_push` emits from `old` to `new` for the receiver `recv` and
/// the value `value` of type `value_ty`, with the result type `result_ty`,
/// error type `err_ty`, tag offset `tag_offset` and `Full` variant `full`:
/// `Vec_is_full(recv)` into a `bool` temp; a result temp; three new blocks
/// and a branch on the test. When full: a new error temp gets `Full`'s tag
/// and the value as its payload, and the result tag 1 and the error; when
/// not: `Vec_push(recv, value)` and the result tag 0. Both go on to the
/// third block, where the builder is left.
pub open spec fn try_push_emitted(
    old: MirBuilder,
    new: MirBuilder,
    recv: MirOperand,
    value: MirOperand,
    value_ty: MirType,
    result_ty: MirType,
    err_ty: MirType,
    tag_offset: u32,
    full: VariantLayout,
) -> bool {
    let n = old.locals@.len();
    let b = old.terms@.len();
    let c = old.current;
    let l = |k: nat| LocalId((n + k) as usize);
    let full_block = BlockId(b as usize);
    let push_block = BlockId((b + 1) as usize);
    let merge = BlockId((b + 2) as usize);
    &&& recorded(
        old,
        new,
        seq![MirType::Bool, result_ty, err_ty, MirType::I64],
        seq![
            (c, call_form(Some(l(0)), "Vec_is_full"@, seq![recv])),
            (full_block, StmtForm::Exact(store(l(2), tag_offset, int_op(full.tag as i64), None))),
            (full_block, StmtForm::Exact(store(l(2), full.payload_offset, value, wide_size(size_of(value_ty))))),
            (full_block, StmtForm::Exact(store(l(1), RESULT_TAG_OFFSET, int_op(1), None))),
            (
                full_block,
                StmtForm::Exact(store(l(1), RESULT_PAYLOAD_OFFSET, local_op(l(2)), wide_size(size_of(err_ty)))),
            ),
            (push_block, call_form(Some(l(3)), "Vec_push"@, seq![recv, value])),
            (push_block, StmtForm::Exact(store(l(1), RESULT_TAG_OFFSET, int_op(0), None))),
        ],
    )
    &&& new.terms@ == old.terms@.update(
        c.0 as int,
        Some(MirTerminator::Branch { cond: local_op(l(0)), then_block: full_block, else_block: push_block }),
    ) + seq![Some(MirTerminator::Goto { target: merge }), Some(MirTerminator::Goto { target: merge }), None]
    &&& new.current == merge
}

impl MirLowerer {
    /// `v.try_push(x)` on the lowered receiver `recv` of type `recv_ty`,
    /// with the lowered arguments `args` (each with its type), where
    /// `node_ty` is the type the checker recorded for the call. Only for one
    /// argument, a pointer receiver, and a recorded result whose error side
    /// names a registered enum with a `Full` variant (see
    /// `try_push_target`): see `try_push_emitted`; the answer is the result
    /// temp. Nothing, and nothing emitted, otherwise.
    pub fn try_lower_try_push(
        &mut self,
        method: &str,
        recv: &MirOperand,
        recv_ty: &MirType,
        node_ty: Option<&MirType>,
        args: &Vec<(MirOperand, MirType)>,
    ) -> (r: Option<(MirOperand, MirType)>)
        requires
            old(self).builder.wf(),
            old(self).ctx.wf(),
            args@.len() == 1 ==> size_fits(args@[0].1),
            node_ty matches Some(t) ==> size_fits(*t),
        ensures
            ({
                let target = try_push_target(
                    old(self).ctx,
                    match node_ty {
                        Some(t) => Some(*t),
                        None => None,
                    },
                );
                if method@ == "try_push"@ && args@.len() == 1 && *recv_ty is Ptr && target is Some {
                    let (result_ty, err_ty, tag_offset, full) = target->0;
                    &&& try_push_emitted(
                        old(self).builder,
                        final(self).builder,
                        *recv,
                        args@[0].0,
                        args@[0].1,
                        result_ty,
                        err_ty,
                        tag_offset,
                        full,
                    )
                    &&& r == Some((local_op(LocalId((old(self).builder.locals@.len() + 1) as usize)), result_ty))
                } else {
                    r is None && final(self).builder == old(self).builder
                }
            }),
            final(self).builder.wf(),
            final(self).ctx == old(self).ctx,
    {
        if !str_eq(method, "try_push") || args.len() != 1 {
            return None;
        }
        match recv_ty {
            MirType::Ptr => {},
            _ => {
                return None;
            },
        }
        let result_ty = match node_ty {
            Some(t) => t,
            None => {
                return None;
            },
        };
        let err = match result_ty {
            MirType::Result { err, .. } => err,
            _ => {
                return None;
            },
        };
        let eid: EnumLayoutId = match &**err {
            MirType::Enum(eid) => *eid,
            _ => {
                return None;
            },
        };
        if eid.id as usize >= self.ctx.enum_layouts.len() {
            return None;
        }
        let layout = &self.ctx.enum_layouts[eid.id as usize];
        let k = match crate::lowerer::find_variant(&layout.variants, "Full") {
            Some(k) => k,
            None => {
                return None;
            },
        };
        let full_tag = layout.variants[k].tag;
        let payload_offset = layout.variants[k].payload_offset;
        let tag_offset = layout.tag_offset;
        proof {
            assert(size_fits(**err));
        }
        let err_size = err.size();
        let value = &args[0].0;
        let value_size = args[0].1.size();
        let ghost b0 = self.builder;
        let ghost c = b0.current;
        proof {
            lemma_recorded_start(b0);
        }
        let ghost mut temps: Seq<MirType> = Seq::empty();
        let ghost mut forms: Seq<(BlockId, StmtForm)> = Seq::empty();
        let full_local = self.builder.temp_rec(Ghost(b0), Ghost(temps), Ghost(forms), MirType::Bool);
        proof { temps = temps.push(MirType::Bool); }
        let a1 = vec![recv.duplicate()];
        let ghost av1 = a1@;
        self.builder.call_rec(Ghost(b0), Ghost(temps), Ghost(forms), Some(full_local), "Vec_is_full", a1);
        proof {
            assert(av1 =~= seq![*recv]);
            forms = forms.push((c, call_form(Some(full_local), "Vec_is_full"@, av1)));
        }
        let result_local = self.builder.temp_rec(Ghost(b0), Ghost(temps), Ghost(forms), result_ty.duplicate());
        proof { temps = temps.push(*result_ty); }
        let full_block = self.builder.create_block();
        let push_block = self.builder.create_block();
        let merge_block = self.builder.create_block();
        self.builder.terminate(
            MirTerminator::Branch { cond: MirOperand::Local(full_local), then_block: full_block, else_block: push_block },
        );
        self.builder.switch_to_block(full_block);
        let err_local = self.builder.temp_rec(Ghost(b0), Ghost(temps), Ghost(forms), (**err).duplicate());
        proof { temps = temps.push(**err); }
        let s1 = MirStmt::Store {
            addr: err_local,
            offset: tag_offset,
            value: MirOperand::Constant(MirConst::Int(full_tag as i64)),
            store_size: None,
        };
        let ghost g1 = s1;
        self.builder.stmt_rec(Ghost(b0), Ghost(temps), Ghost(forms), s1);
        proof { forms = forms.push((full_block, StmtForm::Exact(g1))); }
        let vsize: Option<u32> = if value_size > 8 {
            Some(value_size)
        } else {
            None
        };
        let s2 = MirStmt::Store { addr: err_local, offset: payload_offset, value: value.duplicate(), store_size: vsize };
        let ghost g2 = s2;
        self.builder.stmt_rec(Ghost(b0), Ghost(temps), Ghost(forms), s2);
        proof { forms = forms.push((full_block, StmtForm::Exact(g2))); }
        let s3 = MirStmt::Store {
            addr: result_local,
            offset: RESULT_TAG_OFFSET,
            value: MirOperand::Constant(MirConst::Int(1)),
            store_size: None,
        };
        let ghost g3 = s3;
        self.builder.stmt_rec(Ghost(b0), Ghost(temps), Ghost(forms), s3);
        proof { forms = forms.push((full_block, StmtForm::Exact(g3))); }
        let esize: Option<u32> = if err_size > 8 {
            Some(err_size)
        } else {
            None
        };
        let s4 = MirStmt::Store {
            addr: result_local,
            offset: RESULT_PAYLOAD_OFFSET,
            value: MirOperand::Local(err_local),
            store_size: esize,
        };
        let ghost g4 = s4;
        self.builder.stmt_rec(Ghost(b0), Ghost(temps), Ghost(forms), s4);
        proof { forms = forms.push((full_block, StmtForm::Exact(g4))); }
        self.builder.terminate(MirTerminator::Goto { target: merge_block });
        self.builder.switch_to_block(push_block);
        let push_ret = self.builder.temp_rec(Ghost(b0), Ghost(temps), Ghost(forms), MirType::I64);
        proof { temps = temps.push(MirType::I64); }
        let a2 = vec![recv.duplicate(), value.duplicate()];
        let ghost av2 = a2@;
        self.builder.call_rec(Ghost(b0), Ghost(temps), Ghost(forms), Some(push_ret), "Vec_push", a2);
        proof {
            assert(av2 =~= seq![*recv, args@[0].0]);
            forms = forms.push((push_block, call_form(Some(push_ret), "Vec_push"@, av2)));
        }
        let s5 = MirStmt::Store {
            addr: result_local,
            offset: RESULT_TAG_OFFSET,
            value: MirOperand::Constant(MirConst::Int(0)),
            store_size: None,
        };
        let ghost g5 = s5;
        self.builder.stmt_rec(Ghost(b0), Ghost(temps), Ghost(forms), s5);
        proof { forms = forms.push((push_block, StmtForm::Exact(g5))); }
        self.builder.terminate(MirTerminator::Goto { target: merge_block });
        self.builder.switch_to_block(merge_block);
        proof {
            assert(temps =~= seq![MirType::Bool, *result_ty, **err, MirType::I64]);
            assert(self.builder.terms@ =~= b0.terms@.update(
                c.0 as int,
                Some(MirTerminator::Branch { cond: local_op(full_local), then_block: full_block, else_block: push_block }),
            ) + seq![
                Some(MirTerminator::Goto { target: merge_block }),
                Some(MirTerminator::Goto { target: merge_block }),
                None,
            ]);
        }
        Some((MirOperand::Local(result_local), result_ty.duplicate()))
    }
}

} // verus!
