//! `json.decode<T>(input)`: the untyped shortcut for `JsonValue`, the
//! destination the runtime decodes into, and the decode call with the
//! `T or JsonError` result built from its status.
//!
//! A typed decode also needs the shape the runtime decodes by, and the
//! statements that fill the fields a decode does not read; building those
//! needs the MIR type of each checker type and the fields' `@skip` and
//! `@default` attributes, which this library does not model, so they are
//! handed in. `json.decode` is lowered as: `lower_json_decode` (the
//! shortcut for `JsonValue`, or nothing for a typed target), and for a
//! typed target `lower_typed_json_decode` with the shape and the prefill:
//! the "cannot build" error without a shape, else the destination, the
//! prefill and the status-checked decode. `begin_typed_json_decode` and
//! `finish_json_decode` are its first and last steps on their own.

use vstd::prelude::*;
use crate::builder::{
    is_call, lemma_recorded_start, lemma_recorded_then, recorded, temp_decl, MirBuilder, StmtForm,
};
use crate::iterators::{int_op, local_op, placed_all};
use crate::json_decode::{json_error_emitted, store_word, type_label, type_label_spec, type_name_spec};
use crate::lowerer::{enum_id_at, enum_layout_name, first_named, LowerCtx, LoweringError, MirLowerer};
use crate::mir::{
    size_fits, size_of, BlockId, FieldAccess, LocalId, MirConst, MirOperand, MirRValue, MirStmt, MirTerminator,
    MirType, RESULT_ORIGIN_FILE_OFFSET, RESULT_ORIGIN_LINE_OFFSET, RESULT_PAYLOAD_OFFSET, RESULT_TAG_OFFSET,
};
use crate::sorting::call_form;
use crate::types::Type;

verus! {

/// The error side of a decode's result: the registered `JsonError` enum,
/// or `i64` without one.
pub open spec fn json_error_ty(ctx: LowerCtx) -> MirType {
    match first_named(ctx.enum_layouts@, enum_layout_name(), "JsonError"@) {
        Some(i) => MirType::Enum(enum_id_at(ctx, i)),
        None => MirType::I64,
    }
}

/// A decode's result type: `T or JsonError`.
pub open spec fn json_result_ty(ctx: LowerCtx, target_mir: MirType) -> MirType {
    MirType::Result { ok: Box::new(target_mir), err: Box::new(json_error_ty(ctx)) }
}

/// The message when no shape can be built for the target.
pub open spec fn unbuildable_message(target: Type) -> Seq<char> {
    "json.decode cannot build `"@ + type_label_spec(target)
        + "` — only bool, integers, floats, string, Vec<T>, Map<string, T>, T?, and structs of those are JSON-compatible"@
}

/// The result header in block `blk`: the tag and the two origin words.
pub open spec fn header_forms(blk: BlockId, result: LocalId, tag: i64) -> Seq<(BlockId, StmtForm)> {
    seq![
        (blk, StmtForm::Exact(store_word(result, RESULT_TAG_OFFSET, int_op(tag)))),
        (blk, StmtForm::Exact(store_word(result, RESULT_ORIGIN_FILE_OFFSET, int_op(0)))),
        (blk, StmtForm::Exact(store_word(result, RESULT_ORIGIN_LINE_OFFSET, int_op(0)))),
    ]
}

/// The payload `value` of `size` bytes stored into the result.
pub open spec fn payload_store(result: LocalId, value: LocalId, size: u32) -> MirStmt {
    MirStmt::Store { addr: result, offset: RESULT_PAYLOAD_OFFSET, value: local_op(value), store_size: Some(size) }
}

/// The bytes the destination of a decode into `target_mir` holds: the
/// target's own for a value passed by address, a 16-byte scratch buffer for
/// a scalar.
pub open spec fn destination_size(target_mir: MirType, by_address: bool) -> nat {
    if by_address {
        size_of(target_mir)
    } else {
        16
    }
}

/// What `finish_json_decode` emits, from `old` to `new`, answering `r`.
/// In the current block: the runtime's `json_decode_into(dst, shape,
/// input)` into a status temp, then `json_shape_free(shape)`; a result
/// temp; three new blocks, for success, for failure and where they meet,
/// and a branch on the status (non-zero is failure). The success block
/// stores the header with tag 0 and the payload (for a scalar first read
/// out of the scratch buffer into a new temp) and goes to the meeting
/// block. The failure block turns the status into a `JsonError` (see
/// `emit_json_error`), stores the header with tag 1 and the error, and goes
/// to the meeting block, where the builder is left.
pub open spec fn json_decode_finished(
    ctx: LowerCtx,
    old: MirBuilder,
    new: MirBuilder,
    input: MirOperand,
    shape: LocalId,
    dst: LocalId,
    target_mir: MirType,
    by_address: bool,
    r: (MirOperand, MirType),
) -> bool {
    let n = old.locals@.len();
    let b = old.terms@.len();
    let c = old.current;
    let err_ty = json_error_ty(ctx);
    let result_ty = json_result_ty(ctx, target_mir);
    let status = LocalId(n as usize);
    let result = LocalId((n + 1) as usize);
    let ok_block = BlockId(b as usize);
    let err_block = BlockId((b + 1) as usize);
    let done = BlockId((b + 2) as usize);
    let size = size_of(target_mir) as u32;
    let read = LocalId((n + 2) as usize);
    let temps0 = if by_address {
        seq![MirType::I64, result_ty]
    } else {
        seq![MirType::I64, result_ty, target_mir]
    };
    let read_forms = if by_address {
        Seq::empty()
    } else {
        seq![
            (
                ok_block,
                StmtForm::Exact(
                    MirStmt::Assign {
                        dst: read,
                        rvalue: MirRValue::Field {
                            base: local_op(dst),
                            field_index: 0,
                            byte_offset: Some(0u32),
                            access: FieldAccess::Sized(size),
                        },
                    },
                ),
            ),
        ]
    };
    let payload = if by_address {
        dst
    } else {
        read
    };
    let forms0 = seq![
        (c, call_form(Some(status), "json_decode_into"@, seq![local_op(dst), local_op(shape), input])),
        (c, call_form(None, "json_shape_free"@, seq![local_op(shape)])),
    ] + header_forms(ok_block, result, 0) + read_forms + seq![
        (ok_block, StmtForm::Exact(payload_store(result, payload, size))),
    ];
    &&& r == (local_op(result), result_ty)
    &&& new.current == done
    &&& exists|e0: MirBuilder, e1: MirBuilder, ev: LocalId|
        #![trigger json_error_emitted(ctx, e0, e1, status, err_ty, ev)]
        {
            &&& recorded(old, e0, temps0, forms0)
            &&& e0.terms@ == old.terms@.update(
                c.0 as int,
                Some(MirTerminator::Branch { cond: local_op(status), then_block: err_block, else_block: ok_block }),
            ) + seq![Some(MirTerminator::Goto { target: done }), None, None]
            &&& e0.current == err_block
            &&& json_error_emitted(ctx, e0, e1, status, err_ty, ev)
            &&& recorded(
                e1,
                new,
                Seq::empty(),
                header_forms(e1.current, result, 1) + seq![
                    (e1.current, StmtForm::Exact(payload_store(result, ev, size_of(err_ty) as u32))),
                ],
            )
            &&& new.terms@ == e1.terms@.update(e1.current.0 as int, Some(MirTerminator::Goto { target: done }))
        }
}

/// The two stages of a typed decode that `lower_typed_json_decode` goes
/// through: `mid` after the destination, `filled` after the prefill.
pub open spec fn decode_stages(mid: MirBuilder, filled: MirBuilder) -> bool {
    true
}

/// The destination of a decode into `target_mir`: a new temp (the target
/// itself when passed by address, a 16-byte scratch buffer otherwise),
/// zeroed by the runtime's `json_decode_zero` in the current block.
pub open spec fn destination_emitted(old: MirBuilder, new: MirBuilder, target_mir: MirType, by_address: bool) -> bool {
    let ty = if by_address {
        target_mir
    } else {
        MirType::Array { elem: Box::new(MirType::U8), len: 16 }
    };
    let d = LocalId(old.locals@.len() as usize);
    &&& new.locals@ == old.locals@.push(temp_decl(ty))
    &&& new.stmts@.len() == old.stmts@.len() + 1
    &&& new.stmts@.drop_last() == old.stmts@
    &&& new.stmts@.last().block == old.current
    &&& is_call(
        new.stmts@.last().stmt,
        None,
        "json_decode_zero"@,
        seq![local_op(d), int_op(destination_size(target_mir, by_address) as i64)],
    )
    &&& new.terms@ == old.terms@
    &&& new.current == old.current
}

impl MirLowerer {
    /// The error side of a decode's result; see `json_error_ty`.
    pub fn json_error_type(&self) -> (r: MirType)
        requires
            self.ctx.wf(),
        ensures
            r == json_error_ty(self.ctx),
    {
        match self.ctx.find_enum("JsonError") {
            Some(i) => MirType::Enum(self.ctx.enum_layout_id(i)),
            None => MirType::I64,
        }
    }

    /// `json.decode<JsonValue>(input)`, the untyped decode, is `json.parse`:
    /// a call of the runtime's `json_parse` on `input` into a new temp of
    /// the result type, `target_mir` (the target lowered) or `JsonError`.
    /// Nothing, and nothing emitted, for a typed target, whose decode goes
    /// on with its shape and `begin_typed_json_decode`.
    pub fn lower_json_decode(&mut self, input: MirOperand, target: &Type, target_mir: &MirType) -> (r: Option<
        (MirOperand, MirType),
    >)
        requires
            old(self).ctx.wf(),
        ensures
            if type_name_spec(old(self).ctx, *target) == Some("JsonValue"@) {
                let ty = json_result_ty(old(self).ctx, *target_mir);
                let dst = LocalId(old(self).builder.locals@.len() as usize);
                &&& r == Some((local_op(dst), ty))
                &&& final(self).builder.locals@ == old(self).builder.locals@.push(temp_decl(ty))
                &&& final(self).builder.stmts@.len() == old(self).builder.stmts@.len() + 1
                &&& final(self).builder.stmts@.drop_last() == old(self).builder.stmts@
                &&& final(self).builder.stmts@.last().block == old(self).builder.current
                &&& is_call(final(self).builder.stmts@.last().stmt, Some(dst), "json_parse"@, seq![input])
                &&& final(self).builder.terms@ == old(self).builder.terms@
                &&& final(self).builder.current == old(self).builder.current
            } else {
                r is None && final(self).builder == old(self).builder
            },
            final(self).ctx == old(self).ctx,
    {
        let is_value = match self.type_name_of(target) {
            Some(n) => str_eq_owned(&n, "JsonValue"),
            None => false,
        };
        if !is_value {
            return None;
        }
        let err_ty = self.json_error_type();
        let ty = MirType::Result { ok: Box::new(target_mir.duplicate()), err: Box::new(err_ty) };
        let ty2 = ty.duplicate();
        let dst = self.builder.alloc_temp(ty);
        let args = vec![input];
        let ghost av = args@;
        let ghost before = self.builder.stmts@;
        self.builder.push_call(Some(dst), "json_parse", args);
        proof {
            assert(av =~= seq![input]);
            assert(self.builder.stmts@.drop_last() =~= before);
        }
        Some((MirOperand::Local(dst), ty2))
    }

    /// `json.decode<T>(input)` for a typed target `target`, lowered to
    /// `target_mir` and passed by address when `by_address`, once the shape
    /// the runtime decodes by has been built (`shape`; nothing when `target`
    /// has none), with `prefill` the statements that fill the fields a
    /// decode does not read. Without a shape: the "cannot build" error
    /// (`unbuildable_message`), with nothing emitted. With one: the
    /// destination (`destination_emitted`), then, for a target passed by
    /// address, the prefill statements in order in the current block, then
    /// the status-checked decode into the `T or JsonError` result
    /// (`json_decode_finished`), whose value is the answer.
    pub fn lower_typed_json_decode(
        &mut self,
        input: MirOperand,
        target: &Type,
        target_mir: &MirType,
        by_address: bool,
        shape: Option<LocalId>,
        prefill: Vec<MirStmt>,
    ) -> (r: Result<(MirOperand, MirType), LoweringError>)
        requires
            old(self).wf(),
            size_fits(*target_mir),
        ensures
            match shape {
                None => {
                    &&& r matches Err(LoweringError::InvalidConstruct(m))
                    &&& m@ == unbuildable_message(*target)
                    &&& final(self).builder == old(self).builder
                },
                Some(sh) => exists|mid: MirBuilder, filled: MirBuilder|
                    #![trigger decode_stages(mid, filled)]
                    {
                        &&& destination_emitted(old(self).builder, mid, *target_mir, by_address)
                        &&& filled.locals@ == mid.locals@
                        &&& filled.terms@ == mid.terms@
                        &&& filled.current == mid.current
                        &&& filled.stmts@ == mid.stmts@ + if by_address {
                            placed_all(mid.current, prefill@)
                        } else {
                            Seq::empty()
                        }
                        &&& r matches Ok(v) && json_decode_finished(
                            old(self).ctx,
                            filled,
                            final(self).builder,
                            input,
                            sh,
                            LocalId(old(self).builder.locals@.len() as usize),
                            *target_mir,
                            by_address,
                            v,
                        )
                    },
            },
            final(self).builder.wf(),
            final(self).ctx == old(self).ctx,
    {
        let sh = match shape {
            None => {
                return Err(Self::json_decode_unbuildable(target));
            },
            Some(sh) => sh,
        };
        let dst = self.json_decode_destination(target_mir, by_address);
        let ghost mid = self.builder;
        if by_address {
            let ghost all = prefill@;
            let mut rest = prefill;
            let ghost mut k: int = 0;
            while rest.len() > 0
                invariant
                    0 <= k <= all.len(),
                    rest@ == all.skip(k),
                    self.builder.locals@ == mid.locals@,
                    self.builder.terms@ == mid.terms@,
                    self.builder.current == mid.current,
                    self.builder.stmts@ == mid.stmts@ + placed_all(mid.current, all.take(k)),
                    self.ctx == old(self).ctx,
                decreases rest@.len(),
            {
                let st = rest.remove(0);
                proof {
                    assert(st == all[k]);
                    assert(rest@ =~= all.skip(k + 1));
                    assert(placed_all(mid.current, all.take(k + 1)) =~= placed_all(mid.current, all.take(k)).push(
                        crate::builder::placed(mid.current, all[k]),
                    ));
                    k = k + 1;
                }
                self.builder.push_stmt(st);
            }
            proof {
                assert(all.take(k) =~= all);
            }
        } else {
            proof {
                assert(self.builder.stmts@ =~= mid.stmts@ + Seq::empty());
            }
        }
        let ghost filled = self.builder;
        let v = self.finish_json_decode(input, sh, dst, target_mir, by_address);
        proof {
            assert(decode_stages(mid, filled));
        }
        Ok(v)
    }

    /// The error when `json.decode` has no shape for `target`: the target
    /// cannot be decoded from JSON. See `unbuildable_message`.
    pub fn json_decode_unbuildable(target: &Type) -> (r: LoweringError)
        ensures
            r matches LoweringError::InvalidConstruct(m) && m@ == unbuildable_message(*target),
    {
        let mut msg = String::from_str("json.decode cannot build `");
        let label = type_label(target);
        msg.append(label.as_str());
        msg.append(
            "` — only bool, integers, floats, string, Vec<T>, Map<string, T>, T?, and structs of those are JSON-compatible",
        );
        LoweringError::InvalidConstruct(msg)
    }

    /// The decode itself, into the destination `dst` by the shape `shape`,
    /// of `input`, for the target lowered to `target_mir` (`by_address`
    /// when it is passed by address): see `json_decode_finished`.
    pub fn finish_json_decode(
        &mut self,
        input: MirOperand,
        shape: LocalId,
        dst: LocalId,
        target_mir: &MirType,
        by_address: bool,
    ) -> (r: (MirOperand, MirType))
        requires
            old(self).wf(),
            size_fits(*target_mir),
        ensures
            json_decode_finished(
                old(self).ctx,
                old(self).builder,
                final(self).builder,
                input,
                shape,
                dst,
                *target_mir,
                by_address,
                r,
            ),
            final(self).builder.wf(),
            final(self).ctx == old(self).ctx,
    {
        let ghost b0 = self.builder;
        let ghost c = b0.current;
        proof {
            lemma_recorded_start(b0);
        }
        let ghost mut temps: Seq<MirType> = Seq::empty();
        let ghost mut forms: Seq<(BlockId, StmtForm)> = Seq::empty();
        let status = self.builder.temp_rec(Ghost(b0), Ghost(temps), Ghost(forms), MirType::I64);
        proof { temps = temps.push(MirType::I64); }
        let args = vec![MirOperand::Local(dst), MirOperand::Local(shape), input];
        let ghost av = args@;
        self.builder.call_rec(Ghost(b0), Ghost(temps), Ghost(forms), Some(status), "json_decode_into", args);
        proof {
            assert(av =~= seq![local_op(dst), local_op(shape), input]);
            forms = forms.push((c, call_form(Some(status), "json_decode_into"@, av)));
        }
        let args2 = vec![MirOperand::Local(shape)];
        let ghost av2 = args2@;
        self.builder.call_rec(Ghost(b0), Ghost(temps), Ghost(forms), None, "json_shape_free", args2);
        proof {
            assert(av2 =~= seq![local_op(shape)]);
            forms = forms.push((c, call_form(None, "json_shape_free"@, av2)));
        }
        let err_ty = self.json_error_type();
        let result_ty = MirType::Result { ok: Box::new(target_mir.duplicate()), err: Box::new(err_ty.duplicate()) };
        let ghost rt = result_ty;
        let result = self.builder.temp_rec(Ghost(b0), Ghost(temps), Ghost(forms), result_ty.duplicate());
        proof { temps = temps.push(rt); }
        let ok_block = self.builder.create_block();
        let err_block = self.builder.create_block();
        let done = self.builder.create_block();
        self.builder.terminate(
            MirTerminator::Branch { cond: MirOperand::Local(status), then_block: err_block, else_block: ok_block },
        );
        self.builder.switch_to_block(ok_block);
        let tag0 = store_word_exec(result, RESULT_TAG_OFFSET, 0);
        self.builder.stmt_rec(Ghost(b0), Ghost(temps), Ghost(forms), tag0);
        proof { forms = forms.push((ok_block, StmtForm::Exact(store_word(result, RESULT_TAG_OFFSET, int_op(0))))); }
        let file0 = store_word_exec(result, RESULT_ORIGIN_FILE_OFFSET, 0);
        self.builder.stmt_rec(Ghost(b0), Ghost(temps), Ghost(forms), file0);
        proof { forms = forms.push((ok_block, StmtForm::Exact(store_word(result, RESULT_ORIGIN_FILE_OFFSET, int_op(0))))); }
        let line0 = store_word_exec(result, RESULT_ORIGIN_LINE_OFFSET, 0);
        self.builder.stmt_rec(Ghost(b0), Ghost(temps), Ghost(forms), line0);
        proof { forms = forms.push((ok_block, StmtForm::Exact(store_word(result, RESULT_ORIGIN_LINE_OFFSET, int_op(0))))); }
        let size = target_mir.size();
        let payload = if by_address {
            dst
        } else {
            let v = self.builder.temp_rec(Ghost(b0), Ghost(temps), Ghost(forms), target_mir.duplicate());
            proof { temps = temps.push(*target_mir); }
            let read = MirStmt::Assign {
                dst: v,
                rvalue: MirRValue::Field {
                    base: MirOperand::Local(dst),
                    field_index: 0,
                    byte_offset: Some(0),
                    access: FieldAccess::Sized(size),
                },
            };
            let ghost gr = read;
            self.builder.stmt_rec(Ghost(b0), Ghost(temps), Ghost(forms), read);
            proof { forms = forms.push((ok_block, StmtForm::Exact(gr))); }
            v
        };
        let store = MirStmt::Store {
            addr: result,
            offset: RESULT_PAYLOAD_OFFSET,
            value: MirOperand::Local(payload),
            store_size: Some(size),
        };
        self.builder.stmt_rec(Ghost(b0), Ghost(temps), Ghost(forms), store);
        proof { forms = forms.push((ok_block, StmtForm::Exact(payload_store(result, payload, size)))); }
        self.builder.terminate(MirTerminator::Goto { target: done });
        self.builder.switch_to_block(err_block);
        let ghost e0 = self.builder;
        proof {
            assert(e0.terms@ =~= b0.terms@.update(
                c.0 as int,
                Some(MirTerminator::Branch { cond: local_op(status), then_block: err_block, else_block: ok_block }),
            ) + seq![Some(MirTerminator::Goto { target: done }), None, None]);
        }
        let ev = self.emit_json_error(status, &err_ty);
        let ghost e1 = self.builder;
        let ghost ec = e1.current;
        proof {
            lemma_recorded_start(e1);
        }
        let ghost mut forms1: Seq<(BlockId, StmtForm)> = Seq::empty();
        let ghost no_temps: Seq<MirType> = Seq::empty();
        let tag1 = store_word_exec(result, RESULT_TAG_OFFSET, 1);
        self.builder.stmt_rec(Ghost(e1), Ghost(no_temps), Ghost(forms1), tag1);
        proof { forms1 = forms1.push((ec, StmtForm::Exact(store_word(result, RESULT_TAG_OFFSET, int_op(1))))); }
        let file1 = store_word_exec(result, RESULT_ORIGIN_FILE_OFFSET, 0);
        self.builder.stmt_rec(Ghost(e1), Ghost(no_temps), Ghost(forms1), file1);
        proof { forms1 = forms1.push((ec, StmtForm::Exact(store_word(result, RESULT_ORIGIN_FILE_OFFSET, int_op(0))))); }
        let line1 = store_word_exec(result, RESULT_ORIGIN_LINE_OFFSET, 0);
        self.builder.stmt_rec(Ghost(e1), Ghost(no_temps), Ghost(forms1), line1);
        proof { forms1 = forms1.push((ec, StmtForm::Exact(store_word(result, RESULT_ORIGIN_LINE_OFFSET, int_op(0))))); }
        proof {
            assert(size_fits(err_ty));
        }
        let err_size = err_ty.size();
        let err_store = MirStmt::Store {
            addr: result,
            offset: RESULT_PAYLOAD_OFFSET,
            value: MirOperand::Local(ev),
            store_size: Some(err_size),
        };
        self.builder.stmt_rec(Ghost(e1), Ghost(no_temps), Ghost(forms1), err_store);
        proof {
            forms1 = forms1.push((ec, StmtForm::Exact(payload_store(result, ev, err_size))));
        }
        self.builder.terminate(MirTerminator::Goto { target: done });
        self.builder.switch_to_block(done);
        proof {
            let err_ty_s = json_error_ty(old(self).ctx);
            let temps0 = if by_address {
                seq![MirType::I64, rt]
            } else {
                seq![MirType::I64, rt, *target_mir]
            };
            assert(temps =~= temps0);
            assert(forms1 =~= header_forms(ec, result, 1) + seq![
                (ec, StmtForm::Exact(payload_store(result, ev, size_of(err_ty_s) as u32))),
            ]);
            assert(json_error_emitted(old(self).ctx, e0, e1, status, err_ty_s, ev));
        }
        (MirOperand::Local(result), result_ty)
    }

    /// The typed decode's start, once the shape for `target` has been
    /// built (`shape`, nothing when `target` has none): without a shape,
    /// the error that `target` cannot be decoded, with nothing emitted;
    /// with one, the destination (see `json_decode_destination`).
    pub fn begin_typed_json_decode(
        &mut self,
        target: &Type,
        shape: Option<LocalId>,
        target_mir: &MirType,
        by_address: bool,
    ) -> (r: Result<LocalId, LoweringError>)
        requires
            size_fits(*target_mir),
        ensures
            match shape {
                None => {
                    &&& r matches Err(LoweringError::InvalidConstruct(m))
                    &&& m@ == unbuildable_message(*target)
                    &&& final(self).builder == old(self).builder
                },
                Some(_) => {
                    let ty = if by_address {
                        *target_mir
                    } else {
                        MirType::Array { elem: Box::new(MirType::U8), len: 16 }
                    };
                    &&& r == Ok::<LocalId, LoweringError>(LocalId(old(self).builder.locals@.len() as usize))
                    &&& final(self).builder.locals@ == old(self).builder.locals@.push(temp_decl(ty))
                    &&& final(self).builder.stmts@.len() == old(self).builder.stmts@.len() + 1
                    &&& final(self).builder.stmts@.drop_last() == old(self).builder.stmts@
                    &&& final(self).builder.stmts@.last().block == old(self).builder.current
                    &&& is_call(
                        final(self).builder.stmts@.last().stmt,
                        None,
                        "json_decode_zero"@,
                        seq![
                            local_op(LocalId(old(self).builder.locals@.len() as usize)),
                            int_op(destination_size(*target_mir, by_address) as i64),
                        ],
                    )
                    &&& final(self).builder.terms@ == old(self).builder.terms@
                    &&& final(self).builder.current == old(self).builder.current
                },
            },
            final(self).ctx == old(self).ctx,
    {
        match shape {
            None => Err(Self::json_decode_unbuildable(target)),
            Some(_) => Ok(self.json_decode_destination(target_mir, by_address)),
        }
    }

    /// The destination of a decode into `target_mir`: a new temp of the
    /// target's type when it is passed by address, else a 16-byte scratch
    /// buffer; then the runtime's `json_decode_zero(dst, size)` clears it.
    pub fn json_decode_destination(&mut self, target_mir: &MirType, by_address: bool) -> (r: LocalId)
        requires
            size_fits(*target_mir),
        ensures
            ({
                let ty = if by_address {
                    *target_mir
                } else {
                    MirType::Array { elem: Box::new(MirType::U8), len: 16 }
                };
                &&& r == LocalId(old(self).builder.locals@.len() as usize)
                &&& final(self).builder.locals@ == old(self).builder.locals@.push(temp_decl(ty))
                &&& final(self).builder.stmts@.len() == old(self).builder.stmts@.len() + 1
                &&& final(self).builder.stmts@.drop_last() == old(self).builder.stmts@
                &&& final(self).builder.stmts@.last().block == old(self).builder.current
                &&& is_call(
                    final(self).builder.stmts@.last().stmt,
                    None,
                    "json_decode_zero"@,
                    seq![local_op(r), int_op(destination_size(*target_mir, by_address) as i64)],
                )
                &&& final(self).builder.terms@ == old(self).builder.terms@
                &&& final(self).builder.current == old(self).builder.current
            }),
            final(self).ctx == old(self).ctx,
    {
        let ty = if by_address {
            target_mir.duplicate()
        } else {
            MirType::Array { elem: Box::new(MirType::U8), len: 16 }
        };
        let size: i64 = if by_address {
            target_mir.size() as i64
        } else {
            16
        };
        let dst = self.builder.alloc_temp(ty);
        let args = vec![MirOperand::Local(dst), MirOperand::Constant(MirConst::Int(size))];
        let ghost av = args@;
        let ghost before = self.builder.stmts@;
        self.builder.push_call(None, "json_decode_zero", args);
        proof {
            assert(av =~= seq![local_op(dst), int_op(destination_size(*target_mir, by_address) as i64)]);
            assert(self.builder.stmts@.drop_last() =~= before);
        }
        dst
    }
}

/// `Store { addr, offset, Int(value), Some(8) }`.
fn store_word_exec(addr: LocalId, offset: u32, value: i64) -> (r: MirStmt)
    ensures
        r == store_word(addr, offset, int_op(value)),
{
    MirStmt::Store { addr, offset, value: MirOperand::Constant(MirConst::Int(value)), store_size: Some(8) }
}

/// Whether the string `a` reads `b`.
fn str_eq_owned(a: &String, b: &str) -> (r: bool)
    ensures
        r == (a@ == b@),
{
    crate::text::str_eq(a.as_str(), b)
}

} // verus!
