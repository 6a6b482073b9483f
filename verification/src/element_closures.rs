//! `v.read(i, f)` and `v.modify(i, f)` on a Vec, and the same on a Map by
//! key: the element, when there is one, handed to the closure `f`, whose
//! answer comes back as an optional. `modify` also writes the closure's
//! parameter back into the collection. `m.modify_with_default(k, make,
//! f)` first inserts what `make` gives when the key is missing.
//!
//! The closure's body is inlined by the expression lowering between the
//! two steps here: `lower_vec_element_closure` (or
//! `lower_map_value_closure`) leaves the builder in the block that has the
//! element, and `finish_vec_element_closure` takes the body's value.

use vstd::prelude::*;
use crate::builder::{emitted, lemma_recorded_start, recorded, LocalDecl, MirBuilder, StmtForm};
use crate::control::assign_use;
use crate::iterators::{assign_op, int_op, local_op};
use crate::lowerer::MirLowerer;
use crate::mir::{
    size_fits, size_of, BinOp, BlockId, LocalId, MirConst, MirOperand, MirRValue, MirStmt, MirTerminator, MirType,
};
use crate::sorting::call_form;

verus! {

/// An element access begun by `lower_vec_element_closure`: the locals
/// holding the Vec, the index, the optional answer and the element, and
/// the blocks for a missing element and for where the two ways meet.
#[derive(Clone, Copy, Debug, PartialEq, Eq, Structural)]
pub struct ElementAccess {
    pub collection: LocalId,
    pub idx: LocalId,
    pub result: LocalId,
    pub elem: LocalId,
    pub absent_block: BlockId,
    pub merge_block: BlockId,
    /// The collection is a Map, keyed by `idx`, rather than a Vec.
    pub on_map: bool,
}

/// The runtime function that writes a modified element back: `Map_insert`
/// for a Map, `Vec_set` for a Vec.
pub open spec fn write_back_func(on_map: bool) -> Seq<char> {
    if on_map {
        "Map_insert"@
    } else {
        "Vec_set"@
    }
}

/// The store of `value` into the optional `result` at `offset`.
pub open spec fn opt_store(result: LocalId, offset: u32, value: MirOperand, size: Option<u32>) -> MirStmt {
    MirStmt::Store { addr: result, offset, value, store_size: size }
}

/// The width an optional's payload store takes: the value's, at least 1.
pub open spec fn payload_width(ty: MirType) -> u32 {
    if size_of(ty) == 0 {
        1
    } else {
        size_of(ty) as u32
    }
}

/// What `lower_vec_element_closure` emits on a pointer receiver, from `old`
/// to `new`, with the element type `et`, answering `r`; see there.
pub open spec fn vec_element_begun(
    old: MirBuilder,
    new: MirBuilder,
    obj_op: MirOperand,
    obj_ty: MirType,
    et: MirType,
    index_op: MirOperand,
    r: ElementAccess,
) -> bool {
    let b = old;
    let n = b.locals@.len();
    let t = b.terms@.len();
    let c = b.current;
    let l = |k: nat| LocalId((n + k) as usize);
    let present = BlockId(t as usize);
    let absent = BlockId((t + 1) as usize);
    let merge = BlockId((t + 2) as usize);
    &&& r == (ElementAccess {
            collection: l(0),
            idx: l(1),
            result: l(6),
            elem: l(7),
            absent_block: absent,
            merge_block: merge,
            on_map: false,
        })
    &&& recorded(
        b,
        new,
        seq![
            obj_ty,
            MirType::I64,
            MirType::I64,
            MirType::Bool,
            MirType::Bool,
            MirType::Bool,
            MirType::Option(Box::new(MirType::I64)),
            et,
        ],
        seq![
            (c, StmtForm::Exact(assign_use(l(0), obj_op))),
            (c, StmtForm::Exact(assign_use(l(1), index_op))),
            (c, call_form(Some(l(2)), "Vec_len"@, seq![local_op(l(0))])),
            (c, StmtForm::Exact(assign_op(l(3), BinOp::Ge, local_op(l(1)), int_op(0)))),
            (c, StmtForm::Exact(assign_op(l(4), BinOp::Lt, local_op(l(1)), local_op(l(2))))),
            (c, StmtForm::Exact(assign_op(l(5), BinOp::And, local_op(l(3)), local_op(l(4))))),
            (present, call_form(Some(l(7)), "Vec_get"@, seq![local_op(l(0)), local_op(l(1))])),
        ],
    )
    &&& new.terms@ == b.terms@.update(
        c.0 as int,
        Some(MirTerminator::Branch { cond: local_op(l(5)), then_block: present, else_block: absent }),
    ) + seq![None, None, None]
    &&& new.current == present
}

/// What `finish_vec_element_closure` emits from `old` to `new` for the
/// access `acc`, the method `method`, the body's value `body_op` of type
/// `body_ty` and the parameter's local `param`, answering `r`; see there.
pub open spec fn vec_element_finished(
    old: MirBuilder,
    new: MirBuilder,
    acc: ElementAccess,
    method: Seq<char>,
    body_op: MirOperand,
    body_ty: MirType,
    param: Option<LocalId>,
    r: (MirOperand, MirType),
) -> bool {
    let b = old;
    let cur = b.current;
    let m = b.stmts@.len() as int;
    let set_forms = if method == "modify"@ && param is Some {
        seq![
            (
                cur,
                call_form(
                    None,
                    write_back_func(acc.on_map),
                    seq![local_op(acc.collection), local_op(acc.idx), local_op(param->0)],
                ),
            ),
        ]
    } else {
        Seq::empty()
    };
    let rty = MirType::Option(Box::new(body_ty));
    &&& new.locals@ == b.locals@.update(
        acc.result.0 as int,
        LocalDecl { name: b.locals@[acc.result.0 as int].name, ty: rty },
    )
    &&& new.stmts@.subrange(0, m) == b.stmts@
    &&& emitted(
        new.stmts@,
        m,
        set_forms + seq![
            (cur, StmtForm::Exact(opt_store(acc.result, 0, int_op(0), None))),
            (cur, StmtForm::Exact(opt_store(acc.result, 8, body_op, Some(payload_width(body_ty))))),
            (acc.absent_block, StmtForm::Exact(opt_store(acc.result, 0, int_op(1), None))),
        ],
    )
    &&& new.terms@ == b.terms@.update(
        cur.0 as int,
        Some(MirTerminator::Goto { target: acc.merge_block }),
    ).update(acc.absent_block.0 as int, Some(MirTerminator::Goto { target: acc.merge_block }))
    &&& new.current == acc.merge_block
    &&& r == (local_op(acc.result), rty)
}

impl MirLowerer {
    /// The first step of `v.read(i, f)` / `v.modify(i, f)` on the lowered
    /// receiver `obj_op` of type `obj_ty`, with the lowered index
    /// `index_op`; `elem_ty` is the element type recorded for the Vec
    /// (`i64` when none is). Nothing, and nothing emitted, when the receiver
    /// is not a pointer. Otherwise, in the current block: the Vec and the
    /// index copied into temps, the Vec's `Vec_len`, whether the index is
    /// at least 0, below the length, and both; an optional temp for the
    /// answer; three new blocks (element present, absent, meeting) and a
    /// branch on the range test; in the present block the element read
    /// with `Vec_get` into a temp, where the builder is left for the
    /// closure's body.
    pub fn lower_vec_element_closure(
        &mut self,
        obj_op: MirOperand,
        obj_ty: &MirType,
        elem_ty: Option<&MirType>,
        index_op: MirOperand,
    ) -> (r: Option<ElementAccess>)
        requires
            old(self).builder.wf(),
        ensures
            !(*obj_ty is Ptr) ==> r is None && final(self).builder == old(self).builder,
            *obj_ty is Ptr ==> r is Some && vec_element_begun(
                old(self).builder,
                final(self).builder,
                obj_op,
                *obj_ty,
                match elem_ty {
                    Some(e) => *e,
                    None => MirType::I64,
                },
                index_op,
                r->0,
            ),
            final(self).builder.wf(),
            final(self).ctx == old(self).ctx,
    {
        let is_ptr = match obj_ty {
            MirType::Ptr => true,
            _ => false,
        };
        if !is_ptr {
            return None;
        }
        let et = match elem_ty {
            Some(e) => e.duplicate(),
            None => MirType::I64,
        };
        let ghost b0 = self.builder;
        let ghost c = b0.current;
        let ghost oo = obj_op;
        let ghost io = index_op;
        proof {
            lemma_recorded_start(b0);
        }
        let ghost mut temps: Seq<MirType> = Seq::empty();
        let ghost mut forms: Seq<(BlockId, StmtForm)> = Seq::empty();
        let collection = self.builder.temp_rec(Ghost(b0), Ghost(temps), Ghost(forms), obj_ty.duplicate());
        proof { temps = temps.push(*obj_ty); }
        self.builder.stmt_rec(Ghost(b0), Ghost(temps), Ghost(forms), MirStmt::Assign { dst: collection, rvalue: MirRValue::Use(obj_op) });
        proof { forms = forms.push((c, StmtForm::Exact(assign_use(collection, oo)))); }
        let idx = self.builder.temp_rec(Ghost(b0), Ghost(temps), Ghost(forms), MirType::I64);
        proof { temps = temps.push(MirType::I64); }
        self.builder.stmt_rec(Ghost(b0), Ghost(temps), Ghost(forms), MirStmt::Assign { dst: idx, rvalue: MirRValue::Use(index_op) });
        proof { forms = forms.push((c, StmtForm::Exact(assign_use(idx, io)))); }
        let len = self.builder.temp_rec(Ghost(b0), Ghost(temps), Ghost(forms), MirType::I64);
        proof { temps = temps.push(MirType::I64); }
        let a1 = vec![MirOperand::Local(collection)];
        let ghost av1 = a1@;
        self.builder.call_rec(Ghost(b0), Ghost(temps), Ghost(forms), Some(len), "Vec_len", a1);
        proof {
            assert(av1 =~= seq![local_op(collection)]);
            forms = forms.push((c, call_form(Some(len), "Vec_len"@, av1)));
        }
        let non_negative = self.builder.temp_rec(Ghost(b0), Ghost(temps), Ghost(forms), MirType::Bool);
        proof { temps = temps.push(MirType::Bool); }
        self.builder.stmt_rec(
            Ghost(b0),
            Ghost(temps),
            Ghost(forms),
            MirStmt::Assign {
                dst: non_negative,
                rvalue: MirRValue::BinaryOp { op: BinOp::Ge, left: MirOperand::Local(idx), right: MirOperand::Constant(MirConst::Int(0)) },
            },
        );
        proof { forms = forms.push((c, StmtForm::Exact(assign_op(non_negative, BinOp::Ge, local_op(idx), int_op(0))))); }
        let below_len = self.builder.temp_rec(Ghost(b0), Ghost(temps), Ghost(forms), MirType::Bool);
        proof { temps = temps.push(MirType::Bool); }
        self.builder.stmt_rec(
            Ghost(b0),
            Ghost(temps),
            Ghost(forms),
            MirStmt::Assign {
                dst: below_len,
                rvalue: MirRValue::BinaryOp { op: BinOp::Lt, left: MirOperand::Local(idx), right: MirOperand::Local(len) },
            },
        );
        proof { forms = forms.push((c, StmtForm::Exact(assign_op(below_len, BinOp::Lt, local_op(idx), local_op(len))))); }
        let in_range = self.builder.temp_rec(Ghost(b0), Ghost(temps), Ghost(forms), MirType::Bool);
        proof { temps = temps.push(MirType::Bool); }
        self.builder.stmt_rec(
            Ghost(b0),
            Ghost(temps),
            Ghost(forms),
            MirStmt::Assign {
                dst: in_range,
                rvalue: MirRValue::BinaryOp {
                    op: BinOp::And,
                    left: MirOperand::Local(non_negative),
                    right: MirOperand::Local(below_len),
                },
            },
        );
        proof {
            forms = forms.push((c, StmtForm::Exact(assign_op(in_range, BinOp::And, local_op(non_negative), local_op(below_len)))));
        }
        let result = self.builder.temp_rec(Ghost(b0), Ghost(temps), Ghost(forms), MirType::Option(Box::new(MirType::I64)));
        proof { temps = temps.push(MirType::Option(Box::new(MirType::I64))); }
        let present_block = self.builder.create_block();
        let absent_block = self.builder.create_block();
        let merge_block = self.builder.create_block();
        self.builder.terminate(
            MirTerminator::Branch { cond: MirOperand::Local(in_range), then_block: present_block, else_block: absent_block },
        );
        self.builder.switch_to_block(present_block);
        let ghost get = et;
        let elem = self.builder.temp_rec(Ghost(b0), Ghost(temps), Ghost(forms), et);
        proof { temps = temps.push(get); }
        let a2 = vec![MirOperand::Local(collection), MirOperand::Local(idx)];
        let ghost av2 = a2@;
        self.builder.call_rec(Ghost(b0), Ghost(temps), Ghost(forms), Some(elem), "Vec_get", a2);
        proof {
            assert(av2 =~= seq![local_op(collection), local_op(idx)]);
            forms = forms.push((present_block, call_form(Some(elem), "Vec_get"@, av2)));
            assert(temps =~= seq![
                *obj_ty,
                MirType::I64,
                MirType::I64,
                MirType::Bool,
                MirType::Bool,
                MirType::Bool,
                MirType::Option(Box::new(MirType::I64)),
                get,
            ]);
            assert(self.builder.terms@ =~= b0.terms@.update(
                c.0 as int,
                Some(MirTerminator::Branch { cond: local_op(in_range), then_block: present_block, else_block: absent_block }),
            ) + seq![None, None, None]);
        }
        Some(ElementAccess { collection, idx, result, elem, absent_block, merge_block, on_map: false })
    }

    /// The first step of `m.read(k, f)` / `m.modify(k, f)` on the lowered
    /// Map `obj_op` of type `obj_ty`, with the lowered key `key_op` of type
    /// `key_ty`; `value_ty` is the value type recorded for the Map (`i64`
    /// when none is). In the current block: the Map and the key copied into
    /// temps, `Map_contains_key` of them into a `bool` temp, and an optional
    /// temp for the answer; three new blocks (present, absent, meeting) and
    /// a branch on the test; in the present block the value read with
    /// `Map_get_unwrap` into a temp, where the builder is left for the
    /// closure's body. `finish_vec_element_closure` ends it.
    pub fn lower_map_value_closure(
        &mut self,
        obj_op: MirOperand,
        obj_ty: &MirType,
        value_ty: Option<&MirType>,
        key_op: MirOperand,
        key_ty: &MirType,
    ) -> (r: ElementAccess)
        requires
            old(self).builder.wf(),
        ensures
            ({
                let b = old(self).builder;
                let n = b.locals@.len();
                let t = b.terms@.len();
                let c = b.current;
                let l = |k: nat| LocalId((n + k) as usize);
                let present = BlockId(t as usize);
                let absent = BlockId((t + 1) as usize);
                let merge = BlockId((t + 2) as usize);
                let vt = match value_ty {
                    Some(v) => *v,
                    None => MirType::I64,
                };
                &&& r == ElementAccess {
                    collection: l(0),
                    idx: l(1),
                    result: l(3),
                    elem: l(4),
                    absent_block: absent,
                    merge_block: merge,
                    on_map: true,
                }
                &&& recorded(
                    b,
                    final(self).builder,
                    seq![*obj_ty, *key_ty, MirType::Bool, MirType::Option(Box::new(MirType::I64)), vt],
                    seq![
                        (c, StmtForm::Exact(assign_use(l(0), obj_op))),
                        (c, StmtForm::Exact(assign_use(l(1), key_op))),
                        (c, call_form(Some(l(2)), "Map_contains_key"@, seq![local_op(l(0)), local_op(l(1))])),
                        (present, call_form(Some(l(4)), "Map_get_unwrap"@, seq![local_op(l(0)), local_op(l(1))])),
                    ],
                )
                &&& final(self).builder.terms@ == b.terms@.update(
                    c.0 as int,
                    Some(MirTerminator::Branch { cond: local_op(l(2)), then_block: present, else_block: absent }),
                ) + seq![None, None, None]
                &&& final(self).builder.current == present
            }),
            final(self).builder.wf(),
            final(self).ctx == old(self).ctx,
    {
        let vt = match value_ty {
            Some(v) => v.duplicate(),
            None => MirType::I64,
        };
        let ghost b0 = self.builder;
        let ghost c = b0.current;
        let ghost oo = obj_op;
        let ghost ko = key_op;
        proof {
            lemma_recorded_start(b0);
        }
        let ghost mut temps: Seq<MirType> = Seq::empty();
        let ghost mut forms: Seq<(BlockId, StmtForm)> = Seq::empty();
        let map = self.builder.temp_rec(Ghost(b0), Ghost(temps), Ghost(forms), obj_ty.duplicate());
        proof { temps = temps.push(*obj_ty); }
        self.builder.stmt_rec(Ghost(b0), Ghost(temps), Ghost(forms), MirStmt::Assign { dst: map, rvalue: MirRValue::Use(obj_op) });
        proof { forms = forms.push((c, StmtForm::Exact(assign_use(map, oo)))); }
        let key = self.builder.temp_rec(Ghost(b0), Ghost(temps), Ghost(forms), key_ty.duplicate());
        proof { temps = temps.push(*key_ty); }
        self.builder.stmt_rec(Ghost(b0), Ghost(temps), Ghost(forms), MirStmt::Assign { dst: key, rvalue: MirRValue::Use(key_op) });
        proof { forms = forms.push((c, StmtForm::Exact(assign_use(key, ko)))); }
        let present = self.builder.temp_rec(Ghost(b0), Ghost(temps), Ghost(forms), MirType::Bool);
        proof { temps = temps.push(MirType::Bool); }
        let a1 = vec![MirOperand::Local(map), MirOperand::Local(key)];
        let ghost av1 = a1@;
        self.builder.call_rec(Ghost(b0), Ghost(temps), Ghost(forms), Some(present), "Map_contains_key", a1);
        proof {
            assert(av1 =~= seq![local_op(map), local_op(key)]);
            forms = forms.push((c, call_form(Some(present), "Map_contains_key"@, av1)));
        }
        let result = self.builder.temp_rec(Ghost(b0), Ghost(temps), Ghost(forms), MirType::Option(Box::new(MirType::I64)));
        proof { temps = temps.push(MirType::Option(Box::new(MirType::I64))); }
        let present_block = self.builder.create_block();
        let absent_block = self.builder.create_block();
        let merge_block = self.builder.create_block();
        self.builder.terminate(
            MirTerminator::Branch { cond: MirOperand::Local(present), then_block: present_block, else_block: absent_block },
        );
        self.builder.switch_to_block(present_block);
        let ghost gvt = vt;
        let value = self.builder.temp_rec(Ghost(b0), Ghost(temps), Ghost(forms), vt);
        proof { temps = temps.push(gvt); }
        let a2 = vec![MirOperand::Local(map), MirOperand::Local(key)];
        let ghost av2 = a2@;
        self.builder.call_rec(Ghost(b0), Ghost(temps), Ghost(forms), Some(value), "Map_get_unwrap", a2);
        proof {
            assert(av2 =~= seq![local_op(map), local_op(key)]);
            forms = forms.push((present_block, call_form(Some(value), "Map_get_unwrap"@, av2)));
            assert(temps =~= seq![*obj_ty, *key_ty, MirType::Bool, MirType::Option(Box::new(MirType::I64)), gvt]);
            assert(self.builder.terms@ =~= b0.terms@.update(
                c.0 as int,
                Some(MirTerminator::Branch { cond: local_op(present), then_block: present_block, else_block: absent_block }),
            ) + seq![None, None, None]);
        }
        ElementAccess { collection: map, idx: key, result, elem: value, absent_block, merge_block, on_map: true }
    }

    /// The last step of `v.read(i, f)` / `v.modify(i, f)` begun as `acc`,
    /// with the closure's body lowered to `body_op` of type `body_ty`, and
    /// `param` the local the closure's parameter was bound to, if any. In
    /// the current block: for `modify` with a parameter, `Vec_set` (for a
    /// Map, `Map_insert`) writes it back at the index or key; the answer's tag is set to 0 and the body's
    /// value stored after it; then on to the meeting block. In the absent
    /// block the tag is set to 1, then on to the meeting block. The builder
    /// is left there, the answer's temp retyped to an optional of the
    /// body's type, which is the answer.
    pub fn finish_vec_element_closure(
        &mut self,
        acc: ElementAccess,
        method: &str,
        body_op: MirOperand,
        body_ty: MirType,
        param: Option<LocalId>,
    ) -> (r: (MirOperand, MirType))
        requires
            old(self).builder.wf(),
            acc.absent_block.0 < old(self).builder.terms@.len(),
            acc.merge_block.0 < old(self).builder.terms@.len(),
            acc.result.0 < old(self).builder.locals@.len(),
            size_fits(body_ty),
        ensures
            vec_element_finished(old(self).builder, final(self).builder, acc, method@, body_op, body_ty, param, r),
            final(self).builder.wf(),
            final(self).ctx == old(self).ctx,
    {
        let ghost b0 = self.builder;
        let ghost cur = b0.current;
        let ghost bo = body_op;
        proof {
            lemma_recorded_start(b0);
        }
        let ghost no_temps: Seq<MirType> = Seq::empty();
        let ghost mut forms: Seq<(BlockId, StmtForm)> = Seq::empty();
        if str_eq_modify(method) {
            if let Some(p) = param {
                let a = vec![MirOperand::Local(acc.collection), MirOperand::Local(acc.idx), MirOperand::Local(p)];
                let ghost av = a@;
                let func = if acc.on_map {
                    "Map_insert"
                } else {
                    "Vec_set"
                };
                self.builder.call_rec(Ghost(b0), Ghost(no_temps), Ghost(forms), None, func, a);
                proof {
                    assert(av =~= seq![local_op(acc.collection), local_op(acc.idx), local_op(p)]);
                    assert(func@ == write_back_func(acc.on_map));
                    forms = forms.push((cur, call_form(None, write_back_func(acc.on_map), av)));
                }
            }
        }
        self.builder.stmt_rec(
            Ghost(b0),
            Ghost(no_temps),
            Ghost(forms),
            MirStmt::Store { addr: acc.result, offset: 0, value: MirOperand::Constant(MirConst::Int(0)), store_size: None },
        );
        proof { forms = forms.push((cur, StmtForm::Exact(opt_store(acc.result, 0, int_op(0), None)))); }
        let size = body_ty.size();
        let width: u32 = if size == 0 {
            1
        } else {
            size
        };
        self.builder.stmt_rec(
            Ghost(b0),
            Ghost(no_temps),
            Ghost(forms),
            MirStmt::Store { addr: acc.result, offset: 8, value: body_op, store_size: Some(width) },
        );
        proof { forms = forms.push((cur, StmtForm::Exact(opt_store(acc.result, 8, bo, Some(payload_width(body_ty)))))); }
        self.builder.terminate(MirTerminator::Goto { target: acc.merge_block });
        self.builder.switch_to_block(acc.absent_block);
        self.builder.stmt_rec(
            Ghost(b0),
            Ghost(no_temps),
            Ghost(forms),
            MirStmt::Store { addr: acc.result, offset: 0, value: MirOperand::Constant(MirConst::Int(1)), store_size: None },
        );
        proof { forms = forms.push((acc.absent_block, StmtForm::Exact(opt_store(acc.result, 0, int_op(1), None)))); }
        self.builder.terminate(MirTerminator::Goto { target: acc.merge_block });
        self.builder.switch_to_block(acc.merge_block);
        let rty = MirType::Option(Box::new(body_ty));
        let rty2 = rty.duplicate();
        let ghost before = self.builder;
        self.builder.set_local_type(acc.result, rty);
        proof {
            let set_forms = if method@ == "modify"@ && param is Some {
                seq![
                    (
                        cur,
                        call_form(
                            None,
                            write_back_func(acc.on_map),
                            seq![local_op(acc.collection), local_op(acc.idx), local_op(param->0)],
                        ),
                    ),
                ]
            } else {
                Seq::empty()
            };
            assert(forms =~= set_forms + seq![
                (cur, StmtForm::Exact(opt_store(acc.result, 0, int_op(0), None))),
                (cur, StmtForm::Exact(opt_store(acc.result, 8, bo, Some(payload_width(body_ty))))),
                (acc.absent_block, StmtForm::Exact(opt_store(acc.result, 0, int_op(1), None))),
            ]);
            assert(before.locals@ =~= b0.locals@);
        }
        (MirOperand::Local(acc.result), rty2)
    }
}

/// A `m.modify_with_default(k, make, f)` begun by
/// `lower_map_entry_modify`: the locals holding the Map and the key, the
/// block that has the entry, and the value type recorded for the Map.
#[derive(Debug)]
pub struct MapEntry {
    pub map: LocalId,
    pub key: LocalId,
    pub have_block: BlockId,
    pub value_ty: MirType,
}

impl MirLowerer {
    /// The first step of `m.modify_with_default(k, make, f)` on the lowered
    /// Map `obj_op` of type `obj_ty`, with the lowered key `key_op` of type
    /// `key_ty`; `value_ty` is the value type recorded for the Map (`i64`
    /// when none is). In the current block: the Map and the key copied into
    /// temps and `Map_contains_key` of them; two new blocks, one to insert
    /// the default and one that has the entry, and a branch on the test to
    /// the second when the key is there. The builder is left in the insert
    /// block, where the default's factory `make` is lowered next.
    pub fn lower_map_entry_modify(
        &mut self,
        obj_op: MirOperand,
        obj_ty: &MirType,
        value_ty: Option<&MirType>,
        key_op: MirOperand,
        key_ty: &MirType,
    ) -> (r: MapEntry)
        requires
            old(self).builder.wf(),
        ensures
            ({
                let b = old(self).builder;
                let n = b.locals@.len();
                let t = b.terms@.len();
                let c = b.current;
                let l = |k: nat| LocalId((n + k) as usize);
                let insert = BlockId(t as usize);
                let have = BlockId((t + 1) as usize);
                &&& r.map == l(0)
                &&& r.key == l(1)
                &&& r.have_block == have
                &&& r.value_ty == match value_ty {
                    Some(v) => *v,
                    None => MirType::I64,
                }
                &&& recorded(
                    b,
                    final(self).builder,
                    seq![*obj_ty, *key_ty, MirType::Bool],
                    seq![
                        (c, StmtForm::Exact(assign_use(l(0), obj_op))),
                        (c, StmtForm::Exact(assign_use(l(1), key_op))),
                        (c, call_form(Some(l(2)), "Map_contains_key"@, seq![local_op(l(0)), local_op(l(1))])),
                    ],
                )
                &&& final(self).builder.terms@ == b.terms@.update(
                    c.0 as int,
                    Some(MirTerminator::Branch { cond: local_op(l(2)), then_block: have, else_block: insert }),
                ) + seq![None, None]
                &&& final(self).builder.current == insert
            }),
            final(self).builder.wf(),
            final(self).ctx == old(self).ctx,
    {
        let vt = match value_ty {
            Some(v) => v.duplicate(),
            None => MirType::I64,
        };
        let ghost b0 = self.builder;
        let ghost c = b0.current;
        let ghost oo = obj_op;
        let ghost ko = key_op;
        proof {
            lemma_recorded_start(b0);
        }
        let ghost mut temps: Seq<MirType> = Seq::empty();
        let ghost mut forms: Seq<(BlockId, StmtForm)> = Seq::empty();
        let map = self.builder.temp_rec(Ghost(b0), Ghost(temps), Ghost(forms), obj_ty.duplicate());
        proof { temps = temps.push(*obj_ty); }
        self.builder.stmt_rec(Ghost(b0), Ghost(temps), Ghost(forms), MirStmt::Assign { dst: map, rvalue: MirRValue::Use(obj_op) });
        proof { forms = forms.push((c, StmtForm::Exact(assign_use(map, oo)))); }
        let key = self.builder.temp_rec(Ghost(b0), Ghost(temps), Ghost(forms), key_ty.duplicate());
        proof { temps = temps.push(*key_ty); }
        self.builder.stmt_rec(Ghost(b0), Ghost(temps), Ghost(forms), MirStmt::Assign { dst: key, rvalue: MirRValue::Use(key_op) });
        proof { forms = forms.push((c, StmtForm::Exact(assign_use(key, ko)))); }
        let present = self.builder.temp_rec(Ghost(b0), Ghost(temps), Ghost(forms), MirType::Bool);
        proof { temps = temps.push(MirType::Bool); }
        let a1 = vec![MirOperand::Local(map), MirOperand::Local(key)];
        let ghost av1 = a1@;
        self.builder.call_rec(Ghost(b0), Ghost(temps), Ghost(forms), Some(present), "Map_contains_key", a1);
        proof {
            assert(av1 =~= seq![local_op(map), local_op(key)]);
            forms = forms.push((c, call_form(Some(present), "Map_contains_key"@, av1)));
        }
        let insert_block = self.builder.create_block();
        let have_block = self.builder.create_block();
        self.builder.terminate(
            MirTerminator::Branch { cond: MirOperand::Local(present), then_block: have_block, else_block: insert_block },
        );
        self.builder.switch_to_block(insert_block);
        proof {
            assert(temps =~= seq![*obj_ty, *key_ty, MirType::Bool]);
            assert(self.builder.terms@ =~= b0.terms@.update(
                c.0 as int,
                Some(MirTerminator::Branch { cond: local_op(present), then_block: have_block, else_block: insert_block }),
            ) + seq![None, None]);
        }
        MapEntry { map, key, have_block, value_ty: vt }
    }

    /// The middle step of `modify_with_default` begun as `entry`, with the
    /// factory's value lowered to `default_op`: `Map_insert` of it under the
    /// key, on to the block that has the entry, and there the value read
    /// with `Map_get_unwrap` into a new temp of the value type, which is
    /// handed to the closure `f`, lowered next.
    pub fn map_entry_insert_default(&mut self, entry: &MapEntry, default_op: MirOperand) -> (r: LocalId)
        requires
            old(self).builder.wf(),
            entry.have_block.0 < old(self).builder.terms@.len(),
        ensures
            ({
                let b = old(self).builder;
                let c = b.current;
                &&& r == LocalId(b.locals@.len() as usize)
                &&& recorded(
                    b,
                    final(self).builder,
                    seq![entry.value_ty],
                    seq![
                        (c, call_form(None, "Map_insert"@, seq![local_op(entry.map), local_op(entry.key), default_op])),
                        (
                            entry.have_block,
                            call_form(Some(r), "Map_get_unwrap"@, seq![local_op(entry.map), local_op(entry.key)]),
                        ),
                    ],
                )
                &&& final(self).builder.terms@ == b.terms@.update(
                    c.0 as int,
                    Some(MirTerminator::Goto { target: entry.have_block }),
                )
                &&& final(self).builder.current == entry.have_block
            }),
            final(self).builder.wf(),
            final(self).ctx == old(self).ctx,
    {
        let ghost b0 = self.builder;
        let ghost c = b0.current;
        let ghost d = default_op;
        proof {
            lemma_recorded_start(b0);
        }
        let ghost no_temps: Seq<MirType> = Seq::empty();
        let ghost mut forms: Seq<(BlockId, StmtForm)> = Seq::empty();
        let a1 = vec![MirOperand::Local(entry.map), MirOperand::Local(entry.key), default_op];
        let ghost av1 = a1@;
        self.builder.call_rec(Ghost(b0), Ghost(no_temps), Ghost(forms), None, "Map_insert", a1);
        proof {
            assert(av1 =~= seq![local_op(entry.map), local_op(entry.key), d]);
            forms = forms.push((c, call_form(None, "Map_insert"@, av1)));
        }
        self.builder.terminate(MirTerminator::Goto { target: entry.have_block });
        self.builder.switch_to_block(entry.have_block);
        let value = self.builder.temp_rec(Ghost(b0), Ghost(no_temps), Ghost(forms), entry.value_ty.duplicate());
        let ghost one = seq![entry.value_ty];
        proof {
            assert(no_temps.push(entry.value_ty) =~= one);
        }
        let a2 = vec![MirOperand::Local(entry.map), MirOperand::Local(entry.key)];
        let ghost av2 = a2@;
        self.builder.call_rec(Ghost(b0), Ghost(one), Ghost(forms), Some(value), "Map_get_unwrap", a2);
        proof {
            assert(av2 =~= seq![local_op(entry.map), local_op(entry.key)]);
        }
        value
    }

    /// The last step of `modify_with_default` begun as `entry`, with the
    /// closure's body lowered to `body_op` of type `body_ty` and its
    /// parameter bound to `param`, if any: `Map_insert` writes the
    /// parameter back under the key, in the current block. The answer is
    /// the body's value, not an optional: after the insert there is always
    /// an entry.
    pub fn finish_map_entry_modify(
        &mut self,
        entry: &MapEntry,
        body_op: MirOperand,
        body_ty: MirType,
        param: Option<LocalId>,
    ) -> (r: (MirOperand, MirType))
        ensures
            ({
                let b = old(self).builder;
                match param {
                    Some(p) => recorded(
                        b,
                        final(self).builder,
                        Seq::empty(),
                        seq![
                            (
                                b.current,
                                call_form(None, "Map_insert"@, seq![local_op(entry.map), local_op(entry.key), local_op(p)]),
                            ),
                        ],
                    ) && final(self).builder.terms@ == b.terms@ && final(self).builder.current == b.current,
                    None => final(self).builder == b,
                }
            }),
            r == (body_op, body_ty),
            final(self).ctx == old(self).ctx,
    {
        if let Some(p) = param {
            let ghost b0 = self.builder;
            proof {
                lemma_recorded_start(b0);
            }
            let ghost no_temps: Seq<MirType> = Seq::empty();
            let ghost no_forms: Seq<(BlockId, StmtForm)> = Seq::empty();
            let a = vec![MirOperand::Local(entry.map), MirOperand::Local(entry.key), MirOperand::Local(p)];
            let ghost av = a@;
            self.builder.call_rec(Ghost(b0), Ghost(no_temps), Ghost(no_forms), None, "Map_insert", a);
            proof {
                assert(av =~= seq![local_op(entry.map), local_op(entry.key), local_op(p)]);
            }
        }
        (body_op, body_ty)
    }
}

/// Whether `method` is `modify`.
fn str_eq_modify(method: &str) -> (r: bool)
    ensures
        r == (method@ == "modify"@),
{
    crate::text::str_eq(method, "modify")
}

} // verus!
