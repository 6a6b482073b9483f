//! `reflect.fields<T>()` as a value: a `Vec<FieldInfo>` built from the
//! compile-time facts about `T`'s fields.

use vstd::prelude::*;
use crate::builder::{is_call, temp_decl};
use crate::iterators::{int_op, keyed_insert, local_op, placed_all};
use crate::lowerer::{
    first_named, lemma_first_named_at, lemma_first_named_none, struct_id_at, struct_layout_name,
    FieldConst, FieldLayout, LowerCtx, LoweringError, MirLowerer,
};
use crate::mir::{size_fits, size_of, LocalId, MirConst, MirOperand, MirStmt, MirType};

verus! {

/// The fields of `FieldInfo`, in the order their stores are emitted.
pub open spec fn reflect_field_names() -> Seq<Seq<char>> {
    seq![
        "name"@,
        "type_name"@,
        "offset"@,
        "size"@,
        "is_public"@,
        "serial_name"@,
        "is_skipped"@,
        "has_default"@,
    ]
}

/// Reads a field layout's name.
pub open spec fn field_layout_name() -> spec_fn(FieldLayout) -> Seq<char> {
    |f: FieldLayout| f.name@
}

/// For each of the first `k` names of `reflect_field_names` that the
/// layout's `fields` declare: the name's position in that list, and the
/// offset and MIR type of the first field so named.
pub open spec fn reflect_slots(fields: Seq<FieldLayout>, k: int) -> Seq<(int, u32, MirType)>
    decreases k,
{
    if k <= 0 {
        Seq::empty()
    } else {
        let prev = reflect_slots(fields, k - 1);
        match first_named(fields, field_layout_name(), reflect_field_names()[k - 1]) {
            Some(j) => prev.push((k - 1, fields[j].offset, fields[j].mir_ty)),
            None => prev,
        }
    }
}

/// The constant a `FieldInfo` field holds for the field `fc`, by the
/// field's position in `reflect_field_names`.
pub open spec fn field_value(fc: FieldConst, which: int) -> MirConst {
    if which == 0 {
        MirConst::String(fc.name)
    } else if which == 1 {
        MirConst::String(fc.ty_name)
    } else if which == 2 {
        MirConst::Int(fc.offset as i64)
    } else if which == 3 {
        MirConst::Int(fc.size as i64)
    } else if which == 4 {
        MirConst::Bool(fc.is_public)
    } else if which == 5 {
        MirConst::String(fc.serial_name)
    } else if which == 6 {
        MirConst::Bool(fc.is_skipped)
    } else {
        MirConst::Bool(fc.has_default)
    }
}

/// The stores that fill the `FieldInfo` at byte `base` of `arr` from `fc`:
/// one per slot, at the slot's offset and width.
pub open spec fn row_stores(arr: LocalId, base: int, fc: FieldConst, slots: Seq<(int, u32, MirType)>) -> Seq<
    MirStmt,
> {
    Seq::new(
        slots.len(),
        |k: int|
            MirStmt::Store {
                addr: arr,
                offset: (base + slots[k].1) as u32,
                value: MirOperand::Constant(field_value(fc, slots[k].0)),
                store_size: Some(size_of(slots[k].2) as u32),
            },
    )
}

/// The stores that fill the first `i` elements of `arr`, each `size` bytes.
pub open spec fn rows_stores(
    arr: LocalId,
    consts: Seq<FieldConst>,
    size: int,
    slots: Seq<(int, u32, MirType)>,
    i: int,
) -> Seq<MirStmt>
    decreases i,
{
    if i <= 0 {
        Seq::empty()
    } else {
        rows_stores(arr, consts, size, slots, i - 1) + row_stores(
            arr,
            (i - 1) * size,
            consts[i - 1],
            slots,
        )
    }
}

/// The position of the registered `FieldInfo` layout.
pub open spec fn field_info_index(ctx: LowerCtx) -> Option<int> {
    first_named(ctx.struct_layouts@, struct_layout_name(), "FieldInfo"@)
}

/// The message when no `FieldInfo` layout is registered.
pub open spec fn no_field_info_message() -> Seq<char> {
    "reflect.fields<T>() as a value needs `FieldInfo`, which this program never names \u{2014} add `import std.reflect`"@
}

/// The `FieldInfo` array for `count` fields lays out within `u32`: every
/// element's base and every slot's offset past it fit, and the slots'
/// widths fit.
pub open spec fn reflect_fits(ctx: LowerCtx, count: int) -> bool {
    match field_info_index(ctx) {
        None => true,
        Some(idx) => {
            let layout = ctx.struct_layouts@[idx];
            let slots = reflect_slots(layout.fields@, 8);
            &&& count <= u32::MAX
            &&& forall|k: int| 0 <= k < slots.len() ==> size_fits(#[trigger] slots[k].2)
            &&& count > 0 ==> (count - 1) * layout.size <= u32::MAX
            &&& forall|k: int|
                0 <= k < slots.len() && count > 0 ==> (count - 1) * layout.size + (
                #[trigger] slots[k]).1 <= u32::MAX
        },
    }
}

/// The first field of `fields` named `name`.
fn find_field(fields: &Vec<FieldLayout>, name: &str) -> (r: Option<usize>)
    ensures
        r is Some <==> first_named(fields@, field_layout_name(), name@) is Some,
        r is Some ==> first_named(fields@, field_layout_name(), name@) == Some(r->0 as int) && r->0
            < fields@.len(),
{
    let mut i: usize = 0;
    while i < fields.len()
        invariant
            0 <= i <= fields@.len(),
            forall|j: int| 0 <= j < i ==> fields@[j].name@ != name@,
        decreases fields@.len() - i,
    {
        if crate::text::str_eq(fields[i].name.as_str(), name) {
            proof {
                lemma_first_named_at(fields@, field_layout_name(), name@, i as int);
            }
            return Some(i);
        }
        i = i + 1;
    }
    proof {
        lemma_first_named_none(fields@, field_layout_name(), name@);
    }
    None
}

/// The slots of `FieldInfo` that its layout declares, in name order.
fn field_info_slots(fields: &Vec<FieldLayout>) -> (r: Vec<(usize, u32, MirType)>)
    ensures
        r@.len() == reflect_slots(fields@, 8).len(),
        forall|k: int|
            0 <= k < r@.len() ==> ((#[trigger] r@[k]).0 as int, r@[k].1, r@[k].2) == reflect_slots(
                fields@,
                8,
            )[k],
{
    let names: [&str; 8] = [
        "name",
        "type_name",
        "offset",
        "size",
        "is_public",
        "serial_name",
        "is_skipped",
        "has_default",
    ];
    let mut out: Vec<(usize, u32, MirType)> = Vec::new();
    let mut k: usize = 0;
    while k < 8
        invariant
            k <= 8,
            forall|j: int| 0 <= j < 8 ==> (#[trigger] names@[j])@ == reflect_field_names()[j],
            out@.len() == reflect_slots(fields@, k as int).len(),
            forall|q: int|
                0 <= q < out@.len() ==> ((#[trigger] out@[q]).0 as int, out@[q].1, out@[q].2)
                    == reflect_slots(fields@, k as int)[q],
        decreases 8 - k,
    {
        proof {
            assert(names@[k as int]@ == reflect_field_names()[k as int]);
        }
        match find_field(fields, names[k]) {
            Some(j) => {
                out.push((k, fields[j].offset, fields[j].mir_ty.duplicate()));
            },
            None => {},
        }
        k = k + 1;
    }
    out
}

impl MirLowerer {
    /// `reflect.fields<T>()` as a value, from `consts`, the compile-time
    /// facts about `T`'s fields: an array of `FieldInfo` literals (each
    /// `FieldInfo` field stored at its own offset and width) handed to
    /// `rask_vec_from_static` with `elem_tag`, the runtime's tag for
    /// `FieldInfo`. The Vec's element type is recorded. An error when no
    /// `FieldInfo` layout is registered.
    pub fn lower_reflect_fields_value(&mut self, consts: &Vec<FieldConst>, elem_tag: i64) -> (r: Result<
        (MirOperand, MirType),
        LoweringError,
    >)
        requires
            old(self).ctx.wf(),
            reflect_fits(old(self).ctx, consts@.len() as int),
        ensures
            match field_info_index(old(self).ctx) {
                None => {
                    &&& r matches Err(LoweringError::InvalidConstruct(msg))
                    &&& msg@ == no_field_info_message()
                    &&& final(self).builder == old(self).builder
                    &&& final(self).collected_elem_types == old(self).collected_elem_types
                },
                Some(idx) => {
                    let layout = old(self).ctx.struct_layouts@[idx];
                    let elem_ty = MirType::Struct(struct_id_at(old(self).ctx, idx));
                    let slots = reflect_slots(layout.fields@, 8);
                    let n = old(self).builder.locals@.len();
                    let m = old(self).builder.stmts@.len() as int;
                    let arr = LocalId(n as usize);
                    let v = LocalId((n + 1) as usize);
                    let stores = rows_stores(arr, consts@, layout.size as int, slots, consts@.len() as int);
                    let new = final(self).builder.stmts@;
                    &&& r == Ok::<(MirOperand, MirType), LoweringError>((local_op(v), MirType::I64))
                    &&& final(self).builder.locals@ == old(self).builder.locals@ + seq![
                        temp_decl(MirType::Array { elem: Box::new(elem_ty), len: consts@.len() as u32 }),
                        temp_decl(MirType::I64),
                    ]
                    &&& new.len() == m + stores.len() + 1
                    &&& new.subrange(0, m + stores.len()) == old(self).builder.stmts@ + placed_all(
                        old(self).builder.current,
                        stores,
                    )
                    &&& new[m + stores.len()].block == old(self).builder.current
                    &&& is_call(
                        new[m + stores.len()].stmt,
                        Some(v),
                        "rask_vec_from_static"@,
                        seq![
                            local_op(arr),
                            int_op(consts@.len() as i64),
                            int_op(layout.size as i64),
                            int_op(elem_tag),
                        ],
                    )
                    &&& final(self).collected_elem_types@ == keyed_insert(
                        old(self).collected_elem_types@,
                        v,
                        elem_ty,
                    )
                    &&& final(self).builder.terms@ == old(self).builder.terms@
                    &&& final(self).builder.current == old(self).builder.current
                },
            },
            final(self).ctx == old(self).ctx,
    {
        let idx = match self.ctx.find_struct("FieldInfo") {
            Some(i) => i,
            None => {
                return Err(
                    LoweringError::InvalidConstruct(
                        String::from_str(
                            "reflect.fields<T>() as a value needs `FieldInfo`, which this program never names \u{2014} add `import std.reflect`",
                        ),
                    ),
                );
            },
        };
        let slots = field_info_slots(&self.ctx.struct_layouts[idx].fields);
        let elem_ty = MirType::Struct(self.ctx.struct_layout_id(idx));
        let elem_size = self.ctx.struct_layouts[idx].size;
        let ghost layout = self.ctx.struct_layouts@[idx as int];
        let ghost sl = reflect_slots(layout.fields@, 8);
        let count = consts.len();
        let arr = self.builder.alloc_temp(
            MirType::Array { elem: Box::new(elem_ty.duplicate()), len: count as u32 },
        );
        let ghost m = self.builder.stmts@.len() as int;
        let ghost c = self.builder.current;
        let ghost start_stmts = self.builder.stmts@;
        let mut i: usize = 0;
        while i < count
            invariant
                i <= count,
                count == consts@.len(),
                count <= u32::MAX,
                elem_size == layout.size,
                slots@.len() == sl.len(),
                forall|k: int| 0 <= k < slots@.len() ==> ((#[trigger] slots@[k]).0 as int, slots@[k].1, slots@[k].2) == sl[k],
                forall|k: int| 0 <= k < sl.len() ==> size_fits(#[trigger] sl[k].2),
                count > 0 ==> (count - 1) * layout.size <= u32::MAX,
                forall|k: int|
                    0 <= k < sl.len() && count > 0 ==> (count - 1) * layout.size + (#[trigger] sl[k]).1
                        <= u32::MAX,
                m == start_stmts.len(),
                self.builder.stmts@ == start_stmts + placed_all(
                    c,
                    rows_stores(arr, consts@, layout.size as int, sl, i as int),
                ),
                self.builder.locals@ == old(self).builder.locals@.push(
                    temp_decl(MirType::Array { elem: Box::new(elem_ty), len: count as u32 }),
                ),
                self.builder.terms@ == old(self).builder.terms@,
                self.builder.current == c,
                self.ctx == old(self).ctx,
                self.collected_elem_types == old(self).collected_elem_types,
            decreases count - i,
        {
            proof {
                assert(i * layout.size <= (count - 1) * layout.size) by (nonlinear_arith)
                    requires
                        i <= count - 1,
                ;
            }
            let base = (i as u32) * elem_size;
            let fc = &consts[i];
            proof {
                assert forall|q: int| 0 <= q < sl.len() implies base + (#[trigger] sl[q]).1 <= u32::MAX by {
                    assert((count - 1) * layout.size + sl[q].1 <= u32::MAX);
                }
            }
            let ghost row_start = self.builder.stmts@;
            let mut k: usize = 0;
            while k < slots.len()
                invariant
                    i < count,
                    count == consts@.len(),
                    *fc == consts@[i as int],
                    base == i * layout.size,
                    k <= slots@.len(),
                    slots@.len() == sl.len(),
                    forall|q: int| 0 <= q < slots@.len() ==> ((#[trigger] slots@[q]).0 as int, slots@[q].1, slots@[q].2) == sl[q],
                    forall|q: int| 0 <= q < sl.len() ==> size_fits(#[trigger] sl[q].2),
                    forall|q: int| 0 <= q < sl.len() ==> base + (#[trigger] sl[q]).1 <= u32::MAX,
                    self.builder.stmts@ == row_start + placed_all(
                        c,
                        row_stores(arr, base as int, *fc, sl).subrange(0, k as int),
                    ),
                    self.builder.locals@ == old(self).builder.locals@.push(
                        temp_decl(MirType::Array { elem: Box::new(elem_ty), len: count as u32 }),
                    ),
                    self.builder.terms@ == old(self).builder.terms@,
                    self.builder.current == c,
                    self.ctx == old(self).ctx,
                    self.collected_elem_types == old(self).collected_elem_types,
                decreases slots@.len() - k,
            {
                let which = slots[k].0;
                let off = slots[k].1;
                proof {
                    assert(sl[k as int].1 == off);
                    assert(base + sl[k as int].1 <= u32::MAX);
                }
                let value = if which == 0 {
                    MirConst::String(fc.name.clone())
                } else if which == 1 {
                    MirConst::String(fc.ty_name.clone())
                } else if which == 2 {
                    MirConst::Int(fc.offset as i64)
                } else if which == 3 {
                    MirConst::Int(fc.size as i64)
                } else if which == 4 {
                    MirConst::Bool(fc.is_public)
                } else if which == 5 {
                    MirConst::String(fc.serial_name.clone())
                } else if which == 6 {
                    MirConst::Bool(fc.is_skipped)
                } else {
                    MirConst::Bool(fc.has_default)
                };
                let width = slots[k].2.size();
                self.builder.push_stmt(
                    MirStmt::Store {
                        addr: arr,
                        offset: base + off,
                        value: MirOperand::Constant(value),
                        store_size: Some(width),
                    },
                );
                proof {
                    let row = row_stores(arr, base as int, *fc, sl);
                    assert(row[k as int] == MirStmt::Store {
                        addr: arr,
                        offset: (base + off) as u32,
                        value: MirOperand::Constant(value),
                        store_size: Some(width),
                    });
                    assert(row.subrange(0, k + 1) =~= row.subrange(0, k as int).push(row[k as int]));
                    assert(placed_all(c, row.subrange(0, k + 1)) =~= placed_all(c, row.subrange(0, k as int)).push(
                        crate::builder::placed(c, row[k as int]),
                    ));
                    assert(self.builder.stmts@ =~= row_start + placed_all(c, row.subrange(0, k + 1)));
                }
                k = k + 1;
            }
            proof {
                let row = row_stores(arr, base as int, *fc, sl);
                assert(row.subrange(0, k as int) =~= row);
                let prev = rows_stores(arr, consts@, layout.size as int, sl, i as int);
                assert(rows_stores(arr, consts@, layout.size as int, sl, i + 1) == prev + row);
                assert(placed_all(c, prev + row) =~= placed_all(c, prev) + placed_all(c, row));
                assert(self.builder.stmts@ =~= start_stmts + placed_all(c, prev + row));
            }
            i = i + 1;
        }
        let vec_local = self.builder.alloc_temp(MirType::I64);
        let mut args: Vec<MirOperand> = Vec::new();
        args.push(MirOperand::Local(arr));
        args.push(MirOperand::Constant(MirConst::Int(count as i64)));
        args.push(MirOperand::Constant(MirConst::Int(elem_size as i64)));
        args.push(MirOperand::Constant(MirConst::Int(elem_tag)));
        let ghost argv = args@;
        let ghost before_call = self.builder.stmts@;
        self.builder.push_stmt(
            MirStmt::Call { dst: Some(vec_local), func: String::from_str("rask_vec_from_static"), args },
        );
        proof {
            assert(argv =~= seq![
                local_op(arr),
                int_op(count as i64),
                int_op(layout.size as i64),
                int_op(elem_tag),
            ]);
            assert(self.builder.stmts@.subrange(0, before_call.len() as int) =~= before_call);
            assert(self.builder.locals@ =~= old(self).builder.locals@ + seq![
                temp_decl(MirType::Array { elem: Box::new(elem_ty), len: count as u32 }),
                temp_decl(MirType::I64),
            ]);
        }
        self.insert_collected(vec_local, elem_ty.duplicate());
        Ok((MirOperand::Local(vec_local), MirType::I64))
    }
}

} // verus!
