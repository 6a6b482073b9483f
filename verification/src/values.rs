//! Boxing a value behind a trait, and reading a tuple's fields by their
//! numeric names.

use vstd::prelude::*;
use crate::builder::{is_call, placed, temp_decl, LocalDecl, PlacedStmt};
use crate::expr::{mir_type_name_spec, vec_slot_type, vec_slot_type_spec};
use crate::lowerer::{
    assoc_get, assoc_index, first_named, lemma_first_named_at, lemma_first_named_none, LowerCtx, LoweringError,
    MirLowerer,
};
use crate::iterators::local_op;
use crate::mir::{
    align_of, list_seq, BlockId, size_fits, size_of, LocalId, MirConst, MirOperand, MirRValue, MirStmt, MirType,
    TypeList,
};
use crate::text::{parse_usize, parse_usize_spec};

verus! {

/// A scalar narrower than the word a Vec slot holds: what has to be
/// widened before a Vec can read it.
pub open spec fn is_narrow_scalar(elem: MirType) -> bool {
    size_of(elem) < 8 && !(elem is Struct || elem is Enum)
}

/// The name a boxed value's concrete type goes by in its vtable's name.
pub open spec fn concrete_type_name(ctx: LowerCtx, ty: MirType) -> Seq<char> {
    match mir_type_name_spec(ctx, ty) {
        Some(n) => n,
        None => "unknown"@,
    }
}

/// The vtable a value of `concrete` boxed behind `trait_name` dispatches
/// through: `.vtable.<concrete>__<trait>`.
pub open spec fn vtable_name(concrete: Seq<char>, trait_name: Seq<char>) -> Seq<char> {
    ".vtable."@ + concrete + "__"@ + trait_name
}

/// `s` boxes `value` into `dst` as a trait object of `trait_name`, copying
/// `size` bytes of a `concrete` value and dispatching through `vtable`.
pub open spec fn is_trait_box(
    s: MirStmt,
    dst: LocalId,
    value: MirOperand,
    concrete: Seq<char>,
    trait_name: Seq<char>,
    size: nat,
    vtable: Seq<char>,
) -> bool {
    &&& s matches MirStmt::TraitBox {
        dst: d,
        value: v,
        concrete_type: c,
        trait_name: t,
        concrete_size: z,
        vtable_name: w,
    }
    &&& d == dst
    &&& v == value
    &&& c@ == concrete
    &&& t@ == trait_name
    &&& z == size
    &&& w@ == vtable
}

/// `o` rounded up by the mask trick `(o + a - 1) & !(a - 1)`: the next
/// multiple of `a` when `a` is a power of two.
pub open spec fn align_up(o: u32, a: u32) -> u32 {
    ((o + a - 1) as u32) & !((a - 1) as u32)
}

/// The byte offset at which field `k` of a tuple with field types `fields`
/// starts: each field placed at its alignment after the one before.
/// `None` when a step leaves `u32`, or an alignment is 0.
pub open spec fn tuple_field_offset(fields: Seq<MirType>, k: nat) -> Option<u32>
    decreases k,
{
    let end: Option<int> = if k == 0 {
        Some(0int)
    } else {
        match tuple_field_offset(fields, (k - 1) as nat) {
            Some(o) => if size_fits(fields[k - 1]) {
                Some(o + size_of(fields[k - 1]))
            } else {
                None
            },
            None => None,
        }
    };
    match end {
        Some(e) => {
            let a = align_of(fields[k as int]);
            if 1 <= a && e + a <= u32::MAX {
                Some(align_up(e as u32, a as u32))
            } else {
                None
            }
        },
        None => None,
    }
}

/// What resolving field `field` of a tuple type gives: its index, type,
/// byte offset and size.
pub open spec fn tuple_field_spec(ty: MirType, field: Seq<char>) -> Option<
    (u32, MirType, Option<u32>, Option<u32>),
> {
    match ty {
        MirType::Tuple(fields) => match parse_usize_spec(field) {
            Some(idx) => if idx < list_seq(fields).len() {
                let f = list_seq(fields)[idx as int];
                Some(
                    (
                        idx as u32,
                        f,
                        Some(tuple_field_offset(list_seq(fields), idx)->0),
                        Some(size_of(f) as u32),
                    ),
                )
            } else {
                None
            },
            None => None,
        },
        _ => None,
    }
}

/// The field resolved from `field` on `ty`, if any, has a layout that fits:
/// every offset up to it stays in `u32` and its own size fits.
pub open spec fn tuple_field_fits(ty: MirType, field: Seq<char>) -> bool {
    match ty {
        MirType::Tuple(fields) => match parse_usize_spec(field) {
            Some(idx) => idx < list_seq(fields).len() ==> {
                &&& tuple_field_offset(list_seq(fields), idx) is Some
                &&& size_fits(list_seq(fields)[idx as int])
            },
            None => true,
        },
        _ => true,
    }
}

/// An earlier offset exists when a later one does.
proof fn lemma_offset_prefix(fields: Seq<MirType>, j: nat, k: nat)
    requires
        j <= k,
        tuple_field_offset(fields, k) is Some,
    ensures
        tuple_field_offset(fields, j) is Some,
    decreases k - j,
{
    if j < k {
        lemma_offset_prefix(fields, j, (k - 1) as nat);
    }
}

/// Unfolds one step of `tuple_field_offset`: field `k` starts at `e`, the
/// end of field `k - 1`, rounded up to its alignment.
proof fn lemma_offset_step(fields: Seq<MirType>, k: nat, e: int)
    requires
        tuple_field_offset(fields, k) is Some,
        k == 0 ==> e == 0,
        k > 0 ==> tuple_field_offset(fields, (k - 1) as nat) is Some && size_fits(fields[k - 1])
            && e == tuple_field_offset(fields, (k - 1) as nat)->0 + size_of(fields[k - 1]),
    ensures
        1 <= align_of(fields[k as int]),
        0 <= e,
        e + align_of(fields[k as int]) <= u32::MAX,
        tuple_field_offset(fields, k) == Some(align_up(e as u32, align_of(fields[k as int]) as u32)),
{
}

/// Field `idx` of `list` with its byte offset: walks the list, placing
/// each field at its alignment.
fn tuple_field_at(list: &TypeList, idx: usize) -> (r: Option<(MirType, u32)>)
    requires
        idx < list_seq(*list).len() ==> tuple_field_offset(list_seq(*list), idx as nat) is Some,
    ensures
        idx < list_seq(*list).len() ==> r == Some(
            (list_seq(*list)[idx as int], tuple_field_offset(list_seq(*list), idx as nat)->0),
        ),
        idx >= list_seq(*list).len() ==> r is None,
{
    let ghost all = list_seq(*list);
    let mut probe: &TypeList = list;
    let mut j: usize = 0;
    loop
        invariant
            j <= idx,
            j <= all.len(),
            all == list_seq(*list),
            list_seq(*probe) == all.subrange(j as int, all.len() as int),
        ensures
            idx < all.len(),
        decreases all.len() - j,
    {
        match probe {
            TypeList::Nil => {
                assert(list_seq(*probe).len() == 0);
                return None;
            },
            TypeList::Cons(h, t) => {
                assert(list_seq(*probe) == seq![**h] + list_seq(**t));
                assert(all.subrange(j as int, all.len() as int).len() == all.len() - j);
                assert(j < all.len());
                if j == idx {
                    break;
                }
                assert(list_seq(**t) =~= list_seq(*probe).drop_first());
                assert(list_seq(**t) =~= all.subrange(j + 1, all.len() as int));
                probe = &**t;
                j = j + 1;
            },
        }
    }
    let mut cur: &TypeList = list;
    let mut i: usize = 0;
    let mut offset: u32 = 0;
    loop
        invariant
            i <= idx < all.len(),
            all == list_seq(*list),
            list_seq(*cur) == all.subrange(i as int, all.len() as int),
            tuple_field_offset(all, idx as nat) is Some,
            i > 0 ==> tuple_field_offset(all, (i - 1) as nat) is Some,
            i > 0 ==> size_fits(all[i - 1]),
            i == 0 ==> offset == 0,
            i > 0 ==> offset == tuple_field_offset(all, (i - 1) as nat)->0 + size_of(all[i - 1]),
        decreases all.len() - i,
    {
        match cur {
            TypeList::Nil => {
                assert(list_seq(*cur).len() == 0);
                return None;
            },
            TypeList::Cons(h, t) => {
                assert(list_seq(*cur) == seq![**h] + list_seq(**t));
                assert(all.subrange(i as int, all.len() as int)[0] == **h);
                assert(all[i as int] == **h);
                assert(all.subrange(i as int, all.len() as int).len() == all.len() - i);
                proof {
                    lemma_offset_prefix(all, i as nat, idx as nat);
                    lemma_offset_step(all, i as nat, offset as int);
                    crate::mir::lemma_align_fits(**h);
                }
                let a = (**h).align();
                offset = (offset + a - 1) & !(a - 1);
                if i == idx {
                    return Some(((**h).duplicate(), offset));
                }
                proof {
                    lemma_offset_prefix(all, (i + 1) as nat, idx as nat);
                }
                offset = offset + (**h).size();
                assert(list_seq(**t) =~= list_seq(*cur).drop_first());
                assert(list_seq(**t) =~= all.subrange(i + 1, all.len() as int));
                cur = &**t;
                i = i + 1;
            },
        }
    }
}

/// Reads a method name.
pub open spec fn string_name() -> spec_fn(String) -> Seq<char> {
    |s: String| s@
}

/// Every trait's method list is short enough that a vtable offset,
/// 24 bytes past the start and a word per method, fits a `u32`.
pub open spec fn trait_vtables_fit(ctx: LowerCtx) -> bool {
    forall|i: int| 0 <= i < ctx.trait_methods@.len() ==> (#[trigger] ctx.trait_methods@[i]).1@.len() <= 536870908
}

/// The byte offset of the vtable entry of the method at position `idx`:
/// past the three header words, one word per method.
pub open spec fn vtable_offset(idx: int) -> int {
    24 + 8 * idx
}

/// `s` calls, through the vtable of the trait object in `obj`, the method
/// `method` at `offset` with `args`, writing the result to `dst`.
pub open spec fn is_trait_call(
    s: MirStmt,
    dst: LocalId,
    obj: LocalId,
    method: Seq<char>,
    offset: int,
    args: Seq<MirOperand>,
) -> bool {
    &&& s matches MirStmt::TraitCall { dst: d, trait_object: o, method_name: m, vtable_offset: v, args: a }
    &&& d == Some(dst)
    &&& o == obj
    &&& m@ == method
    &&& v == offset
    &&& a@ == args
}

/// What `array_buffer_at_vec_stride` emits for the array `obj` of `len`
/// elements of type `elem`, from the locals `locals` and statements `stmts`
/// with `cur` current, to `new_locals` and `new_stmts`, answering `r`: for
/// an element as wide as a slot, the array itself and the element's size
/// with nothing emitted; for a narrow one, a new word array and a slot temp
/// per element, each element read into its temp and stored at its word.
pub open spec fn stride_buffer_emitted(
    locals: Seq<LocalDecl>,
    stmts: Seq<PlacedStmt>,
    cur: BlockId,
    new_locals: Seq<LocalDecl>,
    new_stmts: Seq<PlacedStmt>,
    obj: MirOperand,
    elem: MirType,
    len: u32,
    r: (MirOperand, u32),
) -> bool {
    &&& (!is_narrow_scalar(elem) ==> {
        &&& r == (obj, size_of(elem) as u32)
        &&& new_locals == locals
        &&& new_stmts == stmts
    })
    &&& (is_narrow_scalar(elem) ==> {
        let n = locals.len();
        let m = stmts.len();
        let c = cur;
        let wide = LocalId(n as usize);
        &&& r == (MirOperand::Local(wide), 8u32)
        &&& new_locals == locals.push(
            temp_decl(MirType::Array { elem: Box::new(MirType::I64), len }),
        ) + Seq::new(len as nat, |i: int| temp_decl(elem))
        &&& new_stmts.len() == m + 2 * len
        &&& new_stmts.subrange(0, m as int) == stmts
        &&& forall|i: int|
            0 <= i < len ==> {
                let slot = LocalId((n + 1 + i) as usize);
                &&& #[trigger] new_stmts[m + 2 * i] == placed(
                    c,
                    MirStmt::Assign {
                        dst: slot,
                        rvalue: MirRValue::ArrayIndex {
                            base: obj,
                            index: MirOperand::Constant(MirConst::Int(i as i64)),
                            elem_size: size_of(elem) as u32,
                        },
                    },
                )
                &&& new_stmts[m + 2 * i + 1] == placed(
                    c,
                    MirStmt::Store {
                        addr: wide,
                        offset: (i * 8) as u32,
                        value: MirOperand::Local(slot),
                        store_size: None,
                    },
                )
            }
    })
}

impl MirLowerer {
    /// Box `val` behind `trait_name`: a `TraitBox` into a new trait-object
    /// temp, naming the concrete type, the bytes it occupies as a Vec
    /// element, and the vtable `.vtable.<type>__<trait>`.
    pub fn emit_trait_box(&mut self, val: MirOperand, concrete_mir_ty: &MirType, trait_name: &str) -> (r: (
        MirOperand,
        MirType,
    ))
        requires
            size_fits(*concrete_mir_ty),
        ensures
            ({
                let dst = LocalId(old(self).builder.locals@.len() as usize);
                let obj = MirType::TraitObject { trait_name: r.1->trait_name };
                let concrete = concrete_type_name(old(self).ctx, *concrete_mir_ty);
                let last = final(self).builder.stmts@.last();
                &&& r.0 == MirOperand::Local(dst)
                &&& r.1 matches MirType::TraitObject { trait_name: t } && t@ == trait_name@
                &&& final(self).builder.locals@ == old(self).builder.locals@.push(temp_decl(r.1))
                &&& final(self).builder.stmts@.len() == old(self).builder.stmts@.len() + 1
                &&& final(self).builder.stmts@.drop_last() == old(self).builder.stmts@
                &&& last.block == old(self).builder.current
                &&& is_trait_box(
                    last.stmt,
                    dst,
                    val,
                    concrete,
                    trait_name@,
                    size_of(vec_slot_type_spec(*concrete_mir_ty)),
                    vtable_name(concrete, trait_name@),
                )
            }),
            final(self).builder.terms@ == old(self).builder.terms@,
            final(self).builder.current == old(self).builder.current,
            final(self).ctx == old(self).ctx,
    {
        let concrete_type = match self.mir_type_name(concrete_mir_ty) {
            Some(n) => n,
            None => String::from_str("unknown"),
        };
        let slot = vec_slot_type(concrete_mir_ty.duplicate());
        proof {
            assert(size_fits(slot)) by {
                if !(slot is Struct || slot is Enum) && size_of(*concrete_mir_ty) < 8 {
                    assert(slot == MirType::I64);
                }
            }
        }
        let concrete_size = slot.size();
        let mut vtable = String::from_str(".vtable.");
        vtable.append(concrete_type.as_str());
        vtable.append("__");
        vtable.append(trait_name);
        let trait_obj_ty = MirType::TraitObject { trait_name: String::from_str(trait_name) };
        let result_local = self.builder.alloc_temp(trait_obj_ty.duplicate());
        let ghost before = self.builder.stmts@;
        self.builder.push_stmt(
            MirStmt::TraitBox {
                dst: result_local,
                value: val,
                concrete_type,
                trait_name: String::from_str(trait_name),
                concrete_size,
                vtable_name: vtable,
            },
        );
        proof {
            assert(self.builder.stmts@.drop_last() =~= before);
        }
        (MirOperand::Local(result_local), trait_obj_ty)
    }

    /// The position of `method` in the method list `methods`.
    fn method_index(methods: &Vec<String>, method: &str) -> (r: Option<usize>)
        ensures
            r is Some <==> first_named(methods@, string_name(), method@) is Some,
            r is Some ==> first_named(methods@, string_name(), method@) == Some(r->0 as int) && r->0
                < methods@.len(),
    {
        let mut i: usize = 0;
        while i < methods.len()
            invariant
                0 <= i <= methods@.len(),
                forall|j: int| 0 <= j < i ==> methods@[j]@ != method@,
            decreases methods@.len() - i,
        {
            if crate::text::str_eq(methods[i].as_str(), method) {
                proof {
                    lemma_first_named_at(methods@, string_name(), method@, i as int);
                }
                return Some(i);
            }
            i = i + 1;
        }
        proof {
            lemma_first_named_none(methods@, string_name(), method@);
        }
        None
    }

    /// A method call on a trait object: dispatch through its vtable. For a
    /// receiver `obj_op` of type `any Trait` whose trait has `method`, a
    /// new temp of the call's type `ret_ty` (the checker's, `i64` when it
    /// has none) and a `TraitCall` of the method, at its vtable offset,
    /// with the lowered arguments `args`. An error when the receiver is not
    /// a local; nothing, and nothing emitted, for another receiver type or
    /// a method the trait lacks.
    pub fn try_lower_trait_object(
        &mut self,
        method: &str,
        args: Vec<MirOperand>,
        ret_ty: Option<MirType>,
        obj_op: &MirOperand,
        obj_ty: &MirType,
    ) -> (r: Result<Option<(MirOperand, MirType)>, LoweringError>)
        requires
            trait_vtables_fit(old(self).ctx),
        ensures
            ({
                let b = old(self).builder;
                let found = match *obj_ty {
                    MirType::TraitObject { trait_name } => match assoc_get(old(self).ctx.trait_methods@, trait_name@) {
                        Some(methods) => first_named(methods@, string_name(), method@),
                        None => None,
                    },
                    _ => None,
                };
                let ret = match ret_ty {
                    Some(t) => t,
                    None => MirType::I64,
                };
                let dst = LocalId(b.locals@.len() as usize);
                match found {
                    Some(idx) => {
                        &&& final(self).builder.locals@ == b.locals@.push(temp_decl(ret))
                        &&& final(self).builder.terms@ == b.terms@
                        &&& final(self).builder.current == b.current
                        &&& match *obj_op {
                            MirOperand::Local(obj) => {
                                &&& final(self).builder.stmts@.len() == b.stmts@.len() + 1
                                &&& final(self).builder.stmts@.drop_last() == b.stmts@
                                &&& final(self).builder.stmts@.last().block == b.current
                                &&& is_trait_call(
                                    final(self).builder.stmts@.last().stmt,
                                    dst,
                                    obj,
                                    method@,
                                    vtable_offset(idx),
                                    args@,
                                )
                                &&& r == Ok::<Option<(MirOperand, MirType)>, LoweringError>(
                                    Some((local_op(dst), ret)),
                                )
                            },
                            MirOperand::Constant(_) => {
                                &&& final(self).builder.stmts@ == b.stmts@
                                &&& r matches Err(LoweringError::InvalidConstruct(msg))
                                &&& msg@ == "trait object must be a local variable"@
                            },
                        }
                    },
                    None => {
                        &&& final(self).builder == b
                        &&& r == Ok::<Option<(MirOperand, MirType)>, LoweringError>(None)
                    },
                }
            }),
            final(self).ctx == old(self).ctx,
            final(self).meta == old(self).meta,
            final(self).locals == old(self).locals,
    {
        let trait_name = match obj_ty {
            MirType::TraitObject { trait_name } => trait_name,
            _ => {
                return Ok(None);
            },
        };
        let t = match assoc_index(&self.ctx.trait_methods, trait_name.as_str()) {
            Some(t) => t,
            None => {
                return Ok(None);
            },
        };
        let idx = match Self::method_index(&self.ctx.trait_methods[t].1, method) {
            Some(i) => i,
            None => {
                return Ok(None);
            },
        };
        proof {
            assert(self.ctx.trait_methods@[t as int].1@.len() <= 536870908);
        }
        let offset: u32 = 24 + (idx as u32) * 8;
        let ret = match ret_ty {
            Some(t) => t,
            None => MirType::I64,
        };
        let ret2 = ret.duplicate();
        let result_local = self.builder.alloc_temp(ret);
        let obj = match obj_op {
            MirOperand::Local(id) => *id,
            _ => {
                return Err(
                    LoweringError::InvalidConstruct(String::from_str("trait object must be a local variable")),
                );
            },
        };
        let ghost before = self.builder.stmts@;
        let ghost av = args@;
        self.builder.push_stmt(
            MirStmt::TraitCall {
                dst: Some(result_local),
                trait_object: obj,
                method_name: String::from_str(method),
                vtable_offset: offset,
                args,
            },
        );
        proof {
            assert(self.builder.stmts@.drop_last() =~= before);
        }
        Ok(Some((MirOperand::Local(result_local), ret2)))
    }

    /// Resolve a numeric field name on a tuple type: the field's index,
    /// type, byte offset and size. `None` when `ty` is no tuple, `field` is
    /// no index, or the index is past the last field.
    pub fn resolve_tuple_field(ty: &MirType, field: &str) -> (r: Option<
        (u32, MirType, Option<u32>, Option<u32>),
    >)
        requires
            tuple_field_fits(*ty, field@),
        ensures
            r == tuple_field_spec(*ty, field@),
    {
        let fields = match ty {
            MirType::Tuple(fields) => fields,
            _ => {
                return None;
            },
        };
        let idx = match parse_usize(field) {
            Some(i) => i,
            None => {
                return None;
            },
        };
        match tuple_field_at(fields, idx) {
            Some((elem_ty, offset)) => {
                let size = elem_ty.size();
                Some((idx as u32, elem_ty, Some(offset), Some(size)))
            },
            None => None,
        }
    }

    /// The array's elements laid out as a Vec expects them, and the stride
    /// that describes them. A word or wider, or an aggregate, is handed over
    /// as is. A narrower scalar is read out element by element into a fresh
    /// array of word-sized slots: a fixed sequence of reads and stores, the
    /// length being a constant.
    pub fn array_buffer_at_vec_stride(&mut self, obj_op: &MirOperand, elem: &MirType, len: u32) -> (r: (
        MirOperand,
        u32,
    ))
        requires
            size_fits(*elem),
            is_narrow_scalar(*elem) ==> len * 8 <= u32::MAX + 8,
        ensures
            stride_buffer_emitted(
                old(self).builder.locals@,
                old(self).builder.stmts@,
                old(self).builder.current,
                final(self).builder.locals@,
                final(self).builder.stmts@,
                *obj_op,
                *elem,
                len,
                r,
            ),
            final(self).builder.terms@ == old(self).builder.terms@,
            final(self).builder.current == old(self).builder.current,
            final(self).ctx == old(self).ctx,
    {
        let elem_size = elem.size();
        let aggregate = match elem {
            MirType::Struct(_) | MirType::Enum(_) => true,
            _ => false,
        };
        if elem_size >= 8 || aggregate {
            return (obj_op.duplicate(), elem_size);
        }
        let wide = self.builder.alloc_temp(MirType::Array { elem: Box::new(MirType::I64), len });
        let ghost n = old(self).builder.locals@.len();
        let ghost m = old(self).builder.stmts@.len();
        let ghost c = old(self).builder.current;
        let ghost base_locals = self.builder.locals@;
        let mut i: u32 = 0;
        while i < len
            invariant
                is_narrow_scalar(*elem),
                len * 8 <= u32::MAX + 8,
                elem_size == size_of(*elem),
                wide == LocalId(n as usize),
                n == old(self).builder.locals@.len(),
                m == old(self).builder.stmts@.len(),
                c == old(self).builder.current,
                base_locals == old(self).builder.locals@.push(
                    temp_decl(MirType::Array { elem: Box::new(MirType::I64), len }),
                ),
                i <= len,
                self.builder.locals@ == base_locals + Seq::new(i as nat, |k: int| temp_decl(*elem)),
                self.builder.stmts@.len() == m + 2 * i,
                self.builder.stmts@.subrange(0, m as int) == old(self).builder.stmts@,
                forall|k: int|
                    0 <= k < i ==> {
                        let slot = LocalId((n + 1 + k) as usize);
                        &&& #[trigger] self.builder.stmts@[m + 2 * k] == placed(
                            c,
                            MirStmt::Assign {
                                dst: slot,
                                rvalue: MirRValue::ArrayIndex {
                                    base: *obj_op,
                                    index: MirOperand::Constant(MirConst::Int(k as i64)),
                                    elem_size: size_of(*elem) as u32,
                                },
                            },
                        )
                        &&& self.builder.stmts@[m + 2 * k + 1] == placed(
                            c,
                            MirStmt::Store {
                                addr: wide,
                                offset: (k * 8) as u32,
                                value: MirOperand::Local(slot),
                                store_size: None,
                            },
                        )
                    },
                self.builder.terms@ == old(self).builder.terms@,
                self.builder.current == old(self).builder.current,
                self.ctx == old(self).ctx,
            decreases len - i,
        {
            let slot = self.builder.alloc_temp(elem.duplicate());
            self.builder.push_stmt(
                MirStmt::Assign {
                    dst: slot,
                    rvalue: MirRValue::ArrayIndex {
                        base: obj_op.duplicate(),
                        index: MirOperand::Constant(MirConst::Int(i as i64)),
                        elem_size,
                    },
                },
            );
            self.builder.push_stmt(
                MirStmt::Store {
                    addr: wide,
                    offset: i * 8,
                    value: MirOperand::Local(slot),
                    store_size: None,
                },
            );
            proof {
                assert(self.builder.locals@ =~= base_locals + Seq::new(
                    (i + 1) as nat,
                    |k: int| temp_decl(*elem),
                ));
                assert(self.builder.stmts@.subrange(0, m as int) =~= old(self).builder.stmts@);
            }
            i = i + 1;
        }
        (MirOperand::Local(wide), 8)
    }

    /// A Vec over an array receiver, for the methods an array borrows from
    /// `Vec`: the elements at Vec stride, copied into a vector by
    /// `rask_vec_from_static(buffer, len, stride, elem_tag)`, where
    /// `elem_tag` is the runtime's tag for the element type. `None` when the
    /// receiver is no array.
    pub fn array_receiver_as_vec(&mut self, obj_op: &MirOperand, obj_ty: &MirType, elem_tag: i64) -> (r:
        Option<(MirOperand, MirType)>)
        requires
            size_fits(*obj_ty),
            *obj_ty matches MirType::Array { elem, len } ==> (is_narrow_scalar(*elem) ==> len * 8
                <= u32::MAX + 8),
        ensures
            !(*obj_ty is Array) ==> r is None && final(self).builder == old(self).builder,
            *obj_ty matches MirType::Array { elem, len } ==> {
                let narrow = is_narrow_scalar(*elem);
                let buffer = if narrow {
                    MirOperand::Local(LocalId(old(self).builder.locals@.len() as usize))
                } else {
                    *obj_op
                };
                let stride: u32 = if narrow {
                    8
                } else {
                    size_of(*elem) as u32
                };
                let v = LocalId((final(self).builder.locals@.len() - 1) as usize);
                &&& stride_buffer_emitted(
                    old(self).builder.locals@,
                    old(self).builder.stmts@,
                    old(self).builder.current,
                    final(self).builder.locals@.drop_last(),
                    final(self).builder.stmts@.drop_last(),
                    *obj_op,
                    *elem,
                    len,
                    (buffer, stride),
                )
                &&& r == Some((MirOperand::Local(v), MirType::I64))
                &&& final(self).builder.locals@.len() >= 1
                &&& final(self).builder.stmts@.len() >= 1
                &&& final(self).builder.locals@.last() == temp_decl(MirType::I64)
                &&& final(self).builder.stmts@.last().block == old(self).builder.current
                &&& is_call(
                    final(self).builder.stmts@.last().stmt,
                    Some(v),
                    "rask_vec_from_static"@,
                    seq![
                        buffer,
                        MirOperand::Constant(MirConst::Int(len as i64)),
                        MirOperand::Constant(MirConst::Int(stride as i64)),
                        MirOperand::Constant(MirConst::Int(elem_tag)),
                    ],
                )
            },
            final(self).builder.terms@ == old(self).builder.terms@,
            final(self).builder.current == old(self).builder.current,
            final(self).ctx == old(self).ctx,
    {
        let (elem, len) = match obj_ty {
            MirType::Array { elem, len } => (elem, *len),
            _ => {
                return None;
            },
        };
        proof {
            assert(size_fits(**elem));
        }
        let (buffer, slot_size) = self.array_buffer_at_vec_stride(obj_op, elem, len);
        let ghost mid = self.builder;
        let vec_local = self.builder.alloc_temp(MirType::I64);
        let mut args: Vec<MirOperand> = Vec::new();
        args.push(buffer);
        args.push(MirOperand::Constant(MirConst::Int(len as i64)));
        args.push(MirOperand::Constant(MirConst::Int(slot_size as i64)));
        args.push(MirOperand::Constant(MirConst::Int(elem_tag)));
        let ghost argv = args@;
        self.builder.push_stmt(
            MirStmt::Call { dst: Some(vec_local), func: String::from_str("rask_vec_from_static"), args },
        );
        proof {
            assert(self.builder.locals@.drop_last() =~= mid.locals@);
            assert(self.builder.stmts@.drop_last() =~= mid.stmts@);
            assert(argv =~= seq![
                buffer,
                MirOperand::Constant(MirConst::Int(len as i64)),
                MirOperand::Constant(MirConst::Int(slot_size as i64)),
                MirOperand::Constant(MirConst::Int(elem_tag)),
            ]);
        }
        Some((MirOperand::Local(vec_local), MirType::I64))
    }
}

} // verus!
