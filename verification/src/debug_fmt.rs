//! Derived `Debug` for structs and enums, expanded at compile time: the
//! field names are constants and each field's renderer is picked by its
//! own type.
//!
//! What the expansion emits is described over a sketch: the locals,
//! statements, blocks and terminators added to a builder since some base
//! state, with string constants and calls stated up to their text.

use vstd::prelude::*;
use crate::builder::{temp_decl, LocalDecl, MirBuilder};
use crate::lowerer::{EnumLayout, FieldLayout, LowerCtx, VariantLayout};
use crate::mir::{
    list_seq, size_fits, size_of, BlockId, FieldAccess, LocalId, MirConst, MirOperand, MirRValue, MirStmt,
    MirTerminator, MirType, TypeList,
};
use crate::types::{types_seq, Type, TypeSeq};
use crate::lowerer::MirLowerer;

verus! {

/// What an operand is expected to be: exactly an operand, or a string
/// constant with the given text.
pub enum OpForm {
    Exact(MirOperand),
    Text(Seq<char>),
}

/// Operand `o` has the form `f`.
pub open spec fn op_fits(o: MirOperand, f: OpForm) -> bool {
    match f {
        OpForm::Exact(x) => o == x,
        OpForm::Text(t) => o matches MirOperand::Constant(MirConst::String(s)) && s@ == t,
    }
}

/// The statements a debug expansion emits.
pub enum DebugStmt {
    /// `dst = base.field(index)` read at byte `offset`.
    Load { dst: LocalId, base: MirOperand, index: u32, offset: u32, access: FieldAccess },
    /// `dst = func(args)`.
    CallTo { dst: LocalId, func: Seq<char>, args: Seq<OpForm> },
    /// `dst = src`.
    CopyIn { dst: LocalId, src: OpForm },
}

/// Statement `s` has the form `f`.
pub open spec fn debug_stmt_fits(s: MirStmt, f: DebugStmt) -> bool {
    match f {
        DebugStmt::Load { dst, base, index, offset, access } => s == MirStmt::Assign {
            dst,
            rvalue: MirRValue::Field { base, field_index: index, byte_offset: Some(offset), access },
        },
        DebugStmt::CallTo { dst, func, args } => {
            &&& s matches MirStmt::Call { dst: d, func: g, args: a }
            &&& d == Some(dst)
            &&& g@ == func
            &&& a@.len() == args.len()
            &&& forall|i: int| 0 <= i < args.len() ==> op_fits(#[trigger] a@[i], args[i])
        },
        DebugStmt::CopyIn { dst, src } => {
            &&& s matches MirStmt::Assign { dst: d, rvalue: MirRValue::Use(o) }
            &&& d == dst
            &&& op_fits(o, src)
        },
    }
}

/// The terminators a debug expansion sets.
pub enum DebugTerm {
    Jump(BlockId),
    SwitchOn { value: MirOperand, cases: Seq<(u64, BlockId)>, default: BlockId },
}

/// Terminator `t` has the form `f`.
pub open spec fn debug_term_fits(t: MirTerminator, f: DebugTerm) -> bool {
    match f {
        DebugTerm::Jump(target) => t == MirTerminator::Goto { target },
        DebugTerm::SwitchOn { value, cases, default } => {
            &&& t matches MirTerminator::Switch { value: v, cases: c, default: d }
            &&& v == value
            &&& c@ == cases
            &&& d == default
        },
    }
}

/// What has been added to a builder since a base state that had `n0`
/// locals, `m0` statements and `b0` blocks: the types of the new temps, the
/// new statements with their blocks, how many blocks were made, the
/// terminators set (by block), and the block the builder stands in.
pub struct Sketch {
    pub n0: nat,
    pub m0: nat,
    pub b0: nat,
    pub temps: Seq<MirType>,
    pub stmts: Seq<(BlockId, DebugStmt)>,
    pub blocks: nat,
    pub terms: Map<int, DebugTerm>,
    pub current: BlockId,
}

/// Nothing added to `b` yet.
pub open spec fn sketch_of(b: MirBuilder) -> Sketch {
    Sketch {
        n0: b.locals@.len(),
        m0: b.stmts@.len(),
        b0: b.terms@.len(),
        temps: Seq::empty(),
        stmts: Seq::empty(),
        blocks: 0,
        terms: Map::empty(),
        current: b.current,
    }
}

/// `new` is `base` with what `sk` sketches added.
pub open spec fn refines(base: MirBuilder, new: MirBuilder, sk: Sketch) -> bool {
    &&& sk.n0 == base.locals@.len()
    &&& sk.m0 == base.stmts@.len()
    &&& sk.b0 == base.terms@.len()
    &&& new.locals@ == base.locals@ + Seq::new(sk.temps.len(), |i: int| temp_decl(sk.temps[i]))
    &&& new.stmts@.len() == sk.m0 + sk.stmts.len()
    &&& forall|i: int| 0 <= i < sk.m0 ==> new.stmts@[i] == base.stmts@[i]
    &&& forall|i: int|
        0 <= i < sk.stmts.len() ==> (#[trigger] new.stmts@[sk.m0 + i]).block == sk.stmts[i].0
            && debug_stmt_fits(new.stmts@[sk.m0 + i].stmt, sk.stmts[i].1)
    &&& new.terms@.len() == sk.b0 + sk.blocks
    &&& forall|j: int|
        0 <= j < sk.b0 + sk.blocks ==> if sk.terms.contains_key(j) {
            #[trigger] new.terms@[j] matches Some(t) && debug_term_fits(t, sk.terms[j])
        } else if j < sk.b0 {
            new.terms@[j] == base.terms@[j]
        } else {
            new.terms@[j] is None
        }
    &&& forall|j: int| #[trigger] sk.terms.contains_key(j) ==> 0 <= j < sk.b0 + sk.blocks
    &&& new.current == sk.current
    &&& sk.current.0 < sk.b0 + sk.blocks
}

/// A new temp of type `ty`.
pub open spec fn sk_temp(sk: Sketch, ty: MirType) -> (Sketch, LocalId) {
    (Sketch { temps: sk.temps.push(ty), ..sk }, LocalId((sk.n0 + sk.temps.len()) as usize))
}

/// Statement `f` emitted into the current block.
pub open spec fn sk_emit(sk: Sketch, f: DebugStmt) -> Sketch {
    Sketch { stmts: sk.stmts.push((sk.current, f)), ..sk }
}

/// A new block.
pub open spec fn sk_block(sk: Sketch) -> (Sketch, BlockId) {
    (Sketch { blocks: sk.blocks + 1, ..sk }, BlockId((sk.b0 + sk.blocks) as usize))
}

/// Stand in block `b`.
pub open spec fn sk_switch(sk: Sketch, b: BlockId) -> Sketch {
    Sketch { current: b, ..sk }
}

/// End the current block with `t`.
pub open spec fn sk_end(sk: Sketch, t: DebugTerm) -> Sketch {
    Sketch { terms: sk.terms.insert(sk.current.0 as int, t), ..sk }
}

/// A builder refines the sketch of nothing added to it.
pub proof fn lemma_refines_start(b: MirBuilder)
    requires
        b.wf(),
    ensures
        refines(b, b, sketch_of(b)),
{
    assert(b.locals@ =~= b.locals@ + Seq::new(0, |i: int| temp_decl(MirType::Void)));
}

/// An unnamed temp keeps the refinement.
pub proof fn lemma_refines_temp(base: MirBuilder, old: MirBuilder, new: MirBuilder, sk: Sketch, ty: MirType, id: LocalId)
    requires
        refines(base, old, sk),
        id.0 == old.locals@.len(),
        new.locals@ == old.locals@.push(temp_decl(ty)),
        new.stmts@ == old.stmts@,
        new.terms@ == old.terms@,
        new.current == old.current,
    ensures
        refines(base, new, sk_temp(sk, ty).0),
        id == sk_temp(sk, ty).1,
{
    let s2 = sk_temp(sk, ty).0;
    assert(new.locals@ =~= base.locals@ + Seq::new(s2.temps.len(), |i: int| temp_decl(s2.temps[i])));
}

/// A statement fitting `f` in the current block keeps the refinement.
pub proof fn lemma_refines_emit(base: MirBuilder, old: MirBuilder, new: MirBuilder, sk: Sketch, f: DebugStmt)
    requires
        refines(base, old, sk),
        new.locals@ == old.locals@,
        new.stmts@.len() == old.stmts@.len() + 1,
        forall|i: int| 0 <= i < old.stmts@.len() ==> new.stmts@[i] == old.stmts@[i],
        new.stmts@.last().block == old.current,
        debug_stmt_fits(new.stmts@.last().stmt, f),
        new.terms@ == old.terms@,
        new.current == old.current,
    ensures
        refines(base, new, sk_emit(sk, f)),
{
    let s2 = sk_emit(sk, f);
    assert forall|i: int| 0 <= i < s2.stmts.len() implies (#[trigger] new.stmts@[s2.m0 + i]).block
        == s2.stmts[i].0 && debug_stmt_fits(new.stmts@[s2.m0 + i].stmt, s2.stmts[i].1) by {
        if i < sk.stmts.len() {
            assert(new.stmts@[sk.m0 + i] == old.stmts@[sk.m0 + i]);
        }
    }
}

/// A new block keeps the refinement.
pub proof fn lemma_refines_block(base: MirBuilder, old: MirBuilder, new: MirBuilder, sk: Sketch, id: BlockId)
    requires
        refines(base, old, sk),
        id.0 == old.terms@.len(),
        new.terms@ == old.terms@.push(None),
        new.locals@ == old.locals@,
        new.stmts@ == old.stmts@,
        new.current == old.current,
    ensures
        refines(base, new, sk_block(sk).0),
        id == sk_block(sk).1,
{
    let s2 = sk_block(sk).0;
    assert forall|j: int| 0 <= j < s2.b0 + s2.blocks implies if s2.terms.contains_key(j) {
        #[trigger] new.terms@[j] matches Some(t) && debug_term_fits(t, s2.terms[j])
    } else if j < s2.b0 {
        new.terms@[j] == base.terms@[j]
    } else {
        new.terms@[j] is None
    } by {
        if j < old.terms@.len() {
            assert(new.terms@[j] == old.terms@[j]);
        }
    }
}

/// Standing in another existing block keeps the refinement.
pub proof fn lemma_refines_switch(base: MirBuilder, old: MirBuilder, new: MirBuilder, sk: Sketch, b: BlockId)
    requires
        refines(base, old, sk),
        b.0 < sk.b0 + sk.blocks,
        new.current == b,
        new.locals@ == old.locals@,
        new.stmts@ == old.stmts@,
        new.terms@ == old.terms@,
    ensures
        refines(base, new, sk_switch(sk, b)),
{
}

/// Ending the current block with a terminator fitting `f` keeps the
/// refinement.
pub proof fn lemma_refines_end(base: MirBuilder, old: MirBuilder, new: MirBuilder, sk: Sketch, t: MirTerminator, f: DebugTerm)
    requires
        refines(base, old, sk),
        debug_term_fits(t, f),
        new.terms@ == old.terms@.update(old.current.0 as int, Some(t)),
        new.locals@ == old.locals@,
        new.stmts@ == old.stmts@,
        new.current == old.current,
    ensures
        refines(base, new, sk_end(sk, f)),
{
    let s2 = sk_end(sk, f);
    assert forall|j: int| 0 <= j < s2.b0 + s2.blocks implies if s2.terms.contains_key(j) {
        #[trigger] new.terms@[j] matches Some(t2) && debug_term_fits(t2, s2.terms[j])
    } else if j < s2.b0 {
        new.terms@[j] == base.terms@[j]
    } else {
        new.terms@[j] is None
    } by {
        if j != old.current.0 {
            assert(new.terms@[j] == old.terms@[j]);
        }
    }
}

/// How much nesting is left below `depth` before values are elided.
pub open spec fn depth_room(depth: u32) -> int {
    if depth < 4 {
        4 - depth
    } else {
        0
    }
}

/// How a field of type `ty` and `size` bytes is read: a sized scalar at
/// its own width, anything else by the word.
pub open spec fn access_for(ty: MirType, size: u32) -> FieldAccess {
    if crate::expr::is_sized_scalar_spec(ty) {
        FieldAccess::Sized(size)
    } else {
        FieldAccess::Word
    }
}

/// The runtime's debug kind for a resolved primitive element type.
pub open spec fn prim_elem_kind(t: Type) -> Option<i64> {
    match t {
        Type::I8 | Type::I16 | Type::I32 | Type::I64 => Some(0i64),
        Type::U8 | Type::U16 | Type::U32 | Type::U64 => Some(1i64),
        Type::F32 | Type::F64 => Some(2i64),
        Type::Bool => Some(3i64),
        Type::String => Some(4i64),
        Type::Char => Some(5i64),
        _ => None,
    }
}

/// The runtime's debug kind for a Vec's element type: the primitives the
/// runtime can read on its own, resolved or written by name.
pub open spec fn vec_elem_kind(t: Type) -> Option<i64> {
    match t {
        Type::UnresolvedNamed(n) => match crate::json_decode::prim_type_by_name(n@) {
            Some(p) => prim_elem_kind(p),
            None => None,
        },
        _ => prim_elem_kind(t),
    }
}

/// The debug kind of a `Vec<T>` declared type, when the runtime can render
/// its elements.
pub open spec fn debug_vec_elem_kind(ctx: LowerCtx, decl: Type) -> Option<i64> {
    match crate::json_decode::collection_arg_spec(ctx, decl, "Vec"@, 0) {
        Some(t) => vec_elem_kind(t),
        None => None,
    }
}

/// What a container the runtime cannot render element by element shows:
/// its shape for a Vec or a Map, an ellipsis otherwise.
pub open spec fn container_shape_text(ctx: LowerCtx, decl: Type) -> Seq<char> {
    if crate::json_decode::generic_args_of(ctx, decl, "Vec"@) is Some {
        "[\u{2026}]"@
    } else if crate::json_decode::generic_args_of(ctx, decl, "Map"@) is Some {
        "{\u{2026}}"@
    } else {
        "\u{2026}"@
    }
}

/// A call `func(args)` into a new string temp, whose value is the result.
pub open spec fn sk_call(sk: Sketch, func: Seq<char>, args: Seq<OpForm>) -> (Sketch, OpForm) {
    let (s1, t) = sk_temp(sk, MirType::String);
    (sk_emit(s1, DebugStmt::CallTo { dst: t, func, args }), OpForm::Exact(MirOperand::Local(t)))
}

/// The running concatenation of the first `k + 1` parts, joined left to
/// right with one `concat` call per join.
pub open spec fn concat_fold(sk: Sketch, parts: Seq<OpForm>, k: nat) -> (Sketch, OpForm)
    decreases k,
{
    if k == 0 {
        (sk, parts[0])
    } else {
        let (s1, acc) = concat_fold(sk, parts, (k - 1) as nat);
        sk_call(s1, "concat"@, seq![acc, parts[k as int]])
    }
}

/// All of `parts` concatenated: the empty string for none.
pub open spec fn concat_spec(sk: Sketch, parts: Seq<OpForm>) -> (Sketch, OpForm) {
    if parts.len() == 0 {
        (sk, OpForm::Text(Seq::empty()))
    } else {
        concat_fold(sk, parts, (parts.len() - 1) as nat)
    }
}

/// `op` rendered for a derived `Debug`, by its type `ty` (and its declared
/// type `decl`, when known): strings and chars quoted, structs, enums,
/// tuples and arrays expanded while nesting allows, Vecs through the
/// runtime when their elements are primitives, numbers and bools through
/// their `to_string`, anything else as an ellipsis.
pub open spec fn render_value_spec(ctx: LowerCtx, sk: Sketch, op: MirOperand, ty: MirType, decl: Option<Type>, depth: u32) -> (
    Sketch,
    OpForm,
)
    decreases depth_room(depth), 0int, 0int,
{
    let x = seq![OpForm::Exact(op)];
    match ty {
        MirType::String => sk_call(sk, "string_debug"@, x),
        MirType::Char => sk_call(sk, "char_debug"@, x),
        MirType::Struct(_) | MirType::Enum(_) => if depth + 1 < 4 {
            let (s1, r) = derived_debug_spec(ctx, sk, op, ty, (depth + 1) as u32);
            (
                s1,
                match r {
                    Some(f) => f,
                    None => OpForm::Text("\u{2026}"@),
                },
            )
        } else {
            (sk, OpForm::Text("\u{2026}"@))
        },
        MirType::Tuple(fields) => if depth + 1 < 4 {
            tuple_debug_spec(ctx, sk, op, list_seq(fields), decl, (depth + 1) as u32)
        } else {
            (sk, OpForm::Text("\u{2026}"@))
        },
        MirType::Array { elem, len } => if depth + 1 < 4 {
            array_debug_spec(ctx, sk, op, *elem, len, decl, (depth + 1) as u32)
        } else {
            (sk, OpForm::Text("[\u{2026}]"@))
        },
        MirType::Ptr => match decl {
            Some(d) => match debug_vec_elem_kind(ctx, d) {
                Some(k) => sk_call(
                    sk,
                    "vec_debug"@,
                    seq![OpForm::Exact(op), OpForm::Exact(MirOperand::Constant(MirConst::Int(k)))],
                ),
                None => (sk, OpForm::Text(container_shape_text(ctx, d))),
            },
            None => (sk, OpForm::Text("\u{2026}"@)),
        },
        MirType::I64 | MirType::I32 | MirType::I16 | MirType::I8 => sk_call(sk, "i64_to_string"@, x),
        MirType::U64 | MirType::U32 | MirType::U16 | MirType::U8 => sk_call(sk, "u64_to_string"@, x),
        MirType::I128 => sk_call(sk, "i128_to_string"@, x),
        MirType::U128 => sk_call(sk, "u128_to_string"@, x),
        MirType::F64 => sk_call(sk, "f64_to_string"@, x),
        MirType::F32 => sk_call(sk, "f32_to_string"@, x),
        MirType::Bool => sk_call(sk, "bool_to_string"@, x),
        _ => (sk, OpForm::Text("\u{2026}"@)),
    }
}

/// The first `k` fields of a struct rendered `name: value`, separated by
/// `, `: each read from `op` at its offset into a new temp first.
pub open spec fn struct_fields_spec(
    ctx: LowerCtx,
    sk: Sketch,
    op: MirOperand,
    fields: Seq<FieldLayout>,
    k: nat,
    depth: u32,
) -> (Sketch, Seq<OpForm>)
    decreases depth_room(depth), 1int, k,
{
    if k == 0 || k > fields.len() {
        (sk, Seq::empty())
    } else {
        let (s1, parts) = struct_fields_spec(ctx, sk, op, fields, (k - 1) as nat, depth);
        let i = k - 1;
        let f = fields[i];
        let sep = if i > 0 {
            seq![OpForm::Text(", "@)]
        } else {
            Seq::empty()
        };
        let (s2, fl) = sk_temp(s1, f.mir_ty);
        let s3 = sk_emit(
            s2,
            DebugStmt::Load {
                dst: fl,
                base: op,
                index: i as u32,
                offset: f.offset,
                access: access_for(f.mir_ty, f.size),
            },
        );
        let (s4, rv) = render_value_spec(ctx, s3, MirOperand::Local(fl), f.mir_ty, Some(f.ty), depth);
        (s4, parts + sep + seq![OpForm::Text(f.name@ + ": "@), rv])
    }
}

/// The first `k` payload fields of a variant rendered, separated by `, `:
/// each read from `op` at the payload offset plus its own.
pub open spec fn variant_fields_spec(
    ctx: LowerCtx,
    sk: Sketch,
    op: MirOperand,
    fields: Seq<FieldLayout>,
    payload: u32,
    k: nat,
    depth: u32,
) -> (Sketch, Seq<OpForm>)
    decreases depth_room(depth), 1int, k,
{
    if k == 0 || k > fields.len() {
        (sk, Seq::empty())
    } else {
        let (s1, parts) = variant_fields_spec(ctx, sk, op, fields, payload, (k - 1) as nat, depth);
        let i = k - 1;
        let f = fields[i];
        let sep = if i > 0 {
            seq![OpForm::Text(", "@)]
        } else {
            Seq::empty()
        };
        let (s2, fl) = sk_temp(s1, f.mir_ty);
        let s3 = sk_emit(
            s2,
            DebugStmt::Load {
                dst: fl,
                base: op,
                index: i as u32,
                offset: (payload + f.offset) as u32,
                access: access_for(f.mir_ty, f.size),
            },
        );
        let (s4, rv) = render_value_spec(ctx, s3, MirOperand::Local(fl), f.mir_ty, Some(f.ty), depth);
        (s4, parts + sep + seq![rv])
    }
}

/// The parts a variant renders to: `Enum.Variant` alone, or with its
/// payload in parentheses.
pub open spec fn variant_parts(enum_name: Seq<char>, v: VariantLayout, payload_parts: Seq<OpForm>) -> Seq<OpForm> {
    if v.fields@.len() == 0 {
        seq![OpForm::Text(enum_name + "."@ + v.name@)]
    } else {
        seq![OpForm::Text(enum_name + "."@ + v.name@ + "("@)] + payload_parts + seq![OpForm::Text(")"@)]
    }
}

/// The arms of the first `k` variants: each in its own block, numbered from
/// `arm0`, rendering its variant into `result` and jumping to `merge`.
pub open spec fn variant_arms_spec(
    ctx: LowerCtx,
    sk: Sketch,
    op: MirOperand,
    layout: EnumLayout,
    k: nat,
    depth: u32,
    result: LocalId,
    arm0: nat,
    merge: BlockId,
) -> Sketch
    decreases depth_room(depth), 2int, k,
{
    if k == 0 || k > layout.variants@.len() {
        sk
    } else {
        let s1 = variant_arms_spec(ctx, sk, op, layout, (k - 1) as nat, depth, result, arm0, merge);
        let v = layout.variants@[k - 1];
        let s2 = sk_switch(s1, BlockId((arm0 + k - 1) as usize));
        let (s3, pp) = variant_fields_spec(
            ctx,
            s2,
            op,
            v.fields@,
            v.payload_offset,
            v.fields@.len(),
            depth,
        );
        let (s4, text) = concat_spec(s3, variant_parts(layout.name@, v, pp));
        let s5 = sk_emit(s4, DebugStmt::CopyIn { dst: result, src: text });
        sk_end(s5, DebugTerm::Jump(merge))
    }
}

/// `k` new blocks.
pub open spec fn sk_blocks(sk: Sketch, k: nat) -> Sketch {
    Sketch { blocks: sk.blocks + k, ..sk }
}

/// Derived `Debug` of the value `op` of type `ty`: `Name { a: 1, b: 2 }`
/// for a struct (`Name {}` with no fields), and for an enum a switch on its
/// tag to one block per variant, each rendering `Enum.Variant` with its
/// payload in parentheses into a shared result, joined in a merge block.
/// Nothing for other types, or for a layout that is not registered.
pub open spec fn derived_debug_spec(ctx: LowerCtx, sk: Sketch, op: MirOperand, ty: MirType, depth: u32) -> (
    Sketch,
    Option<OpForm>,
)
    decreases depth_room(depth), 3int, 0int,
{
    match ty {
        MirType::Struct(id) => if id.id < ctx.struct_layouts@.len() {
            let layout = ctx.struct_layouts@[id.id as int];
            let fields = layout.fields@;
            if fields.len() == 0 {
                (sk, Some(OpForm::Text(layout.name@ + " {}"@)))
            } else {
                let (s1, fps) = struct_fields_spec(ctx, sk, op, fields, fields.len(), depth);
                let (s2, r) = concat_spec(
                    s1,
                    seq![OpForm::Text(layout.name@ + " { "@)] + fps + seq![OpForm::Text(" }"@)],
                );
                (s2, Some(r))
            }
        } else {
            (sk, None)
        },
        MirType::Enum(id) => if id.id < ctx.enum_layouts@.len() {
            let layout = ctx.enum_layouts@[id.id as int];
            let nv = layout.variants@.len();
            let (s1, tag) = sk_temp(sk, MirType::I64);
            let s2 = sk_emit(
                s1,
                DebugStmt::Load {
                    dst: tag,
                    base: op,
                    index: 0,
                    offset: layout.tag_offset,
                    access: FieldAccess::Sized(8),
                },
            );
            let (s3, result) = sk_temp(s2, MirType::String);
            let (s4, merge) = sk_block(s3);
            let arm0 = s4.b0 + s4.blocks;
            let s5 = sk_blocks(s4, nv);
            let cases = Seq::new(nv, |vi: int| (layout.variants@[vi].tag, BlockId((arm0 + vi) as usize)));
            let default = if nv > 0 {
                BlockId(arm0 as usize)
            } else {
                merge
            };
            let s6 = sk_end(s5, DebugTerm::SwitchOn { value: MirOperand::Local(tag), cases, default });
            let s7 = variant_arms_spec(ctx, s6, op, layout, nv, depth, result, arm0, merge);
            (sk_switch(s7, merge), Some(OpForm::Exact(MirOperand::Local(result))))
        } else {
            (sk, None)
        },
        _ => (sk, None),
    }
}

/// The first `k` fields of a tuple rendered positionally, separated by
/// `, `, each read at the sum of the sizes before it; with that offset.
pub open spec fn tuple_fields_spec(
    ctx: LowerCtx,
    sk: Sketch,
    op: MirOperand,
    fields: Seq<MirType>,
    decls: Option<Seq<Type>>,
    k: nat,
    depth: u32,
) -> (Sketch, Seq<OpForm>, int)
    decreases depth_room(depth), 1int, k,
{
    if k == 0 || k > fields.len() {
        (sk, Seq::empty(), 0)
    } else {
        let (s1, parts, offset) = tuple_fields_spec(ctx, sk, op, fields, decls, (k - 1) as nat, depth);
        let i = k - 1;
        let fty = fields[i];
        let size = size_of(fty);
        let sep = if i > 0 {
            seq![OpForm::Text(", "@)]
        } else {
            Seq::empty()
        };
        let (s2, slot) = sk_temp(s1, fty);
        let s3 = sk_emit(
            s2,
            DebugStmt::Load {
                dst: slot,
                base: op,
                index: i as u32,
                offset: offset as u32,
                access: access_for(fty, size as u32),
            },
        );
        let fdecl = match decls {
            Some(ts) => Some(ts[i]),
            None => None,
        };
        let (s4, rv) = render_value_spec(ctx, s3, MirOperand::Local(slot), fty, fdecl, depth);
        (s4, parts + sep + seq![rv], offset + size)
    }
}

/// The declared element types of a tuple, when `decl` is a tuple of as
/// many elements.
pub open spec fn tuple_decls(decl: Option<Type>, n: nat) -> Option<Seq<Type>> {
    match decl {
        Some(Type::Tuple(ts)) => if types_seq(ts).len() == n {
            Some(types_seq(ts))
        } else {
            None
        },
        _ => None,
    }
}

/// A tuple rendered `(a, b, c)`.
pub open spec fn tuple_debug_spec(
    ctx: LowerCtx,
    sk: Sketch,
    op: MirOperand,
    fields: Seq<MirType>,
    decl: Option<Type>,
    depth: u32,
) -> (Sketch, OpForm)
    decreases depth_room(depth), 2int, 0int,
{
    let (s1, parts, _) = tuple_fields_spec(
        ctx,
        sk,
        op,
        fields,
        tuple_decls(decl, fields.len()),
        fields.len(),
        depth,
    );
    concat_spec(s1, seq![OpForm::Text("("@)] + parts + seq![OpForm::Text(")"@)])
}

/// How many of an array's elements are rendered: at most 32.
pub open spec fn shown_count(len: u32) -> nat {
    if len < 32 {
        len as nat
    } else {
        32
    }
}

/// The first `k` elements of an array rendered, separated by `, `, element
/// `i` read at `i * size`.
pub open spec fn array_elems_spec(
    ctx: LowerCtx,
    sk: Sketch,
    op: MirOperand,
    elem: MirType,
    edecl: Option<Type>,
    k: nat,
    depth: u32,
) -> (Sketch, Seq<OpForm>)
    decreases depth_room(depth), 1int, k,
{
    if k == 0 {
        (sk, Seq::empty())
    } else {
        let (s1, parts) = array_elems_spec(ctx, sk, op, elem, edecl, (k - 1) as nat, depth);
        let i = k - 1;
        let size = size_of(elem);
        let sep = if i > 0 {
            seq![OpForm::Text(", "@)]
        } else {
            Seq::empty()
        };
        let (s2, slot) = sk_temp(s1, elem);
        let s3 = sk_emit(
            s2,
            DebugStmt::Load {
                dst: slot,
                base: op,
                index: i as u32,
                offset: (i * size) as u32,
                access: access_for(elem, size as u32),
            },
        );
        let (s4, rv) = render_value_spec(ctx, s3, MirOperand::Local(slot), elem, edecl, depth);
        (s4, parts + sep + seq![rv])
    }
}

/// An array rendered `[1, 2, 3]`, at most 32 elements, the rest as one
/// ellipsis.
pub open spec fn array_debug_spec(
    ctx: LowerCtx,
    sk: Sketch,
    op: MirOperand,
    elem: MirType,
    len: u32,
    decl: Option<Type>,
    depth: u32,
) -> (Sketch, OpForm)
    decreases depth_room(depth), 2int, 0int,
{
    let edecl = match decl {
        Some(Type::Array { elem: e, .. }) => Some(*e),
        _ => None,
    };
    let shown = shown_count(len);
    let (s1, parts) = array_elems_spec(ctx, sk, op, elem, edecl, shown, depth);
    let more = if len > shown {
        seq![OpForm::Text(", \u{2026}"@)]
    } else {
        Seq::empty()
    };
    concat_spec(s1, seq![OpForm::Text("["@)] + parts + more + seq![OpForm::Text("]"@)])
}

/// Rendering `ty` at `depth` stays within `u32` offsets and sizes: every
/// tuple laid out at nested depths has sizes that fit, every array's
/// element offsets up to the shown ones fit, and every struct and enum
/// expanded does the same for its fields.
pub open spec fn render_fits(ctx: LowerCtx, ty: MirType, depth: u32) -> bool
    decreases depth_room(depth), 0int,
{
    match ty {
        MirType::Struct(_) | MirType::Enum(_) => depth + 1 < 4 ==> derived_fits(ctx, ty, (depth + 1) as u32),
        MirType::Tuple(fs) => depth + 1 < 4 ==> {
            &&& crate::mir::list_sizes_fit(fs)
            &&& crate::mir::list_size(fs) <= u32::MAX
            &&& list_seq(fs).len() <= u32::MAX
            &&& forall|i: int|
                0 <= i < list_seq(fs).len() ==> render_fits(ctx, #[trigger] list_seq(fs)[i], (depth + 1) as u32)
        },
        MirType::Array { elem, len } => depth + 1 < 4 ==> {
            &&& size_fits(*elem)
            &&& shown_count(len) > 0 ==> (shown_count(len) - 1) * size_of(*elem) <= u32::MAX
            &&& render_fits(ctx, *elem, (depth + 1) as u32)
        },
        _ => true,
    }
}

/// Expanding a struct or enum of type `ty` at `depth` stays within `u32`
/// offsets: its fields render within bounds, and each payload field's
/// offset past the payload start fits.
pub open spec fn derived_fits(ctx: LowerCtx, ty: MirType, depth: u32) -> bool
    decreases depth_room(depth), 1int,
{
    match ty {
        MirType::Struct(id) => id.id < ctx.struct_layouts@.len() ==> forall|i: int|
            0 <= i < ctx.struct_layouts@[id.id as int].fields@.len() ==> render_fits(
                ctx,
                (#[trigger] ctx.struct_layouts@[id.id as int].fields@[i]).mir_ty,
                depth,
            ),
        MirType::Enum(id) => id.id < ctx.enum_layouts@.len() ==> forall|vi: int, fi: int|
            #![trigger ctx.enum_layouts@[id.id as int].variants@[vi].fields@[fi]]
            0 <= vi < ctx.enum_layouts@[id.id as int].variants@.len() && 0 <= fi
                < ctx.enum_layouts@[id.id as int].variants@[vi].fields@.len() ==> {
                let v = ctx.enum_layouts@[id.id as int].variants@[vi];
                let f = v.fields@[fi];
                &&& v.payload_offset + f.offset <= u32::MAX
                &&& render_fits(ctx, f.mir_ty, depth)
            },
        _ => true,
    }
}

/// The shape `concat_fold` gives after `k` joins: `k` string temps, and
/// the `k` calls in the current block, each joining the running value
/// with the next part.
pub proof fn lemma_concat_fold_shape(sk: Sketch, parts: Seq<OpForm>, k: nat)
    requires
        k < parts.len(),
    ensures
        ({
            let first = sk.n0 + sk.temps.len();
            let acc = |j: nat|
                if j == 0 {
                    parts[0]
                } else {
                    OpForm::Exact(MirOperand::Local(LocalId((first + j - 1) as usize)))
                };
            let r = concat_fold(sk, parts, k);
            &&& r.0 == Sketch {
                temps: sk.temps + Seq::new(k, |j: int| MirType::String),
                stmts: sk.stmts + Seq::new(
                    k,
                    |j: int|
                        (
                            sk.current,
                            DebugStmt::CallTo {
                                dst: LocalId((first + j) as usize),
                                func: "concat"@,
                                args: seq![acc(j as nat), parts[j + 1]],
                            },
                        ),
                ),
                ..sk
            }
            &&& r.1 == acc(k)
        }),
    decreases k,
{
    if k > 0 {
        lemma_concat_fold_shape(sk, parts, (k - 1) as nat);
        let first = sk.n0 + sk.temps.len();
        let acc = |j: nat|
            if j == 0 {
                parts[0]
            } else {
                OpForm::Exact(MirOperand::Local(LocalId((first + j - 1) as usize)))
            };
        let prev = concat_fold(sk, parts, (k - 1) as nat).0;
        assert(prev.temps.len() == sk.temps.len() + k - 1);
        assert(sk.temps + Seq::new(k, |j: int| MirType::String) =~= (sk.temps + Seq::new(
            (k - 1) as nat,
            |j: int| MirType::String,
        )).push(MirType::String));
        assert(sk.stmts + Seq::new(
            k,
            |j: int|
                (
                    sk.current,
                    DebugStmt::CallTo {
                        dst: LocalId((first + j) as usize),
                        func: "concat"@,
                        args: seq![acc(j as nat), parts[j + 1]],
                    },
                ),
        ) =~= (sk.stmts + Seq::new(
            (k - 1) as nat,
            |j: int|
                (
                    sk.current,
                    DebugStmt::CallTo {
                        dst: LocalId((first + j) as usize),
                        func: "concat"@,
                        args: seq![acc(j as nat), parts[j + 1]],
                    },
                ),
        )).push(
            (
                sk.current,
                DebugStmt::CallTo {
                    dst: LocalId((first + k - 1) as usize),
                    func: "concat"@,
                    args: seq![acc((k - 1) as nat), parts[k as int]],
                },
            ),
        ));
    }
}

/// Operands `ops` have the forms `forms`, one for one.
pub open spec fn ops_fit(ops: Seq<MirOperand>, forms: Seq<OpForm>) -> bool {
    &&& ops.len() == forms.len()
    &&& forall|i: int| 0 <= i < ops.len() ==> op_fits(#[trigger] ops[i], forms[i])
}

/// What `concat_all` emits refines what `concat_spec` sketches.
pub proof fn lemma_concat_refines(
    base: MirBuilder,
    b1: MirBuilder,
    b2: MirBuilder,
    sk: Sketch,
    ps: Seq<MirOperand>,
    forms: Seq<OpForm>,
    r: MirOperand,
)
    requires
        refines(base, b1, sk),
        ops_fit(ps, forms),
        b2.terms@ == b1.terms@,
        b2.current == b1.current,
        ps.len() == 0 ==> {
            &&& r matches MirOperand::Constant(MirConst::String(s)) && s@ == Seq::<char>::empty()
            &&& b2.locals@ == b1.locals@
            &&& b2.stmts@ == b1.stmts@
        },
        ps.len() > 0 ==> {
            let n = b1.locals@.len();
            let m = b1.stmts@.len();
            let joins = (ps.len() - 1) as nat;
            &&& r == crate::expr::concat_acc(ps, n, joins)
            &&& b2.locals@ == b1.locals@ + Seq::new(joins, |i: int| temp_decl(MirType::String))
            &&& b2.stmts@.len() == m + joins
            &&& b2.stmts@.subrange(0, m as int) == b1.stmts@
            &&& forall|k: int|
                0 <= k < joins ==> {
                    let s = #[trigger] b2.stmts@[m + k];
                    &&& s.block == b1.current
                    &&& crate::builder::is_call(
                        s.stmt,
                        Some(LocalId((n + k) as usize)),
                        "concat"@,
                        seq![crate::expr::concat_acc(ps, n, k as nat), ps[k + 1]],
                    )
                }
        },
    ensures
        refines(base, b2, concat_spec(sk, forms).0),
        op_fits(r, concat_spec(sk, forms).1),
{
    if ps.len() == 0 {
        assert(b2.locals@ == b1.locals@);
    } else {
        let joins = (ps.len() - 1) as nat;
        lemma_concat_fold_shape(sk, forms, joins);
        let s2 = concat_spec(sk, forms).0;
        let n = b1.locals@.len();
        let m = b1.stmts@.len();
        let first = sk.n0 + sk.temps.len();
        assert(n == first);
        assert(m == sk.m0 + sk.stmts.len());
        assert(b2.locals@ =~= base.locals@ + Seq::new(s2.temps.len(), |i: int| temp_decl(s2.temps[i])));
        assert forall|i: int| 0 <= i < sk.m0 implies b2.stmts@[i] == base.stmts@[i] by {
            assert(b2.stmts@.subrange(0, m as int)[i] == b2.stmts@[i]);
        }
        assert forall|i: int| 0 <= i < s2.stmts.len() implies (#[trigger] b2.stmts@[s2.m0 + i]).block
            == s2.stmts[i].0 && debug_stmt_fits(b2.stmts@[s2.m0 + i].stmt, s2.stmts[i].1) by {
            if i < sk.stmts.len() {
                assert(b2.stmts@.subrange(0, m as int)[sk.m0 + i] == b2.stmts@[sk.m0 + i]);
            } else {
                let k = i - sk.stmts.len();
                assert(b2.stmts@[m + k] == b2.stmts@[s2.m0 + i]);
                let s = b2.stmts@[m + k];
                let acc_k = crate::expr::concat_acc(ps, n, k as nat);
                assert(crate::builder::is_call(s.stmt, Some(LocalId((n + k) as usize)), "concat"@, seq![acc_k, ps[k + 1]]));
                let a = s.stmt->Call_args@;
                assert(a == seq![acc_k, ps[k + 1]]);
                assert(op_fits(a[0], if k == 0 {
                    forms[0]
                } else {
                    OpForm::Exact(MirOperand::Local(LocalId((first + k - 1) as usize)))
                }));
                assert(op_fits(a[1], forms[k + 1]));
            }
        }
        if joins == 0 {
            assert(op_fits(ps[0], forms[0]));
        }
    }
}

/// `b` only adds to `a`: the same base counts, and no fewer blocks.
pub open spec fn grows(a: Sketch, b: Sketch) -> bool {
    &&& b.n0 == a.n0
    &&& b.m0 == a.m0
    &&& b.b0 == a.b0
    &&& b.blocks >= a.blocks
}

/// Concatenating adds temps and calls, never blocks.
pub proof fn lemma_concat_grows(sk: Sketch, parts: Seq<OpForm>)
    ensures
        grows(sk, concat_spec(sk, parts).0),
{
    if parts.len() > 0 {
        lemma_concat_fold_shape(sk, parts, (parts.len() - 1) as nat);
    }
}

/// Rendering a value only adds to the sketch.
pub proof fn lemma_render_grows(ctx: LowerCtx, sk: Sketch, op: MirOperand, ty: MirType, decl: Option<Type>, depth: u32)
    ensures
        grows(sk, render_value_spec(ctx, sk, op, ty, decl, depth).0),
    decreases depth_room(depth), 0int, 0int,
{
    match ty {
        MirType::Struct(_) | MirType::Enum(_) => if depth + 1 < 4 {
            lemma_derived_grows(ctx, sk, op, ty, (depth + 1) as u32);
        },
        MirType::Tuple(fields) => if depth + 1 < 4 {
            lemma_tuple_debug_grows(ctx, sk, op, list_seq(fields), decl, (depth + 1) as u32);
        },
        MirType::Array { elem, len } => if depth + 1 < 4 {
            lemma_array_debug_grows(ctx, sk, op, *elem, len, decl, (depth + 1) as u32);
        },
        _ => {},
    }
}

/// Rendering struct fields only adds to the sketch.
pub proof fn lemma_struct_fields_grows(ctx: LowerCtx, sk: Sketch, op: MirOperand, fields: Seq<FieldLayout>, k: nat, depth: u32)
    ensures
        grows(sk, struct_fields_spec(ctx, sk, op, fields, k, depth).0),
    decreases depth_room(depth), 1int, k,
{
    if !(k == 0 || k > fields.len()) {
        lemma_struct_fields_grows(ctx, sk, op, fields, (k - 1) as nat, depth);
        let s1 = struct_fields_spec(ctx, sk, op, fields, (k - 1) as nat, depth).0;
        let i = k - 1;
        let f = fields[i];
        let (s2, fl) = sk_temp(s1, f.mir_ty);
        let s3 = sk_emit(
            s2,
            DebugStmt::Load { dst: fl, base: op, index: i as u32, offset: f.offset, access: access_for(f.mir_ty, f.size) },
        );
        lemma_render_grows(ctx, s3, MirOperand::Local(fl), f.mir_ty, Some(f.ty), depth);
    }
}

/// Rendering variant payload fields only adds to the sketch.
pub proof fn lemma_variant_fields_grows(
    ctx: LowerCtx,
    sk: Sketch,
    op: MirOperand,
    fields: Seq<FieldLayout>,
    payload: u32,
    k: nat,
    depth: u32,
)
    ensures
        grows(sk, variant_fields_spec(ctx, sk, op, fields, payload, k, depth).0),
    decreases depth_room(depth), 1int, k,
{
    if !(k == 0 || k > fields.len()) {
        lemma_variant_fields_grows(ctx, sk, op, fields, payload, (k - 1) as nat, depth);
        let s1 = variant_fields_spec(ctx, sk, op, fields, payload, (k - 1) as nat, depth).0;
        let i = k - 1;
        let f = fields[i];
        let (s2, fl) = sk_temp(s1, f.mir_ty);
        let s3 = sk_emit(
            s2,
            DebugStmt::Load {
                dst: fl,
                base: op,
                index: i as u32,
                offset: (payload + f.offset) as u32,
                access: access_for(f.mir_ty, f.size),
            },
        );
        lemma_render_grows(ctx, s3, MirOperand::Local(fl), f.mir_ty, Some(f.ty), depth);
    }
}

/// The variant arms only add to the sketch.
pub proof fn lemma_variant_arms_grows(
    ctx: LowerCtx,
    sk: Sketch,
    op: MirOperand,
    layout: EnumLayout,
    k: nat,
    depth: u32,
    result: LocalId,
    arm0: nat,
    merge: BlockId,
)
    ensures
        grows(sk, variant_arms_spec(ctx, sk, op, layout, k, depth, result, arm0, merge)),
    decreases depth_room(depth), 2int, k,
{
    if !(k == 0 || k > layout.variants@.len()) {
        lemma_variant_arms_grows(ctx, sk, op, layout, (k - 1) as nat, depth, result, arm0, merge);
        let s1 = variant_arms_spec(ctx, sk, op, layout, (k - 1) as nat, depth, result, arm0, merge);
        let v = layout.variants@[k - 1];
        let s2 = sk_switch(s1, BlockId((arm0 + k - 1) as usize));
        lemma_variant_fields_grows(ctx, s2, op, v.fields@, v.payload_offset, v.fields@.len(), depth);
        let (s3, pp) = variant_fields_spec(ctx, s2, op, v.fields@, v.payload_offset, v.fields@.len(), depth);
        lemma_concat_grows(s3, variant_parts(layout.name@, v, pp));
    }
}

/// Derived `Debug` only adds to the sketch.
pub proof fn lemma_derived_grows(ctx: LowerCtx, sk: Sketch, op: MirOperand, ty: MirType, depth: u32)
    ensures
        grows(sk, derived_debug_spec(ctx, sk, op, ty, depth).0),
    decreases depth_room(depth), 3int, 0int,
{
    match ty {
        MirType::Struct(id) => if id.id < ctx.struct_layouts@.len() {
            let layout = ctx.struct_layouts@[id.id as int];
            let fields = layout.fields@;
            if fields.len() > 0 {
                lemma_struct_fields_grows(ctx, sk, op, fields, fields.len(), depth);
                let (s1, fps) = struct_fields_spec(ctx, sk, op, fields, fields.len(), depth);
                lemma_concat_grows(s1, seq![OpForm::Text(layout.name@ + " { "@)] + fps + seq![OpForm::Text(" }"@)]);
            }
        },
        MirType::Enum(id) => if id.id < ctx.enum_layouts@.len() {
            let layout = ctx.enum_layouts@[id.id as int];
            let nv = layout.variants@.len();
            let (s1, tag) = sk_temp(sk, MirType::I64);
            let s2 = sk_emit(
                s1,
                DebugStmt::Load { dst: tag, base: op, index: 0, offset: layout.tag_offset, access: FieldAccess::Sized(8) },
            );
            let (s3, result) = sk_temp(s2, MirType::String);
            let (s4, merge) = sk_block(s3);
            let arm0 = s4.b0 + s4.blocks;
            let s5 = sk_blocks(s4, nv);
            let cases = Seq::new(nv, |vi: int| (layout.variants@[vi].tag, BlockId((arm0 + vi) as usize)));
            let default = if nv > 0 {
                BlockId(arm0 as usize)
            } else {
                merge
            };
            let s6 = sk_end(s5, DebugTerm::SwitchOn { value: MirOperand::Local(tag), cases, default });
            lemma_variant_arms_grows(ctx, s6, op, layout, nv, depth, result, arm0, merge);
        },
        _ => {},
    }
}

/// Rendering tuple fields only adds to the sketch.
pub proof fn lemma_tuple_fields_grows(
    ctx: LowerCtx,
    sk: Sketch,
    op: MirOperand,
    fields: Seq<MirType>,
    decls: Option<Seq<Type>>,
    k: nat,
    depth: u32,
)
    ensures
        grows(sk, tuple_fields_spec(ctx, sk, op, fields, decls, k, depth).0),
    decreases depth_room(depth), 1int, k,
{
    if !(k == 0 || k > fields.len()) {
        lemma_tuple_fields_grows(ctx, sk, op, fields, decls, (k - 1) as nat, depth);
        let (s1, parts, offset) = tuple_fields_spec(ctx, sk, op, fields, decls, (k - 1) as nat, depth);
        let i = k - 1;
        let fty = fields[i];
        let size = size_of(fty);
        let (s2, slot) = sk_temp(s1, fty);
        let s3 = sk_emit(
            s2,
            DebugStmt::Load { dst: slot, base: op, index: i as u32, offset: offset as u32, access: access_for(fty, size as u32) },
        );
        let fdecl = match decls {
            Some(ts) => Some(ts[i]),
            None => None,
        };
        lemma_render_grows(ctx, s3, MirOperand::Local(slot), fty, fdecl, depth);
    }
}

/// A rendered tuple only adds to the sketch.
pub proof fn lemma_tuple_debug_grows(ctx: LowerCtx, sk: Sketch, op: MirOperand, fields: Seq<MirType>, decl: Option<Type>, depth: u32)
    ensures
        grows(sk, tuple_debug_spec(ctx, sk, op, fields, decl, depth).0),
    decreases depth_room(depth), 2int, 0int,
{
    let decls = tuple_decls(decl, fields.len());
    lemma_tuple_fields_grows(ctx, sk, op, fields, decls, fields.len(), depth);
    let (s1, parts, _) = tuple_fields_spec(ctx, sk, op, fields, decls, fields.len(), depth);
    lemma_concat_grows(s1, seq![OpForm::Text("("@)] + parts + seq![OpForm::Text(")"@)]);
}

/// Rendering array elements only adds to the sketch.
pub proof fn lemma_array_elems_grows(
    ctx: LowerCtx,
    sk: Sketch,
    op: MirOperand,
    elem: MirType,
    edecl: Option<Type>,
    k: nat,
    depth: u32,
)
    ensures
        grows(sk, array_elems_spec(ctx, sk, op, elem, edecl, k, depth).0),
    decreases depth_room(depth), 1int, k,
{
    if k > 0 {
        lemma_array_elems_grows(ctx, sk, op, elem, edecl, (k - 1) as nat, depth);
        let s1 = array_elems_spec(ctx, sk, op, elem, edecl, (k - 1) as nat, depth).0;
        let i = k - 1;
        let size = size_of(elem);
        let (s2, slot) = sk_temp(s1, elem);
        let s3 = sk_emit(
            s2,
            DebugStmt::Load {
                dst: slot,
                base: op,
                index: i as u32,
                offset: (i * size) as u32,
                access: access_for(elem, size as u32),
            },
        );
        lemma_render_grows(ctx, s3, MirOperand::Local(slot), elem, edecl, depth);
    }
}

/// A rendered array only adds to the sketch.
pub proof fn lemma_array_debug_grows(
    ctx: LowerCtx,
    sk: Sketch,
    op: MirOperand,
    elem: MirType,
    len: u32,
    decl: Option<Type>,
    depth: u32,
)
    ensures
        grows(sk, array_debug_spec(ctx, sk, op, elem, len, decl, depth).0),
    decreases depth_room(depth), 2int, 0int,
{
    let edecl = match decl {
        Some(Type::Array { elem: e, .. }) => Some(*e),
        _ => None,
    };
    let shown = shown_count(len);
    lemma_array_elems_grows(ctx, sk, op, elem, edecl, shown, depth);
    let (s1, parts) = array_elems_spec(ctx, sk, op, elem, edecl, shown, depth);
    let more = if len > shown {
        seq![OpForm::Text(", \u{2026}"@)]
    } else {
        Seq::empty()
    };
    lemma_concat_grows(s1, seq![OpForm::Text("["@)] + parts + more + seq![OpForm::Text("]"@)]);
}

/// The spec counterpart of an optional declared type.
pub open spec fn opt_decl(decl: Option<&Type>) -> Option<Type> {
    match decl {
        Some(t) => Some(*t),
        None => None,
    }
}

/// A string constant operand.
fn lit(text: String) -> (r: MirOperand)
    ensures
        op_fits(r, OpForm::Text(text@)),
{
    MirOperand::Constant(MirConst::String(text))
}

/// `a` followed by `b`.
pub(crate) fn joined(a: &str, b: &str) -> (r: String)
    ensures
        r@ == a@ + b@,
{
    let mut s = String::from_str(a);
    s.append(b);
    s
}

/// How a field of type `ty` and `size` bytes is read.
fn access_for_field(ty: &MirType, size: u32) -> (r: FieldAccess)
    ensures
        r == access_for(*ty, size),
{
    if MirLowerer::is_sized_scalar(ty) {
        FieldAccess::Sized(size)
    } else {
        FieldAccess::Word
    }
}

/// The runtime's debug kind for a Vec's element type.
fn vec_elem_kind_of(t: &Type) -> (r: Option<i64>)
    ensures
        r == vec_elem_kind(*t),
{
    let resolved = match t {
        Type::UnresolvedNamed(n) => match crate::json_decode::prim_type_named(n.as_str()) {
            Some(p) => p,
            None => {
                return None;
            },
        },
        _ => t.duplicate(),
    };
    match resolved {
        Type::I8 | Type::I16 | Type::I32 | Type::I64 => Some(0),
        Type::U8 | Type::U16 | Type::U32 | Type::U64 => Some(1),
        Type::F32 | Type::F64 => Some(2),
        Type::Bool => Some(3),
        Type::String => Some(4),
        Type::Char => Some(5),
        _ => None,
    }
}

/// Whether two lists have the same number of elements.
fn same_len(a: &TypeList, b: &TypeSeq) -> (r: bool)
    ensures
        r == (list_seq(*a).len() == types_seq(*b).len()),
    decreases a,
{
    match (a, b) {
        (TypeList::Nil, TypeSeq::Nil) => true,
        (TypeList::Cons(_, ta), TypeSeq::Cons(_, tb)) => same_len(ta, tb),
        _ => false,
    }
}

impl MirLowerer {
    /// A call `name(args)` into a new string temp.
    fn debug_call(
        &mut self,
        Ghost(base): Ghost<MirBuilder>,
        Ghost(sk): Ghost<Sketch>,
        name: &str,
        args: Vec<MirOperand>,
        Ghost(forms): Ghost<Seq<OpForm>>,
    ) -> (r: MirOperand)
        requires
            refines(base, old(self).builder, sk),
            ops_fit(args@, forms),
        ensures
            refines(base, final(self).builder, sk_call(sk, name@, forms).0),
            op_fits(r, sk_call(sk, name@, forms).1),
            final(self).ctx == old(self).ctx,
    {
        let ghost b0 = self.builder;
        let dst = self.builder.alloc_temp(MirType::String);
        proof {
            lemma_refines_temp(base, b0, self.builder, sk, MirType::String, dst);
        }
        let ghost b1 = self.builder;
        let ghost av = args@;
        self.builder.push_stmt(MirStmt::Call { dst: Some(dst), func: String::from_str(name), args });
        proof {
            let s1 = sk_temp(sk, MirType::String).0;
            assert(self.builder.stmts@.last().stmt matches MirStmt::Call { args: a, .. } && a@ == av);
            lemma_refines_emit(base, b1, self.builder, s1, DebugStmt::CallTo { dst, func: name@, args: forms });
        }
        MirOperand::Local(dst)
    }

    /// The runtime's debug kind for a declared `Vec<T>`, when it can render
    /// the elements itself.
    fn debug_vec_elem_kind(&self, decl: &Type) -> (r: Option<i64>)
        ensures
            r == debug_vec_elem_kind(self.ctx, *decl),
    {
        match self.collection_arg(decl, "Vec", 0) {
            Some(t) => vec_elem_kind_of(&t),
            None => None,
        }
    }

    /// What a container the runtime cannot render element by element
    /// shows.
    fn container_shape(&self, decl: &Type) -> (r: String)
        ensures
            r@ == container_shape_text(self.ctx, *decl),
    {
        if self.generic_args(decl, "Vec").is_some() {
            String::from_str("[\u{2026}]")
        } else if self.generic_args(decl, "Map").is_some() {
            String::from_str("{\u{2026}}")
        } else {
            String::from_str("\u{2026}")
        }
    }
}

/// One more operand of one more form keeps `ops_fit`.
proof fn lemma_ops_fit_push(ops: Seq<MirOperand>, forms: Seq<OpForm>, o: MirOperand, f: OpForm)
    requires
        ops_fit(ops, forms),
        op_fits(o, f),
    ensures
        ops_fit(ops.push(o), forms.push(f)),
{
    assert forall|i: int| 0 <= i < ops.len() + 1 implies op_fits(#[trigger] ops.push(o)[i], forms.push(f)[i]) by {
        if i < ops.len() {
            assert(ops.push(o)[i] == ops[i]);
        }
    }
}

impl MirLowerer {
    /// `op` rendered for a derived `Debug`; see `render_value_spec`.
    fn render_value_in(
        &mut self,
        Ghost(base): Ghost<MirBuilder>,
        Ghost(sk): Ghost<Sketch>,
        op: &MirOperand,
        ty: &MirType,
        decl: Option<&Type>,
        depth: u32,
    ) -> (r: MirOperand)
        requires
            refines(base, old(self).builder, sk),
            render_fits(old(self).ctx, *ty, depth),
        ensures
            refines(
                base,
                final(self).builder,
                render_value_spec(old(self).ctx, sk, *op, *ty, opt_decl(decl), depth).0,
            ),
            op_fits(r, render_value_spec(old(self).ctx, sk, *op, *ty, opt_decl(decl), depth).1),
            final(self).ctx == old(self).ctx,
        decreases depth_room(depth), 0int,
    {
        let mut one: Vec<MirOperand> = Vec::new();
        one.push(op.duplicate());
        let ghost x = seq![OpForm::Exact(*op)];
        proof {
            assert(ops_fit(one@, x));
        }
        match ty {
            MirType::String => self.debug_call(Ghost(base), Ghost(sk), "string_debug", one, Ghost(x)),
            MirType::Char => self.debug_call(Ghost(base), Ghost(sk), "char_debug", one, Ghost(x)),
            MirType::Struct(_) | MirType::Enum(_) => {
                if depth < 3 {
                    match self.derived_debug_in(Ghost(base), Ghost(sk), op, ty, depth + 1) {
                        Some(v) => v,
                        None => lit(String::from_str("\u{2026}")),
                    }
                } else {
                    lit(String::from_str("\u{2026}"))
                }
            },
            MirType::Tuple(fields) => {
                if depth < 3 {
                    self.debug_render_tuple(Ghost(base), Ghost(sk), op, fields, decl, depth + 1)
                } else {
                    lit(String::from_str("\u{2026}"))
                }
            },
            MirType::Array { elem, len } => {
                if depth < 3 {
                    self.debug_render_array(Ghost(base), Ghost(sk), op, elem, *len, decl, depth + 1)
                } else {
                    lit(String::from_str("[\u{2026}]"))
                }
            },
            MirType::Ptr => match decl {
                Some(d) => match self.debug_vec_elem_kind(d) {
                    Some(k) => {
                        let mut args: Vec<MirOperand> = Vec::new();
                        args.push(op.duplicate());
                        args.push(MirOperand::Constant(MirConst::Int(k)));
                        let ghost forms = seq![
                            OpForm::Exact(*op),
                            OpForm::Exact(MirOperand::Constant(MirConst::Int(k))),
                        ];
                        proof {
                            assert(ops_fit(args@, forms));
                        }
                        self.debug_call(Ghost(base), Ghost(sk), "vec_debug", args, Ghost(forms))
                    },
                    None => lit(self.container_shape(d)),
                },
                None => lit(String::from_str("\u{2026}")),
            },
            MirType::I64 | MirType::I32 | MirType::I16 | MirType::I8 => self.debug_call(
                Ghost(base),
                Ghost(sk),
                "i64_to_string",
                one,
                Ghost(x),
            ),
            MirType::U64 | MirType::U32 | MirType::U16 | MirType::U8 => self.debug_call(
                Ghost(base),
                Ghost(sk),
                "u64_to_string",
                one,
                Ghost(x),
            ),
            MirType::I128 => self.debug_call(Ghost(base), Ghost(sk), "i128_to_string", one, Ghost(x)),
            MirType::U128 => self.debug_call(Ghost(base), Ghost(sk), "u128_to_string", one, Ghost(x)),
            MirType::F64 => self.debug_call(Ghost(base), Ghost(sk), "f64_to_string", one, Ghost(x)),
            MirType::F32 => self.debug_call(Ghost(base), Ghost(sk), "f32_to_string", one, Ghost(x)),
            MirType::Bool => self.debug_call(Ghost(base), Ghost(sk), "bool_to_string", one, Ghost(x)),
            _ => lit(String::from_str("\u{2026}")),
        }
    }

    /// Derived `Debug` of a struct or an enum; see `derived_debug_spec`.
    fn derived_debug_in(
        &mut self,
        Ghost(base): Ghost<MirBuilder>,
        Ghost(sk): Ghost<Sketch>,
        obj_op: &MirOperand,
        obj_ty: &MirType,
        depth: u32,
    ) -> (r: Option<MirOperand>)
        requires
            refines(base, old(self).builder, sk),
            derived_fits(old(self).ctx, *obj_ty, depth),
        ensures
            ({
                let (sk2, rf) = derived_debug_spec(old(self).ctx, sk, *obj_op, *obj_ty, depth);
                &&& refines(base, final(self).builder, sk2)
                &&& r is Some <==> rf is Some
                &&& r is Some ==> op_fits(r->0, rf->0)
            }),
            final(self).ctx == old(self).ctx,
        decreases depth_room(depth), 3int,
    {
        match obj_ty {
            MirType::Struct(id) => self.struct_debug_in(Ghost(base), Ghost(sk), obj_op, *id, depth),
            MirType::Enum(id) => self.enum_debug_in(Ghost(base), Ghost(sk), obj_op, *id, depth),
            _ => None,
        }
    }

    /// Derived `Debug` of a struct: `Name { a: 1, b: 2 }`.
    fn struct_debug_in(
        &mut self,
        Ghost(base): Ghost<MirBuilder>,
        Ghost(sk): Ghost<Sketch>,
        obj_op: &MirOperand,
        id: crate::mir::StructLayoutId,
        depth: u32,
    ) -> (r: Option<MirOperand>)
        requires
            refines(base, old(self).builder, sk),
            derived_fits(old(self).ctx, MirType::Struct(id), depth),
        ensures
            ({
                let (sk2, rf) = derived_debug_spec(old(self).ctx, sk, *obj_op, MirType::Struct(id), depth);
                &&& refines(base, final(self).builder, sk2)
                &&& r is Some <==> rf is Some
                &&& r is Some ==> op_fits(r->0, rf->0)
            }),
            final(self).ctx == old(self).ctx,
        decreases depth_room(depth), 2int,
    {
        let idx = id.id as usize;
        if idx >= self.ctx.struct_layouts.len() {
            return None;
        }
        let n_fields = self.ctx.struct_layouts[idx].fields.len();
        let name = self.ctx.struct_layouts[idx].name.clone();
        if n_fields == 0 {
            return Some(lit(joined(name.as_str(), " {}")));
        }
        let ghost ctx = old(self).ctx;
        let ghost fields = ctx.struct_layouts@[idx as int].fields@;
        let ghost hdr = OpForm::Text(name@ + " { "@);
        let mut parts: Vec<MirOperand> = Vec::new();
        parts.push(lit(joined(name.as_str(), " { ")));
        proof {
            assert(ops_fit(parts@, seq![hdr] + struct_fields_spec(ctx, sk, *obj_op, fields, 0, depth).1));
        }
        let mut i: usize = 0;
        while i < n_fields
            invariant
                self.ctx == ctx,
                ctx == old(self).ctx,
                idx < ctx.struct_layouts@.len(),
                idx == id.id,
                fields == ctx.struct_layouts@[idx as int].fields@,
                n_fields == fields.len(),
                i <= n_fields,
                derived_fits(ctx, MirType::Struct(id), depth),
                refines(base, self.builder, struct_fields_spec(ctx, sk, *obj_op, fields, i as nat, depth).0),
                ops_fit(parts@, seq![hdr] + struct_fields_spec(ctx, sk, *obj_op, fields, i as nat, depth).1),
            decreases n_fields - i,
        {
            let ghost prev = struct_fields_spec(ctx, sk, *obj_op, fields, i as nat, depth);
            let ghost pforms = seq![hdr] + prev.1;
            let ghost sep = if i > 0 {
                seq![OpForm::Text(", "@)]
            } else {
                Seq::<OpForm>::empty()
            };
            if i > 0 {
                let ghost before = parts@;
                parts.push(lit(String::from_str(", ")));
                proof {
                    lemma_ops_fit_push(before, pforms, parts@.last(), OpForm::Text(", "@));
                    assert(pforms.push(OpForm::Text(", "@)) =~= pforms + sep);
                }
            } else {
                proof {
                    assert(pforms + sep =~= pforms);
                }
            }
            let label = joined(self.ctx.struct_layouts[idx].fields[i].name.as_str(), ": ");
            let ghost fname = fields[i as int].name@;
            let ghost before2 = parts@;
            parts.push(lit(label));
            proof {
                lemma_ops_fit_push(before2, pforms + sep, parts@.last(), OpForm::Text(fname + ": "@));
            }
            let field_ty = self.ctx.struct_layouts[idx].fields[i].mir_ty.duplicate();
            let decl_ty = self.ctx.struct_layouts[idx].fields[i].ty.duplicate();
            let offset = self.ctx.struct_layouts[idx].fields[i].offset;
            let size = self.ctx.struct_layouts[idx].fields[i].size;
            let ghost b0 = self.builder;
            let field = self.builder.alloc_temp(field_ty.duplicate());
            proof {
                lemma_refines_temp(base, b0, self.builder, prev.0, field_ty, field);
            }
            let ghost s2 = sk_temp(prev.0, field_ty).0;
            let ghost b1 = self.builder;
            let access = access_for_field(&field_ty, size);
            self.builder.push_stmt(
                MirStmt::Assign {
                    dst: field,
                    rvalue: MirRValue::Field {
                        base: obj_op.duplicate(),
                        field_index: i as u32,
                        byte_offset: Some(offset),
                        access,
                    },
                },
            );
            let ghost ld = DebugStmt::Load {
                dst: field,
                base: *obj_op,
                index: i as u32,
                offset,
                access: access_for(field_ty, size),
            };
            proof {
                lemma_refines_emit(base, b1, self.builder, s2, ld);
                assert(render_fits(ctx, fields[i as int].mir_ty, depth));
            }
            let ghost s3 = sk_emit(s2, ld);
            let rv = self.render_value_in(
                Ghost(base),
                Ghost(s3),
                &MirOperand::Local(field),
                &field_ty,
                Some(&decl_ty),
                depth,
            );
            let ghost rvf = render_value_spec(ctx, s3, MirOperand::Local(field), field_ty, Some(decl_ty), depth).1;
            let ghost before3 = parts@;
            parts.push(rv);
            proof {
                lemma_ops_fit_push(before3, (pforms + sep).push(OpForm::Text(fname + ": "@)), rv, rvf);
                let next = struct_fields_spec(ctx, sk, *obj_op, fields, (i + 1) as nat, depth);
                assert(next.1 == prev.1 + sep + seq![OpForm::Text(fname + ": "@), rvf]);
                assert(seq![hdr] + next.1 =~= (pforms + sep).push(OpForm::Text(fname + ": "@)).push(rvf));
            }
            i = i + 1;
        }
        let ghost fps = struct_fields_spec(ctx, sk, *obj_op, fields, n_fields as nat, depth);
        let ghost before4 = parts@;
        parts.push(lit(String::from_str(" }")));
        let ghost forms = seq![hdr] + fps.1 + seq![OpForm::Text(" }"@)];
        proof {
            lemma_ops_fit_push(before4, seq![hdr] + fps.1, parts@.last(), OpForm::Text(" }"@));
            assert((seq![hdr] + fps.1).push(OpForm::Text(" }"@)) =~= forms);
        }
        let ghost pv = parts@;
        let ghost b2 = self.builder;
        let r = self.concat_all(parts);
        proof {
            lemma_concat_refines(base, b2, self.builder, fps.0, pv, forms, r);
        }
        Some(r)
    }
}

impl MirLowerer {
    /// The payload fields of variant `vi` of enum layout `idx`, rendered
    /// and separated by `, `; see `variant_fields_spec`.
    fn variant_fields_in(
        &mut self,
        Ghost(base): Ghost<MirBuilder>,
        Ghost(sk): Ghost<Sketch>,
        obj_op: &MirOperand,
        idx: usize,
        vi: usize,
        depth: u32,
    ) -> (r: Vec<MirOperand>)
        requires
            refines(base, old(self).builder, sk),
            idx < old(self).ctx.enum_layouts@.len(),
            vi < old(self).ctx.enum_layouts@[idx as int].variants@.len(),
            forall|fi: int|
                0 <= fi < old(self).ctx.enum_layouts@[idx as int].variants@[vi as int].fields@.len() ==> {
                    &&& old(self).ctx.enum_layouts@[idx as int].variants@[vi as int].payload_offset + (
                    #[trigger] old(self).ctx.enum_layouts@[idx as int].variants@[vi as int].fields@[fi]).offset
                        <= u32::MAX
                    &&& render_fits(
                        old(self).ctx,
                        old(self).ctx.enum_layouts@[idx as int].variants@[vi as int].fields@[fi].mir_ty,
                        depth,
                    )
                },
        ensures
            ({
                let v = old(self).ctx.enum_layouts@[idx as int].variants@[vi as int];
                let sp = variant_fields_spec(
                    old(self).ctx,
                    sk,
                    *obj_op,
                    v.fields@,
                    v.payload_offset,
                    v.fields@.len(),
                    depth,
                );
                &&& refines(base, final(self).builder, sp.0)
                &&& ops_fit(r@, sp.1)
            }),
            final(self).ctx == old(self).ctx,
        decreases depth_room(depth), 1int,
    {
        let ghost ctx = old(self).ctx;
        let ghost v = ctx.enum_layouts@[idx as int].variants@[vi as int];
        let ghost fields = v.fields@;
        let n_fields = self.ctx.enum_layouts[idx].variants[vi].fields.len();
        let payload = self.ctx.enum_layouts[idx].variants[vi].payload_offset;
        let mut parts: Vec<MirOperand> = Vec::new();
        let mut i: usize = 0;
        while i < n_fields
            invariant
                self.ctx == ctx,
                ctx == old(self).ctx,
                idx < ctx.enum_layouts@.len(),
                vi < ctx.enum_layouts@[idx as int].variants@.len(),
                v == ctx.enum_layouts@[idx as int].variants@[vi as int],
                fields == v.fields@,
                payload == v.payload_offset,
                n_fields == fields.len(),
                i <= n_fields,
                forall|fi: int|
                    0 <= fi < fields.len() ==> {
                        &&& v.payload_offset + (#[trigger] fields[fi]).offset <= u32::MAX
                        &&& render_fits(ctx, fields[fi].mir_ty, depth)
                    },
                refines(
                    base,
                    self.builder,
                    variant_fields_spec(ctx, sk, *obj_op, fields, payload, i as nat, depth).0,
                ),
                ops_fit(parts@, variant_fields_spec(ctx, sk, *obj_op, fields, payload, i as nat, depth).1),
            decreases n_fields - i,
        {
            let ghost prev = variant_fields_spec(ctx, sk, *obj_op, fields, payload, i as nat, depth);
            let ghost sep = if i > 0 {
                seq![OpForm::Text(", "@)]
            } else {
                Seq::<OpForm>::empty()
            };
            if i > 0 {
                let ghost before = parts@;
                parts.push(lit(String::from_str(", ")));
                proof {
                    lemma_ops_fit_push(before, prev.1, parts@.last(), OpForm::Text(", "@));
                    assert(prev.1.push(OpForm::Text(", "@)) =~= prev.1 + sep);
                }
            } else {
                proof {
                    assert(prev.1 + sep =~= prev.1);
                }
            }
            let field_ty = self.ctx.enum_layouts[idx].variants[vi].fields[i].mir_ty.duplicate();
            let decl_ty = self.ctx.enum_layouts[idx].variants[vi].fields[i].ty.duplicate();
            let offset = self.ctx.enum_layouts[idx].variants[vi].fields[i].offset;
            let size = self.ctx.enum_layouts[idx].variants[vi].fields[i].size;
            proof {
                assert(payload + fields[i as int].offset <= u32::MAX);
            }
            let ghost b0 = self.builder;
            let field = self.builder.alloc_temp(field_ty.duplicate());
            proof {
                lemma_refines_temp(base, b0, self.builder, prev.0, field_ty, field);
            }
            let ghost s2 = sk_temp(prev.0, field_ty).0;
            let ghost b1 = self.builder;
            let access = access_for_field(&field_ty, size);
            self.builder.push_stmt(
                MirStmt::Assign {
                    dst: field,
                    rvalue: MirRValue::Field {
                        base: obj_op.duplicate(),
                        field_index: i as u32,
                        byte_offset: Some(payload + offset),
                        access,
                    },
                },
            );
            let ghost ld = DebugStmt::Load {
                dst: field,
                base: *obj_op,
                index: i as u32,
                offset: (payload + offset) as u32,
                access: access_for(field_ty, size),
            };
            proof {
                lemma_refines_emit(base, b1, self.builder, s2, ld);
            }
            let ghost s3 = sk_emit(s2, ld);
            let rv = self.render_value_in(
                Ghost(base),
                Ghost(s3),
                &MirOperand::Local(field),
                &field_ty,
                Some(&decl_ty),
                depth,
            );
            let ghost rvf = render_value_spec(ctx, s3, MirOperand::Local(field), field_ty, Some(decl_ty), depth).1;
            let ghost before3 = parts@;
            parts.push(rv);
            proof {
                lemma_ops_fit_push(before3, prev.1 + sep, rv, rvf);
                let next = variant_fields_spec(ctx, sk, *obj_op, fields, payload, (i + 1) as nat, depth);
                assert(next.1 == prev.1 + sep + seq![rvf]);
                assert(next.1 =~= (prev.1 + sep).push(rvf));
            }
            i = i + 1;
        }
        parts
    }

    /// Derived `Debug` of an enum: a switch on the tag to one block per
    /// variant, each rendering into a shared result and jumping to a merge
    /// block, where the builder is left.
    fn enum_debug_in(
        &mut self,
        Ghost(base): Ghost<MirBuilder>,
        Ghost(sk): Ghost<Sketch>,
        obj_op: &MirOperand,
        id: crate::mir::EnumLayoutId,
        depth: u32,
    ) -> (r: Option<MirOperand>)
        requires
            refines(base, old(self).builder, sk),
            derived_fits(old(self).ctx, MirType::Enum(id), depth),
        ensures
            ({
                let (sk2, rf) = derived_debug_spec(old(self).ctx, sk, *obj_op, MirType::Enum(id), depth);
                &&& refines(base, final(self).builder, sk2)
                &&& r is Some <==> rf is Some
                &&& r is Some ==> op_fits(r->0, rf->0)
            }),
            final(self).ctx == old(self).ctx,
        decreases depth_room(depth), 2int,
    {
        let idx = id.id as usize;
        if idx >= self.ctx.enum_layouts.len() {
            return None;
        }
        let ghost ctx = old(self).ctx;
        let ghost layout = ctx.enum_layouts@[idx as int];
        let tag_offset = self.ctx.enum_layouts[idx].tag_offset;
        let ghost b0 = self.builder;
        let tag = self.builder.alloc_temp(MirType::I64);
        proof {
            lemma_refines_temp(base, b0, self.builder, sk, MirType::I64, tag);
        }
        let ghost s1 = sk_temp(sk, MirType::I64).0;
        let ghost b1 = self.builder;
        self.builder.push_stmt(
            MirStmt::Assign {
                dst: tag,
                rvalue: MirRValue::Field {
                    base: obj_op.duplicate(),
                    field_index: 0,
                    byte_offset: Some(tag_offset),
                    access: FieldAccess::Sized(8),
                },
            },
        );
        let ghost ld = DebugStmt::Load {
            dst: tag,
            base: *obj_op,
            index: 0,
            offset: tag_offset,
            access: FieldAccess::Sized(8),
        };
        proof {
            lemma_refines_emit(base, b1, self.builder, s1, ld);
        }
        let ghost s2 = sk_emit(s1, ld);
        let ghost b2 = self.builder;
        let result = self.builder.alloc_temp(MirType::String);
        proof {
            lemma_refines_temp(base, b2, self.builder, s2, MirType::String, result);
        }
        let ghost s3 = sk_temp(s2, MirType::String).0;
        let ghost b3 = self.builder;
        let merge = self.builder.create_block();
        proof {
            lemma_refines_block(base, b3, self.builder, s3, merge);
        }
        let ghost s4 = sk_block(s3).0;
        let ghost arm0 = s4.b0 + s4.blocks;
        let nv = self.ctx.enum_layouts[idx].variants.len();
        let mut arms: Vec<BlockId> = Vec::new();
        let mut cases: Vec<(u64, BlockId)> = Vec::new();
        let mut k: usize = 0;
        while k < nv
            invariant
                self.ctx == ctx,
                idx < ctx.enum_layouts@.len(),
                layout == ctx.enum_layouts@[idx as int],
                nv == layout.variants@.len(),
                k <= nv,
                arm0 == s4.b0 + s4.blocks,
                refines(base, self.builder, sk_blocks(s4, k as nat)),
                arms@ == Seq::new(k as nat, |j: int| BlockId((arm0 + j) as usize)),
                cases@ == Seq::new(k as nat, |j: int| (layout.variants@[j].tag, BlockId((arm0 + j) as usize))),
            decreases nv - k,
        {
            let ghost bk = self.builder;
            let arm = self.builder.create_block();
            proof {
                lemma_refines_block(base, bk, self.builder, sk_blocks(s4, k as nat), arm);
                assert(sk_block(sk_blocks(s4, k as nat)).0 == sk_blocks(s4, (k + 1) as nat));
            }
            arms.push(arm);
            cases.push((self.ctx.enum_layouts[idx].variants[k].tag, arm));
            proof {
                assert(arms@ =~= Seq::new((k + 1) as nat, |j: int| BlockId((arm0 + j) as usize)));
                assert(cases@ =~= Seq::new(
                    (k + 1) as nat,
                    |j: int| (layout.variants@[j].tag, BlockId((arm0 + j) as usize)),
                ));
            }
            k = k + 1;
        }
        let ghost s5 = sk_blocks(s4, nv as nat);
        let default = if nv > 0 {
            arms[0]
        } else {
            merge
        };
        let ghost cases_v = cases@;
        let ghost b5 = self.builder;
        let sw = MirTerminator::Switch { value: MirOperand::Local(tag), cases, default };
        let ghost swg = sw;
        self.builder.terminate(sw);
        let ghost st = DebugTerm::SwitchOn {
            value: MirOperand::Local(tag),
            cases: Seq::new(nv as nat, |vi: int| (layout.variants@[vi].tag, BlockId((arm0 + vi) as usize))),
            default,
        };
        proof {
            lemma_refines_end(base, b5, self.builder, s5, swg, st);
        }
        let ghost s6 = sk_end(s5, st);
        let mut vi: usize = 0;
        while vi < nv
            invariant
                self.ctx == ctx,
                ctx == old(self).ctx,
                idx < ctx.enum_layouts@.len(),
                idx == id.id,
                layout == ctx.enum_layouts@[idx as int],
                nv == layout.variants@.len(),
                vi <= nv,
                arm0 == s4.b0 + s4.blocks,
                arms@ == Seq::new(nv as nat, |j: int| BlockId((arm0 + j) as usize)),
                merge == BlockId((s3.b0 + s3.blocks) as usize),
                result == LocalId((s2.n0 + s2.temps.len()) as usize),
                s6.b0 + s6.blocks == arm0 + nv,
                merge.0 < s6.b0 + s6.blocks,
                derived_fits(ctx, MirType::Enum(id), depth),
                refines(
                    base,
                    self.builder,
                    variant_arms_spec(ctx, s6, *obj_op, layout, vi as nat, depth, result, arm0, merge),
                ),
            decreases nv - vi,
        {
            let ghost prev = variant_arms_spec(ctx, s6, *obj_op, layout, vi as nat, depth, result, arm0, merge);
            proof {
                lemma_variant_arms_grows(ctx, s6, *obj_op, layout, vi as nat, depth, result, arm0, merge);
            }
            let ghost bv = self.builder;
            self.builder.switch_to_block(arms[vi]);
            proof {
                lemma_refines_switch(base, bv, self.builder, prev, arms@[vi as int]);
            }
            let ghost sa = sk_switch(prev, BlockId((arm0 + vi) as usize));
            let ghost v = layout.variants@[vi as int];
            let ename = self.ctx.enum_layouts[idx].name.clone();
            let vname = self.ctx.enum_layouts[idx].variants[vi].name.clone();
            let dotted = joined(ename.as_str(), ".");
            let head = joined(dotted.as_str(), vname.as_str());
            let has_fields = self.ctx.enum_layouts[idx].variants[vi].fields.len() > 0;
            let ghost pp = variant_fields_spec(ctx, sa, *obj_op, v.fields@, v.payload_offset, v.fields@.len(), depth);
            let mut parts: Vec<MirOperand> = Vec::new();
            if has_fields {
                proof {
                    assert forall|fi: int| 0 <= fi < v.fields@.len() implies {
                        &&& v.payload_offset + (#[trigger] v.fields@[fi]).offset <= u32::MAX
                        &&& render_fits(ctx, v.fields@[fi].mir_ty, depth)
                    } by {
                        assert(ctx.enum_layouts@[id.id as int].variants@[vi as int].fields@[fi] == v.fields@[fi]);
                    }
                }
                parts.push(lit(joined(head.as_str(), "(")));
                let fps = self.variant_fields_in(Ghost(base), Ghost(sa), obj_op, idx, vi, depth);
                let ghost fpv = fps@;
                let mut q: usize = 0;
                while q < fps.len()
                    invariant
                        q <= fpv.len(),
                        fpv == fps@,
                        ops_fit(fpv, pp.1),
                        ops_fit(parts@, seq![OpForm::Text(layout.name@ + "."@ + v.name@ + "("@)] + pp.1.subrange(0, q as int)),
                    decreases fpv.len() - q,
                {
                    let ghost before = parts@;
                    parts.push(fps[q].duplicate());
                    proof {
                        lemma_ops_fit_push(
                            before,
                            seq![OpForm::Text(layout.name@ + "."@ + v.name@ + "("@)] + pp.1.subrange(0, q as int),
                            fpv[q as int],
                            pp.1[q as int],
                        );
                        assert((seq![OpForm::Text(layout.name@ + "."@ + v.name@ + "("@)] + pp.1.subrange(0, q as int)).push(pp.1[q as int])
                            =~= seq![OpForm::Text(layout.name@ + "."@ + v.name@ + "("@)] + pp.1.subrange(0, q + 1));
                    }
                    q = q + 1;
                }
                let ghost before2 = parts@;
                parts.push(lit(String::from_str(")")));
                proof {
                    assert(pp.1.subrange(0, q as int) =~= pp.1);
                    lemma_ops_fit_push(
                        before2,
                        seq![OpForm::Text(layout.name@ + "."@ + v.name@ + "("@)] + pp.1,
                        parts@.last(),
                        OpForm::Text(")"@),
                    );
                    assert((seq![OpForm::Text(layout.name@ + "."@ + v.name@ + "("@)] + pp.1).push(OpForm::Text(")"@))
                        =~= variant_parts(layout.name@, v, pp.1));
                }
            } else {
                parts.push(lit(head));
                proof {
                    assert(parts@ =~= seq![parts@[0]]);
                    assert(pp.0 == sa);
                }
            }
            let ghost forms = variant_parts(layout.name@, v, pp.1);
            let ghost pv = parts@;
            let ghost bc = self.builder;
            let text = self.concat_all(parts);
            proof {
                lemma_concat_refines(base, bc, self.builder, pp.0, pv, forms, text);
            }
            let ghost (s4v, tf) = concat_spec(pp.0, forms);
            let ghost bt = self.builder;
            let ghost text_g = text;
            self.builder.push_stmt(MirStmt::Assign { dst: result, rvalue: MirRValue::Use(text) });
            proof {
                lemma_refines_emit(base, bt, self.builder, s4v, DebugStmt::CopyIn { dst: result, src: tf });
            }
            let ghost s5v = sk_emit(s4v, DebugStmt::CopyIn { dst: result, src: tf });
            let ghost be = self.builder;
            self.builder.terminate(MirTerminator::Goto { target: merge });
            proof {
                lemma_refines_end(base, be, self.builder, s5v, MirTerminator::Goto { target: merge }, DebugTerm::Jump(merge));
            }
            vi = vi + 1;
        }
        let ghost s7 = variant_arms_spec(ctx, s6, *obj_op, layout, nv as nat, depth, result, arm0, merge);
        proof {
            lemma_variant_arms_grows(ctx, s6, *obj_op, layout, nv as nat, depth, result, arm0, merge);
        }
        let ghost bm = self.builder;
        self.builder.switch_to_block(merge);
        proof {
            lemma_refines_switch(base, bm, self.builder, s7, merge);
        }
        Some(MirOperand::Local(result))
    }

    /// A tuple rendered `(a, b, c)`; see `tuple_debug_spec`.
    fn debug_render_tuple(
        &mut self,
        Ghost(base): Ghost<MirBuilder>,
        Ghost(sk): Ghost<Sketch>,
        op: &MirOperand,
        fields: &TypeList,
        decl: Option<&Type>,
        depth: u32,
    ) -> (r: MirOperand)
        requires
            refines(base, old(self).builder, sk),
            crate::mir::list_sizes_fit(*fields),
            crate::mir::list_size(*fields) <= u32::MAX,
            list_seq(*fields).len() <= u32::MAX,
            forall|i: int| 0 <= i < list_seq(*fields).len() ==> render_fits(old(self).ctx, #[trigger] list_seq(*fields)[i], depth),
        ensures
            refines(
                base,
                final(self).builder,
                tuple_debug_spec(old(self).ctx, sk, *op, list_seq(*fields), opt_decl(decl), depth).0,
            ),
            op_fits(r, tuple_debug_spec(old(self).ctx, sk, *op, list_seq(*fields), opt_decl(decl), depth).1),
            final(self).ctx == old(self).ctx,
        decreases depth_room(depth), 2int,
    {
        let ghost ctx = old(self).ctx;
        let ghost fs = list_seq(*fields);
        let ghost decls = tuple_decls(opt_decl(decl), fs.len());
        let mut dcur: Option<&TypeSeq> = match decl {
            Some(Type::Tuple(ts)) => {
                if same_len(fields, ts) {
                    Some(ts)
                } else {
                    None
                }
            },
            _ => None,
        };
        let mut parts: Vec<MirOperand> = Vec::new();
        parts.push(lit(String::from_str("(")));
        let mut cur: &TypeList = fields;
        let mut i: usize = 0;
        let mut offset: u32 = 0;
        proof {
            assert(fs.subrange(0, fs.len() as int) =~= fs);
            match decls {
                Some(ts) => {
                    assert(ts.subrange(0, ts.len() as int) =~= ts);
                },
                None => {},
            }
        }
        loop
            invariant
                self.ctx == ctx,
                ctx == old(self).ctx,
                fs == list_seq(*fields),
                fs.len() <= u32::MAX,
                i <= fs.len(),
                list_seq(*cur) == fs.subrange(i as int, fs.len() as int),
                crate::mir::list_sizes_fit(*cur),
                offset + crate::mir::list_size(*cur) == crate::mir::list_size(*fields),
                crate::mir::list_size(*fields) <= u32::MAX,
                forall|q: int| 0 <= q < fs.len() ==> render_fits(ctx, #[trigger] fs[q], depth),
                match decls {
                    Some(ts) => dcur matches Some(c) && types_seq(*c) == ts.subrange(i as int, ts.len() as int) && ts.len() == fs.len(),
                    None => dcur is None,
                },
                refines(base, self.builder, tuple_fields_spec(ctx, sk, *op, fs, decls, i as nat, depth).0),
                ops_fit(parts@, seq![OpForm::Text("("@)] + tuple_fields_spec(ctx, sk, *op, fs, decls, i as nat, depth).1),
                offset == tuple_fields_spec(ctx, sk, *op, fs, decls, i as nat, depth).2,
            ensures
                i == fs.len(),
                refines(base, self.builder, tuple_fields_spec(ctx, sk, *op, fs, decls, i as nat, depth).0),
                ops_fit(parts@, seq![OpForm::Text("("@)] + tuple_fields_spec(ctx, sk, *op, fs, decls, i as nat, depth).1),
                self.ctx == ctx,
            decreases fs.len() - i,
        {
            match cur {
                TypeList::Nil => {
                    assert(list_seq(*cur).len() == 0);
                    break;
                },
                TypeList::Cons(h, t) => {
                    assert(list_seq(*cur) == seq![**h] + list_seq(**t));
                    assert(fs.subrange(i as int, fs.len() as int)[0] == **h);
                    assert(fs[i as int] == **h);
                    assert(i < fs.len());
                    let ghost prev = tuple_fields_spec(ctx, sk, *op, fs, decls, i as nat, depth);
                    let ghost pforms = seq![OpForm::Text("("@)] + prev.1;
                    let ghost sep = if i > 0 {
                        seq![OpForm::Text(", "@)]
                    } else {
                        Seq::<OpForm>::empty()
                    };
                    if i > 0 {
                        let ghost before = parts@;
                        parts.push(lit(String::from_str(", ")));
                        proof {
                            lemma_ops_fit_push(before, pforms, parts@.last(), OpForm::Text(", "@));
                            assert(pforms.push(OpForm::Text(", "@)) =~= pforms + sep);
                        }
                    } else {
                        proof {
                            assert(pforms + sep =~= pforms);
                        }
                    }
                    let size = (**h).size();
                    let ghost b0 = self.builder;
                    let slot = self.builder.alloc_temp((**h).duplicate());
                    proof {
                        lemma_refines_temp(base, b0, self.builder, prev.0, **h, slot);
                    }
                    let ghost s2 = sk_temp(prev.0, **h).0;
                    let ghost b1 = self.builder;
                    let access = access_for_field(&**h, size);
                    self.builder.push_stmt(
                        MirStmt::Assign {
                            dst: slot,
                            rvalue: MirRValue::Field {
                                base: op.duplicate(),
                                field_index: i as u32,
                                byte_offset: Some(offset),
                                access,
                            },
                        },
                    );
                    let ghost ld = DebugStmt::Load {
                        dst: slot,
                        base: *op,
                        index: i as u32,
                        offset: offset,
                        access: access_for(**h, size),
                    };
                    proof {
                        lemma_refines_emit(base, b1, self.builder, s2, ld);
                    }
                    let ghost s3 = sk_emit(s2, ld);
                    let (fdecl, next_dcur): (Option<&Type>, Option<&TypeSeq>) = match dcur {
                        Some(TypeSeq::Cons(dh, dt)) => (Some(&**dh), Some(&**dt)),
                        _ => (None, None),
                    };
                    proof {
                        match decls {
                            Some(ts) => {
                                let c = dcur->0;
                                assert(types_seq(*c).len() == ts.len() - i);
                                assert(types_seq(*c).len() > 0);
                                assert(types_seq(*c) == seq![*(c->Cons_0)] + types_seq(*(c->Cons_1)));
                                assert(ts.subrange(i as int, ts.len() as int)[0] == ts[i as int]);
                                assert(opt_decl(fdecl) == Some(ts[i as int]));
                                assert(next_dcur->0 == &*(c->Cons_1));
                                assert(types_seq(*(c->Cons_1)) =~= types_seq(*c).subrange(1, types_seq(*c).len() as int));
                                assert(types_seq(*(next_dcur->0)) =~= ts.subrange(i + 1, ts.len() as int));
                            },
                            None => {},
                        }
                    }
                    let rv = self.render_value_in(Ghost(base), Ghost(s3), &MirOperand::Local(slot), &**h, fdecl, depth);
                    let ghost rvf = render_value_spec(ctx, s3, MirOperand::Local(slot), **h, opt_decl(fdecl), depth).1;
                    let ghost before3 = parts@;
                    parts.push(rv);
                    proof {
                        lemma_ops_fit_push(before3, pforms + sep, rv, rvf);
                        let next = tuple_fields_spec(ctx, sk, *op, fs, decls, (i + 1) as nat, depth);
                        assert(next.1 == prev.1 + sep + seq![rvf]);
                        assert(seq![OpForm::Text("("@)] + next.1 =~= (pforms + sep).push(rvf));
                        assert(list_seq(**t) =~= list_seq(*cur).drop_first());
                        assert(list_seq(**t) =~= fs.subrange(i + 1, fs.len() as int));
                    }
                    offset = offset + size;
                    dcur = next_dcur;
                    cur = &**t;
                    i = i + 1;
                },
            }
        }
        let ghost fps = tuple_fields_spec(ctx, sk, *op, fs, decls, fs.len(), depth);
        let ghost before4 = parts@;
        parts.push(lit(String::from_str(")")));
        let ghost forms = seq![OpForm::Text("("@)] + fps.1 + seq![OpForm::Text(")"@)];
        proof {
            lemma_ops_fit_push(before4, seq![OpForm::Text("("@)] + fps.1, parts@.last(), OpForm::Text(")"@));
            assert((seq![OpForm::Text("("@)] + fps.1).push(OpForm::Text(")"@)) =~= forms);
        }
        let ghost pv = parts@;
        let ghost b2 = self.builder;
        let r = self.concat_all(parts);
        proof {
            lemma_concat_refines(base, b2, self.builder, fps.0, pv, forms, r);
        }
        r
    }

    /// An array rendered `[1, 2, 3]`, at most 32 elements; see
    /// `array_debug_spec`.
    fn debug_render_array(
        &mut self,
        Ghost(base): Ghost<MirBuilder>,
        Ghost(sk): Ghost<Sketch>,
        op: &MirOperand,
        elem: &MirType,
        len: u32,
        decl: Option<&Type>,
        depth: u32,
    ) -> (r: MirOperand)
        requires
            refines(base, old(self).builder, sk),
            size_fits(*elem),
            shown_count(len) > 0 ==> (shown_count(len) - 1) * size_of(*elem) <= u32::MAX,
            render_fits(old(self).ctx, *elem, depth),
        ensures
            refines(
                base,
                final(self).builder,
                array_debug_spec(old(self).ctx, sk, *op, *elem, len, opt_decl(decl), depth).0,
            ),
            op_fits(r, array_debug_spec(old(self).ctx, sk, *op, *elem, len, opt_decl(decl), depth).1),
            final(self).ctx == old(self).ctx,
        decreases depth_room(depth), 2int,
    {
        let ghost ctx = old(self).ctx;
        let edecl: Option<&Type> = match decl {
            Some(Type::Array { elem: e, .. }) => Some(&**e),
            _ => None,
        };
        let ghost ed = opt_decl(edecl);
        let shown: u32 = if len < 32 {
            len
        } else {
            32
        };
        let size = elem.size();
        let mut parts: Vec<MirOperand> = Vec::new();
        parts.push(lit(String::from_str("[")));
        let mut i: u32 = 0;
        while i < shown
            invariant
                self.ctx == ctx,
                ctx == old(self).ctx,
                shown == shown_count(len),
                size == size_of(*elem),
                ed == opt_decl(edecl),
                shown_count(len) > 0 ==> (shown_count(len) - 1) * size_of(*elem) <= u32::MAX,
                render_fits(ctx, *elem, depth),
                i <= shown,
                refines(base, self.builder, array_elems_spec(ctx, sk, *op, *elem, ed, i as nat, depth).0),
                ops_fit(parts@, seq![OpForm::Text("["@)] + array_elems_spec(ctx, sk, *op, *elem, ed, i as nat, depth).1),
            decreases shown - i,
        {
            let ghost prev = array_elems_spec(ctx, sk, *op, *elem, ed, i as nat, depth);
            let ghost pforms = seq![OpForm::Text("["@)] + prev.1;
            let ghost sep = if i > 0 {
                seq![OpForm::Text(", "@)]
            } else {
                Seq::<OpForm>::empty()
            };
            if i > 0 {
                let ghost before = parts@;
                parts.push(lit(String::from_str(", ")));
                proof {
                    lemma_ops_fit_push(before, pforms, parts@.last(), OpForm::Text(", "@));
                    assert(pforms.push(OpForm::Text(", "@)) =~= pforms + sep);
                }
            } else {
                proof {
                    assert(pforms + sep =~= pforms);
                }
            }
            proof {
                assert(i * size <= (shown - 1) * size) by (nonlinear_arith)
                    requires
                        i <= shown - 1,
                ;
            }
            let ghost b0 = self.builder;
            let slot = self.builder.alloc_temp(elem.duplicate());
            proof {
                lemma_refines_temp(base, b0, self.builder, prev.0, *elem, slot);
            }
            let ghost s2 = sk_temp(prev.0, *elem).0;
            let ghost b1 = self.builder;
            let access = access_for_field(elem, size);
            self.builder.push_stmt(
                MirStmt::Assign {
                    dst: slot,
                    rvalue: MirRValue::Field {
                        base: op.duplicate(),
                        field_index: i,
                        byte_offset: Some(i * size),
                        access,
                    },
                },
            );
            let ghost ld = DebugStmt::Load {
                dst: slot,
                base: *op,
                index: i as u32,
                offset: (i * size) as u32,
                access: access_for(*elem, size),
            };
            proof {
                lemma_refines_emit(base, b1, self.builder, s2, ld);
            }
            let ghost s3 = sk_emit(s2, ld);
            let rv = self.render_value_in(Ghost(base), Ghost(s3), &MirOperand::Local(slot), elem, edecl, depth);
            let ghost rvf = render_value_spec(ctx, s3, MirOperand::Local(slot), *elem, ed, depth).1;
            let ghost before3 = parts@;
            parts.push(rv);
            proof {
                lemma_ops_fit_push(before3, pforms + sep, rv, rvf);
                let next = array_elems_spec(ctx, sk, *op, *elem, ed, (i + 1) as nat, depth);
                assert(next.1 == prev.1 + sep + seq![rvf]);
                assert(seq![OpForm::Text("["@)] + next.1 =~= (pforms + sep).push(rvf));
            }
            i = i + 1;
        }
        let ghost eps = array_elems_spec(ctx, sk, *op, *elem, ed, shown as nat, depth);
        let ghost more = if len > shown {
            seq![OpForm::Text(", \u{2026}"@)]
        } else {
            Seq::<OpForm>::empty()
        };
        if len > shown {
            let ghost before = parts@;
            parts.push(lit(String::from_str(", \u{2026}")));
            proof {
                lemma_ops_fit_push(before, seq![OpForm::Text("["@)] + eps.1, parts@.last(), OpForm::Text(", \u{2026}"@));
                assert((seq![OpForm::Text("["@)] + eps.1).push(OpForm::Text(", \u{2026}"@)) =~= seq![OpForm::Text("["@)] + eps.1 + more);
            }
        } else {
            proof {
                assert(seq![OpForm::Text("["@)] + eps.1 + more =~= seq![OpForm::Text("["@)] + eps.1);
            }
        }
        let ghost before4 = parts@;
        parts.push(lit(String::from_str("]")));
        let ghost forms = seq![OpForm::Text("["@)] + eps.1 + more + seq![OpForm::Text("]"@)];
        proof {
            lemma_ops_fit_push(before4, seq![OpForm::Text("["@)] + eps.1 + more, parts@.last(), OpForm::Text("]"@));
            assert((seq![OpForm::Text("["@)] + eps.1 + more).push(OpForm::Text("]"@)) =~= forms);
        }
        let ghost pv = parts@;
        let ghost b2 = self.builder;
        let r = self.concat_all(parts);
        proof {
            lemma_concat_refines(base, b2, self.builder, eps.0, pv, forms, r);
        }
        r
    }

    /// Derived `Debug` for a struct or an enum, expanded at compile time:
    /// `Point { x: 1, y: 2 }` for a struct, `Shape.Circle(1.5)` for an enum
    /// variant with a payload, `Shape.Empty` for one without. Strings and
    /// chars come out quoted. Past four levels of nesting a value renders
    /// as an ellipsis. `None` for other types, or a layout not registered.
    /// What is emitted is `derived_debug_spec` from the builder as it was.
    pub fn lower_derived_debug(&mut self, obj_op: &MirOperand, obj_ty: &MirType, depth: u32) -> (r: Option<MirOperand>)
        requires
            old(self).builder.wf(),
            derived_fits(old(self).ctx, *obj_ty, depth),
        ensures
            ({
                let (sk2, rf) = derived_debug_spec(
                    old(self).ctx,
                    sketch_of(old(self).builder),
                    *obj_op,
                    *obj_ty,
                    depth,
                );
                &&& refines(old(self).builder, final(self).builder, sk2)
                &&& r is Some <==> rf is Some
                &&& r is Some ==> op_fits(r->0, rf->0)
            }),
            final(self).builder.wf(),
            final(self).ctx == old(self).ctx,
    {
        let ghost base = self.builder;
        proof {
            lemma_refines_start(base);
        }
        let r = self.derived_debug_in(Ghost(base), Ghost(sketch_of(base)), obj_op, obj_ty, depth);
        proof {
            let sk2 = derived_debug_spec(old(self).ctx, sketch_of(base), *obj_op, *obj_ty, depth).0;
            assert(self.builder.current.0 < self.builder.terms@.len());
        }
        r
    }

    /// One value inside a derived `Debug`; see `render_value_spec`.
    pub fn debug_render_value(&mut self, op: &MirOperand, ty: &MirType, decl: Option<&Type>, depth: u32) -> (r: MirOperand)
        requires
            old(self).builder.wf(),
            render_fits(old(self).ctx, *ty, depth),
        ensures
            ({
                let (sk2, f) = render_value_spec(
                    old(self).ctx,
                    sketch_of(old(self).builder),
                    *op,
                    *ty,
                    opt_decl(decl),
                    depth,
                );
                &&& refines(old(self).builder, final(self).builder, sk2)
                &&& op_fits(r, f)
            }),
            final(self).builder.wf(),
            final(self).ctx == old(self).ctx,
    {
        let ghost base = self.builder;
        proof {
            lemma_refines_start(base);
        }
        self.render_value_in(Ghost(base), Ghost(sketch_of(base)), op, ty, decl, depth)
    }
}

} // verus!
