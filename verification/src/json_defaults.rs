//! The zero value a JSON decode stores for a field it may leave absent: an
//! empty string, an absent optional, an empty Vec or Map, or, for a struct,
//! each of its fields zeroed in turn.

use vstd::prelude::*;
use crate::builder::{lemma_recorded_start, lemma_recorded_then, recorded, MirBuilder, StmtForm};
use crate::iterators::local_op;
use crate::json_decode::{
    collection_arg_spec, is_map_type_spec, prim_shape_kind, prim_shape_kind_spec, struct_layout_of_spec, JSHAPE_STRING,
};
use crate::lowerer::{FieldLayout, LowerCtx, MirLowerer};
use crate::mir::{BlockId, LocalId, MirConst, MirOperand, MirStmt, MirType};
use crate::sorting::call_form;
use crate::types::Type;

verus! {

/// Whether `ty` is an optional: a result whose error side is `none`.
pub open spec fn is_optional(ty: Type) -> bool {
    match ty {
        Type::Result { err, .. } => *err is NoneType,
        _ => false,
    }
}

/// The statements that zero a value of type `ty` at `offset` in `dst`, in
/// order, when the next local is numbered `n`, and how many temps they
/// make: a 16-byte empty string; tag 1 (absent) in one word for an
/// optional; a new `Vec_new()` or `Map_new_string_keys()` stored in one
/// word; for a registered struct, its fields zeroed in turn at their
/// offsets (with `k` bounding how deep structs nest); nothing otherwise.
pub open spec fn zero_forms(ctx: LowerCtx, dst: LocalId, offset: u32, ty: Type, n: nat, k: nat) -> (Seq<StmtForm>, nat)
    decreases k, 0int, 0int,
{
    if prim_shape_kind_spec(ty) == Some(JSHAPE_STRING) {
        (seq![StmtForm::StoreText { addr: dst, offset, text: Seq::empty(), store_size: Some(16u32) }], 0)
    } else if is_optional(ty) {
        (
            seq![StmtForm::Exact(MirStmt::Store { addr: dst, offset, value: MirOperand::Constant(MirConst::Int(1)), store_size: Some(8u32) })],
            0,
        )
    } else if collection_arg_spec(ctx, ty, "Vec"@, 0) is Some || is_map_type_spec(ctx, ty) {
        let ctor = if collection_arg_spec(ctx, ty, "Vec"@, 0) is Some {
            "Vec_new"@
        } else {
            "Map_new_string_keys"@
        };
        let t = LocalId(n as usize);
        (
            seq![
                call_form(Some(t), ctor, Seq::empty()),
                StmtForm::Exact(MirStmt::Store { addr: dst, offset, value: local_op(t), store_size: Some(8u32) }),
            ],
            1,
        )
    } else {
        match struct_layout_of_spec(ctx, ty) {
            Some(idx) => if k == 0 {
                (Seq::empty(), 0)
            } else {
                let fields = ctx.struct_layouts@[idx].fields@;
                zero_fields(ctx, dst, offset, fields, fields.len(), n, (k - 1) as nat)
            },
            None => (Seq::empty(), 0),
        }
    }
}

/// The first `i` fields of a struct at `offset` in `dst` zeroed in turn;
/// see `zero_forms`.
pub open spec fn zero_fields(
    ctx: LowerCtx,
    dst: LocalId,
    offset: u32,
    fields: Seq<FieldLayout>,
    i: nat,
    n: nat,
    k: nat,
) -> (Seq<StmtForm>, nat)
    decreases k, 1int, i,
{
    if i == 0 || i > fields.len() {
        (Seq::empty(), 0)
    } else {
        let (a, t) = zero_fields(ctx, dst, offset, fields, (i - 1) as nat, n, k);
        let f = fields[i - 1];
        let (b, u) = zero_forms(ctx, dst, (offset + f.offset) as u32, f.ty, n + t, k);
        (a + b, t + u)
    }
}

/// Zeroing `ty` at `offset` stays within `k` levels of struct nesting and
/// within `u32` offsets.
pub open spec fn zero_fits(ctx: LowerCtx, ty: Type, offset: u32, k: nat) -> bool
    decreases k, 0int, 0int,
{
    if prim_shape_kind_spec(ty) == Some(JSHAPE_STRING) || is_optional(ty) || collection_arg_spec(ctx, ty, "Vec"@, 0) is Some
        || is_map_type_spec(ctx, ty) {
        true
    } else {
        match struct_layout_of_spec(ctx, ty) {
            Some(idx) => k > 0 && 0 <= idx < ctx.struct_layouts@.len() && fields_zero_fit(
                ctx,
                ctx.struct_layouts@[idx].fields@,
                offset,
                ctx.struct_layouts@[idx].fields@.len(),
                (k - 1) as nat,
            ),
            None => true,
        }
    }
}

/// The first `i` fields of a struct at `offset` zero within bounds.
pub open spec fn fields_zero_fit(ctx: LowerCtx, fields: Seq<FieldLayout>, offset: u32, i: nat, k: nat) -> bool
    decreases k, 1int, i,
{
    if i == 0 || i > fields.len() {
        true
    } else {
        let f = fields[i - 1];
        &&& fields_zero_fit(ctx, fields, offset, (i - 1) as nat, k)
        &&& offset + f.offset <= u32::MAX
        &&& zero_fits(ctx, f.ty, (offset + f.offset) as u32, k)
    }
}

/// Statements all placed in block `c`.
pub open spec fn in_block(c: BlockId, fs: Seq<StmtForm>) -> Seq<(BlockId, StmtForm)> {
    Seq::new(fs.len(), |i: int| (c, fs[i]))
}

/// `t` temps of type `i64`.
pub open spec fn words(t: nat) -> Seq<MirType> {
    Seq::new(t, |i: int| MirType::I64)
}

/// Joining the statements and temps of two zeroings in one block.
proof fn lemma_in_block_join(c: BlockId, a: Seq<StmtForm>, b: Seq<StmtForm>, t: nat, u: nat)
    ensures
        in_block(c, a) + in_block(c, b) == in_block(c, a + b),
        words(t) + words(u) == words(t + u),
{
    assert(in_block(c, a) + in_block(c, b) =~= in_block(c, a + b));
    assert(words(t) + words(u) =~= words(t + u));
}

impl MirLowerer {
    /// Zero a value of type `ty` at `offset` in `dst`, within `k` levels of
    /// struct nesting; see `zero_forms`.
    fn emit_zero_in(&mut self, dst: LocalId, offset: u32, ty: &Type, Ghost(k): Ghost<nat>)
        requires
            zero_fits(old(self).ctx, *ty, offset, k),
        ensures
            ({
                let (fs, t) = zero_forms(old(self).ctx, dst, offset, *ty, old(self).builder.locals@.len(), k);
                recorded(old(self).builder, final(self).builder, words(t), in_block(old(self).builder.current, fs))
            }),
            final(self).builder.terms@ == old(self).builder.terms@,
            final(self).builder.current == old(self).builder.current,
            final(self).ctx == old(self).ctx,
        decreases k, 0int,
    {
        let ghost base = self.builder;
        let ghost c = base.current;
        let ghost n = base.locals@.len();
        proof {
            lemma_recorded_start(base);
        }
        let ghost no_forms: Seq<(BlockId, StmtForm)> = Seq::empty();
        let ghost no_temps: Seq<MirType> = Seq::empty();
        if prim_shape_kind(ty) == Some(JSHAPE_STRING) {
            let st = MirStmt::Store {
                addr: dst,
                offset,
                value: MirOperand::Constant(MirConst::String(String::new())),
                store_size: Some(16),
            };
            let ghost g = st;
            self.builder.push_stmt(st);
            proof {
                assert(self.builder.stmts@.subrange(0, base.stmts@.len() as int) =~= base.stmts@);
                let f = StmtForm::StoreText { addr: dst, offset, text: Seq::empty(), store_size: Some(16u32) };
                crate::builder::lemma_recorded_stmt(base, base, self.builder, no_temps, no_forms, c, f);
                assert(no_forms.push((c, f)) =~= in_block(c, seq![f]));
                assert(no_temps =~= words(0));
            }
            return;
        }
        let optional = match ty {
            Type::Result { err, .. } => match **err {
                Type::NoneType => true,
                _ => false,
            },
            _ => false,
        };
        if optional {
            let st = MirStmt::Store { addr: dst, offset, value: MirOperand::Constant(MirConst::Int(1)), store_size: Some(8) };
            self.builder.stmt_rec(Ghost(base), Ghost(no_temps), Ghost(no_forms), st);
            proof {
                let f = StmtForm::Exact(MirStmt::Store { addr: dst, offset, value: MirOperand::Constant(MirConst::Int(1)), store_size: Some(8u32) });
                assert(no_forms.push((c, f)) =~= in_block(c, seq![f]));
                assert(no_temps =~= words(0));
            }
            return;
        }
        let is_vec = self.collection_arg(ty, "Vec", 0).is_some();
        let is_map = !is_vec && self.is_map_type(ty);
        if is_vec || is_map {
            let ctor = if is_vec {
                "Vec_new"
            } else {
                "Map_new_string_keys"
            };
            let empty = self.builder.temp_rec(Ghost(base), Ghost(no_temps), Ghost(no_forms), MirType::I64);
            let ghost one = seq![MirType::I64];
            proof {
                assert(no_temps.push(MirType::I64) =~= one);
            }
            let args: Vec<MirOperand> = Vec::new();
            let ghost av = args@;
            self.builder.call_rec(Ghost(base), Ghost(one), Ghost(no_forms), Some(empty), ctor, args);
            let ghost f1 = no_forms.push((c, call_form(Some(empty), ctor@, av)));
            let st = MirStmt::Store { addr: dst, offset, value: MirOperand::Local(empty), store_size: Some(8) };
            self.builder.stmt_rec(Ghost(base), Ghost(one), Ghost(f1), st);
            proof {
                reveal_strlit("Vec_new");
                reveal_strlit("Map_new_string_keys");
                let fs = zero_forms(old(self).ctx, dst, offset, *ty, n, k).0;
                assert(av =~= Seq::<MirOperand>::empty());
                assert(f1.push((c, StmtForm::Exact(MirStmt::Store { addr: dst, offset, value: local_op(empty), store_size: Some(8u32) })))
                    =~= in_block(c, fs));
                assert(one =~= words(1));
            }
            return;
        }
        let idx = match self.struct_layout_of(ty) {
            Some(i) => i,
            None => {
                proof {
                    assert(no_forms =~= in_block(c, Seq::empty()));
                    assert(no_temps =~= words(0));
                }
                return;
            },
        };
        let ghost fields = old(self).ctx.struct_layouts@[idx as int].fields@;
        let nf = self.ctx.struct_layouts[idx].fields.len();
        let mut i: usize = 0;
        proof {
            assert(no_forms =~= in_block(c, Seq::empty()));
            assert(no_temps =~= words(0));
        }
        while i < nf
            invariant
                self.ctx == old(self).ctx,
                idx < self.ctx.struct_layouts@.len(),
                fields == self.ctx.struct_layouts@[idx as int].fields@,
                nf == fields.len(),
                i <= nf,
                k > 0,
                fields_zero_fit(self.ctx, fields, offset, nf as nat, (k - 1) as nat),
                self.builder.terms@ == base.terms@,
                self.builder.current == c,
                c == base.current,
                n == base.locals@.len(),
                ({
                    let (fs, t) = zero_fields(self.ctx, dst, offset, fields, i as nat, n, (k - 1) as nat);
                    recorded(base, self.builder, words(t), in_block(c, fs))
                }),
            decreases nf - i,
        {
            let fo = self.ctx.struct_layouts[idx].fields[i].offset;
            let fty = self.ctx.struct_layouts[idx].fields[i].ty.duplicate();
            proof {
                lemma_fields_fit_prefix(self.ctx, fields, offset, nf as nat, (i + 1) as nat, (k - 1) as nat);
            }
            let ghost mid = self.builder;
            let ghost prev = zero_fields(self.ctx, dst, offset, fields, i as nat, n, (k - 1) as nat);
            proof {
                assert(mid.locals@.len() == n + prev.1);
            }
            self.emit_zero_in(dst, offset + fo, &fty, Ghost((k - 1) as nat));
            proof {
                let (b, u) = zero_forms(self.ctx, dst, (offset + fo) as u32, fty, n + prev.1, (k - 1) as nat);
                lemma_recorded_then(base, mid, self.builder, words(prev.1), in_block(c, prev.0), words(u), in_block(c, b));
                lemma_in_block_join(c, prev.0, b, prev.1, u);
            }
            i = i + 1;
        }
    }

    /// Zero a value of type `ty` at `offset` in `dst`, as a decode does for
    /// a field it may leave absent: what `zero_forms` says, for struct
    /// nesting as deep as the layouts go.
    pub fn emit_zero_value(&mut self, dst: LocalId, offset: u32, ty: &Type)
        requires
            exists|k: nat| zero_fits(old(self).ctx, *ty, offset, k),
        ensures
            ({
                let k = choose|k: nat| zero_fits(old(self).ctx, *ty, offset, k);
                let (fs, t) = zero_forms(old(self).ctx, dst, offset, *ty, old(self).builder.locals@.len(), k);
                recorded(old(self).builder, final(self).builder, words(t), in_block(old(self).builder.current, fs))
            }),
            final(self).builder.terms@ == old(self).builder.terms@,
            final(self).builder.current == old(self).builder.current,
            final(self).ctx == old(self).ctx,
    {
        let ghost k = choose|k: nat| zero_fits(old(self).ctx, *ty, offset, k);
        self.emit_zero_in(dst, offset, ty, Ghost(k));
    }
}

/// The fields of a struct that fit, fit one prefix at a time.
proof fn lemma_fields_fit_prefix(ctx: LowerCtx, fields: Seq<FieldLayout>, offset: u32, i: nat, j: nat, k: nat)
    requires
        fields_zero_fit(ctx, fields, offset, i, k),
        0 < j <= i <= fields.len(),
    ensures
        offset + fields[j - 1].offset <= u32::MAX,
        zero_fits(ctx, fields[j - 1].ty, (offset + fields[j - 1].offset) as u32, k),
    decreases i,
{
    if j < i {
        lemma_fields_fit_prefix(ctx, fields, offset, (i - 1) as nat, j, k);
    }
}

} // verus!
