//! The three-way comparison result enum: recognising it, reading its tag
//! as a number, and wrapping a computed tag back into a value of it.

use vstd::prelude::*;
use crate::builder::{placed, temp_decl};
use crate::lowerer::{enum_id_at, enum_layout_name, first_named, MirLowerer};
use crate::mir::{LocalId, MirOperand, MirRValue, MirStmt, MirType};

verus! {

/// The tag of `Less` in the standard library's comparison result.
pub const ORDERING_LESS: i64 = 0;
/// The tag of `Equal`.
pub const ORDERING_EQUAL: i64 = 1;
/// The tag of `Greater`.
pub const ORDERING_GREATER: i64 = 2;

/// `new` is `old` with the comparison tag `tag` wrapped into a value of the
/// comparison result enum, answering `r`: a slot of the registered layout
/// with the tag stored at offset 0, or, with no such layout registered, the
/// raw tag as an `i64` and nothing emitted.
pub open spec fn ordering_wrapped(
    ctx: crate::lowerer::LowerCtx,
    old: crate::builder::MirBuilder,
    new: crate::builder::MirBuilder,
    tag: MirOperand,
    r: (MirOperand, MirType),
) -> bool {
    &&& match first_named(ctx.enum_layouts@, enum_layout_name(), "Ordering"@) {
        None => {
            &&& r == (tag, MirType::I64)
            &&& new.locals@ == old.locals@
            &&& new.stmts@ == old.stmts@
        },
        Some(i) => {
            let ty = MirType::Enum(enum_id_at(ctx, i));
            let slot = LocalId(old.locals@.len() as usize);
            &&& r == (MirOperand::Local(slot), ty)
            &&& new.locals@ == old.locals@.push(temp_decl(ty))
            &&& new.stmts@ == old.stmts@.push(
                placed(old.current, MirStmt::Store { addr: slot, offset: 0, value: tag, store_size: None }),
            )
        },
    }
    &&& new.terms@ == old.terms@
    &&& new.current == old.current
}

impl MirLowerer {
    /// True when this MIR type is the comparison result enum of the
    /// standard library.
    pub fn is_ordering_ty(&self, ty: &MirType) -> (r: bool)
        ensures
            r == (ty matches MirType::Enum(id) && id.id < self.ctx.enum_layouts@.len()
                && self.ctx.enum_layouts@[id.id as int].name@ == "Ordering"@),
    {
        match ty {
            MirType::Enum(id) => self.ctx.enum_name_is(id.id, "Ordering"),
            _ => false,
        }
    }

    /// A comparison result's tag, widened to `i64`: the tag read into a
    /// `u16` temp, then cast into an `i64` temp.
    pub fn emit_ordering_tag_i64(&mut self, value: MirOperand) -> (r: LocalId)
        ensures
            ({
                let n = old(self).builder.locals@.len();
                let c = old(self).builder.current;
                let tag = LocalId(n as usize);
                &&& r == LocalId((n + 1) as usize)
                &&& final(self).builder.locals@ == old(self).builder.locals@ + seq![
                    temp_decl(MirType::U16),
                    temp_decl(MirType::I64),
                ]
                &&& final(self).builder.stmts@ == old(self).builder.stmts@ + seq![
                    placed(c, MirStmt::Assign { dst: tag, rvalue: MirRValue::EnumTag { value } }),
                    placed(
                        c,
                        MirStmt::Assign {
                            dst: r,
                            rvalue: MirRValue::Cast {
                                value: MirOperand::Local(tag),
                                target_ty: MirType::I64,
                            },
                        },
                    ),
                ]
            }),
            final(self).builder.terms@ == old(self).builder.terms@,
            final(self).builder.current == old(self).builder.current,
            final(self).ctx == old(self).ctx,
    {
        let tag = self.emit_enum_tag(value);
        let wide = self.builder.alloc_temp(MirType::I64);
        self.builder.push_stmt(
            MirStmt::Assign {
                dst: wide,
                rvalue: MirRValue::Cast { value: MirOperand::Local(tag), target_ty: MirType::I64 },
            },
        );
        proof {
            assert(self.builder.locals@ =~= old(self).builder.locals@ + seq![
                temp_decl(MirType::U16),
                temp_decl(MirType::I64),
            ]);
            assert(self.builder.stmts@ =~= old(self).builder.stmts@ + seq![
                self.builder.stmts@[self.builder.stmts@.len() - 2],
                self.builder.stmts@[self.builder.stmts@.len() - 1],
            ]);
        }
        wide
    }

    /// Wrap a computed comparison tag into a value of the comparison result
    /// enum: a slot of the registered layout with the tag stored at offset 0
    /// at its natural width. With no such layout registered, the raw tag
    /// and `i64`.
    pub fn wrap_ordering(&mut self, tag: MirOperand) -> (r: (MirOperand, MirType))
        requires
            old(self).wf(),
        ensures
            ordering_wrapped(old(self).ctx, old(self).builder, final(self).builder, tag, r),
            final(self).ctx == old(self).ctx,
    {
        let idx = match self.ctx.find_enum("Ordering") {
            Some(i) => i,
            None => {
                return (tag, MirType::I64);
            },
        };
        let ty = MirType::Enum(self.ctx.enum_layout_id(idx));
        let slot = self.builder.alloc_temp(ty.duplicate());
        self.builder.push_stmt(MirStmt::Store { addr: slot, offset: 0, value: tag, store_size: None });
        (MirOperand::Local(slot), ty)
    }
}

} // verus!
