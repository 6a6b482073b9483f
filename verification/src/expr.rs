//! Pieces of expression lowering: constants and names read off types, and
//! the short instruction sequences that casts, tags, hashes, `mod`,
//! concatenation and element write-backs lower to.

use vstd::prelude::*;
use crate::builder::{is_call, placed, temp_decl, LocalDecl, PlacedStmt};
use crate::lowerer::{
    assoc_get, assoc_index, find_variant, first_named, variant_name, ElemWriteback, FieldConst, LocalMeta,
    LowerCtx, MirLowerer,
};
use crate::text::{after_last, after_last_str};
use crate::mir::{
    is_unsigned_ty, size_of, size_fits, BinOp, BlockId, LocalId, MirConst, MirOperand, MirRValue, MirStmt,
    MirTerminator, MirType,
};

verus! {

/// The type a Vec element of type `ty` occupies: scalars narrower than a
/// word live in 8-byte slots, aggregates keep their own type.
pub open spec fn vec_slot_type_spec(ty: MirType) -> MirType {
    if ty is Struct || ty is Enum {
        ty
    } else if size_of(ty) < 8 {
        MirType::I64
    } else {
        ty
    }
}

/// The width a Vec element actually occupies. Scalars live in 8-byte slots,
/// so a narrower type on the reading side sees half a value; aggregates keep
/// their own size.
pub fn vec_slot_type(ty: MirType) -> (r: MirType)
    requires
        size_fits(ty),
    ensures
        r == vec_slot_type_spec(ty),
{
    match ty {
        MirType::Struct(_) | MirType::Enum(_) => ty,
        _ => {
            if ty.size() < 8 {
                MirType::I64
            } else {
                ty
            }
        },
    }
}

/// The bit pattern of the `f64` that `f32`/`f64` associated constant
/// `field` stands for: `ZERO`, `ONE`, `MIN`, `MAX`, `EPSILON`, `INFINITY`,
/// `NAN`. The `f32` bounds and epsilon are the `f32` values widened.
pub open spec fn float_constant_bits(ty_name: Seq<char>, field: Seq<char>) -> Option<u64> {
    if field == "ZERO"@ {
        Some(0u64)
    } else if field == "ONE"@ {
        Some(0x3FF0_0000_0000_0000u64)
    } else if field == "MIN"@ {
        if ty_name == "f32"@ {
            Some(0xC7EF_FFFF_E000_0000u64)
        } else {
            Some(0xFFEF_FFFF_FFFF_FFFFu64)
        }
    } else if field == "MAX"@ {
        if ty_name == "f32"@ {
            Some(0x47EF_FFFF_E000_0000u64)
        } else {
            Some(0x7FEF_FFFF_FFFF_FFFFu64)
        }
    } else if field == "EPSILON"@ {
        if ty_name == "f32"@ {
            Some(0x3E80_0000_0000_0000u64)
        } else {
            Some(0x3CB0_0000_0000_0000u64)
        }
    } else if field == "INFINITY"@ {
        Some(0x7FF0_0000_0000_0000u64)
    } else if field == "NAN"@ {
        Some(0x7FF8_0000_0000_0000u64)
    } else {
        None
    }
}

/// `(MIN, MAX, type)` of an integer type name. `u64::MAX` rides in an
/// `i64` as its two's-complement bit pattern, -1.
pub open spec fn int_bounds(ty_name: Seq<char>) -> Option<(i64, i64, MirType)> {
    if ty_name == "i8"@ {
        Some((-128i64, 127i64, MirType::I8))
    } else if ty_name == "i16"@ {
        Some((-32768i64, 32767i64, MirType::I16))
    } else if ty_name == "i32"@ {
        Some((-2147483648i64, 2147483647i64, MirType::I32))
    } else if ty_name == "i64"@ {
        Some((i64::MIN, i64::MAX, MirType::I64))
    } else if ty_name == "isize"@ {
        Some((i64::MIN, i64::MAX, MirType::I64))
    } else if ty_name == "u8"@ {
        Some((0i64, 255i64, MirType::U8))
    } else if ty_name == "u16"@ {
        Some((0i64, 65535i64, MirType::U16))
    } else if ty_name == "u32"@ {
        Some((0i64, 4294967295i64, MirType::U32))
    } else if ty_name == "u64"@ {
        Some((0i64, -1i64, MirType::U64))
    } else if ty_name == "usize"@ {
        Some((0i64, -1i64, MirType::U64))
    } else {
        None
    }
}

/// The constant `ty_name.field` names, with its type.
pub open spec fn primitive_constant_spec(ty_name: Seq<char>, field: Seq<char>) -> Option<
    (MirOperand, MirType),
> {
    if ty_name == "f32"@ || ty_name == "f64"@ {
        match float_constant_bits(ty_name, field) {
            Some(bits) => Some(
                (
                    MirOperand::Constant(MirConst::FloatBits(bits)),
                    if ty_name == "f32"@ {
                        MirType::F32
                    } else {
                        MirType::F64
                    },
                ),
            ),
            None => None,
        }
    } else {
        match int_bounds(ty_name) {
            Some((min, max, ty)) => {
                if field == "MIN"@ {
                    Some((MirOperand::Constant(MirConst::Int(min)), ty))
                } else if field == "MAX"@ {
                    Some((MirOperand::Constant(MirConst::Int(max)), ty))
                } else if field == "ZERO"@ {
                    Some((MirOperand::Constant(MirConst::Int(0)), ty))
                } else if field == "ONE"@ {
                    Some((MirOperand::Constant(MirConst::Int(1)), ty))
                } else {
                    None
                }
            },
            None => None,
        }
    }
}

fn float_constant(ty_name: &str, field: &str) -> (r: Option<u64>)
    ensures
        r == float_constant_bits(ty_name@, field@),
{
    let is_f32 = crate::text::str_eq(ty_name, "f32");
    if crate::text::str_eq(field, "ZERO") {
        Some(0u64)
    } else if crate::text::str_eq(field, "ONE") {
        Some(0x3FF0_0000_0000_0000u64)
    } else if crate::text::str_eq(field, "MIN") {
        if is_f32 {
            Some(0xC7EF_FFFF_E000_0000u64)
        } else {
            Some(0xFFEF_FFFF_FFFF_FFFFu64)
        }
    } else if crate::text::str_eq(field, "MAX") {
        if is_f32 {
            Some(0x47EF_FFFF_E000_0000u64)
        } else {
            Some(0x7FEF_FFFF_FFFF_FFFFu64)
        }
    } else if crate::text::str_eq(field, "EPSILON") {
        if is_f32 {
            Some(0x3E80_0000_0000_0000u64)
        } else {
            Some(0x3CB0_0000_0000_0000u64)
        }
    } else if crate::text::str_eq(field, "INFINITY") {
        Some(0x7FF0_0000_0000_0000u64)
    } else if crate::text::str_eq(field, "NAN") {
        Some(0x7FF8_0000_0000_0000u64)
    } else {
        None
    }
}

fn int_type_bounds(ty_name: &str) -> (r: Option<(i64, i64, MirType)>)
    ensures
        r == int_bounds(ty_name@),
{
    if crate::text::str_eq(ty_name, "i8") {
        Some((-128i64, 127i64, MirType::I8))
    } else if crate::text::str_eq(ty_name, "i16") {
        Some((-32768i64, 32767i64, MirType::I16))
    } else if crate::text::str_eq(ty_name, "i32") {
        Some((-2147483648i64, 2147483647i64, MirType::I32))
    } else if crate::text::str_eq(ty_name, "i64") {
        Some((i64::MIN, i64::MAX, MirType::I64))
    } else if crate::text::str_eq(ty_name, "isize") {
        Some((i64::MIN, i64::MAX, MirType::I64))
    } else if crate::text::str_eq(ty_name, "u8") {
        Some((0i64, 255i64, MirType::U8))
    } else if crate::text::str_eq(ty_name, "u16") {
        Some((0i64, 65535i64, MirType::U16))
    } else if crate::text::str_eq(ty_name, "u32") {
        Some((0i64, 4294967295i64, MirType::U32))
    } else if crate::text::str_eq(ty_name, "u64") {
        Some((0i64, -1i64, MirType::U64))
    } else if crate::text::str_eq(ty_name, "usize") {
        Some((0i64, -1i64, MirType::U64))
    } else {
        None
    }
}

/// Resolve primitive type associated constants: `ZERO`, `ONE`, `MIN`,
/// `MAX` on every numeric type, and `EPSILON`, `INFINITY`, `NAN` on the
/// float types.
pub fn primitive_type_constant(ty_name: &str, field: &str) -> (r: Option<(MirOperand, MirType)>)
    ensures
        r == primitive_constant_spec(ty_name@, field@),
{
    let is_f32 = crate::text::str_eq(ty_name, "f32");
    if is_f32 || crate::text::str_eq(ty_name, "f64") {
        return match float_constant(ty_name, field) {
            Some(bits) => Some(
                (
                    MirOperand::Constant(MirConst::FloatBits(bits)),
                    if is_f32 {
                        MirType::F32
                    } else {
                        MirType::F64
                    },
                ),
            ),
            None => None,
        };
    }
    match int_type_bounds(ty_name) {
        Some((min, max, ty)) => {
            if crate::text::str_eq(field, "MIN") {
                Some((MirOperand::Constant(MirConst::Int(min)), ty))
            } else if crate::text::str_eq(field, "MAX") {
                Some((MirOperand::Constant(MirConst::Int(max)), ty))
            } else if crate::text::str_eq(field, "ZERO") {
                Some((MirOperand::Constant(MirConst::Int(0)), ty))
            } else if crate::text::str_eq(field, "ONE") {
                Some((MirOperand::Constant(MirConst::Int(1)), ty))
            } else {
                None
            }
        },
        None => None,
    }
}

/// The scalar types whose layout is fixed: the integer and float types up
/// to 64 bits, `bool` and `char`.
pub open spec fn is_sized_scalar_spec(ty: MirType) -> bool {
    ty is I8 || ty is I16 || ty is I32 || ty is I64 || ty is U8 || ty is U16 || ty is U32
        || ty is U64 || ty is F32 || ty is F64 || ty is Bool || ty is Char
}

/// Whether the width a value of `want` needs to be widened from `from`
/// before it reaches an assert-failure helper.
pub open spec fn needs_widening(from: MirType, want: MirType) -> bool {
    if want is F64 {
        from is F32
    } else if want is I64 {
        from is I8 || from is I16 || from is I32 || from is U8 || from is U16 || from is U32
            || from is Bool || from is Char
    } else {
        false
    }
}

/// The name a MIR type goes by when a function is looked up for it:
/// a struct's or enum's registered name, `string`, `f64` for both float
/// widths, `bool`, `char`; nothing for the rest.
pub open spec fn mir_type_name_spec(ctx: LowerCtx, ty: MirType) -> Option<Seq<char>> {
    match ty {
        MirType::Struct(id) => if id.id < ctx.struct_layouts@.len() {
            Some(ctx.struct_layouts@[id.id as int].name@)
        } else {
            None
        },
        MirType::Enum(id) => if id.id < ctx.enum_layouts@.len() {
            Some(ctx.enum_layouts@[id.id as int].name@)
        } else {
            None
        },
        MirType::String => Some("string"@),
        MirType::F64 | MirType::F32 => Some("f64"@),
        MirType::Bool => Some("bool"@),
        MirType::Char => Some("char"@),
        _ => None,
    }
}

/// How many element-typed parameters a collection method hands its closure.
pub open spec fn elem_closure_arity_spec(method: Seq<char>) -> Option<usize> {
    if method == "sort_by"@ || method == "min_by"@ || method == "max_by"@ {
        Some(2usize)
    } else if method == "sort_by_key"@ || method == "min_by_key"@ || method == "max_by_key"@
        || method == "any"@ || method == "all"@ || method == "find"@ || method == "position"@
        || method == "retain"@ || method == "for_each"@ || method == "each"@ || method
        == "count_by"@ {
        Some(1usize)
    } else {
        None
    }
}

/// Which `string_parse_*` runtime fills a result slot whose payload type is
/// the numeric type `ok`.
pub open spec fn parse_variant_spec(ret_ty: MirType) -> Option<Seq<char>> {
    match ret_ty {
        MirType::Result { ok, .. } => match *ok {
            MirType::F32 => Some("string_parse_f32"@),
            MirType::F64 => Some("string_parse_f64"@),
            MirType::I8 => Some("string_parse_i8"@),
            MirType::I16 => Some("string_parse_i16"@),
            MirType::I32 => Some("string_parse_i32"@),
            MirType::I64 => Some("string_parse_i64"@),
            MirType::U8 => Some("string_parse_u8"@),
            MirType::U16 => Some("string_parse_u16"@),
            MirType::U32 => Some("string_parse_u32"@),
            MirType::U64 => Some("string_parse_u64"@),
            _ => None,
        },
        _ => None,
    }
}

/// The width in bytes a `hash()` call reads from a scalar of type `ty`.
pub open spec fn hash_width(ty: MirType) -> Option<i64> {
    if ty is Bool || ty is I8 || ty is U8 {
        Some(1i64)
    } else if ty is I16 || ty is U16 {
        Some(2i64)
    } else if ty is I32 || ty is U32 || ty is Char {
        Some(4i64)
    } else if ty is I64 || ty is U64 {
        Some(8i64)
    } else if ty is I128 || ty is U128 {
        Some(16i64)
    } else {
        None
    }
}

/// `local = left op right`.
pub open spec fn assign_bin(dst: LocalId, op: BinOp, left: MirOperand, right: MirOperand) -> MirStmt {
    MirStmt::Assign { dst, rvalue: MirRValue::BinaryOp { op, left, right } }
}

/// The operand holding the running concatenation after `k` joins, for
/// concatenation temps numbered from `first`.
pub open spec fn concat_acc(parts: Seq<MirOperand>, first: nat, k: nat) -> MirOperand {
    if k == 0 {
        parts[0]
    } else {
        MirOperand::Local(LocalId((first + k - 1) as usize))
    }
}

impl MirLowerer {
    /// A scalar whose layout is known here and now. Deliberately not `Ptr`
    /// or any aggregate: `Ptr` is what an unsubstituted generic parameter
    /// looks like by the time it reaches MIR.
    pub fn is_sized_scalar(ty: &MirType) -> (r: bool)
        ensures
            r == is_sized_scalar_spec(*ty),
    {
        match ty {
            MirType::I8 | MirType::I16 | MirType::I32 | MirType::I64 | MirType::U8 | MirType::U16
            | MirType::U32 | MirType::U64 | MirType::F32 | MirType::F64 | MirType::Bool
            | MirType::Char => true,
            _ => false,
        }
    }

    /// How many element-typed parameters a collection method hands its
    /// closure: `sort_by(|a, b| ...)` gets two elements, `any(|x| ...)` one.
    /// `fold` isn't here: its first parameter is the accumulator.
    pub fn elem_closure_arity(method: &str) -> (r: Option<usize>)
        ensures
            r == elem_closure_arity_spec(method@),
    {
        if crate::text::str_eq(method, "sort_by") || crate::text::str_eq(method, "min_by")
            || crate::text::str_eq(method, "max_by") {
            Some(2)
        } else if crate::text::str_eq(method, "sort_by_key") || crate::text::str_eq(
            method,
            "min_by_key",
        ) || crate::text::str_eq(method, "max_by_key") || crate::text::str_eq(method, "any")
            || crate::text::str_eq(method, "all") || crate::text::str_eq(method, "find")
            || crate::text::str_eq(method, "position") || crate::text::str_eq(method, "retain")
            || crate::text::str_eq(method, "for_each") || crate::text::str_eq(method, "each")
            || crate::text::str_eq(method, "count_by") {
            Some(1)
        } else {
            None
        }
    }

    /// Which `string_parse_*` runtime writes into this result slot, by the
    /// slot's own payload type. `None` when the payload isn't a number the
    /// runtime has a variant for.
    pub fn parse_variant_for_slot(ret_ty: &MirType) -> (r: Option<&'static str>)
        ensures
            r is Some <==> parse_variant_spec(*ret_ty) is Some,
            r is Some ==> r->0@ == parse_variant_spec(*ret_ty)->0,
    {
        let ok = match ret_ty {
            MirType::Result { ok, .. } => ok,
            _ => {
                return None;
            },
        };
        match **ok {
            MirType::F32 => Some("string_parse_f32"),
            MirType::F64 => Some("string_parse_f64"),
            MirType::I8 => Some("string_parse_i8"),
            MirType::I16 => Some("string_parse_i16"),
            MirType::I32 => Some("string_parse_i32"),
            MirType::I64 => Some("string_parse_i64"),
            MirType::U8 => Some("string_parse_u8"),
            MirType::U16 => Some("string_parse_u16"),
            MirType::U32 => Some("string_parse_u32"),
            MirType::U64 => Some("string_parse_u64"),
            _ => None,
        }
    }

    /// The name a MIR type goes by when a function is looked up for it.
    pub fn mir_type_name(&self, ty: &MirType) -> (r: Option<String>)
        ensures
            r is Some <==> mir_type_name_spec(self.ctx, *ty) is Some,
            r is Some ==> r->0@ == mir_type_name_spec(self.ctx, *ty)->0,
    {
        match ty {
            MirType::Struct(id) => {
                let i = id.id as usize;
                if i < self.ctx.struct_layouts.len() {
                    Some(self.ctx.struct_layouts[i].name.clone())
                } else {
                    None
                }
            },
            MirType::Enum(id) => {
                let i = id.id as usize;
                if i < self.ctx.enum_layouts.len() {
                    Some(self.ctx.enum_layouts[i].name.clone())
                } else {
                    None
                }
            },
            MirType::String => Some("string".to_string()),
            MirType::F64 | MirType::F32 => Some("f64".to_string()),
            MirType::Bool => Some("bool".to_string()),
            MirType::Char => Some("char".to_string()),
            _ => None,
        }
    }

    /// Widen a scalar operand to the width an assert-failure helper takes.
    /// Aggregates and strings pass through: they reach the helper as
    /// pointers, which is what it already expects.
    pub fn widen_for_assert_helper(&mut self, op: MirOperand, from: &MirType, want: &MirType) -> (r:
        MirOperand)
        ensures
            !needs_widening(*from, *want) ==> {
                &&& r == op
                &&& final(self).builder.locals@ == old(self).builder.locals@
                &&& final(self).builder.stmts@ == old(self).builder.stmts@
            },
            needs_widening(*from, *want) ==> {
                let dst = LocalId(old(self).builder.locals@.len() as usize);
                &&& r == MirOperand::Local(dst)
                &&& final(self).builder.locals@ == old(self).builder.locals@.push(
                    temp_decl(*want),
                )
                &&& final(self).builder.stmts@ == old(self).builder.stmts@.push(
                    placed(
                        old(self).builder.current,
                        MirStmt::Assign {
                            dst,
                            rvalue: MirRValue::Cast { value: op, target_ty: *want },
                        },
                    ),
                )
            },
            final(self).builder.terms@ == old(self).builder.terms@,
            final(self).builder.current == old(self).builder.current,
            final(self).ctx == old(self).ctx,
    {
        let widen = match want {
            MirType::F64 => match from {
                MirType::F32 => true,
                _ => false,
            },
            MirType::I64 => match from {
                MirType::I8 | MirType::I16 | MirType::I32 | MirType::U8 | MirType::U16
                | MirType::U32 | MirType::Bool | MirType::Char => true,
                _ => false,
            },
            _ => false,
        };
        if !widen {
            return op;
        }
        let dst = self.builder.alloc_temp(want.duplicate());
        self.builder.push_stmt(
            MirStmt::Assign { dst, rvalue: MirRValue::Cast { value: op, target_ty: want.duplicate() } },
        );
        MirOperand::Local(dst)
    }

    /// `local == k` as a fresh bool temp.
    pub fn emit_eq_const(&mut self, local: LocalId, k: i64) -> (r: LocalId)
        ensures
            r.0 == old(self).builder.locals@.len(),
            final(self).builder.locals@ == old(self).builder.locals@.push(temp_decl(MirType::Bool)),
            final(self).builder.stmts@ == old(self).builder.stmts@.push(
                placed(
                    old(self).builder.current,
                    assign_bin(
                        r,
                        BinOp::Eq,
                        MirOperand::Local(local),
                        MirOperand::Constant(MirConst::Int(k)),
                    ),
                ),
            ),
            final(self).builder.terms@ == old(self).builder.terms@,
            final(self).builder.current == old(self).builder.current,
            final(self).ctx == old(self).ctx,
    {
        let result = self.builder.alloc_temp(MirType::Bool);
        self.builder.push_stmt(
            MirStmt::Assign {
                dst: result,
                rvalue: MirRValue::BinaryOp {
                    op: BinOp::Eq,
                    left: MirOperand::Local(local),
                    right: MirOperand::Constant(MirConst::Int(k)),
                },
            },
        );
        result
    }

    /// Read an enum's variant tag into a fresh `u16` local.
    pub fn emit_enum_tag(&mut self, value: MirOperand) -> (r: LocalId)
        ensures
            r.0 == old(self).builder.locals@.len(),
            final(self).builder.locals@ == old(self).builder.locals@.push(temp_decl(MirType::U16)),
            final(self).builder.stmts@ == old(self).builder.stmts@.push(
                placed(
                    old(self).builder.current,
                    MirStmt::Assign { dst: r, rvalue: MirRValue::EnumTag { value } },
                ),
            ),
            final(self).builder.terms@ == old(self).builder.terms@,
            final(self).builder.current == old(self).builder.current,
            final(self).ctx == old(self).ctx,
    {
        let tag = self.builder.alloc_temp(MirType::U16);
        self.builder.push_stmt(MirStmt::Assign { dst: tag, rvalue: MirRValue::EnumTag { value } });
        tag
    }

    /// The error type and the variant's tag when the pattern named
    /// `pattern_name` names a variant of the error enum of a result of type
    /// `val_ty`, rather than one of the result's own two sides. The name may
    /// be qualified (`E.Io`); its last part is the variant's name. Nothing
    /// when `val_ty` is not a result over a registered enum, there is no
    /// name, or the enum has no such variant.
    pub fn err_variant_of_result(&self, pattern_name: Option<&str>, val_ty: &MirType) -> (r: Option<(MirType, i64)>)
        ensures
            r == match *val_ty {
                MirType::Result { err, .. } => match *err {
                    MirType::Enum(eid) => match pattern_name {
                        Some(n) => if eid.id < self.ctx.enum_layouts@.len() {
                            let layout = self.ctx.enum_layouts@[eid.id as int];
                            match first_named(layout.variants@, variant_name(), after_last(n@, '.')) {
                                Some(k) => Some((*err, layout.variants@[k].tag as i64)),
                                None => None,
                            }
                        } else {
                            None
                        },
                        None => None,
                    },
                    _ => None,
                },
                _ => None,
            },
    {
        let err = match val_ty {
            MirType::Result { err, .. } => err,
            _ => {
                return None;
            },
        };
        let id = match &**err {
            MirType::Enum(eid) => eid.id,
            _ => {
                return None;
            },
        };
        let name = match pattern_name {
            Some(n) => n,
            None => {
                return None;
            },
        };
        let bare = after_last_str(name, '.');
        if id as usize >= self.ctx.enum_layouts.len() {
            return None;
        }
        let layout = &self.ctx.enum_layouts[id as usize];
        match find_variant(&layout.variants, bare) {
            Some(k) => Some(((**err).duplicate(), layout.variants[k].tag as i64)),
            None => None,
        }
    }

    /// The half-open end index for a range's written end: an inclusive range
    /// ends one past its last index.
    pub fn bump_inclusive_end(&mut self, end: MirOperand, inclusive: bool) -> (r: MirOperand)
        ensures
            !inclusive ==> {
                &&& r == end
                &&& final(self).builder.locals@ == old(self).builder.locals@
                &&& final(self).builder.stmts@ == old(self).builder.stmts@
            },
            inclusive ==> {
                let bumped = LocalId(old(self).builder.locals@.len() as usize);
                &&& r == MirOperand::Local(bumped)
                &&& final(self).builder.locals@ == old(self).builder.locals@.push(
                    temp_decl(MirType::I64),
                )
                &&& final(self).builder.stmts@ == old(self).builder.stmts@.push(
                    placed(
                        old(self).builder.current,
                        assign_bin(bumped, BinOp::Add, end, MirOperand::Constant(MirConst::Int(1))),
                    ),
                )
            },
            final(self).builder.terms@ == old(self).builder.terms@,
            final(self).builder.current == old(self).builder.current,
            final(self).ctx == old(self).ctx,
    {
        if !inclusive {
            return end;
        }
        let bumped = self.builder.alloc_temp(MirType::I64);
        self.builder.push_stmt(
            MirStmt::Assign {
                dst: bumped,
                rvalue: MirRValue::BinaryOp {
                    op: BinOp::Add,
                    left: end,
                    right: MirOperand::Constant(MirConst::Int(1)),
                },
            },
        );
        MirOperand::Local(bumped)
    }

    /// Concatenate a list of string operands left to right, one `concat`
    /// call per join. No parts is the empty string; one part is itself.
    pub fn concat_all(&mut self, parts: Vec<MirOperand>) -> (r: MirOperand)
        ensures
            parts@.len() == 0 ==> {
                &&& r matches MirOperand::Constant(MirConst::String(s))
                &&& s@ == Seq::<char>::empty()
                &&& final(self).builder.locals@ == old(self).builder.locals@
                &&& final(self).builder.stmts@ == old(self).builder.stmts@
            },
            parts@.len() > 0 ==> {
                let n = old(self).builder.locals@.len();
                let m = old(self).builder.stmts@.len();
                let joins = (parts@.len() - 1) as nat;
                &&& r == concat_acc(parts@, n, joins)
                &&& final(self).builder.locals@ == old(self).builder.locals@ + Seq::new(
                    joins,
                    |i: int| temp_decl(MirType::String),
                )
                &&& final(self).builder.stmts@.len() == m + joins
                &&& final(self).builder.stmts@.subrange(0, m as int) == old(self).builder.stmts@
                &&& forall|k: int|
                    0 <= k < joins ==> {
                        let s = #[trigger] final(self).builder.stmts@[m + k];
                        &&& s.block == old(self).builder.current
                        &&& is_call(
                            s.stmt,
                            Some(LocalId((n + k) as usize)),
                            "concat"@,
                            seq![concat_acc(parts@, n, k as nat), parts@[k + 1]],
                        )
                    }
            },
            final(self).builder.terms@ == old(self).builder.terms@,
            final(self).builder.current == old(self).builder.current,
            final(self).ctx == old(self).ctx,
    {
        if parts.len() == 0 {
            return MirOperand::Constant(MirConst::String(String::new()));
        }
        let ghost n = self.builder.locals@.len();
        let ghost m = self.builder.stmts@.len();
        let ghost old_locals = self.builder.locals@;
        let ghost old_stmts = self.builder.stmts@;
        let mut acc = parts[0].duplicate();
        let mut i: usize = 1;
        while i < parts.len()
            invariant
                1 <= i <= parts@.len(),
                n == old_locals.len(),
                m == old_stmts.len(),
                acc == concat_acc(parts@, n, (i - 1) as nat),
                self.builder.locals@ == old_locals + Seq::new(
                    (i - 1) as nat,
                    |j: int| temp_decl(MirType::String),
                ),
                self.builder.stmts@.len() == m + i - 1,
                self.builder.stmts@.subrange(0, m as int) == old_stmts,
                forall|k: int|
                    0 <= k < i - 1 ==> {
                        let s = #[trigger] self.builder.stmts@[m + k];
                        &&& s.block == self.builder.current
                        &&& is_call(
                            s.stmt,
                            Some(LocalId((n + k) as usize)),
                            "concat"@,
                            seq![concat_acc(parts@, n, k as nat), parts@[k + 1]],
                        )
                    },
                self.builder.terms@ == old(self).builder.terms@,
                self.builder.current == old(self).builder.current,
                self.ctx == old(self).ctx,
            decreases parts@.len() - i,
        {
            let dst = self.builder.alloc_temp(MirType::String);
            let mut args: Vec<MirOperand> = Vec::new();
            args.push(acc);
            args.push(parts[i].duplicate());
            let ghost args_view = args@;
            self.builder.push_stmt(
                MirStmt::Call { dst: Some(dst), func: "concat".to_string(), args },
            );
            acc = MirOperand::Local(dst);
            proof {
                assert(args_view == seq![concat_acc(parts@, n, (i - 1) as nat), parts@[i as int]]);
                assert(self.builder.locals@ =~= old_locals + Seq::new(
                    i as nat,
                    |j: int| temp_decl(MirType::String),
                ));
                assert(self.builder.stmts@.subrange(0, m as int) =~= old_stmts);
            }
            i = i + 1;
        }
        acc
    }

    /// `a.mod(b)`: the remainder that is never negative, `((a % b) + |b|) % |b|`
    /// with each operand evaluated once. Lowered as `r = a % b`; for a signed
    /// type a negative `r` is then corrected by `r - b` when the divisor is
    /// negative and by `r + b` when it is positive.
    pub fn lower_int_mod(&mut self, lhs: &MirOperand, rhs: MirOperand, ty: &MirType) -> (r: (
        MirOperand,
        MirType,
    ))
        requires
            old(self).builder.wf(),
        ensures
            ({
                let n = old(self).builder.locals@.len();
                let k = old(self).builder.terms@.len();
                let c = old(self).builder.current;
                let result = LocalId(n as usize);
                let first = placed(c, assign_bin(result, BinOp::Mod, *lhs, rhs));
                &&& r == (MirOperand::Local(result), *ty)
                &&& is_unsigned_ty(*ty) ==> {
                    &&& final(self).builder.locals@ == old(self).builder.locals@.push(
                        temp_decl(*ty),
                    )
                    &&& final(self).builder.stmts@ == old(self).builder.stmts@.push(first)
                    &&& final(self).builder.terms@ == old(self).builder.terms@
                    &&& final(self).builder.current == c
                }
                &&& !is_unsigned_ty(*ty) ==> int_mod_signed_shape(
                    old(self).builder.locals@,
                    old(self).builder.stmts@,
                    old(self).builder.terms@,
                    c,
                    *lhs,
                    rhs,
                    *ty,
                    final(self).builder.locals@,
                    final(self).builder.stmts@,
                    final(self).builder.terms@,
                    final(self).builder.current,
                )
            }),
            final(self).builder.wf(),
            final(self).ctx == old(self).ctx,
    {
        let result = self.builder.alloc_temp(ty.duplicate());
        self.builder.push_stmt(
            MirStmt::Assign {
                dst: result,
                rvalue: MirRValue::BinaryOp {
                    op: BinOp::Mod,
                    left: lhs.duplicate(),
                    right: rhs.duplicate(),
                },
            },
        );
        if ty.is_unsigned() {
            return (MirOperand::Local(result), ty.duplicate());
        }
        let is_neg = self.builder.alloc_temp(MirType::Bool);
        self.builder.push_stmt(
            MirStmt::Assign {
                dst: is_neg,
                rvalue: MirRValue::BinaryOp {
                    op: BinOp::Lt,
                    left: MirOperand::Local(result),
                    right: MirOperand::Constant(MirConst::Int(0)),
                },
            },
        );
        let fix_block = self.builder.create_block();
        let done_block = self.builder.create_block();
        self.builder.terminate(
            MirTerminator::Branch {
                cond: MirOperand::Local(is_neg),
                then_block: fix_block,
                else_block: done_block,
            },
        );
        self.builder.switch_to_block(fix_block);
        let divisor_neg = self.builder.alloc_temp(MirType::Bool);
        self.builder.push_stmt(
            MirStmt::Assign {
                dst: divisor_neg,
                rvalue: MirRValue::BinaryOp {
                    op: BinOp::Lt,
                    left: rhs.duplicate(),
                    right: MirOperand::Constant(MirConst::Int(0)),
                },
            },
        );
        let sub_block = self.builder.create_block();
        let add_block = self.builder.create_block();
        self.builder.terminate(
            MirTerminator::Branch {
                cond: MirOperand::Local(divisor_neg),
                then_block: sub_block,
                else_block: add_block,
            },
        );
        self.builder.switch_to_block(sub_block);
        self.builder.push_stmt(
            MirStmt::Assign {
                dst: result,
                rvalue: MirRValue::BinaryOp {
                    op: BinOp::Sub,
                    left: MirOperand::Local(result),
                    right: rhs.duplicate(),
                },
            },
        );
        self.builder.terminate(MirTerminator::Goto { target: done_block });
        self.builder.switch_to_block(add_block);
        self.builder.push_stmt(
            MirStmt::Assign {
                dst: result,
                rvalue: MirRValue::BinaryOp {
                    op: BinOp::Add,
                    left: MirOperand::Local(result),
                    right: rhs,
                },
            },
        );
        self.builder.terminate(MirTerminator::Goto { target: done_block });
        self.builder.switch_to_block(done_block);
        proof {
            let c = old(self).builder.current;
            let k = old(self).builder.terms@.len();
            assert(self.builder.terms@ =~= old(self).builder.terms@.update(
                c.0 as int,
                Some(
                    MirTerminator::Branch {
                        cond: MirOperand::Local(is_neg),
                        then_block: fix_block,
                        else_block: done_block,
                    },
                ),
            ) + seq![
                Some(
                    MirTerminator::Branch {
                        cond: MirOperand::Local(divisor_neg),
                        then_block: sub_block,
                        else_block: add_block,
                    },
                ),
                None,
                Some(MirTerminator::Goto { target: done_block }),
                Some(MirTerminator::Goto { target: done_block }),
            ]);
            let zero = MirOperand::Constant(MirConst::Int(0));
            assert(self.builder.stmts@ =~= old(self).builder.stmts@ + seq![
                placed(c, assign_bin(result, BinOp::Mod, *lhs, rhs)),
                placed(c, assign_bin(is_neg, BinOp::Lt, MirOperand::Local(result), zero)),
                placed(fix_block, assign_bin(divisor_neg, BinOp::Lt, rhs, zero)),
                placed(sub_block, assign_bin(result, BinOp::Sub, MirOperand::Local(result), rhs)),
                placed(add_block, assign_bin(result, BinOp::Add, MirOperand::Local(result), rhs)),
            ]);
            assert(self.builder.locals@ =~= old(self).builder.locals@ + seq![
                temp_decl(*ty),
                temp_decl(MirType::Bool),
                temp_decl(MirType::Bool),
            ]);
        }
        (MirOperand::Local(result), ty.duplicate())
    }
}

/// What `lower_int_mod` leaves behind for a signed type, from a builder
/// with `locals`, `stmts`, `terms` standing in block `c`: three temps
/// (`r`, `r < 0`, `b < 0`), four new blocks (fix, done, sub, add) and five
/// statements, ending in the done block:
///
/// ```text
/// c:    r = a % b; neg = r < 0; branch neg ? fix : done
/// fix:  bneg = b < 0;           branch bneg ? sub : add
/// sub:  r = r - b;              goto done
/// add:  r = r + b;              goto done
/// done: (current, unterminated)
/// ```
pub open spec fn int_mod_signed_shape(
    locals: Seq<LocalDecl>,
    stmts: Seq<PlacedStmt>,
    terms: Seq<Option<MirTerminator>>,
    c: BlockId,
    lhs: MirOperand,
    rhs: MirOperand,
    ty: MirType,
    locals2: Seq<LocalDecl>,
    stmts2: Seq<PlacedStmt>,
    terms2: Seq<Option<MirTerminator>>,
    current2: BlockId,
) -> bool {
    let n = locals.len();
    let k = terms.len();
    let result = LocalId(n as usize);
    let is_neg = LocalId((n + 1) as usize);
    let divisor_neg = LocalId((n + 2) as usize);
    let fix = BlockId(k as usize);
    let done = BlockId((k + 1) as usize);
    let sub = BlockId((k + 2) as usize);
    let add = BlockId((k + 3) as usize);
    let zero = MirOperand::Constant(MirConst::Int(0));
    &&& locals2 == locals + seq![temp_decl(ty), temp_decl(MirType::Bool), temp_decl(MirType::Bool)]
    &&& stmts2 == stmts + seq![
        placed(c, assign_bin(result, BinOp::Mod, lhs, rhs)),
        placed(c, assign_bin(is_neg, BinOp::Lt, MirOperand::Local(result), zero)),
        placed(fix, assign_bin(divisor_neg, BinOp::Lt, rhs, zero)),
        placed(sub, assign_bin(result, BinOp::Sub, MirOperand::Local(result), rhs)),
        placed(add, assign_bin(result, BinOp::Add, MirOperand::Local(result), rhs)),
    ]
    &&& terms2 == terms.update(
        c.0 as int,
        Some(
            MirTerminator::Branch {
                cond: MirOperand::Local(is_neg),
                then_block: fix,
                else_block: done,
            },
        ),
    ) + seq![
        Some(
            MirTerminator::Branch {
                cond: MirOperand::Local(divisor_neg),
                then_block: sub,
                else_block: add,
            },
        ),
        None,
        Some(MirTerminator::Goto { target: done }),
        Some(MirTerminator::Goto { target: done }),
    ]
    &&& current2 == done
}


/// The element type push tracking recorded for key `key`: this function's
/// own record first, then the cross-function one.
pub open spec fn tracked_elem_spec(
    meta: Seq<(String, LocalMeta)>,
    shared: Seq<(String, MirType)>,
    key: Seq<char>,
) -> Option<MirType> {
    match assoc_get(meta, key) {
        Some(m) => match m.elem_type {
            Some(t) => Some(t),
            None => assoc_get(shared, key),
        },
        None => assoc_get(shared, key),
    }
}

/// The statement that settles write-back `wb`: a release call on the
/// borrowed collection, or a read of the spilled scalar back into place.
pub open spec fn writeback_stmt(wb: ElemWriteback, s: MirStmt) -> bool {
    match wb {
        ElemWriteback::ReleaseBorrow { collection, release } => is_call(
            s,
            None,
            release@,
            seq![collection],
        ),
        ElemWriteback::ScalarCopyBack { dst, addr } => s == MirStmt::Assign {
            dst,
            rvalue: MirRValue::Deref(MirOperand::Local(addr)),
        },
    }
}

/// `i` is the last position of `s` whose entry is keyed `key`.
pub open spec fn is_last_binding(s: Seq<(String, FieldConst)>, key: Seq<char>, i: int) -> bool {
    &&& 0 <= i < s.len()
    &&& s[i].0@ == key
    &&& forall|j: int| i < j < s.len() ==> s[j].0@ != key
}

/// The constant a `comptime for` field binding's member `field` splices,
/// with its type.
pub open spec fn comptime_member(fc: FieldConst, field: Seq<char>) -> Option<(MirOperand, MirType)> {
    if field == "name"@ {
        Some((MirOperand::Constant(MirConst::String(fc.name)), MirType::String))
    } else if field == "type_name"@ {
        Some((MirOperand::Constant(MirConst::String(fc.ty_name)), MirType::String))
    } else if field == "serial_name"@ {
        Some((MirOperand::Constant(MirConst::String(fc.serial_name)), MirType::String))
    } else if field == "offset"@ {
        Some((MirOperand::Constant(MirConst::Int(fc.offset as i64)), MirType::U64))
    } else if field == "size"@ {
        Some((MirOperand::Constant(MirConst::Int(fc.size as i64)), MirType::U64))
    } else if field == "is_public"@ {
        Some((MirOperand::Constant(MirConst::Bool(fc.is_public)), MirType::Bool))
    } else if field == "is_skipped"@ {
        Some((MirOperand::Constant(MirConst::Bool(fc.is_skipped)), MirType::Bool))
    } else if field == "has_default"@ {
        Some((MirOperand::Constant(MirConst::Bool(fc.has_default)), MirType::Bool))
    } else {
        None
    }
}

/// For a container mutator that stores a value, the position of that value
/// among the call's arguments and the edge-registration function a link
/// value needs.
pub open spec fn edge_call_target(name: Seq<char>) -> Option<(int, Seq<char>)> {
    if name == "Vec_push"@ {
        Some((1int, "Link_register_element"@))
    } else if name == "Vec_set"@ || name == "Vec_insert_at"@ {
        Some((2int, "Link_register_element"@))
    } else if name == "Map_insert"@ {
        Some((2int, "Link_register_entry"@))
    } else {
        None
    }
}

impl MirLowerer {
    /// The element type push tracking recorded for this key: what this
    /// function's own pushes said, then the cross-function record.
    pub fn tracked_elem_for_key(&self, key: &str) -> (r: Option<MirType>)
        ensures
            r == tracked_elem_spec(self.meta@, self.ctx.shared_elem_types@, key@),
    {
        match assoc_index(&self.meta, key) {
            Some(i) => match &self.meta[i].1.elem_type {
                Some(t) => {
                    return Some(t.duplicate());
                },
                None => {},
            },
            None => {},
        }
        match assoc_index(&self.ctx.shared_elem_types, key) {
            Some(i) => Some(self.ctx.shared_elem_types[i].1.duplicate()),
            None => None,
        }
    }

    /// Settle every write-back opened since `mark`, in the order they were
    /// opened: a borrowed element's release call, or a spilled scalar's
    /// read-back. Called right after the call statement.
    pub fn flush_elem_writebacks(&mut self, mark: usize)
        requires
            mark <= old(self).elem_writebacks@.len(),
        ensures
            ({
                let m = old(self).builder.stmts@.len();
                let owed = old(self).elem_writebacks@.subrange(
                    mark as int,
                    old(self).elem_writebacks@.len() as int,
                );
                &&& final(self).elem_writebacks@ == old(self).elem_writebacks@.subrange(
                    0,
                    mark as int,
                )
                &&& final(self).builder.stmts@.len() == m + owed.len()
                &&& final(self).builder.stmts@.subrange(0, m as int) == old(self).builder.stmts@
                &&& forall|k: int|
                    0 <= k < owed.len() ==> {
                        let s = #[trigger] final(self).builder.stmts@[m + k];
                        &&& s.block == old(self).builder.current
                        &&& writeback_stmt(owed[k], s.stmt)
                    }
            }),
            final(self).builder.locals@ == old(self).builder.locals@,
            final(self).builder.terms@ == old(self).builder.terms@,
            final(self).builder.current == old(self).builder.current,
            final(self).ctx == old(self).ctx,
    {
        let owed = self.elem_writebacks.split_off(mark);
        let ghost m = self.builder.stmts@.len();
        let ghost start = self.builder.stmts@;
        let mut i: usize = 0;
        while i < owed.len()
            invariant
                0 <= i <= owed@.len(),
                m == start.len(),
                self.builder.stmts@.len() == m + i,
                self.builder.stmts@.subrange(0, m as int) == start,
                forall|k: int|
                    0 <= k < i ==> {
                        let s = #[trigger] self.builder.stmts@[m + k];
                        &&& s.block == self.builder.current
                        &&& writeback_stmt(owed@[k], s.stmt)
                    },
                self.builder.locals@ == old(self).builder.locals@,
                self.builder.terms@ == old(self).builder.terms@,
                self.builder.current == old(self).builder.current,
                self.ctx == old(self).ctx,
                self.elem_writebacks@ == old(self).elem_writebacks@.subrange(0, mark as int),
            decreases owed@.len() - i,
        {
            let stmt = match &owed[i] {
                ElemWriteback::ReleaseBorrow { collection, release } => {
                    let mut args: Vec<MirOperand> = Vec::new();
                    args.push(collection.duplicate());
                    MirStmt::Call { dst: None, func: release.clone(), args }
                },
                ElemWriteback::ScalarCopyBack { dst, addr } => MirStmt::Assign {
                    dst: *dst,
                    rvalue: MirRValue::Deref(MirOperand::Local(*addr)),
                },
            };
            proof {
                assert(writeback_stmt(owed@[i as int], stmt));
            }
            self.builder.push_stmt(stmt);
            proof {
                assert(self.builder.stmts@.subrange(0, m as int) =~= start);
            }
            i = i + 1;
        }
    }

    /// `object.field` where `object` is the innermost active `comptime for`
    /// binding of that name: the loop's current field member as a constant.
    /// `None` for anything else.
    pub fn comptime_field_const(&self, object_name: &str, field: &str) -> (r: Option<
        (MirOperand, MirType),
    >)
        ensures
            (forall|j: int|
                0 <= j < self.comptime_for_bindings@.len()
                    ==> #[trigger] self.comptime_for_bindings@[j].0@ != object_name@) ==> r is None,
            forall|i: int|
                is_last_binding(self.comptime_for_bindings@, object_name@, i) ==> r
                    == comptime_member(self.comptime_for_bindings@[i].1, field@),
    {
        let mut i: usize = self.comptime_for_bindings.len();
        while i > 0
            invariant
                0 <= i <= self.comptime_for_bindings@.len(),
                forall|j: int|
                    i <= j < self.comptime_for_bindings@.len()
                        ==> #[trigger] self.comptime_for_bindings@[j].0@ != object_name@,
            decreases i,
        {
            i = i - 1;
            if crate::text::str_eq(self.comptime_for_bindings[i].0.as_str(), object_name) {
                let fc = &self.comptime_for_bindings[i].1;
                return if crate::text::str_eq(field, "name") {
                    Some((MirOperand::Constant(MirConst::String(fc.name.clone())), MirType::String))
                } else if crate::text::str_eq(field, "type_name") {
                    Some(
                        (MirOperand::Constant(MirConst::String(fc.ty_name.clone())), MirType::String),
                    )
                } else if crate::text::str_eq(field, "serial_name") {
                    Some(
                        (
                            MirOperand::Constant(MirConst::String(fc.serial_name.clone())),
                            MirType::String,
                        ),
                    )
                } else if crate::text::str_eq(field, "offset") {
                    Some((MirOperand::Constant(MirConst::Int(fc.offset as i64)), MirType::U64))
                } else if crate::text::str_eq(field, "size") {
                    Some((MirOperand::Constant(MirConst::Int(fc.size as i64)), MirType::U64))
                } else if crate::text::str_eq(field, "is_public") {
                    Some((MirOperand::Constant(MirConst::Bool(fc.is_public)), MirType::Bool))
                } else if crate::text::str_eq(field, "is_skipped") {
                    Some((MirOperand::Constant(MirConst::Bool(fc.is_skipped)), MirType::Bool))
                } else if crate::text::str_eq(field, "has_default") {
                    Some((MirOperand::Constant(MirConst::Bool(fc.has_default)), MirType::Bool))
                } else {
                    None
                };
            }
        }
        None
    }

    /// The edge-registration call a container mutator needs when the value
    /// it stores is a link: the registration function and the container
    /// and value operands. `None` for everything else, which is almost
    /// every call.
    pub fn container_edge_call(&self, name: &str, args: &[MirOperand]) -> (r: Option<
        (&'static str, Vec<MirOperand>),
    >)
        ensures
            r is Some <==> (match edge_call_target(name@) {
                Some((index, _)) => {
                    &&& index < args@.len()
                    &&& args@[index] matches MirOperand::Local(id)
                    &&& id.0 < self.builder.locals@.len()
                    &&& self.builder.locals@[id.0 as int].ty is Link
                },
                None => false,
            }),
            r matches Some((func, pair)) ==> (match edge_call_target(name@) {
                Some((index, f)) => func@ == f && pair@ == seq![args@[0], args@[index]],
                None => false,
            }),
    {
        let (value_index, func): (usize, &'static str) = if crate::text::str_eq(name, "Vec_push") {
            (1, "Link_register_element")
        } else if crate::text::str_eq(name, "Vec_set") || crate::text::str_eq(
            name,
            "Vec_insert_at",
        ) {
            (2, "Link_register_element")
        } else if crate::text::str_eq(name, "Map_insert") {
            (2, "Link_register_entry")
        } else {
            return None;
        };
        if value_index >= args.len() {
            return None;
        }
        let value = &args[value_index];
        let is_link = match value {
            MirOperand::Local(id) => match self.builder.local_type(*id) {
                Some(MirType::Link(_)) => true,
                _ => false,
            },
            _ => false,
        };
        if is_link {
            let mut out: Vec<MirOperand> = Vec::new();
            out.push(args[0].duplicate());
            out.push(value.duplicate());
            Some((func, out))
        } else {
            None
        }
    }

    /// `x.hash()` on an integer, a bool or a char: the runtime's `int_hash`
    /// over the value's low `width` bytes, passed as two words and the width.
    /// A 128-bit value is split into its low and high words first. `None`
    /// for any other type.
    pub fn lower_scalar_hash(&mut self, obj_op: &MirOperand, obj_ty: &MirType) -> (r: Option<
        (MirOperand, MirType),
    >)
        ensures
            hash_width(*obj_ty) is None ==> {
                &&& r is None
                &&& final(self).builder.locals@ == old(self).builder.locals@
                &&& final(self).builder.stmts@ == old(self).builder.stmts@
            },
            hash_width(*obj_ty) is Some && hash_width(*obj_ty)->0 != 16 ==> {
                let n = old(self).builder.locals@.len();
                let out = LocalId(n as usize);
                &&& r == Some((MirOperand::Local(out), MirType::U64))
                &&& final(self).builder.locals@ == old(self).builder.locals@.push(
                    temp_decl(MirType::U64),
                )
                &&& final(self).builder.stmts@.len() == old(self).builder.stmts@.len() + 1
                &&& final(self).builder.stmts@.drop_last() == old(self).builder.stmts@
                &&& final(self).builder.stmts@.last().block == old(self).builder.current
                &&& is_call(
                    final(self).builder.stmts@.last().stmt,
                    Some(out),
                    "int_hash"@,
                    seq![
                        *obj_op,
                        MirOperand::Constant(MirConst::Int(0)),
                        MirOperand::Constant(MirConst::Int(hash_width(*obj_ty)->0)),
                    ],
                )
            },
            hash_width(*obj_ty) == Some(16i64) ==> {
                let n = old(self).builder.locals@.len();
                let m = old(self).builder.stmts@.len() as int;
                let c = old(self).builder.current;
                let low = LocalId(n as usize);
                let shifted = LocalId((n + 1) as usize);
                let high = LocalId((n + 2) as usize);
                let out = LocalId((n + 3) as usize);
                &&& r == Some((MirOperand::Local(out), MirType::U64))
                &&& final(self).builder.locals@ == old(self).builder.locals@ + seq![
                    temp_decl(MirType::U64),
                    temp_decl(*obj_ty),
                    temp_decl(MirType::U64),
                    temp_decl(MirType::U64),
                ]
                &&& final(self).builder.stmts@.len() == m + 4
                &&& final(self).builder.stmts@.subrange(0, m + 3) == old(self).builder.stmts@
                    + seq![
                    placed(
                        c,
                        MirStmt::Assign {
                            dst: low,
                            rvalue: MirRValue::Cast { value: *obj_op, target_ty: MirType::U64 },
                        },
                    ),
                    placed(
                        c,
                        assign_bin(
                            shifted,
                            BinOp::Shr,
                            *obj_op,
                            MirOperand::Constant(MirConst::Int(64)),
                        ),
                    ),
                    placed(
                        c,
                        MirStmt::Assign {
                            dst: high,
                            rvalue: MirRValue::Cast {
                                value: MirOperand::Local(shifted),
                                target_ty: MirType::U64,
                            },
                        },
                    ),
                ]
                &&& final(self).builder.stmts@[m + 3].block == c
                &&& is_call(
                    final(self).builder.stmts@[m + 3].stmt,
                    Some(out),
                    "int_hash"@,
                    seq![
                        MirOperand::Local(low),
                        MirOperand::Local(high),
                        MirOperand::Constant(MirConst::Int(16)),
                    ],
                )
            },
            final(self).builder.terms@ == old(self).builder.terms@,
            final(self).builder.current == old(self).builder.current,
            final(self).ctx == old(self).ctx,
    {
        let width: i64 = match obj_ty {
            MirType::Bool | MirType::I8 | MirType::U8 => 1,
            MirType::I16 | MirType::U16 => 2,
            MirType::I32 | MirType::U32 | MirType::Char => 4,
            MirType::I64 | MirType::U64 => 8,
            MirType::I128 | MirType::U128 => 16,
            _ => {
                return None;
            },
        };
        let ghost m: int = self.builder.stmts@.len() as int;
        let (lo, hi) = if width == 16 {
            let low = self.builder.alloc_temp(MirType::U64);
            self.builder.push_stmt(
                MirStmt::Assign {
                    dst: low,
                    rvalue: MirRValue::Cast { value: obj_op.duplicate(), target_ty: MirType::U64 },
                },
            );
            let shifted = self.builder.alloc_temp(obj_ty.duplicate());
            self.builder.push_stmt(
                MirStmt::Assign {
                    dst: shifted,
                    rvalue: MirRValue::BinaryOp {
                        op: BinOp::Shr,
                        left: obj_op.duplicate(),
                        right: MirOperand::Constant(MirConst::Int(64)),
                    },
                },
            );
            let high = self.builder.alloc_temp(MirType::U64);
            self.builder.push_stmt(
                MirStmt::Assign {
                    dst: high,
                    rvalue: MirRValue::Cast {
                        value: MirOperand::Local(shifted),
                        target_ty: MirType::U64,
                    },
                },
            );
            (MirOperand::Local(low), MirOperand::Local(high))
        } else {
            (obj_op.duplicate(), MirOperand::Constant(MirConst::Int(0)))
        };
        let out = self.builder.alloc_temp(MirType::U64);
        let ghost lo_g = lo;
        let ghost hi_g = hi;
        let mut args: Vec<MirOperand> = Vec::new();
        args.push(lo);
        args.push(hi);
        args.push(MirOperand::Constant(MirConst::Int(width)));
        assert(args@ =~= seq![lo_g, hi_g, MirOperand::Constant(MirConst::Int(width))]);
        assert(hash_width(*obj_ty) == Some(width));
        self.builder.push_stmt(MirStmt::Call { dst: Some(out), func: "int_hash".to_string(), args });
        proof {
            if width == 16 {
                assert(self.builder.locals@ =~= old(self).builder.locals@ + seq![
                    temp_decl(MirType::U64),
                    temp_decl(*obj_ty),
                    temp_decl(MirType::U64),
                    temp_decl(MirType::U64),
                ]);
                assert(self.builder.stmts@.subrange(0, m + 3) =~= old(self).builder.stmts@ + seq![
                    self.builder.stmts@[m],
                    self.builder.stmts@[m + 1],
                    self.builder.stmts@[m + 2],
                ]);
            } else {
                assert(self.builder.stmts@.drop_last() =~= old(self).builder.stmts@);
            }
        }
        Some((MirOperand::Local(out), MirType::U64))
    }

    /// `(member type, message fn)` per union member, in member order: the
    /// `{Name}_message` function of each member's type. `None` when some
    /// member has no name, or its message function isn't among `queued`,
    /// the bodies reachability queued.
    pub fn union_message_arms(&self, members: &[MirType], queued: &[&str]) -> (r: Option<
        Vec<(MirType, String)>,
    >)
        ensures
            r is Some <==> (forall|i: int|
                0 <= i < members@.len() ==> {
                    let name = #[trigger] mir_type_name_spec(self.ctx, members@[i]);
                    &&& name is Some
                    &&& exists|j: int|
                        0 <= j < queued@.len() && queued@[j]@ == name->0 + "_message"@
                }),
            r is Some ==> {
                &&& r->0@.len() == members@.len()
                &&& forall|i: int|
                    0 <= i < members@.len() ==> {
                        &&& (#[trigger] r->0@[i]).0 == members@[i]
                        &&& r->0@[i].1@ == mir_type_name_spec(self.ctx, members@[i])->0
                            + "_message"@
                    }
            },
    {
        let mut out: Vec<(MirType, String)> = Vec::new();
        let mut i: usize = 0;
        while i < members.len()
            invariant
                0 <= i <= members@.len(),
                out@.len() == i,
                forall|k: int|
                    0 <= k < i ==> {
                        let name = #[trigger] mir_type_name_spec(self.ctx, members@[k]);
                        &&& name is Some
                        &&& exists|j: int|
                            0 <= j < queued@.len() && queued@[j]@ == name->0 + "_message"@
                    },
                forall|k: int|
                    0 <= k < i ==> {
                        &&& (#[trigger] out@[k]).0 == members@[k]
                        &&& out@[k].1@ == mir_type_name_spec(self.ctx, members@[k])->0
                            + "_message"@
                    },
            decreases members@.len() - i,
        {
            let base = match self.mir_type_name(&members[i]) {
                Some(b) => b,
                None => {
                    return None;
                },
            };
            let mut name = base;
            name.append("_message");
            let mut found = false;
            let mut j: usize = 0;
            while j < queued.len()
                invariant
                    0 <= j <= queued@.len(),
                    found ==> exists|q: int| 0 <= q < queued@.len() && queued@[q]@ == name@,
                    !found ==> forall|q: int| 0 <= q < j ==> queued@[q]@ != name@,
                decreases queued@.len() - j,
            {
                if !found && crate::text::str_eq(queued[j], name.as_str()) {
                    found = true;
                }
                j = j + 1;
            }
            if !found {
                return None;
            }
            out.push((members[i].duplicate(), name));
            i = i + 1;
        }
        Some(out)
    }
}

} // verus!
