//! Methods on strings that lower to one runtime call: the comparisons and
//! the concatenation string interpolation desugars to. Each takes its
//! arguments already lowered, as operands.

use vstd::prelude::*;
use crate::builder::{is_call, placed, temp_decl, MirBuilder};
use crate::iterators::{assign_op, local_op};
use crate::lowerer::MirLowerer;
use crate::mir::{BinOp, LocalId, MirConst, MirOperand, MirRValue, MirStmt, MirType};
use crate::ordering::{ordering_wrapped, ORDERING_EQUAL};
use crate::text::str_eq;
use crate::types::Type;

verus! {

/// The runtime's predicate for a string comparison method.
pub open spec fn string_predicate(method: Seq<char>) -> Option<Seq<char>> {
    if method == "eq"@ {
        Some("string_eq"@)
    } else if method == "lt"@ {
        Some("string_lt"@)
    } else if method == "gt"@ {
        Some("string_gt"@)
    } else if method == "le"@ {
        Some("string_le"@)
    } else if method == "ge"@ {
        Some("string_ge"@)
    } else {
        None
    }
}

/// `new` is `old` with a new temp of type `ty` and the call
/// `temp = func(args)` in the current block.
pub open spec fn called_into(old: MirBuilder, new: MirBuilder, ty: MirType, func: Seq<char>, args: Seq<MirOperand>) -> bool {
    let m = old.stmts@.len() as int;
    &&& new.locals@ == old.locals@.push(temp_decl(ty))
    &&& new.stmts@.len() == m + 1
    &&& new.stmts@.subrange(0, m) == old.stmts@
    &&& new.stmts@[m].block == old.current
    &&& is_call(new.stmts@[m].stmt, Some(LocalId(old.locals@.len() as usize)), func, args)
    &&& new.terms@ == old.terms@
    &&& new.current == old.current
}

/// The runtime function that renders a value of the primitive type `ty` as
/// a string: signed integers through `i64_to_string`, unsigned ones through
/// `u64_to_string`, 128-bit ones, floats, `bool` and `char` through their
/// own, and anything else as an `i64`.
pub open spec fn to_string_func(ty: MirType) -> Seq<char> {
    match ty {
        MirType::I64 | MirType::I32 | MirType::I16 | MirType::I8 => "i64_to_string"@,
        MirType::U64 | MirType::U32 | MirType::U16 | MirType::U8 => "u64_to_string"@,
        MirType::I128 => "i128_to_string"@,
        MirType::U128 => "u128_to_string"@,
        MirType::F64 => "f64_to_string"@,
        MirType::F32 => "f32_to_string"@,
        MirType::Bool => "bool_to_string"@,
        MirType::Char => "char_to_string"@,
        _ => "i64_to_string"@,
    }
}

/// What `obj.compare(rhs)` on strings emits, from `old` to `new`, and
/// answers, `r`: the runtime's `string_compare` (-1, 0 or 1) into a new
/// `i64` temp, moved onto the comparison result's tags by adding the tag of
/// `Equal` into another, and that tag wrapped. `b1` and `b2` are the
/// builder after the call and after the addition.
pub open spec fn string_compared(
    ctx: crate::lowerer::LowerCtx,
    old: MirBuilder,
    b1: MirBuilder,
    b2: MirBuilder,
    new: MirBuilder,
    obj: MirOperand,
    rhs: MirOperand,
    r: (MirOperand, MirType),
) -> bool {
    let raw = LocalId(old.locals@.len() as usize);
    let tag = LocalId((old.locals@.len() + 1) as usize);
    &&& called_into(old, b1, MirType::I64, "string_compare"@, seq![obj, rhs])
    &&& crate::iterators::temp_then(
        b1,
        b2,
        MirType::I64,
        assign_op(tag, BinOp::Add, local_op(raw), MirOperand::Constant(MirConst::Int(ORDERING_EQUAL))),
    )
    &&& ordering_wrapped(ctx, b2, new, local_op(tag), r)
}

/// `string_compared` for some builders between the steps.
pub open spec fn string_compare_lowered(
    ctx: crate::lowerer::LowerCtx,
    old: MirBuilder,
    new: MirBuilder,
    obj: MirOperand,
    rhs: MirOperand,
    r: (MirOperand, MirType),
) -> bool {
    exists|b1: MirBuilder, b2: MirBuilder| #[trigger] string_compared(ctx, old, b1, b2, new, obj, rhs, r)
}

/// Whether a receiver is a string: by its MIR type, or by the type the
/// checker recorded for it.
pub open spec fn is_string_receiver(recorded: Option<Type>, ty: MirType) -> bool {
    ty is String || recorded matches Some(Type::String)
}

impl MirLowerer {
    /// A comparison method on the string `obj_op` of type `obj_ty` (with
    /// the type the checker recorded for it, when known) and the lowered
    /// arguments `args`: `compare` answers a value of the comparison result
    /// enum (see `string_compared`); `eq`, `lt`, `gt`, `le` and `ge` a
    /// `bool` from the runtime's predicate. Nothing, and nothing emitted,
    /// for a receiver that is not a string, another method, or another
    /// number of arguments.
    pub fn try_lower_string_compare(
        &mut self,
        method: &str,
        args: &Vec<MirOperand>,
        recorded: Option<&Type>,
        obj_op: &MirOperand,
        obj_ty: &MirType,
    ) -> (r: Option<(MirOperand, MirType)>)
        requires
            old(self).wf(),
        ensures
            ({
                let rec = match recorded {
                    Some(t) => Some(*t),
                    None => None,
                };
                if is_string_receiver(rec, *obj_ty) && args@.len() == 1 && method@ == "compare"@ {
                    &&& r is Some
                    &&& string_compare_lowered(old(self).ctx, old(self).builder, final(self).builder, *obj_op, args@[0], r->0)
                } else if is_string_receiver(rec, *obj_ty) && args@.len() == 1 && string_predicate(method@) is Some {
                    &&& called_into(
                        old(self).builder,
                        final(self).builder,
                        MirType::Bool,
                        string_predicate(method@)->0,
                        seq![*obj_op, args@[0]],
                    )
                    &&& r == Some((local_op(LocalId(old(self).builder.locals@.len() as usize)), MirType::Bool))
                } else {
                    r is None && final(self).builder == old(self).builder
                }
            }),
            final(self).wf(),
            final(self).ctx == old(self).ctx,
    {
        let is_string_obj = match obj_ty {
            MirType::String => true,
            _ => match recorded {
                Some(Type::String) => true,
                _ => false,
            },
        };
        if !is_string_obj || args.len() != 1 {
            return None;
        }
        let ghost b0 = self.builder;
        if str_eq(method, "compare") {
            let raw = self.builder.alloc_temp(MirType::I64);
            let call_args = vec![obj_op.duplicate(), args[0].duplicate()];
            self.builder.push_call(Some(raw), "string_compare", call_args);
            let ghost b1 = self.builder;
            let tag = self.builder.alloc_temp(MirType::I64);
            self.builder.push_stmt(
                MirStmt::Assign {
                    dst: tag,
                    rvalue: MirRValue::BinaryOp {
                        op: BinOp::Add,
                        left: MirOperand::Local(raw),
                        right: MirOperand::Constant(MirConst::Int(ORDERING_EQUAL)),
                    },
                },
            );
            let ghost b2 = self.builder;
            let r = self.wrap_ordering(MirOperand::Local(tag));
            proof {
                assert(b1.stmts@.subrange(0, b0.stmts@.len() as int) =~= b0.stmts@);
                assert(string_compared(old(self).ctx, b0, b1, b2, self.builder, *obj_op, args@[0], r));
            }
            return Some(r);
        }
        let func: &str = if str_eq(method, "eq") {
            "string_eq"
        } else if str_eq(method, "lt") {
            "string_lt"
        } else if str_eq(method, "gt") {
            "string_gt"
        } else if str_eq(method, "le") {
            "string_le"
        } else if str_eq(method, "ge") {
            "string_ge"
        } else {
            return None;
        };
        let result = self.builder.alloc_temp(MirType::Bool);
        let call_args = vec![obj_op.duplicate(), args[0].duplicate()];
        let ghost av = call_args@;
        self.builder.push_call(Some(result), func, call_args);
        proof {
            assert(av =~= seq![*obj_op, args@[0]]);
        }
        Some((MirOperand::Local(result), MirType::Bool))
    }

    /// `s.__concat(x)`, which string interpolation desugars to, on a string
    /// receiver `obj_op` with the lowered arguments `args`: the runtime's
    /// `concat` of the two into a new string temp. Nothing, and nothing
    /// emitted, for another method, another number of arguments, or a
    /// receiver that is not a string.
    pub fn try_lower_string_concat(&mut self, method: &str, args: &Vec<MirOperand>, obj_op: &MirOperand, obj_ty: &MirType) -> (r:
        Option<(MirOperand, MirType)>)
        ensures
            if method@ == "__concat"@ && args@.len() == 1 && *obj_ty is String {
                &&& called_into(old(self).builder, final(self).builder, MirType::String, "concat"@, seq![*obj_op, args@[0]])
                &&& r == Some((local_op(LocalId(old(self).builder.locals@.len() as usize)), MirType::String))
            } else {
                r is None && final(self).builder == old(self).builder
            },
            final(self).ctx == old(self).ctx,
    {
        let is_string = match obj_ty {
            MirType::String => true,
            _ => false,
        };
        if !str_eq(method, "__concat") || args.len() != 1 || !is_string {
            return None;
        }
        let result = self.builder.alloc_temp(MirType::String);
        let call_args = vec![obj_op.duplicate(), args[0].duplicate()];
        let ghost av = call_args@;
        self.builder.push_call(Some(result), "concat", call_args);
        proof {
            assert(av =~= seq![*obj_op, args@[0]]);
        }
        Some((MirOperand::Local(result), MirType::String))
    }

    /// `x.to_string()` on the receiver `obj_op` of type `obj_ty`, with the
    /// lowered arguments `args`. `own_to_string` says whether the
    /// receiver's library type has a `to_string` of its own, and
    /// `user_aggregate` whether the receiver is a struct or enum that names
    /// its own. Neither: a string is itself, with nothing emitted; anything
    /// else is a call of its type's renderer (`to_string_func`) into a new
    /// string temp. Nothing, and nothing emitted, with either, with
    /// arguments, or for another method.
    pub fn try_lower_to_string(
        &mut self,
        method: &str,
        args: &Vec<MirOperand>,
        own_to_string: bool,
        user_aggregate: bool,
        obj_op: &MirOperand,
        obj_ty: &MirType,
    ) -> (r: Option<(MirOperand, MirType)>)
        ensures
            if method@ == "to_string"@ && args@.len() == 0 && !own_to_string && !user_aggregate {
                if *obj_ty is String {
                    r == Some((*obj_op, MirType::String)) && final(self).builder == old(self).builder
                } else {
                    &&& called_into(
                        old(self).builder,
                        final(self).builder,
                        MirType::String,
                        to_string_func(*obj_ty),
                        seq![*obj_op],
                    )
                    &&& r == Some((local_op(LocalId(old(self).builder.locals@.len() as usize)), MirType::String))
                }
            } else {
                r is None && final(self).builder == old(self).builder
            },
            final(self).ctx == old(self).ctx,
    {
        if !str_eq(method, "to_string") || args.len() != 0 || own_to_string || user_aggregate {
            return None;
        }
        let func: &str = match obj_ty {
            MirType::String => {
                return Some((obj_op.duplicate(), MirType::String));
            },
            MirType::I64 | MirType::I32 | MirType::I16 | MirType::I8 => "i64_to_string",
            MirType::U64 | MirType::U32 | MirType::U16 | MirType::U8 => "u64_to_string",
            MirType::I128 => "i128_to_string",
            MirType::U128 => "u128_to_string",
            MirType::F64 => "f64_to_string",
            MirType::F32 => "f32_to_string",
            MirType::Bool => "bool_to_string",
            MirType::Char => "char_to_string",
            _ => "i64_to_string",
        };
        let result = self.builder.alloc_temp(MirType::String);
        let call_args = vec![obj_op.duplicate()];
        let ghost av = call_args@;
        self.builder.push_call(Some(result), func, call_args);
        proof {
            assert(av =~= seq![*obj_op]);
        }
        Some((MirOperand::Local(result), MirType::String))
    }
}

} // verus!
