//! Methods answered from the receiver's type: an array's length, emptiness
//! and address, which its type fixes, and a result's origin.

use vstd::prelude::*;
use crate::builder::{is_call, temp_decl};
use crate::iterators::local_op;
use crate::lowerer::MirLowerer;
use crate::mir::{LocalId, MirConst, MirOperand, MirType};
use crate::text::str_eq;

verus! {

/// What an array method answers on the array `obj` of length `len`, with
/// no arguments: `len` its length, `is_empty` whether that is 0, `as_ptr`
/// and `as_mut_ptr` the array itself as a pointer; nothing for another
/// method.
pub open spec fn array_intrinsic(method: Seq<char>, obj: MirOperand, len: u32) -> Option<(MirOperand, MirType)> {
    if method == "len"@ {
        Some((MirOperand::Constant(MirConst::Int(len as i64)), MirType::I64))
    } else if method == "is_empty"@ {
        Some((MirOperand::Constant(MirConst::Bool(len == 0)), MirType::Bool))
    } else if method == "as_ptr"@ || method == "as_mut_ptr"@ {
        Some((obj, MirType::Ptr))
    } else {
        None
    }
}

impl MirLowerer {
    /// `len`, `is_empty`, `as_ptr` and `as_mut_ptr` on an array `obj_op` of
    /// type `obj_ty` with the lowered arguments `args`, answered from the
    /// type with nothing emitted; see `array_intrinsic`. Nothing for a
    /// receiver that is not an array, with arguments, or for another method.
    pub fn try_lower_array_intrinsic(&self, method: &str, args: &Vec<MirOperand>, obj_op: &MirOperand, obj_ty: &MirType) -> (r:
        Option<(MirOperand, MirType)>)
        ensures
            r == match *obj_ty {
                MirType::Array { len, .. } => if args@.len() == 0 {
                    array_intrinsic(method@, *obj_op, len)
                } else {
                    None
                },
                _ => None,
            },
    {
        let len = match obj_ty {
            MirType::Array { len, .. } => *len,
            _ => {
                return None;
            },
        };
        if args.len() != 0 {
            return None;
        }
        if str_eq(method, "len") {
            Some((MirOperand::Constant(MirConst::Int(len as i64)), MirType::I64))
        } else if str_eq(method, "is_empty") {
            Some((MirOperand::Constant(MirConst::Bool(len == 0)), MirType::Bool))
        } else if str_eq(method, "as_ptr") || str_eq(method, "as_mut_ptr") {
            Some((obj_op.duplicate(), MirType::Ptr))
        } else {
            None
        }
    }

    /// `r.origin()` on the lowered receiver `obj_op` of type `obj_ty`, with
    /// the lowered arguments `args`: on a result, the runtime's
    /// `rask_result_origin` of it into a new string temp; on anything else,
    /// the text `<no origin>`. Nothing, and nothing emitted, with arguments
    /// or for another method.
    pub fn try_lower_origin(&mut self, method: &str, args: &Vec<MirOperand>, obj_op: &MirOperand, obj_ty: &MirType) -> (r:
        Option<(MirOperand, MirType)>)
        ensures
            if method@ == "origin"@ && args@.len() == 0 {
                if *obj_ty is Result {
                    let m = old(self).builder.stmts@.len() as int;
                    let dst = LocalId(old(self).builder.locals@.len() as usize);
                    &&& final(self).builder.locals@ == old(self).builder.locals@.push(temp_decl(MirType::String))
                    &&& final(self).builder.stmts@.len() == m + 1
                    &&& final(self).builder.stmts@.subrange(0, m) == old(self).builder.stmts@
                    &&& final(self).builder.stmts@[m].block == old(self).builder.current
                    &&& is_call(final(self).builder.stmts@[m].stmt, Some(dst), "rask_result_origin"@, seq![*obj_op])
                    &&& final(self).builder.terms@ == old(self).builder.terms@
                    &&& final(self).builder.current == old(self).builder.current
                    &&& r == Some((local_op(dst), MirType::String))
                } else {
                    &&& final(self).builder == old(self).builder
                    &&& r matches Some((MirOperand::Constant(MirConst::String(s)), MirType::String))
                    &&& s@ == "<no origin>"@
                }
            } else {
                r is None && final(self).builder == old(self).builder
            },
            final(self).ctx == old(self).ctx,
    {
        if !str_eq(method, "origin") || args.len() != 0 {
            return None;
        }
        match obj_ty {
            MirType::Result { .. } => {
                let dst = self.builder.alloc_temp(MirType::String);
                let call_args = vec![obj_op.duplicate()];
                let ghost av = call_args@;
                self.builder.push_call(Some(dst), "rask_result_origin", call_args);
                proof {
                    assert(av =~= seq![*obj_op]);
                }
                Some((MirOperand::Local(dst), MirType::String))
            },
            _ => Some((MirOperand::Constant(MirConst::String(String::from_str("<no origin>"))), MirType::String)),
        }
    }
}

} // verus!
