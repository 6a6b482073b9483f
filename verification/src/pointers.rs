//! Raw pointers: the size of what a pointer points at, and pointer methods,
//! which lower to calls of the runtime's pointer functions.

use vstd::prelude::*;
use crate::builder::{is_call, temp_decl};
use crate::iterators::local_op;
use crate::lowerer::{assoc_get, assoc_index, LocalMeta, MirLowerer};
use crate::mir::{LocalId, MirConst, MirOperand, MirType};
use crate::text::str_eq;
use crate::types::Type;

verus! {

/// The byte width of a scalar that a raw pointer can read in one go.
pub open spec fn scalar_width(t: Type) -> Option<i64> {
    match t {
        Type::U8 | Type::I8 | Type::Bool => Some(1),
        Type::U16 | Type::I16 => Some(2),
        Type::U32 | Type::I32 | Type::F32 => Some(4),
        Type::U64 | Type::I64 | Type::F64 | Type::U128 | Type::I128 | Type::Char => Some(8),
        _ => None,
    }
}

/// The byte width of what a pointer of type `ty` points at: the pointee's
/// scalar width when `ty` is a raw pointer to such a scalar; nothing
/// otherwise.
pub open spec fn pointee_width(ty: Option<Type>) -> Option<i64> {
    match ty {
        Some(Type::RawPtr(inner)) => scalar_width(*inner),
        _ => None,
    }
}

/// The pointee is an integer (or `bool`) of at most 64 bits, which the
/// runtime's pointer read hands back as a plain integer.
pub open spec fn integral_pointee(t: Type) -> bool {
    match t {
        Type::U8 | Type::I8 | Type::Bool | Type::U16 | Type::I16 | Type::U32 | Type::I32
        | Type::U64 | Type::I64 => true,
        _ => false,
    }
}

/// The type prefixes of the library's smart pointers, which are pointers in
/// MIR but have methods of their own.
pub open spec fn smart_pointer_prefix(p: Seq<char>) -> bool {
    p == "Shared"@ || p == "Mutex"@ || p == "Channel"@ || p == "Sender"@ || p == "Receiver"@
}

/// How a pointer method's runtime function is typed.
#[derive(Clone, Copy, Debug, PartialEq, Eq, Structural)]
pub enum PtrSig {
    /// Reads the pointee.
    Read,
    /// Writes the pointee; returns nothing.
    Write,
    /// Computes another pointer.
    Arith,
    /// Tests the pointer.
    Predicate,
    /// Tests the pointer against an integer.
    PredicateInt,
    /// Compares two pointers.
    Comparison,
}

/// The library's table entry for a pointer method.
#[derive(Debug)]
pub struct PtrMethod {
    /// The name of the runtime function the method lowers to.
    pub mir_name: String,
    /// Whether the runtime implements the method.
    pub has_c_symbol: bool,
    /// Whether the runtime takes the pointee's size as a last argument.
    pub scales_by_elem: bool,
    pub sig: PtrSig,
}

/// The type of what a pointer method's runtime function returns.
pub open spec fn ptr_sig_ret(sig: PtrSig) -> MirType {
    match sig {
        PtrSig::Write => MirType::Void,
        PtrSig::Arith => MirType::Ptr,
        PtrSig::Predicate | PtrSig::PredicateInt | PtrSig::Comparison => MirType::Bool,
        PtrSig::Read => MirType::I64,
    }
}

/// The receiver is one of the library's smart pointers: by the prefix of
/// the checker's type for it, or by what lowering recorded for the name it
/// is, when it is a name.
pub open spec fn is_smart_pointer(
    raw_prefix: Option<Seq<char>>,
    object_name: Option<Seq<char>>,
    meta: Seq<(String, LocalMeta)>,
) -> bool {
    ||| raw_prefix matches Some(p) && smart_pointer_prefix(p)
    ||| object_name matches Some(n) && assoc_get(meta, n) matches Some(m) && m.type_prefix matches Some(
        p,
    ) && smart_pointer_prefix(p@)
}

/// The arguments of a pointer method's runtime call: the pointer, the
/// method's arguments, and the pointee's size when the method steps by
/// whole elements.
pub open spec fn ptr_call_args(obj: MirOperand, args: Seq<MirOperand>, scales: bool, width: i64) -> Seq<
    MirOperand,
> {
    seq![obj] + args + if scales {
        seq![MirOperand::Constant(MirConst::Int(width))]
    } else {
        Seq::empty()
    }
}

/// Whether `p` is a smart pointer prefix.
fn is_smart_prefix(p: &str) -> (r: bool)
    ensures
        r == smart_pointer_prefix(p@),
{
    str_eq(p, "Shared") || str_eq(p, "Mutex") || str_eq(p, "Channel") || str_eq(p, "Sender") || str_eq(
        p,
        "Receiver",
    )
}

impl MirLowerer {
    /// The byte size of what a pointer of the checker's type `ty` points at
    /// (`*u8` 1, `*i64` 8); see `pointee_width`. Nothing when `ty` is not a
    /// raw pointer, or its pointee is not a scalar read in one word.
    pub fn pointee_size(&self, ty: Option<&Type>) -> (r: Option<i64>)
        ensures
            r == pointee_width(
                match ty {
                    Some(t) => Some(*t),
                    None => None,
                },
            ),
    {
        match ty {
            Some(Type::RawPtr(inner)) => match &**inner {
                Type::U8 | Type::I8 | Type::Bool => Some(1),
                Type::U16 | Type::I16 => Some(2),
                Type::U32 | Type::I32 | Type::F32 => Some(4),
                Type::U64 | Type::I64 | Type::F64 | Type::U128 | Type::I128 | Type::Char => Some(8),
                _ => None,
            },
            _ => None,
        }
    }

    /// Like `pointee_size`, but only for a pointee that the runtime's read
    /// hands back as a plain integer: an integer or `bool` of at most 64
    /// bits. A float or a wider integer behind the pointer gives nothing.
    pub fn integral_pointee_size(&self, ty: Option<&Type>) -> (r: Option<i64>)
        ensures
            r == match ty {
                Some(Type::RawPtr(inner)) => if integral_pointee(**inner) {
                    scalar_width(**inner)
                } else {
                    None
                },
                _ => None,
            },
    {
        match ty {
            Some(Type::RawPtr(inner)) => match &**inner {
                Type::U8 | Type::I8 | Type::Bool | Type::U16 | Type::I16 | Type::U32 | Type::I32
                | Type::U64 | Type::I64 => self.pointee_size(ty),
                _ => None,
            },
            _ => None,
        }
    }

    /// Whether the receiver is one of the library's smart pointers; see
    /// `is_smart_pointer`.
    fn receiver_is_smart_pointer(&self, raw_prefix: Option<&str>, object_name: Option<&str>) -> (r: bool)
        ensures
            r == is_smart_pointer(
                match raw_prefix {
                    Some(p) => Some(p@),
                    None => None,
                },
                match object_name {
                    Some(n) => Some(n@),
                    None => None,
                },
                self.meta@,
            ),
    {
        let by_type = match raw_prefix {
            Some(p) => is_smart_prefix(p),
            None => false,
        };
        if by_type {
            return true;
        }
        match object_name {
            Some(n) => match assoc_index(&self.meta, n) {
                Some(i) => match &self.meta[i].1.type_prefix {
                    Some(p) => is_smart_prefix(p.as_str()),
                    None => false,
                },
                None => false,
            },
            None => false,
        }
    }

    /// A raw-pointer method on the lowered receiver `obj_op` of type
    /// `obj_ty`, with the lowered arguments `args`. `entry` is the
    /// library's table entry for `method`, `raw_prefix` the library type
    /// prefix of the checker's type for the receiver, `object_name` the
    /// receiver's name when it is one, and `object_ty` the checker's type for
    /// it.
    ///
    /// Only for a MIR pointer that is not a smart pointer: `cast` is the
    /// pointer itself, with nothing emitted; a method the runtime implements
    /// is a call of its runtime function on the pointer, the arguments and,
    /// when it steps by whole elements, the pointee's size (8 when that is
    /// unknown), into a new temp of the type its signature returns.
    /// Nothing, and nothing emitted, otherwise.
    pub fn try_lower_raw_ptr_method(
        &mut self,
        method: &str,
        entry: Option<&PtrMethod>,
        raw_prefix: Option<&str>,
        object_name: Option<&str>,
        object_ty: Option<&Type>,
        args: Vec<MirOperand>,
        obj_op: &MirOperand,
        obj_ty: &MirType,
    ) -> (r: Option<(MirOperand, MirType)>)
        ensures
            ({
                let smart = is_smart_pointer(
                    match raw_prefix {
                        Some(p) => Some(p@),
                        None => None,
                    },
                    match object_name {
                        Some(n) => Some(n@),
                        None => None,
                    },
                    old(self).meta@,
                );
                let ty_opt = match object_ty {
                    Some(t) => Some(*t),
                    None => None,
                };
                if *obj_ty is Ptr && !smart && method@ == "cast"@ {
                    &&& r == Some((*obj_op, MirType::Ptr))
                    &&& final(self).builder == old(self).builder
                } else if *obj_ty is Ptr && !smart && entry is Some && entry->0.has_c_symbol {
                    let e = *entry->0;
                    let width = match pointee_width(ty_opt) {
                        Some(w) => w,
                        None => 8,
                    };
                    let ret = ptr_sig_ret(e.sig);
                    let dst = LocalId(old(self).builder.locals@.len() as usize);
                    let m = old(self).builder.stmts@.len() as int;
                    &&& final(self).builder.locals@ == old(self).builder.locals@.push(temp_decl(ret))
                    &&& final(self).builder.stmts@.len() == m + 1
                    &&& final(self).builder.stmts@.subrange(0, m) == old(self).builder.stmts@
                    &&& final(self).builder.stmts@[m].block == old(self).builder.current
                    &&& is_call(
                        final(self).builder.stmts@[m].stmt,
                        Some(dst),
                        e.mir_name@,
                        ptr_call_args(*obj_op, args@, e.scales_by_elem, width),
                    )
                    &&& final(self).builder.terms@ == old(self).builder.terms@
                    &&& final(self).builder.current == old(self).builder.current
                    &&& r == Some((local_op(dst), ret))
                } else {
                    r is None && final(self).builder == old(self).builder
                }
            }),
            final(self).ctx == old(self).ctx,
            final(self).meta == old(self).meta,
            final(self).locals == old(self).locals,
    {
        let is_ptr = match obj_ty {
            MirType::Ptr => true,
            _ => false,
        };
        if !is_ptr || self.receiver_is_smart_pointer(raw_prefix, object_name) {
            return None;
        }
        if str_eq(method, "cast") {
            return Some((obj_op.duplicate(), MirType::Ptr));
        }
        let e = match entry {
            Some(e) => e,
            None => {
                return None;
            },
        };
        if !e.has_c_symbol {
            return None;
        }
        let width: i64 = match self.pointee_size(object_ty) {
            Some(w) => w,
            None => 8,
        };
        let mut all_args: Vec<MirOperand> = Vec::new();
        all_args.push(obj_op.duplicate());
        let mut args = args;
        let ghost rest = args@;
        all_args.append(&mut args);
        if e.scales_by_elem {
            all_args.push(MirOperand::Constant(MirConst::Int(width)));
        }
        proof {
            assert(all_args@ =~= ptr_call_args(*obj_op, rest, e.scales_by_elem, width));
        }
        let ret = match e.sig {
            PtrSig::Write => MirType::Void,
            PtrSig::Arith => MirType::Ptr,
            PtrSig::Predicate | PtrSig::PredicateInt | PtrSig::Comparison => MirType::Bool,
            PtrSig::Read => MirType::I64,
        };
        let ret2 = ret.duplicate();
        let dst = self.builder.alloc_temp(ret);
        self.builder.push_call(Some(dst), e.mir_name.as_str(), all_args);
        Some((MirOperand::Local(dst), ret2))
    }
}

} // verus!
