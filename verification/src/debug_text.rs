//! The debug text of a type, as error messages show it: a MIR type or a
//! checker type written the way a derived `Debug` writes it, with lists in
//! square brackets, structs with their field names, and names in quotes.

use vstd::prelude::*;
use crate::mir::{MirType, TypeList};
use crate::types::{ArgList, GenericArg, Type, TypeSeq};

verus! {

/// The decimal digit `d`.
pub open spec fn digit_text(d: nat) -> Seq<char> {
    if d == 0 {
        "0"@
    } else if d == 1 {
        "1"@
    } else if d == 2 {
        "2"@
    } else if d == 3 {
        "3"@
    } else if d == 4 {
        "4"@
    } else if d == 5 {
        "5"@
    } else if d == 6 {
        "6"@
    } else if d == 7 {
        "7"@
    } else if d == 8 {
        "8"@
    } else {
        "9"@
    }
}

/// `n` in decimal, without leading zeros.
pub open spec fn dec(n: nat) -> Seq<char>
    decreases n,
{
    if n < 10 {
        digit_text(n)
    } else {
        dec(n / 10) + digit_text(n % 10)
    }
}

/// A character inside a quoted name: a quote, a backslash, a newline, a
/// carriage return, a tab and a nul written as their escapes; any other
/// character as itself.
pub open spec fn escaped_char(c: char) -> Seq<char> {
    if c == '"' {
        "\\\""@
    } else if c == '\\' {
        "\\\\"@
    } else if c == '\n' {
        "\\n"@
    } else if c == '\r' {
        "\\r"@
    } else if c == '\t' {
        "\\t"@
    } else if c == '\0' {
        "\\0"@
    } else {
        seq![c]
    }
}

/// `s` with each character escaped.
pub open spec fn escaped(s: Seq<char>) -> Seq<char>
    decreases s.len(),
{
    if s.len() == 0 {
        s
    } else {
        escaped(s.drop_last()) + escaped_char(s.last())
    }
}

/// `s` in quotes, escaped.
pub open spec fn quoted(s: Seq<char>) -> Seq<char> {
    "\""@ + escaped(s) + "\""@
}

/// A layout id: `<name> { id: .., size: .., align: .. }`.
pub open spec fn layout_id_debug(name: Seq<char>, id: u32, size: u32, align: u32) -> Seq<char> {
    name + " { id: "@ + dec(id as nat) + ", size: "@ + dec(size as nat) + ", align: "@ + dec(align as nat)
        + " }"@
}

/// The debug text of a MIR type.
pub open spec fn mir_debug(t: MirType) -> Seq<char>
    decreases t,
{
    match t {
        MirType::Void => "Void"@,
        MirType::Bool => "Bool"@,
        MirType::Char => "Char"@,
        MirType::I8 => "I8"@,
        MirType::I16 => "I16"@,
        MirType::I32 => "I32"@,
        MirType::I64 => "I64"@,
        MirType::I128 => "I128"@,
        MirType::U8 => "U8"@,
        MirType::U16 => "U16"@,
        MirType::U32 => "U32"@,
        MirType::U64 => "U64"@,
        MirType::U128 => "U128"@,
        MirType::F32 => "F32"@,
        MirType::F64 => "F64"@,
        MirType::String => "String"@,
        MirType::Ptr => "Ptr"@,
        MirType::Link(inner) => "Link("@ + mir_debug(*inner) + ")"@,
        MirType::Struct(id) => "Struct("@ + layout_id_debug("StructLayoutId"@, id.id, id.size, id.align) + ")"@,
        MirType::Enum(id) => "Enum("@ + layout_id_debug("EnumLayoutId"@, id.id, id.size, id.align) + ")"@,
        MirType::Option(inner) => "Option("@ + mir_debug(*inner) + ")"@,
        MirType::Result { ok, err } => "Result { ok: "@ + mir_debug(*ok) + ", err: "@ + mir_debug(*err) + " }"@,
        MirType::Tuple(fields) => "Tuple(["@ + mir_list_debug(fields) + "])"@,
        MirType::Array { elem, len } => "Array { elem: "@ + mir_debug(*elem) + ", len: "@ + dec(len as nat) + " }"@,
        MirType::TraitObject { trait_name } => "TraitObject { trait_name: "@ + quoted(trait_name@) + " }"@,
    }
}

/// The debug texts of a list of MIR types, separated by `, `.
pub open spec fn mir_list_debug(l: TypeList) -> Seq<char>
    decreases l,
{
    match l {
        TypeList::Nil => Seq::empty(),
        TypeList::Cons(h, t) => match *t {
            TypeList::Nil => mir_debug(*h),
            _ => mir_debug(*h) + ", "@ + mir_list_debug(*t),
        },
    }
}

/// The debug text of a checker type. The type with no value is written
/// `None`, as the checker names it.
pub open spec fn type_debug(t: Type) -> Seq<char>
    decreases t,
{
    match t {
        Type::Bool => "Bool"@,
        Type::Char => "Char"@,
        Type::I8 => "I8"@,
        Type::I16 => "I16"@,
        Type::I32 => "I32"@,
        Type::I64 => "I64"@,
        Type::U8 => "U8"@,
        Type::U16 => "U16"@,
        Type::U32 => "U32"@,
        Type::U64 => "U64"@,
        Type::I128 => "I128"@,
        Type::U128 => "U128"@,
        Type::F32 => "F32"@,
        Type::F64 => "F64"@,
        Type::String => "String"@,
        Type::Unit => "Unit"@,
        Type::NoneType => "None"@,
        Type::Var(v) => "Var("@ + dec(v as nat) + ")"@,
        Type::Named(id) => "Named("@ + dec(id as nat) + ")"@,
        Type::Generic { base, args } => "Generic { base: "@ + dec(base as nat) + ", args: ["@ + args_debug(args) + "] }"@,
        Type::UnresolvedNamed(n) => "UnresolvedNamed("@ + quoted(n@) + ")"@,
        Type::UnresolvedGeneric { name, args } => "UnresolvedGeneric { name: "@ + quoted(name@) + ", args: ["@
            + args_debug(args) + "] }"@,
        Type::Result { ok, err } => "Result { ok: "@ + type_debug(*ok) + ", err: "@ + type_debug(*err) + " }"@,
        Type::Array { elem, len } => "Array { elem: "@ + type_debug(*elem) + ", len: "@ + dec(len as nat) + " }"@,
        Type::Slice(elem) => "Slice("@ + type_debug(*elem) + ")"@,
        Type::RawPtr(inner) => "RawPtr("@ + type_debug(*inner) + ")"@,
        Type::Tuple(ts) => "Tuple(["@ + types_debug(ts) + "])"@,
        Type::Fn { params, ret } => "Fn { params: ["@ + types_debug(params) + "], ret: "@ + type_debug(*ret) + " }"@,
    }
}

/// The debug text of a generic argument.
pub open spec fn arg_debug(a: GenericArg) -> Seq<char>
    decreases a,
{
    match a {
        GenericArg::Type(t) => "Type("@ + type_debug(*t) + ")"@,
        GenericArg::Const(c) => "Const("@ + dec(c as nat) + ")"@,
    }
}

/// The debug texts of generic arguments, separated by `, `.
pub open spec fn args_debug(l: ArgList) -> Seq<char>
    decreases l,
{
    match l {
        ArgList::Nil => Seq::empty(),
        ArgList::Cons(h, t) => match *t {
            ArgList::Nil => arg_debug(h),
            _ => arg_debug(h) + ", "@ + args_debug(*t),
        },
    }
}

/// The debug texts of a list of checker types, separated by `, `.
pub open spec fn types_debug(l: TypeSeq) -> Seq<char>
    decreases l,
{
    match l {
        TypeSeq::Nil => Seq::empty(),
        TypeSeq::Cons(h, t) => match *t {
            TypeSeq::Nil => type_debug(*h),
            _ => type_debug(*h) + ", "@ + types_debug(*t),
        },
    }
}

/// Append the decimal digits of `n`.
pub fn push_dec(out: &mut String, n: u64)
    ensures
        final(out)@ == old(out)@ + dec(n as nat),
    decreases n,
{
    let ghost o = out@;
    if n >= 10 {
        push_dec(out, n / 10);
    }
    let d = n % 10;
    let digit: &str = if d == 0 {
        "0"
    } else if d == 1 {
        "1"
    } else if d == 2 {
        "2"
    } else if d == 3 {
        "3"
    } else if d == 4 {
        "4"
    } else if d == 5 {
        "5"
    } else if d == 6 {
        "6"
    } else if d == 7 {
        "7"
    } else if d == 8 {
        "8"
    } else {
        "9"
    };
    out.append(digit);
    proof {
        assert(digit@ == digit_text(d as nat));
        if n >= 10 {
            assert(out@ =~= o + dec(n as nat));
        } else {
            assert(out@ =~= o + dec(n as nat));
        }
    }
}

/// Append `s` in quotes, escaped.
pub fn push_quoted(out: &mut String, s: &str)
    ensures
        final(out)@ == old(out)@ + quoted(s@),
{
    let ghost o = out@;
    out.append("\"");
    let n = s.unicode_len();
    let mut i: usize = 0;
    while i < n
        invariant
            n == s@.len(),
            i <= n,
            out@ == o + "\""@ + escaped(s@.subrange(0, i as int)),
        decreases n - i,
    {
        let c = s.get_char(i);
        let ghost before = out@;
        if c == '"' {
            out.append("\\\"");
        } else if c == '\\' {
            out.append("\\\\");
        } else if c == '\n' {
            out.append("\\n");
        } else if c == '\r' {
            out.append("\\r");
        } else if c == '\t' {
            out.append("\\t");
        } else if c == '\0' {
            out.append("\\0");
        } else {
            out.append(s.substring_char(i, i + 1));
            assert(s@.subrange(i as int, i + 1) =~= seq![c]);
        }
        proof {
            assert(out@ == before + escaped_char(c));
            assert(s@.subrange(0, i + 1).drop_last() =~= s@.subrange(0, i as int));
            assert(out@ =~= o + "\""@ + escaped(s@.subrange(0, i + 1)));
        }
        i = i + 1;
    }
    out.append("\"");
    proof {
        assert(s@.subrange(0, n as int) =~= s@);
        assert(out@ =~= o + quoted(s@));
    }
}

/// Append the debug text of a layout id.
fn push_layout_id(out: &mut String, name: &str, id: u32, size: u32, align: u32)
    ensures
        final(out)@ == old(out)@ + layout_id_debug(name@, id, size, align),
{
    let ghost o = out@;
    out.append(name);
    out.append(" { id: ");
    push_dec(out, id as u64);
    out.append(", size: ");
    push_dec(out, size as u64);
    out.append(", align: ");
    push_dec(out, align as u64);
    out.append(" }");
    proof {
        assert(out@ =~= o + layout_id_debug(name@, id, size, align));
    }
}

/// Append the debug text of the MIR type `t`.
pub fn push_mir_debug(out: &mut String, t: &MirType)
    ensures
        final(out)@ == old(out)@ + mir_debug(*t),
    decreases t,
{
    let ghost o = out@;
    match t {
        MirType::Void => out.append("Void"),
        MirType::Bool => out.append("Bool"),
        MirType::Char => out.append("Char"),
        MirType::I8 => out.append("I8"),
        MirType::I16 => out.append("I16"),
        MirType::I32 => out.append("I32"),
        MirType::I64 => out.append("I64"),
        MirType::I128 => out.append("I128"),
        MirType::U8 => out.append("U8"),
        MirType::U16 => out.append("U16"),
        MirType::U32 => out.append("U32"),
        MirType::U64 => out.append("U64"),
        MirType::U128 => out.append("U128"),
        MirType::F32 => out.append("F32"),
        MirType::F64 => out.append("F64"),
        MirType::String => out.append("String"),
        MirType::Ptr => out.append("Ptr"),
        MirType::Link(inner) => {
            out.append("Link(");
            push_mir_debug(out, inner);
            out.append(")");
        },
        MirType::Struct(id) => {
            out.append("Struct(");
            push_layout_id(out, "StructLayoutId", id.id, id.size, id.align);
            out.append(")");
        },
        MirType::Enum(id) => {
            out.append("Enum(");
            push_layout_id(out, "EnumLayoutId", id.id, id.size, id.align);
            out.append(")");
        },
        MirType::Option(inner) => {
            out.append("Option(");
            push_mir_debug(out, inner);
            out.append(")");
        },
        MirType::Result { ok, err } => {
            out.append("Result { ok: ");
            push_mir_debug(out, ok);
            out.append(", err: ");
            push_mir_debug(out, err);
            out.append(" }");
        },
        MirType::Tuple(fields) => {
            out.append("Tuple([");
            push_mir_list_debug(out, fields);
            out.append("])");
        },
        MirType::Array { elem, len } => {
            out.append("Array { elem: ");
            push_mir_debug(out, elem);
            out.append(", len: ");
            push_dec(out, *len as u64);
            out.append(" }");
        },
        MirType::TraitObject { trait_name } => {
            out.append("TraitObject { trait_name: ");
            push_quoted(out, trait_name.as_str());
            out.append(" }");
        },
    }
    proof {
        assert(out@ =~= o + mir_debug(*t));
    }
}

/// Append the debug texts of the MIR types in `l`, separated by `, `.
pub fn push_mir_list_debug(out: &mut String, l: &TypeList)
    ensures
        final(out)@ == old(out)@ + mir_list_debug(*l),
    decreases l,
{
    let ghost o = out@;
    match l {
        TypeList::Nil => {},
        TypeList::Cons(h, t) => {
            push_mir_debug(out, h);
            match &**t {
                TypeList::Nil => {},
                _ => {
                    out.append(", ");
                    push_mir_list_debug(out, t);
                },
            }
        },
    }
    proof {
        assert(out@ =~= o + mir_list_debug(*l));
    }
}

/// The debug text of the MIR type `t`.
pub fn mir_type_debug(t: &MirType) -> (r: String)
    ensures
        r@ == mir_debug(*t),
{
    let mut out = String::new();
    push_mir_debug(&mut out, t);
    proof {
        assert(out@ =~= mir_debug(*t));
    }
    out
}

/// Append the debug text of the checker type `t`.
pub fn push_type_debug(out: &mut String, t: &Type)
    ensures
        final(out)@ == old(out)@ + type_debug(*t),
    decreases t,
{
    let ghost o = out@;
    match t {
        Type::Bool => out.append("Bool"),
        Type::Char => out.append("Char"),
        Type::I8 => out.append("I8"),
        Type::I16 => out.append("I16"),
        Type::I32 => out.append("I32"),
        Type::I64 => out.append("I64"),
        Type::U8 => out.append("U8"),
        Type::U16 => out.append("U16"),
        Type::U32 => out.append("U32"),
        Type::U64 => out.append("U64"),
        Type::I128 => out.append("I128"),
        Type::U128 => out.append("U128"),
        Type::F32 => out.append("F32"),
        Type::F64 => out.append("F64"),
        Type::String => out.append("String"),
        Type::Unit => out.append("Unit"),
        Type::NoneType => out.append("None"),
        Type::Var(v) => {
            out.append("Var(");
            push_dec(out, *v as u64);
            out.append(")");
        },
        Type::Named(id) => {
            out.append("Named(");
            push_dec(out, *id as u64);
            out.append(")");
        },
        Type::Generic { base, args } => {
            out.append("Generic { base: ");
            push_dec(out, *base as u64);
            out.append(", args: [");
            push_args_debug(out, args);
            out.append("] }");
        },
        Type::UnresolvedNamed(n) => {
            out.append("UnresolvedNamed(");
            push_quoted(out, n.as_str());
            out.append(")");
        },
        Type::UnresolvedGeneric { name, args } => {
            out.append("UnresolvedGeneric { name: ");
            push_quoted(out, name.as_str());
            out.append(", args: [");
            push_args_debug(out, args);
            out.append("] }");
        },
        Type::Result { ok, err } => {
            out.append("Result { ok: ");
            push_type_debug(out, ok);
            out.append(", err: ");
            push_type_debug(out, err);
            out.append(" }");
        },
        Type::Array { elem, len } => {
            out.append("Array { elem: ");
            push_type_debug(out, elem);
            out.append(", len: ");
            push_dec(out, *len as u64);
            out.append(" }");
        },
        Type::Slice(elem) => {
            out.append("Slice(");
            push_type_debug(out, elem);
            out.append(")");
        },
        Type::RawPtr(inner) => {
            out.append("RawPtr(");
            push_type_debug(out, inner);
            out.append(")");
        },
        Type::Tuple(ts) => {
            out.append("Tuple([");
            push_types_debug(out, ts);
            out.append("])");
        },
        Type::Fn { params, ret } => {
            out.append("Fn { params: [");
            push_types_debug(out, params);
            out.append("], ret: ");
            push_type_debug(out, ret);
            out.append(" }");
        },
    }
    proof {
        assert(out@ =~= o + type_debug(*t));
    }
}

/// Append the debug text of a generic argument.
pub fn push_arg_debug(out: &mut String, a: &GenericArg)
    ensures
        final(out)@ == old(out)@ + arg_debug(*a),
    decreases a,
{
    let ghost o = out@;
    match a {
        GenericArg::Type(t) => {
            out.append("Type(");
            push_type_debug(out, t);
            out.append(")");
        },
        GenericArg::Const(c) => {
            out.append("Const(");
            push_dec(out, *c);
            out.append(")");
        },
    }
    proof {
        assert(out@ =~= o + arg_debug(*a));
    }
}

/// Append the debug texts of generic arguments, separated by `, `.
pub fn push_args_debug(out: &mut String, l: &ArgList)
    ensures
        final(out)@ == old(out)@ + args_debug(*l),
    decreases l,
{
    let ghost o = out@;
    match l {
        ArgList::Nil => {},
        ArgList::Cons(h, t) => {
            push_arg_debug(out, h);
            match &**t {
                ArgList::Nil => {},
                _ => {
                    out.append(", ");
                    push_args_debug(out, t);
                },
            }
        },
    }
    proof {
        assert(out@ =~= o + args_debug(*l));
    }
}

/// Append the debug texts of checker types, separated by `, `.
pub fn push_types_debug(out: &mut String, l: &TypeSeq)
    ensures
        final(out)@ == old(out)@ + types_debug(*l),
    decreases l,
{
    let ghost o = out@;
    match l {
        TypeSeq::Nil => {},
        TypeSeq::Cons(h, t) => {
            push_type_debug(out, h);
            match &**t {
                TypeSeq::Nil => {},
                _ => {
                    out.append(", ");
                    push_types_debug(out, t);
                },
            }
        },
    }
    proof {
        assert(out@ =~= o + types_debug(*l));
    }
}

/// The debug text of the checker type `t`.
pub fn checker_type_debug(t: &Type) -> (r: String)
    ensures
        r@ == type_debug(*t),
{
    let mut out = String::new();
    push_type_debug(&mut out, t);
    proof {
        assert(out@ =~= type_debug(*t));
    }
    out
}

} // verus!
