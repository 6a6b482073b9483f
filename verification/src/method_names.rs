//! The runtime function an ordinary method call names: the method, with
//! its first type argument and the float `parse` forms; the receiver's type
//! prefix the checker recorded, qualified as `{Type}_{method}` (or the
//! checker's rewrite of the call); and the final runtime name, which for a
//! few calls depends on the result slot or on the receiver's elements.

use vstd::prelude::*;
use crate::builder::{is_call, placed, temp_decl, LocalDecl, MirBuilder};
use crate::debug_fmt::joined;
use crate::expr::edge_call_target;
use crate::iterators::local_op;
use crate::lowerer::{LoweringError, MirLowerer};
use crate::mir::{LocalId, MirOperand, MirRValue, MirStmt, MirType};
use crate::text::{before_char, before_char_str, str_eq, trim, trim_spec};

verus! {

/// The method's name with its first type argument, `{method}_{T}`, when it
/// has one.
pub open spec fn method_with_type_arg(method: Seq<char>, type_arg: Option<Seq<char>>) -> Seq<char> {
    match type_arg {
        Some(t) => method + "_"@ + t,
        None => method,
    }
}

/// The method a call names: `method_with_type_arg`, and a bare `parse`
/// whose recorded result holds an `f32` or `f64` is `parse_f32` or
/// `parse_f64`.
pub open spec fn regular_method_spec(method: Seq<char>, type_arg: Option<Seq<char>>, node_ty: Option<MirType>) -> Seq<char> {
    let m = method_with_type_arg(method, type_arg);
    if m == "parse"@ {
        match node_ty {
            Some(MirType::Result { ok, .. }) => match *ok {
                MirType::F32 => "parse_f32"@,
                MirType::F64 => "parse_f64"@,
                _ => m,
            },
            _ => m,
        }
    } else {
        m
    }
}

/// The base of a recorded type prefix: what stands before any `<`, trimmed.
pub open spec fn prefix_base(p: Seq<char>) -> Seq<char> {
    trim_spec(before_char(p, '<'))
}

/// A base that is a single ASCII capital letter names a type parameter,
/// not a type, and gives no prefix.
pub open spec fn is_type_param(base: Seq<char>) -> bool {
    base.len() == 1 && 'A' <= base[0] <= 'Z'
}

/// The message when no prefix could be had for `method`.
pub open spec fn unresolved_receiver_message(method: Seq<char>) -> Seq<char> {
    "method `"@ + method + "` on receiver of unresolved type — dispatch could not determine a stdlib type prefix"@
}

/// The qualified name of a call of `method` on a receiver whose recorded
/// type prefix is `prefix`, with the checker's rewrite `rewrite` of the
/// call, if any: an error (its message) without a usable prefix; else the
/// rewrite when there is one, or `{base}_{method}`.
pub open spec fn qualified_spec(prefix: Option<Seq<char>>, method: Seq<char>, rewrite: Option<Seq<char>>) -> Result<
    Seq<char>,
    Seq<char>,
> {
    match prefix {
        Some(p) => if is_type_param(prefix_base(p)) {
            Err(unresolved_receiver_message(method))
        } else {
            match rewrite {
                Some(w) => Ok(w),
                None => Ok(prefix_base(p) + "_"@ + method),
            }
        },
        None => Err(unresolved_receiver_message(method)),
    }
}

/// `s` begins with `p`.
pub open spec fn has_prefix_spec(s: Seq<char>, p: Seq<char>) -> bool {
    p.len() <= s.len() && s.subrange(0, p.len() as int) == p
}

/// The `string_parse_*` runtime that writes into a result slot of type
/// `ret_ty`, by the slot's payload type; none for a payload the runtime
/// has no variant for.
pub open spec fn parse_variant_spec(ret_ty: MirType) -> Option<Seq<char>> {
    match ret_ty {
        MirType::Result { ok, .. } => match *ok {
            MirType::F32 => Some("string_parse_f32"@),
            MirType::F64 => Some("string_parse_f64"@),
            MirType::I8 => Some("string_parse_i8"@),
            MirType::I16 => Some("string_parse_i16"@),
            MirType::I32 => Some("string_parse_i32"@),
            MirType::I64 => Some("string_parse_i64"@),
            MirType::U8 => Some("string_parse_u8"@),
            MirType::U16 => Some("string_parse_u16"@),
            MirType::U32 => Some("string_parse_u32"@),
            MirType::U64 => Some("string_parse_u64"@),
            _ => None,
        },
        _ => None,
    }
}

/// The runtime function finally called for the qualified name `q`, with
/// the result slot `ret_ty`, `n_args` arguments (the receiver counted),
/// and what is known of the receiver's elements; and whether the
/// element type's `compare` is passed as one more argument. A parse goes
/// by its slot; `Pool_alloc` with a value is `Pool_insert`; `Vec_get` is
/// the `Option`-giving `Vec_get_opt`; a join of non-strings is
/// `Vec_join_i64`; a sort of floats, of strings, or with a comparator has
/// its own runtime; `contains` on strings compares them as strings.
pub open spec fn final_callee_spec(
    q: Seq<char>,
    ret_ty: MirType,
    n_args: nat,
    elem_is_string: bool,
    elem_is_float: bool,
    has_comparator: bool,
) -> (Seq<char>, bool) {
    if has_prefix_spec(q, "string_parse"@) && parse_variant_spec(ret_ty) is Some {
        (parse_variant_spec(ret_ty)->0, false)
    } else if q == "Pool_alloc"@ && n_args == 2 {
        ("Pool_insert"@, false)
    } else if q == "Vec_get"@ {
        ("Vec_get_opt"@, false)
    } else if q == "Vec_join"@ {
        (if elem_is_string { q } else { "Vec_join_i64"@ }, false)
    } else if q == "Vec_sort"@ && elem_is_float {
        ("Vec_sort_f64"@, false)
    } else if q == "Vec_sort"@ && elem_is_string {
        ("Vec_sort_str"@, false)
    } else if q == "Vec_sort"@ && has_comparator {
        ("Vec_sort_by"@, true)
    } else if q == "Vec_contains"@ && elem_is_string {
        ("Vec_contains_str"@, false)
    } else {
        (q, false)
    }
}

/// Whether `s` begins with `p`.
pub fn has_prefix(s: &str, p: &str) -> (r: bool)
    ensures
        r == has_prefix_spec(s@, p@),
{
    let n = p.unicode_len();
    if n > s.unicode_len() {
        return false;
    }
    let mut i: usize = 0;
    while i < n
        invariant
            n == p@.len(),
            n <= s@.len(),
            0 <= i <= n,
            forall|j: int| 0 <= j < i ==> s@[j] == p@[j],
        decreases n - i,
    {
        if s.get_char(i) != p.get_char(i) {
            assert(s@.subrange(0, n as int)[i as int] != p@[i as int]);
            return false;
        }
        i = i + 1;
    }
    assert(s@.subrange(0, n as int) =~= p@);
    true
}

/// The method a call names; see `regular_method_spec`.
pub fn regular_method(method: &str, type_arg: Option<&str>, node_ty: Option<&MirType>) -> (r: String)
    ensures
        r@ == regular_method_spec(
            method@,
            match type_arg {
                Some(t) => Some(t@),
                None => None,
            },
            match node_ty {
                Some(t) => Some(*t),
                None => None,
            },
        ),
{
    let m = match type_arg {
        Some(t) => {
            let head = joined(method, "_");
            joined(head.as_str(), t)
        },
        None => String::from_str(method),
    };
    if str_eq(m.as_str(), "parse") {
        match node_ty {
            Some(MirType::Result { ok, .. }) => match &**ok {
                MirType::F32 => String::from_str("parse_f32"),
                MirType::F64 => String::from_str("parse_f64"),
                _ => m,
            },
            _ => m,
        }
    } else {
        m
    }
}

/// The qualified name of a method call; see `qualified_spec`. Its error is
/// `InvalidConstruct` with the message.
pub fn qualified_method_name(prefix: Option<&str>, method: &str, rewrite: Option<&str>) -> (r: Result<
    String,
    LoweringError,
>)
    ensures
        match qualified_spec(
            match prefix {
                Some(p) => Some(p@),
                None => None,
            },
            method@,
            match rewrite {
                Some(w) => Some(w@),
                None => None,
            },
        ) {
            Ok(n) => r matches Ok(s) && s@ == n,
            Err(m) => r matches Err(LoweringError::InvalidConstruct(x)) && x@ == m,
        },
{
    let base = match prefix {
        Some(p) => {
            let b = trim(before_char_str(p, '<'));
            let bad = b.unicode_len() == 1 && {
                let c = b.as_str().get_char(0);
                'A' <= c && c <= 'Z'
            };
            if bad {
                None
            } else {
                Some(b)
            }
        },
        None => None,
    };
    match base {
        None => {
            let head = joined("method `", method);
            let msg = joined(
                head.as_str(),
                "` on receiver of unresolved type — dispatch could not determine a stdlib type prefix",
            );
            Err(LoweringError::InvalidConstruct(msg))
        },
        Some(b) => match rewrite {
            Some(w) => Ok(String::from_str(w)),
            None => {
                let head = joined(b.as_str(), "_");
                Ok(joined(head.as_str(), method))
            },
        },
    }
}

/// The runtime function finally called; see `final_callee_spec`.
pub fn final_callee(
    q: &str,
    ret_ty: &MirType,
    n_args: usize,
    elem_is_string: bool,
    elem_is_float: bool,
    has_comparator: bool,
) -> (r: (String, bool))
    ensures
        (r.0@, r.1) == final_callee_spec(q@, *ret_ty, n_args as nat, elem_is_string, elem_is_float, has_comparator),
{
    let variant: Option<&str> = match ret_ty {
        MirType::Result { ok, .. } => match &**ok {
            MirType::F32 => Some("string_parse_f32"),
            MirType::F64 => Some("string_parse_f64"),
            MirType::I8 => Some("string_parse_i8"),
            MirType::I16 => Some("string_parse_i16"),
            MirType::I32 => Some("string_parse_i32"),
            MirType::I64 => Some("string_parse_i64"),
            MirType::U8 => Some("string_parse_u8"),
            MirType::U16 => Some("string_parse_u16"),
            MirType::U32 => Some("string_parse_u32"),
            MirType::U64 => Some("string_parse_u64"),
            _ => None,
        },
        _ => None,
    };
    if has_prefix(q, "string_parse") && variant.is_some() {
        match variant {
            Some(v) => (String::from_str(v), false),
            None => (String::from_str(q), false),
        }
    } else if str_eq(q, "Pool_alloc") && n_args == 2 {
        (String::from_str("Pool_insert"), false)
    } else if str_eq(q, "Vec_get") {
        (String::from_str("Vec_get_opt"), false)
    } else if str_eq(q, "Vec_join") {
        if elem_is_string {
            (String::from_str(q), false)
        } else {
            (String::from_str("Vec_join_i64"), false)
        }
    } else if str_eq(q, "Vec_sort") && elem_is_float {
        (String::from_str("Vec_sort_f64"), false)
    } else if str_eq(q, "Vec_sort") && elem_is_string {
        (String::from_str("Vec_sort_str"), false)
    } else if str_eq(q, "Vec_sort") && has_comparator {
        (String::from_str("Vec_sort_by"), true)
    } else if str_eq(q, "Vec_contains") && elem_is_string {
        (String::from_str("Vec_contains_str"), false)
    } else {
        (String::from_str(q), false)
    }
}

/// The call that tells a link's target it was put into a container, when
/// the call `name(args)` puts one there: the value put is a local of a link
/// type in `locals`; it gets the container and the value.
pub open spec fn container_edge(locals: Seq<LocalDecl>, name: Seq<char>, args: Seq<MirOperand>) -> Option<
    (Seq<char>, Seq<MirOperand>),
> {
    match edge_call_target(name) {
        Some((i, f)) => if i < args.len() {
            match args[i] {
                MirOperand::Local(id) => if id.0 < locals.len() && locals[id.0 as int].ty is Link {
                    Some((f, seq![args[0], args[i]]))
                } else {
                    None
                },
                _ => None,
            }
        } else {
            None
        },
        None => None,
    }
}

/// The call of `name` on `args` into a new temp of the result type
/// `ret_ty`, in the current block; then, when the call puts a link into a
/// container, the call that records it (see `container_edge`); and when
/// the receiver is an `f32` and an `f64_*` runtime gave an `f64`, the
/// result narrowed back by a cast into a new `f32` temp. The answer is the
/// last temp.
pub open spec fn method_call_emitted(
    old: MirBuilder,
    new: MirBuilder,
    name: Seq<char>,
    args: Seq<MirOperand>,
    ret_ty: MirType,
    obj_ty: MirType,
    r: (MirOperand, MirType),
) -> bool {
    let n = old.locals@.len();
    let m = old.stmts@.len();
    let t = LocalId(n as usize);
    let narrowed = LocalId((n + 1) as usize);
    let narrow = obj_ty is F32 && ret_ty is F64 && has_prefix_spec(name, "f64_"@);
    let edge = container_edge(old.locals@.push(temp_decl(ret_ty)), name, args);
    let k: int = if edge is Some { 1 } else { 0 };
    &&& new.locals@ == if narrow {
        old.locals@.push(temp_decl(ret_ty)).push(temp_decl(MirType::F32))
    } else {
        old.locals@.push(temp_decl(ret_ty))
    }
    &&& new.stmts@.len() == m + 1 + k + if narrow { 1int } else { 0int }
    &&& new.stmts@.subrange(0, m as int) == old.stmts@
    &&& forall|i: int| m <= i < new.stmts@.len() ==> (#[trigger] new.stmts@[i]).block == old.current
    &&& is_call(new.stmts@[m as int].stmt, Some(t), name, args)
    &&& edge matches Some((f, ea)) ==> is_call(new.stmts@[m + 1int].stmt, None, f, ea)
    &&& narrow ==> new.stmts@[m + 1 + k].stmt == MirStmt::Assign {
        dst: narrowed,
        rvalue: MirRValue::Cast { value: local_op(t), target_ty: MirType::F32 },
    }
    &&& new.terms@ == old.terms@
    &&& new.current == old.current
    &&& r == if narrow {
        (local_op(narrowed), MirType::F32)
    } else {
        (local_op(t), ret_ty)
    }
}

impl MirLowerer {
    /// An ordinary method call `obj.method(args)`, with the receiver `obj`
    /// of type `obj_ty` and the arguments lowered, where the call's name
    /// comes from `method`, its first type argument `type_arg`, the type
    /// `node_ty` the checker recorded for the call, the receiver's recorded
    /// type prefix `prefix` and the checker's rewrite `rewrite` of the call;
    /// `ret_ty` is the result type the call gives, `elem_is_string` and
    /// `elem_is_float` what is known of the receiver's elements, and
    /// `comparator` the element type's `compare`, if it has one. Without a
    /// usable prefix: the error of `qualified_spec`, with nothing emitted.
    /// Else the runtime function of `final_callee_spec` is called on the
    /// receiver and the arguments (and the comparator, when that function
    /// takes it); see `method_call_emitted`.
    pub fn lower_regular_method_call(
        &mut self,
        method: &str,
        type_arg: Option<&str>,
        node_ty: Option<&MirType>,
        prefix: Option<&str>,
        rewrite: Option<&str>,
        obj: MirOperand,
        obj_ty: &MirType,
        args: Vec<MirOperand>,
        ret_ty: MirType,
        elem_is_string: bool,
        elem_is_float: bool,
        comparator: Option<MirOperand>,
    ) -> (r: Result<(MirOperand, MirType), LoweringError>)
        requires
            old(self).builder.wf(),
            args@.len() < usize::MAX,
        ensures
            ({
                let m = regular_method_spec(
                    method@,
                    match type_arg {
                        Some(t) => Some(t@),
                        None => None,
                    },
                    match node_ty {
                        Some(t) => Some(*t),
                        None => None,
                    },
                );
                match qualified_spec(
                    match prefix {
                        Some(p) => Some(p@),
                        None => None,
                    },
                    m,
                    match rewrite {
                        Some(w) => Some(w@),
                        None => None,
                    },
                ) {
                    Err(msg) => {
                        &&& r matches Err(LoweringError::InvalidConstruct(x)) && x@ == msg
                        &&& final(self).builder == old(self).builder
                    },
                    Ok(q) => {
                        let (name, adds) = final_callee_spec(
                            q,
                            ret_ty,
                            (args@.len() + 1) as nat,
                            elem_is_string,
                            elem_is_float,
                            comparator is Some,
                        );
                        let all = seq![obj] + args@ + if adds {
                            seq![comparator->0]
                        } else {
                            Seq::empty()
                        };
                        r matches Ok(v) && method_call_emitted(
                            old(self).builder,
                            final(self).builder,
                            name,
                            all,
                            ret_ty,
                            *obj_ty,
                            v,
                        )
                    },
                }
            }),
            final(self).builder.wf(),
            final(self).ctx == old(self).ctx,
    {
        let m = regular_method(method, type_arg, node_ty);
        let q = match qualified_method_name(prefix, m.as_str(), rewrite) {
            Err(e) => {
                return Err(e);
            },
            Ok(q) => q,
        };
        let with_compare = comparator.is_some();
        let (name, adds) = final_callee(q.as_str(), &ret_ty, args.len() + 1, elem_is_string, elem_is_float, with_compare);
        let ghost gobj = obj;
        let ghost gargs = args@;
        let ghost gcomp = comparator;
        let mut all: Vec<MirOperand> = vec![obj];
        let ghost head = all@;
        let mut rest = args;
        all.append(&mut rest);
        let ghost with_args = all@;
        proof {
            assert(head =~= seq![gobj]);
            assert(with_args =~= seq![gobj] + gargs);
        }
        if adds {
            match comparator {
                Some(c) => all.push(c),
                None => {},
            }
        }
        proof {
            if adds {
                assert(all@ =~= seq![gobj] + gargs + seq![gcomp->0]);
            } else {
                assert(all@ =~= seq![gobj] + gargs + Seq::empty());
            }
        }
        let narrow = match (obj_ty, &ret_ty) {
            (MirType::F32, MirType::F64) => has_prefix(name.as_str(), "f64_"),
            _ => false,
        };
        let ghost b0 = self.builder;
        let t = self.builder.alloc_temp(ret_ty.duplicate());
        let edge = self.container_edge_call(name.as_str(), all.as_slice());
        let ghost gall = all@;
        self.builder.push_call(Some(t), name.as_str(), all);
        let ghost b1 = self.builder;
        match edge {
            Some((f, ea)) => {
                self.builder.push_call(None, f, ea);
            },
            None => {},
        }
        let ghost b2 = self.builder;
        proof {
            let m = b0.stmts@.len() as int;
            assert(b2.stmts@.subrange(0, m) =~= b0.stmts@);
            assert(b2.stmts@[m] == b1.stmts@[m]);
        }
        if narrow {
            let n2 = self.builder.alloc_temp(MirType::F32);
            self.builder.push_stmt(
                MirStmt::Assign {
                    dst: n2,
                    rvalue: MirRValue::Cast { value: MirOperand::Local(t), target_ty: MirType::F32 },
                },
            );
            proof {
                let m = b0.stmts@.len() as int;
                assert(self.builder.stmts@.subrange(0, m) =~= b0.stmts@);
                assert(self.builder.stmts@[m] == b2.stmts@[m]);
                if b2.stmts@.len() > b1.stmts@.len() {
                    assert(self.builder.stmts@[m + 1] == b2.stmts@[m + 1]);
                }
                assert forall|i: int| m <= i < self.builder.stmts@.len() implies (#[trigger] self.builder.stmts@[i]).block
                    == b0.current by {
                    if i < b2.stmts@.len() {
                        assert(self.builder.stmts@[i] == b2.stmts@[i]);
                        if i < b1.stmts@.len() {
                            assert(b2.stmts@[i] == b1.stmts@[i]);
                        }
                    }
                }
            }
            Ok((MirOperand::Local(n2), MirType::F32))
        } else {
            proof {
                let m = b0.stmts@.len() as int;
                assert forall|i: int| m <= i < self.builder.stmts@.len() implies (#[trigger] self.builder.stmts@[i]).block
                    == b0.current by {
                    if i < b1.stmts@.len() {
                        assert(b2.stmts@[i] == b1.stmts@[i]);
                    }
                }
            }
            Ok((MirOperand::Local(t), ret_ty))
        }
    }
}

} // verus!
