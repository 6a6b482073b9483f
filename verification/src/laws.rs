//! What holds of the lowering pieces across calls and across all inputs,
//! stated over the same spec functions their contracts use.

use vstd::prelude::*;
use crate::bindings::{binding_inserted, binding_name, meta_name, prefix_recorded};
use crate::iterators::keyed_insert;
use crate::json_decode::{
    angle_depth, is_top_comma, json_error_variants_spec, split_prefix, split_type_args_spec, variant_entry, ERR_PARSE,
};
use crate::lowerer::{
    enum_layout_name, first_named, lemma_first_named_props, variant_name, LocalBinding, LocalMeta,
    LowerCtx,
};
use crate::mir::{align_of, size_of, LocalId, MirType};
use crate::values::{align_up, tuple_field_offset};
use crate::text::{is_whitespace_spec, trim_end_spec, trim_spec, trim_start_spec};
use crate::builder::StmtForm;
use crate::iterators::{assign_op, local_op};
use crate::mir::{BinOp, BlockId, MirOperand, MirTerminator};
use crate::sorting::{call_form, sort_forms, sort_terms};
use crate::int_methods::{fallible_ops, int_binary_op, int_method_lowered};
use crate::ordering::{ORDERING_EQUAL, ORDERING_GREATER, ORDERING_LESS};

verus! {

/// Rust's `%` on integers: the remainder of truncating division, which
/// takes the sign of the dividend.
pub open spec fn trunc_rem(a: int, b: int) -> int {
    let m = if b < 0 {
        -b
    } else {
        b
    };
    if a >= 0 {
        a % m
    } else {
        -((-a) % m)
    }
}

/// What the signed `mod` blocks leave in the result, from the remainder
/// `r` the entry block computes: unchanged when `r` is not negative,
/// `r - b` when the divisor is negative, `r + b` when it is positive.
pub open spec fn signed_mod_result(r: int, b: int) -> int {
    if r < 0 {
        if b < 0 {
            r - b
        } else {
            r + b
        }
    } else {
        r
    }
}

/// The lowered `a.mod(b)` is the remainder that is never negative: for a
/// non-zero divisor, what the correction blocks make of Rust's remainder is
/// `((a % b) + |b|) % |b|` taken with Rust's `%`, which is the Euclidean
/// remainder, in `0 .. |b|`.
pub proof fn lemma_lowered_mod_never_negative(a: int, b: int)
    requires
        b != 0,
    ensures
        ({
            let m = if b < 0 {
                -b
            } else {
                b
            };
            let r = signed_mod_result(trunc_rem(a, b), b);
            &&& 0 <= r < m
            &&& r == a % b
            &&& r == trunc_rem(trunc_rem(a, b) + m, b)
        }),
{
    let m = if b < 0 {
        -b
    } else {
        b
    };
    assert(m > 0);
    assert(a % b == a % m) by (nonlinear_arith)
        requires
            b != 0,
            m == (if b < 0 {
                -b
            } else {
                b
            }),
    {
        if b < 0 {
            vstd::arithmetic::div_mod::lemma_fundamental_div_mod(a, b);
            vstd::arithmetic::div_mod::lemma_fundamental_div_mod(a, m);
        }
    }
    if a >= 0 {
        vstd::arithmetic::div_mod::lemma_mod_bound(a, m);
        assert(trunc_rem(a, b) == a % m);
        vstd::arithmetic::div_mod::lemma_mod_bound(a % m + m, m);
        vstd::arithmetic::div_mod::lemma_mod_add_multiples_vanish(a % m, m);
        vstd::arithmetic::div_mod::lemma_small_mod((a % m) as nat, m as nat);
    } else {
        let p = (-a) % m;
        vstd::arithmetic::div_mod::lemma_mod_bound(-a, m);
        assert(0 <= p < m);
        vstd::arithmetic::div_mod::lemma_fundamental_div_mod(-a, m);
        let q = (-a) / m;
        assert(-a == m * q + p);
        if p == 0 {
            assert(a == m * (-q)) by (nonlinear_arith)
                requires
                    -a == m * q + p,
                    p == 0,
            ;
            vstd::arithmetic::div_mod::lemma_mod_multiples_basic(-q, m);
            assert(a % m == 0) by {
                assert(m * (-q) == (-q) * m) by (nonlinear_arith);
            }
            vstd::arithmetic::div_mod::lemma_mod_self_0(m);
        } else {
            assert(a == m * (-q - 1) + (m - p)) by (nonlinear_arith)
                requires
                    -a == m * q + p,
            ;
            vstd::arithmetic::div_mod::lemma_mod_multiples_vanish(-q - 1, m - p, m);
            assert(m * (-q - 1) + (m - p) == (m - p) + m * (-q - 1));
            vstd::arithmetic::div_mod::lemma_small_mod((m - p) as nat, m as nat);
            assert(a % m == m - p);
            vstd::arithmetic::div_mod::lemma_small_mod((m - p) as nat, m as nat);
        }
    }
}

/// The end a `take` clamps to: the written end, or the source length when
/// that is smaller.
pub open spec fn clamped_end(end: int, len: int) -> int {
    if end > len {
        len
    } else {
        end
    }
}

/// `take(n)` asks for at most `n`: the clamped range from `start` to
/// `start + n` never runs past the source, and holds at most `n` indices.
pub proof fn lemma_take_is_at_most(start: int, n: int, len: int)
    requires
        0 <= start,
        0 <= n,
    ensures
        clamped_end(start + n, len) <= len,
        clamped_end(start + n, len) - start <= n,
        len >= start + n ==> clamped_end(start + n, len) == start + n,
{
}

/// An unrecognised status lands on `ParseError`: when the registered
/// `JsonError` has a `ParseError` variant, the first case of the status
/// switch, whose block is also the switch's default, is that variant's,
/// for status 1.
pub proof fn lemma_unknown_status_is_parse_error(ctx: LowerCtx)
    requires
        first_named(ctx.enum_layouts@, enum_layout_name(), "JsonError"@) matches Some(i)
            && first_named(ctx.enum_layouts@[i].variants@, variant_name(), "ParseError"@) is Some,
    ensures
        ({
            let i = first_named(ctx.enum_layouts@, enum_layout_name(), "JsonError"@)->0;
            let vs = ctx.enum_layouts@[i].variants@;
            let j = first_named(vs, variant_name(), "ParseError"@)->0;
            &&& json_error_variants_spec(ctx).len() > 0
            &&& json_error_variants_spec(ctx)[0] == (ERR_PARSE, vs[j].tag as u32, vs[j].payload_offset)
        }),
{
    let i = first_named(ctx.enum_layouts@, enum_layout_name(), "JsonError"@)->0;
    let vs = ctx.enum_layouts@[i].variants@;
    assert(variant_entry(vs, ERR_PARSE, "ParseError"@).len() == 1);
}

/// The element type recorded for `key` in a collected-types table: the
/// first entry's.
pub open spec fn keyed_get(s: Seq<(LocalId, MirType)>, key: LocalId) -> Option<MirType>
    decreases s.len(),
{
    if s.len() == 0 {
        None
    } else if s[0].0 == key {
        Some(s[0].1)
    } else {
        keyed_get(s.drop_first(), key)
    }
}

/// A read gives back what a write wrote: after recording `v` for `key`,
/// `key` reads `v`, and every other key reads what it read before.
pub proof fn lemma_keyed_insert_then_get(s: Seq<(LocalId, MirType)>, key: LocalId, v: MirType, other: LocalId)
    ensures
        keyed_get(keyed_insert(s, key, v), key) == Some(v),
        other != key ==> keyed_get(keyed_insert(s, key, v), other) == keyed_get(s, other),
    decreases s.len(),
{
    if s.len() > 0 && s[0].0 != key {
        lemma_keyed_insert_then_get(s.drop_first(), key, v, other);
        let new = seq![s[0]] + keyed_insert(s.drop_first(), key, v);
        assert(new[0] == s[0]);
        assert(new.drop_first() =~= keyed_insert(s.drop_first(), key, v));
        assert(keyed_insert(s, key, v) == new);
        if other != key {
            if s[0].0 == other {
                assert(keyed_get(new, other) == Some(s[0].1));
            } else {
                assert(keyed_get(new, other) == keyed_get(new.drop_first(), other));
            }
        }
    } else if s.len() > 0 {
        let new = s.update(0, (key, v));
        assert(new[0] == (key, v));
        assert(new.drop_first() =~= s.drop_first());
        assert(keyed_insert(s, key, v) == new);
        if other != key {
            assert(keyed_get(new, other) == keyed_get(new.drop_first(), other));
            assert(keyed_get(s, other) == keyed_get(s.drop_first(), other));
        }
    } else {
        assert(keyed_insert(s, key, v) == seq![(key, v)]);
        assert(seq![(key, v)].drop_first() =~= Seq::<(LocalId, MirType)>::empty());
        if other != key {
            assert(keyed_get(seq![(key, v)], other) == keyed_get(seq![(key, v)].drop_first(), other));
        }
    }
}

/// Binding a name, then looking it up, finds the new binding: the first
/// binding of the name in the table afterwards is the local just bound.
pub proof fn lemma_binding_lookup_after_insert(
    old: Seq<LocalBinding>,
    new: Seq<LocalBinding>,
    name: Seq<char>,
    local: LocalId,
    ty: MirType,
)
    requires
        binding_inserted(old, new, name, local, ty),
    ensures
        first_named(new, binding_name(), name) matches Some(k) && new[k].local == local && new[k].ty
            == ty,
{
    lemma_first_named_props(old, binding_name(), name);
    match first_named(old, binding_name(), name) {
        Some(i) => {
            assert forall|j: int| 0 <= j < i implies (binding_name())(new[j]) != name by {
                crate::lowerer::lemma_first_named_before(old, binding_name(), name, j);
            }
            crate::lowerer::lemma_first_named_at(new, binding_name(), name, i);
        },
        None => {
            assert forall|j: int| 0 <= j < new.len() - 1 implies (binding_name())(new[j]) != name by {
                assert(new[j] == new.drop_last()[j]);
                crate::lowerer::lemma_first_named_none_at(old, binding_name(), name, j);
            }
            crate::lowerer::lemma_first_named_at(new, binding_name(), name, new.len() - 1);
        },
    }
}

/// Recording a type prefix, then looking the name up, finds the prefix.
pub proof fn lemma_prefix_lookup_after_record(
    old: Seq<(String, LocalMeta)>,
    new: Seq<(String, LocalMeta)>,
    name: Seq<char>,
    prefix: Seq<char>,
)
    requires
        prefix_recorded(old, new, name, prefix),
    ensures
        first_named(new, meta_name(), name) matches Some(k) && new[k].1.type_prefix matches Some(p)
            && p@ == prefix,
{
    lemma_first_named_props(old, meta_name(), name);
    match first_named(old, meta_name(), name) {
        Some(i) => {
            assert forall|j: int| 0 <= j < i implies (meta_name())(new[j]) != name by {
                crate::lowerer::lemma_first_named_before(old, meta_name(), name, j);
            }
            assert((meta_name())(new[i]) == name);
            crate::lowerer::lemma_first_named_at(new, meta_name(), name, i);
        },
        None => {
            assert forall|j: int| 0 <= j < new.len() - 1 implies (meta_name())(new[j]) != name by {
                assert(new[j] == new.drop_last()[j]);
                crate::lowerer::lemma_first_named_none_at(old, meta_name(), name, j);
            }
            crate::lowerer::lemma_first_named_at(new, meta_name(), name, new.len() - 1);
        },
    }
}

/// Leading whitespace, once trimmed, leaves nothing to trim.
proof fn lemma_trim_start_idem(s: Seq<char>)
    ensures
        trim_start_spec(trim_start_spec(s)) == trim_start_spec(s),
        trim_start_spec(s).len() > 0 ==> !is_whitespace_spec(trim_start_spec(s)[0]),
    decreases s.len(),
{
    if s.len() > 0 && is_whitespace_spec(s[0]) {
        lemma_trim_start_idem(s.drop_first());
    }
}

/// Trailing whitespace, once trimmed, leaves nothing to trim.
proof fn lemma_trim_end_idem(s: Seq<char>)
    ensures
        trim_end_spec(trim_end_spec(s)) == trim_end_spec(s),
        trim_end_spec(s).len() > 0 ==> !is_whitespace_spec(trim_end_spec(s).last()),
    decreases s.len(),
{
    if s.len() > 0 && is_whitespace_spec(s.last()) {
        lemma_trim_end_idem(s.drop_last());
    }
}

/// Trimming the end of a string that starts with no whitespace leaves it
/// starting with no whitespace.
proof fn lemma_trim_end_keeps_start(s: Seq<char>)
    requires
        s.len() > 0 ==> !is_whitespace_spec(s[0]),
    ensures
        trim_end_spec(s).len() > 0 ==> !is_whitespace_spec(trim_end_spec(s)[0]),
        trim_end_spec(s).len() > 0 ==> trim_end_spec(s)[0] == s[0],
    decreases s.len(),
{
    if s.len() > 0 && is_whitespace_spec(s.last()) {
        if s.len() > 1 {
            lemma_trim_end_keeps_start(s.drop_last());
        }
    }
}

/// Trimming is idempotent: a trimmed string trims to itself. So every
/// piece `split_type_args` hands back is already trimmed.
pub proof fn lemma_trim_idempotent(s: Seq<char>)
    ensures
        trim_spec(trim_spec(s)) == trim_spec(s),
{
    let a = trim_start_spec(s);
    lemma_trim_start_idem(s);
    lemma_trim_end_keeps_start(a);
    let t = trim_end_spec(a);
    lemma_trim_end_idem(a);
    assert(trim_start_spec(t) == t);
}

/// Rounding up by the mask trick, for a power-of-two alignment `a`:
/// the result is a multiple of `a`, at least `e` and less than `e + a`.
pub proof fn lemma_align_up_rounds(e: u32, a: u32)
    requires
        a > 0,
        a & ((a - 1) as u32) == 0,
        e + a <= u32::MAX,
    ensures
        e <= align_up(e, a) < e + a,
        align_up(e, a) % a == 0,
{
    assert(e <= (((e + a - 1) as u32) & !((a - 1) as u32)) && (((e + a - 1) as u32) & !((a - 1) as u32)) < e + a
        && (((e + a - 1) as u32) & !((a - 1) as u32)) % a == 0) by (bit_vector)
        requires
            a > 0,
            a & ((a - 1) as u32) == 0,
            e + a <= 0xffff_ffff,
    ;
}

/// A tuple's fields do not overlap and sit at their alignment: where the
/// alignments are powers of two, field `k + 1` starts at or after the end
/// of field `k`, each field's offset is a multiple of its alignment, and
/// no more padding than the alignment is put before it.
pub proof fn lemma_tuple_fields_laid_out(fields: Seq<MirType>, k: nat)
    requires
        k + 1 < fields.len(),
        tuple_field_offset(fields, k + 1) is Some,
        forall|i: int| 0 <= i < fields.len() ==> (align_of(#[trigger] fields[i]) as u32) & ((align_of(fields[i]) - 1) as u32) == 0,
    ensures
        tuple_field_offset(fields, k) is Some,
        tuple_field_offset(fields, k + 1)->0 >= tuple_field_offset(fields, k)->0 + size_of(fields[k as int]),
        tuple_field_offset(fields, k + 1)->0 < tuple_field_offset(fields, k)->0 + size_of(fields[k as int])
            + align_of(fields[k + 1int]),
        tuple_field_offset(fields, k + 1)->0 % (align_of(fields[k + 1int]) as u32) == 0,
{
    let o = tuple_field_offset(fields, k)->0;
    let e = o + size_of(fields[k as int]);
    let a = align_of(fields[k + 1int]);
    assert(1 <= a && e + a <= u32::MAX);
    lemma_align_up_rounds(e as u32, a as u32);
}


/// Whether terminator `t` can pass control to block `blk`.
pub open spec fn enters(t: Option<MirTerminator>, blk: BlockId) -> bool {
    match t {
        Some(MirTerminator::Goto { target }) => target == blk,
        Some(MirTerminator::Branch { then_block, else_block, .. }) => then_block == blk || else_block == blk,
        Some(MirTerminator::Switch { cases, default, .. }) => default == blk || exists|i: int|
            0 <= i < cases@.len() && (#[trigger] cases@[i]).1 == blk,
        _ => false,
    }
}

/// Whether a statement of form `f` writes local `l`.
pub open spec fn writes(f: StmtForm, l: LocalId) -> bool {
    match f {
        StmtForm::Exact(crate::mir::MirStmt::Assign { dst, .. }) => dst == l,
        StmtForm::CallTo { dst: Some(d), .. } => d == l,
        _ => false,
    }
}

/// Two texts that differ at a position are different.
proof fn lemma_differ_at(a: Seq<char>, b: Seq<char>, i: int)
    requires
        0 <= i < a.len(),
        i < b.len(),
        a[i] != b[i],
    ensures
        a != b,
{
}

/// The runtime functions a sort by key calls, other than `Vec_swap`, are
/// named otherwise.
proof fn lemma_runtime_names_differ()
    ensures
        "Vec_len"@ != "Vec_swap"@,
        "Vec_new"@ != "Vec_swap"@,
        "Vec_get"@ != "Vec_swap"@,
        "Vec_push"@ != "Vec_swap"@,
        "Vec_free"@ != "Vec_swap"@,
        "string_lt"@ != "Vec_swap"@,
{
    reveal_strlit("Vec_swap");
    reveal_strlit("Vec_len");
    reveal_strlit("Vec_new");
    reveal_strlit("Vec_get");
    reveal_strlit("Vec_push");
    reveal_strlit("Vec_free");
    reveal_strlit("string_lt");
    assert("Vec_swap"@ =~= seq!['V', 'e', 'c', '_', 's', 'w', 'a', 'p']);
    assert("Vec_len"@ =~= seq!['V', 'e', 'c', '_', 'l', 'e', 'n']);
    assert("Vec_new"@ =~= seq!['V', 'e', 'c', '_', 'n', 'e', 'w']);
    assert("Vec_get"@ =~= seq!['V', 'e', 'c', '_', 'g', 'e', 't']);
    assert("Vec_push"@ =~= seq!['V', 'e', 'c', '_', 'p', 'u', 's', 'h']);
    assert("Vec_free"@ =~= seq!['V', 'e', 'c', '_', 'f', 'r', 'e', 'e']);
    assert("string_lt"@ =~= seq!['s', 't', 'r', 'i', 'n', 'g', '_', 'l', 't']);
    // Each differs from `Vec_swap` at position 4.
    lemma_differ_at("Vec_len"@, "Vec_swap"@, 4);
    lemma_differ_at("Vec_new"@, "Vec_swap"@, 4);
    lemma_differ_at("Vec_get"@, "Vec_swap"@, 4);
    lemma_differ_at("Vec_push"@, "Vec_swap"@, 4);
    lemma_differ_at("Vec_free"@, "Vec_swap"@, 4);
    lemma_differ_at("string_lt"@, "Vec_swap"@, 4);
}

/// Sorting by key is stable: the emitted insertion sort swaps elements
/// only in its shift block; the only way into that block is the comparison
/// block's branch on `less`; `less` is written once, by a strict `<`
/// (the runtime's `string_lt` for string keys) of the key at `j` against
/// the key at `j - 1`, both read from the keys Vec. So a pair with equal
/// keys is never swapped, and equal keys keep their order. (The key
/// function is taken not to be the runtime's `Vec_swap` itself.)
pub proof fn lemma_sort_by_key_is_stable(n: nat, b: nat, c: BlockId, obj_op: MirOperand, key_fn: Seq<char>, key_ty: crate::mir::MirType)
    requires
        c.0 < b,
        b + 11 <= usize::MAX,
        n + 17 <= usize::MAX,
        key_fn != "Vec_swap"@,
    ensures
        ({
            let forms = sort_forms(n, b, c, obj_op, key_fn, key_ty);
            let terms = sort_terms(n, b);
            let l = |k: nat| LocalId((n + k) as usize);
            let o = |k: nat| local_op(LocalId((n + k) as usize));
            let shift = BlockId((b + 10) as usize);
            let test_blk = BlockId((b + 9) as usize);
            &&& forall|k: int|
                #![trigger forms[k]]
                0 <= k < forms.len() && forms[k].1 is CallTo && forms[k].1->CallTo_func == "Vec_swap"@ ==> forms[k].0
                    == shift
            &&& forall|i: int| #![trigger terms[i]] 0 <= i < terms.len() && enters(terms[i], shift) ==> i == 9
            &&& terms[9] == Some(
                MirTerminator::Branch { cond: o(15), then_block: shift, else_block: BlockId((b + 6) as usize) },
            )
            &&& forall|k: int| #![trigger forms[k]] 0 <= k < forms.len() && writes(forms[k].1, l(15)) ==> k == 17
            &&& forms[17] == (
                test_blk,
                if key_ty is String {
                    call_form(Some(l(15)), "string_lt"@, seq![o(13), o(14)])
                } else {
                    StmtForm::Exact(assign_op(l(15), BinOp::Lt, o(13), o(14)))
                },
            )
            &&& forms[15] == (test_blk, call_form(Some(l(13)), "Vec_get"@, seq![o(2), o(10)]))
            &&& forms[16] == (test_blk, call_form(Some(l(14)), "Vec_get"@, seq![o(2), o(12)]))
            &&& forms[14] == (test_blk, StmtForm::Exact(assign_op(l(12), BinOp::Sub, o(10), crate::iterators::int_op(1))))
        }),
{
    let forms = sort_forms(n, b, c, obj_op, key_fn, key_ty);
    let terms = sort_terms(n, b);
    let shift = BlockId((b + 10) as usize);
    let l = |k: nat| LocalId((n + k) as usize);
    lemma_runtime_names_differ();
    assert forall|k: int|
        #![trigger forms[k]]
        0 <= k < forms.len() && forms[k].1 is CallTo && forms[k].1->CallTo_func == "Vec_swap"@ implies forms[k].0
            == shift by {
    }
    assert forall|i: int| #![trigger terms[i]] 0 <= i < terms.len() && enters(terms[i], shift) implies i == 9 by {
        if i == 0 {} else if i == 1 {} else if i == 2 {} else if i == 3 {} else if i == 4 {} else if i == 5 {
        } else if i == 6 {} else if i == 7 {} else if i == 8 {} else if i == 9 {} else {}
    }
    assert forall|k: int| #![trigger forms[k]] 0 <= k < forms.len() && writes(forms[k].1, l(15)) implies k == 17 by {
        if k == 0 {} else if k == 1 {} else if k == 2 {} else if k == 3 {} else if k == 4 {} else if k == 5 {
        } else if k == 6 {} else if k == 7 {} else if k == 8 {} else if k == 9 {} else if k == 10 {
        } else if k == 11 {} else if k == 12 {} else if k == 13 {} else if k == 14 {} else if k == 15 {
        } else if k == 16 {} else if k == 17 {} else if k == 18 {} else if k == 19 {} else if k == 20 {
        } else if k == 21 {} else if k == 22 {} else {}
    }
}


/// An unchecked operation lowers exactly as the wrapping one: whatever
/// `x.unchecked_add(y)` emits and answers, `x.wrapping_add(y)` does on the
/// same builder, and the same for `sub` and `mul`.
pub proof fn lemma_unchecked_lowers_as_wrapping(
    old: crate::builder::MirBuilder,
    new: crate::builder::MirBuilder,
    args: Seq<MirOperand>,
    obj: MirOperand,
    ty: crate::mir::MirType,
    r: Option<(MirOperand, crate::mir::MirType)>,
)
    ensures
        int_method_lowered(old, new, "unchecked_add"@, args, obj, ty, r) == int_method_lowered(
            old,
            new,
            "wrapping_add"@,
            args,
            obj,
            ty,
            r,
        ),
        int_method_lowered(old, new, "unchecked_sub"@, args, obj, ty, r) == int_method_lowered(
            old,
            new,
            "wrapping_sub"@,
            args,
            obj,
            ty,
            r,
        ),
        int_method_lowered(old, new, "unchecked_mul"@, args, obj, ty, r) == int_method_lowered(
            old,
            new,
            "wrapping_mul"@,
            args,
            obj,
            ty,
            r,
        ),
{
    reveal_strlit("unchecked_add");
    reveal_strlit("unchecked_sub");
    reveal_strlit("unchecked_mul");
    reveal_strlit("wrapping_add");
    reveal_strlit("wrapping_sub");
    reveal_strlit("wrapping_mul");
    reveal_strlit("checked_add");
    reveal_strlit("checked_sub");
    reveal_strlit("checked_mul");
    reveal_strlit("checked_div");
    reveal_strlit("overflowing_add");
    reveal_strlit("overflowing_sub");
    reveal_strlit("overflowing_mul");
    reveal_strlit("rotate_left");
    reveal_strlit("rotate_right");
    assert("wrapping_add"@ =~= seq!['w', 'r', 'a', 'p', 'p', 'i', 'n', 'g', '_', 'a', 'd', 'd']);
    assert("rotate_right"@ =~= seq!['r', 'o', 't', 'a', 't', 'e', '_', 'r', 'i', 'g', 'h', 't']);
    lemma_differ_at("wrapping_add"@, "rotate_right"@, 0);
    assert("wrapping_sub"@ =~= seq!['w', 'r', 'a', 'p', 'p', 'i', 'n', 'g', '_', 's', 'u', 'b']);
    assert("rotate_right"@ =~= seq!['r', 'o', 't', 'a', 't', 'e', '_', 'r', 'i', 'g', 'h', 't']);
    lemma_differ_at("wrapping_sub"@, "rotate_right"@, 0);
    assert("wrapping_mul"@ =~= seq!['w', 'r', 'a', 'p', 'p', 'i', 'n', 'g', '_', 'm', 'u', 'l']);
    assert("rotate_right"@ =~= seq!['r', 'o', 't', 'a', 't', 'e', '_', 'r', 'i', 'g', 'h', 't']);
    lemma_differ_at("wrapping_mul"@, "rotate_right"@, 0);
    assert("wrapping_sub"@ =~= seq!['w', 'r', 'a', 'p', 'p', 'i', 'n', 'g', '_', 's', 'u', 'b']);
    assert("wrapping_add"@ =~= seq!['w', 'r', 'a', 'p', 'p', 'i', 'n', 'g', '_', 'a', 'd', 'd']);
    lemma_differ_at("wrapping_sub"@, "wrapping_add"@, 9);
    assert("wrapping_mul"@ =~= seq!['w', 'r', 'a', 'p', 'p', 'i', 'n', 'g', '_', 'm', 'u', 'l']);
    assert("wrapping_add"@ =~= seq!['w', 'r', 'a', 'p', 'p', 'i', 'n', 'g', '_', 'a', 'd', 'd']);
    lemma_differ_at("wrapping_mul"@, "wrapping_add"@, 9);
    assert("unchecked_sub"@ =~= seq!['u', 'n', 'c', 'h', 'e', 'c', 'k', 'e', 'd', '_', 's', 'u', 'b']);
    assert("unchecked_add"@ =~= seq!['u', 'n', 'c', 'h', 'e', 'c', 'k', 'e', 'd', '_', 'a', 'd', 'd']);
    lemma_differ_at("unchecked_sub"@, "unchecked_add"@, 10);
    assert("unchecked_mul"@ =~= seq!['u', 'n', 'c', 'h', 'e', 'c', 'k', 'e', 'd', '_', 'm', 'u', 'l']);
    assert("unchecked_add"@ =~= seq!['u', 'n', 'c', 'h', 'e', 'c', 'k', 'e', 'd', '_', 'a', 'd', 'd']);
    lemma_differ_at("unchecked_mul"@, "unchecked_add"@, 10);
    assert("unchecked_mul"@ =~= seq!['u', 'n', 'c', 'h', 'e', 'c', 'k', 'e', 'd', '_', 'm', 'u', 'l']);
    assert("unchecked_sub"@ =~= seq!['u', 'n', 'c', 'h', 'e', 'c', 'k', 'e', 'd', '_', 's', 'u', 'b']);
    lemma_differ_at("unchecked_mul"@, "unchecked_sub"@, 10);
    assert("wrapping_mul"@ =~= seq!['w', 'r', 'a', 'p', 'p', 'i', 'n', 'g', '_', 'm', 'u', 'l']);
    assert("wrapping_sub"@ =~= seq!['w', 'r', 'a', 'p', 'p', 'i', 'n', 'g', '_', 's', 'u', 'b']);
    lemma_differ_at("wrapping_mul"@, "wrapping_sub"@, 9);
    assert(fallible_ops("unchecked_add"@) is None);
    assert(fallible_ops("unchecked_sub"@) is None);
    assert(fallible_ops("unchecked_mul"@) is None);
    assert(fallible_ops("wrapping_add"@) is None);
    assert(fallible_ops("wrapping_sub"@) is None);
    assert(fallible_ops("wrapping_mul"@) is None);
    assert(int_binary_op("unchecked_add"@) == int_binary_op("wrapping_add"@));
    assert(int_binary_op("unchecked_sub"@) == int_binary_op("wrapping_sub"@));
    assert(int_binary_op("unchecked_mul"@) == int_binary_op("wrapping_mul"@));
}

/// The runtime's string comparison answers -1, 0 or 1; adding the tag of
/// `Equal` lands each on the comparison result's tag for `Less`, `Equal`
/// and `Greater`, in that order.
pub proof fn lemma_string_compare_shift_lands_on_tags()
    ensures
        -1 + ORDERING_EQUAL == ORDERING_LESS,
        0 + ORDERING_EQUAL == ORDERING_EQUAL,
        1 + ORDERING_EQUAL == ORDERING_GREATER,
        ORDERING_LESS < ORDERING_EQUAL < ORDERING_GREATER,
{
}


/// `s` split at every `c`, as std's `split` does: `n` separators give
/// `n + 1` pieces, empty ones included.
pub open spec fn split_on(s: Seq<char>, c: char) -> Seq<Seq<char>>
    decreases s.len(),
{
    if s.len() == 0 {
        seq![Seq::empty()]
    } else {
        let p = split_on(s.drop_last(), c);
        if s.last() == c {
            p.push(Seq::empty())
        } else {
            p.update(p.len() - 1, p.last().push(s.last()))
        }
    }
}

/// The pieces of `s.split(',')`, each trimmed, with a final piece that is
/// empty once trimmed dropped.
pub open spec fn std_split_trimmed(s: Seq<char>) -> Seq<Seq<char>> {
    let v = split_on(s, ',').map_values(|p: Seq<char>| trim_spec(p));
    if v.last().len() == 0 {
        v.drop_last()
    } else {
        v
    }
}

/// Without angle brackets, no position is nested.
proof fn lemma_depth_zero_without_angles(s: Seq<char>, i: int)
    requires
        0 <= i <= s.len(),
        forall|k: int| 0 <= k < s.len() ==> s[k] != '<' && s[k] != '>',
    ensures
        angle_depth(s, i) == 0,
    decreases i,
{
    if i > 0 {
        lemma_depth_zero_without_angles(s, i - 1);
    }
}

/// Reading `s` up to `i` without angle brackets: the closed pieces are the
/// trimmed pieces of `split` on the prefix but its last, and that last one
/// is the open piece.
proof fn lemma_split_prefix_is_split_on(s: Seq<char>, i: int)
    requires
        0 <= i <= s.len(),
        forall|k: int| 0 <= k < s.len() ==> s[k] != '<' && s[k] != '>',
    ensures
        ({
            let (out, start) = split_prefix(s, i);
            let q = split_on(s.subrange(0, i), ',');
            &&& 0 <= start <= i
            &&& q.len() == out.len() + 1
            &&& forall|k: int| 0 <= k < out.len() ==> out[k] == trim_spec(#[trigger] q[k])
            &&& q.last() == s.subrange(start, i)
        }),
    decreases i,
{
    if i == 0 {
        assert(s.subrange(0, 0) =~= Seq::<char>::empty());
        assert(s.subrange(0, 0) =~= s.subrange(0, 0));
    } else {
        lemma_split_prefix_is_split_on(s, i - 1);
        lemma_depth_zero_without_angles(s, i - 1);
        let (out0, start0) = split_prefix(s, i - 1);
        let pre = s.subrange(0, i);
        assert(pre.drop_last() =~= s.subrange(0, i - 1));
        assert(pre.last() == s[i - 1]);
        let q0 = split_on(s.subrange(0, i - 1), ',');
        if s[i - 1] == ',' {
            assert(is_top_comma(s, i - 1));
            assert(s.subrange(i, i) =~= Seq::<char>::empty());
        } else {
            assert(!is_top_comma(s, i - 1));
            assert(s.subrange(start0, i) =~= s.subrange(start0, i - 1).push(s[i - 1]));
        }
    }
}

/// Without angle brackets, `split_type_args` is std's `split(',')` with
/// each piece trimmed and a blank final piece dropped: `""` gives nothing,
/// `"a, b,"` gives `a` and `b`, and `"a,,b"` keeps the empty middle piece.
pub proof fn lemma_split_type_args_plain(s: Seq<char>)
    requires
        forall|k: int| 0 <= k < s.len() ==> s[k] != '<' && s[k] != '>',
    ensures
        split_type_args_spec(s) == std_split_trimmed(s),
{
    lemma_split_prefix_is_split_on(s, s.len() as int);
    assert(s.subrange(0, s.len() as int) =~= s);
    let (out, start) = split_prefix(s, s.len() as int);
    let q = split_on(s, ',');
    let v = q.map_values(|p: Seq<char>| trim_spec(p));
    let tail = trim_spec(s.subrange(start, s.len() as int));
    assert(v.last() == tail);
    if tail.len() > 0 {
        assert(split_type_args_spec(s) =~= v);
    } else {
        assert(split_type_args_spec(s) =~= v.drop_last());
    }
}

} // verus!
