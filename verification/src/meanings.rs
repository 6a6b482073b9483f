//! What lowered code means: laws that tie what the lowering emits or picks
//! to the meaning of the source construct, stated over the running model
//! (`runtime`) and over the types' widths and signedness, independently
//! of the tables the lowering uses.

use vstd::prelude::*;
use vstd::arithmetic::power2::{lemma2_to64, lemma2_to64_rest, pow2};
use crate::ast::BinaryOp;
use crate::builder::MirBuilder;
use crate::expr::{int_bounds, primitive_constant_spec};
use crate::expr_lowering::{binary_done, mir_binop};
use crate::int_methods::fallible_ops;
use crate::iterators::extreme_updated;
use crate::lowerer::LoweringError;
use crate::method_names::{final_callee_spec, has_prefix_spec, parse_variant_spec};
use crate::mir::{
    is_unsigned_ty, size_of, BinOp, BlockId, LocalId, MirConst, MirOperand, MirStmt, MirType,
};
use crate::runtime::{
    binop_eval, div_toward_zero, eval, give, made_before, run_block, run_stmts, step, stmts_in, word, Machine,
};

verus! {

// ---------------------------------------------------------------------
// Binary operators keep their meaning.
// ---------------------------------------------------------------------

/// What a source binary operator means on two integers: the arithmetic
/// (division and remainder rounding toward zero, nothing for a zero
/// divisor), a comparison as a truth word, or a shift (nothing for a
/// negative amount; a right shift rounds down).
pub open spec fn source_binary(op: BinaryOp, a: int, b: int) -> Option<int> {
    match op {
        BinaryOp::Add => Some(a + b),
        BinaryOp::Sub => Some(a - b),
        BinaryOp::Mul => Some(a * b),
        BinaryOp::Div => if b != 0 {
            Some(div_toward_zero(a, b))
        } else {
            None
        },
        BinaryOp::Mod => if b != 0 {
            Some(a - b * div_toward_zero(a, b))
        } else {
            None
        },
        BinaryOp::Eq => Some(word(a == b)),
        BinaryOp::Ne => Some(word(a != b)),
        BinaryOp::Lt => Some(word(a < b)),
        BinaryOp::Le => Some(word(a <= b)),
        BinaryOp::Gt => Some(word(a > b)),
        BinaryOp::Ge => Some(word(a >= b)),
        BinaryOp::Shl => if b >= 0 {
            Some(a * pow2(b as nat))
        } else {
            None
        },
        BinaryOp::Shr => if b >= 0 {
            Some(a / (pow2(b as nat) as int))
        } else {
            None
        },
    }
}

/// The operators whose value is a truth value: the comparisons.
pub open spec fn is_truth_valued(op: BinaryOp) -> bool {
    forall|a: int, b: int| #[trigger] source_binary(op, a, b) matches Some(v) && (v == 0 || v == 1)
}

/// The MIR operator each source operator lowers to computes what the
/// source operator means, on every pair of words.
pub proof fn lemma_operator_keeps_its_meaning(op: BinaryOp, a: int, b: int)
    ensures
        binop_eval(mir_binop(op), a, b) == source_binary(op, a, b),
{
}

/// A lowered binary expression computes what its operator means: running
/// the assignment `lower_expr` emits for `left op right`, on any machine
/// where the operands' words are `a` and `b` and the operator is defined,
/// writes the operator's meaning on `a` and `b` into the temp that is the
/// answer. A comparison's answer is typed `bool`, any other keeps its left
/// operand's type.
pub proof fn lemma_binary_computes_its_meaning(
    old: MirBuilder,
    new: MirBuilder,
    op: BinaryOp,
    left: (MirOperand, MirType),
    right: MirOperand,
    r: Result<(MirOperand, MirType), LoweringError>,
    m: Machine,
)
    requires
        binary_done(old, new, op, left, right, r),
        source_binary(op, eval(m, left.0), eval(m, right)) is Some,
    ensures
        ({
            let t = LocalId(old.locals@.len() as usize);
            &&& r matches Ok((MirOperand::Local(u), _)) && u == t
            &&& r matches Ok((_, ty)) && (if is_truth_valued(op) {
                ty is Bool
            } else {
                ty == left.1
            })
            &&& step(m, new.stmts@.last().stmt) == Some(
                give(m, Some(t), source_binary(op, eval(m, left.0), eval(m, right))->0),
            )
        }),
{
    lemma_operator_keeps_its_meaning(op, eval(m, left.0), eval(m, right));
    match op {
        BinaryOp::Add => {
            assert(source_binary(op, 0, 2) == Some(2int));
        },
        BinaryOp::Sub => {
            assert(source_binary(op, 0, -2) == Some(2int));
        },
        BinaryOp::Mul => {
            assert(source_binary(op, 1, 2) == Some(2int));
        },
        BinaryOp::Div => {
            assert(source_binary(op, 1, 0) is None);
        },
        BinaryOp::Mod => {
            assert(source_binary(op, 1, 0) is None);
        },
        BinaryOp::Shl => {
            assert(source_binary(op, 1, -1) is None);
        },
        BinaryOp::Shr => {
            assert(source_binary(op, 1, -1) is None);
        },
        _ => {},
    }
}

// ---------------------------------------------------------------------
// min and max keep the running extreme.
// ---------------------------------------------------------------------

/// The running extreme after one more element `x`: `x` when there was
/// none yet; otherwise the greater (for a maximum) or the lesser (for a
/// minimum) of the two, keeping the earlier one on a tie.
pub open spec fn extreme_step(want_max: bool, empty: bool, cur: int, x: int) -> int {
    if empty {
        x
    } else if want_max {
        if x > cur {
            x
        } else {
            cur
        }
    } else {
        if x < cur {
            x
        } else {
            cur
        }
    }
}

/// The running extreme of a non-empty sequence, element by element.
pub open spec fn running_extreme(xs: Seq<int>, want_max: bool) -> int
    decreases xs.len(),
{
    if xs.len() <= 1 {
        xs[0]
    } else {
        extreme_step(want_max, false, running_extreme(xs.drop_last(), want_max), xs.last())
    }
}

/// Taking the running extreme element by element gives the extreme: one
/// of the elements, at least (for a maximum) or at most (for a minimum)
/// every element, and the first such on a tie.
pub proof fn lemma_running_extreme_is_the_extreme(xs: Seq<int>, want_max: bool)
    requires
        xs.len() >= 1,
    ensures
        ({
            let e = running_extreme(xs, want_max);
            &&& exists|i: int| 0 <= i < xs.len() && xs[i] == e && forall|j: int| 0 <= j < i ==> #[trigger] xs[j] != e
            &&& forall|j: int| 0 <= j < xs.len() ==> if want_max {
                #[trigger] xs[j] <= e
            } else {
                e <= xs[j]
            }
        }),
    decreases xs.len(),
{
    let e = running_extreme(xs, want_max);
    if xs.len() == 1 {
        assert(xs[0] == e && forall|j: int| 0 <= j < 0 ==> #[trigger] xs[j] != e);
    } else {
        let init = xs.drop_last();
        lemma_running_extreme_is_the_extreme(init, want_max);
        let p = running_extreme(init, want_max);
        let k = xs.len() - 1;
        let x = xs[k];
        assert(x == xs.last());
        assert(e == extreme_step(want_max, false, p, x));
        let i = choose|i: int| 0 <= i < init.len() && init[i] == p && forall|j: int| 0 <= j < i ==> #[trigger] init[j] != p;
        assert forall|j: int| 0 <= j < xs.len() implies if want_max {
            #[trigger] xs[j] <= e
        } else {
            e <= xs[j]
        } by {
            if j < init.len() {
                assert(xs[j] == init[j]);
            }
        }
        if e == p {
            assert(xs[i] == init[i]);
            assert forall|j: int| 0 <= j < i implies #[trigger] xs[j] != e by {
                assert(xs[j] == init[j]);
            }
            assert(0 <= i < xs.len() && xs[i] == e && forall|j: int| 0 <= j < i ==> #[trigger] xs[j] != e);
        } else {
            assert(e == x);
            assert forall|j: int| 0 <= j < k implies #[trigger] xs[j] != e by {
                assert(xs[j] == init[j]);
                if want_max {
                    assert(init[j] <= p);
                } else {
                    assert(p <= init[j]);
                }
            }
            assert(0 <= k < xs.len() && xs[k] == e && forall|j: int| 0 <= j < k ==> #[trigger] xs[j] != e);
        }
    }
}

/// One element through a `min`/`max` loop's update, run: from a machine
/// where the result slot holds a valid tag (1 for none yet) and the
/// running extreme `cur`, and the element's word is `x`, control goes on
/// (through the store block, or straight to the increment block) with the
/// slot holding tag 0 and `extreme_step(want_max, none yet, cur, x)`. With
/// `lemma_running_extreme_is_the_extreme`, the slot holds the least (for
/// `min`) or greatest (for `max`) element yielded, the first on a tie.
pub proof fn lemma_extreme_update_runs(
    old: MirBuilder,
    new: MirBuilder,
    result: LocalId,
    value: MirOperand,
    want_max: bool,
    inc: BlockId,
    m0: Machine,
)
    requires
        old.wf(),
        old.terms@.len() + 1 <= usize::MAX,
        old.locals@.len() + 5 <= usize::MAX,
        extreme_updated(old, new, result, value, want_max, inc),
        inc.0 < old.terms@.len(),
        result.0 < old.locals@.len(),
        made_before(value, old.locals@.len()),
        m0.mem[(result, 0u32)] == 0 || m0.mem[(result, 0u32)] == 1,
    ensures
        ({
            let m = old.stmts@.len() as int;
            let store = BlockId(old.terms@.len() as usize);
            let x = eval(m0, value);
            let best = extreme_step(want_max, m0.mem[(result, 0u32)] == 1, m0.mem[(result, 8u32)], x);
            let r1 = run_block(new, old.current, m, m0);
            let (m1, t1) = r1->0;
            let r2 = run_stmts(m1, stmts_in(new.stmts@, store, m));
            let after = if t1 == store {
                r2->0.mem
            } else {
                m1.mem
            };
            &&& r1 is Some
            &&& t1 == store || t1 == inc
            &&& t1 == store ==> r2 is Some
            &&& after[(result, 0u32)] == 0
            &&& after[(result, 8u32)] == best
        }),
{
    let n = old.locals@.len();
    let m = old.stmts@.len() as int;
    let c = old.current;
    let store = BlockId(old.terms@.len() as usize);
    let s = new.stmts@;
    assert(c.0 < old.terms@.len());
    assert(s.len() == m + 7);
    assert(s[m + 0].block == c);
    assert(s[m + 1].block == c);
    assert(s[m + 2].block == c);
    assert(s[m + 3].block == c);
    assert(s[m + 4].block == c);
    assert(s[m + 5].block == store);
    assert(s[m + 6].block == store);
    assert(stmts_in(s, c, m + 7) =~= Seq::<MirStmt>::empty());
    assert(stmts_in(s, c, m + 6) =~= Seq::<MirStmt>::empty());
    assert(stmts_in(s, c, m + 5) =~= Seq::<MirStmt>::empty());
    assert(stmts_in(s, c, m + 4) =~= seq![s[m + 4].stmt]);
    assert(stmts_in(s, c, m + 3) =~= seq![s[m + 3].stmt, s[m + 4].stmt]);
    assert(stmts_in(s, c, m + 2) =~= seq![s[m + 2].stmt, s[m + 3].stmt, s[m + 4].stmt]);
    assert(stmts_in(s, c, m + 1) =~= seq![s[m + 1].stmt, s[m + 2].stmt, s[m + 3].stmt, s[m + 4].stmt]);
    let ss = seq![s[m].stmt, s[m + 1].stmt, s[m + 2].stmt, s[m + 3].stmt, s[m + 4].stmt];
    assert(stmts_in(s, c, m) =~= ss);
    assert(stmts_in(s, store, m + 7) =~= Seq::<MirStmt>::empty());
    assert(stmts_in(s, store, m + 6) =~= seq![s[m + 6].stmt]);
    assert(stmts_in(s, store, m + 5) =~= seq![s[m + 5].stmt, s[m + 6].stmt]);
    assert(stmts_in(s, store, m + 4) =~= seq![s[m + 5].stmt, s[m + 6].stmt]);
    assert(stmts_in(s, store, m + 3) =~= seq![s[m + 5].stmt, s[m + 6].stmt]);
    assert(stmts_in(s, store, m + 2) =~= seq![s[m + 5].stmt, s[m + 6].stmt]);
    assert(stmts_in(s, store, m + 1) =~= seq![s[m + 5].stmt, s[m + 6].stmt]);
    let st = seq![s[m + 5].stmt, s[m + 6].stmt];
    assert(stmts_in(s, store, m) =~= st);
    let ma = step(m0, ss[0])->0;
    let mb = step(ma, ss[1])->0;
    let mc = step(mb, ss[2])->0;
    let md = step(mc, ss[3])->0;
    let me = step(md, ss[4])->0;
    assert(step(m0, ss[0]) is Some);
    assert(step(ma, ss[1]) is Some);
    assert(step(mb, ss[2]) is Some);
    assert(step(mc, ss[3]) is Some);
    assert(step(md, ss[4]) is Some);
    assert(run_stmts(me, Seq::<MirStmt>::empty()) == Some(me));
    assert(ss.drop_first().drop_first().drop_first().drop_first().drop_first() =~= Seq::<MirStmt>::empty());
    assert(run_stmts(md, ss.drop_first().drop_first().drop_first().drop_first()) == Some(me));
    assert(run_stmts(mc, ss.drop_first().drop_first().drop_first()) == Some(me));
    assert(run_stmts(mb, ss.drop_first().drop_first()) == Some(me));
    assert(run_stmts(ma, ss.drop_first()) == Some(me));
    assert(run_stmts(m0, ss) == Some(me));
    assert(me.mem == m0.mem);
    assert(eval(me, value) == eval(m0, value));
    let x = eval(m0, value);
    let cur = m0.mem[(result, 8u32)];
    let empty = m0.mem[(result, 0u32)] == 1;
    assert(md.vals[LocalId((n + 3) as usize)] == word(if want_max { x > cur } else { x < cur }));
    assert(me.vals[LocalId((n + 4) as usize)] == word(empty || if want_max { x > cur } else { x < cur }));
    let mf = step(me, st[0])->0;
    let mg = step(mf, st[1])->0;
    assert(step(me, st[0]) is Some);
    assert(step(mf, st[1]) is Some);
    assert(run_stmts(mg, Seq::<MirStmt>::empty()) == Some(mg));
    assert(st.drop_first().drop_first() =~= Seq::<MirStmt>::empty());
    assert(run_stmts(mf, st.drop_first()) == Some(mg));
    assert(run_stmts(me, st) == Some(mg));
}

// ---------------------------------------------------------------------
// Names of the number types, from their width and signedness.
// ---------------------------------------------------------------------

/// A width in bits, written out.
pub open spec fn bits_text(bits: nat) -> Seq<char> {
    if bits == 8 {
        "8"@
    } else if bits == 16 {
        "16"@
    } else if bits == 32 {
        "32"@
    } else if bits == 64 {
        "64"@
    } else {
        "128"@
    }
}

/// A number type's name, from what it is: `f` for a float, `u` for an
/// unsigned integer, `i` otherwise, followed by its width in bits.
pub open spec fn number_type_name(t: MirType) -> Seq<char> {
    (if t is F32 || t is F64 {
        "f"@
    } else if is_unsigned_ty(t) {
        "u"@
    } else {
        "i"@
    }) + bits_text(size_of(t) * 8)
}

/// The integer types of at most 64 bits.
pub open spec fn is_word_int(t: MirType) -> bool {
    t is I8 || t is I16 || t is I32 || t is I64 || t is U8 || t is U16 || t is U32 || t is U64
}

/// The number types a string can be parsed into by a runtime variant.
pub open spec fn is_parsed_number(t: MirType) -> bool {
    is_word_int(t) || t is F32 || t is F64
}

proof fn lemma_parse_names()
    ensures
        "string_parse_f32"@ == "string_parse_"@ + ("f"@ + "32"@),
        "string_parse_f64"@ == "string_parse_"@ + ("f"@ + "64"@),
        "string_parse_i8"@ == "string_parse_"@ + ("i"@ + "8"@),
        "string_parse_i16"@ == "string_parse_"@ + ("i"@ + "16"@),
        "string_parse_i32"@ == "string_parse_"@ + ("i"@ + "32"@),
        "string_parse_i64"@ == "string_parse_"@ + ("i"@ + "64"@),
        "string_parse_u8"@ == "string_parse_"@ + ("u"@ + "8"@),
        "string_parse_u16"@ == "string_parse_"@ + ("u"@ + "16"@),
        "string_parse_u32"@ == "string_parse_"@ + ("u"@ + "32"@),
        "string_parse_u64"@ == "string_parse_"@ + ("u"@ + "64"@),
{
    reveal_strlit("string_parse_");
    reveal_strlit("string_parse_f32");
    reveal_strlit("string_parse_f64");
    reveal_strlit("string_parse_i8");
    reveal_strlit("string_parse_i16");
    reveal_strlit("string_parse_i32");
    reveal_strlit("string_parse_i64");
    reveal_strlit("string_parse_u8");
    reveal_strlit("string_parse_u16");
    reveal_strlit("string_parse_u32");
    reveal_strlit("string_parse_u64");
    reveal_strlit("f");
    reveal_strlit("i");
    reveal_strlit("u");
    reveal_strlit("8");
    reveal_strlit("16");
    reveal_strlit("32");
    reveal_strlit("64");
    assert("string_parse_f32"@ =~= "string_parse_"@ + ("f"@ + "32"@));
    assert("string_parse_f64"@ =~= "string_parse_"@ + ("f"@ + "64"@));
    assert("string_parse_i8"@ =~= "string_parse_"@ + ("i"@ + "8"@));
    assert("string_parse_i16"@ =~= "string_parse_"@ + ("i"@ + "16"@));
    assert("string_parse_i32"@ =~= "string_parse_"@ + ("i"@ + "32"@));
    assert("string_parse_i64"@ =~= "string_parse_"@ + ("i"@ + "64"@));
    assert("string_parse_u8"@ =~= "string_parse_"@ + ("u"@ + "8"@));
    assert("string_parse_u16"@ =~= "string_parse_"@ + ("u"@ + "16"@));
    assert("string_parse_u32"@ =~= "string_parse_"@ + ("u"@ + "32"@));
    assert("string_parse_u64"@ =~= "string_parse_"@ + ("u"@ + "64"@));
}

/// A parse writes into its result slot with the slot's own type: for a
/// slot whose payload is a number type, the runtime variant is
/// `string_parse_` followed by that type's name (its kind and width); for
/// any other payload there is none. So a `string_parse*` call into such a
/// slot is that variant, whatever the call was first named.
pub proof fn lemma_parse_follows_its_slot(
    t: MirType,
    err: MirType,
    q: Seq<char>,
    n_args: nat,
    elem_is_string: bool,
    elem_is_float: bool,
    has_comparator: bool,
)
    ensures
        ({
            let slot = MirType::Result { ok: Box::new(t), err: Box::new(err) };
            &&& parse_variant_spec(slot) == if is_parsed_number(t) {
                Some("string_parse_"@ + number_type_name(t))
            } else {
                None
            }
            &&& has_prefix_spec(q, "string_parse"@) && is_parsed_number(t) ==> final_callee_spec(
                q,
                slot,
                n_args,
                elem_is_string,
                elem_is_float,
                has_comparator,
            ) == ("string_parse_"@ + number_type_name(t), false)
        }),
{
    lemma_parse_names();
}

// ---------------------------------------------------------------------
// The integer types' constants are their bounds.
// ---------------------------------------------------------------------

/// `T.MIN` and `T.MAX` on an integer type name are the type's bounds, from
/// its width and signedness: for an unsigned type, 0 and `2^bits - 1` (for
/// 64 bits, the bit pattern of that, -1); for a signed one, `-2^(bits-1)`
/// and `2^(bits-1) - 1`. The type answered is the one named (`isize` and
/// `usize` name the 64-bit types), and every such name has its bounds.
pub proof fn lemma_int_constants_are_the_bounds(name: Seq<char>, t: MirType)
    ensures
        int_bounds(name) matches Some((lo, hi, u)) ==> {
            let bits = size_of(u) * 8;
            &&& is_word_int(u)
            &&& name == number_type_name(u) || (name == "isize"@ && u is I64) || (name == "usize"@ && u is U64)
            &&& is_unsigned_ty(u) ==> lo == 0 && if bits == 64 {
                hi == -1
            } else {
                hi == pow2(bits) - 1
            }
            &&& !is_unsigned_ty(u) ==> lo == -pow2((bits - 1) as nat) && hi == pow2((bits - 1) as nat) - 1
            &&& primitive_constant_spec(name, "MIN"@) == Some((MirOperand::Constant(MirConst::Int(lo)), u))
            &&& primitive_constant_spec(name, "MAX"@) == Some((MirOperand::Constant(MirConst::Int(hi)), u))
        },
        is_word_int(t) ==> (int_bounds(number_type_name(t)) matches Some((_, _, u)) && u == t),
{
    lemma2_to64();
    lemma2_to64_rest();
    reveal_strlit("i8");
    reveal_strlit("i16");
    reveal_strlit("i32");
    reveal_strlit("i64");
    reveal_strlit("u8");
    reveal_strlit("u16");
    reveal_strlit("u32");
    reveal_strlit("u64");
    reveal_strlit("isize");
    reveal_strlit("usize");
    reveal_strlit("f32");
    reveal_strlit("f64");
    reveal_strlit("f");
    reveal_strlit("i");
    reveal_strlit("u");
    reveal_strlit("8");
    reveal_strlit("16");
    reveal_strlit("32");
    reveal_strlit("64");
    assert("i8"@ =~= seq!['i', '8']);
    assert("i16"@ =~= seq!['i', '1', '6']);
    assert("i32"@ =~= seq!['i', '3', '2']);
    assert("i64"@ =~= seq!['i', '6', '4']);
    assert("u8"@ =~= seq!['u', '8']);
    assert("u16"@ =~= seq!['u', '1', '6']);
    assert("u32"@ =~= seq!['u', '3', '2']);
    assert("u64"@ =~= seq!['u', '6', '4']);
    assert("i8"@ =~= "i"@ + "8"@);
    assert("i16"@ =~= "i"@ + "16"@);
    assert("i32"@ =~= "i"@ + "32"@);
    assert("i64"@ =~= "i"@ + "64"@);
    assert("u8"@ =~= "u"@ + "8"@);
    assert("u16"@ =~= "u"@ + "16"@);
    assert("u32"@ =~= "u"@ + "32"@);
    assert("u64"@ =~= "u"@ + "64"@);
    assert("f32"@ =~= seq!['f', '3', '2']);
    assert("f64"@ =~= seq!['f', '6', '4']);
    assert("isize"@ =~= seq!['i', 's', 'i', 'z', 'e']);
    assert("usize"@ =~= seq!['u', 's', 'i', 'z', 'e']);
    assert(number_type_name(MirType::I8) == "i8"@);
    assert(number_type_name(MirType::I16) == "i16"@);
    assert(number_type_name(MirType::I32) == "i32"@);
    assert(number_type_name(MirType::I64) == "i64"@);
    assert(number_type_name(MirType::U8) == "u8"@);
    assert(number_type_name(MirType::U16) == "u16"@);
    assert(number_type_name(MirType::U32) == "u32"@);
    assert(number_type_name(MirType::U64) == "u64"@);
    assert("f32"@ != "i8"@ && "f32"@ != "i16"@ && "f32"@ != "i32"@ && "f32"@ != "i64"@ && "f32"@ != "isize"@);
    assert("f32"@ != "u8"@ && "f32"@ != "u16"@ && "f32"@ != "u32"@ && "f32"@ != "u64"@ && "f32"@ != "usize"@);
    assert("f64"@ != "i8"@ && "f64"@ != "i16"@ && "f64"@ != "i32"@ && "f64"@ != "i64"@ && "f64"@ != "isize"@);
    assert("f64"@ != "u8"@ && "f64"@ != "u16"@ && "f64"@ != "u32"@ && "f64"@ != "u64"@ && "f64"@ != "usize"@);
    reveal_strlit("MIN");
    reveal_strlit("MAX");
    assert("MIN"@ =~= seq!['M', 'I', 'N']);
    assert("MAX"@ =~= seq!['M', 'A', 'X']);
    assert("MIN"@ != "MAX"@);
    if name == "i8"@ {
    } else if name == "i16"@ {
    } else if name == "i32"@ {
    } else if name == "i64"@ {
    } else if name == "isize"@ {
    } else if name == "u8"@ {
    } else if name == "u16"@ {
    } else if name == "u32"@ {
    } else if name == "u64"@ {
    } else if name == "usize"@ {
    } else {
    }
    if t is I8 {
    } else if t is I16 {
        assert("i16"@ != "i8"@);
    } else if t is I32 {
        assert("i32"@ != "i8"@ && "i32"@ != "i16"@);
    } else if t is I64 {
        assert("i64"@ != "i8"@ && "i64"@ != "i16"@ && "i64"@ != "i32"@);
    } else if t is U8 {
        assert("u8"@ != "i8"@ && "u8"@ != "i16"@ && "u8"@ != "i32"@ && "u8"@ != "i64"@ && "u8"@ != "isize"@);
    } else if t is U16 {
        assert("u16"@ != "i8"@ && "u16"@ != "i16"@ && "u16"@ != "i32"@ && "u16"@ != "i64"@ && "u16"@ != "isize"@
            && "u16"@ != "u8"@);
    } else if t is U32 {
        assert("u32"@ != "i8"@ && "u32"@ != "i16"@ && "u32"@ != "i32"@ && "u32"@ != "i64"@ && "u32"@ != "isize"@
            && "u32"@ != "u8"@ && "u32"@ != "u16"@);
    } else if t is U64 {
        assert("u64"@ != "i8"@ && "u64"@ != "i16"@ && "u64"@ != "i32"@ && "u64"@ != "i64"@ && "u64"@ != "isize"@
            && "u64"@ != "u8"@ && "u64"@ != "u16"@ && "u64"@ != "u32"@);
    }
}

// ---------------------------------------------------------------------
// Checked and overflowing arithmetic compute what they are named for.
// ---------------------------------------------------------------------

/// The mathematical operation an arithmetic operator is built on, before
/// any wrap, saturation or overflow test: the sum, difference, product or
/// quotient (rounding toward zero; nothing for a zero divisor).
pub open spec fn arith_core(op: BinOp, a: int, b: int) -> Option<int> {
    match op {
        BinOp::Add | BinOp::WrappingAdd | BinOp::SaturatingAdd | BinOp::OverflowAdd => Some(a + b),
        BinOp::Sub | BinOp::WrappingSub | BinOp::SaturatingSub | BinOp::OverflowSub => Some(a - b),
        BinOp::Mul | BinOp::WrappingMul | BinOp::SaturatingMul | BinOp::OverflowMul => Some(a * b),
        BinOp::Div | BinOp::OverflowDiv => if b != 0 {
            Some(div_toward_zero(a, b))
        } else {
            None
        },
        _ => None,
    }
}

/// Whether the operator is an overflow test.
pub open spec fn is_overflow_test(op: BinOp) -> bool {
    op is OverflowAdd || op is OverflowSub || op is OverflowMul || op is OverflowDiv
}

/// `s` ends with `suffix`.
pub open spec fn has_suffix(s: Seq<char>, suffix: Seq<char>) -> bool {
    suffix.len() <= s.len() && s.subrange(s.len() - suffix.len(), s.len() as int) == suffix
}

/// The operation a method's name calls for, by its last word: `_add`,
/// `_sub`, `_mul` or `_div`.
pub open spec fn named_arith(method: Seq<char>, a: int, b: int) -> Option<int> {
    if has_suffix(method, "_add"@) {
        Some(a + b)
    } else if has_suffix(method, "_sub"@) {
        Some(a - b)
    } else if has_suffix(method, "_mul"@) {
        Some(a * b)
    } else if has_suffix(method, "_div"@) {
        if b != 0 {
            Some(div_toward_zero(a, b))
        } else {
            None
        }
    } else {
        None
    }
}

proof fn lemma_method_words()
    ensures
        has_suffix("checked_add"@, "_add"@),
        has_suffix("overflowing_add"@, "_add"@),
        !has_suffix("checked_sub"@, "_add"@) && has_suffix("checked_sub"@, "_sub"@),
        !has_suffix("overflowing_sub"@, "_add"@) && has_suffix("overflowing_sub"@, "_sub"@),
        !has_suffix("checked_mul"@, "_add"@) && !has_suffix("checked_mul"@, "_sub"@) && has_suffix(
            "checked_mul"@,
            "_mul"@,
        ),
        !has_suffix("overflowing_mul"@, "_add"@) && !has_suffix("overflowing_mul"@, "_sub"@) && has_suffix(
            "overflowing_mul"@,
            "_mul"@,
        ),
        !has_suffix("checked_div"@, "_add"@) && !has_suffix("checked_div"@, "_sub"@) && !has_suffix(
            "checked_div"@,
            "_mul"@,
        ) && has_suffix("checked_div"@, "_div"@),
        has_suffix("overflowing_add"@, "ing_add"@),
        has_suffix("overflowing_sub"@, "ing_sub"@),
        has_suffix("overflowing_mul"@, "ing_mul"@),
        !has_suffix("checked_add"@, "ing_add"@) && !has_suffix("checked_add"@, "ing_sub"@) && !has_suffix(
            "checked_add"@,
            "ing_mul"@,
        ),
        !has_suffix("checked_sub"@, "ing_add"@) && !has_suffix("checked_sub"@, "ing_sub"@) && !has_suffix(
            "checked_sub"@,
            "ing_mul"@,
        ),
        !has_suffix("checked_mul"@, "ing_add"@) && !has_suffix("checked_mul"@, "ing_sub"@) && !has_suffix(
            "checked_mul"@,
            "ing_mul"@,
        ),
        !has_suffix("checked_div"@, "ing_add"@) && !has_suffix("checked_div"@, "ing_sub"@) && !has_suffix(
            "checked_div"@,
            "ing_mul"@,
        ),
{
    reveal_strlit("checked_add");
    reveal_strlit("checked_sub");
    reveal_strlit("checked_mul");
    reveal_strlit("checked_div");
    reveal_strlit("overflowing_add");
    reveal_strlit("overflowing_sub");
    reveal_strlit("overflowing_mul");
    reveal_strlit("_add");
    reveal_strlit("_sub");
    reveal_strlit("_mul");
    reveal_strlit("_div");
    reveal_strlit("ing_add");
    reveal_strlit("ing_sub");
    reveal_strlit("ing_mul");
    assert("checked_add"@.subrange(7, 11) =~= "_add"@);
    assert("overflowing_add"@.subrange(11, 15) =~= "_add"@);
    assert("checked_sub"@.subrange(7, 11) =~= "_sub"@);
    assert("overflowing_sub"@.subrange(11, 15) =~= "_sub"@);
    assert("checked_mul"@.subrange(7, 11) =~= "_mul"@);
    assert("overflowing_mul"@.subrange(11, 15) =~= "_mul"@);
    assert("checked_div"@.subrange(7, 11) =~= "_div"@);
    assert("overflowing_add"@.subrange(8, 15) =~= "ing_add"@);
    assert("overflowing_sub"@.subrange(8, 15) =~= "ing_sub"@);
    assert("overflowing_mul"@.subrange(8, 15) =~= "ing_mul"@);
    assert("checked_sub"@.subrange(7, 11)[1] != "_add"@[1]);
    assert("overflowing_sub"@.subrange(11, 15)[1] != "_add"@[1]);
    assert("checked_mul"@.subrange(7, 11)[1] != "_add"@[1]);
    assert("checked_mul"@.subrange(7, 11)[1] != "_sub"@[1]);
    assert("overflowing_mul"@.subrange(11, 15)[1] != "_add"@[1]);
    assert("overflowing_mul"@.subrange(11, 15)[1] != "_sub"@[1]);
    assert("checked_div"@.subrange(7, 11)[1] != "_add"@[1]);
    assert("checked_div"@.subrange(7, 11)[1] != "_sub"@[1]);
    assert("checked_div"@.subrange(7, 11)[1] != "_mul"@[1]);
    assert("checked_add"@.subrange(4, 11)[0] != "ing_add"@[0]);
    assert("checked_sub"@.subrange(4, 11)[0] != "ing_sub"@[0]);
    assert("checked_mul"@.subrange(4, 11)[0] != "ing_mul"@[0]);
    assert("checked_add"@.subrange(4, 11)[0] != "ing_sub"@[0]);
    assert("checked_add"@.subrange(4, 11)[0] != "ing_mul"@[0]);
    assert("checked_sub"@.subrange(4, 11)[0] != "ing_add"@[0]);
    assert("checked_sub"@.subrange(4, 11)[0] != "ing_mul"@[0]);
    assert("checked_mul"@.subrange(4, 11)[0] != "ing_add"@[0]);
    assert("checked_mul"@.subrange(4, 11)[0] != "ing_sub"@[0]);
    assert("checked_div"@.subrange(4, 11)[0] != "ing_add"@[0]);
    assert("checked_div"@.subrange(4, 11)[0] != "ing_sub"@[0]);
    assert("checked_div"@.subrange(4, 11)[0] != "ing_mul"@[0]);
}

/// A checked or overflowing method computes what its name says, twice
/// over: its overflow test is the test for the operation its last word
/// names, and its value is that same operation (wrapped, for `add`, `sub`
/// and `mul`); the `overflowing_` forms answer the pair, the `checked_`
/// forms an optional. For every pair of operands.
pub proof fn lemma_fallible_ops_compute_their_name(method: Seq<char>, a: int, b: int)
    ensures
        fallible_ops(method) matches Some((test, value, pair)) ==> {
            &&& named_arith(method, a, b) is Some || b == 0
            &&& arith_core(test, a, b) == named_arith(method, a, b)
            &&& arith_core(value, a, b) == named_arith(method, a, b)
            &&& is_overflow_test(test)
            &&& !is_overflow_test(value)
            &&& pair == (has_suffix(method, "ing_add"@) || has_suffix(method, "ing_sub"@) || has_suffix(
                method,
                "ing_mul"@,
            ))
        },
{
    lemma_method_words();
    if method == "checked_add"@ {
    } else if method == "checked_sub"@ {
    } else if method == "checked_mul"@ {
    } else if method == "checked_div"@ {
    } else if method == "overflowing_add"@ {
    } else if method == "overflowing_sub"@ {
    } else if method == "overflowing_mul"@ {
    }
}

} // verus!
