//! A model of running emitted MIR, for the statement forms and runtime
//! functions it covers, and what running the code of `try_push` and of a
//! `read`/`modify` on a Vec element does.
//!
//! A machine holds each local's word, the words stored into aggregates (by
//! local and byte offset), and the Vecs, by handle, with their bounds. The
//! runtime functions' meanings: `Vec_is_full(v)` gives 1 when `v` holds as
//! many elements as its bound and 0 otherwise; `Vec_push(v, x)` appends `x`
//! to `v` and gives 0; `Vec_set(v, i, x)` makes `x` element `i` of `v`,
//! and stops the run when `v` has none there; `Vec_len(v)` gives how many
//! elements `v` holds;
//! `Vec_get(v, i)` gives element `i`, and stops the run when `v` has none
//! there. The assignments covered are a copy, the binary operators of
//! `binop_eval` on words (1 for true, 0 for false), and the read of an
//! aggregate's word: its tag at offset 0, or a field at its byte offset.
//! A statement of another form, or a call of another function, stops the
//! run (`None`).

use vstd::prelude::*;
use vstd::arithmetic::power2::pow2;
use crate::builder::{emitted, stmt_fits, MirBuilder, PlacedStmt, StmtForm};
use crate::element_closures::{opt_store, payload_width, write_back_func};
use crate::iterators::{int_op, local_op};
use crate::sorting::call_form;
use crate::element_closures::{vec_element_begun, vec_element_finished, ElementAccess};
use crate::lowerer::VariantLayout;
use crate::mir::{
    BinOp, BlockId, LocalId, MirConst, MirOperand, MirRValue, MirStmt, MirTerminator, MirType, RESULT_PAYLOAD_OFFSET,
    RESULT_TAG_OFFSET,
};
use crate::try_push::try_push_emitted;

verus! {

/// The state a run acts on.
pub struct Machine {
    /// Each local's word.
    pub vals: Map<LocalId, int>,
    /// The words stored into aggregates, by local and byte offset.
    pub mem: Map<(LocalId, u32), int>,
    /// The elements of each Vec, by handle.
    pub vecs: Map<int, Seq<int>>,
    /// How many elements each Vec may hold.
    pub bounds: Map<int, nat>,
}

/// The word an operand gives: an integer constant, a `bool` as 0 or 1, or
/// a local's word.
pub open spec fn eval(m: Machine, op: MirOperand) -> int {
    match op {
        MirOperand::Constant(MirConst::Int(n)) => n as int,
        MirOperand::Constant(MirConst::Bool(b)) => if b {
            1
        } else {
            0
        },
        MirOperand::Local(l) => m.vals[l],
        _ => 0,
    }
}

/// `m` with the call's result `v` written to `dst`, if it has one.
pub open spec fn give(m: Machine, dst: Option<LocalId>, v: int) -> Machine {
    match dst {
        Some(d) => Machine { vals: m.vals.insert(d, v), ..m },
        None => m,
    }
}

/// One statement run on `m`.
pub open spec fn step(m: Machine, s: MirStmt) -> Option<Machine> {
    match s {
        MirStmt::Store { addr, offset, value, .. } => Some(Machine { mem: m.mem.insert((addr, offset), eval(m, value)), ..m }),
        MirStmt::Call { dst, func, args } => if func@ == "Vec_is_full"@ && args@.len() == 1 {
            let h = eval(m, args@[0]);
            Some(give(m, dst, if m.vecs[h].len() >= m.bounds[h] { 1 } else { 0 }))
        } else if func@ == "Vec_push"@ && args@.len() == 2 {
            let h = eval(m, args@[0]);
            let pushed = Machine { vecs: m.vecs.insert(h, m.vecs[h].push(eval(m, args@[1]))), ..m };
            Some(give(pushed, dst, 0))
        } else if func@ == "Vec_set"@ && args@.len() == 3 {
            let h = eval(m, args@[0]);
            let i = eval(m, args@[1]);
            if 0 <= i < m.vecs[h].len() {
                let set = Machine { vecs: m.vecs.insert(h, m.vecs[h].update(i, eval(m, args@[2]))), ..m };
                Some(give(set, dst, 0))
            } else {
                None
            }
        } else if func@ == "Vec_len"@ && args@.len() == 1 {
            Some(give(m, dst, m.vecs[eval(m, args@[0])].len() as int))
        } else if func@ == "Vec_get"@ && args@.len() == 2 {
            let v = m.vecs[eval(m, args@[0])];
            let i = eval(m, args@[1]);
            if 0 <= i < v.len() {
                Some(give(m, dst, v[i]))
            } else {
                None
            }
        } else {
            None
        },
        MirStmt::Assign { dst, rvalue } => match rvalue {
            MirRValue::Use(op) => Some(give(m, Some(dst), eval(m, op))),
            MirRValue::BinaryOp { op, left, right } => match binop_eval(op, eval(m, left), eval(m, right)) {
                Some(v) => Some(give(m, Some(dst), v)),
                None => None,
            },
            MirRValue::EnumTag { value: MirOperand::Local(l) } => Some(give(m, Some(dst), m.mem[(l, 0u32)])),
            MirRValue::Field { base: MirOperand::Local(l), byte_offset: Some(o), .. } => Some(
                give(m, Some(dst), m.mem[(l, o)]),
            ),
            _ => None,
        },
        _ => None,
    }
}

/// A truth value as a word: 1 for true, 0 for false.
pub open spec fn word(b: bool) -> int {
    if b {
        1
    } else {
        0
    }
}

/// Division rounding toward zero; `b` is not 0.
pub open spec fn div_toward_zero(a: int, b: int) -> int {
    let q = abs(a) / abs(b);
    if (a < 0) != (b < 0) {
        -q
    } else {
        q
    }
}

/// The absolute value.
pub open spec fn abs(a: int) -> int {
    if a < 0 {
        -a
    } else {
        a
    }
}

/// What a binary operator gives on two words: the arithmetic (division
/// and remainder rounding toward zero, nothing for a zero divisor; a right
/// shift rounding down; a shift by a negative amount gives nothing), a
/// comparison or a logical
/// connective as a word. The operators not listed are not modelled.
pub open spec fn binop_eval(op: BinOp, a: int, b: int) -> Option<int> {
    match op {
        BinOp::Add => Some(a + b),
        BinOp::Sub => Some(a - b),
        BinOp::Mul => Some(a * b),
        BinOp::Div => if b != 0 {
            Some(div_toward_zero(a, b))
        } else {
            None
        },
        BinOp::Mod => if b != 0 {
            Some(a - b * div_toward_zero(a, b))
        } else {
            None
        },
        BinOp::Eq => Some(word(a == b)),
        BinOp::Ne => Some(word(a != b)),
        BinOp::Lt => Some(word(a < b)),
        BinOp::Le => Some(word(a <= b)),
        BinOp::Gt => Some(word(a > b)),
        BinOp::Ge => Some(word(a >= b)),
        BinOp::And => Some(word(a != 0 && b != 0)),
        BinOp::Or => Some(word(a != 0 || b != 0)),
        BinOp::Shl => if b >= 0 {
            Some(a * pow2(b as nat))
        } else {
            None
        },
        BinOp::Shr => if b >= 0 {
            Some(a / (pow2(b as nat) as int))
        } else {
            None
        },
        _ => None,
    }
}

/// Statements run in order on `m`.
pub open spec fn run_stmts(m: Machine, ss: Seq<MirStmt>) -> Option<Machine>
    decreases ss.len(),
{
    if ss.len() == 0 {
        Some(m)
    } else {
        match step(m, ss[0]) {
            Some(m1) => run_stmts(m1, ss.drop_first()),
            None => None,
        }
    }
}

/// The statements of `stmts` from position `from` on that stand in block
/// `blk`, in order.
pub open spec fn stmts_in(stmts: Seq<PlacedStmt>, blk: BlockId, from: int) -> Seq<MirStmt>
    decreases stmts.len() - from,
{
    if from < 0 || from >= stmts.len() {
        Seq::empty()
    } else if stmts[from].block == blk {
        seq![stmts[from].stmt] + stmts_in(stmts, blk, from + 1)
    } else {
        stmts_in(stmts, blk, from + 1)
    }
}

/// Where a block's terminator goes on `m`: a jump's target, or a branch's
/// then block when its condition is non-zero and its else block otherwise.
pub open spec fn next_block(m: Machine, t: Option<MirTerminator>) -> Option<BlockId> {
    match t {
        Some(MirTerminator::Goto { target }) => Some(target),
        Some(MirTerminator::Branch { cond, then_block, else_block }) => Some(
            if eval(m, cond) != 0 {
                then_block
            } else {
                else_block
            },
        ),
        _ => None,
    }
}

/// Running block `blk` of `b`, from the statements at position `from` on,
/// and then its terminator: the machine after, and the block control goes
/// to.
pub open spec fn run_block(b: MirBuilder, blk: BlockId, from: int, m: Machine) -> Option<(Machine, BlockId)> {
    match run_stmts(m, stmts_in(b.stmts@, blk, from)) {
        Some(m1) => match next_block(m1, b.terms@[blk.0 as int]) {
            Some(n) => Some((m1, n)),
            None => None,
        },
        None => None,
    }
}

/// The operand names nothing made at or after local `n`.
pub open spec fn made_before(op: MirOperand, n: nat) -> bool {
    match op {
        MirOperand::Local(l) => l.0 < n,
        _ => true,
    }
}

/// What running the code `try_push` emitted does, from the statements it
/// added to the block it started in: the bound check goes to the full
/// block when the Vec holds as many elements as its bound, and there the
/// error gets `Full`'s tag and the value, the result tag 1 and the error,
/// with the Vec unchanged; otherwise it goes to the push block, where the
/// value is appended and the result tag is 0. Either way control then goes
/// to the block where they meet.
pub proof fn lemma_try_push_runs(
    old: MirBuilder,
    new: MirBuilder,
    recv: MirOperand,
    value: MirOperand,
    value_ty: MirType,
    result_ty: MirType,
    err_ty: MirType,
    tag_offset: u32,
    full: VariantLayout,
    m0: Machine,
)
    requires
        old.wf(),
        old.terms@.len() + 3 <= usize::MAX,
        old.locals@.len() + 4 <= usize::MAX,
        try_push_emitted(old, new, recv, value, value_ty, result_ty, err_ty, tag_offset, full),
        made_before(recv, old.locals@.len()),
        made_before(value, old.locals@.len()),
        full.payload_offset != tag_offset,
    ensures
        ({
            let n = old.locals@.len();
            let flag = LocalId(n as usize);
            let res = LocalId((n + 1) as usize);
            let err = LocalId((n + 2) as usize);
            let b = old.terms@.len();
            let full_block = BlockId(b as usize);
            let push_block = BlockId((b + 1) as usize);
            let merge = BlockId((b + 2) as usize);
            let h = eval(m0, recv);
            let x = eval(m0, value);
            let m = old.stmts@.len() as int;
            let r1 = run_block(new, old.current, m, m0);
            let (m1, t1) = r1->0;
            if m0.vecs[h].len() >= m0.bounds[h] {
                let r2 = run_block(new, full_block, m, m1);
                let (m2, t2) = r2->0;
                &&& r1 is Some
                &&& t1 == full_block
                &&& r2 is Some
                &&& t2 == merge
                &&& m2.mem[(err, tag_offset)] == full.tag as i64
                &&& m2.mem[(err, full.payload_offset)] == x
                &&& m2.mem[(res, RESULT_TAG_OFFSET)] == 1
                &&& m2.mem[(res, RESULT_PAYLOAD_OFFSET)] == m2.vals[err]
                &&& m2.vecs == m0.vecs
            } else {
                let r2 = run_block(new, push_block, m, m1);
                let (m2, t2) = r2->0;
                &&& r1 is Some
                &&& t1 == push_block
                &&& r2 is Some
                &&& t2 == merge
                &&& m2.vecs == m0.vecs.insert(h, m0.vecs[h].push(x))
                &&& m2.mem[(res, RESULT_TAG_OFFSET)] == 0
            }
        }),
{
    reveal_strlit("Vec_is_full");
    reveal_strlit("Vec_push");
    let n = old.locals@.len();
    let b = old.terms@.len();
    let m = old.stmts@.len() as int;
    let c = old.current;
    let full_block = BlockId(b as usize);
    let push_block = BlockId((b + 1) as usize);
    let s = new.stmts@;
    assert(s.len() == m + 7);
    assert(s[m + 0].block == c);
    assert(s[m + 1].block == full_block);
    assert(s[m + 2].block == full_block);
    assert(s[m + 3].block == full_block);
    assert(s[m + 4].block == full_block);
    assert(s[m + 5].block == push_block);
    assert(s[m + 6].block == push_block);
    assert(c.0 < b);
    assert(stmts_in(s, c, m + 7) =~= Seq::<MirStmt>::empty());
    assert(stmts_in(s, c, m + 6) =~= Seq::<MirStmt>::empty());
    assert(stmts_in(s, c, m + 5) =~= Seq::<MirStmt>::empty());
    assert(stmts_in(s, c, m + 4) =~= Seq::<MirStmt>::empty());
    assert(stmts_in(s, c, m + 3) =~= Seq::<MirStmt>::empty());
    assert(stmts_in(s, c, m + 2) =~= Seq::<MirStmt>::empty());
    assert(stmts_in(s, c, m + 1) =~= Seq::<MirStmt>::empty());
    assert(stmts_in(s, c, m) =~= seq![s[m].stmt]);
    assert(stmts_in(s, full_block, m + 7) =~= Seq::<MirStmt>::empty());
    assert(stmts_in(s, full_block, m + 6) =~= Seq::<MirStmt>::empty());
    assert(stmts_in(s, full_block, m + 5) =~= Seq::<MirStmt>::empty());
    assert(stmts_in(s, full_block, m + 4) =~= seq![s[m + 4].stmt]);
    assert(stmts_in(s, full_block, m + 3) =~= seq![s[m + 3].stmt, s[m + 4].stmt]);
    assert(stmts_in(s, full_block, m + 2) =~= seq![s[m + 2].stmt, s[m + 3].stmt, s[m + 4].stmt]);
    assert(stmts_in(s, full_block, m + 1) =~= seq![s[m + 1].stmt, s[m + 2].stmt, s[m + 3].stmt, s[m + 4].stmt]);
    assert(stmts_in(s, full_block, m) =~= seq![s[m + 1].stmt, s[m + 2].stmt, s[m + 3].stmt, s[m + 4].stmt]);
    assert(stmts_in(s, push_block, m + 7) =~= Seq::<MirStmt>::empty());
    assert(stmts_in(s, push_block, m + 6) =~= seq![s[m + 6].stmt]);
    assert(stmts_in(s, push_block, m + 5) =~= seq![s[m + 5].stmt, s[m + 6].stmt]);
    assert(stmts_in(s, push_block, m + 4) =~= seq![s[m + 5].stmt, s[m + 6].stmt]);
    assert(stmts_in(s, push_block, m + 3) =~= seq![s[m + 5].stmt, s[m + 6].stmt]);
    assert(stmts_in(s, push_block, m + 2) =~= seq![s[m + 5].stmt, s[m + 6].stmt]);
    assert(stmts_in(s, push_block, m + 1) =~= seq![s[m + 5].stmt, s[m + 6].stmt]);
    assert(stmts_in(s, push_block, m) =~= seq![s[m + 5].stmt, s[m + 6].stmt]);
    let h = eval(m0, recv);
    let m1 = give(m0, Some(LocalId(n as usize)), if m0.vecs[h].len() >= m0.bounds[h] { 1 } else { 0 });
    assert(step(m0, s[m].stmt) == Some(m1));
    assert(run_stmts(m1, seq![s[m].stmt].drop_first()) == Some(m1));
    assert(run_stmts(m0, seq![s[m].stmt]) == Some(m1));
    assert(eval(m1, recv) == h);
    assert(eval(m1, value) == eval(m0, value));
    assert(new.terms@[c.0 as int] == Some(
        MirTerminator::Branch {
            cond: MirOperand::Local(LocalId(n as usize)),
            then_block: full_block,
            else_block: push_block,
        },
    ));
    if m0.vecs[h].len() >= m0.bounds[h] {
        let ss = seq![s[m + 1].stmt, s[m + 2].stmt, s[m + 3].stmt, s[m + 4].stmt];
        assert(new.terms@[full_block.0 as int] == Some(MirTerminator::Goto { target: BlockId((b + 2) as usize) }));
        let ma = step(m1, ss[0])->0;
        let mb = step(ma, ss[1])->0;
        let mc = step(mb, ss[2])->0;
        let md = step(mc, ss[3])->0;
        assert(step(m1, ss[0]) is Some);
        assert(step(ma, ss[1]) is Some);
        assert(step(mb, ss[2]) is Some);
        assert(step(mc, ss[3]) is Some);
        assert(run_stmts(md, Seq::<MirStmt>::empty()) == Some(md));
        assert(seq![ss[3]].drop_first() =~= Seq::<MirStmt>::empty());
        assert(run_stmts(mc, seq![ss[3]]) == Some(md));
        assert(seq![ss[2], ss[3]].drop_first() =~= seq![ss[3]]);
        assert(run_stmts(mb, seq![ss[2], ss[3]]) == Some(md));
        assert(seq![ss[1], ss[2], ss[3]].drop_first() =~= seq![ss[2], ss[3]]);
        assert(run_stmts(ma, seq![ss[1], ss[2], ss[3]]) == Some(md));
        assert(ss.drop_first() =~= seq![ss[1], ss[2], ss[3]]);
        assert(run_stmts(m1, ss) == Some(md));
        assert(md.mem[(LocalId((n + 2) as usize), tag_offset)] == full.tag as i64);
    } else {
        let ss = seq![s[m + 5].stmt, s[m + 6].stmt];
        assert(new.terms@[push_block.0 as int] == Some(MirTerminator::Goto { target: BlockId((b + 2) as usize) }));
        let ma = step(m1, ss[0])->0;
        let mb = step(ma, ss[1])->0;
        assert(step(m1, ss[0]) is Some);
        assert(step(ma, ss[1]) is Some);
        assert(run_stmts(mb, Seq::<MirStmt>::empty()) == Some(mb));
        assert(seq![ss[1]].drop_first() =~= Seq::<MirStmt>::empty());
        assert(run_stmts(ma, seq![ss[1]]) == Some(mb));
        assert(ss.drop_first() =~= seq![ss[1]]);
        assert(run_stmts(m1, ss) == Some(mb));
    }
}

/// The runtime functions the model knows are named apart.
proof fn lemma_model_names_differ()
    ensures
        "Vec_len"@ != "Vec_is_full"@,
        "Vec_len"@ != "Vec_push"@,
        "Vec_get"@ != "Vec_is_full"@,
        "Vec_get"@ != "Vec_push"@,
        "Vec_get"@ != "Vec_len"@,
        "Vec_push"@ != "Vec_is_full"@,
        "Vec_set"@ != "Vec_is_full"@,
        "Vec_set"@ != "Vec_push"@,
{
    reveal_strlit("Vec_is_full");
    reveal_strlit("Vec_push");
    reveal_strlit("Vec_len");
    reveal_strlit("Vec_get");
    reveal_strlit("Vec_set");
    assert("Vec_set"@ =~= seq!['V', 'e', 'c', '_', 's', 'e', 't']);
    assert("Vec_set"@[4] != "Vec_is_full"@[4]);
    assert("Vec_set"@[4] != "Vec_push"@[4]);
    assert("Vec_is_full"@ =~= seq!['V', 'e', 'c', '_', 'i', 's', '_', 'f', 'u', 'l', 'l']);
    assert("Vec_push"@ =~= seq!['V', 'e', 'c', '_', 'p', 'u', 's', 'h']);
    assert("Vec_len"@ =~= seq!['V', 'e', 'c', '_', 'l', 'e', 'n']);
    assert("Vec_get"@ =~= seq!['V', 'e', 'c', '_', 'g', 'e', 't']);
    assert("Vec_len"@[4] != "Vec_is_full"@[4]);
    assert("Vec_len"@[4] != "Vec_push"@[4]);
    assert("Vec_get"@[4] != "Vec_is_full"@[4]);
    assert("Vec_get"@[4] != "Vec_push"@[4]);
    assert("Vec_get"@[4] != "Vec_len"@[4]);
    assert("Vec_push"@[4] != "Vec_is_full"@[4]);
}

/// `read` and `modify` touch a Vec element only in range: running the
/// statements `lower_vec_element_closure` added to the block it started in
/// goes to the block that has the element exactly when the index is at
/// least 0 and below the Vec's length, and to the block for a missing
/// element otherwise; in the first, `Vec_get` gives the element at the
/// index. (The closure's body and the write-back follow in that block.)
pub proof fn lemma_vec_element_read_in_range(
    old: MirBuilder,
    new: MirBuilder,
    obj_op: MirOperand,
    obj_ty: MirType,
    et: MirType,
    index_op: MirOperand,
    acc: ElementAccess,
    m0: Machine,
)
    requires
        old.wf(),
        old.terms@.len() + 3 <= usize::MAX,
        old.locals@.len() + 8 <= usize::MAX,
        vec_element_begun(old, new, obj_op, obj_ty, et, index_op, acc),
        made_before(obj_op, old.locals@.len()),
        made_before(index_op, old.locals@.len()),
    ensures
        ({
            let v = m0.vecs[eval(m0, obj_op)];
            let i = eval(m0, index_op);
            let present = BlockId(old.terms@.len() as usize);
            let m = old.stmts@.len() as int;
            let r1 = run_block(new, old.current, m, m0);
            let (m1, t1) = r1->0;
            let r2 = run_stmts(m1, stmts_in(new.stmts@, present, m));
            &&& r1 is Some
            &&& t1 == if 0 <= i < v.len() {
                present
            } else {
                acc.absent_block
            }
            &&& 0 <= i < v.len() ==> r2 is Some && r2->0.vals[acc.elem] == v[i]
        }),
{
    reveal_strlit("Vec_is_full");
    reveal_strlit("Vec_push");
    reveal_strlit("Vec_len");
    reveal_strlit("Vec_get");
    let n = old.locals@.len();
    let t = old.terms@.len();
    let m = old.stmts@.len() as int;
    let c = old.current;
    let present = BlockId(t as usize);
    let s = new.stmts@;
    assert(c.0 < t);
    assert(s.len() == m + 7);
    assert(s[m + 0].block == c);
    assert(s[m + 1].block == c);
    assert(s[m + 2].block == c);
    assert(s[m + 3].block == c);
    assert(s[m + 4].block == c);
    assert(s[m + 5].block == c);
    assert(s[m + 6].block == present);
    assert(stmts_in(s, c, m + 7) =~= Seq::<MirStmt>::empty());
    assert(stmts_in(s, c, m + 6) =~= Seq::<MirStmt>::empty());
    assert(stmts_in(s, c, m + 5) =~= seq![s[m + 5].stmt]);
    assert(stmts_in(s, c, m + 4) =~= seq![s[m + 4].stmt, s[m + 5].stmt]);
    assert(stmts_in(s, c, m + 3) =~= seq![s[m + 3].stmt, s[m + 4].stmt, s[m + 5].stmt]);
    assert(stmts_in(s, c, m + 2) =~= seq![s[m + 2].stmt, s[m + 3].stmt, s[m + 4].stmt, s[m + 5].stmt]);
    assert(stmts_in(s, c, m + 1) =~= seq![s[m + 1].stmt, s[m + 2].stmt, s[m + 3].stmt, s[m + 4].stmt, s[m + 5].stmt]);
    lemma_model_names_differ();
    let ss = seq![s[m].stmt, s[m + 1].stmt, s[m + 2].stmt, s[m + 3].stmt, s[m + 4].stmt, s[m + 5].stmt];
    assert(stmts_in(s, c, m) =~= ss);
    assert(stmts_in(s, present, m + 7) =~= Seq::<MirStmt>::empty());
    assert(stmts_in(s, present, m + 6) =~= seq![s[m + 6].stmt]);
    assert(stmts_in(s, present, m + 5) =~= seq![s[m + 6].stmt]);
    assert(stmts_in(s, present, m + 4) =~= seq![s[m + 6].stmt]);
    assert(stmts_in(s, present, m + 3) =~= seq![s[m + 6].stmt]);
    assert(stmts_in(s, present, m + 2) =~= seq![s[m + 6].stmt]);
    assert(stmts_in(s, present, m + 1) =~= seq![s[m + 6].stmt]);
    assert(stmts_in(s, present, m) =~= seq![s[m + 6].stmt]);
    let ma = step(m0, ss[0])->0;
    let mb = step(ma, ss[1])->0;
    let mc = step(mb, ss[2])->0;
    let md = step(mc, ss[3])->0;
    let me = step(md, ss[4])->0;
    let mf = step(me, ss[5])->0;
    assert(step(m0, ss[0]) is Some);
    assert(step(ma, ss[1]) is Some);
    assert(step(mb, ss[2]) is Some);
    assert(step(mc, ss[3]) is Some);
    assert(step(md, ss[4]) is Some);
    assert(step(me, ss[5]) is Some);
    assert(run_stmts(mf, Seq::<MirStmt>::empty()) == Some(mf));
    assert(ss.drop_first().drop_first().drop_first().drop_first().drop_first().drop_first() =~= Seq::<MirStmt>::empty());
    assert(run_stmts(me, ss.drop_first().drop_first().drop_first().drop_first().drop_first()) == Some(mf));
    assert(run_stmts(md, ss.drop_first().drop_first().drop_first().drop_first()) == Some(mf));
    assert(run_stmts(mc, ss.drop_first().drop_first().drop_first()) == Some(mf));
    assert(run_stmts(mb, ss.drop_first().drop_first()) == Some(mf));
    assert(run_stmts(ma, ss.drop_first()) == Some(mf));
    assert(run_stmts(m0, ss) == Some(mf));
    let v = m0.vecs[eval(m0, obj_op)];
    let i = eval(m0, index_op);
    assert(ma.vals[LocalId(n as usize)] == eval(m0, obj_op));
    assert(mb.vals[LocalId((n + 1) as usize)] == i);
    assert(mf.vecs == m0.vecs);
    assert(mf.vals[LocalId(n as usize)] == eval(m0, obj_op));
    assert(mf.vals[LocalId((n + 1) as usize)] == i);
    assert(eval(mb, MirOperand::Local(LocalId(n as usize))) == eval(m0, obj_op));
    assert(mb.vecs == m0.vecs);
    assert(ss[2] matches MirStmt::Call { dst, func, args } && dst == Some(LocalId((n + 2) as usize))
        && func@ == "Vec_len"@ && args@ == seq![MirOperand::Local(LocalId(n as usize))]);
    assert(mc == give(mb, Some(LocalId((n + 2) as usize)), v.len() as int));
    assert(mc.vals[LocalId((n + 2) as usize)] == v.len());
    assert(mf.vals[LocalId((n + 5) as usize)] == if 0 <= i < v.len() { 1int } else { 0int });
    if 0 <= i < v.len() {
        let mg = step(mf, s[m + 6].stmt)->0;
        assert(step(mf, s[m + 6].stmt) is Some);
        assert(seq![s[m + 6].stmt].drop_first() =~= Seq::<MirStmt>::empty());
        assert(run_stmts(mg, Seq::<MirStmt>::empty()) == Some(mg));
        assert(run_stmts(mf, seq![s[m + 6].stmt]) == Some(mg));
    }
}

/// The end of `read` and `modify` on a Vec element, run: in the block
/// with the element, a `modify` with a parameter writes the parameter's
/// value back at the index (which the range check let through, so the
/// element is there), the answer's tag becomes 0 and the body's value its
/// payload; in the block for a missing element the tag becomes 1. Both go
/// on to the block where they meet. Stated of the statements
/// `finish_vec_element_closure` added, from the machine `m0` the body left.
pub proof fn lemma_vec_element_finish_runs(
    old: MirBuilder,
    new: MirBuilder,
    acc: ElementAccess,
    method: Seq<char>,
    body_op: MirOperand,
    body_ty: MirType,
    param: Option<LocalId>,
    r: (MirOperand, MirType),
    m0: Machine,
)
    requires
        vec_element_finished(old, new, acc, method, body_op, body_ty, param, r),
        !acc.on_map,
        old.current != acc.absent_block,
        old.current.0 < old.terms@.len(),
        acc.absent_block.0 < old.terms@.len(),
        acc.result != acc.collection,
        acc.result != acc.idx,
        ({
            let h = m0.vals[acc.collection];
            let i = m0.vals[acc.idx];
            method == "modify"@ && param is Some ==> 0 <= i < m0.vecs[h].len()
        }),
    ensures
        ({
            let m = old.stmts@.len() as int;
            let h = m0.vals[acc.collection];
            let i = m0.vals[acc.idx];
            let present = run_block(new, old.current, m, m0);
            let absent = run_block(new, acc.absent_block, m, m0);
            let (mp, tp) = present->0;
            let (ma, ta) = absent->0;
            &&& present is Some
            &&& tp == acc.merge_block
            &&& mp.mem[(acc.result, 0u32)] == 0
            &&& mp.mem[(acc.result, 8u32)] == eval(m0, body_op)
            &&& mp.vecs == if method == "modify"@ && param is Some {
                m0.vecs.insert(h, m0.vecs[h].update(i, m0.vals[param->0]))
            } else {
                m0.vecs
            }
            &&& absent is Some
            &&& ta == acc.merge_block
            &&& ma.mem[(acc.result, 0u32)] == 1
        }),
{
    lemma_model_names_differ();
    reveal_strlit("Vec_set");
    let m = old.stmts@.len() as int;
    let cur = old.current;
    let s = new.stmts@;
    let modify = method == "modify"@ && param is Some;
    let k: int = if modify { 1 } else { 0 };
    let set_forms = if modify {
        seq![
            (
                cur,
                call_form(
                    None,
                    write_back_func(acc.on_map),
                    seq![local_op(acc.collection), local_op(acc.idx), local_op(param->0)],
                ),
            ),
        ]
    } else {
        Seq::empty()
    };
    let fs = set_forms + seq![
        (cur, StmtForm::Exact(opt_store(acc.result, 0, int_op(0), None))),
        (cur, StmtForm::Exact(opt_store(acc.result, 8, body_op, Some(payload_width(body_ty))))),
        (acc.absent_block, StmtForm::Exact(opt_store(acc.result, 0, int_op(1), None))),
    ];
    assert(emitted(s, m, fs));
    assert(fs.len() == k + 3);
    let j0 = k;
    let j1 = k + 1;
    let j2 = k + 2;
    assert(fs[j0] == (cur, StmtForm::Exact(opt_store(acc.result, 0, int_op(0), None))));
    assert(fs[j1] == (cur, StmtForm::Exact(opt_store(acc.result, 8, body_op, Some(payload_width(body_ty))))));
    assert(fs[j2] == (acc.absent_block, StmtForm::Exact(opt_store(acc.result, 0, int_op(1), None))));
    assert(s[m + j0].block == cur && stmt_fits(s[m + j0].stmt, fs[j0].1));
    assert(s[m + j1].block == cur && stmt_fits(s[m + j1].stmt, fs[j1].1));
    assert(s[m + j2].block == acc.absent_block && stmt_fits(s[m + j2].stmt, fs[j2].1));
    if modify {
        let j = 0int;
        assert(fs[j] == set_forms[0]);
        assert(s[m + j].block == cur && stmt_fits(s[m + j].stmt, fs[j].1));
    }
    assert(s.len() == m + k + 3);
    assert(s[m + k + 2].block == acc.absent_block);
    assert(s[m + k + 1].block == cur);
    assert(s[m + k].block == cur);
    assert(stmts_in(s, cur, m + k + 3) =~= Seq::<MirStmt>::empty());
    assert(stmts_in(s, cur, m + k + 2) =~= Seq::<MirStmt>::empty());
    assert(stmts_in(s, cur, m + k + 1) =~= seq![s[m + k + 1].stmt]);
    assert(stmts_in(s, cur, m + k) =~= seq![s[m + k].stmt, s[m + k + 1].stmt]);
    assert(stmts_in(s, acc.absent_block, m + k + 3) =~= Seq::<MirStmt>::empty());
    assert(stmts_in(s, acc.absent_block, m + k + 2) =~= seq![s[m + k + 2].stmt]);
    assert(stmts_in(s, acc.absent_block, m + k + 1) =~= seq![s[m + k + 2].stmt]);
    assert(stmts_in(s, acc.absent_block, m + k) =~= seq![s[m + k + 2].stmt]);
    assert(new.terms@[cur.0 as int] == Some(MirTerminator::Goto { target: acc.merge_block }));
    assert(new.terms@[acc.absent_block.0 as int] == Some(MirTerminator::Goto { target: acc.merge_block }));
    // the missing-element block
    let ma = step(m0, s[m + k + 2].stmt)->0;
    assert(step(m0, s[m + k + 2].stmt) is Some);
    assert(run_stmts(ma, Seq::<MirStmt>::empty()) == Some(ma));
    assert(seq![s[m + k + 2].stmt].drop_first() =~= Seq::<MirStmt>::empty());
    assert(run_stmts(m0, seq![s[m + k + 2].stmt]) == Some(ma));
    // the element's block
    let tail = seq![s[m + k].stmt, s[m + k + 1].stmt];
    let m1 = if modify {
        step(m0, s[m].stmt)->0
    } else {
        m0
    };
    if modify {
        assert(s[m].block == cur);
        assert(stmts_in(s, cur, m) =~= seq![s[m].stmt] + tail);
        assert(step(m0, s[m].stmt) is Some);
        assert((seq![s[m].stmt] + tail).drop_first() =~= tail);
    } else {
        assert(stmts_in(s, cur, m) =~= tail);
    }
    assert(eval(m1, body_op) == eval(m0, body_op));
    let mb = step(m1, tail[0])->0;
    let mc = step(mb, tail[1])->0;
    assert(step(m1, tail[0]) is Some);
    assert(step(mb, tail[1]) is Some);
    assert(run_stmts(mc, Seq::<MirStmt>::empty()) == Some(mc));
    assert(tail.drop_first().drop_first() =~= Seq::<MirStmt>::empty());
    assert(run_stmts(mb, tail.drop_first()) == Some(mc));
    assert(run_stmts(m1, tail) == Some(mc));
}

} // verus!
