//! Fused index loops for iterator chains: the loop skeleton, the adapters
//! applied inside it, and the terminals that consume what it yields.

use vstd::prelude::*;
use crate::debug_text::{mir_debug, mir_type_debug};
use crate::builder::{emitted, is_call, placed, stmt_fits, temp_decl, StmtForm};
use crate::lowerer::MirLowerer;
use crate::text::{before_char, before_char_str, str_eq, trim, trim_spec};
use crate::mir::{
    size_fits, size_of, FieldAccess, TypeList, BinOp, BlockId, LocalId, MirConst, MirOperand, MirRValue, MirStmt, MirTerminator,
    MirType,
};

verus! {

/// `dst = src`.
pub open spec fn assign_use(dst: LocalId, src: MirOperand) -> MirStmt {
    MirStmt::Assign { dst, rvalue: MirRValue::Use(src) }
}

/// `dst = left op right`.
pub open spec fn assign_op(dst: LocalId, op: BinOp, left: MirOperand, right: MirOperand) -> MirStmt {
    MirStmt::Assign { dst, rvalue: MirRValue::BinaryOp { op, left, right } }
}

/// The integer constant `n` as an operand.
pub open spec fn int_op(n: i64) -> MirOperand {
    MirOperand::Constant(MirConst::Int(n))
}

/// The local `l` as an operand.
pub open spec fn local_op(l: LocalId) -> MirOperand {
    MirOperand::Local(l)
}

/// One adapter of an iterator chain. A closure handed to `filter` or
/// `map` comes lifted into a function of the element, named here, which
/// the loop body calls on each element.
#[derive(Debug)]
pub enum IterAdapter {
    /// Keep the elements for which `pred(elem)` holds.
    Filter { pred: String },
    /// Replace each element by `func(elem)`, a value of type `ret_ty`.
    MapTo { func: String, ret_ty: MirType },
    /// At most `count` elements, counted from the start of the range.
    Take { count: MirOperand },
    /// Start the range at index `count`.
    Skip { count: MirOperand },
    /// Pair each element with its index.
    Enumerate,
}

/// An iterator chain whose source has been lowered: the source value and
/// its type, the element type the checker recorded for it (if any), and the
/// adapters in the order they apply.
#[derive(Debug)]
pub struct IterChain {
    pub source: MirOperand,
    pub source_ty: MirType,
    pub elem_ty: Option<MirType>,
    pub adapters: Vec<IterAdapter>,
}

/// What the loop skeleton hands the code that fills its body.
#[derive(Debug)]
pub struct IterLoopSetup {
    pub idx: LocalId,
    pub elem_local: LocalId,
    pub elem_ty: MirType,
    pub inc_block: BlockId,
    pub exit_block: BlockId,
    pub check_block: BlockId,
}

/// The range bounds after the first `k` adapters: where the range starts
/// (nothing for 0), where it ends, whether a `take` bounded it, and the
/// statements that computed an end from a start and a count, each into
/// the next `i64` temp numbered from `first`.
pub open spec fn chain_bounds(adapters: Seq<IterAdapter>, k: int, len: LocalId, first: nat) -> (
    Option<MirOperand>,
    MirOperand,
    bool,
    Seq<MirStmt>,
)
    decreases k,
{
    if k <= 0 {
        (None, local_op(len), false, Seq::empty())
    } else {
        let (start, end, took, stmts) = chain_bounds(adapters, k - 1, len, first);
        match adapters[k - 1] {
            IterAdapter::Skip { count } => (Some(count), end, took, stmts),
            IterAdapter::Take { count } => match start {
                Some(st) => {
                    let t = LocalId((first + stmts.len()) as usize);
                    (Some(st), local_op(t), true, stmts.push(assign_op(t, BinOp::Add, st, count)))
                },
                None => (start, count, true, stmts),
            },
            _ => (start, end, took, stmts),
        }
    }
}

/// `n` unnamed locals of type `ty`.
pub open spec fn temps(n: nat, ty: MirType) -> Seq<crate::builder::LocalDecl> {
    Seq::new(n, |i: int| temp_decl(ty))
}

/// `stmts`, each placed in `block`.
pub open spec fn placed_all(block: BlockId, stmts: Seq<MirStmt>) -> Seq<crate::builder::PlacedStmt> {
    Seq::new(stmts.len(), |i: int| placed(block, stmts[i]))
}

/// The element type a chain's loop reads: the recorded one, else `i64`.
pub open spec fn chain_elem_ty(chain: IterChain) -> MirType {
    match chain.elem_ty {
        Some(t) => t,
        None => MirType::I64,
    }
}

/// The shape of the loop `setup_iter_chain_loop` builds, from a builder
/// `old` to a builder `new`, for `chain`, handing back `r`.
///
/// Emitted into the current block `c`: `coll = source`, then
/// `len = N` for an array of `N` elements or `len = Vec_len(coll)`, then
/// the range bounds the `skip`/`take` adapters give (`chain_bounds`).
/// When a `take` bounded the range, its end is clamped to `len` through a
/// branch, and the code goes on in the block after it. Then `idx = start`
/// (0 without a `skip`), and a jump to the check block, which branches on
/// `idx < end` to the body or to the exit. The body reads element `idx`:
/// by index for an array, by `Vec_get` otherwise. The increment and exit
/// blocks are left empty, and the builder stands in the body.
pub open spec fn loop_setup_shape(
    old: crate::builder::MirBuilder,
    new: crate::builder::MirBuilder,
    chain: IterChain,
    r: IterLoopSetup,
) -> bool {
    let n = old.locals@.len();
    let m = old.stmts@.len() as int;
    let b = old.terms@.len();
    let c = old.current;
    let coll = LocalId(n as usize);
    let len = LocalId((n + 1) as usize);
    let bounds = chain_bounds(chain.adapters@, chain.adapters@.len() as int, len, n + 2);
    let e = bounds.3.len();
    let took = bounds.2;
    let end_local = LocalId((n + 2 + e) as usize);
    let over = LocalId((n + 3 + e) as usize);
    let end = if took {
        local_op(end_local)
    } else {
        bounds.1
    };
    let base = n + 2 + e + if took {
        2nat
    } else {
        0nat
    };
    let bb = b + if took {
        2nat
    } else {
        0nat
    };
    let idx = LocalId(base as usize);
    let cond = LocalId((base + 1) as usize);
    let elem_local = LocalId((base + 2) as usize);
    let check = BlockId(bb as usize);
    let body = BlockId((bb + 1) as usize);
    let inc = BlockId((bb + 2) as usize);
    let exit = BlockId((bb + 3) as usize);
    let pre = if took {
        BlockId((b + 1) as usize)
    } else {
        c
    };
    let start = match bounds.0 {
        Some(st) => st,
        None => int_op(0),
    };
    let q = m + 2 + e + if took {
        3nat
    } else {
        0nat
    };
    let elem_ty = chain_elem_ty(chain);
    let tail_terms = seq![
        Some(MirTerminator::Branch { cond: local_op(cond), then_block: body, else_block: exit }),
        None,
        None,
        None,
    ];
    &&& r == IterLoopSetup {
        idx,
        elem_local,
        elem_ty,
        inc_block: inc,
        exit_block: exit,
        check_block: check,
    }
    &&& new.locals@ == old.locals@ + seq![temp_decl(chain.source_ty), temp_decl(MirType::I64)]
        + temps(e, MirType::I64) + (if took {
        seq![temp_decl(MirType::I64), temp_decl(MirType::Bool)]
    } else {
        Seq::empty()
    }) + seq![temp_decl(MirType::I64), temp_decl(MirType::Bool), temp_decl(elem_ty)]
    &&& new.stmts@.len() == q + 3
    &&& new.stmts@.subrange(0, m as int) == old.stmts@
    &&& new.stmts@[m as int] == placed(c, assign_use(coll, chain.source))
    &&& new.stmts@[m + 1].block == c
    &&& match chain.source_ty {
        MirType::Array { len: alen, .. } => new.stmts@[m + 1].stmt == assign_use(
            len,
            int_op(alen as i64),
        ),
        _ => is_call(new.stmts@[m + 1].stmt, Some(len), "Vec_len"@, seq![local_op(coll)]),
    }
    &&& new.stmts@.subrange(m + 2, m + 2 + e) == placed_all(c, bounds.3)
    &&& took ==> new.stmts@.subrange(m + 2 + e, m + 5 + e) == seq![
        placed(c, assign_use(end_local, bounds.1)),
        placed(c, assign_op(over, BinOp::Gt, local_op(end_local), local_op(len))),
        placed(BlockId(b as usize), assign_use(end_local, local_op(len))),
    ]
    &&& new.stmts@[q as int] == placed(pre, assign_use(idx, start))
    &&& new.stmts@[q + 1] == placed(check, assign_op(cond, BinOp::Lt, local_op(idx), end))
    &&& new.stmts@[q + 2].block == body
    &&& match chain.source_ty {
        MirType::Array { elem, .. } => new.stmts@[q + 2].stmt == MirStmt::Assign {
            dst: elem_local,
            rvalue: MirRValue::ArrayIndex {
                base: local_op(coll),
                index: local_op(idx),
                elem_size: size_of(*elem) as u32,
            },
        },
        _ => is_call(
            new.stmts@[q + 2].stmt,
            Some(elem_local),
            "Vec_get"@,
            seq![local_op(coll), local_op(idx)],
        ),
    }
    &&& took ==> new.terms@ == old.terms@.update(
        c.0 as int,
        Some(
            MirTerminator::Branch {
                cond: local_op(over),
                then_block: BlockId(b as usize),
                else_block: BlockId((b + 1) as usize),
            },
        ),
    ) + seq![
        Some(MirTerminator::Goto { target: BlockId((b + 1) as usize) }),
        Some(MirTerminator::Goto { target: check }),
    ] + tail_terms
    &&& !took ==> new.terms@ == old.terms@.update(
        c.0 as int,
        Some(MirTerminator::Goto { target: check }),
    ) + tail_terms
    &&& new.current == body
}

/// The type of an enumerated element: its index and the element.
pub open spec fn enumerated_ty(ty: MirType) -> MirType {
    MirType::Tuple(
        crate::mir::TypeList::Cons(
            Box::new(MirType::I64),
            Box::new(crate::mir::TypeList::Cons(Box::new(ty), Box::new(crate::mir::TypeList::Nil))),
        ),
    )
}

/// The block the loop body stands in after `filters` filters: the entry
/// block `c0`, then one new block per filter, numbered from `b0`.
pub open spec fn body_block_after(c0: BlockId, b0: nat, filters: nat) -> BlockId {
    if filters == 0 {
        c0
    } else {
        BlockId((b0 + filters - 1) as usize)
    }
}

/// The first `k` adapters applied to the element `op0` of type `ty0`:
/// the value and type that come out, the types of the temps made (numbered
/// from `n0`), the statements emitted, and the predicate temps the filters
/// branched on, in order.
pub open spec fn adapters_fold(
    ad: Seq<IterAdapter>,
    k: int,
    op0: MirOperand,
    ty0: MirType,
    idx: LocalId,
    n0: nat,
    b0: nat,
    c0: BlockId,
) -> (MirOperand, MirType, Seq<MirType>, Seq<(BlockId, StmtForm)>, Seq<LocalId>)
    decreases k,
{
    if k <= 0 {
        (op0, ty0, Seq::empty(), Seq::empty(), Seq::empty())
    } else {
        let (op, ty, lt, forms, preds) = adapters_fold(ad, k - 1, op0, ty0, idx, n0, b0, c0);
        let cur = body_block_after(c0, b0, preds.len());
        let t = LocalId((n0 + lt.len()) as usize);
        match ad[k - 1] {
            IterAdapter::Filter { pred } => (
                op,
                ty,
                lt.push(MirType::Bool),
                forms.push((cur, StmtForm::CallTo { dst: Some(t), func: pred@, args: seq![op] })),
                preds.push(t),
            ),
            IterAdapter::MapTo { func, ret_ty } => (
                local_op(t),
                ret_ty,
                lt.push(ret_ty),
                forms.push((cur, StmtForm::CallTo { dst: Some(t), func: func@, args: seq![op] })),
                preds,
            ),
            IterAdapter::Enumerate => (
                local_op(t),
                enumerated_ty(ty),
                lt.push(enumerated_ty(ty)),
                forms + seq![
                    (
                        cur,
                        StmtForm::Exact(
                            MirStmt::Store { addr: t, offset: 0, value: local_op(idx), store_size: None },
                        ),
                    ),
                    (
                        cur,
                        StmtForm::Exact(
                            MirStmt::Store { addr: t, offset: 8, value: op, store_size: None },
                        ),
                    ),
                ],
                preds,
            ),
            _ => (op, ty, lt, forms, preds),
        }
    }
}

/// The terminators after the filters branched on `preds`: block `c0`, and
/// each new block but the last, branch on the next predicate to the next
/// block or to `inc`; the last new block is open. Other blocks keep theirs.
pub open spec fn filter_terms(
    old_terms: Seq<Option<MirTerminator>>,
    new_terms: Seq<Option<MirTerminator>>,
    preds: Seq<LocalId>,
    c0: BlockId,
    inc: BlockId,
) -> bool {
    let b0 = old_terms.len();
    let f = preds.len();
    &&& new_terms.len() == b0 + f
    &&& f == 0 ==> new_terms == old_terms
    &&& f > 0 ==> {
        &&& forall|j: int| 0 <= j < b0 && j != c0.0 ==> new_terms[j] == old_terms[j]
        &&& new_terms[c0.0 as int] == Some(
            MirTerminator::Branch {
                cond: local_op(preds[0]),
                then_block: BlockId(b0 as usize),
                else_block: inc,
            },
        )
        &&& forall|i: int|
            1 <= i < f ==> #[trigger] new_terms[b0 + i - 1] == Some(
                MirTerminator::Branch {
                    cond: local_op(preds[i]),
                    then_block: BlockId((b0 + i) as usize),
                    else_block: inc,
                },
            )
        &&& new_terms[b0 + f - 1] is None
    }
}

/// `new` is `old` with a chain's adapters applied to the element `op0` of
/// type `ty0` in the loop body, giving `r`; see `adapters_fold`.
pub open spec fn adapters_applied(
    old: crate::builder::MirBuilder,
    new: crate::builder::MirBuilder,
    chain: IterChain,
    op0: MirOperand,
    ty0: MirType,
    inc: BlockId,
    idx: LocalId,
    r: (MirOperand, MirType),
) -> bool {
    let n = old.locals@.len();
    let m = old.stmts@.len() as int;
    let b = old.terms@.len();
    let c = old.current;
    let f = adapters_fold(chain.adapters@, chain.adapters@.len() as int, op0, ty0, idx, n, b, c);
    &&& r == (f.0, f.1)
    &&& new.locals@ == old.locals@ + Seq::new(f.2.len(), |i: int| temp_decl(f.2[i]))
    &&& new.stmts@.subrange(0, m) == old.stmts@
    &&& emitted(new.stmts@, m, f.3)
    &&& filter_terms(old.terms@, new.terms@, f.4, c, inc)
    &&& new.current == body_block_after(c, b, f.4.len())
}

/// `new` is `old` with the loop closed: the block standing open jumps to
/// the increment block, which bumps `idx` through a temp and jumps to the
/// check; the builder moves to the exit block.
pub open spec fn loop_finished(old: crate::builder::MirBuilder, new: crate::builder::MirBuilder, s: IterLoopSetup) -> bool {
    let t = LocalId(old.locals@.len() as usize);
    &&& new.locals@ == old.locals@.push(temp_decl(MirType::I64))
    &&& new.stmts@ == old.stmts@ + seq![
        placed(s.inc_block, assign_op(t, BinOp::Add, local_op(s.idx), int_op(1))),
        placed(s.inc_block, assign_use(s.idx, local_op(t))),
    ]
    &&& new.terms@ == old.terms@.update(
        old.current.0 as int,
        Some(MirTerminator::Goto { target: s.inc_block }),
    ).update(s.inc_block.0 as int, Some(MirTerminator::Goto { target: s.check_block }))
    &&& new.current == s.exit_block
}

/// `new` is `old` with a temp of type `ty` added and `stmt` emitted into
/// the current block.
pub open spec fn temp_then(old: crate::builder::MirBuilder, new: crate::builder::MirBuilder, ty: MirType, stmt: MirStmt) -> bool {
    &&& new.locals@ == old.locals@.push(temp_decl(ty))
    &&& new.stmts@ == old.stmts@.push(placed(old.current, stmt))
    &&& new.terms@ == old.terms@
    &&& new.current == old.current
}

/// `new` is `old` with `acc = acc op value` emitted through a new `i64`
/// temp into the current block.
pub open spec fn accumulated(
    old: crate::builder::MirBuilder,
    new: crate::builder::MirBuilder,
    acc: LocalId,
    op: BinOp,
    value: MirOperand,
) -> bool {
    let t = LocalId(old.locals@.len() as usize);
    &&& new.locals@ == old.locals@.push(temp_decl(MirType::I64))
    &&& new.stmts@ == old.stmts@ + seq![
        placed(old.current, assign_op(t, op, local_op(acc), value)),
        placed(old.current, assign_use(acc, local_op(t))),
    ]
    &&& new.terms@ == old.terms@
    &&& new.current == old.current
}

/// The phases of a counting or summing loop, from `old` to `new`: the
/// accumulator `acc` starts at 0 (`b1`), the loop is set up (`b2`, `s`),
/// the adapters applied (`b3`, giving `out`), `acc = acc + step` where
/// `step` is 1 for a count and the element for a sum (`b4`), and the loop
/// closed.
pub open spec fn fold_phases(
    old: crate::builder::MirBuilder,
    b1: crate::builder::MirBuilder,
    b2: crate::builder::MirBuilder,
    s: IterLoopSetup,
    b3: crate::builder::MirBuilder,
    out: (MirOperand, MirType),
    b4: crate::builder::MirBuilder,
    new: crate::builder::MirBuilder,
    chain: IterChain,
    counting: bool,
) -> bool {
    let acc = LocalId(old.locals@.len() as usize);
    let step = if counting {
        int_op(1)
    } else {
        out.0
    };
    &&& temp_then(old, b1, MirType::I64, assign_use(acc, int_op(0)))
    &&& loop_setup_shape(b1, b2, chain, s)
    &&& adapters_applied(b2, b3, chain, local_op(s.elem_local), s.elem_ty, s.inc_block, s.idx, out)
    &&& accumulated(b3, b4, acc, BinOp::Add, step)
    &&& loop_finished(b4, new, s)
}

/// `new` is `old` with the running extreme in `result` (an optional `i64`)
/// updated by `value`: the slot's tag read, `empty = tag == 1`, its current
/// value read, `beats = value > current` (`<` for a minimum),
/// `take = empty || beats`, and a branch on `take` to a new block that
/// stores tag 0 and `value`, or else to `inc`. The builder is left in the
/// new block.
pub open spec fn extreme_updated(
    old: crate::builder::MirBuilder,
    new: crate::builder::MirBuilder,
    result: LocalId,
    value: MirOperand,
    want_max: bool,
    inc: BlockId,
) -> bool {
    let n = old.locals@.len();
    let c = old.current;
    let tag = LocalId(n as usize);
    let empty = LocalId((n + 1) as usize);
    let current = LocalId((n + 2) as usize);
    let beats = LocalId((n + 3) as usize);
    let take = LocalId((n + 4) as usize);
    let store = BlockId(old.terms@.len() as usize);
    &&& new.locals@ == old.locals@ + seq![
        temp_decl(MirType::U8),
        temp_decl(MirType::Bool),
        temp_decl(MirType::I64),
        temp_decl(MirType::Bool),
        temp_decl(MirType::Bool),
    ]
    &&& new.stmts@ == old.stmts@ + seq![
        placed(c, MirStmt::Assign { dst: tag, rvalue: MirRValue::EnumTag { value: local_op(result) } }),
        placed(c, assign_op(empty, BinOp::Eq, local_op(tag), int_op(1))),
        placed(
            c,
            MirStmt::Assign {
                dst: current,
                rvalue: MirRValue::Field {
                    base: local_op(result),
                    field_index: 0,
                    byte_offset: Some(8u32),
                    access: FieldAccess::Word,
                },
            },
        ),
        placed(
            c,
            assign_op(
                beats,
                if want_max {
                    BinOp::Gt
                } else {
                    BinOp::Lt
                },
                value,
                local_op(current),
            ),
        ),
        placed(c, assign_op(take, BinOp::Or, local_op(empty), local_op(beats))),
        placed(store, MirStmt::Store { addr: result, offset: 0, value: int_op(0), store_size: None }),
        placed(store, MirStmt::Store { addr: result, offset: 8, value: value, store_size: None }),
    ]
    &&& new.terms@ == old.terms@.update(
        c.0 as int,
        Some(MirTerminator::Branch { cond: local_op(take), then_block: store, else_block: inc }),
    ).push(None)
    &&& new.current == store
}

/// The phases of a `min`/`max` loop, from `old` to `new`: the result slot
/// starts empty (tag 1, `b1`), the loop is set up (`b2`, `s`), the adapters
/// applied (`b3`, giving `out`), the extreme updated with the element
/// (`b4`), and the loop closed.
pub open spec fn extreme_phases(
    old: crate::builder::MirBuilder,
    b1: crate::builder::MirBuilder,
    b2: crate::builder::MirBuilder,
    s: IterLoopSetup,
    b3: crate::builder::MirBuilder,
    out: (MirOperand, MirType),
    b4: crate::builder::MirBuilder,
    new: crate::builder::MirBuilder,
    chain: IterChain,
    want_max: bool,
) -> bool {
    let result = LocalId(old.locals@.len() as usize);
    &&& temp_then(
        old,
        b1,
        MirType::Option(Box::new(MirType::I64)),
        MirStmt::Store { addr: result, offset: 0, value: int_op(1), store_size: None },
    )
    &&& loop_setup_shape(b1, b2, chain, s)
    &&& adapters_applied(b2, b3, chain, local_op(s.elem_local), s.elem_ty, s.inc_block, s.idx, out)
    &&& extreme_updated(b3, b4, result, out.0, want_max, s.inc_block)
    &&& loop_finished(b4, new, s)
}

/// The table `s` with `key` mapped to `v`: the first entry with the key
/// replaced, or a new entry at the end.
pub open spec fn keyed_insert(s: Seq<(LocalId, MirType)>, key: LocalId, v: MirType) -> Seq<(LocalId, MirType)>
    decreases s.len(),
{
    if s.len() == 0 {
        seq![(key, v)]
    } else if s[0].0 == key {
        s.update(0, (key, v))
    } else {
        seq![s[0]] + keyed_insert(s.drop_first(), key, v)
    }
}

/// The bytes a Vec gives each element of type `ty`: its slot type's size.
pub open spec fn slot_size_spec(ty: MirType) -> int {
    size_of(crate::expr::vec_slot_type_spec(ty)) as int
}

/// The type a chain's adapters turn an element of type `ty0` into.
pub open spec fn adapted_ty(ad: Seq<IterAdapter>, k: int, ty0: MirType) -> MirType
    decreases k,
{
    if k <= 0 {
        ty0
    } else {
        let ty = adapted_ty(ad, k - 1, ty0);
        match ad[k - 1] {
            IterAdapter::MapTo { ret_ty, .. } => ret_ty,
            IterAdapter::Enumerate => enumerated_ty(ty),
            _ => ty,
        }
    }
}

/// The type coming out of the adapters depends on their types alone.
proof fn lemma_adapted_ty(
    ad: Seq<IterAdapter>,
    k: int,
    op0: MirOperand,
    ty0: MirType,
    idx: LocalId,
    n0: nat,
    b0: nat,
    c0: BlockId,
)
    ensures
        adapters_fold(ad, k, op0, ty0, idx, n0, b0, c0).1 == adapted_ty(ad, k, ty0),
    decreases k,
{
    if k > 0 {
        lemma_adapted_ty(ad, k - 1, op0, ty0, idx, n0, b0, c0);
    }
}

/// Where `keyed_insert` puts the entry.
proof fn lemma_keyed_insert(s: Seq<(LocalId, MirType)>, key: LocalId, v: MirType, i: int)
    requires
        0 <= i <= s.len(),
        forall|j: int| 0 <= j < i ==> s[j].0 != key,
        i < s.len() ==> s[i].0 == key,
    ensures
        i < s.len() ==> keyed_insert(s, key, v) == s.update(i, (key, v)),
        i == s.len() ==> keyed_insert(s, key, v) == s.push((key, v)),
    decreases i,
{
    if i > 0 {
        lemma_keyed_insert(s.drop_first(), key, v, i - 1);
        if i < s.len() {
            assert(seq![s[0]] + s.drop_first().update(i - 1, (key, v)) =~= s.update(i, (key, v)));
        } else {
            assert(seq![s[0]] + s.drop_first().push((key, v)) =~= s.push((key, v)));
        }
    } else if s.len() == 0 {
        assert(seq![(key, v)] =~= s.push((key, v)));
    }
}

/// `new` is `old` with a new `i64` temp `dst` and a call
/// `dst = func(args)` emitted into the current block.
pub open spec fn temp_call(
    old: crate::builder::MirBuilder,
    new: crate::builder::MirBuilder,
    dst: LocalId,
    func: Seq<char>,
    args: Seq<MirOperand>,
) -> bool {
    let m = old.stmts@.len() as int;
    &&& dst == LocalId(old.locals@.len() as usize)
    &&& new.locals@ == old.locals@.push(temp_decl(MirType::I64))
    &&& new.stmts@.len() == m + 1
    &&& new.stmts@.subrange(0, m) == old.stmts@
    &&& new.stmts@[m].block == old.current
    &&& is_call(new.stmts@[m].stmt, Some(dst), func, args)
    &&& new.terms@ == old.terms@
    &&& new.current == old.current
}

/// `new` is `old` with the call at position `pos` given the arguments
/// `args` and nothing else changed.
pub open spec fn call_args_set(
    old: crate::builder::MirBuilder,
    new: crate::builder::MirBuilder,
    pos: int,
    dst: LocalId,
    func: Seq<char>,
    args: Seq<MirOperand>,
) -> bool {
    &&& new.locals@ == old.locals@
    &&& new.terms@ == old.terms@
    &&& new.current == old.current
    &&& new.stmts@.len() == old.stmts@.len()
    &&& forall|i: int| 0 <= i < old.stmts@.len() && i != pos ==> new.stmts@[i] == old.stmts@[i]
    &&& new.stmts@[pos].block == old.stmts@[pos].block
    &&& is_call(new.stmts@[pos].stmt, Some(dst), func, args)
}

/// `new` is `old` with the call `func(args)`, whose result is dropped,
/// emitted into the current block.
pub open spec fn effect_call(
    old: crate::builder::MirBuilder,
    new: crate::builder::MirBuilder,
    func: Seq<char>,
    args: Seq<MirOperand>,
) -> bool {
    let m = old.stmts@.len() as int;
    &&& new.locals@ == old.locals@
    &&& new.stmts@.len() == m + 1
    &&& new.stmts@.subrange(0, m) == old.stmts@
    &&& new.stmts@[m].block == old.current
    &&& is_call(new.stmts@[m].stmt, None, func, args)
    &&& new.terms@ == old.terms@
    &&& new.current == old.current
}

/// The phases of a `collect` loop, from `old` to `new`: a `Vec_new()` into
/// the result (`b1`), the loop set up (`b2`, `s`), the adapters applied
/// (`b3`, giving `out`), the `Vec_new` call given the element size when
/// that is positive (`b4`), `Vec_push(result, element)` (`b5`), and the
/// loop closed. With a positive size the result's element type is recorded
/// in the collected-types table, from `tbl` to `new_tbl`.
pub open spec fn collect_phases(
    old: crate::builder::MirBuilder,
    b1: crate::builder::MirBuilder,
    b2: crate::builder::MirBuilder,
    s: IterLoopSetup,
    b3: crate::builder::MirBuilder,
    out: (MirOperand, MirType),
    b4: crate::builder::MirBuilder,
    b5: crate::builder::MirBuilder,
    new: crate::builder::MirBuilder,
    chain: IterChain,
    tbl: Seq<(LocalId, MirType)>,
    new_tbl: Seq<(LocalId, MirType)>,
) -> bool {
    let v = LocalId(old.locals@.len() as usize);
    let pos = old.stmts@.len() as int;
    let z = slot_size_spec(out.1);
    &&& temp_call(old, b1, v, "Vec_new"@, Seq::empty())
    &&& loop_setup_shape(b1, b2, chain, s)
    &&& adapters_applied(b2, b3, chain, local_op(s.elem_local), s.elem_ty, s.inc_block, s.idx, out)
    &&& z > 0 ==> call_args_set(b3, b4, pos, v, "Vec_new"@, seq![int_op(z as i64)])
        && new_tbl == keyed_insert(tbl, v, out.1)
    &&& z <= 0 ==> b4 == b3 && new_tbl == tbl
    &&& effect_call(b4, b5, "Vec_push"@, seq![local_op(v), out.0])
    &&& loop_finished(b5, new, s)
}

/// The key and value types of a pair: a tuple of exactly two elements.
pub open spec fn pair_parts(ty: MirType) -> Option<(MirType, MirType)> {
    match ty {
        MirType::Tuple(l) => if crate::mir::list_seq(l).len() == 2 {
            Some((crate::mir::list_seq(l)[0], crate::mir::list_seq(l)[1]))
        } else {
            None
        },
        _ => None,
    }
}


/// `new` is `old` with the key and value of the pair `pair` read into new
/// temps of their types, the value at byte `key_size`, and inserted with
/// `Map_insert(map, key, value)`, all in the current block.
pub open spec fn pair_inserted(
    old: crate::builder::MirBuilder,
    new: crate::builder::MirBuilder,
    pair: MirOperand,
    key_ty: MirType,
    val_ty: MirType,
    key_size: int,
    map: LocalId,
) -> bool {
    let n = old.locals@.len();
    let m = old.stmts@.len() as int;
    let c = old.current;
    let key = LocalId(n as usize);
    let val = LocalId((n + 1) as usize);
    &&& new.locals@ == old.locals@ + seq![temp_decl(key_ty), temp_decl(val_ty)]
    &&& new.stmts@.len() == m + 3
    &&& new.stmts@.subrange(0, m) == old.stmts@
    &&& new.stmts@[m] == placed(
        c,
        MirStmt::Assign {
            dst: key,
            rvalue: MirRValue::Field {
                base: pair,
                field_index: 0,
                byte_offset: Some(0u32),
                access: FieldAccess::Word,
            },
        },
    )
    &&& new.stmts@[m + 1] == placed(
        c,
        MirStmt::Assign {
            dst: val,
            rvalue: MirRValue::Field {
                base: pair,
                field_index: 1,
                byte_offset: Some(key_size as u32),
                access: FieldAccess::Word,
            },
        },
    )
    &&& new.stmts@[m + 2].block == c
    &&& is_call(new.stmts@[m + 2].stmt, None, "Map_insert"@, seq![local_op(map), local_op(key), local_op(val)])
    &&& new.terms@ == old.terms@
    &&& new.current == c
}

/// The phases of a `to_map` loop, from `old` to `new`, answering `r`: a
/// `Map_new()` into the result (`b1`), the loop set up (`b2`, `s`), the
/// adapters applied (`b3`, giving `out`). When `out` is a pair, the
/// `Map_new` call is given the key and value slot sizes (`b4`), the pair
/// is inserted (`b5`), the loop closed, and the map answered. Otherwise
/// the error names the type that came out, and nothing more is emitted.
pub open spec fn to_map_phases(
    old: crate::builder::MirBuilder,
    b1: crate::builder::MirBuilder,
    b2: crate::builder::MirBuilder,
    s: IterLoopSetup,
    b3: crate::builder::MirBuilder,
    out: (MirOperand, MirType),
    b4: crate::builder::MirBuilder,
    b5: crate::builder::MirBuilder,
    new: crate::builder::MirBuilder,
    chain: IterChain,
    r: Result<(MirOperand, MirType), crate::lowerer::LoweringError>,
) -> bool {
    let map = LocalId(old.locals@.len() as usize);
    let pos = old.stmts@.len() as int;
    &&& temp_call(old, b1, map, "Map_new"@, Seq::empty())
    &&& loop_setup_shape(b1, b2, chain, s)
    &&& adapters_applied(b2, b3, chain, local_op(s.elem_local), s.elem_ty, s.inc_block, s.idx, out)
    &&& match pair_parts(out.1) {
        Some((k, v)) => {
            &&& call_args_set(
                b3,
                b4,
                pos,
                map,
                "Map_new"@,
                seq![int_op(slot_size_spec(k) as i64), int_op(slot_size_spec(v) as i64)],
            )
            &&& pair_inserted(b4, b5, out.0, k, v, slot_size_spec(k), map)
            &&& loop_finished(b5, new, s)
            &&& r == Ok::<(MirOperand, MirType), crate::lowerer::LoweringError>((local_op(map), MirType::I64))
        },
        None => {
            &&& new == b3
            &&& r matches Err(crate::lowerer::LoweringError::InvalidConstruct(msg))
            &&& msg@ == "to_map needs a sequence of pairs, got "@ + mir_debug(out.1)
        },
    }
}

/// A pair type's parts fit the sizes a Vec or Map slot holds.
pub open spec fn pair_fits(ty: MirType) -> bool {
    match pair_parts(ty) {
        Some((k, v)) => size_fits(k) && size_fits(v),
        None => true,
    }
}

impl MirLowerer {
    /// The key and value types of a pair type.
    fn pair_types(ty: &MirType) -> (r: Option<(MirType, MirType)>)
        ensures
            r == pair_parts(*ty),
    {
        proof {
            reveal_with_fuel(crate::mir::list_seq, 4);
        }
        match ty {
            MirType::Tuple(l) => match l {
                TypeList::Cons(k, rest) => match &**rest {
                    TypeList::Cons(v, tail) => match &**tail {
                        TypeList::Nil => Some(((**k).duplicate(), (**v).duplicate())),
                        TypeList::Cons(_, _) => None,
                    },
                    TypeList::Nil => None,
                },
                TypeList::Nil => None,
            },
            _ => None,
        }
    }

    /// `.to_map()`: the collect loop, inserting each pair the adapters yield
    /// into a new Map whose slot sizes are filled in from the pair's types;
    /// later keys overwrite earlier ones. An error when the adapters do not
    /// yield pairs. See `to_map_phases`.
    pub fn lower_iter_to_map(&mut self, chain: &IterChain) -> (r: Result<(MirOperand, MirType), crate::lowerer::LoweringError>)
        requires
            old(self).builder.wf(),
            size_fits(chain.source_ty),
            pair_fits(adapted_ty(chain.adapters@, chain.adapters@.len() as int, chain_elem_ty(*chain))),
        ensures
            exists|
                b1: crate::builder::MirBuilder,
                b2: crate::builder::MirBuilder,
                s: IterLoopSetup,
                b3: crate::builder::MirBuilder,
                out: (MirOperand, MirType),
                b4: crate::builder::MirBuilder,
                b5: crate::builder::MirBuilder,
            |
                #[trigger] to_map_phases(
                    old(self).builder,
                    b1,
                    b2,
                    s,
                    b3,
                    out,
                    b4,
                    b5,
                    final(self).builder,
                    *chain,
                    r,
                ),
            final(self).builder.wf(),
            final(self).ctx == old(self).ctx,
            final(self).collected_elem_types@ == old(self).collected_elem_types@,
    {
        let result_map = self.builder.alloc_temp(MirType::I64);
        let map_new_pos = self.builder.next_stmt_pos();
        self.builder.push_stmt(
            MirStmt::Call { dst: Some(result_map), func: String::from_str("Map_new"), args: Vec::new() },
        );
        let ghost b1 = self.builder;
        proof {
            assert(b1.stmts@.subrange(0, map_new_pos as int) =~= old(self).builder.stmts@);
            assert(b1.stmts@[map_new_pos as int].stmt matches MirStmt::Call { args: a, .. } && a@
                =~= Seq::<MirOperand>::empty());
        }
        let setup = self.setup_iter_chain_loop(chain);
        let ghost b2 = self.builder;
        proof {
            lemma_setup_blocks(b1, b2, *chain, setup);
        }
        let (final_op, final_ty) = self.apply_iter_adapters(
            chain,
            MirOperand::Local(setup.elem_local),
            setup.elem_ty.duplicate(),
            setup.inc_block,
            setup.idx,
        );
        let ghost b3 = self.builder;
        let ghost out = (final_op, final_ty);
        proof {
            let f = adapters_fold(
                chain.adapters@,
                chain.adapters@.len() as int,
                local_op(setup.elem_local),
                setup.elem_ty,
                setup.idx,
                b2.locals@.len(),
                b2.terms@.len(),
                b2.current,
            );
            lemma_filter_terms_len(b2.terms@, b3.terms@, f.4, b2.current, setup.inc_block);
            lemma_adapted_ty(
                chain.adapters@,
                chain.adapters@.len() as int,
                local_op(setup.elem_local),
                setup.elem_ty,
                setup.idx,
                b2.locals@.len(),
                b2.terms@.len(),
                b2.current,
            );
            assert(b3.stmts@[map_new_pos as int] == b1.stmts@[map_new_pos as int]) by {
                assert(b2.stmts@.subrange(0, b1.stmts@.len() as int)[map_new_pos as int] == b2.stmts@[map_new_pos as int]);
                assert(b3.stmts@.subrange(0, b2.stmts@.len() as int)[map_new_pos as int] == b3.stmts@[map_new_pos as int]);
            }
        }
        let (key_ty, val_ty) = match Self::pair_types(&final_ty) {
            Some(kv) => kv,
            None => {
                let mut msg = String::from_str("to_map needs a sequence of pairs, got ");
                let shown = mir_type_debug(&final_ty);
                msg.append(shown.as_str());
                let r = Err(crate::lowerer::LoweringError::InvalidConstruct(msg));
                proof {
                    assert(to_map_phases(old(self).builder, b1, b2, setup, b3, out, b3, b3, self.builder, *chain, r));
                }
                return r;
            },
        };
        let key_size = Self::mir_slot_size(&key_ty);
        let val_size = Self::mir_slot_size(&val_ty);
        let mut args: Vec<MirOperand> = Vec::new();
        args.push(MirOperand::Constant(MirConst::Int(key_size)));
        args.push(MirOperand::Constant(MirConst::Int(val_size)));
        let ghost argv = args@;
        self.builder.set_call_args(map_new_pos, "Map_new", args);
        let ghost b4 = self.builder;
        proof {
            assert(argv =~= seq![int_op(key_size), int_op(val_size)]);
        }
        let key = self.builder.alloc_temp(key_ty);
        self.builder.push_stmt(
            MirStmt::Assign {
                dst: key,
                rvalue: MirRValue::Field {
                    base: final_op.duplicate(),
                    field_index: 0,
                    byte_offset: Some(0),
                    access: FieldAccess::Word,
                },
            },
        );
        let val = self.builder.alloc_temp(val_ty);
        self.builder.push_stmt(
            MirStmt::Assign {
                dst: val,
                rvalue: MirRValue::Field {
                    base: final_op,
                    field_index: 1,
                    byte_offset: Some(key_size as u32),
                    access: FieldAccess::Word,
                },
            },
        );
        let mut ins_args: Vec<MirOperand> = Vec::new();
        ins_args.push(MirOperand::Local(result_map));
        ins_args.push(MirOperand::Local(key));
        ins_args.push(MirOperand::Local(val));
        let ghost insv = ins_args@;
        self.builder.push_stmt(MirStmt::Call { dst: None, func: String::from_str("Map_insert"), args: ins_args });
        let ghost b5 = self.builder;
        proof {
            assert(insv =~= seq![local_op(result_map), local_op(key), local_op(val)]);
            assert(b5.stmts@.subrange(0, b4.stmts@.len() as int) =~= b4.stmts@);
            let kv = pair_parts(out.1).unwrap();
            assert(b5.locals@ =~= b4.locals@ + seq![temp_decl(kv.0), temp_decl(kv.1)]);
        }
        self.finish_iter_loop(&setup);
        let r = Ok((MirOperand::Local(result_map), MirType::I64));
        proof {
            assert(to_map_phases(old(self).builder, b1, b2, setup, b3, out, b4, b5, self.builder, *chain, r));
        }
        r
    }

    /// `.collect()`: a loop pushing what the adapters yield into a new Vec,
    /// whose element size is filled in once the adapters have decided the
    /// element type; see `collect_phases`.
    pub fn lower_iter_collect(&mut self, chain: &IterChain) -> (r: (MirOperand, MirType))
        requires
            old(self).builder.wf(),
            size_fits(chain.source_ty),
            size_fits(adapted_ty(chain.adapters@, chain.adapters@.len() as int, chain_elem_ty(*chain))),
        ensures
            r == (local_op(LocalId(old(self).builder.locals@.len() as usize)), MirType::I64),
            exists|
                b1: crate::builder::MirBuilder,
                b2: crate::builder::MirBuilder,
                s: IterLoopSetup,
                b3: crate::builder::MirBuilder,
                out: (MirOperand, MirType),
                b4: crate::builder::MirBuilder,
                b5: crate::builder::MirBuilder,
            |
                #[trigger] collect_phases(
                    old(self).builder,
                    b1,
                    b2,
                    s,
                    b3,
                    out,
                    b4,
                    b5,
                    final(self).builder,
                    *chain,
                    old(self).collected_elem_types@,
                    final(self).collected_elem_types@,
                ),
            final(self).builder.wf(),
            final(self).ctx == old(self).ctx,
    {
        let result_vec = self.builder.alloc_temp(MirType::I64);
        let vec_new_pos = self.builder.next_stmt_pos();
        self.builder.push_stmt(
            MirStmt::Call { dst: Some(result_vec), func: String::from_str("Vec_new"), args: Vec::new() },
        );
        let ghost b1 = self.builder;
        proof {
            assert(b1.stmts@.subrange(0, vec_new_pos as int) =~= old(self).builder.stmts@);
            assert(b1.stmts@[vec_new_pos as int].stmt matches MirStmt::Call { args: a, .. } && a@
                =~= Seq::<MirOperand>::empty());
        }
        let setup = self.setup_iter_chain_loop(chain);
        let ghost b2 = self.builder;
        proof {
            lemma_setup_blocks(b1, b2, *chain, setup);
        }
        let (final_op, final_ty) = self.apply_iter_adapters(
            chain,
            MirOperand::Local(setup.elem_local),
            setup.elem_ty.duplicate(),
            setup.inc_block,
            setup.idx,
        );
        let ghost b3 = self.builder;
        let ghost out = (final_op, final_ty);
        let ghost tbl = self.collected_elem_types@;
        proof {
            let f = adapters_fold(
                chain.adapters@,
                chain.adapters@.len() as int,
                local_op(setup.elem_local),
                setup.elem_ty,
                setup.idx,
                b2.locals@.len(),
                b2.terms@.len(),
                b2.current,
            );
            lemma_filter_terms_len(b2.terms@, b3.terms@, f.4, b2.current, setup.inc_block);
            lemma_adapted_ty(
                chain.adapters@,
                chain.adapters@.len() as int,
                local_op(setup.elem_local),
                setup.elem_ty,
                setup.idx,
                b2.locals@.len(),
                b2.terms@.len(),
                b2.current,
            );
            assert(b3.stmts@[vec_new_pos as int] == b1.stmts@[vec_new_pos as int]) by {
                assert(b2.stmts@.subrange(0, b1.stmts@.len() as int)[vec_new_pos as int] == b2.stmts@[vec_new_pos as int]);
                assert(b3.stmts@.subrange(0, b2.stmts@.len() as int)[vec_new_pos as int] == b3.stmts@[vec_new_pos as int]);
            }
        }
        let elem_size = Self::mir_slot_size(&final_ty);
        if elem_size > 0 {
            let mut args: Vec<MirOperand> = Vec::new();
            args.push(MirOperand::Constant(MirConst::Int(elem_size)));
            let ghost argv = args@;
            self.builder.set_call_args(vec_new_pos, "Vec_new", args);
            proof {
                assert(argv =~= seq![int_op(elem_size)]);
            }
            self.insert_collected(result_vec, final_ty);
        }
        let ghost b4 = self.builder;
        let mut push_args: Vec<MirOperand> = Vec::new();
        push_args.push(MirOperand::Local(result_vec));
        push_args.push(final_op);
        let ghost pushv = push_args@;
        self.builder.push_stmt(MirStmt::Call { dst: None, func: String::from_str("Vec_push"), args: push_args });
        let ghost b5 = self.builder;
        proof {
            assert(pushv =~= seq![local_op(result_vec), out.0]);
            assert(b5.stmts@.subrange(0, b4.stmts@.len() as int) =~= b4.stmts@);
        }
        self.finish_iter_loop(&setup);
        proof {
            assert(collect_phases(
                old(self).builder,
                b1,
                b2,
                setup,
                b3,
                out,
                b4,
                b5,
                self.builder,
                *chain,
                old(self).collected_elem_types@,
                self.collected_elem_types@,
            ));
        }
        (MirOperand::Local(result_vec), MirType::I64)
    }

    /// The bytes a Vec gives each element of type `ty`: 8 for a scalar
    /// narrower than a word, the type's own size otherwise.
    pub fn mir_slot_size(ty: &MirType) -> (r: i64)
        requires
            size_fits(*ty),
        ensures
            r == slot_size_spec(*ty),
    {
        let slot = crate::expr::vec_slot_type(ty.duplicate());
        proof {
            if !(slot is Struct || slot is Enum) && size_of(*ty) < 8 {
                assert(slot == MirType::I64);
            }
        }
        slot.size() as i64
    }

    /// Record `ty` as the element type of the Vec collected into `key`.
    pub(crate) fn insert_collected(&mut self, key: LocalId, ty: MirType)
        ensures
            final(self).collected_elem_types@ == keyed_insert(old(self).collected_elem_types@, key, ty),
            final(self).builder == old(self).builder,
            final(self).ctx == old(self).ctx,
    {
        let mut i: usize = 0;
        while i < self.collected_elem_types.len()
            invariant
                i <= self.collected_elem_types@.len(),
                self.collected_elem_types@ == old(self).collected_elem_types@,
                forall|j: int| 0 <= j < i ==> self.collected_elem_types@[j].0 != key,
                self.builder == old(self).builder,
                self.ctx == old(self).ctx,
            decreases self.collected_elem_types@.len() - i,
        {
            if self.collected_elem_types[i].0 == key {
                proof {
                    lemma_keyed_insert(self.collected_elem_types@, key, ty, i as int);
                }
                self.collected_elem_types.set(i, (key, ty));
                return;
            }
            i = i + 1;
        }
        proof {
            lemma_keyed_insert(self.collected_elem_types@, key, ty, i as int);
        }
        self.collected_elem_types.push((key, ty));
    }

    /// `.min()` / `.max()`: a loop keeping the running extreme of what the
    /// adapters yield in an optional `i64`, empty for an empty sequence; see
    /// `extreme_phases`.
    pub fn lower_iter_extreme(&mut self, chain: &IterChain, want_max: bool) -> (r: (MirOperand, MirType))
        requires
            old(self).builder.wf(),
            size_fits(chain.source_ty),
        ensures
            r == (
                local_op(LocalId(old(self).builder.locals@.len() as usize)),
                MirType::Option(Box::new(MirType::I64)),
            ),
            exists|
                b1: crate::builder::MirBuilder,
                b2: crate::builder::MirBuilder,
                s: IterLoopSetup,
                b3: crate::builder::MirBuilder,
                out: (MirOperand, MirType),
                b4: crate::builder::MirBuilder,
            |
                #[trigger] extreme_phases(
                    old(self).builder,
                    b1,
                    b2,
                    s,
                    b3,
                    out,
                    b4,
                    final(self).builder,
                    *chain,
                    want_max,
                ),
            final(self).builder.wf(),
            final(self).ctx == old(self).ctx,
            final(self).collected_elem_types@ == old(self).collected_elem_types@,
    {
        let result = self.builder.alloc_temp(MirType::Option(Box::new(MirType::I64)));
        self.builder.push_stmt(
            MirStmt::Store {
                addr: result,
                offset: 0,
                value: MirOperand::Constant(MirConst::Int(1)),
                store_size: None,
            },
        );
        let ghost b1 = self.builder;
        let setup = self.setup_iter_chain_loop(chain);
        let ghost b2 = self.builder;
        proof {
            lemma_setup_blocks(b1, b2, *chain, setup);
        }
        let (final_op, final_ty) = self.apply_iter_adapters(
            chain,
            MirOperand::Local(setup.elem_local),
            setup.elem_ty.duplicate(),
            setup.inc_block,
            setup.idx,
        );
        let ghost b3 = self.builder;
        let ghost out = (final_op, final_ty);
        proof {
            lemma_filter_terms_len(b2.terms@, b3.terms@, adapters_fold(
                chain.adapters@,
                chain.adapters@.len() as int,
                local_op(setup.elem_local),
                setup.elem_ty,
                setup.idx,
                b2.locals@.len(),
                b2.terms@.len(),
                b2.current,
            ).4, b2.current, setup.inc_block);
        }
        let tag = self.builder.alloc_temp(MirType::U8);
        self.builder.push_stmt(
            MirStmt::Assign {
                dst: tag,
                rvalue: MirRValue::EnumTag { value: MirOperand::Local(result) },
            },
        );
        let is_empty = self.builder.alloc_temp(MirType::Bool);
        self.builder.push_stmt(
            MirStmt::Assign {
                dst: is_empty,
                rvalue: MirRValue::BinaryOp {
                    op: BinOp::Eq,
                    left: MirOperand::Local(tag),
                    right: MirOperand::Constant(MirConst::Int(1)),
                },
            },
        );
        let current = self.builder.alloc_temp(MirType::I64);
        self.builder.push_stmt(
            MirStmt::Assign {
                dst: current,
                rvalue: MirRValue::Field {
                    base: MirOperand::Local(result),
                    field_index: 0,
                    byte_offset: Some(8),
                    access: FieldAccess::Word,
                },
            },
        );
        let beats = self.builder.alloc_temp(MirType::Bool);
        let op = if want_max {
            BinOp::Gt
        } else {
            BinOp::Lt
        };
        self.builder.push_stmt(
            MirStmt::Assign {
                dst: beats,
                rvalue: MirRValue::BinaryOp {
                    op,
                    left: final_op.duplicate(),
                    right: MirOperand::Local(current),
                },
            },
        );
        let take = self.builder.alloc_temp(MirType::Bool);
        self.builder.push_stmt(
            MirStmt::Assign {
                dst: take,
                rvalue: MirRValue::BinaryOp {
                    op: BinOp::Or,
                    left: MirOperand::Local(is_empty),
                    right: MirOperand::Local(beats),
                },
            },
        );
        let store_block = self.builder.create_block();
        self.builder.terminate(
            MirTerminator::Branch {
                cond: MirOperand::Local(take),
                then_block: store_block,
                else_block: setup.inc_block,
            },
        );
        self.builder.switch_to_block(store_block);
        self.builder.push_stmt(
            MirStmt::Store {
                addr: result,
                offset: 0,
                value: MirOperand::Constant(MirConst::Int(0)),
                store_size: None,
            },
        );
        self.builder.push_stmt(
            MirStmt::Store { addr: result, offset: 8, value: final_op, store_size: None },
        );
        let ghost b4 = self.builder;
        proof {
            assert(b4.terms@ =~= b3.terms@.update(
                b3.current.0 as int,
                Some(MirTerminator::Branch { cond: local_op(take), then_block: store_block, else_block: setup.inc_block }),
            ).push(None));
            assert(b4.locals@ =~= b3.locals@ + seq![
                temp_decl(MirType::U8),
                temp_decl(MirType::Bool),
                temp_decl(MirType::I64),
                temp_decl(MirType::Bool),
                temp_decl(MirType::Bool),
            ]);
            assert(b4.stmts@ =~= b3.stmts@ + seq![
                placed(b3.current, MirStmt::Assign { dst: tag, rvalue: MirRValue::EnumTag { value: local_op(result) } }),
                placed(b3.current, assign_op(is_empty, BinOp::Eq, local_op(tag), int_op(1))),
                placed(
                    b3.current,
                    MirStmt::Assign {
                        dst: current,
                        rvalue: MirRValue::Field {
                            base: local_op(result),
                            field_index: 0,
                            byte_offset: Some(8u32),
                            access: FieldAccess::Word,
                        },
                    },
                ),
                placed(b3.current, assign_op(beats, op, out.0, local_op(current))),
                placed(b3.current, assign_op(take, BinOp::Or, local_op(is_empty), local_op(beats))),
                placed(store_block, MirStmt::Store { addr: result, offset: 0, value: int_op(0), store_size: None }),
                placed(store_block, MirStmt::Store { addr: result, offset: 8, value: out.0, store_size: None }),
            ]);
        }
        self.finish_iter_loop(&setup);
        proof {
            assert(temp_then(
                old(self).builder,
                b1,
                MirType::Option(Box::new(MirType::I64)),
                MirStmt::Store { addr: result, offset: 0, value: int_op(1), store_size: None },
            ));
            assert(extreme_updated(b3, b4, result, out.0, want_max, setup.inc_block));
            assert(extreme_phases(old(self).builder, b1, b2, setup, b3, out, b4, self.builder, *chain, want_max));
        }
        (MirOperand::Local(result), MirType::Option(Box::new(MirType::I64)))
    }

    /// A counting or summing loop over a chain; see `fold_phases`.
    fn lower_iter_fold_add(&mut self, chain: &IterChain, counting: bool) -> (r: (MirOperand, MirType))
        requires
            old(self).builder.wf(),
            size_fits(chain.source_ty),
        ensures
            r == (local_op(LocalId(old(self).builder.locals@.len() as usize)), MirType::I64),
            exists|
                b1: crate::builder::MirBuilder,
                b2: crate::builder::MirBuilder,
                s: IterLoopSetup,
                b3: crate::builder::MirBuilder,
                out: (MirOperand, MirType),
                b4: crate::builder::MirBuilder,
            |
                #[trigger] fold_phases(
                    old(self).builder,
                    b1,
                    b2,
                    s,
                    b3,
                    out,
                    b4,
                    final(self).builder,
                    *chain,
                    counting,
                ),
            final(self).builder.wf(),
            final(self).ctx == old(self).ctx,
            final(self).collected_elem_types@ == old(self).collected_elem_types@,
    {
        let acc = self.builder.alloc_temp(MirType::I64);
        self.builder.push_stmt(
            MirStmt::Assign { dst: acc, rvalue: MirRValue::Use(MirOperand::Constant(MirConst::Int(0))) },
        );
        let ghost b1 = self.builder;
        let setup = self.setup_iter_chain_loop(chain);
        let ghost b2 = self.builder;
        proof {
            lemma_setup_blocks(b1, b2, *chain, setup);
        }
        let (final_op, final_ty) = self.apply_iter_adapters(
            chain,
            MirOperand::Local(setup.elem_local),
            setup.elem_ty.duplicate(),
            setup.inc_block,
            setup.idx,
        );
        let ghost b3 = self.builder;
        let ghost out = (final_op, final_ty);
        let step = if counting {
            MirOperand::Constant(MirConst::Int(1))
        } else {
            final_op
        };
        let t = self.builder.alloc_temp(MirType::I64);
        self.builder.push_stmt(
            MirStmt::Assign {
                dst: t,
                rvalue: MirRValue::BinaryOp { op: BinOp::Add, left: MirOperand::Local(acc), right: step },
            },
        );
        self.builder.push_stmt(MirStmt::Assign { dst: acc, rvalue: MirRValue::Use(MirOperand::Local(t)) });
        let ghost b4 = self.builder;
        proof {
            assert(b4.stmts@ =~= b3.stmts@ + seq![
                placed(b3.current, assign_op(t, BinOp::Add, local_op(acc), step)),
                placed(b3.current, assign_use(acc, local_op(t))),
            ]);
            lemma_filter_terms_len(b2.terms@, b3.terms@, adapters_fold(
                chain.adapters@,
                chain.adapters@.len() as int,
                local_op(setup.elem_local),
                setup.elem_ty,
                setup.idx,
                b2.locals@.len(),
                b2.terms@.len(),
                b2.current,
            ).4, b2.current, setup.inc_block);
        }
        self.finish_iter_loop(&setup);
        proof {
            assert(fold_phases(old(self).builder, b1, b2, setup, b3, out, b4, self.builder, *chain, counting));
        }
        (MirOperand::Local(acc), MirType::I64)
    }

    /// `.count()`: a loop counting the elements that pass the filters,
    /// into an `i64` starting at 0; see `fold_phases`.
    pub fn lower_iter_count(&mut self, chain: &IterChain) -> (r: (MirOperand, MirType))
        requires
            old(self).builder.wf(),
            size_fits(chain.source_ty),
        ensures
            r == (local_op(LocalId(old(self).builder.locals@.len() as usize)), MirType::I64),
            exists|
                b1: crate::builder::MirBuilder,
                b2: crate::builder::MirBuilder,
                s: IterLoopSetup,
                b3: crate::builder::MirBuilder,
                out: (MirOperand, MirType),
                b4: crate::builder::MirBuilder,
            |
                #[trigger] fold_phases(
                    old(self).builder,
                    b1,
                    b2,
                    s,
                    b3,
                    out,
                    b4,
                    final(self).builder,
                    *chain,
                    true,
                ),
            final(self).builder.wf(),
            final(self).ctx == old(self).ctx,
            final(self).collected_elem_types@ == old(self).collected_elem_types@,
    {
        self.lower_iter_fold_add(chain, true)
    }

    /// `.sum()`: a loop adding each element the adapters yield into an
    /// `i64` starting at 0; see `fold_phases`.
    pub fn lower_iter_sum(&mut self, chain: &IterChain) -> (r: (MirOperand, MirType))
        requires
            old(self).builder.wf(),
            size_fits(chain.source_ty),
        ensures
            r == (local_op(LocalId(old(self).builder.locals@.len() as usize)), MirType::I64),
            exists|
                b1: crate::builder::MirBuilder,
                b2: crate::builder::MirBuilder,
                s: IterLoopSetup,
                b3: crate::builder::MirBuilder,
                out: (MirOperand, MirType),
                b4: crate::builder::MirBuilder,
            |
                #[trigger] fold_phases(
                    old(self).builder,
                    b1,
                    b2,
                    s,
                    b3,
                    out,
                    b4,
                    final(self).builder,
                    *chain,
                    false,
                ),
            final(self).builder.wf(),
            final(self).ctx == old(self).ctx,
            final(self).collected_elem_types@ == old(self).collected_elem_types@,
    {
        self.lower_iter_fold_add(chain, false)
    }

    /// Close the loop body: jump to the increment block, emit the increment,
    /// and go on in the exit block.
    pub(crate) fn finish_iter_loop(&mut self, setup: &IterLoopSetup)
        requires
            old(self).builder.wf(),
            setup.inc_block.0 < old(self).builder.terms@.len(),
            setup.exit_block.0 < old(self).builder.terms@.len(),
        ensures
            loop_finished(old(self).builder, final(self).builder, *setup),
            final(self).builder.wf(),
            final(self).ctx == old(self).ctx,
            final(self).collected_elem_types@ == old(self).collected_elem_types@,
    {
        self.builder.terminate(MirTerminator::Goto { target: setup.inc_block });
        self.emit_iter_increment(setup.idx, setup.inc_block, setup.check_block);
        self.builder.switch_to_block(setup.exit_block);
    }

    /// Run the `skip`/`take` adapters of a chain over the range bounds,
    /// emitting a sum for each `take` that follows a `skip`.
    fn emit_chain_bounds(&mut self, adapters: &Vec<IterAdapter>, len_local: LocalId) -> (r: (
        Option<MirOperand>,
        MirOperand,
        bool,
    ))
        ensures
            ({
                let b = chain_bounds(
                    adapters@,
                    adapters@.len() as int,
                    len_local,
                    old(self).builder.locals@.len(),
                );
                &&& r == (b.0, b.1, b.2)
                &&& final(self).builder.locals@ == old(self).builder.locals@ + temps(
                    b.3.len(),
                    MirType::I64,
                )
                &&& final(self).builder.stmts@ == old(self).builder.stmts@ + placed_all(
                    old(self).builder.current,
                    b.3,
                )
            }),
            final(self).builder.terms@ == old(self).builder.terms@,
            final(self).builder.current == old(self).builder.current,
            final(self).ctx == old(self).ctx,
            final(self).collected_elem_types@ == old(self).collected_elem_types@,
    {
        let ghost first = self.builder.locals@.len();
        let ghost c = self.builder.current;
        let mut start_val: Option<MirOperand> = None;
        let mut end_op = MirOperand::Local(len_local);
        let mut took = false;
        let mut k: usize = 0;
        while k < adapters.len()
            invariant
                k <= adapters@.len(),
                first == old(self).builder.locals@.len(),
                c == old(self).builder.current,
                ({
                    let b = chain_bounds(adapters@, k as int, len_local, first);
                    &&& (start_val, end_op, took) == (b.0, b.1, b.2)
                    &&& self.builder.locals@ == old(self).builder.locals@ + temps(
                        b.3.len(),
                        MirType::I64,
                    )
                    &&& self.builder.stmts@ == old(self).builder.stmts@ + placed_all(c, b.3)
                }),
                self.builder.terms@ == old(self).builder.terms@,
                self.builder.current == c,
                self.ctx == old(self).ctx,
                self.collected_elem_types@ == old(self).collected_elem_types@,
            decreases adapters@.len() - k,
        {
            let ghost prev = chain_bounds(adapters@, k as int, len_local, first);
            match &adapters[k] {
                IterAdapter::Skip { count } => {
                    start_val = Some(count.duplicate());
                },
                IterAdapter::Take { count } => {
                    took = true;
                    match &start_val {
                        Some(start) => {
                            let adjusted = self.builder.alloc_temp(MirType::I64);
                            self.builder.push_stmt(
                                MirStmt::Assign {
                                    dst: adjusted,
                                    rvalue: MirRValue::BinaryOp {
                                        op: BinOp::Add,
                                        left: start.duplicate(),
                                        right: count.duplicate(),
                                    },
                                },
                            );
                            end_op = MirOperand::Local(adjusted);
                            proof {
                                let next = chain_bounds(adapters@, k + 1, len_local, first);
                                assert(self.builder.locals@ =~= old(self).builder.locals@ + temps(
                                    next.3.len(),
                                    MirType::I64,
                                ));
                                assert(self.builder.stmts@ =~= old(self).builder.stmts@
                                    + placed_all(c, next.3));
                            }
                        },
                        None => {
                            end_op = count.duplicate();
                        },
                    }
                },
                _ => {},
            }
            k = k + 1;
        }
        (start_val, end_op, took)
    }

    /// `take(n)` asks for at most `n`: clamp the end to the source length.
    /// The end goes into a temp, which a branch on `end > len` resets to
    /// `len`; the builder is left in the block after.
    fn emit_take_clamp(&mut self, end_op: MirOperand, len_local: LocalId) -> (r: MirOperand)
        requires
            old(self).builder.wf(),
        ensures
            ({
                let n = old(self).builder.locals@.len();
                let b = old(self).builder.terms@.len();
                let c = old(self).builder.current;
                let end = LocalId(n as usize);
                let over = LocalId((n + 1) as usize);
                let clamp = BlockId(b as usize);
                let after = BlockId((b + 1) as usize);
                &&& r == local_op(end)
                &&& final(self).builder.locals@ == old(self).builder.locals@ + seq![
                    temp_decl(MirType::I64),
                    temp_decl(MirType::Bool),
                ]
                &&& final(self).builder.stmts@ == old(self).builder.stmts@ + seq![
                    placed(c, assign_use(end, end_op)),
                    placed(c, assign_op(over, BinOp::Gt, local_op(end), local_op(len_local))),
                    placed(clamp, assign_use(end, local_op(len_local))),
                ]
                &&& final(self).builder.terms@ == old(self).builder.terms@.update(
                    c.0 as int,
                    Some(MirTerminator::Branch { cond: local_op(over), then_block: clamp, else_block: after }),
                ) + seq![Some(MirTerminator::Goto { target: after }), None]
                &&& final(self).builder.current == after
                &&& b + 1 <= usize::MAX
                &&& n + 1 <= usize::MAX
            }),
            final(self).ctx == old(self).ctx,
            final(self).collected_elem_types@ == old(self).collected_elem_types@,
    {
        let end_local = self.builder.alloc_temp(MirType::I64);
        self.builder.push_stmt(MirStmt::Assign { dst: end_local, rvalue: MirRValue::Use(end_op) });
        let over = self.builder.alloc_temp(MirType::Bool);
        self.builder.push_stmt(
            MirStmt::Assign {
                dst: over,
                rvalue: MirRValue::BinaryOp {
                    op: BinOp::Gt,
                    left: MirOperand::Local(end_local),
                    right: MirOperand::Local(len_local),
                },
            },
        );
        let clamp_block = self.builder.create_block();
        let after_block = self.builder.create_block();
        self.builder.terminate(
            MirTerminator::Branch {
                cond: MirOperand::Local(over),
                then_block: clamp_block,
                else_block: after_block,
            },
        );
        self.builder.switch_to_block(clamp_block);
        self.builder.push_stmt(
            MirStmt::Assign { dst: end_local, rvalue: MirRValue::Use(MirOperand::Local(len_local)) },
        );
        self.builder.terminate(MirTerminator::Goto { target: after_block });
        self.builder.switch_to_block(after_block);
        proof {
            let b = old(self).builder.terms@.len();
            let c = old(self).builder.current;
            assert(self.builder.locals@ =~= old(self).builder.locals@ + seq![
                temp_decl(MirType::I64),
                temp_decl(MirType::Bool),
            ]);
            assert(self.builder.stmts@ =~= old(self).builder.stmts@ + seq![
                placed(c, assign_use(end_local, end_op)),
                placed(c, assign_op(over, BinOp::Gt, local_op(end_local), local_op(len_local))),
                placed(clamp_block, assign_use(end_local, local_op(len_local))),
            ]);
            assert(self.builder.terms@ =~= old(self).builder.terms@.update(
                c.0 as int,
                Some(MirTerminator::Branch {
                    cond: local_op(over),
                    then_block: clamp_block,
                    else_block: after_block,
                }),
            ) + seq![Some(MirTerminator::Goto { target: after_block }), None]);
        }
        MirOperand::Local(end_local)
    }

    /// The source copied into a local, and its length: the element count of
    /// an array, `Vec_len` of anything else.
    fn emit_chain_source(&mut self, chain: &IterChain) -> (r: (LocalId, LocalId))
        ensures
            ({
                let n = old(self).builder.locals@.len();
                let c = old(self).builder.current;
                let new = final(self).builder.stmts@;
                let m = old(self).builder.stmts@.len() as int;
                &&& r == (LocalId(n as usize), LocalId((n + 1) as usize))
                &&& final(self).builder.locals@ == old(self).builder.locals@ + seq![
                    temp_decl(chain.source_ty),
                    temp_decl(MirType::I64),
                ]
                &&& new.len() == m + 2
                &&& new.subrange(0, m) == old(self).builder.stmts@
                &&& new[m] == placed(c, assign_use(r.0, chain.source))
                &&& new[m + 1].block == c
                &&& match chain.source_ty {
                    MirType::Array { len: alen, .. } => new[m + 1].stmt == assign_use(
                        r.1,
                        int_op(alen as i64),
                    ),
                    _ => is_call(new[m + 1].stmt, Some(r.1), "Vec_len"@, seq![local_op(r.0)]),
                }
            }),
            final(self).builder.terms@ == old(self).builder.terms@,
            final(self).builder.current == old(self).builder.current,
            final(self).ctx == old(self).ctx,
            final(self).collected_elem_types@ == old(self).collected_elem_types@,
    {
        let collection = self.builder.alloc_temp(chain.source_ty.duplicate());
        self.builder.push_stmt(
            MirStmt::Assign { dst: collection, rvalue: MirRValue::Use(chain.source.duplicate()) },
        );
        let len_local = self.builder.alloc_temp(MirType::I64);
        match &chain.source_ty {
            MirType::Array { len, .. } => {
                self.builder.push_stmt(
                    MirStmt::Assign {
                        dst: len_local,
                        rvalue: MirRValue::Use(MirOperand::Constant(MirConst::Int(*len as i64))),
                    },
                );
            },
            _ => {
                let mut args: Vec<MirOperand> = Vec::new();
                args.push(MirOperand::Local(collection));
                self.builder.push_stmt(
                    MirStmt::Call { dst: Some(len_local), func: String::from_str("Vec_len"), args },
                );
                proof {
                    assert(self.builder.stmts@.last().stmt matches MirStmt::Call { args: a, .. } && a@
                        =~= seq![local_op(collection)]);
                }
            },
        }
        proof {
            assert(self.builder.stmts@.subrange(0, old(self).builder.stmts@.len() as int)
                =~= old(self).builder.stmts@);
            assert(self.builder.locals@ =~= old(self).builder.locals@ + seq![
                temp_decl(chain.source_ty),
                temp_decl(MirType::I64),
            ]);
        }
        (collection, len_local)
    }

    /// `idx = start`, then the check block (`idx < end` to the body, else
    /// to the exit), the body reading element `idx` of `collection` (by
    /// index with `elem_size` for an array, by `Vec_get` without one), and
    /// the empty increment and exit blocks. Leaves the builder in the body.
    fn emit_loop_skeleton(
        &mut self,
        start: MirOperand,
        end_op: MirOperand,
        collection: LocalId,
        elem_size: Option<u32>,
        elem_ty: MirType,
    ) -> (r: IterLoopSetup)
        requires
            old(self).builder.wf(),
        ensures
            ({
                let n = old(self).builder.locals@.len();
                let b = old(self).builder.terms@.len();
                let c = old(self).builder.current;
                let idx = LocalId(n as usize);
                let cond = LocalId((n + 1) as usize);
                let elem_local = LocalId((n + 2) as usize);
                let check = BlockId(b as usize);
                let body = BlockId((b + 1) as usize);
                let exit = BlockId((b + 3) as usize);
                let new = final(self).builder.stmts@;
                let m = old(self).builder.stmts@.len() as int;
                &&& r == IterLoopSetup {
                    idx,
                    elem_local,
                    elem_ty,
                    inc_block: BlockId((b + 2) as usize),
                    exit_block: exit,
                    check_block: check,
                }
                &&& final(self).builder.locals@ == old(self).builder.locals@ + seq![
                    temp_decl(MirType::I64),
                    temp_decl(MirType::Bool),
                    temp_decl(elem_ty),
                ]
                &&& new.len() == m + 3
                &&& new.subrange(0, m) == old(self).builder.stmts@
                &&& new[m] == placed(c, assign_use(idx, start))
                &&& new[m + 1] == placed(check, assign_op(cond, BinOp::Lt, local_op(idx), end_op))
                &&& new[m + 2].block == body
                &&& match elem_size {
                    Some(z) => new[m + 2].stmt == MirStmt::Assign {
                        dst: elem_local,
                        rvalue: MirRValue::ArrayIndex {
                            base: local_op(collection),
                            index: local_op(idx),
                            elem_size: z,
                        },
                    },
                    None => is_call(
                        new[m + 2].stmt,
                        Some(elem_local),
                        "Vec_get"@,
                        seq![local_op(collection), local_op(idx)],
                    ),
                }
                &&& final(self).builder.terms@ == old(self).builder.terms@.update(
                    c.0 as int,
                    Some(MirTerminator::Goto { target: check }),
                ) + seq![
                    Some(
                        MirTerminator::Branch {
                            cond: local_op(cond),
                            then_block: body,
                            else_block: exit,
                        },
                    ),
                    None,
                    None,
                    None,
                ]
                &&& final(self).builder.current == body
                &&& b + 3 <= usize::MAX
                &&& n + 2 <= usize::MAX
            }),
            final(self).ctx == old(self).ctx,
            final(self).collected_elem_types@ == old(self).collected_elem_types@,
    {
        let idx = self.builder.alloc_temp(MirType::I64);
        self.builder.push_stmt(MirStmt::Assign { dst: idx, rvalue: MirRValue::Use(start) });
        let check_block = self.builder.create_block();
        let body_block = self.builder.create_block();
        let inc_block = self.builder.create_block();
        let exit_block = self.builder.create_block();
        self.builder.terminate(MirTerminator::Goto { target: check_block });
        self.builder.switch_to_block(check_block);
        let cond = self.builder.alloc_temp(MirType::Bool);
        self.builder.push_stmt(
            MirStmt::Assign {
                dst: cond,
                rvalue: MirRValue::BinaryOp {
                    op: BinOp::Lt,
                    left: MirOperand::Local(idx),
                    right: end_op,
                },
            },
        );
        self.builder.terminate(
            MirTerminator::Branch {
                cond: MirOperand::Local(cond),
                then_block: body_block,
                else_block: exit_block,
            },
        );
        self.builder.switch_to_block(body_block);
        let elem_local = self.builder.alloc_temp(elem_ty.duplicate());
        match elem_size {
            Some(z) => {
                self.builder.push_stmt(
                    MirStmt::Assign {
                        dst: elem_local,
                        rvalue: MirRValue::ArrayIndex {
                            base: MirOperand::Local(collection),
                            index: MirOperand::Local(idx),
                            elem_size: z,
                        },
                    },
                );
            },
            None => {
                let mut args: Vec<MirOperand> = Vec::new();
                args.push(MirOperand::Local(collection));
                args.push(MirOperand::Local(idx));
                self.builder.push_stmt(
                    MirStmt::Call { dst: Some(elem_local), func: String::from_str("Vec_get"), args },
                );
                proof {
                    assert(self.builder.stmts@.last().stmt matches MirStmt::Call { args: a, .. } && a@
                        =~= seq![local_op(collection), local_op(idx)]);
                }
            },
        }
        proof {
            assert(self.builder.stmts@.subrange(0, old(self).builder.stmts@.len() as int)
                =~= old(self).builder.stmts@);
            assert(self.builder.locals@ =~= old(self).builder.locals@ + seq![
                temp_decl(MirType::I64),
                temp_decl(MirType::Bool),
                temp_decl(elem_ty),
            ]);
            let b = old(self).builder.terms@.len();
            assert(self.builder.terms@ =~= old(self).builder.terms@.update(
                old(self).builder.current.0 as int,
                Some(MirTerminator::Goto { target: check_block }),
            ) + seq![
                Some(
                    MirTerminator::Branch {
                        cond: local_op(cond),
                        then_block: body_block,
                        else_block: exit_block,
                    },
                ),
                None,
                None,
                None,
            ]);
        }
        IterLoopSetup { idx, elem_local, elem_ty, inc_block, exit_block, check_block }
    }

    /// Set up the index loop of an iterator chain: the source copied into a
    /// local, its length, the range the `skip`/`take` adapters give, and the
    /// check, body, increment and exit blocks. The builder is left in the
    /// body with the current element read; see `loop_setup_shape`.
    pub fn setup_iter_chain_loop(&mut self, chain: &IterChain) -> (r: IterLoopSetup)
        requires
            old(self).builder.wf(),
            size_fits(chain.source_ty),
        ensures
            loop_setup_shape(old(self).builder, final(self).builder, *chain, r),
            final(self).ctx == old(self).ctx,
            final(self).collected_elem_types@ == old(self).collected_elem_types@,
    {
        let elem_size: Option<u32> = match &chain.source_ty {
            MirType::Array { elem, .. } => Some((**elem).size()),
            _ => None,
        };
        let ghost b0 = self.builder;
        let (collection, len_local) = self.emit_chain_source(chain);
        let ghost b1 = self.builder;
        let (start_val, bounded_end, took) = self.emit_chain_bounds(&chain.adapters, len_local);
        let ghost b2 = self.builder;
        let end_op = if took {
            self.emit_take_clamp(bounded_end, len_local)
        } else {
            bounded_end
        };
        let ghost b3 = self.builder;
        let start = match start_val {
            Some(st) => st,
            None => MirOperand::Constant(MirConst::Int(0)),
        };
        let elem_ty = match &chain.elem_ty {
            Some(t) => t.duplicate(),
            None => MirType::I64,
        };
        let r = self.emit_loop_skeleton(start, end_op, collection, elem_size, elem_ty);
        proof {
            lemma_loop_setup_shape(b0, b1, b2, b3, self.builder, *chain, r, collection, len_local);
        }
        r
    }

    /// Apply a chain's `filter`, `map` and `enumerate` adapters to the
    /// element inside the loop body, in order: a filter calls its predicate
    /// and branches to a fresh block when it holds, to `inc_block` when it
    /// does not; a map calls its function on the element; enumerate pairs
    /// the index with the element. Returns the value that comes out and its
    /// type; see `adapters_fold` and `filter_terms`.
    pub fn apply_iter_adapters(
        &mut self,
        chain: &IterChain,
        elem_op: MirOperand,
        elem_ty: MirType,
        inc_block: BlockId,
        idx: LocalId,
    ) -> (r: (MirOperand, MirType))
        requires
            old(self).builder.wf(),
        ensures
            adapters_applied(old(self).builder, final(self).builder, *chain, elem_op, elem_ty, inc_block, idx, r),
            final(self).builder.wf(),
            final(self).ctx == old(self).ctx,
            final(self).collected_elem_types@ == old(self).collected_elem_types@,
    {
        let ghost n = old(self).builder.locals@.len();
        let ghost m = old(self).builder.stmts@.len() as int;
        let ghost b = old(self).builder.terms@.len();
        let ghost c = old(self).builder.current;
        let ghost ad = chain.adapters@;
        let mut current_op = elem_op;
        let mut current_ty = elem_ty;
        let mut k: usize = 0;
        while k < chain.adapters.len()
            invariant
                k <= ad.len(),
                ad == chain.adapters@,
                n == old(self).builder.locals@.len(),
                m == old(self).builder.stmts@.len(),
                b == old(self).builder.terms@.len(),
                c == old(self).builder.current,
                c.0 < b,
                ({
                    let f = adapters_fold(ad, k as int, elem_op, elem_ty, idx, n, b, c);
                    &&& (current_op, current_ty) == (f.0, f.1)
                    &&& self.builder.locals@ == old(self).builder.locals@ + Seq::new(
                        f.2.len(),
                        |i: int| temp_decl(f.2[i]),
                    )
                    &&& self.builder.stmts@.subrange(0, m) == old(self).builder.stmts@
                    &&& emitted(self.builder.stmts@, m, f.3)
                    &&& filter_terms(old(self).builder.terms@, self.builder.terms@, f.4, c, inc_block)
                    &&& self.builder.current == body_block_after(c, b, f.4.len())
                }),
                self.builder.wf(),
                self.ctx == old(self).ctx,
                self.collected_elem_types@ == old(self).collected_elem_types@,
            decreases ad.len() - k,
        {
            let ghost prev = adapters_fold(ad, k as int, elem_op, elem_ty, idx, n, b, c);
            let ghost pre_stmts = self.builder.stmts@;
            let ghost pre_locals = self.builder.locals@;
            let ghost pre_terms = self.builder.terms@;
            match &chain.adapters[k] {
                IterAdapter::Filter { pred } => {
                    let t = self.builder.alloc_temp(MirType::Bool);
                    let mut args: Vec<MirOperand> = Vec::new();
                    args.push(current_op.duplicate());
                    let ghost argv = args@;
                    self.builder.push_stmt(MirStmt::Call { dst: Some(t), func: pred.clone(), args });
                    let pass_block = self.builder.create_block();
                    self.builder.terminate(
                        MirTerminator::Branch {
                            cond: MirOperand::Local(t),
                            then_block: pass_block,
                            else_block: inc_block,
                        },
                    );
                    self.builder.switch_to_block(pass_block);
                    proof {
                        let next = adapters_fold(ad, k + 1, elem_op, elem_ty, idx, n, b, c);
                        assert(argv =~= seq![current_op]);
                        assert(self.builder.locals@ =~= old(self).builder.locals@ + Seq::new(
                            next.2.len(),
                            |i: int| temp_decl(next.2[i]),
                        ));
                        assert(self.builder.stmts@.subrange(0, m) =~= old(self).builder.stmts@);
                        assert forall|i: int| 0 <= i < next.3.len() implies (#[trigger] self.builder.stmts@[m + i]).block
                            == next.3[i].0 && stmt_fits(self.builder.stmts@[m + i].stmt, next.3[i].1) by {
                            if i < prev.3.len() {
                                assert(self.builder.stmts@[m + i] == pre_stmts[m + i]);
                            }
                        }
                        let f = next.4.len();
                        assert forall|i: int| 1 <= i < f implies #[trigger] self.builder.terms@[b + i - 1] == Some(
                            MirTerminator::Branch {
                                cond: local_op(next.4[i]),
                                then_block: BlockId((b + i) as usize),
                                else_block: inc_block,
                            },
                        ) by {
                            if i < f - 1 {
                                assert(pre_terms[b + i - 1] == self.builder.terms@[b + i - 1]);
                            }
                        }
                    }
                },
                IterAdapter::MapTo { func, ret_ty } => {
                    let t = self.builder.alloc_temp(ret_ty.duplicate());
                    let mut args: Vec<MirOperand> = Vec::new();
                    args.push(current_op);
                    let ghost argv = args@;
                    self.builder.push_stmt(MirStmt::Call { dst: Some(t), func: func.clone(), args });
                    current_op = MirOperand::Local(t);
                    current_ty = ret_ty.duplicate();
                    proof {
                        let next = adapters_fold(ad, k + 1, elem_op, elem_ty, idx, n, b, c);
                        assert(argv =~= seq![prev.0]);
                        assert(self.builder.locals@ =~= old(self).builder.locals@ + Seq::new(
                            next.2.len(),
                            |i: int| temp_decl(next.2[i]),
                        ));
                        assert(self.builder.stmts@.subrange(0, m) =~= old(self).builder.stmts@);
                        assert forall|i: int| 0 <= i < next.3.len() implies (#[trigger] self.builder.stmts@[m + i]).block
                            == next.3[i].0 && stmt_fits(self.builder.stmts@[m + i].stmt, next.3[i].1) by {
                            if i < prev.3.len() {
                                assert(self.builder.stmts@[m + i] == pre_stmts[m + i]);
                            }
                        }
                    }
                },
                IterAdapter::Enumerate => {
                    let tuple_ty = MirType::Tuple(
                        TypeList::Cons(
                            Box::new(MirType::I64),
                            Box::new(TypeList::Cons(Box::new(current_ty.duplicate()), Box::new(TypeList::Nil))),
                        ),
                    );
                    let tl = self.builder.alloc_temp(tuple_ty.duplicate());
                    self.builder.push_stmt(
                        MirStmt::Store { addr: tl, offset: 0, value: MirOperand::Local(idx), store_size: None },
                    );
                    self.builder.push_stmt(
                        MirStmt::Store { addr: tl, offset: 8, value: current_op, store_size: None },
                    );
                    current_op = MirOperand::Local(tl);
                    current_ty = tuple_ty;
                    proof {
                        let next = adapters_fold(ad, k + 1, elem_op, elem_ty, idx, n, b, c);
                        assert(self.builder.locals@ =~= old(self).builder.locals@ + Seq::new(
                            next.2.len(),
                            |i: int| temp_decl(next.2[i]),
                        ));
                        assert(self.builder.stmts@.subrange(0, m) =~= old(self).builder.stmts@);
                        assert forall|i: int| 0 <= i < next.3.len() implies (#[trigger] self.builder.stmts@[m + i]).block
                            == next.3[i].0 && stmt_fits(self.builder.stmts@[m + i].stmt, next.3[i].1) by {
                            if i < prev.3.len() {
                                assert(self.builder.stmts@[m + i] == pre_stmts[m + i]);
                            }
                        }
                    }
                },
                _ => {},
            }
            k = k + 1;
        }
        (current_op, current_ty)
    }

    /// Whether a recorded type prefix names `want`, ignoring any generic
    /// arguments after a `<` and surrounding whitespace.
    pub fn prefix_is(prefix: &Option<String>, want: &str) -> (r: bool)
        ensures
            r == (prefix matches Some(p) && trim_spec(before_char(p@, '<')) == want@),
    {
        match prefix {
            Some(p) => {
                let head = trim(before_char_str(p.as_str(), '<'));
                str_eq(head.as_str(), want)
            },
            None => false,
        }
    }

    /// `left < right` on two keys into a new `bool` temp: the runtime's
    /// `string_lt` for strings, whose 16-byte representation does not order
    /// as a number, and a plain `Lt` for everything else.
    pub fn emit_key_less(&mut self, key_ty: &MirType, left: LocalId, right: LocalId) -> (r: LocalId)
        ensures
            r == LocalId(old(self).builder.locals@.len() as usize),
            final(self).builder.locals@ == old(self).builder.locals@.push(temp_decl(MirType::Bool)),
            final(self).builder.stmts@.len() == old(self).builder.stmts@.len() + 1,
            final(self).builder.stmts@.drop_last() == old(self).builder.stmts@,
            final(self).builder.stmts@.last().block == old(self).builder.current,
            *key_ty is String ==> is_call(
                final(self).builder.stmts@.last().stmt,
                Some(r),
                "string_lt"@,
                seq![local_op(left), local_op(right)],
            ),
            !(*key_ty is String) ==> final(self).builder.stmts@.last().stmt == assign_op(
                r,
                BinOp::Lt,
                local_op(left),
                local_op(right),
            ),
            final(self).builder.terms@ == old(self).builder.terms@,
            final(self).builder.current == old(self).builder.current,
            final(self).ctx == old(self).ctx,
            final(self).collected_elem_types@ == old(self).collected_elem_types@,
    {
        let less = self.builder.alloc_temp(MirType::Bool);
        let ghost before = self.builder.stmts@;
        match key_ty {
            MirType::String => {
                let mut args: Vec<MirOperand> = Vec::new();
                args.push(MirOperand::Local(left));
                args.push(MirOperand::Local(right));
                self.builder.push_stmt(
                    MirStmt::Call { dst: Some(less), func: String::from_str("string_lt"), args },
                );
                proof {
                    assert(self.builder.stmts@.last().stmt matches MirStmt::Call { args: a, .. } && a@
                        =~= seq![local_op(left), local_op(right)]);
                }
            },
            _ => {
                self.builder.push_stmt(
                    MirStmt::Assign {
                        dst: less,
                        rvalue: MirRValue::BinaryOp {
                            op: BinOp::Lt,
                            left: MirOperand::Local(left),
                            right: MirOperand::Local(right),
                        },
                    },
                );
            },
        }
        proof {
            assert(self.builder.stmts@.drop_last() =~= before);
        }
        less
    }

    /// The loop's increment block: `idx = idx + 1` through a temp, then back
    /// to the check. Leaves the builder standing in `inc_block`.
    pub fn emit_iter_increment(&mut self, idx: LocalId, inc_block: BlockId, check_block: BlockId)
        requires
            inc_block.0 < old(self).builder.terms@.len(),
        ensures
            ({
                let t = LocalId(old(self).builder.locals@.len() as usize);
                &&& final(self).builder.locals@ == old(self).builder.locals@.push(
                    temp_decl(MirType::I64),
                )
                &&& final(self).builder.stmts@ == old(self).builder.stmts@ + seq![
                    placed(inc_block, assign_op(t, BinOp::Add, local_op(idx), int_op(1))),
                    placed(inc_block, assign_use(idx, local_op(t))),
                ]
            }),
            final(self).builder.terms@ == old(self).builder.terms@.update(
                inc_block.0 as int,
                Some(MirTerminator::Goto { target: check_block }),
            ),
            final(self).builder.current == inc_block,
            final(self).ctx == old(self).ctx,
            final(self).collected_elem_types@ == old(self).collected_elem_types@,
    {
        self.builder.switch_to_block(inc_block);
        let incremented = self.builder.alloc_temp(MirType::I64);
        self.builder.push_stmt(
            MirStmt::Assign {
                dst: incremented,
                rvalue: MirRValue::BinaryOp {
                    op: BinOp::Add,
                    left: MirOperand::Local(idx),
                    right: MirOperand::Constant(MirConst::Int(1)),
                },
            },
        );
        self.builder.push_stmt(
            MirStmt::Assign { dst: idx, rvalue: MirRValue::Use(MirOperand::Local(incremented)) },
        );
        self.builder.terminate(MirTerminator::Goto { target: check_block });
        proof {
            assert(self.builder.stmts@ =~= old(self).builder.stmts@ + seq![
                placed(inc_block, assign_op(incremented, BinOp::Add, local_op(idx), int_op(1))),
                placed(inc_block, assign_use(idx, local_op(incremented))),
            ]);
        }
    }
}


/// The phases of `setup_iter_chain_loop`, put together, give the shape
/// `loop_setup_shape` states.
#[verifier::rlimit(50)]
proof fn lemma_loop_setup_shape(
    b0: crate::builder::MirBuilder,
    b1: crate::builder::MirBuilder,
    b2: crate::builder::MirBuilder,
    b3: crate::builder::MirBuilder,
    b4: crate::builder::MirBuilder,
    chain: IterChain,
    r: IterLoopSetup,
    coll: LocalId,
    len: LocalId,
)
    requires
        b0.wf(),
        size_fits(chain.source_ty),
        ({
            let n = b0.locals@.len();
            let c = b0.current;
            let m = b0.stmts@.len() as int;
            &&& (coll, len) == (LocalId(n as usize), LocalId((n + 1) as usize))
            &&& b1.locals@ == b0.locals@ + seq![temp_decl(chain.source_ty), temp_decl(MirType::I64)]
            &&& b1.stmts@.len() == m + 2
            &&& b1.stmts@.subrange(0, m) == b0.stmts@
            &&& b1.stmts@[m] == placed(c, assign_use(coll, chain.source))
            &&& b1.stmts@[m + 1].block == c
            &&& match chain.source_ty {
                MirType::Array { len: alen, .. } => b1.stmts@[m + 1].stmt == assign_use(
                    len,
                    int_op(alen as i64),
                ),
                _ => is_call(b1.stmts@[m + 1].stmt, Some(len), "Vec_len"@, seq![local_op(coll)]),
            }
            &&& b1.terms@ == b0.terms@
            &&& b1.current == c
        }),
        ({
            let bounds = chain_bounds(chain.adapters@, chain.adapters@.len() as int, len, b1.locals@.len());
            &&& b2.locals@ == b1.locals@ + temps(bounds.3.len(), MirType::I64)
            &&& b2.stmts@ == b1.stmts@ + placed_all(b1.current, bounds.3)
            &&& b2.terms@ == b1.terms@
            &&& b2.current == b1.current
        }),
        ({
            let bounds = chain_bounds(chain.adapters@, chain.adapters@.len() as int, len, b1.locals@.len());
            let n = b2.locals@.len();
            let b = b2.terms@.len();
            let c = b2.current;
            let end = LocalId(n as usize);
            let over = LocalId((n + 1) as usize);
            let clamp = BlockId(b as usize);
            let after = BlockId((b + 1) as usize);
            &&& bounds.2 ==> {
                &&& b3.locals@ == b2.locals@ + seq![temp_decl(MirType::I64), temp_decl(MirType::Bool)]
                &&& b3.stmts@ == b2.stmts@ + seq![
                    placed(c, assign_use(end, bounds.1)),
                    placed(c, assign_op(over, BinOp::Gt, local_op(end), local_op(len))),
                    placed(clamp, assign_use(end, local_op(len))),
                ]
                &&& b3.terms@ == b2.terms@.update(
                    c.0 as int,
                    Some(MirTerminator::Branch { cond: local_op(over), then_block: clamp, else_block: after }),
                ) + seq![Some(MirTerminator::Goto { target: after }), None]
                &&& b3.current == after
            }
            &&& !bounds.2 ==> b3 == b2
        }),
        b3.wf(),
        b3.terms@.len() + 3 <= usize::MAX,
        b3.locals@.len() + 2 <= usize::MAX,
        ({
            let bounds = chain_bounds(chain.adapters@, chain.adapters@.len() as int, len, b1.locals@.len());
            let n = b3.locals@.len();
            let b = b3.terms@.len();
            let c = b3.current;
            let idx = LocalId(n as usize);
            let cond = LocalId((n + 1) as usize);
            let elem_local = LocalId((n + 2) as usize);
            let check = BlockId(b as usize);
            let body = BlockId((b + 1) as usize);
            let exit = BlockId((b + 3) as usize);
            let m = b3.stmts@.len() as int;
            let start = match bounds.0 {
                Some(st) => st,
                None => int_op(0),
            };
            let end = if bounds.2 {
                local_op(LocalId(b2.locals@.len() as usize))
            } else {
                bounds.1
            };
            &&& r == IterLoopSetup {
                idx,
                elem_local,
                elem_ty: chain_elem_ty(chain),
                inc_block: BlockId((b + 2) as usize),
                exit_block: exit,
                check_block: check,
            }
            &&& b4.locals@ == b3.locals@ + seq![
                temp_decl(MirType::I64),
                temp_decl(MirType::Bool),
                temp_decl(chain_elem_ty(chain)),
            ]
            &&& b4.stmts@.len() == m + 3
            &&& b4.stmts@.subrange(0, m) == b3.stmts@
            &&& b4.stmts@[m] == placed(c, assign_use(idx, start))
            &&& b4.stmts@[m + 1] == placed(check, assign_op(cond, BinOp::Lt, local_op(idx), end))
            &&& b4.stmts@[m + 2].block == body
            &&& match chain.source_ty {
                MirType::Array { elem, .. } => b4.stmts@[m + 2].stmt == MirStmt::Assign {
                    dst: elem_local,
                    rvalue: MirRValue::ArrayIndex {
                        base: local_op(coll),
                        index: local_op(idx),
                        elem_size: size_of(*elem) as u32,
                    },
                },
                _ => is_call(
                    b4.stmts@[m + 2].stmt,
                    Some(elem_local),
                    "Vec_get"@,
                    seq![local_op(coll), local_op(idx)],
                ),
            }
            &&& b4.terms@ == b3.terms@.update(
                c.0 as int,
                Some(MirTerminator::Goto { target: check }),
            ) + seq![
                Some(MirTerminator::Branch { cond: local_op(cond), then_block: body, else_block: exit }),
                None,
                None,
                None,
            ]
            &&& b4.current == body
        }),
    ensures
        loop_setup_shape(b0, b4, chain, r),
{
    let n = b0.locals@.len();
    let m = b0.stmts@.len() as int;
    let b = b0.terms@.len();
    let c = b0.current;
    let bounds = chain_bounds(chain.adapters@, chain.adapters@.len() as int, len, n + 2);
    let e = bounds.3.len();
    let took = bounds.2;
    assert(b1.locals@.len() == n + 2);
    assert(b2.locals@.len() == n + 2 + e);
    assert(b2.stmts@.len() == m + 2 + e);
    assert forall|j: int| 0 <= j < m implies b4.stmts@[j] == b0.stmts@[j] by {
        assert(b1.stmts@.subrange(0, m)[j] == b1.stmts@[j]);
        assert(b2.stmts@[j] == b1.stmts@[j]);
        assert(b3.stmts@[j] == b2.stmts@[j]);
        assert(b4.stmts@.subrange(0, b3.stmts@.len() as int)[j] == b4.stmts@[j]);
    }
    assert(b4.stmts@.subrange(0, m) =~= b0.stmts@);
    let q = b3.stmts@.len() as int;
    assert forall|j: int| 0 <= j < q implies b4.stmts@[j] == b3.stmts@[j] by {
        assert(b4.stmts@.subrange(0, q)[j] == b4.stmts@[j]);
    }
    assert(b4.stmts@[m] == b1.stmts@[m]) by {
        assert(b1.stmts@.subrange(0, m + 2).len() == m + 2);
        assert(b2.stmts@[m] == b1.stmts@[m]);
        assert(b3.stmts@[m] == b2.stmts@[m]);
    }
    assert(b4.stmts@[m + 1] == b1.stmts@[m + 1]) by {
        assert(b2.stmts@[m + 1] == b1.stmts@[m + 1]);
        assert(b3.stmts@[m + 1] == b2.stmts@[m + 1]);
    }
    assert(b4.stmts@.subrange(m + 2, m + 2 + e) =~= placed_all(c, bounds.3)) by {
        assert forall|j: int| 0 <= j < e implies b4.stmts@.subrange(m + 2, m + 2 + e)[j]
            == placed_all(c, bounds.3)[j] by {
            assert(b2.stmts@[m + 2 + j] == placed_all(c, bounds.3)[j]);
            assert(b3.stmts@[m + 2 + j] == b2.stmts@[m + 2 + j]);
        }
    }
    if took {
        assert(b4.stmts@.subrange(m + 2 + e, m + 5 + e) =~= b3.stmts@.subrange(m + 2 + e, m + 5 + e));
        assert(b3.stmts@.subrange(m + 2 + e, m + 5 + e) =~= seq![
            placed(c, assign_use(LocalId((n + 2 + e) as usize), bounds.1)),
            placed(c, assign_op(LocalId((n + 3 + e) as usize), BinOp::Gt, local_op(LocalId((n + 2 + e) as usize)), local_op(len))),
            placed(BlockId(b as usize), assign_use(LocalId((n + 2 + e) as usize), local_op(len))),
        ]);
    }
    assert(b4.locals@ =~= b0.locals@ + seq![temp_decl(chain.source_ty), temp_decl(MirType::I64)]
        + temps(e, MirType::I64) + (if took {
        seq![temp_decl(MirType::I64), temp_decl(MirType::Bool)]
    } else {
        Seq::empty()
    }) + seq![temp_decl(MirType::I64), temp_decl(MirType::Bool), temp_decl(chain_elem_ty(chain))]);
    if took {
        assert(b2.terms@ == b0.terms@);
        assert(b2.current == c);
        assert(b3.current == BlockId((b + 1) as usize));
        assert(b3.terms@.len() == b + 2);
        let lhs = b3.terms@.update(b3.current.0 as int, Some(MirTerminator::Goto { target: BlockId((b + 2) as usize) }));
        let br = Some(
            MirTerminator::Branch {
                cond: local_op(LocalId((n + 3 + e) as usize)),
                then_block: BlockId(b as usize),
                else_block: BlockId((b + 1) as usize),
            },
        );
        let rhs = b0.terms@.update(c.0 as int, br) + seq![
            Some(MirTerminator::Goto { target: BlockId((b + 1) as usize) }),
            Some(MirTerminator::Goto { target: BlockId((b + 2) as usize) }),
        ];
        assert(lhs.len() == rhs.len());
        assert forall|j: int| 0 <= j < lhs.len() implies lhs[j] == rhs[j] by {
            let upd = b2.terms@.update(c.0 as int, br);
            assert(upd.len() == b);
            if j < b {
                assert(b3.terms@[j] == upd[j]);
                assert(lhs[j] == upd[j]);
                assert(rhs[j] == b0.terms@.update(c.0 as int, br)[j]);
                assert(upd[j] == b0.terms@.update(c.0 as int, br)[j]);
            } else if j == b {
                assert(b3.terms@[j] == Some(MirTerminator::Goto { target: BlockId((b + 1) as usize) }));
                assert(lhs[j] == rhs[j]);
            } else {
                assert(j == b + 1);
                assert(lhs[j] == rhs[j]);
            }
        }
        assert(lhs =~= rhs);
    }
}


/// The blocks the loop skeleton hands out exist, and the builder stands in
/// one that exists.
pub(crate) proof fn lemma_setup_blocks(
    b1: crate::builder::MirBuilder,
    b2: crate::builder::MirBuilder,
    chain: IterChain,
    s: IterLoopSetup,
)
    requires
        b1.wf(),
        loop_setup_shape(b1, b2, chain, s),
    ensures
        b2.wf(),
        s.inc_block.0 < b2.terms@.len(),
        s.exit_block.0 < b2.terms@.len(),
        s.check_block.0 < b2.terms@.len(),
{
}

/// The filters only add blocks.
pub(crate) proof fn lemma_filter_terms_len(
    old_terms: Seq<Option<MirTerminator>>,
    new_terms: Seq<Option<MirTerminator>>,
    preds: Seq<LocalId>,
    c0: BlockId,
    inc: BlockId,
)
    requires
        filter_terms(old_terms, new_terms, preds, c0, inc),
    ensures
        old_terms.len() <= new_terms.len(),
{
}

} // verus!
