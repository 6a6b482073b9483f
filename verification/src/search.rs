//! Short-circuiting terminals of an iterator chain: `any`, `all`, `find`
//! and `position`. Each runs the fused loop, calls its predicate (lifted
//! into a function of the element, as the filters are) on every element the
//! adapters yield, and leaves the loop early through a block of its own on
//! the first element that decides the answer.

use vstd::prelude::*;
use crate::builder::{is_call, placed, temp_decl, MirBuilder, PlacedStmt};
use crate::iterators::{
    adapters_applied, adapters_fold, assign_op, assign_use, int_op, lemma_filter_terms_len, lemma_setup_blocks,
    local_op, loop_setup_shape, IterChain, IterLoopSetup,
};
use crate::lowerer::MirLowerer;
use crate::mir::{size_fits, BinOp, BlockId, LocalId, MirConst, MirOperand, MirRValue, MirStmt, MirTerminator, MirType};

verus! {

/// Which search a loop performs.
#[derive(Debug, Clone, Copy)]
pub enum SearchKind {
    /// Whether some element satisfies the predicate.
    Any,
    /// Whether every element satisfies it.
    All,
    /// The first element that satisfies it, as an optional `i64`.
    Find,
    /// The position among the yielded elements of the first one that
    /// satisfies it, as an optional `i64`.
    Position,
}

/// A boolean constant operand.
pub open spec fn bool_op(b: bool) -> MirOperand {
    MirOperand::Constant(MirConst::Bool(b))
}

/// The type of a search's answer: a `bool` for `any` and `all`, an
/// optional `i64` for `find` and `position`.
pub open spec fn search_result_ty(kind: SearchKind) -> MirType {
    match kind {
        SearchKind::Any | SearchKind::All => MirType::Bool,
        _ => MirType::Option(Box::new(MirType::I64)),
    }
}

/// `new` is `old` with the answer slot `result` made and given its
/// starting value, in the current block: `false` for `any`, `true` for
/// `all`, an empty optional (tag 1) otherwise; a `position` search also
/// gets its running counter, starting at 0.
pub open spec fn search_started(old: MirBuilder, new: MirBuilder, kind: SearchKind) -> bool {
    let n = old.locals@.len();
    let c = old.current;
    let result = LocalId(n as usize);
    let empty = MirStmt::Store { addr: result, offset: 0, value: int_op(1), store_size: None };
    &&& new.terms@ == old.terms@
    &&& new.current == c
    &&& match kind {
        SearchKind::Any => {
            &&& new.locals@ == old.locals@.push(temp_decl(MirType::Bool))
            &&& new.stmts@ == old.stmts@.push(placed(c, assign_use(result, bool_op(false))))
        },
        SearchKind::All => {
            &&& new.locals@ == old.locals@.push(temp_decl(MirType::Bool))
            &&& new.stmts@ == old.stmts@.push(placed(c, assign_use(result, bool_op(true))))
        },
        SearchKind::Find => {
            &&& new.locals@ == old.locals@.push(temp_decl(search_result_ty(kind)))
            &&& new.stmts@ == old.stmts@.push(placed(c, empty))
        },
        SearchKind::Position => {
            &&& new.locals@ == old.locals@ + seq![
                temp_decl(search_result_ty(kind)),
                temp_decl(MirType::I64),
            ]
            &&& new.stmts@ == old.stmts@ + seq![
                placed(c, empty),
                placed(c, assign_use(LocalId((n + 1) as usize), int_op(0))),
            ]
        },
    }
}

/// `new` is `old` with the position counter `pos` read into a new temp
/// (this element's position) and then moved on by one through another.
pub open spec fn position_counted(old: MirBuilder, new: MirBuilder, pos: LocalId) -> bool {
    let n = old.locals@.len();
    let c = old.current;
    let here = LocalId(n as usize);
    let next = LocalId((n + 1) as usize);
    &&& new.locals@ == old.locals@ + seq![temp_decl(MirType::I64), temp_decl(MirType::I64)]
    &&& new.stmts@ == old.stmts@ + seq![
        placed(c, assign_use(here, local_op(pos))),
        placed(c, assign_op(next, BinOp::Add, local_op(pos), int_op(1))),
        placed(c, assign_use(pos, local_op(next))),
    ]
    &&& new.terms@ == old.terms@
    &&& new.current == c
}

/// What the block taken on a deciding element stores: `true` for `any`,
/// `false` for `all`, and for `find` and `position` a present optional
/// (tag 0) holding the element or its position `here`.
pub open spec fn hit_stmts(kind: SearchKind, result: LocalId, value: MirOperand, here: LocalId) -> Seq<MirStmt> {
    let present = MirStmt::Store { addr: result, offset: 0, value: int_op(0), store_size: None };
    match kind {
        SearchKind::Any => seq![assign_use(result, bool_op(true))],
        SearchKind::All => seq![assign_use(result, bool_op(false))],
        SearchKind::Find => seq![
            present,
            MirStmt::Store { addr: result, offset: 8, value: value, store_size: None },
        ],
        SearchKind::Position => seq![
            present,
            MirStmt::Store { addr: result, offset: 8, value: local_op(here), store_size: None },
        ],
    }
}

/// Statements all placed in `block`.
pub open spec fn placed_in(block: BlockId, stmts: Seq<MirStmt>) -> Seq<PlacedStmt> {
    Seq::new(stmts.len(), |i: int| placed(block, stmts[i]))
}

/// `new` is `old` with the search decided on `value`: the predicate's
/// answer `p = pred(value)` in a new `bool` temp; a new block `hit` that
/// the current block branches to when `p` decides (when it holds, or for
/// `all` when it fails), and to the loop's increment block otherwise;
/// `hit` storing the answer and leaving the loop; then the loop closed, its
/// increment block bumping the index through a new `i64` temp and jumping
/// back to the check, and the builder in the exit block.
pub open spec fn search_decided(
    old: MirBuilder,
    new: MirBuilder,
    kind: SearchKind,
    result: LocalId,
    value: MirOperand,
    here: LocalId,
    pred: Seq<char>,
    s: IterLoopSetup,
) -> bool {
    let n = old.locals@.len();
    let m = old.stmts@.len() as int;
    let c = old.current;
    let p = LocalId(n as usize);
    let t = LocalId((n + 1) as usize);
    let hit = BlockId(old.terms@.len() as usize);
    let all = kind is All;
    let branch = MirTerminator::Branch {
        cond: local_op(p),
        then_block: if all {
            s.inc_block
        } else {
            hit
        },
        else_block: if all {
            hit
        } else {
            s.inc_block
        },
    };
    let tail = placed_in(hit, hit_stmts(kind, result, value, here)) + seq![
        placed(s.inc_block, assign_op(t, BinOp::Add, local_op(s.idx), int_op(1))),
        placed(s.inc_block, assign_use(s.idx, local_op(t))),
    ];
    &&& new.locals@ == old.locals@ + seq![temp_decl(MirType::Bool), temp_decl(MirType::I64)]
    &&& new.stmts@.len() == m + 1 + tail.len()
    &&& new.stmts@.subrange(0, m) == old.stmts@
    &&& new.stmts@[m].block == c
    &&& is_call(new.stmts@[m].stmt, Some(p), pred, seq![value])
    &&& new.stmts@.subrange(m + 1, new.stmts@.len() as int) == tail
    &&& new.terms@ == old.terms@.update(c.0 as int, Some(branch)).push(
        Some(MirTerminator::Goto { target: s.exit_block }),
    ).update(s.inc_block.0 as int, Some(MirTerminator::Goto { target: s.check_block }))
    &&& new.current == s.exit_block
}

/// The phases of a search loop, from `old` to `new`: the answer slot made
/// and started (`b1`), the loop set up (`b2`, `s`), the adapters applied
/// (`b3`, giving `out`), for `position` the counter read and moved on
/// (`b4`; for the others `b4` is `b3`), and the search decided on the
/// element.
pub open spec fn search_phases(
    old: MirBuilder,
    b1: MirBuilder,
    b2: MirBuilder,
    s: IterLoopSetup,
    b3: MirBuilder,
    out: (MirOperand, MirType),
    b4: MirBuilder,
    new: MirBuilder,
    chain: IterChain,
    pred: Seq<char>,
    kind: SearchKind,
) -> bool {
    let result = LocalId(old.locals@.len() as usize);
    let pos = LocalId((old.locals@.len() + 1) as usize);
    let here = LocalId(b3.locals@.len() as usize);
    &&& search_started(old, b1, kind)
    &&& loop_setup_shape(b1, b2, chain, s)
    &&& adapters_applied(b2, b3, chain, local_op(s.elem_local), s.elem_ty, s.inc_block, s.idx, out)
    &&& if kind is Position {
        position_counted(b3, b4, pos)
    } else {
        b4 == b3
    }
    &&& search_decided(b4, new, kind, result, out.0, here, pred, s)
}

impl MirLowerer {
    /// `.any(pred)`: a `bool` starting `false`, set `true` and the loop left
    /// on the first element for which `pred` holds; see `search_phases`.
    pub fn lower_iter_any(&mut self, chain: &IterChain, pred: &str) -> (r: (MirOperand, MirType))
        requires
            old(self).builder.wf(),
            size_fits(chain.source_ty),
        ensures
            r == (local_op(LocalId(old(self).builder.locals@.len() as usize)), search_result_ty(SearchKind::Any)),
            exists|b1: MirBuilder, b2: MirBuilder, s: IterLoopSetup, b3: MirBuilder, out: (MirOperand, MirType), b4: MirBuilder|
                #[trigger] search_phases(
                    old(self).builder,
                    b1,
                    b2,
                    s,
                    b3,
                    out,
                    b4,
                    final(self).builder,
                    *chain,
                    pred@,
                    SearchKind::Any,
                ),
            final(self).builder.wf(),
            final(self).ctx == old(self).ctx,
            final(self).collected_elem_types@ == old(self).collected_elem_types@,
    {
        self.lower_iter_search(chain, pred, SearchKind::Any)
    }

    /// `.all(pred)`: a `bool` starting `true`, set `false` and the loop left
    /// on the first element for which `pred` fails; see `search_phases`.
    pub fn lower_iter_all(&mut self, chain: &IterChain, pred: &str) -> (r: (MirOperand, MirType))
        requires
            old(self).builder.wf(),
            size_fits(chain.source_ty),
        ensures
            r == (local_op(LocalId(old(self).builder.locals@.len() as usize)), search_result_ty(SearchKind::All)),
            exists|b1: MirBuilder, b2: MirBuilder, s: IterLoopSetup, b3: MirBuilder, out: (MirOperand, MirType), b4: MirBuilder|
                #[trigger] search_phases(
                    old(self).builder,
                    b1,
                    b2,
                    s,
                    b3,
                    out,
                    b4,
                    final(self).builder,
                    *chain,
                    pred@,
                    SearchKind::All,
                ),
            final(self).builder.wf(),
            final(self).ctx == old(self).ctx,
            final(self).collected_elem_types@ == old(self).collected_elem_types@,
    {
        self.lower_iter_search(chain, pred, SearchKind::All)
    }

    /// `.find(pred)`: an optional `i64` starting empty, holding the first
    /// element for which `pred` holds once found; see `search_phases`.
    pub fn lower_iter_find(&mut self, chain: &IterChain, pred: &str) -> (r: (MirOperand, MirType))
        requires
            old(self).builder.wf(),
            size_fits(chain.source_ty),
        ensures
            r == (local_op(LocalId(old(self).builder.locals@.len() as usize)), search_result_ty(SearchKind::Find)),
            exists|b1: MirBuilder, b2: MirBuilder, s: IterLoopSetup, b3: MirBuilder, out: (MirOperand, MirType), b4: MirBuilder|
                #[trigger] search_phases(
                    old(self).builder,
                    b1,
                    b2,
                    s,
                    b3,
                    out,
                    b4,
                    final(self).builder,
                    *chain,
                    pred@,
                    SearchKind::Find,
                ),
            final(self).builder.wf(),
            final(self).ctx == old(self).ctx,
            final(self).collected_elem_types@ == old(self).collected_elem_types@,
    {
        self.lower_iter_search(chain, pred, SearchKind::Find)
    }

    /// `.position(pred)`: an optional `i64` starting empty, holding the
    /// position among the yielded elements of the first one for which `pred`
    /// holds; see `search_phases`.
    pub fn lower_iter_position(&mut self, chain: &IterChain, pred: &str) -> (r: (MirOperand, MirType))
        requires
            old(self).builder.wf(),
            size_fits(chain.source_ty),
        ensures
            r == (local_op(LocalId(old(self).builder.locals@.len() as usize)), search_result_ty(SearchKind::Position)),
            exists|b1: MirBuilder, b2: MirBuilder, s: IterLoopSetup, b3: MirBuilder, out: (MirOperand, MirType), b4: MirBuilder|
                #[trigger] search_phases(
                    old(self).builder,
                    b1,
                    b2,
                    s,
                    b3,
                    out,
                    b4,
                    final(self).builder,
                    *chain,
                    pred@,
                    SearchKind::Position,
                ),
            final(self).builder.wf(),
            final(self).ctx == old(self).ctx,
            final(self).collected_elem_types@ == old(self).collected_elem_types@,
    {
        self.lower_iter_search(chain, pred, SearchKind::Position)
    }

    /// A search loop over a chain; see `search_phases`.
    pub(crate) fn lower_iter_search(&mut self, chain: &IterChain, pred: &str, kind: SearchKind) -> (r: (MirOperand, MirType))
        requires
            old(self).builder.wf(),
            size_fits(chain.source_ty),
        ensures
            r == (local_op(LocalId(old(self).builder.locals@.len() as usize)), search_result_ty(kind)),
            exists|b1: MirBuilder, b2: MirBuilder, s: IterLoopSetup, b3: MirBuilder, out: (MirOperand, MirType), b4: MirBuilder|
                #[trigger] search_phases(old(self).builder, b1, b2, s, b3, out, b4, final(self).builder, *chain, pred@, kind),
            final(self).builder.wf(),
            final(self).ctx == old(self).ctx,
            final(self).collected_elem_types@ == old(self).collected_elem_types@,
    {
        let ghost b0 = self.builder;
        let result_ty = match kind {
            SearchKind::Any | SearchKind::All => MirType::Bool,
            _ => MirType::Option(Box::new(MirType::I64)),
        };
        let result = self.builder.alloc_temp(result_ty.duplicate());
        let mut pos = result;
        match kind {
            SearchKind::Any => {
                self.builder.push_stmt(
                    MirStmt::Assign { dst: result, rvalue: MirRValue::Use(MirOperand::Constant(MirConst::Bool(false))) },
                );
            },
            SearchKind::All => {
                self.builder.push_stmt(
                    MirStmt::Assign { dst: result, rvalue: MirRValue::Use(MirOperand::Constant(MirConst::Bool(true))) },
                );
            },
            SearchKind::Find => {
                self.builder.push_stmt(
                    MirStmt::Store { addr: result, offset: 0, value: MirOperand::Constant(MirConst::Int(1)), store_size: None },
                );
            },
            SearchKind::Position => {
                self.builder.push_stmt(
                    MirStmt::Store { addr: result, offset: 0, value: MirOperand::Constant(MirConst::Int(1)), store_size: None },
                );
                pos = self.builder.alloc_temp(MirType::I64);
                self.builder.push_stmt(
                    MirStmt::Assign { dst: pos, rvalue: MirRValue::Use(MirOperand::Constant(MirConst::Int(0))) },
                );
            },
        }
        let ghost b1 = self.builder;
        proof {
            if kind is Position {
                assert(b1.locals@ =~= b0.locals@ + seq![
                    temp_decl(search_result_ty(kind)),
                    temp_decl(MirType::I64),
                ]);
                assert(b1.stmts@ =~= b0.stmts@ + seq![
                    placed(b0.current, MirStmt::Store { addr: result, offset: 0, value: int_op(1), store_size: None }),
                    placed(b0.current, assign_use(pos, int_op(0))),
                ]);
            }
            assert(search_started(b0, b1, kind));
        }
        let setup = self.setup_iter_chain_loop(chain);
        let ghost b2 = self.builder;
        proof {
            lemma_setup_blocks(b1, b2, *chain, setup);
        }
        let (final_op, final_ty) = self.apply_iter_adapters(
            chain,
            MirOperand::Local(setup.elem_local),
            setup.elem_ty.duplicate(),
            setup.inc_block,
            setup.idx,
        );
        let ghost b3 = self.builder;
        let ghost out = (final_op, final_ty);
        proof {
            lemma_filter_terms_len(b2.terms@, b3.terms@, adapters_fold(
                chain.adapters@,
                chain.adapters@.len() as int,
                local_op(setup.elem_local),
                setup.elem_ty,
                setup.idx,
                b2.locals@.len(),
                b2.terms@.len(),
                b2.current,
            ).4, b2.current, setup.inc_block);
        }
        let mut here = pos;
        if let SearchKind::Position = kind {
            here = self.builder.alloc_temp(MirType::I64);
            self.builder.push_stmt(MirStmt::Assign { dst: here, rvalue: MirRValue::Use(MirOperand::Local(pos)) });
            let next = self.builder.alloc_temp(MirType::I64);
            self.builder.push_stmt(
                MirStmt::Assign {
                    dst: next,
                    rvalue: MirRValue::BinaryOp {
                        op: BinOp::Add,
                        left: MirOperand::Local(pos),
                        right: MirOperand::Constant(MirConst::Int(1)),
                    },
                },
            );
            self.builder.push_stmt(MirStmt::Assign { dst: pos, rvalue: MirRValue::Use(MirOperand::Local(next)) });
            proof {
                assert(self.builder.locals@ =~= b3.locals@ + seq![temp_decl(MirType::I64), temp_decl(MirType::I64)]);
                assert(self.builder.stmts@ =~= b3.stmts@ + seq![
                    placed(b3.current, assign_use(here, local_op(pos))),
                    placed(b3.current, assign_op(next, BinOp::Add, local_op(pos), int_op(1))),
                    placed(b3.current, assign_use(pos, local_op(next))),
                ]);
            }
        }
        let ghost b4 = self.builder;
        let p = self.builder.alloc_temp(MirType::Bool);
        let mut args: Vec<MirOperand> = Vec::new();
        args.push(final_op.duplicate());
        let ghost av = args@;
        self.builder.push_stmt(MirStmt::Call { dst: Some(p), func: String::from_str(pred), args });
        let ghost b5 = self.builder;
        proof {
            assert(b5.stmts@.subrange(0, b4.stmts@.len() as int) =~= b4.stmts@);
            assert(b5.stmts@.last().stmt matches MirStmt::Call { args: a, .. } && a@ == av);
            assert(av =~= seq![out.0]);
        }
        let hit = self.builder.create_block();
        let (then_block, else_block) = match kind {
            SearchKind::All => (setup.inc_block, hit),
            _ => (hit, setup.inc_block),
        };
        self.builder.terminate(MirTerminator::Branch { cond: MirOperand::Local(p), then_block, else_block });
        self.builder.switch_to_block(hit);
        let ghost bh = self.builder;
        let ghost hs = hit_stmts(kind, result, out.0, here);
        match kind {
            SearchKind::Any => {
                self.builder.push_stmt(
                    MirStmt::Assign { dst: result, rvalue: MirRValue::Use(MirOperand::Constant(MirConst::Bool(true))) },
                );
                proof {
                    assert(self.builder.stmts@ =~= bh.stmts@ + placed_in(hit, hs));
                }
            },
            SearchKind::All => {
                self.builder.push_stmt(
                    MirStmt::Assign { dst: result, rvalue: MirRValue::Use(MirOperand::Constant(MirConst::Bool(false))) },
                );
                proof {
                    assert(self.builder.stmts@ =~= bh.stmts@ + placed_in(hit, hs));
                }
            },
            SearchKind::Find => {
                self.builder.push_stmt(
                    MirStmt::Store { addr: result, offset: 0, value: MirOperand::Constant(MirConst::Int(0)), store_size: None },
                );
                self.builder.push_stmt(MirStmt::Store { addr: result, offset: 8, value: final_op, store_size: None });
                proof {
                    assert(self.builder.stmts@ =~= bh.stmts@ + placed_in(hit, hs));
                }
            },
            SearchKind::Position => {
                self.builder.push_stmt(
                    MirStmt::Store { addr: result, offset: 0, value: MirOperand::Constant(MirConst::Int(0)), store_size: None },
                );
                self.builder.push_stmt(
                    MirStmt::Store { addr: result, offset: 8, value: MirOperand::Local(here), store_size: None },
                );
                proof {
                    assert(self.builder.stmts@ =~= bh.stmts@ + placed_in(hit, hs));
                }
            },
        }
        let ghost b6 = self.builder;
        self.builder.terminate(MirTerminator::Goto { target: setup.exit_block });
        let ghost b7 = self.builder;
        self.emit_iter_increment(setup.idx, setup.inc_block, setup.check_block);
        let ghost b8 = self.builder;
        self.builder.switch_to_block(setup.exit_block);
        proof {
            lemma_search_decided(b4, b5, bh, b6, b7, b8, self.builder, kind, result, out.0, here, pred@, setup);
            assert(search_phases(b0, b1, b2, setup, b3, out, b4, self.builder, *chain, pred@, kind));
        }
        (MirOperand::Local(result), result_ty)
    }
}


/// The statements and blocks that deciding a search emits, from the
/// predicate's call to the exit block, give `search_decided`.
proof fn lemma_search_decided(
    b4: MirBuilder,
    b5: MirBuilder,
    bh: MirBuilder,
    b6: MirBuilder,
    b7: MirBuilder,
    b8: MirBuilder,
    new: MirBuilder,
    kind: SearchKind,
    result: LocalId,
    value: MirOperand,
    here: LocalId,
    pred: Seq<char>,
    s: IterLoopSetup,
)
    requires
        b4.wf(),
        s.inc_block.0 < b4.terms@.len(),
        s.exit_block.0 < b4.terms@.len(),
        b6.current.0 == b4.terms@.len(),
        ({
            let m = b4.stmts@.len() as int;
            let p = LocalId(b4.locals@.len() as usize);
            &&& b5.locals@ == b4.locals@.push(temp_decl(MirType::Bool))
            &&& b5.stmts@.len() == m + 1
            &&& b5.stmts@.subrange(0, m) == b4.stmts@
            &&& b5.stmts@[m].block == b4.current
            &&& is_call(b5.stmts@[m].stmt, Some(p), pred, seq![value])
            &&& b5.terms@ == b4.terms@
            &&& b5.current == b4.current
        }),
        ({
            let hit = BlockId(b4.terms@.len() as usize);
            let p = LocalId(b4.locals@.len() as usize);
            let all = kind is All;
            &&& bh.locals@ == b5.locals@
            &&& bh.stmts@ == b5.stmts@
            &&& bh.terms@ == b5.terms@.push(None).update(
                b4.current.0 as int,
                Some(
                    MirTerminator::Branch {
                        cond: local_op(p),
                        then_block: if all {
                            s.inc_block
                        } else {
                            hit
                        },
                        else_block: if all {
                            hit
                        } else {
                            s.inc_block
                        },
                    },
                ),
            )
            &&& bh.current == hit
            &&& b6.locals@ == bh.locals@
            &&& b6.stmts@ == bh.stmts@ + placed_in(hit, hit_stmts(kind, result, value, here))
            &&& b6.terms@ == bh.terms@
            &&& b6.current == hit
        }),
        b7.locals@ == b6.locals@,
        b7.stmts@ == b6.stmts@,
        b7.terms@ == b6.terms@.update(b6.current.0 as int, Some(MirTerminator::Goto { target: s.exit_block })),
        ({
            let t = LocalId(b7.locals@.len() as usize);
            &&& b8.locals@ == b7.locals@.push(temp_decl(MirType::I64))
            &&& b8.stmts@ == b7.stmts@ + seq![
                placed(s.inc_block, assign_op(t, BinOp::Add, local_op(s.idx), int_op(1))),
                placed(s.inc_block, assign_use(s.idx, local_op(t))),
            ]
            &&& b8.terms@ == b7.terms@.update(s.inc_block.0 as int, Some(MirTerminator::Goto { target: s.check_block }))
        }),
        new.locals@ == b8.locals@,
        new.stmts@ == b8.stmts@,
        new.terms@ == b8.terms@,
        new.current == s.exit_block,
    ensures
        search_decided(b4, new, kind, result, value, here, pred, s),
{
    let m = b4.stmts@.len() as int;
    let hit = BlockId(b4.terms@.len() as usize);
    let t = LocalId((b4.locals@.len() + 1) as usize);
    let hs = placed_in(hit, hit_stmts(kind, result, value, here));
    let tail = hs + seq![
        placed(s.inc_block, assign_op(t, BinOp::Add, local_op(s.idx), int_op(1))),
        placed(s.inc_block, assign_use(s.idx, local_op(t))),
    ];
    assert(new.locals@ =~= b4.locals@ + seq![temp_decl(MirType::Bool), temp_decl(MirType::I64)]);
    assert(new.stmts@.subrange(0, m) =~= b4.stmts@) by {
        assert(new.stmts@.subrange(0, m) =~= b5.stmts@.subrange(0, m));
    }
    assert(new.stmts@[m] == b5.stmts@[m]);
    assert(new.stmts@.subrange(m + 1, new.stmts@.len() as int) =~= tail);
    let all = kind is All;
    let branch = MirTerminator::Branch {
        cond: local_op(LocalId(b4.locals@.len() as usize)),
        then_block: if all {
            s.inc_block
        } else {
            hit
        },
        else_block: if all {
            hit
        } else {
            s.inc_block
        },
    };
    assert(bh.terms@ =~= b4.terms@.update(b4.current.0 as int, Some(branch)).push(None));
    assert(b6.current == hit);
    assert(b7.terms@ =~= b4.terms@.update(b4.current.0 as int, Some(branch)).push(
        Some(MirTerminator::Goto { target: s.exit_block }),
    ));
    assert(new.terms@ =~= b4.terms@.update(b4.current.0 as int, Some(branch)).push(
        Some(MirTerminator::Goto { target: s.exit_block }),
    ).update(s.inc_block.0 as int, Some(MirTerminator::Goto { target: s.check_block })));
}

} // verus!
