//! The block builder the lowering code emits into.
//!
//! Statements are kept in one list in the order they were emitted, each
//! tagged with the block it belongs to; a block's statements are the ones
//! tagged with it, in that order. Every block has a terminator slot, empty
//! until the block is terminated. The builder always stands in one block,
//! the current one, where new statements land.

use vstd::prelude::*;
use crate::mir::{BlockId, LocalId, MirConst, MirOperand, MirStmt, MirTerminator, MirType};

verus! {

/// A local slot: its type, and the source name it was bound to, if any.
#[derive(Debug)]
pub struct LocalDecl {
    pub name: Option<String>,
    pub ty: MirType,
}

/// A statement and the block it was emitted into.
#[derive(Debug)]
pub struct PlacedStmt {
    pub block: BlockId,
    pub stmt: MirStmt,
}

/// The function under construction.
#[derive(Debug)]
pub struct MirBuilder {
    pub locals: Vec<LocalDecl>,
    pub stmts: Vec<PlacedStmt>,
    pub terms: Vec<Option<MirTerminator>>,
    pub current: BlockId,
}

/// An unnamed local of type `ty`.
pub open spec fn temp_decl(ty: MirType) -> LocalDecl {
    LocalDecl { name: None, ty }
}

/// `stmt` emitted into block `block`.
pub open spec fn placed(block: BlockId, stmt: MirStmt) -> PlacedStmt {
    PlacedStmt { block, stmt }
}

/// `s` is a call of the function named `func` with exactly `args`, writing
/// its result to `dst`.
pub open spec fn is_call(s: MirStmt, dst: Option<LocalId>, func: Seq<char>, args: Seq<MirOperand>) -> bool {
    &&& s matches MirStmt::Call { dst: d, func: f, args: a }
    &&& d == dst
    &&& f@ == func
    &&& a@ == args
}

/// What an emitted statement is expected to be: exactly a statement, or a
/// call, whose arguments are a sequence.
pub enum StmtForm {
    Exact(MirStmt),
    CallTo { dst: Option<LocalId>, func: Seq<char>, args: Seq<MirOperand> },
    /// A store of a string constant with the text `text`.
    StoreText { addr: LocalId, offset: u32, text: Seq<char>, store_size: Option<u32> },
}

/// Statement `s` has the form `f`.
pub open spec fn stmt_fits(s: MirStmt, f: StmtForm) -> bool {
    match f {
        StmtForm::Exact(x) => s == x,
        StmtForm::CallTo { dst, func, args } => is_call(s, dst, func, args),
        StmtForm::StoreText { addr, offset, text, store_size } => {
            &&& s matches MirStmt::Store { addr: a, offset: o, value: MirOperand::Constant(MirConst::String(t)), store_size: z }
            &&& a == addr
            &&& o == offset
            &&& t@ == text
            &&& z == store_size
        },
    }
}

/// From position `m` on, `stmts` holds exactly the statements `forms`
/// describes, each in its block.
pub open spec fn emitted(stmts: Seq<PlacedStmt>, m: int, forms: Seq<(BlockId, StmtForm)>) -> bool {
    &&& stmts.len() == m + forms.len()
    &&& forall|i: int|
        0 <= i < forms.len() ==> (#[trigger] stmts[m + i]).block == forms[i].0 && stmt_fits(
            stmts[m + i].stmt,
            forms[i].1,
        )
}

/// Everything `b` holds past `base`, when `base` is where emission
/// started: the temps of the types `temps`, in order, and the statements
/// that `forms` describes, in order.
pub open spec fn recorded(base: MirBuilder, b: MirBuilder, temps: Seq<MirType>, forms: Seq<(BlockId, StmtForm)>) -> bool {
    let m = base.stmts@.len() as int;
    &&& b.locals@ == base.locals@ + Seq::new(temps.len(), |i: int| temp_decl(temps[i]))
    &&& b.stmts@.subrange(0, m) == base.stmts@
    &&& emitted(b.stmts@, m, forms)
}

/// Nothing is recorded past a builder itself.
pub proof fn lemma_recorded_start(b: MirBuilder)
    ensures
        recorded(b, b, Seq::empty(), Seq::empty()),
{
    assert(b.locals@ =~= b.locals@ + Seq::new(0, |i: int| temp_decl(Seq::<MirType>::empty()[i])));
    assert(b.stmts@.subrange(0, b.stmts@.len() as int) =~= b.stmts@);
}

/// A new temp of type `ty` is recorded.
pub proof fn lemma_recorded_temp(
    base: MirBuilder,
    old: MirBuilder,
    new: MirBuilder,
    temps: Seq<MirType>,
    forms: Seq<(BlockId, StmtForm)>,
    ty: MirType,
)
    requires
        recorded(base, old, temps, forms),
        new.locals@ == old.locals@.push(temp_decl(ty)),
        new.stmts@ == old.stmts@,
    ensures
        recorded(base, new, temps.push(ty), forms),
{
    let t2 = temps.push(ty);
    assert(new.locals@ =~= base.locals@ + Seq::new(t2.len(), |i: int| temp_decl(t2[i])));
}

/// A new statement, in block `blk` and of the form `f`, is recorded.
pub proof fn lemma_recorded_stmt(
    base: MirBuilder,
    old: MirBuilder,
    new: MirBuilder,
    temps: Seq<MirType>,
    forms: Seq<(BlockId, StmtForm)>,
    blk: BlockId,
    f: StmtForm,
)
    requires
        recorded(base, old, temps, forms),
        new.locals@ == old.locals@,
        new.stmts@.len() == old.stmts@.len() + 1,
        new.stmts@.subrange(0, old.stmts@.len() as int) == old.stmts@,
        new.stmts@.last().block == blk,
        stmt_fits(new.stmts@.last().stmt, f),
    ensures
        recorded(base, new, temps, forms.push((blk, f))),
{
    let m = base.stmts@.len() as int;
    let n = old.stmts@.len() as int;
    assert(new.stmts@.subrange(0, m) =~= old.stmts@.subrange(0, m)) by {
        assert forall|i: int| 0 <= i < m implies new.stmts@[i] == old.stmts@[i] by {
            assert(new.stmts@.subrange(0, n)[i] == new.stmts@[i]);
        }
    }
    let f2 = forms.push((blk, f));
    assert forall|i: int| 0 <= i < f2.len() implies (#[trigger] new.stmts@[m + i]).block == f2[i].0 && stmt_fits(
        new.stmts@[m + i].stmt,
        f2[i].1,
    ) by {
        if i < forms.len() {
            assert(new.stmts@.subrange(0, n)[m + i] == new.stmts@[m + i]);
            assert(old.stmts@[m + i] == new.stmts@[m + i]);
        }
    }
}

/// A new temp of type `ty` and then a new statement, in block `blk` and of
/// the form `f`, are recorded.
pub proof fn lemma_recorded_temp_stmt(
    base: MirBuilder,
    old: MirBuilder,
    new: MirBuilder,
    temps: Seq<MirType>,
    forms: Seq<(BlockId, StmtForm)>,
    ty: MirType,
    blk: BlockId,
    f: StmtForm,
)
    requires
        recorded(base, old, temps, forms),
        new.locals@ == old.locals@.push(temp_decl(ty)),
        new.stmts@.len() == old.stmts@.len() + 1,
        new.stmts@.subrange(0, old.stmts@.len() as int) == old.stmts@,
        new.stmts@.last().block == blk,
        stmt_fits(new.stmts@.last().stmt, f),
    ensures
        recorded(base, new, temps.push(ty), forms.push((blk, f))),
{
    let mid = MirBuilder { locals: new.locals, stmts: old.stmts, terms: old.terms, current: old.current };
    lemma_recorded_temp(base, old, mid, temps, forms, ty);
    lemma_recorded_stmt(base, mid, new, temps.push(ty), forms, blk, f);
}

/// What is recorded past `base` up to `mid`, followed by what is recorded
/// past `mid` up to `new`, is recorded past `base` up to `new`.
pub proof fn lemma_recorded_then(
    base: MirBuilder,
    mid: MirBuilder,
    new: MirBuilder,
    t1: Seq<MirType>,
    f1: Seq<(BlockId, StmtForm)>,
    t2: Seq<MirType>,
    f2: Seq<(BlockId, StmtForm)>,
)
    requires
        recorded(base, mid, t1, f1),
        recorded(mid, new, t2, f2),
    ensures
        recorded(base, new, t1 + t2, f1 + f2),
{
    let m = base.stmts@.len() as int;
    let k = mid.stmts@.len() as int;
    let t = t1 + t2;
    assert(new.locals@ =~= base.locals@ + Seq::new(t.len(), |i: int| temp_decl(t[i]))) by {
        assert(mid.locals@ =~= base.locals@ + Seq::new(t1.len(), |i: int| temp_decl(t1[i])));
    }
    assert(new.stmts@.subrange(0, m) =~= base.stmts@) by {
        assert forall|i: int| 0 <= i < m implies new.stmts@[i] == base.stmts@[i] by {
            assert(new.stmts@.subrange(0, k)[i] == new.stmts@[i]);
            assert(mid.stmts@.subrange(0, m)[i] == mid.stmts@[i]);
        }
    }
    let f = f1 + f2;
    assert forall|i: int| 0 <= i < f.len() implies (#[trigger] new.stmts@[m + i]).block == f[i].0 && stmt_fits(
        new.stmts@[m + i].stmt,
        f[i].1,
    ) by {
        if i < f1.len() {
            assert(new.stmts@.subrange(0, k)[m + i] == new.stmts@[m + i]);
            assert(mid.stmts@[m + i] == new.stmts@[m + i]);
        } else {
            assert(new.stmts@[k + (i - f1.len())] == new.stmts@[m + i]);
        }
    }
}

/// The statement recorded at `k` replaced by one of the form `f` in the
/// same block is recorded so.
pub proof fn lemma_recorded_set(
    base: MirBuilder,
    old: MirBuilder,
    new: MirBuilder,
    temps: Seq<MirType>,
    forms: Seq<(BlockId, StmtForm)>,
    k: int,
    f: StmtForm,
)
    requires
        recorded(base, old, temps, forms),
        0 <= k < forms.len(),
        new.locals@ == old.locals@,
        new.stmts@.len() == old.stmts@.len(),
        forall|i: int| 0 <= i < old.stmts@.len() && i != base.stmts@.len() + k ==> new.stmts@[i] == old.stmts@[i],
        new.stmts@[base.stmts@.len() + k].block == old.stmts@[base.stmts@.len() + k].block,
        stmt_fits(new.stmts@[base.stmts@.len() + k].stmt, f),
    ensures
        recorded(base, new, temps, forms.update(k, (forms[k].0, f))),
{
    let m = base.stmts@.len() as int;
    assert(new.stmts@.subrange(0, m) =~= old.stmts@.subrange(0, m));
    let f2 = forms.update(k, (forms[k].0, f));
    assert forall|i: int| 0 <= i < f2.len() implies (#[trigger] new.stmts@[m + i]).block == f2[i].0 && stmt_fits(
        new.stmts@[m + i].stmt,
        f2[i].1,
    ) by {
        if i != k {
            assert(old.stmts@[m + i] == new.stmts@[m + i]);
        }
    }
}

impl MirBuilder {
    /// The builder stands in a block that exists.
    pub open spec fn wf(&self) -> bool {
        self.current.0 < self.terms@.len()
    }

    /// A fresh function with one empty block, standing in it.
    pub fn new() -> (r: MirBuilder)
        ensures
            r.wf(),
            r.locals@.len() == 0,
            r.stmts@.len() == 0,
            r.terms@ == seq![None::<MirTerminator>],
            r.current == BlockId(0),
    {
        let mut terms: Vec<Option<MirTerminator>> = Vec::new();
        terms.push(None);
        MirBuilder { locals: Vec::new(), stmts: Vec::new(), terms, current: BlockId(0) }
    }

    /// A new unnamed local of type `ty`.
    pub fn alloc_temp(&mut self, ty: MirType) -> (r: LocalId)
        ensures
            r.0 == old(self).locals@.len(),
            final(self).locals@ == old(self).locals@.push(LocalDecl { name: None, ty }),
            final(self).stmts@ == old(self).stmts@,
            final(self).terms@ == old(self).terms@,
            final(self).current == old(self).current,
    {
        let id = LocalId(self.locals.len());
        self.locals.push(LocalDecl { name: None, ty });
        id
    }

    /// A new local of type `ty` bound to the source name `name`.
    pub fn alloc_local(&mut self, name: String, ty: MirType) -> (r: LocalId)
        ensures
            r.0 == old(self).locals@.len(),
            final(self).locals@ == old(self).locals@.push(LocalDecl { name: Some(name), ty }),
            final(self).stmts@ == old(self).stmts@,
            final(self).terms@ == old(self).terms@,
            final(self).current == old(self).current,
    {
        let id = LocalId(self.locals.len());
        self.locals.push(LocalDecl { name: Some(name), ty });
        id
    }

    /// The type of local `id`, when there is such a local.
    pub fn local_type(&self, id: LocalId) -> (r: Option<&MirType>)
        ensures
            r is Some <==> id.0 < self.locals@.len(),
            r is Some ==> *r->0 == self.locals@[id.0 as int].ty,
    {
        if id.0 < self.locals.len() {
            Some(&self.locals[id.0].ty)
        } else {
            None
        }
    }

    /// Give local `id` the type `ty`, once it is known. Nothing changes when
    /// there is no such local.
    pub fn set_local_type(&mut self, id: LocalId, ty: MirType)
        ensures
            id.0 < old(self).locals@.len() ==> final(self).locals@ == old(self).locals@.update(
                id.0 as int,
                LocalDecl { name: old(self).locals@[id.0 as int].name, ty },
            ),
            id.0 >= old(self).locals@.len() ==> final(self).locals@ == old(self).locals@,
            final(self).stmts@ == old(self).stmts@,
            final(self).terms@ == old(self).terms@,
            final(self).current == old(self).current,
    {
        if id.0 < self.locals.len() {
            let name = match &self.locals[id.0].name {
                Some(n) => Some(n.clone()),
                None => None,
            };
            self.locals[id.0] = LocalDecl { name, ty };
        }
    }

    /// Emit `stmt` into the current block.
    pub fn push_stmt(&mut self, stmt: MirStmt)
        ensures
            final(self).stmts@ == old(self).stmts@.push(
                PlacedStmt { block: old(self).current, stmt },
            ),
            final(self).locals@ == old(self).locals@,
            final(self).terms@ == old(self).terms@,
            final(self).current == old(self).current,
    {
        let block = self.current;
        self.stmts.push(PlacedStmt { block, stmt });
    }

    /// Emit the call `dst = func(args)` into the current block.
    pub fn push_call(&mut self, dst: Option<LocalId>, func: &str, args: Vec<MirOperand>)
        ensures
            final(self).stmts@.len() == old(self).stmts@.len() + 1,
            final(self).stmts@.subrange(0, old(self).stmts@.len() as int) == old(self).stmts@,
            final(self).stmts@.last().block == old(self).current,
            is_call(final(self).stmts@.last().stmt, dst, func@, args@),
            final(self).locals@ == old(self).locals@,
            final(self).terms@ == old(self).terms@,
            final(self).current == old(self).current,
    {
        let ghost av = args@;
        let ghost before = self.stmts@;
        self.push_stmt(MirStmt::Call { dst, func: String::from_str(func), args });
        proof {
            assert(self.stmts@.subrange(0, before.len() as int) =~= before);
            assert(self.stmts@.last().stmt matches MirStmt::Call { args: a, .. } && a@ == av);
        }
    }

    /// A new temp of type `ty`, recorded past `base`.
    pub(crate) fn temp_rec(
        &mut self,
        Ghost(base): Ghost<MirBuilder>,
        Ghost(temps): Ghost<Seq<MirType>>,
        Ghost(forms): Ghost<Seq<(BlockId, StmtForm)>>,
        ty: MirType,
    ) -> (r: LocalId)
        requires
            recorded(base, *old(self), temps, forms),
        ensures
            r == LocalId(old(self).locals@.len() as usize),
            recorded(base, *final(self), temps.push(ty), forms),
            final(self).terms@ == old(self).terms@,
            final(self).current == old(self).current,
    {
        let ghost b0 = *self;
        let r = self.alloc_temp(ty);
        proof {
            lemma_recorded_temp(base, b0, *self, temps, forms, ty);
        }
        r
    }

    /// Emit `stmt` into the current block, recorded past `base`.
    pub(crate) fn stmt_rec(
        &mut self,
        Ghost(base): Ghost<MirBuilder>,
        Ghost(temps): Ghost<Seq<MirType>>,
        Ghost(forms): Ghost<Seq<(BlockId, StmtForm)>>,
        stmt: MirStmt,
    )
        requires
            recorded(base, *old(self), temps, forms),
        ensures
            recorded(base, *final(self), temps, forms.push((old(self).current, StmtForm::Exact(stmt)))),
            final(self).terms@ == old(self).terms@,
            final(self).current == old(self).current,
    {
        let ghost b0 = *self;
        let ghost st = stmt;
        self.push_stmt(stmt);
        proof {
            assert(self.stmts@.subrange(0, b0.stmts@.len() as int) =~= b0.stmts@);
            lemma_recorded_stmt(base, b0, *self, temps, forms, b0.current, StmtForm::Exact(st));
        }
    }

    /// Emit the call `dst = func(args)` into the current block, recorded
    /// past `base`.
    pub(crate) fn call_rec(
        &mut self,
        Ghost(base): Ghost<MirBuilder>,
        Ghost(temps): Ghost<Seq<MirType>>,
        Ghost(forms): Ghost<Seq<(BlockId, StmtForm)>>,
        dst: Option<LocalId>,
        func: &str,
        args: Vec<MirOperand>,
    )
        requires
            recorded(base, *old(self), temps, forms),
        ensures
            recorded(
                base,
                *final(self),
                temps,
                forms.push((old(self).current, StmtForm::CallTo { dst, func: func@, args: args@ })),
            ),
            final(self).terms@ == old(self).terms@,
            final(self).current == old(self).current,
    {
        let ghost b0 = *self;
        let ghost av = args@;
        self.push_call(dst, func, args);
        proof {
            lemma_recorded_stmt(base, b0, *self, temps, forms, b0.current, StmtForm::CallTo { dst, func: func@, args: av });
        }
    }

    /// A new block with no statements and no terminator. The builder stays
    /// where it is.
    pub fn create_block(&mut self) -> (r: BlockId)
        ensures
            r.0 == old(self).terms@.len(),
            final(self).terms@ == old(self).terms@.push(None),
            final(self).locals@ == old(self).locals@,
            final(self).stmts@ == old(self).stmts@,
            final(self).current == old(self).current,
    {
        let id = BlockId(self.terms.len());
        self.terms.push(None);
        id
    }

    /// Make `block` the current block.
    pub fn switch_to_block(&mut self, block: BlockId)
        requires
            block.0 < old(self).terms@.len(),
        ensures
            final(self).current == block,
            final(self).locals@ == old(self).locals@,
            final(self).stmts@ == old(self).stmts@,
            final(self).terms@ == old(self).terms@,
    {
        self.current = block;
    }

    /// End the current block with `term`, replacing any terminator it had.
    pub fn terminate(&mut self, term: MirTerminator)
        requires
            old(self).wf(),
        ensures
            final(self).terms@ == old(self).terms@.update(old(self).current.0 as int, Some(term)),
            final(self).locals@ == old(self).locals@,
            final(self).stmts@ == old(self).stmts@,
            final(self).current == old(self).current,
    {
        let cur = self.current.0;
        self.terms[cur] = Some(term);
    }

    /// Where the next statement will land in the emission order.
    pub fn next_stmt_pos(&self) -> (r: usize)
        ensures
            r == self.stmts@.len(),
    {
        self.stmts.len()
    }

    /// Whether the current block still lacks a terminator.
    pub fn current_block_unterminated(&self) -> (r: bool)
        requires
            self.wf(),
        ensures
            r == (self.terms@[self.current.0 as int] is None),
    {
        self.terms[self.current.0].is_none()
    }

    /// Replace the arguments of the call at position `pos`, when that
    /// statement is a call of `func`. Anything else is left alone.
    pub fn set_call_args(&mut self, pos: usize, func: &str, args: Vec<MirOperand>)
        ensures
            final(self).locals@ == old(self).locals@,
            final(self).terms@ == old(self).terms@,
            final(self).current == old(self).current,
            final(self).stmts@.len() == old(self).stmts@.len(),
            forall|i: int|
                0 <= i < old(self).stmts@.len() && i != pos ==> final(self).stmts@[i] == old(
                    self,
                ).stmts@[i],
            pos < old(self).stmts@.len() ==> ({
                let before = old(self).stmts@[pos as int];
                let after = final(self).stmts@[pos as int];
                match before.stmt {
                    MirStmt::Call { dst, func: f, .. } => if f@ == func@ {
                        &&& after.block == before.block
                        &&& after.stmt matches MirStmt::Call { dst: d2, func: f2, args: a2 }
                        &&& d2 == dst
                        &&& f2@ == func@
                        &&& a2@ == args@
                    } else {
                        after == before
                    },
                    _ => after == before,
                }
            }),
    {
        if pos < self.stmts.len() {
            let is_target = match &self.stmts[pos].stmt {
                MirStmt::Call { func: f, .. } => crate::text::str_eq(f.as_str(), func),
                _ => false,
            };
            if is_target {
                let block = self.stmts[pos].block;
                let dst = match &self.stmts[pos].stmt {
                    MirStmt::Call { dst, .. } => *dst,
                    _ => None,
                };
                let f = func.to_string();
                self.stmts[pos] = PlacedStmt { block, stmt: MirStmt::Call { dst, func: f, args } };
            }
        }
    }
}

} // verus!
