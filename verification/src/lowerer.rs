//! The lowering state: the builder, the layouts registered with the
//! context, and the per-function tables the lowering pieces consult.
//!
//! Name-keyed tables are lists searched front to back; a lookup answers the
//! first entry with the name, and an insert replaces that entry in place or
//! appends a new one.

use vstd::prelude::*;
use crate::builder::MirBuilder;
use crate::mir::{EnumLayoutId, LocalId, MirOperand, MirType, StructLayoutId};
use crate::types::Type;

verus! {

/// The position of the first element of `s` whose name, as `name_of`
/// reads it, is `key`.
pub open spec fn first_named<T>(s: Seq<T>, name_of: spec_fn(T) -> Seq<char>, key: Seq<char>) -> Option<
    int,
>
    decreases s.len(),
{
    if s.len() == 0 {
        None
    } else if name_of(s[0]) == key {
        Some(0)
    } else {
        match first_named(s.drop_first(), name_of, key) {
            Some(i) => Some(i + 1),
            None => None,
        }
    }
}

/// The first element named `key` sits at `i`.
pub proof fn lemma_first_named_at<T>(s: Seq<T>, name_of: spec_fn(T) -> Seq<char>, key: Seq<char>, i: int)
    requires
        0 <= i < s.len(),
        name_of(s[i]) == key,
        forall|j: int| 0 <= j < i ==> name_of(s[j]) != key,
    ensures
        first_named(s, name_of, key) == Some(i),
    decreases i,
{
    if i > 0 {
        assert forall|j: int| 0 <= j < i - 1 implies name_of(s.drop_first()[j]) != key by {
            assert(s.drop_first()[j] == s[j + 1]);
        }
        lemma_first_named_at(s.drop_first(), name_of, key, i - 1);
    }
}

/// No element is named `key`.
pub proof fn lemma_first_named_none<T>(s: Seq<T>, name_of: spec_fn(T) -> Seq<char>, key: Seq<char>)
    requires
        forall|j: int| 0 <= j < s.len() ==> name_of(s[j]) != key,
    ensures
        first_named(s, name_of, key) is None,
    decreases s.len(),
{
    if s.len() > 0 {
        assert forall|j: int| 0 <= j < s.len() - 1 implies name_of(s.drop_first()[j]) != key by {
            assert(s.drop_first()[j] == s[j + 1]);
        }
        lemma_first_named_none(s.drop_first(), name_of, key);
    }
}

/// Before the first element named `key`, no element has the name.
pub proof fn lemma_first_named_before<T>(s: Seq<T>, name_of: spec_fn(T) -> Seq<char>, key: Seq<char>, j: int)
    requires
        first_named(s, name_of, key) matches Some(i) && 0 <= j < i,
    ensures
        name_of(s[j]) != key,
    decreases s.len(),
{
    lemma_first_named_props(s, name_of, key);
    if s.len() > 0 && name_of(s[0]) != key && j > 0 {
        lemma_first_named_before(s.drop_first(), name_of, key, j - 1);
        assert(s.drop_first()[j - 1] == s[j]);
    }
}

/// With no element named `key`, none at `j` is.
pub proof fn lemma_first_named_none_at<T>(s: Seq<T>, name_of: spec_fn(T) -> Seq<char>, key: Seq<char>, j: int)
    requires
        first_named(s, name_of, key) is None,
        0 <= j < s.len(),
    ensures
        name_of(s[j]) != key,
    decreases s.len(),
{
    if j > 0 {
        lemma_first_named_none_at(s.drop_first(), name_of, key, j - 1);
    }
}

/// Where `first_named` answers, the element there has the name.
pub proof fn lemma_first_named_props<T>(s: Seq<T>, name_of: spec_fn(T) -> Seq<char>, key: Seq<char>)
    ensures
        first_named(s, name_of, key) matches Some(i) ==> 0 <= i < s.len() && name_of(s[i])
            == key,
    decreases s.len(),
{
    if s.len() > 0 {
        lemma_first_named_props(s.drop_first(), name_of, key);
    }
}

/// Reads a struct layout's name.
pub open spec fn struct_layout_name() -> spec_fn(StructLayout) -> Seq<char> {
    |l: StructLayout| l.name@
}

/// Reads an enum layout's name.
pub open spec fn enum_layout_name() -> spec_fn(EnumLayout) -> Seq<char> {
    |l: EnumLayout| l.name@
}

/// Reads an enum variant's name.
pub open spec fn variant_name() -> spec_fn(VariantLayout) -> Seq<char> {
    |v: VariantLayout| v.name@
}

/// The position of the first variant of `variants` named `name`.
pub fn find_variant(variants: &Vec<VariantLayout>, name: &str) -> (r: Option<usize>)
    ensures
        r is Some <==> first_named(variants@, variant_name(), name@) is Some,
        r is Some ==> first_named(variants@, variant_name(), name@) == Some(r->0 as int) && r->0
            < variants@.len(),
{
    let mut i: usize = 0;
    while i < variants.len()
        invariant
            0 <= i <= variants@.len(),
            forall|j: int| 0 <= j < i ==> variants@[j].name@ != name@,
        decreases variants@.len() - i,
    {
        if crate::text::str_eq(variants[i].name.as_str(), name) {
            proof {
                lemma_first_named_at(variants@, variant_name(), name@, i as int);
            }
            return Some(i);
        }
        i = i + 1;
    }
    proof {
        lemma_first_named_none(variants@, variant_name(), name@);
    }
    None
}

/// The value of the first entry of `s` keyed `key`.
pub open spec fn assoc_get<V>(s: Seq<(String, V)>, key: Seq<char>) -> Option<V>
    decreases s.len(),
{
    if s.len() == 0 {
        None
    } else if s[0].0@ == key {
        Some(s[0].1)
    } else {
        assoc_get(s.drop_first(), key)
    }
}

/// The first entry keyed `key` sits at `i`.
pub proof fn lemma_assoc_get_at<V>(s: Seq<(String, V)>, key: Seq<char>, i: int)
    requires
        0 <= i < s.len(),
        s[i].0@ == key,
        forall|j: int| 0 <= j < i ==> s[j].0@ != key,
    ensures
        assoc_get(s, key) == Some(s[i].1),
    decreases i,
{
    if i > 0 {
        assert forall|j: int| 0 <= j < i - 1 implies s.drop_first()[j].0@ != key by {
            assert(s.drop_first()[j] == s[j + 1]);
        }
        lemma_assoc_get_at(s.drop_first(), key, i - 1);
    }
}

/// No entry is keyed `key`.
pub proof fn lemma_assoc_get_none<V>(s: Seq<(String, V)>, key: Seq<char>)
    requires
        forall|j: int| 0 <= j < s.len() ==> s[j].0@ != key,
    ensures
        assoc_get(s, key) is None,
    decreases s.len(),
{
    if s.len() > 0 {
        assert forall|j: int| 0 <= j < s.len() - 1 implies s.drop_first()[j].0@ != key by {
            assert(s.drop_first()[j] == s[j + 1]);
        }
        lemma_assoc_get_none(s.drop_first(), key);
    }
}

/// The position of the first entry of `s` keyed `key`.
pub fn assoc_index<V>(s: &Vec<(String, V)>, key: &str) -> (r: Option<usize>)
    ensures
        r is Some ==> r->0 < s@.len() && s@[r->0 as int].0@ == key@ && assoc_get(s@, key@)
            == Some(s@[r->0 as int].1),
        r is None ==> assoc_get(s@, key@) is None,
{
    let mut i: usize = 0;
    while i < s.len()
        invariant
            0 <= i <= s@.len(),
            forall|j: int| 0 <= j < i ==> s@[j].0@ != key@,
        decreases s@.len() - i,
    {
        if crate::text::str_eq(s[i].0.as_str(), key) {
            proof {
                lemma_assoc_get_at(s@, key@, i as int);
            }
            return Some(i);
        }
        i = i + 1;
    }
    proof {
        lemma_assoc_get_none(s@, key@);
    }
    None
}

/// A field of a struct layout, or of an enum variant's payload.
#[derive(Debug)]
pub struct FieldLayout {
    pub name: String,
    /// The field's declared type, as the checker has it.
    pub ty: Type,
    /// The field's type lowered to MIR.
    pub mir_ty: MirType,
    pub offset: u32,
    pub size: u32,
}

/// A registered struct layout.
#[derive(Debug)]
pub struct StructLayout {
    pub name: String,
    pub size: u32,
    pub align: u32,
    pub fields: Vec<FieldLayout>,
}

/// One variant of a registered enum layout.
#[derive(Debug)]
pub struct VariantLayout {
    pub name: String,
    pub tag: u64,
    pub payload_offset: u32,
    pub fields: Vec<FieldLayout>,
}

/// A registered enum layout.
#[derive(Debug)]
pub struct EnumLayout {
    pub name: String,
    pub size: u32,
    pub align: u32,
    pub tag_offset: u32,
    pub variants: Vec<VariantLayout>,
}

/// What the lowering context knows about the program's types.
#[derive(Debug)]
pub struct LowerCtx {
    pub struct_layouts: Vec<StructLayout>,
    pub enum_layouts: Vec<EnumLayout>,
    /// Declared names of registered types, by type id.
    pub type_names: Vec<String>,
    /// Element types recorded for Vecs across functions, by tracking key.
    pub shared_elem_types: Vec<(String, MirType)>,
    /// The methods of each trait, by trait name, in vtable order.
    pub trait_methods: Vec<(String, Vec<String>)>,
}

/// What lowering tracked about a source name in this function.
#[derive(Debug)]
pub struct LocalMeta {
    pub elem_type: Option<MirType>,
    pub type_prefix: Option<String>,
    pub full_type: Option<String>,
}

/// A source name bound to a local.
#[derive(Debug)]
pub struct LocalBinding {
    pub name: String,
    pub local: LocalId,
    pub ty: MirType,
}

/// What a `comptime for` over a struct's fields knows of the current field.
#[derive(Debug)]
pub struct FieldConst {
    pub name: String,
    pub ty_name: String,
    pub serial_name: String,
    pub offset: u32,
    pub size: u32,
    pub is_public: bool,
    pub is_skipped: bool,
    pub has_default: bool,
}

/// Work owed once the call that borrowed a collection element returns.
#[derive(Debug)]
pub enum ElemWriteback {
    /// Release the borrow of `collection` by calling `release` on it.
    ReleaseBorrow { collection: MirOperand, release: String },
    /// Read the spilled scalar at `addr` back into `dst`.
    ScalarCopyBack { dst: LocalId, addr: LocalId },
}

/// Why a construct could not be lowered.
#[derive(Debug)]
pub enum LoweringError {
    InvalidConstruct(String),
    /// A name bound to nothing lowering knows.
    UnresolvedVariable(String),
}

/// The state of lowering one function.
#[derive(Debug)]
pub struct MirLowerer {
    pub builder: MirBuilder,
    pub ctx: LowerCtx,
    pub locals: Vec<LocalBinding>,
    pub meta: Vec<(String, LocalMeta)>,
    pub comptime_for_bindings: Vec<(String, FieldConst)>,
    pub elem_writebacks: Vec<ElemWriteback>,
    pub collected_elem_types: Vec<(LocalId, MirType)>,
}

impl LowerCtx {
    /// Layout ids fit the `u32` a layout id holds.
    pub open spec fn wf(&self) -> bool {
        &&& self.struct_layouts@.len() <= u32::MAX
        &&& self.enum_layouts@.len() <= u32::MAX
    }

    /// The registered struct layout named `name`: its position and the
    /// layout, first match.
    pub fn find_struct(&self, name: &str) -> (r: Option<usize>)
        ensures
            r is Some <==> first_named(self.struct_layouts@, struct_layout_name(), name@) is Some,
            r is Some ==> first_named(self.struct_layouts@, struct_layout_name(), name@) == Some(
                r->0 as int,
            ) && r->0 < self.struct_layouts@.len(),
    {
        let mut i: usize = 0;
        while i < self.struct_layouts.len()
            invariant
                0 <= i <= self.struct_layouts@.len(),
                forall|j: int| 0 <= j < i ==> self.struct_layouts@[j].name@ != name@,
            decreases self.struct_layouts@.len() - i,
        {
            if crate::text::str_eq(self.struct_layouts[i].name.as_str(), name) {
                proof {
                    lemma_first_named_at(self.struct_layouts@, struct_layout_name(), name@, i as int);
                }
                return Some(i);
            }
            i = i + 1;
        }
        proof {
            lemma_first_named_none(self.struct_layouts@, struct_layout_name(), name@);
        }
        None
    }

    /// The registered enum layout named `name`, first match.
    pub fn find_enum(&self, name: &str) -> (r: Option<usize>)
        ensures
            r is Some <==> first_named(self.enum_layouts@, enum_layout_name(), name@) is Some,
            r is Some ==> first_named(self.enum_layouts@, enum_layout_name(), name@) == Some(
                r->0 as int,
            ) && r->0 < self.enum_layouts@.len(),
    {
        let mut i: usize = 0;
        while i < self.enum_layouts.len()
            invariant
                0 <= i <= self.enum_layouts@.len(),
                forall|j: int| 0 <= j < i ==> self.enum_layouts@[j].name@ != name@,
            decreases self.enum_layouts@.len() - i,
        {
            if crate::text::str_eq(self.enum_layouts[i].name.as_str(), name) {
                proof {
                    lemma_first_named_at(self.enum_layouts@, enum_layout_name(), name@, i as int);
                }
                return Some(i);
            }
            i = i + 1;
        }
        proof {
            lemma_first_named_none(self.enum_layouts@, enum_layout_name(), name@);
        }
        None
    }
}

impl LowerCtx {
    /// Whether enum layout `id` exists and is named `name`.
    pub fn enum_name_is(&self, id: u32, name: &str) -> (r: bool)
        ensures
            r == (id < self.enum_layouts@.len() && self.enum_layouts@[id as int].name@ == name@),
    {
        let i = id as usize;
        i < self.enum_layouts.len() && crate::text::str_eq(self.enum_layouts[i].name.as_str(), name)
    }

    /// The id of the enum layout at position `idx`, with its size and
    /// alignment.
    pub fn enum_layout_id(&self, idx: usize) -> (r: EnumLayoutId)
        requires
            self.wf(),
            idx < self.enum_layouts@.len(),
        ensures
            r == enum_id_at(*self, idx as int),
    {
        EnumLayoutId {
            id: idx as u32,
            size: self.enum_layouts[idx].size,
            align: self.enum_layouts[idx].align,
        }
    }

    /// The id of the struct layout at position `idx`, with its size and
    /// alignment.
    pub fn struct_layout_id(&self, idx: usize) -> (r: StructLayoutId)
        requires
            self.wf(),
            idx < self.struct_layouts@.len(),
        ensures
            r == struct_id_at(*self, idx as int),
    {
        StructLayoutId {
            id: idx as u32,
            size: self.struct_layouts[idx].size,
            align: self.struct_layouts[idx].align,
        }
    }
}

/// The layout id naming the enum layout at position `idx`.
pub open spec fn enum_id_at(ctx: LowerCtx, idx: int) -> EnumLayoutId {
    EnumLayoutId {
        id: idx as u32,
        size: ctx.enum_layouts@[idx].size,
        align: ctx.enum_layouts@[idx].align,
    }
}

/// The layout id naming the struct layout at position `idx`.
pub open spec fn struct_id_at(ctx: LowerCtx, idx: int) -> StructLayoutId {
    StructLayoutId {
        id: idx as u32,
        size: ctx.struct_layouts@[idx].size,
        align: ctx.struct_layouts@[idx].align,
    }
}

impl MirLowerer {
    /// The builder stands in a block, and layout ids fit.
    pub open spec fn wf(&self) -> bool {
        &&& self.builder.wf()
        &&& self.ctx.wf()
    }

    /// A lowerer over `ctx` with a fresh function and empty tables.
    pub fn new(ctx: LowerCtx) -> (r: MirLowerer)
        ensures
            r.builder.wf(),
            r.builder.locals@.len() == 0,
            r.builder.stmts@.len() == 0,
            r.builder.terms@ == seq![None::<crate::mir::MirTerminator>],
            r.builder.current == crate::mir::BlockId(0),
            r.ctx == ctx,
            r.locals@.len() == 0,
            r.meta@.len() == 0,
            r.comptime_for_bindings@.len() == 0,
            r.elem_writebacks@.len() == 0,
            r.collected_elem_types@.len() == 0,
    {
        MirLowerer {
            builder: MirBuilder::new(),
            ctx,
            locals: Vec::new(),
            meta: Vec::new(),
            comptime_for_bindings: Vec::new(),
            elem_writebacks: Vec::new(),
            collected_elem_types: Vec::new(),
        }
    }
}

} // verus!
