//! `json.decode<T>(input)`: the result header, the shape calls that
//! describe `T` to the runtime, turning the runtime's status code into a
//! `JsonError`, and reading a written type argument back into a type.

use vstd::prelude::*;
use crate::debug_text::{checker_type_debug, type_debug};
use crate::builder::{is_call, placed, temp_decl, MirBuilder};
use crate::text::{str_eq, trim, trim_spec};
use crate::types::{args_seq, ArgList, GenericArg, Type};
use crate::iterators::{int_op, local_op};
use crate::lowerer::{
    enum_layout_name, find_variant, first_named, lemma_first_named_props, struct_layout_name, variant_name, LowerCtx,
    LoweringError, MirLowerer, VariantLayout,
};
use crate::mir::{
    BlockId, LocalId, MirConst, MirOperand, MirStmt, MirTerminator, MirType,
    RESULT_ORIGIN_FILE_OFFSET, RESULT_ORIGIN_LINE_OFFSET, RESULT_TAG_OFFSET,
};

verus! {

/// Status code the decoder returns when the input is not JSON.
pub const ERR_PARSE: i64 = 1;
/// Status code for a value of the wrong JSON type.
pub const ERR_TYPE: i64 = 2;
/// Status code for a required key that is absent.
pub const ERR_MISSING: i64 = 3;

/// `Store { addr, offset, value, Some(8) }`: one word.
pub open spec fn store_word(addr: LocalId, offset: u32, value: MirOperand) -> MirStmt {
    MirStmt::Store { addr, offset, value, store_size: Some(8u32) }
}

/// The status code, tag and payload offset of the `JsonError` variant
/// named `name`, when `variants` has one: the first so named.
pub open spec fn variant_entry(variants: Seq<VariantLayout>, code: i64, name: Seq<char>) -> Seq<
    (i64, u32, u32),
> {
    match first_named(variants, variant_name(), name) {
        Some(j) => seq![(code, variants[j].tag as u32, variants[j].payload_offset)],
        None => Seq::empty(),
    }
}

/// The `JsonError` variants the decoder's status codes map to, in code
/// order, each with its tag and payload offset; empty when no `JsonError`
/// layout is registered.
pub open spec fn json_error_variants_spec(ctx: LowerCtx) -> Seq<(i64, u32, u32)> {
    match first_named(ctx.enum_layouts@, enum_layout_name(), "JsonError"@) {
        None => Seq::empty(),
        Some(i) => {
            let vs = ctx.enum_layouts@[i].variants@;
            variant_entry(vs, ERR_PARSE, "ParseError"@) + variant_entry(vs, ERR_TYPE, "TypeError"@)
                + variant_entry(vs, ERR_MISSING, "MissingField"@)
        },
    }
}

/// The tag offset of the registered `JsonError` layout, 0 without one.
pub open spec fn json_error_tag_offset(ctx: LowerCtx) -> u32 {
    match first_named(ctx.enum_layouts@, enum_layout_name(), "JsonError"@) {
        None => 0,
        Some(i) => ctx.enum_layouts@[i].tag_offset,
    }
}

/// What `emit_json_error` emits, from `old` to `new`, for the status in
/// `status` and the error type `err_ty`, answering the error value `r`; see
/// `emit_json_error`.
pub open spec fn json_error_emitted(
    ctx: LowerCtx,
    old: MirBuilder,
    new: MirBuilder,
    status: LocalId,
    err_ty: MirType,
    r: LocalId,
) -> bool {
    let n = old.locals@.len();
    let m = old.stmts@.len();
    let b = old.terms@.len();
    let c = old.current;
    let v = json_error_variants_spec(ctx);
    let msg = LocalId(n as usize);
    let off = json_error_tag_offset(ctx);
    &&& r == LocalId((n + 1) as usize)
    &&& new.locals@ == old.locals@ + seq![
        temp_decl(MirType::String),
        temp_decl(err_ty),
    ]
    &&& new.stmts@.subrange(0, m as int) == old.stmts@
    &&& new.stmts@[m as int].block == c
    &&& is_call(
        new.stmts@[m as int].stmt,
        Some(msg),
        "json_error_message"@,
        Seq::empty(),
    )
    &&& v.len() == 0 ==> {
        &&& new.stmts@.len() == m + 2
        &&& new.stmts@[m + 1int] == placed(
            c,
            MirStmt::Store {
                addr: r,
                offset: 0,
                value: local_op(msg),
                store_size: Some(16u32),
            },
        )
        &&& new.terms@ == old.terms@
        &&& new.current == c
    }
    &&& v.len() > 0 ==> {
        &&& new.stmts@.len() == m + 1 + 2 * v.len()
        &&& forall|k: int|
            0 <= k < v.len() ==> {
                &&& #[trigger] new.stmts@[m + 1 + 2 * k] == placed(
                    BlockId((b + 1 + k) as usize),
                    store_word(r, off, int_op(v[k].1 as i64)),
                )
                &&& new.stmts@[m + 2 + 2 * k] == placed(
                    BlockId((b + 1 + k) as usize),
                    MirStmt::Store {
                        addr: r,
                        offset: v[k].2,
                        value: local_op(msg),
                        store_size: Some(16u32),
                    },
                )
            }
        &&& new.terms@.len() == b + 1 + v.len()
        &&& forall|j: int|
            0 <= j < b && j != c.0 ==> new.terms@[j] == old.terms@[j]
        &&& new.terms@[c.0 as int] matches Some(
            MirTerminator::Switch { value, cases, default },
        ) && value == local_op(status) && default == BlockId((b + 1) as usize)
            && cases@ == Seq::new(
            v.len(),
            |k: int| (v[k].0 as u64, BlockId((b + 1 + k) as usize)),
        )
        &&& new.terms@[b as int] is None
        &&& forall|k: int|
            0 <= k < v.len() ==> #[trigger] new.terms@[b + 1 + k]
                == Some(MirTerminator::Goto { target: BlockId(b as usize) })
        &&& new.current == BlockId(b as usize)
    }
}

impl MirLowerer {
    /// The result tag plus the two origin words, all zero but the tag.
    /// Decode attributes no origin: the `try` site fills that in.
    pub fn store_result_header(&mut self, result: LocalId, tag: i64)
        ensures
            ({
                let c = old(self).builder.current;
                final(self).builder.stmts@ == old(self).builder.stmts@ + seq![
                    placed(c, store_word(result, RESULT_TAG_OFFSET, int_op(tag))),
                    placed(c, store_word(result, RESULT_ORIGIN_FILE_OFFSET, int_op(0))),
                    placed(c, store_word(result, RESULT_ORIGIN_LINE_OFFSET, int_op(0))),
                ]
            }),
            final(self).builder.locals@ == old(self).builder.locals@,
            final(self).builder.terms@ == old(self).builder.terms@,
            final(self).builder.current == old(self).builder.current,
            final(self).ctx == old(self).ctx,
    {
        self.builder.push_stmt(
            MirStmt::Store {
                addr: result,
                offset: RESULT_TAG_OFFSET,
                value: MirOperand::Constant(MirConst::Int(tag)),
                store_size: Some(8),
            },
        );
        let offsets: [u32; 2] = [RESULT_ORIGIN_FILE_OFFSET, RESULT_ORIGIN_LINE_OFFSET];
        let mut k: usize = 0;
        while k < 2
            invariant
                0 <= k <= 2,
                offsets@ == seq![RESULT_ORIGIN_FILE_OFFSET, RESULT_ORIGIN_LINE_OFFSET],
                self.builder.stmts@.len() == old(self).builder.stmts@.len() + 1 + k,
                self.builder.stmts@.subrange(0, old(self).builder.stmts@.len() + 1int)
                    == old(self).builder.stmts@.push(
                    placed(old(self).builder.current, store_word(result, RESULT_TAG_OFFSET, int_op(tag))),
                ),
                forall|j: int|
                    0 <= j < k ==> #[trigger] self.builder.stmts@[old(self).builder.stmts@.len() + 1 + j]
                        == placed(old(self).builder.current, store_word(result, offsets@[j], int_op(0))),
                self.builder.locals@ == old(self).builder.locals@,
                self.builder.terms@ == old(self).builder.terms@,
                self.builder.current == old(self).builder.current,
                self.ctx == old(self).ctx,
            decreases 2 - k,
        {
            let offset = offsets[k];
            self.builder.push_stmt(
                MirStmt::Store {
                    addr: result,
                    offset,
                    value: MirOperand::Constant(MirConst::Int(0)),
                    store_size: Some(8),
                },
            );
            k = k + 1;
        }
        proof {
            let m = old(self).builder.stmts@.len() as int;
            let c = old(self).builder.current;
            assert(self.builder.stmts@[m + 1 + 0] == placed(c, store_word(result, RESULT_ORIGIN_FILE_OFFSET, int_op(0))));
            assert(self.builder.stmts@[m + 1 + 1] == placed(c, store_word(result, RESULT_ORIGIN_LINE_OFFSET, int_op(0))));
            assert(self.builder.stmts@.subrange(0, m + 1)[m as int] == self.builder.stmts@[m as int]);
            assert forall|j: int| 0 <= j < m implies self.builder.stmts@[j] == old(self).builder.stmts@[j] by {
                assert(self.builder.stmts@.subrange(0, m + 1)[j] == self.builder.stmts@[j]);
            }
            assert(self.builder.stmts@ =~= old(self).builder.stmts@ + seq![
                placed(c, store_word(result, RESULT_TAG_OFFSET, int_op(tag))),
                placed(c, store_word(result, RESULT_ORIGIN_FILE_OFFSET, int_op(0))),
                placed(c, store_word(result, RESULT_ORIGIN_LINE_OFFSET, int_op(0))),
            ]);
        }
    }

    /// One shape-building runtime call `name(args)` into a new `i64` temp,
    /// which holds the shape handle.
    pub fn emit_shape_call(&mut self, name: &str, args: Vec<MirOperand>) -> (r: LocalId)
        ensures
            r == LocalId(old(self).builder.locals@.len() as usize),
            final(self).builder.locals@ == old(self).builder.locals@.push(temp_decl(MirType::I64)),
            final(self).builder.stmts@.len() == old(self).builder.stmts@.len() + 1,
            final(self).builder.stmts@.drop_last() == old(self).builder.stmts@,
            final(self).builder.stmts@.last().block == old(self).builder.current,
            is_call(final(self).builder.stmts@.last().stmt, Some(r), name@, args@),
            final(self).builder.terms@ == old(self).builder.terms@,
            final(self).builder.current == old(self).builder.current,
            final(self).ctx == old(self).ctx,
    {
        let local = self.builder.alloc_temp(MirType::I64);
        let ghost before = self.builder.stmts@;
        self.builder.push_stmt(MirStmt::Call { dst: Some(local), func: String::from_str(name), args });
        proof {
            assert(self.builder.stmts@.drop_last() =~= before);
        }
        local
    }

    /// The `JsonError` variants the decoder's status codes map to.
    fn json_error_variants(&self) -> (r: Vec<(i64, u32, u32)>)
        ensures
            r@ == json_error_variants_spec(self.ctx),
    {
        let mut out: Vec<(i64, u32, u32)> = Vec::new();
        let idx = match self.ctx.find_enum("JsonError") {
            Some(i) => i,
            None => {
                return out;
            },
        };
        let vs = &self.ctx.enum_layouts[idx].variants;
        push_variant(&mut out, vs, ERR_PARSE, "ParseError");
        push_variant(&mut out, vs, ERR_TYPE, "TypeError");
        push_variant(&mut out, vs, ERR_MISSING, "MissingField");
        proof {
            assert(out@ =~= json_error_variants_spec(self.ctx));
        }
        out
    }

    /// Turn the runtime's status code into a `JsonError` carrying the
    /// runtime's message. With the layout registered: a switch on the status
    /// from the current block to one block per known variant, each storing
    /// the variant's tag and the message and jumping to a join block, where
    /// the builder is left; an unknown status goes to the first variant's
    /// block. Without the layout, the message alone is stored.
    pub fn emit_json_error(&mut self, status: LocalId, err_ty: &MirType) -> (r: LocalId)
        requires
            old(self).wf(),
        ensures
            json_error_emitted(old(self).ctx, old(self).builder, final(self).builder, status, *err_ty, r),
            final(self).ctx == old(self).ctx,
    {
        let msg = self.builder.alloc_temp(MirType::String);
        self.builder.push_stmt(
            MirStmt::Call {
                dst: Some(msg),
                func: String::from_str("json_error_message"),
                args: Vec::new(),
            },
        );
        let err_val = self.builder.alloc_temp(err_ty.duplicate());
        let ghost n = old(self).builder.locals@.len();
        let ghost m = old(self).builder.stmts@.len();
        let ghost b = old(self).builder.terms@.len();
        let ghost c = old(self).builder.current;
        proof {
            assert(self.builder.locals@ =~= old(self).builder.locals@ + seq![
                temp_decl(MirType::String),
                temp_decl(*err_ty),
            ]);
            assert(self.builder.stmts@.subrange(0, m as int) =~= old(self).builder.stmts@);
            assert(self.builder.stmts@[m as int].stmt matches MirStmt::Call { args: a, .. } && a@
                =~= Seq::<MirOperand>::empty());
        }
        let variants = self.json_error_variants();
        if variants.len() == 0 {
            self.builder.push_stmt(
                MirStmt::Store {
                    addr: err_val,
                    offset: 0,
                    value: MirOperand::Local(msg),
                    store_size: Some(16),
                },
            );
            proof {
                assert(self.builder.stmts@.subrange(0, m as int) =~= old(self).builder.stmts@);
            }
            return err_val;
        }
        let tag_offset = match self.ctx.find_enum("JsonError") {
            Some(i) => self.ctx.enum_layouts[i].tag_offset,
            None => 0,
        };
        let entry = self.builder.current;
        let join = self.builder.create_block();
        let mut cases: Vec<(u64, BlockId)> = Vec::new();
        let ghost v = variants@;
        let mut k: usize = 0;
        while k < variants.len()
            invariant
                v == variants@,
                v == json_error_variants_spec(old(self).ctx),
                v.len() > 0,
                0 <= k <= v.len(),
                self.ctx == old(self).ctx,
                entry == c,
                c.0 < b,
                join == BlockId(b as usize),
                tag_offset == json_error_tag_offset(old(self).ctx),
                msg == LocalId(n as usize),
                err_val == LocalId((n + 1) as usize),
                self.builder.locals@ == old(self).builder.locals@ + seq![
                    temp_decl(MirType::String),
                    temp_decl(*err_ty),
                ],
                self.builder.stmts@.len() == m + 1 + 2 * k,
                self.builder.stmts@.subrange(0, m as int) == old(self).builder.stmts@,
                self.builder.stmts@[m as int].block == c,
                is_call(self.builder.stmts@[m as int].stmt, Some(msg), "json_error_message"@, Seq::empty()),
                forall|j: int|
                    0 <= j < k ==> {
                        &&& #[trigger] self.builder.stmts@[m + 1 + 2 * j] == placed(
                            BlockId((b + 1 + j) as usize),
                            store_word(err_val, tag_offset, int_op(v[j].1 as i64)),
                        )
                        &&& self.builder.stmts@[m + 2 + 2 * j] == placed(
                            BlockId((b + 1 + j) as usize),
                            MirStmt::Store {
                                addr: err_val,
                                offset: v[j].2,
                                value: local_op(msg),
                                store_size: Some(16u32),
                            },
                        )
                    },
                self.builder.terms@.len() == b + 1 + k,
                forall|j: int| 0 <= j < b ==> self.builder.terms@[j] == old(self).builder.terms@[j],
                self.builder.terms@[b as int] is None,
                forall|j: int|
                    0 <= j < k ==> #[trigger] self.builder.terms@[b + 1 + j] == Some(
                        MirTerminator::Goto { target: join },
                    ),
                cases@ == Seq::new(k as nat, |j: int| (v[j].0 as u64, BlockId((b + 1 + j) as usize))),
                self.builder.current.0 < self.builder.terms@.len(),
            decreases v.len() - k,
        {
            let (code, tag, payload_offset) = variants[k];
            let block = self.builder.create_block();
            cases.push((code as u64, block));
            self.builder.switch_to_block(block);
            self.builder.push_stmt(
                MirStmt::Store {
                    addr: err_val,
                    offset: tag_offset,
                    value: MirOperand::Constant(MirConst::Int(tag as i64)),
                    store_size: Some(8),
                },
            );
            self.builder.push_stmt(
                MirStmt::Store {
                    addr: err_val,
                    offset: payload_offset,
                    value: MirOperand::Local(msg),
                    store_size: Some(16),
                },
            );
            self.builder.terminate(MirTerminator::Goto { target: join });
            proof {
                assert(cases@ =~= Seq::new(
                    (k + 1) as nat,
                    |j: int| (v[j].0 as u64, BlockId((b + 1 + j) as usize)),
                ));
                assert(self.builder.stmts@.subrange(0, m as int) =~= old(self).builder.stmts@);
            }
            k = k + 1;
        }
        let default = cases[0].1;
        self.builder.switch_to_block(entry);
        self.builder.terminate(
            MirTerminator::Switch { value: MirOperand::Local(status), cases, default },
        );
        self.builder.switch_to_block(join);
        err_val
    }
}

/// Appends the entry for the variant named `name` to `out`, when there is
/// such a variant.
fn push_variant(out: &mut Vec<(i64, u32, u32)>, variants: &Vec<VariantLayout>, code: i64, name: &str)
    ensures
        final(out)@ == old(out)@ + variant_entry(variants@, code, name@),
{
    match find_variant(variants, name) {
        Some(j) => {
            out.push((code, variants[j].tag as u32, variants[j].payload_offset));
            proof {
                assert(final(out)@ =~= old(out)@ + variant_entry(variants@, code, name@));
            }
        },
        None => {
            proof {
                assert(old(out)@ + variant_entry(variants@, code, name@) =~= old(out)@);
            }
        },
    }
}

/// How deep inside `<...>` position `i` of `s` sits: the `<` before it
/// less the `>` before it.
pub open spec fn angle_depth(s: Seq<char>, i: int) -> int
    decreases i,
{
    if i <= 0 {
        0
    } else {
        angle_depth(s, i - 1) + if s[i - 1] == '<' {
            1int
        } else if s[i - 1] == '>' {
            -1int
        } else {
            0int
        }
    }
}

/// The bracket depth of `s` stays within an `i32` at every position.
pub open spec fn depth_fits(s: Seq<char>) -> bool {
    forall|i: int| 0 <= i <= s.len() ==> i32::MIN <= #[trigger] angle_depth(s, i) <= i32::MAX
}

/// The depth after `i` characters is at most `i` either way, so a string
/// no longer than `i32::MAX` has a depth that fits.
pub proof fn lemma_depth_fits(s: Seq<char>)
    requires
        s.len() <= i32::MAX,
    ensures
        depth_fits(s),
{
    assert forall|i: int| 0 <= i <= s.len() implies i32::MIN <= #[trigger] angle_depth(s, i) <= i32::MAX by {
        lemma_depth_within(s, i);
    }
}

/// `-i <= angle_depth(s, i) <= i`.
proof fn lemma_depth_within(s: Seq<char>, i: int)
    requires
        0 <= i,
    ensures
        -i <= angle_depth(s, i) <= i,
    decreases i,
{
    if i > 0 {
        lemma_depth_within(s, i - 1);
    }
}

/// A comma of `s` that separates type arguments: one outside every `<...>`.
pub open spec fn is_top_comma(s: Seq<char>, i: int) -> bool {
    s[i] == ',' && angle_depth(s, i) == 0
}

/// The trimmed pieces that the separating commas of `s` before position
/// `i` close, and where the piece still open at `i` starts.
pub open spec fn split_prefix(s: Seq<char>, i: int) -> (Seq<Seq<char>>, int)
    decreases i,
{
    if i <= 0 {
        (Seq::empty(), 0)
    } else {
        let (out, start) = split_prefix(s, i - 1);
        if is_top_comma(s, i - 1) {
            (out.push(trim_spec(s.subrange(start, i - 1))), i)
        } else {
            (out, start)
        }
    }
}

/// `s` split on its separating commas, each piece trimmed; the piece
/// after the last comma is dropped when it is empty once trimmed.
pub open spec fn split_type_args_spec(s: Seq<char>) -> Seq<Seq<char>> {
    let (out, start) = split_prefix(s, s.len() as int);
    let tail = trim_spec(s.subrange(start, s.len() as int));
    if tail.len() > 0 {
        out.push(tail)
    } else {
        out
    }
}

/// Where the open piece starts lies within what has been read.
proof fn lemma_split_prefix_start(s: Seq<char>, i: int)
    requires
        0 <= i <= s.len(),
    ensures
        0 <= split_prefix(s, i).1 <= i,
    decreases i,
{
    if i > 0 {
        lemma_split_prefix_start(s, i - 1);
    }
}

/// The views of a list of strings.
pub open spec fn string_views(v: Seq<String>) -> Seq<Seq<char>> {
    Seq::new(v.len(), |k: int| v[k]@)
}

/// Split a type argument list on the commas outside any nested `<...>`,
/// trimming each piece: `"string, Map<K, V>"` gives `string` and
/// `Map<K, V>`.
pub fn split_type_args(s: &str) -> (r: Vec<String>)
    requires
        depth_fits(s@),
    ensures
        string_views(r@) == split_type_args_spec(s@),
{
    let n = s.unicode_len();
    let mut out: Vec<String> = Vec::new();
    let mut depth: i32 = 0;
    let mut start: usize = 0;
    let mut i: usize = 0;
    while i < n
        invariant
            n == s@.len(),
            i <= n,
            depth == angle_depth(s@, i as int),
            depth_fits(s@),
            start == split_prefix(s@, i as int).1,
            string_views(out@) == split_prefix(s@, i as int).0,
        decreases n - i,
    {
        proof {
            lemma_split_prefix_start(s@, i as int);
        }
        let c = s.get_char(i);
        proof {
            assert(i32::MIN <= angle_depth(s@, i + 1) <= i32::MAX);
        }
        if c == '<' {
            depth = depth + 1;
        } else if c == '>' {
            depth = depth - 1;
        } else if c == ',' && depth == 0 {
            let piece = trim(s.substring_char(start, i));
            out.push(piece);
            start = i + 1;
            proof {
                assert(string_views(out@) =~= split_prefix(s@, i + 1).0);
            }
        }
        i = i + 1;
    }
    proof {
        lemma_split_prefix_start(s@, n as int);
    }
    let tail = trim(s.substring_char(start, n));
    if tail.unicode_len() > 0 {
        out.push(tail);
        proof {
            assert(string_views(out@) =~= split_type_args_spec(s@));
        }
    }
    out
}

/// Shape kinds the runtime's decoder knows, for the primitive types.
pub const JSHAPE_BOOL: i64 = 0;
pub const JSHAPE_I8: i64 = 1;
pub const JSHAPE_I16: i64 = 2;
pub const JSHAPE_I32: i64 = 3;
pub const JSHAPE_I64: i64 = 4;
pub const JSHAPE_U8: i64 = 5;
pub const JSHAPE_U16: i64 = 6;
pub const JSHAPE_U32: i64 = 7;
pub const JSHAPE_U64: i64 = 8;
pub const JSHAPE_F32: i64 = 9;
pub const JSHAPE_F64: i64 = 10;
pub const JSHAPE_STRING: i64 = 11;

/// The shape kind of a primitive type named `n`, as an unresolved name
/// spells it; `isize` and `usize` are read as the 64-bit kinds.
pub open spec fn prim_kind_by_name(n: Seq<char>) -> Option<i64> {
    if n == "bool"@ {
        Some(JSHAPE_BOOL)
    } else if n == "i8"@ {
        Some(JSHAPE_I8)
    } else if n == "i16"@ {
        Some(JSHAPE_I16)
    } else if n == "i32"@ {
        Some(JSHAPE_I32)
    } else if n == "i64"@ || n == "isize"@ {
        Some(JSHAPE_I64)
    } else if n == "u8"@ {
        Some(JSHAPE_U8)
    } else if n == "u16"@ {
        Some(JSHAPE_U16)
    } else if n == "u32"@ {
        Some(JSHAPE_U32)
    } else if n == "u64"@ || n == "usize"@ {
        Some(JSHAPE_U64)
    } else if n == "f32"@ {
        Some(JSHAPE_F32)
    } else if n == "f64"@ {
        Some(JSHAPE_F64)
    } else if n == "string"@ {
        Some(JSHAPE_STRING)
    } else {
        None
    }
}

/// The shape kind of a primitive type, resolved or spelled by name.
pub open spec fn prim_shape_kind_spec(ty: Type) -> Option<i64> {
    match ty {
        Type::Bool => Some(JSHAPE_BOOL),
        Type::I8 => Some(JSHAPE_I8),
        Type::I16 => Some(JSHAPE_I16),
        Type::I32 => Some(JSHAPE_I32),
        Type::I64 => Some(JSHAPE_I64),
        Type::U8 => Some(JSHAPE_U8),
        Type::U16 => Some(JSHAPE_U16),
        Type::U32 => Some(JSHAPE_U32),
        Type::U64 => Some(JSHAPE_U64),
        Type::F32 => Some(JSHAPE_F32),
        Type::F64 => Some(JSHAPE_F64),
        Type::String => Some(JSHAPE_STRING),
        Type::UnresolvedNamed(n) => prim_kind_by_name(n@),
        _ => None,
    }
}

/// The shape kind of a primitive type, resolved or spelled by name.
pub fn prim_shape_kind(ty: &Type) -> (r: Option<i64>)
    ensures
        r == prim_shape_kind_spec(*ty),
{
    match ty {
        Type::Bool => Some(JSHAPE_BOOL),
        Type::I8 => Some(JSHAPE_I8),
        Type::I16 => Some(JSHAPE_I16),
        Type::I32 => Some(JSHAPE_I32),
        Type::I64 => Some(JSHAPE_I64),
        Type::U8 => Some(JSHAPE_U8),
        Type::U16 => Some(JSHAPE_U16),
        Type::U32 => Some(JSHAPE_U32),
        Type::U64 => Some(JSHAPE_U64),
        Type::F32 => Some(JSHAPE_F32),
        Type::F64 => Some(JSHAPE_F64),
        Type::String => Some(JSHAPE_STRING),
        Type::UnresolvedNamed(n) => {
            let n = n.as_str();
            if str_eq(n, "bool") {
                Some(JSHAPE_BOOL)
            } else if str_eq(n, "i8") {
                Some(JSHAPE_I8)
            } else if str_eq(n, "i16") {
                Some(JSHAPE_I16)
            } else if str_eq(n, "i32") {
                Some(JSHAPE_I32)
            } else if str_eq(n, "i64") || str_eq(n, "isize") {
                Some(JSHAPE_I64)
            } else if str_eq(n, "u8") {
                Some(JSHAPE_U8)
            } else if str_eq(n, "u16") {
                Some(JSHAPE_U16)
            } else if str_eq(n, "u32") {
                Some(JSHAPE_U32)
            } else if str_eq(n, "u64") || str_eq(n, "usize") {
                Some(JSHAPE_U64)
            } else if str_eq(n, "f32") {
                Some(JSHAPE_F32)
            } else if str_eq(n, "f64") {
                Some(JSHAPE_F64)
            } else if str_eq(n, "string") {
                Some(JSHAPE_STRING)
            } else {
                None
            }
        },
        _ => None,
    }
}

/// The registered name of type id `id`, when it has one.
pub open spec fn registered_name(ctx: LowerCtx, id: u32) -> Option<Seq<char>> {
    if id < ctx.type_names@.len() {
        Some(ctx.type_names@[id as int]@)
    } else {
        None
    }
}

/// The name a type goes by: an unresolved name as written, a registered
/// type's declared name.
pub open spec fn type_name_spec(ctx: LowerCtx, ty: Type) -> Option<Seq<char>> {
    match ty {
        Type::UnresolvedNamed(n) => Some(n@),
        Type::UnresolvedGeneric { name, .. } => Some(name@),
        Type::Named(id) => registered_name(ctx, id),
        Type::Generic { base, .. } => registered_name(ctx, base),
        _ => None,
    }
}

/// The arguments of `ty` when it is the generic `wanted`, in either
/// spelling the checker leaves behind.
pub open spec fn generic_args_of(ctx: LowerCtx, ty: Type, wanted: Seq<char>) -> Option<ArgList> {
    match ty {
        Type::UnresolvedGeneric { name, args } => if name@ == wanted {
            Some(args)
        } else {
            None
        },
        Type::Generic { base, args } => if registered_name(ctx, base) == Some(wanted) {
            Some(args)
        } else {
            None
        },
        _ => None,
    }
}

/// The `index`-th generic argument of `Vec<...>` or `Map<...>`, when it is
/// a type.
pub open spec fn collection_arg_spec(ctx: LowerCtx, ty: Type, wanted: Seq<char>, index: int) -> Option<Type> {
    match generic_args_of(ctx, ty, wanted) {
        Some(args) => if 0 <= index < args_seq(args).len() {
            match args_seq(args)[index] {
                GenericArg::Type(t) => Some(*t),
                GenericArg::Const(_) => None,
            }
        } else {
            None
        },
        None => None,
    }
}

/// The struct layout a type names, never the ones of `Vec`, `Map` or
/// `string`: its position among the registered layouts, the first so
/// named.
pub open spec fn struct_layout_of_spec(ctx: LowerCtx, ty: Type) -> Option<int> {
    match ty {
        Type::UnresolvedNamed(_) | Type::UnresolvedGeneric { .. } | Type::Named(_) | Type::Generic {
            ..
        } => match type_name_spec(ctx, ty) {
            Some(name) => if name == "Vec"@ || name == "Map"@ || name == "string"@ {
                None
            } else {
                first_named(ctx.struct_layouts@, struct_layout_name(), name)
            },
            None => None,
        },
        _ => None,
    }
}

/// A `Map<...>` in either spelling.
pub open spec fn is_map_type_spec(ctx: LowerCtx, ty: Type) -> bool {
    generic_args_of(ctx, ty, "Map"@) is Some
}

/// `T?` around a `Vec` or a `Map`.
pub open spec fn is_optional_collection_spec(ctx: LowerCtx, ty: Type) -> bool {
    match ty {
        Type::Result { ok, err } => *err == Type::NoneType && (collection_arg_spec(ctx, *ok, "Vec"@, 0)
            is Some || is_map_type_spec(ctx, *ok)),
        _ => false,
    }
}

impl MirLowerer {
    /// The registered name of type id `id`.
    fn registered_type_name(&self, id: u32) -> (r: Option<&String>)
        ensures
            r is Some <==> registered_name(self.ctx, id) is Some,
            r is Some ==> Some(r->0@) == registered_name(self.ctx, id),
    {
        let i = id as usize;
        if i < self.ctx.type_names.len() {
            Some(&self.ctx.type_names[i])
        } else {
            None
        }
    }

    /// The arguments of `ty` when it is the generic `wanted`.
    pub(crate) fn generic_args<'a>(&self, ty: &'a Type, wanted: &str) -> (r: Option<&'a ArgList>)
        ensures
            r is Some <==> generic_args_of(self.ctx, *ty, wanted@) is Some,
            r is Some ==> Some(*r->0) == generic_args_of(self.ctx, *ty, wanted@),
    {
        match ty {
            Type::UnresolvedGeneric { name, args } => {
                if str_eq(name.as_str(), wanted) {
                    Some(args)
                } else {
                    None
                }
            },
            Type::Generic { base, args } => match self.registered_type_name(*base) {
                Some(n) => {
                    if str_eq(n.as_str(), wanted) {
                        Some(args)
                    } else {
                        None
                    }
                },
                None => None,
            },
            _ => None,
        }
    }

    /// The `index`-th generic argument of `Vec<...>` / `Map<...>`,
    /// whichever spelling the checker left behind.
    pub fn collection_arg(&self, ty: &Type, wanted: &str, index: usize) -> (r: Option<Type>)
        ensures
            r == collection_arg_spec(self.ctx, *ty, wanted@, index as int),
    {
        let args = match self.generic_args(ty, wanted) {
            Some(a) => a,
            None => {
                return None;
            },
        };
        match args.get(index) {
            Some(GenericArg::Type(t)) => Some((**t).duplicate()),
            _ => None,
        }
    }

    /// The name a type goes by: as written when unresolved, declared when
    /// registered.
    pub fn type_name_of(&self, ty: &Type) -> (r: Option<String>)
        ensures
            r is Some <==> type_name_spec(self.ctx, *ty) is Some,
            r is Some ==> Some(r->0@) == type_name_spec(self.ctx, *ty),
    {
        match ty {
            Type::UnresolvedNamed(n) => Some(n.clone()),
            Type::UnresolvedGeneric { name, .. } => Some(name.clone()),
            Type::Named(id) => match self.registered_type_name(*id) {
                Some(n) => Some(n.clone()),
                None => None,
            },
            Type::Generic { base, .. } => match self.registered_type_name(*base) {
                Some(n) => Some(n.clone()),
                None => None,
            },
            _ => None,
        }
    }

    /// The struct layout a type names, as its position among the registered
    /// layouts. Never the layouts of `Vec`, `Map` or `string`: matching those
    /// would read a list as if it were a two-field struct.
    pub fn struct_layout_of(&self, ty: &Type) -> (r: Option<usize>)
        ensures
            r is Some <==> struct_layout_of_spec(self.ctx, *ty) is Some,
            r is Some ==> struct_layout_of_spec(self.ctx, *ty) == Some(r->0 as int) && r->0
                < self.ctx.struct_layouts@.len(),
    {
        let name = match ty {
            Type::UnresolvedNamed(_) | Type::UnresolvedGeneric { .. } | Type::Named(_) | Type::Generic {
                ..
            } => match self.type_name_of(ty) {
                Some(n) => n,
                None => {
                    return None;
                },
            },
            _ => {
                return None;
            },
        };
        if str_eq(name.as_str(), "Vec") || str_eq(name.as_str(), "Map") || str_eq(name.as_str(), "string") {
            return None;
        }
        self.ctx.find_struct(name.as_str())
    }

    /// Whether `ty` is a `Map<...>`.
    pub fn is_map_type(&self, ty: &Type) -> (r: bool)
        ensures
            r == is_map_type_spec(self.ctx, *ty),
    {
        self.generic_args(ty, "Map").is_some()
    }

    /// Whether `ty` is a `T?` holding something the runtime has to walk: a
    /// `Vec` or a `Map`.
    pub fn is_optional_collection(&self, ty: &Type) -> (r: bool)
        ensures
            r == is_optional_collection_spec(self.ctx, *ty),
    {
        match ty {
            Type::Result { ok, err } => match **err {
                Type::NoneType => self.collection_arg(ok, "Vec", 0).is_some() || self.is_map_type(ok),
                _ => false,
            },
            _ => false,
        }
    }
}

/// The position of the first `c` in `s`.
pub open spec fn first_index_of(s: Seq<char>, c: char) -> Option<int>
    decreases s.len(),
{
    if s.len() == 0 {
        None
    } else if s[0] == c {
        Some(0)
    } else {
        match first_index_of(s.drop_first(), c) {
            Some(i) => Some(i + 1),
            None => None,
        }
    }
}

/// Where `first_index_of` answers, the character is there, and none
/// before it.
pub proof fn lemma_first_index_of(s: Seq<char>, c: char)
    ensures
        first_index_of(s, c) matches Some(i) ==> 0 <= i < s.len() && s[i] == c && forall|j: int|
            0 <= j < i ==> s[j] != c,
        first_index_of(s, c) is None ==> forall|j: int| 0 <= j < s.len() ==> s[j] != c,
    decreases s.len(),
{
    if s.len() > 0 {
        lemma_first_index_of(s.drop_first(), c);
        if s[0] != c {
            assert forall|j: int| 1 <= j < s.len() implies s[j] == s.drop_first()[j - 1] by {}
        }
    }
}

/// The primitive type a written name stands for; `isize` and `usize` are
/// read as the 64-bit types.
pub open spec fn prim_type_by_name(n: Seq<char>) -> Option<Type> {
    if n == "bool"@ {
        Some(Type::Bool)
    } else if n == "i8"@ {
        Some(Type::I8)
    } else if n == "i16"@ {
        Some(Type::I16)
    } else if n == "i32"@ {
        Some(Type::I32)
    } else if n == "i64"@ || n == "isize"@ {
        Some(Type::I64)
    } else if n == "u8"@ {
        Some(Type::U8)
    } else if n == "u16"@ {
        Some(Type::U16)
    } else if n == "u32"@ {
        Some(Type::U32)
    } else if n == "u64"@ || n == "usize"@ {
        Some(Type::U64)
    } else if n == "f32"@ {
        Some(Type::F32)
    } else if n == "f64"@ {
        Some(Type::F64)
    } else if n == "string"@ {
        Some(Type::String)
    } else {
        None
    }
}

/// Trimming never lengthens.
pub proof fn lemma_trim_len(s: Seq<char>)
    ensures
        crate::text::trim_start_spec(s).len() <= s.len(),
        trim_spec(s).len() <= s.len(),
    decreases s.len(),
{
    lemma_trim_start_len(s);
    lemma_trim_end_len(crate::text::trim_start_spec(s));
}

proof fn lemma_trim_start_len(s: Seq<char>)
    ensures
        crate::text::trim_start_spec(s).len() <= s.len(),
    decreases s.len(),
{
    if s.len() > 0 && crate::text::is_whitespace_spec(s[0]) {
        lemma_trim_start_len(s.drop_first());
    }
}

proof fn lemma_trim_end_len(s: Seq<char>)
    ensures
        crate::text::trim_end_spec(s).len() <= s.len(),
    decreases s.len(),
{
    if s.len() > 0 && crate::text::is_whitespace_spec(s.last()) {
        lemma_trim_end_len(s.drop_last());
    }
}

/// The pieces closed before position `i` are no longer than `i`.
proof fn lemma_split_prefix_lens(s: Seq<char>, i: int)
    requires
        0 <= i <= s.len(),
    ensures
        forall|k: int| 0 <= k < split_prefix(s, i).0.len() ==> (#[trigger] split_prefix(s, i).0[k]).len()
            <= i,
    decreases i,
{
    if i > 0 {
        lemma_split_prefix_lens(s, i - 1);
        lemma_split_prefix_start(s, i - 1);
        let (out, start) = split_prefix(s, i - 1);
        if is_top_comma(s, i - 1) {
            lemma_trim_len(s.subrange(start, i - 1));
        }
    }
}

/// Each piece of a split is no longer than what was split.
pub proof fn lemma_split_type_args_lens(s: Seq<char>)
    ensures
        forall|k: int| 0 <= k < split_type_args_spec(s).len() ==> (#[trigger] split_type_args_spec(s)[k]).len()
            <= s.len(),
{
    lemma_split_prefix_lens(s, s.len() as int);
    lemma_split_prefix_start(s, s.len() as int);
    let (out, start) = split_prefix(s, s.len() as int);
    lemma_trim_len(s.subrange(start, s.len() as int));
}

/// The generic argument `a` is the type the written piece `p` reads back
/// as.
pub open spec fn arg_parses(p: Seq<char>, a: GenericArg) -> bool
    decreases p.len(), 1int,
{
    match a {
        GenericArg::Type(b) => parses_to(p, *b),
        GenericArg::Const(_) => false,
    }
}

/// `ty` is what the written type `s` reads back as: `T?` is the result
/// with a `NoneType` error side, `Name<A, B>` an unresolved generic over
/// the arguments read back in turn, a primitive name its type, and any
/// other name an unresolved named type. Surrounding whitespace is ignored.
pub open spec fn parses_to(s: Seq<char>, ty: Type) -> bool
    decreases s.len(), 0int,
{
    let t = trim_spec(s);
    proof {
        lemma_trim_len(s);
    }
    if t.len() > 0 && t.last() == '?' {
        &&& ty matches Type::Result { ok, err }
        &&& *err == Type::NoneType
        &&& parses_to(t.drop_last(), *ok)
    } else if t.len() > 0 && t.last() == '>' && first_index_of(t, '<') is Some {
        let open = first_index_of(t, '<')->0;
        let inner = t.subrange(open + 1, t.len() - 1);
        let pieces = split_type_args_spec(inner);
        proof {
            lemma_first_index_of(t, '<');
            lemma_split_type_args_lens(inner);
            assert forall|i: int| 0 <= i < pieces.len() implies (#[trigger] pieces[i]).len() < s.len() by {
                assert(pieces[i].len() <= inner.len());
            }
        }
        &&& ty matches Type::UnresolvedGeneric { name, args }
        &&& name@ == trim_spec(t.subrange(0, open))
        &&& args_seq(args).len() == pieces.len()
        &&& forall|i: int| 0 <= i < pieces.len() ==> arg_parses(#[trigger] pieces[i], args_seq(args)[i])
    } else {
        match prim_type_by_name(t) {
            Some(p) => ty == p,
            None => ty matches Type::UnresolvedNamed(n) && n@ == t,
        }
    }
}

/// The position of the first `c` in `s`.
fn find_char(s: &str, c: char) -> (r: Option<usize>)
    ensures
        r is Some <==> first_index_of(s@, c) is Some,
        r is Some ==> first_index_of(s@, c) == Some(r->0 as int),
{
    proof {
        lemma_first_index_of(s@, c);
    }
    let n = s.unicode_len();
    let mut i: usize = 0;
    while i < n
        invariant
            n == s@.len(),
            i <= n,
            forall|j: int| 0 <= j < i ==> s@[j] != c,
            first_index_of(s@, c) matches Some(k) ==> i <= k,
        decreases n - i,
    {
        proof {
            lemma_first_index_of(s@, c);
        }
        if s.get_char(i) == c {
            proof {
                lemma_first_index_of(s@, c);
            }
            return Some(i);
        }
        i = i + 1;
    }
    proof {
        lemma_first_index_of(s@, c);
    }
    None
}

/// The primitive type a written name stands for.
pub(crate) fn prim_type_named(n: &str) -> (r: Option<Type>)
    ensures
        r == prim_type_by_name(n@),
{
    if str_eq(n, "bool") {
        Some(Type::Bool)
    } else if str_eq(n, "i8") {
        Some(Type::I8)
    } else if str_eq(n, "i16") {
        Some(Type::I16)
    } else if str_eq(n, "i32") {
        Some(Type::I32)
    } else if str_eq(n, "i64") || str_eq(n, "isize") {
        Some(Type::I64)
    } else if str_eq(n, "u8") {
        Some(Type::U8)
    } else if str_eq(n, "u16") {
        Some(Type::U16)
    } else if str_eq(n, "u32") {
        Some(Type::U32)
    } else if str_eq(n, "u64") || str_eq(n, "usize") {
        Some(Type::U64)
    } else if str_eq(n, "f32") {
        Some(Type::F32)
    } else if str_eq(n, "f64") {
        Some(Type::F64)
    } else if str_eq(n, "string") {
        Some(Type::String)
    } else {
        None
    }
}

/// A written type argument read back into a checker type: primitives,
/// `Name<A, B>`, `T?`, and any other name as an unresolved named type;
/// see `parses_to`.
pub fn parse_type_str(s: &str) -> (r: Type)
    requires
        s@.len() <= i32::MAX,
    ensures
        parses_to(s@, r),
    decreases s@.len(),
{
    let t = trim(s);
    proof {
        lemma_trim_len(s@);
    }
    let ts = t.as_str();
    let n = ts.unicode_len();
    if n > 0 && ts.get_char(n - 1) == '?' {
        let inner = ts.substring_char(0, n - 1);
        proof {
            assert(inner@ =~= ts@.drop_last());
        }
        let ok = parse_type_str(inner);
        return Type::Result { ok: Box::new(ok), err: Box::new(Type::NoneType) };
    }
    if n > 0 && ts.get_char(n - 1) == '>' {
        match find_char(ts, '<') {
            Some(open) => {
                proof {
                    lemma_first_index_of(ts@, '<');
                }
                let name = trim(ts.substring_char(0, open));
                let inner = ts.substring_char(open + 1, n - 1);
                proof {
                    lemma_depth_fits(inner@);
                }
                let pieces = split_type_args(inner);
                let ghost pv = split_type_args_spec(inner@);
                proof {
                    lemma_split_type_args_lens(inner@);
                    assert(pieces@.len() == pv.len()) by {
                        assert(string_views(pieces@).len() == pieces@.len());
                    }
                }
                let mut args_vec: Vec<GenericArg> = Vec::new();
                let mut k: usize = 0;
                while k < pieces.len()
                    invariant
                        k <= pieces@.len(),
                        string_views(pieces@) == pv,
                        pieces@.len() == pv.len(),
                        forall|q: int| 0 <= q < pv.len() ==> (#[trigger] pv[q]).len() <= inner@.len(),
                        inner@.len() < s@.len(),
                        s@.len() <= i32::MAX,
                        args_vec@.len() == k,
                        forall|q: int| 0 <= q < k ==> arg_parses(#[trigger] pv[q], args_vec@[q]),
                    decreases pieces@.len() - k,
                {
                    proof {
                        assert(pieces@[k as int]@ == pv[k as int]);
                    }
                    let arg = parse_type_str(pieces[k].as_str());
                    let ghost ag = arg;
                    proof {
                        assert(parses_to(pv[k as int], ag));
                    }
                    let ghost before = args_vec@;
                    args_vec.push(GenericArg::Type(Box::new(arg)));
                    proof {
                        assert forall|q: int| 0 <= q < k + 1 implies arg_parses(#[trigger] pv[q], args_vec@[q]) by {
                            if q < k {
                                assert(args_vec@[q] == before[q]);
                            } else {
                                assert(args_vec@[q] == GenericArg::Type(Box::new(ag)));
                            }
                        }
                    }
                    k = k + 1;
                }
                let ghost av = args_vec@;
                let args = ArgList::from_vec(args_vec);
                proof {
                    assert(args_seq(args) == av);
                }
                return Type::UnresolvedGeneric { name, args };
            },
            None => {},
        }
    }
    match prim_type_named(ts) {
        Some(p) => p,
        None => Type::UnresolvedNamed(t),
    }
}


/// How a type is named in a message: an unresolved name as written, and
/// anything else as its debug text.
pub open spec fn type_label_spec(ty: Type) -> Seq<char> {
    match ty {
        Type::UnresolvedNamed(n) => n@,
        Type::UnresolvedGeneric { name, .. } => name@,
        _ => type_debug(ty),
    }
}

/// How a type is named in a message.
pub fn type_label(ty: &Type) -> (r: String)
    ensures
        r@ == type_label_spec(*ty),
{
    match ty {
        Type::UnresolvedNamed(n) => n.clone(),
        Type::UnresolvedGeneric { name, .. } => name.clone(),
        _ => checker_type_debug(ty),
    }
}

/// The message when `json.decode` is given nothing to build.
pub open spec fn no_target_message() -> Seq<char> {
    "json.decode needs to know what to build \u{2014} write it as `json.decode<Type>(input)` or annotate the binding"@
}

/// What `T` is in `json.decode<T>(input)`, from what the checker recorded
/// for the call and the written type arguments: the recorded `T or E`'s
/// `T` when inference settled it, else the first written argument read
/// back, else an error.
pub open spec fn json_decode_target_ok(recorded: Option<Type>, type_args: Option<Seq<Seq<char>>>, r: Result<Type, LoweringError>) -> bool {
    match recorded {
        Some(Type::Result { ok, .. }) if !(*ok is Var) => r == Ok::<Type, LoweringError>(*ok),
        _ => match type_args {
            Some(a) if a.len() > 0 => r matches Ok(t) && parses_to(a[0], t),
            _ => r matches Err(LoweringError::InvalidConstruct(msg)) && msg@ == no_target_message(),
        },
    }
}

impl MirLowerer {
    /// What `T` is in `json.decode<T>(input)`. The checker's type for the
    /// call, `recorded`, is the better source: it has already resolved `T`
    /// against the binding the call flows into. The written type argument
    /// is the fallback for when inference left a variable behind.
    pub fn json_decode_target(&self, recorded: Option<&Type>, type_args: &Option<Vec<String>>) -> (r: Result<
        Type,
        LoweringError,
    >)
        requires
            type_args matches Some(a) ==> forall|i: int| 0 <= i < a@.len() ==> (#[trigger] a@[i])@.len() <= i32::MAX,
        ensures
            json_decode_target_ok(
                match recorded {
                    Some(t) => Some(*t),
                    None => None,
                },
                match type_args {
                    Some(a) => Some(string_views(a@)),
                    None => None,
                },
                r,
            ),
    {
        match recorded {
            Some(Type::Result { ok, .. }) => match **ok {
                Type::Var(_) => {},
                _ => {
                    return Ok((**ok).duplicate());
                },
            },
            _ => {},
        }
        match type_args {
            Some(a) => {
                if a.len() > 0 {
                    proof {
                        assert(a@[0]@.len() <= i32::MAX);
                    }
                    return Ok(parse_type_str(a[0].as_str()));
                }
            },
            None => {},
        }
        Err(
            LoweringError::InvalidConstruct(
                String::from_str(
                    "json.decode needs to know what to build \u{2014} write it as `json.decode<Type>(input)` or annotate the binding",
                ),
            ),
        )
    }
}

} // verus!
