//! The MIR the lowering pass emits: types with their layout, operands,
//! right-hand sides, statements and block terminators.
//!
//! Layout conventions (sizes in bytes): scalars take their natural width,
//! a `string` is a 16-byte value, pointers, links and handles a word. An
//! option is an 8-byte tag followed by its payload; a result is the tag,
//! the two origin words, and then the payload at `RESULT_PAYLOAD_OFFSET`.

use vstd::prelude::*;

verus! {

/// Byte offset of a result's tag word.
pub const RESULT_TAG_OFFSET: u32 = 0;
/// Byte offset of the word naming the file a result's error came from.
pub const RESULT_ORIGIN_FILE_OFFSET: u32 = 8;
/// Byte offset of the word naming the line a result's error came from.
pub const RESULT_ORIGIN_LINE_OFFSET: u32 = 16;
/// Byte offset of a result's payload.
pub const RESULT_PAYLOAD_OFFSET: u32 = 24;

/// A local slot of the function being built.
#[derive(Clone, Copy, Debug, PartialEq, Eq, Structural)]
pub struct LocalId(pub usize);

/// A basic block of the function being built.
#[derive(Clone, Copy, Debug, PartialEq, Eq, Structural)]
pub struct BlockId(pub usize);

/// A struct layout registered with the lowering context, with the size and
/// alignment it was registered with.
#[derive(Clone, Copy, Debug, PartialEq, Eq, Structural)]
pub struct StructLayoutId {
    pub id: u32,
    pub size: u32,
    pub align: u32,
}

/// An enum layout registered with the lowering context.
#[derive(Clone, Copy, Debug, PartialEq, Eq, Structural)]
pub struct EnumLayoutId {
    pub id: u32,
    pub size: u32,
    pub align: u32,
}

/// A MIR value type.
#[derive(Debug)]
pub enum MirType {
    Void,
    Bool,
    Char,
    I8,
    I16,
    I32,
    I64,
    I128,
    U8,
    U16,
    U32,
    U64,
    U128,
    F32,
    F64,
    String,
    Ptr,
    Link(Box<MirType>),
    Struct(StructLayoutId),
    Enum(EnumLayoutId),
    Option(Box<MirType>),
    Result { ok: Box<MirType>, err: Box<MirType> },
    Tuple(TypeList),
    Array { elem: Box<MirType>, len: u32 },
    TraitObject { trait_name: String },
}

/// The element types of a tuple, in order.
#[derive(Debug)]
pub enum TypeList {
    Nil,
    Cons(Box<MirType>, Box<TypeList>),
}

/// A constant operand. Floating-point constants are carried as the bit
/// pattern of the `f64` they stand for.
#[derive(Debug)]
pub enum MirConst {
    Int(i64),
    /// A 128-bit constant, as the bit pattern of an `i128`.
    Int128(i128),
    Bool(bool),
    FloatBits(u64),
    String(String),
}

/// An operand: a local or a constant.
#[derive(Debug)]
pub enum MirOperand {
    Local(LocalId),
    Constant(MirConst),
}

/// Binary operators of `MirRValue::BinaryOp`.
#[derive(Clone, Copy, Debug, PartialEq, Eq, Structural)]
pub enum BinOp {
    Add,
    Sub,
    Mul,
    Div,
    Mod,
    Eq,
    Ne,
    Lt,
    Le,
    Gt,
    Ge,
    And,
    Or,
    Shl,
    Shr,
    RotateLeft,
    RotateRight,
    WrappingAdd,
    WrappingSub,
    WrappingMul,
    WrappingShl,
    WrappingShr,
    SaturatingAdd,
    SaturatingSub,
    SaturatingMul,
    /// Whether the addition overflows.
    OverflowAdd,
    /// Whether the subtraction overflows.
    OverflowSub,
    /// Whether the multiplication overflows.
    OverflowMul,
    /// Whether the division overflows or divides by zero.
    OverflowDiv,
}

/// Unary operators of `MirRValue::UnaryOp`.
#[derive(Clone, Copy, Debug, PartialEq, Eq, Structural)]
pub enum UnaryOp {
    /// Logical negation of a `bool`.
    Not,
    BitNot,
    CountOnes,
    LeadingZeros,
    TrailingZeros,
    ReverseBits,
    SwapBytes,
}

/// How a field read takes its bytes: a whole word, or an explicit width.
#[derive(Clone, Copy, Debug, PartialEq, Eq, Structural)]
pub enum FieldAccess {
    Word,
    Sized(u32),
}

/// The right-hand side of an assignment.
#[derive(Debug)]
#[allow(inconsistent_fields)]
pub enum MirRValue {
    Use(MirOperand),
    BinaryOp { op: BinOp, left: MirOperand, right: MirOperand },
    UnaryOp { op: UnaryOp, operand: MirOperand },
    Cast { value: MirOperand, target_ty: MirType },
    Field { base: MirOperand, field_index: u32, byte_offset: Option<u32>, access: FieldAccess },
    ArrayIndex { base: MirOperand, index: MirOperand, elem_size: u32 },
    EnumTag { value: MirOperand },
    Deref(MirOperand),
    /// The address of a local.
    Ref(LocalId),
}

/// A MIR statement.
#[derive(Debug)]
#[allow(inconsistent_fields)]
pub enum MirStmt {
    Assign { dst: LocalId, rvalue: MirRValue },
    Call { dst: Option<LocalId>, func: String, args: Vec<MirOperand> },
    Store { addr: LocalId, offset: u32, value: MirOperand, store_size: Option<u32> },
    TraitBox {
        dst: LocalId,
        value: MirOperand,
        concrete_type: String,
        trait_name: String,
        concrete_size: u32,
        vtable_name: String,
    },
    /// A call through the vtable of the trait object in `trait_object`, of
    /// the method whose entry sits at `vtable_offset`.
    TraitCall {
        dst: Option<LocalId>,
        trait_object: LocalId,
        method_name: String,
        vtable_offset: u32,
        args: Vec<MirOperand>,
    },
}

/// How a block ends.
#[derive(Debug)]
pub enum MirTerminator {
    Goto { target: BlockId },
    Branch { cond: MirOperand, then_block: BlockId, else_block: BlockId },
    Switch { value: MirOperand, cases: Vec<(u64, BlockId)>, default: BlockId },
    Return,
    /// Control never reaches the end of this block.
    Unreachable,
}

/// The width in bytes of a value of type `t`.
pub open spec fn size_of(t: MirType) -> nat
    decreases t,
{
    match t {
        MirType::Void => 0,
        MirType::Bool | MirType::I8 | MirType::U8 => 1,
        MirType::I16 | MirType::U16 => 2,
        MirType::Char | MirType::I32 | MirType::U32 | MirType::F32 => 4,
        MirType::I64 | MirType::U64 | MirType::F64 | MirType::Ptr | MirType::Link(_) => 8,
        MirType::I128 | MirType::U128 | MirType::String | MirType::TraitObject { .. } => 16,
        MirType::Struct(id) => id.size as nat,
        MirType::Enum(id) => id.size as nat,
        MirType::Option(inner) => 8 + size_of(*inner),
        MirType::Result { ok, err } => {
            let a = size_of(*ok);
            let b = size_of(*err);
            RESULT_PAYLOAD_OFFSET as nat + if a >= b { a } else { b }
        },
        MirType::Tuple(fields) => list_size(fields),
        MirType::Array { elem, len } => size_of(*elem) * len as nat,
    }
}

/// The summed widths of a list of types, laid end to end: the width a
/// tuple is given here, with no padding between fields. Derived `Debug`
/// (`debug_render_tuple`) reads a tuple's fields at these summed offsets.
/// `resolve_tuple_field` instead rounds each field's offset up to its
/// alignment (see `tuple_field_offset`), so the two agree exactly when no
/// field needs padding, e.g. when every field has the same width; for
/// `(i32, i64)` the width here is 12 while `resolve_tuple_field` places the
/// second field at byte 8.
pub open spec fn list_size(l: TypeList) -> nat
    decreases l,
{
    match l {
        TypeList::Nil => 0,
        TypeList::Cons(h, t) => size_of(*h) + list_size(*t),
    }
}

/// Whether every part of `t`, and `t` itself, has a width that fits a `u32`.
pub open spec fn size_fits(t: MirType) -> bool
    decreases t,
{
    size_of(t) <= u32::MAX && match t {
        MirType::Link(inner) => size_fits(*inner),
        MirType::Option(inner) => size_fits(*inner),
        MirType::Result { ok, err } => size_fits(*ok) && size_fits(*err),
        MirType::Tuple(fields) => list_sizes_fit(fields),
        MirType::Array { elem, .. } => size_fits(*elem),
        _ => true,
    }
}

/// `size_fits` for every type of a list.
pub open spec fn list_sizes_fit(l: TypeList) -> bool
    decreases l,
{
    match l {
        TypeList::Nil => true,
        TypeList::Cons(h, t) => size_fits(*h) && list_sizes_fit(*t),
    }
}

/// The alignment in bytes of a value of type `t`.
pub open spec fn align_of(t: MirType) -> nat
    decreases t,
{
    match t {
        MirType::Void | MirType::Bool | MirType::I8 | MirType::U8 => 1,
        MirType::I16 | MirType::U16 => 2,
        MirType::Char | MirType::I32 | MirType::U32 | MirType::F32 => 4,
        MirType::I128 | MirType::U128 => 16,
        MirType::Struct(id) => id.align as nat,
        MirType::Enum(id) => id.align as nat,
        MirType::Tuple(fields) => list_align(fields),
        MirType::Array { elem, .. } => align_of(*elem),
        _ => 8,
    }
}

/// The largest alignment of a list of types, and at least 1.
pub open spec fn list_align(l: TypeList) -> nat
    decreases l,
{
    match l {
        TypeList::Nil => 1,
        TypeList::Cons(h, t) => {
            let a = align_of(*h);
            let b = list_align(*t);
            if a >= b { a } else { b }
        },
    }
}

/// The types of a list, as a sequence.
pub open spec fn list_seq(l: TypeList) -> Seq<MirType>
    decreases l,
{
    match l {
        TypeList::Nil => Seq::empty(),
        TypeList::Cons(h, t) => seq![*h] + list_seq(*t),
    }
}

/// The unsigned integer types.
pub open spec fn is_unsigned_ty(t: MirType) -> bool {
    t is U8 || t is U16 || t is U32 || t is U64 || t is U128
}

/// Types whose values are integers at the machine level: the integer types,
/// `bool` and `char`.
pub open spec fn is_int_like_ty(t: MirType) -> bool {
    t is I8 || t is I16 || t is I32 || t is I64 || t is I128 || is_unsigned_ty(t)
        || t is Bool || t is Char
}

impl TypeList {
    /// A copy of this list, equal to it.
    pub fn duplicate(&self) -> (r: TypeList)
        ensures
            r == *self,
        decreases self,
    {
        match self {
            TypeList::Nil => TypeList::Nil,
            TypeList::Cons(h, t) => TypeList::Cons(
                Box::new((**h).duplicate()),
                Box::new((**t).duplicate()),
            ),
        }
    }

    /// The list holding the types of `v`, in order.
    pub fn from_vec(v: Vec<MirType>) -> (r: TypeList)
        ensures
            list_seq(r) == v@,
    {
        let mut v = v;
        let mut out = TypeList::Nil;
        let ghost orig = v@;
        while v.len() > 0
            invariant
                orig == v@ + list_seq(out),
            decreases v.len(),
        {
            let t = v.pop().unwrap();
            out = TypeList::Cons(Box::new(t), Box::new(out));
            assert(orig =~= v@ + list_seq(out));
        }
        assert(orig =~= list_seq(out));
        out
    }

    /// The number of types in the list.
    pub fn len(&self) -> (r: usize)
        requires
            list_seq(*self).len() <= usize::MAX,
        ensures
            r == list_seq(*self).len(),
        decreases self,
    {
        match self {
            TypeList::Nil => 0,
            TypeList::Cons(_, t) => 1 + (**t).len(),
        }
    }
}

impl MirType {
    /// A copy of this type, equal to it.
    pub fn duplicate(&self) -> (r: MirType)
        ensures
            r == *self,
        decreases self,
    {
        match self {
            MirType::Void => MirType::Void,
            MirType::Bool => MirType::Bool,
            MirType::Char => MirType::Char,
            MirType::I8 => MirType::I8,
            MirType::I16 => MirType::I16,
            MirType::I32 => MirType::I32,
            MirType::I64 => MirType::I64,
            MirType::I128 => MirType::I128,
            MirType::U8 => MirType::U8,
            MirType::U16 => MirType::U16,
            MirType::U32 => MirType::U32,
            MirType::U64 => MirType::U64,
            MirType::U128 => MirType::U128,
            MirType::F32 => MirType::F32,
            MirType::F64 => MirType::F64,
            MirType::String => MirType::String,
            MirType::Ptr => MirType::Ptr,
            MirType::Link(inner) => MirType::Link(Box::new((**inner).duplicate())),
            MirType::Struct(id) => MirType::Struct(*id),
            MirType::Enum(id) => MirType::Enum(*id),
            MirType::Option(inner) => MirType::Option(Box::new((**inner).duplicate())),
            MirType::Result { ok, err } => MirType::Result {
                ok: Box::new((**ok).duplicate()),
                err: Box::new((**err).duplicate()),
            },
            MirType::Tuple(fields) => MirType::Tuple(fields.duplicate()),
            MirType::Array { elem, len } => MirType::Array {
                elem: Box::new((**elem).duplicate()),
                len: *len,
            },
            MirType::TraitObject { trait_name } => MirType::TraitObject {
                trait_name: trait_name.clone(),
            },
        }
    }

    /// Unsigned integer types.
    pub fn is_unsigned(&self) -> (r: bool)
        ensures
            r == is_unsigned_ty(*self),
    {
        match self {
            MirType::U8 | MirType::U16 | MirType::U32 | MirType::U64 | MirType::U128 => true,
            _ => false,
        }
    }

    /// Integer types, `bool` and `char`.
    pub fn is_int_like(&self) -> (r: bool)
        ensures
            r == is_int_like_ty(*self),
    {
        match self {
            MirType::I8 | MirType::I16 | MirType::I32 | MirType::I64 | MirType::I128 => true,
            MirType::U8 | MirType::U16 | MirType::U32 | MirType::U64 | MirType::U128 => true,
            MirType::Bool | MirType::Char => true,
            _ => false,
        }
    }

    /// The width in bytes of a value of this type.
    pub fn size(&self) -> (r: u32)
        requires
            size_fits(*self),
        ensures
            r == size_of(*self),
        decreases self,
    {
        match self {
            MirType::Void => 0,
            MirType::Bool | MirType::I8 | MirType::U8 => 1,
            MirType::I16 | MirType::U16 => 2,
            MirType::Char | MirType::I32 | MirType::U32 | MirType::F32 => 4,
            MirType::I64 | MirType::U64 | MirType::F64 | MirType::Ptr | MirType::Link(_) => 8,
            MirType::I128 | MirType::U128 | MirType::String | MirType::TraitObject { .. } => 16,
            MirType::Struct(id) => id.size,
            MirType::Enum(id) => id.size,
            MirType::Option(inner) => 8 + (**inner).size(),
            MirType::Result { ok, err } => {
                let a = (**ok).size();
                let b = (**err).size();
                RESULT_PAYLOAD_OFFSET + if a >= b { a } else { b }
            },
            MirType::Tuple(fields) => fields.size(),
            MirType::Array { elem, len } => {
                let e = (**elem).size();
                proof {
                    assert(size_of(*self) == size_of(**elem) * (*len as nat));
                }
                e * *len
            },
        }
    }

    /// The alignment in bytes of a value of this type.
    pub fn align(&self) -> (r: u32)
        requires
            align_of(*self) <= u32::MAX,
        ensures
            r == align_of(*self),
        decreases self,
    {
        match self {
            MirType::Void | MirType::Bool | MirType::I8 | MirType::U8 => 1,
            MirType::I16 | MirType::U16 => 2,
            MirType::Char | MirType::I32 | MirType::U32 | MirType::F32 => 4,
            MirType::I128 | MirType::U128 => 16,
            MirType::Struct(id) => id.align,
            MirType::Enum(id) => id.align,
            MirType::Tuple(fields) => fields.align(),
            MirType::Array { elem, .. } => (**elem).align(),
            _ => 8,
        }
    }
}

impl TypeList {
    /// The summed widths of the list.
    pub fn size(&self) -> (r: u32)
        requires
            list_sizes_fit(*self),
            list_size(*self) <= u32::MAX,
        ensures
            r == list_size(*self),
        decreases self,
    {
        match self {
            TypeList::Nil => 0,
            TypeList::Cons(h, t) => (**h).size() + (**t).size(),
        }
    }

    /// The largest alignment of the list, and at least 1.
    pub fn align(&self) -> (r: u32)
        requires
            list_align(*self) <= u32::MAX,
        ensures
            r == list_align(*self),
        decreases self,
    {
        match self {
            TypeList::Nil => 1,
            TypeList::Cons(h, t) => {
                let a = (**h).align();
                let b = (**t).align();
                if a >= b { a } else { b }
            },
        }
    }
}

impl MirOperand {
    /// A copy of this operand, equal to it.
    pub fn duplicate(&self) -> (r: MirOperand)
        ensures
            r == *self,
    {
        match self {
            MirOperand::Local(id) => MirOperand::Local(*id),
            MirOperand::Constant(c) => MirOperand::Constant(c.duplicate()),
        }
    }
}

impl MirConst {
    /// A copy of this constant, equal to it.
    pub fn duplicate(&self) -> (r: MirConst)
        ensures
            r == *self,
    {
        match self {
            MirConst::Int(n) => MirConst::Int(*n),
            MirConst::Int128(n) => MirConst::Int128(*n),
            MirConst::Bool(b) => MirConst::Bool(*b),
            MirConst::FloatBits(b) => MirConst::FloatBits(*b),
            MirConst::String(s) => MirConst::String(s.clone()),
        }
    }
}

/// Every alignment fits a `u32`.
pub proof fn lemma_align_fits(t: MirType)
    ensures
        align_of(t) <= u32::MAX,
    decreases t,
{
    match t {
        MirType::Tuple(fields) => lemma_list_align_fits(fields),
        MirType::Array { elem, .. } => lemma_align_fits(*elem),
        _ => {},
    }
}

/// Every list alignment fits a `u32`.
pub proof fn lemma_list_align_fits(l: TypeList)
    ensures
        list_align(l) <= u32::MAX,
    decreases l,
{
    match l {
        TypeList::Nil => {},
        TypeList::Cons(h, t) => {
            lemma_align_fits(*h);
            lemma_list_align_fits(*t);
        },
    }
}

} // verus!
