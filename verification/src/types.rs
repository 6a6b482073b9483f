//! The type checker's view of a type, as lowering receives it.

use vstd::prelude::*;

verus! {

/// A type as the checker left it on an expression or a declaration.
#[derive(Debug)]
pub enum Type {
    Bool,
    Char,
    I8,
    I16,
    I32,
    I64,
    U8,
    U16,
    U32,
    U64,
    I128,
    U128,
    F32,
    F64,
    String,
    Unit,
    NoneType,
    /// An inference variable the checker did not settle.
    Var(u32),
    /// A registered nominal type, by id.
    Named(u32),
    /// A registered generic type applied to arguments.
    Generic { base: u32, args: ArgList },
    /// A named type the checker did not resolve.
    UnresolvedNamed(String),
    /// A generic application the checker did not resolve.
    UnresolvedGeneric { name: String, args: ArgList },
    /// `T or E`; `T?` is the result whose error side is `NoneType`.
    Result { ok: Box<Type>, err: Box<Type> },
    Array { elem: Box<Type>, len: u32 },
    Slice(Box<Type>),
    /// A raw pointer to a value of the inner type.
    RawPtr(Box<Type>),
    Tuple(TypeSeq),
    Fn { params: TypeSeq, ret: Box<Type> },
}

/// A generic argument: a type, or a constant.
#[derive(Debug)]
pub enum GenericArg {
    Type(Box<Type>),
    Const(u64),
}

/// Generic arguments, in order.
#[derive(Debug)]
pub enum ArgList {
    Nil,
    Cons(GenericArg, Box<ArgList>),
}

/// A list of types, in order.
#[derive(Debug)]
pub enum TypeSeq {
    Nil,
    Cons(Box<Type>, Box<TypeSeq>),
}

/// The arguments of a list, as a sequence.
pub open spec fn args_seq(l: ArgList) -> Seq<GenericArg>
    decreases l,
{
    match l {
        ArgList::Nil => Seq::empty(),
        ArgList::Cons(h, t) => seq![h] + args_seq(*t),
    }
}

/// The types of a list, as a sequence.
pub open spec fn types_seq(l: TypeSeq) -> Seq<Type>
    decreases l,
{
    match l {
        TypeSeq::Nil => Seq::empty(),
        TypeSeq::Cons(h, t) => seq![*h] + types_seq(*t),
    }
}

impl Type {
    /// A copy of this type, equal to it.
    pub fn duplicate(&self) -> (r: Type)
        ensures
            r == *self,
        decreases self,
    {
        match self {
            Type::Bool => Type::Bool,
            Type::Char => Type::Char,
            Type::I8 => Type::I8,
            Type::I16 => Type::I16,
            Type::I32 => Type::I32,
            Type::I64 => Type::I64,
            Type::U8 => Type::U8,
            Type::U16 => Type::U16,
            Type::U32 => Type::U32,
            Type::U64 => Type::U64,
            Type::I128 => Type::I128,
            Type::U128 => Type::U128,
            Type::F32 => Type::F32,
            Type::F64 => Type::F64,
            Type::String => Type::String,
            Type::Unit => Type::Unit,
            Type::NoneType => Type::NoneType,
            Type::Var(v) => Type::Var(*v),
            Type::Named(id) => Type::Named(*id),
            Type::Generic { base, args } => Type::Generic { base: *base, args: args.duplicate() },
            Type::UnresolvedNamed(n) => Type::UnresolvedNamed(n.clone()),
            Type::UnresolvedGeneric { name, args } => Type::UnresolvedGeneric {
                name: name.clone(),
                args: args.duplicate(),
            },
            Type::Result { ok, err } => Type::Result {
                ok: Box::new((**ok).duplicate()),
                err: Box::new((**err).duplicate()),
            },
            Type::Array { elem, len } => Type::Array {
                elem: Box::new((**elem).duplicate()),
                len: *len,
            },
            Type::Slice(elem) => Type::Slice(Box::new((**elem).duplicate())),
            Type::RawPtr(inner) => Type::RawPtr(Box::new((**inner).duplicate())),
            Type::Tuple(ts) => Type::Tuple(ts.duplicate()),
            Type::Fn { params, ret } => Type::Fn {
                params: params.duplicate(),
                ret: Box::new((**ret).duplicate()),
            },
        }
    }
}

impl GenericArg {
    /// A copy of this argument, equal to it.
    pub fn duplicate(&self) -> (r: GenericArg)
        ensures
            r == *self,
        decreases self,
    {
        match self {
            GenericArg::Type(t) => GenericArg::Type(Box::new((**t).duplicate())),
            GenericArg::Const(c) => GenericArg::Const(*c),
        }
    }
}

impl ArgList {
    /// A copy of this list, equal to it.
    pub fn duplicate(&self) -> (r: ArgList)
        ensures
            r == *self,
        decreases self,
    {
        match self {
            ArgList::Nil => ArgList::Nil,
            ArgList::Cons(h, t) => ArgList::Cons(h.duplicate(), Box::new((**t).duplicate())),
        }
    }

    /// The list holding the arguments of `v`, in order.
    pub fn from_vec(v: Vec<GenericArg>) -> (r: ArgList)
        ensures
            args_seq(r) == v@,
    {
        let mut v = v;
        let mut out = ArgList::Nil;
        let ghost orig = v@;
        while v.len() > 0
            invariant
                orig == v@ + args_seq(out),
            decreases v.len(),
        {
            let a = v.pop().unwrap();
            out = ArgList::Cons(a, Box::new(out));
            assert(orig =~= v@ + args_seq(out));
        }
        assert(orig =~= args_seq(out));
        out
    }

    /// The argument at position `index`, when there is one.
    pub fn get(&self, index: usize) -> (r: Option<&GenericArg>)
        ensures
            r is Some <==> index < args_seq(*self).len(),
            r is Some ==> *r->0 == args_seq(*self)[index as int],
        decreases self,
    {
        match self {
            ArgList::Nil => None,
            ArgList::Cons(h, t) => {
                if index == 0 {
                    Some(h)
                } else {
                    let r = (**t).get(index - 1);
                    proof {
                        if index - 1 < args_seq(**t).len() {
                            assert(args_seq(*self)[index as int] == args_seq(**t)[index - 1]);
                        }
                    }
                    r
                }
            },
        }
    }

    /// The first argument, when there is one.
    pub fn first(&self) -> (r: Option<&GenericArg>)
        ensures
            r is Some <==> args_seq(*self).len() > 0,
            r is Some ==> *r->0 == args_seq(*self)[0],
    {
        self.get(0)
    }
}

impl TypeSeq {
    /// A copy of this list, equal to it.
    pub fn duplicate(&self) -> (r: TypeSeq)
        ensures
            r == *self,
        decreases self,
    {
        match self {
            TypeSeq::Nil => TypeSeq::Nil,
            TypeSeq::Cons(h, t) => TypeSeq::Cons(
                Box::new((**h).duplicate()),
                Box::new((**t).duplicate()),
            ),
        }
    }
}

} // verus!
