//! Binding source names to locals: the name tables that lowering keeps
//! per function, and the payload binding of `x? as v`.

use vstd::prelude::*;
use crate::builder::placed;
use crate::expr::mir_type_name_spec;
use crate::lowerer::{
    first_named, lemma_first_named_at, lemma_first_named_none, LocalBinding, LocalMeta, MirLowerer,
};
use crate::mir::{FieldAccess, LocalId, MirOperand, MirRValue, MirStmt, MirType};

verus! {

/// Reads a binding's source name.
pub open spec fn binding_name() -> spec_fn(LocalBinding) -> Seq<char> {
    |b: LocalBinding| b.name@
}

/// Reads a metadata entry's source name.
pub open spec fn meta_name() -> spec_fn((String, LocalMeta)) -> Seq<char> {
    |e: (String, LocalMeta)| e.0@
}

/// `new` is the binding table `old` with `name` bound to `local` of type
/// `ty`: the first binding of the name replaced, or a new one at the end.
pub open spec fn binding_inserted(
    old: Seq<LocalBinding>,
    new: Seq<LocalBinding>,
    name: Seq<char>,
    local: LocalId,
    ty: MirType,
) -> bool {
    match first_named(old, binding_name(), name) {
        Some(i) => {
            &&& new.len() == old.len()
            &&& forall|j: int| 0 <= j < old.len() && j != i ==> new[j] == old[j]
            &&& new[i].name@ == name
            &&& new[i].local == local
            &&& new[i].ty == ty
        },
        None => {
            &&& new.len() == old.len() + 1
            &&& new.drop_last() == old
            &&& new.last().name@ == name
            &&& new.last().local == local
            &&& new.last().ty == ty
        },
    }
}

/// `new` is the metadata table `old` with the type prefix of `name` set to
/// `prefix`: on the name's first entry, or on a new entry at the end that
/// records nothing else.
pub open spec fn prefix_recorded(
    old: Seq<(String, LocalMeta)>,
    new: Seq<(String, LocalMeta)>,
    name: Seq<char>,
    prefix: Seq<char>,
) -> bool {
    match first_named(old, meta_name(), name) {
        Some(i) => {
            &&& new.len() == old.len()
            &&& forall|j: int| 0 <= j < old.len() && j != i ==> new[j] == old[j]
            &&& new[i].0 == old[i].0
            &&& new[i].1.elem_type == old[i].1.elem_type
            &&& new[i].1.full_type == old[i].1.full_type
            &&& new[i].1.type_prefix matches Some(p) && p@ == prefix
        },
        None => {
            &&& new.len() == old.len() + 1
            &&& new.drop_last() == old
            &&& new.last().0@ == name
            &&& new.last().1.elem_type is None
            &&& new.last().1.full_type is None
            &&& new.last().1.type_prefix matches Some(p) && p@ == prefix
        },
    }
}

/// The position of the first binding of `name`.
pub(crate) fn find_binding(s: &Vec<LocalBinding>, name: &str) -> (r: Option<usize>)
    ensures
        r is Some <==> first_named(s@, binding_name(), name@) is Some,
        r is Some ==> first_named(s@, binding_name(), name@) == Some(r->0 as int) && r->0 < s@.len(),
{
    let mut i: usize = 0;
    while i < s.len()
        invariant
            0 <= i <= s@.len(),
            forall|j: int| 0 <= j < i ==> s@[j].name@ != name@,
        decreases s@.len() - i,
    {
        if crate::text::str_eq(s[i].name.as_str(), name) {
            proof {
                lemma_first_named_at(s@, binding_name(), name@, i as int);
            }
            return Some(i);
        }
        i = i + 1;
    }
    proof {
        lemma_first_named_none(s@, binding_name(), name@);
    }
    None
}

/// The position of the first metadata entry of `name`.
fn find_meta(s: &Vec<(String, LocalMeta)>, name: &str) -> (r: Option<usize>)
    ensures
        r is Some <==> first_named(s@, meta_name(), name@) is Some,
        r is Some ==> first_named(s@, meta_name(), name@) == Some(r->0 as int) && r->0 < s@.len(),
{
    let mut i: usize = 0;
    while i < s.len()
        invariant
            0 <= i <= s@.len(),
            forall|j: int| 0 <= j < i ==> s@[j].0@ != name@,
        decreases s@.len() - i,
    {
        if crate::text::str_eq(s[i].0.as_str(), name) {
            proof {
                lemma_first_named_at(s@, meta_name(), name@, i as int);
            }
            return Some(i);
        }
        i = i + 1;
    }
    proof {
        lemma_first_named_none(s@, meta_name(), name@);
    }
    None
}

impl MirLowerer {
    /// Bind the source name `name` to `local` of type `ty`.
    pub fn insert_local(&mut self, name: &str, local: LocalId, ty: MirType)
        ensures
            binding_inserted(old(self).locals@, final(self).locals@, name@, local, ty),
            final(self).builder == old(self).builder,
            final(self).ctx == old(self).ctx,
            final(self).meta == old(self).meta,
            final(self).collected_elem_types == old(self).collected_elem_types,
    {
        let b = LocalBinding { name: String::from_str(name), local, ty };
        match find_binding(&self.locals, name) {
            Some(i) => {
                self.locals.set(i, b);
            },
            None => {
                self.locals.push(b);
                proof {
                    assert(self.locals@.drop_last() =~= old(self).locals@);
                }
            },
        }
    }

    /// Record `prefix` as the type prefix of the source name `name`.
    pub fn set_type_prefix(&mut self, name: &str, prefix: String)
        ensures
            prefix_recorded(old(self).meta@, final(self).meta@, name@, prefix@),
            final(self).builder == old(self).builder,
            final(self).ctx == old(self).ctx,
            final(self).locals == old(self).locals,
            final(self).collected_elem_types == old(self).collected_elem_types,
    {
        match find_meta(&self.meta, name) {
            Some(i) => {
                let key = self.meta[i].0.clone();
                let elem_type = match &self.meta[i].1.elem_type {
                    Some(t) => Some(t.duplicate()),
                    None => None,
                };
                let full_type = match &self.meta[i].1.full_type {
                    Some(t) => Some(t.clone()),
                    None => None,
                };
                self.meta.set(i, (key, LocalMeta { elem_type, type_prefix: Some(prefix), full_type }));
            },
            None => {
                self.meta.push(
                    (
                        String::from_str(name),
                        LocalMeta { elem_type: None, type_prefix: Some(prefix), full_type: None },
                    ),
                );
                proof {
                    assert(self.meta@.drop_last() =~= old(self).meta@);
                }
            },
        }
    }

    /// Bind an `x? as v` payload as a local in the current block, shared by
    /// the `if` and `while` forms. A niche-encoded value is its own payload;
    /// otherwise the payload is read a word at `payload_offset`, the offset
    /// the value's layout gives it. The name is bound to the new local, and
    /// its type prefix recorded when the payload type has a name.
    pub fn bind_presence_payload(
        &mut self,
        name: &str,
        val: &MirOperand,
        payload_ty: &MirType,
        is_niche: bool,
        payload_offset: Option<u32>,
    )
        ensures
            ({
                let n = old(self).builder.locals@.len();
                let local = LocalId(n as usize);
                let rvalue = if is_niche {
                    MirRValue::Use(*val)
                } else {
                    MirRValue::Field {
                        base: *val,
                        field_index: 0,
                        byte_offset: payload_offset,
                        access: FieldAccess::Word,
                    }
                };
                &&& final(self).builder.locals@.len() == n + 1
                &&& final(self).builder.locals@.drop_last() == old(self).builder.locals@
                &&& final(self).builder.locals@.last().ty == *payload_ty
                &&& final(self).builder.locals@.last().name matches Some(s) && s@ == name@
                &&& final(self).builder.stmts@ == old(self).builder.stmts@.push(
                    placed(old(self).builder.current, MirStmt::Assign { dst: local, rvalue }),
                )
                &&& binding_inserted(old(self).locals@, final(self).locals@, name@, local, *payload_ty)
                &&& match mir_type_name_spec(old(self).ctx, *payload_ty) {
                    Some(p) => prefix_recorded(old(self).meta@, final(self).meta@, name@, p),
                    None => final(self).meta@ == old(self).meta@,
                }
            }),
            final(self).builder.terms@ == old(self).builder.terms@,
            final(self).builder.current == old(self).builder.current,
            final(self).ctx == old(self).ctx,
            final(self).collected_elem_types == old(self).collected_elem_types,
    {
        let local = self.builder.alloc_local(String::from_str(name), payload_ty.duplicate());
        let rvalue = if is_niche {
            MirRValue::Use(val.duplicate())
        } else {
            MirRValue::Field {
                base: val.duplicate(),
                field_index: 0,
                byte_offset: payload_offset,
                access: FieldAccess::Word,
            }
        };
        self.builder.push_stmt(MirStmt::Assign { dst: local, rvalue });
        proof {
            assert(self.builder.locals@.drop_last() =~= old(self).builder.locals@);
        }
        self.insert_local(name, local, payload_ty.duplicate());
        match self.mir_type_name(payload_ty) {
            Some(prefix) => {
                self.set_type_prefix(name, prefix);
            },
            None => {},
        }
    }
}

} // verus!
