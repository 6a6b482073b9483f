//! The iterator terminals: a method call at the end of an iterator chain
//! (`to_vec`, `fold`, `any`, ...) picks the fused loop that lowers it.

use vstd::prelude::*;
use crate::builder::MirBuilder;
use crate::folding::{elem_or_i64, flat_map_phases, fold_call_phases, reduced, LiftedClosure};
use crate::iterators::{
    adapted_ty, chain_elem_ty, collect_phases, extreme_phases, fold_phases, local_op, pair_fits, to_map_phases,
    IterAdapter, IterChain, IterLoopSetup,
};
use crate::lowerer::{LoweringError, MirLowerer};
use crate::mir::{size_fits, BlockId, LocalId, MirConst, MirOperand, MirTerminator, MirType};
use crate::search::{search_phases, search_result_ty, SearchKind};
use crate::sorting::{sort_elem_ty, sort_forms, sort_temps, sort_terms};
use crate::string_methods::called_into;
use crate::text::{before_char, before_char_str, str_eq, trim, trim_spec};
use crate::types::Type;

verus! {

/// An argument of an iterator terminal: a closure, lifted into a named
/// function, or a lowered value of a type.
#[derive(Debug)]
pub enum TerminalArg {
    Closure(LiftedClosure),
    Value(MirOperand, MirType),
}

/// The answer of a terminal lowering, or its error.
pub type Lowered = Result<(MirOperand, MirType), LoweringError>;

/// `new` is `old` with the chain collected into a new Vec, answering `r`;
/// see `collect_phases`.
pub open spec fn collected(
    old: MirBuilder,
    new: MirBuilder,
    chain: IterChain,
    c0: Seq<(LocalId, MirType)>,
    c1: Seq<(LocalId, MirType)>,
    r: (MirOperand, MirType),
) -> bool {
    &&& r == (local_op(LocalId(old.locals@.len() as usize)), MirType::I64)
    &&& exists|b1: MirBuilder, b2: MirBuilder, s: IterLoopSetup, b3: MirBuilder, out: (MirOperand, MirType), b4: MirBuilder, b5: MirBuilder|
        #[trigger] collect_phases(old, b1, b2, s, b3, out, b4, b5, new, chain, c0, c1)
}

/// `new` is `old` with `chain`, one adapter `a` longer, collected into a
/// new Vec.
pub open spec fn collected_with(
    old: MirBuilder,
    new: MirBuilder,
    chain: IterChain,
    a: IterAdapter,
    c0: Seq<(LocalId, MirType)>,
    c1: Seq<(LocalId, MirType)>,
    r: (MirOperand, MirType),
) -> bool {
    exists|c: IterChain|
        #![trigger collected(old, new, c, c0, c1, r)]
        c.source == chain.source && c.source_ty == chain.source_ty && c.elem_ty == chain.elem_ty && c.adapters@
            == chain.adapters@.push(a) && collected(old, new, c, c0, c1, r)
}

/// `new` is `old` with the chain collected and the Vec joined with `sep`
/// by the runtime's `Vec_join` into a new string temp.
pub open spec fn joined(
    old: MirBuilder,
    new: MirBuilder,
    chain: IterChain,
    sep: MirOperand,
    c0: Seq<(LocalId, MirType)>,
    c1: Seq<(LocalId, MirType)>,
    r: (MirOperand, MirType),
) -> bool {
    exists|mid: MirBuilder, v: (MirOperand, MirType)|
        #![trigger collected(old, mid, chain, c0, c1, v)]
        collected(old, mid, chain, c0, c1, v) && called_into(mid, new, MirType::String, "Vec_join"@, seq![v.0, sep])
            && r == (local_op(LocalId(mid.locals@.len() as usize)), MirType::String)
}

/// `new` is `old` with the chain's pairs inserted into a new Map; see
/// `to_map_phases`.
pub open spec fn to_mapped(old: MirBuilder, new: MirBuilder, chain: IterChain, r: Lowered) -> bool {
    exists|b1: MirBuilder, b2: MirBuilder, s: IterLoopSetup, b3: MirBuilder, out: (MirOperand, MirType), b4: MirBuilder, b5: MirBuilder|
        #[trigger] to_map_phases(old, b1, b2, s, b3, out, b4, b5, new, chain, r)
}

/// `new` is `old` with the chain's least (or greatest) element kept;
/// see `extreme_phases`.
pub open spec fn extreme_found(old: MirBuilder, new: MirBuilder, chain: IterChain, want_max: bool, r: (MirOperand, MirType)) -> bool {
    &&& r == (local_op(LocalId(old.locals@.len() as usize)), MirType::Option(Box::new(MirType::I64)))
    &&& exists|b1: MirBuilder, b2: MirBuilder, s: IterLoopSetup, b3: MirBuilder, out: (MirOperand, MirType), b4: MirBuilder|
        #[trigger] extreme_phases(old, b1, b2, s, b3, out, b4, new, chain, want_max)
}

/// `new` is `old` with the chain's elements counted (or summed); see
/// `fold_phases`.
pub open spec fn tallied(old: MirBuilder, new: MirBuilder, chain: IterChain, count: bool, r: (MirOperand, MirType)) -> bool {
    &&& r == (local_op(LocalId(old.locals@.len() as usize)), MirType::I64)
    &&& exists|b1: MirBuilder, b2: MirBuilder, s: IterLoopSetup, b3: MirBuilder, out: (MirOperand, MirType), b4: MirBuilder|
        #[trigger] fold_phases(old, b1, b2, s, b3, out, b4, new, chain, count)
}

/// `new` is `old` with the chain searched with `pred`; see
/// `search_phases`.
pub open spec fn searched(
    old: MirBuilder,
    new: MirBuilder,
    chain: IterChain,
    pred: Seq<char>,
    kind: SearchKind,
    r: (MirOperand, MirType),
) -> bool {
    &&& r == (local_op(LocalId(old.locals@.len() as usize)), search_result_ty(kind))
    &&& exists|b1: MirBuilder, b2: MirBuilder, s: IterLoopSetup, b3: MirBuilder, out: (MirOperand, MirType), b4: MirBuilder|
        #[trigger] search_phases(old, b1, b2, s, b3, out, b4, new, chain, pred, kind)
}

/// `new` is `old` with the chain folded from `init` with `func`; see
/// `fold_call_phases`.
pub open spec fn folded(
    old: MirBuilder,
    new: MirBuilder,
    chain: IterChain,
    init: MirOperand,
    init_ty: MirType,
    func: Seq<char>,
    r: (MirOperand, MirType),
) -> bool {
    &&& r == (local_op(LocalId(old.locals@.len() as usize)), init_ty)
    &&& exists|b1: MirBuilder, b2: MirBuilder, s: IterLoopSetup, b3: MirBuilder, out: (MirOperand, MirType), b4: MirBuilder|
        #[trigger] fold_call_phases(old, b1, b2, s, b3, out, b4, new, chain, init, init_ty, func)
}

/// `new` is `old` with the collections `func` makes of the chain's
/// elements flattened into a new Vec; see `flat_map_phases`.
pub open spec fn flat_mapped(
    old: MirBuilder,
    new: MirBuilder,
    chain: IterChain,
    func: Seq<char>,
    sub: MirType,
    c0: Seq<(LocalId, MirType)>,
    c1: Seq<(LocalId, MirType)>,
    r: (MirOperand, MirType),
) -> bool {
    &&& r == (local_op(LocalId(old.locals@.len() as usize)), MirType::I64)
    &&& exists|b1: MirBuilder, b2: MirBuilder, s: IterLoopSetup, b3: MirBuilder, out: (MirOperand, MirType), b4: MirBuilder|
        #[trigger] flat_map_phases(old, b1, b2, s, b3, out, b4, new, chain, func, sub, c0, c1)
}

/// `new` is `old` with the Vec `obj` of type `obj_ty` sorted in place by
/// `key_fn`; see `lower_iter_sort_by_key`.
pub open spec fn sorted_by_key(
    old: MirBuilder,
    new: MirBuilder,
    obj: MirOperand,
    obj_ty: MirType,
    elem_ty: Option<MirType>,
    key_fn: Seq<char>,
    key_ty: MirType,
) -> bool {
    let n = old.locals@.len();
    let b = old.terms@.len();
    &&& crate::builder::recorded(
        old,
        new,
        sort_temps(obj_ty, sort_elem_ty(elem_ty), key_ty),
        sort_forms(n, b, old.current, obj, key_fn, key_ty),
    )
    &&& new.terms@ == old.terms@.update(old.current.0 as int, Some(MirTerminator::Goto { target: BlockId(b as usize) }))
        + sort_terms(n, b)
    &&& new.current == BlockId((b + 7) as usize)
}

/// The checker's type for a chain's source is `Iterator<..>`: a sequence,
/// not a collection. `type_names` names the registered types by id.
pub open spec fn is_sequence_type(ty: Option<Type>, type_names: Seq<String>) -> bool {
    match ty {
        Some(Type::UnresolvedGeneric { name, .. }) => trim_spec(before_char(name@, '<')) == "Iterator"@,
        Some(Type::Generic { base, .. }) => base < type_names.len() && trim_spec(
            before_char(type_names[base as int]@, '<'),
        ) == "Iterator"@,
        _ => false,
    }
}

/// The adapter a `map`, `filter` or `enumerate` standing on its own adds to
/// its chain before the implicit `to_vec`.
pub open spec fn standalone_adapter(method: Seq<char>, args: Seq<TerminalArg>) -> Option<IterAdapter> {
    if method == "enumerate"@ && args.len() == 0 {
        Some(IterAdapter::Enumerate)
    } else if (method == "map"@ || method == "filter"@) && args.len() == 1 && args[0] is Closure {
        let f = args[0]->Closure_0;
        if method == "map"@ {
            Some(IterAdapter::MapTo { func: f.func, ret_ty: f.ret_ty })
        } else {
            Some(IterAdapter::Filter { pred: f.func })
        }
    } else {
        None
    }
}

/// The search a one-closure search method runs.
pub open spec fn search_kind(method: Seq<char>) -> Option<SearchKind> {
    if method == "any"@ {
        Some(SearchKind::Any)
    } else if method == "all"@ {
        Some(SearchKind::All)
    } else if method == "find"@ {
        Some(SearchKind::Find)
    } else if method == "position"@ {
        Some(SearchKind::Position)
    } else {
        None
    }
}

/// Every value a terminal on `chain` with `args` builds has a width that
/// fits: the source, the elements a collecting terminal stores (with the
/// standalone adapter, if any), the pairs of `to_map`, what `flat_map`'s
/// function returns elements of, and the keys of `sort_by_key`.
pub open spec fn terminal_fits(method: Seq<char>, chain: IterChain, args: Seq<TerminalArg>) -> bool {
    let ty0 = chain_elem_ty(chain);
    &&& size_fits(chain.source_ty)
    &&& size_fits(adapted_ty(chain.adapters@, chain.adapters@.len() as int, ty0))
    &&& (method == "to_map"@ ==> pair_fits(adapted_ty(chain.adapters@, chain.adapters@.len() as int, ty0)))
    &&& (standalone_adapter(method, args) matches Some(a) ==> size_fits(
        adapted_ty(chain.adapters@.push(a), (chain.adapters@.len() + 1) as int, ty0),
    ))
    &&& (args.len() == 1 && args[0] is Closure && method == "flat_map"@ ==> size_fits(
        elem_or_i64(args[0]->Closure_0.ret_elem_ty),
    ))
    &&& (args.len() == 1 && args[0] is Closure && method == "sort_by_key"@ ==> size_fits(
        args[0]->Closure_0.ret_ty,
    ))
}

/// What a terminal does with the chain `chain` and the arguments `args`,
/// from `old` to `new`, answering `r`; `c0` and `c1` are the element types
/// recorded for Vecs before and after, `type_names` the registered type
/// names, and `source_ty` the checker's type for the chain's source.
pub open spec fn terminal_lowered(
    method: Seq<char>,
    chain: IterChain,
    source_ty: Option<Type>,
    type_names: Seq<String>,
    args: Seq<TerminalArg>,
    old: MirBuilder,
    new: MirBuilder,
    c0: Seq<(LocalId, MirType)>,
    c1: Seq<(LocalId, MirType)>,
    r: Result<Option<(MirOperand, MirType)>, LoweringError>,
) -> bool {
    let n = args.len();
    let closure1 = n == 1 && args[0] is Closure;
    if method == "to_vec"@ && n == 0 {
        r matches Ok(Some(v)) && collected(old, new, chain, c0, c1, v)
    } else if method == "to_map"@ && n == 0 {
        ||| r matches Ok(Some(v)) && to_mapped(old, new, chain, Ok(v))
        ||| r matches Err(e) && to_mapped(old, new, chain, Err(e))
    } else if method == "join"@ && n == 1 && args[0] is Value && (chain.adapters@.len() > 0 || is_sequence_type(
        source_ty,
        type_names,
    )) {
        r matches Ok(Some(v)) && joined(old, new, chain, args[0]->Value_0, c0, c1, v)
    } else if (method == "min"@ || method == "max"@) && n == 0 {
        r matches Ok(Some(v)) && extreme_found(old, new, chain, method == "max"@, v)
    } else if method == "fold"@ && n == 2 && args[0] is Value && args[1] is Closure {
        r matches Ok(Some(v)) && folded(old, new, chain, args[0]->Value_0, args[0]->Value_1, args[1]->Closure_0.func@, v)
    } else if standalone_adapter(method, args) is Some {
        r matches Ok(Some(v)) && collected_with(old, new, chain, standalone_adapter(method, args)->0, c0, c1, v)
    } else if search_kind(method) is Some && closure1 {
        &&& r matches Ok(Some(v)) && searched(old, new, chain, args[0]->Closure_0.func@, search_kind(method)->0, v)
        &&& c1 == c0
    } else if (method == "count"@ || method == "sum"@) && n == 0 {
        &&& r matches Ok(Some(v)) && tallied(old, new, chain, method == "count"@, v)
        &&& c1 == c0
    } else if method == "reduce"@ && closure1 {
        let f = args[0]->Closure_0;
        &&& c1 == c0
        &&& if f.n_params != 2 {
            &&& r matches Err(LoweringError::InvalidConstruct(m))
            &&& m@ == "reduce's closure takes two parameters"@
            &&& new == old
        } else {
            r matches Ok(Some(v)) && reduced(old, new, chain, f.func@, v)
        }
    } else if method == "flat_map"@ && closure1 {
        let f = args[0]->Closure_0;
        r matches Ok(Some(v)) && flat_mapped(old, new, chain, f.func@, elem_or_i64(f.ret_elem_ty), c0, c1, v)
    } else if method == "sort_by_key"@ && closure1 {
        let f = args[0]->Closure_0;
        &&& sorted_by_key(old, new, chain.source, chain.source_ty, chain.elem_ty, f.func@, f.ret_ty)
        &&& r == Ok::<Option<(MirOperand, MirType)>, LoweringError>(
            Some((MirOperand::Constant(MirConst::Int(0)), MirType::Void)),
        )
        &&& c1 == c0
    } else {
        &&& r == Ok::<Option<(MirOperand, MirType)>, LoweringError>(None)
        &&& new == old
        &&& c1 == c0
    }
}

impl MirLowerer {
    /// Whether the checker's type `ty` for a chain's source is
    /// `Iterator<..>`; see `is_sequence_type`.
    pub fn source_is_a_sequence(&self, ty: Option<&Type>) -> (r: bool)
        ensures
            r == is_sequence_type(
                match ty {
                    Some(t) => Some(*t),
                    None => None,
                },
                self.ctx.type_names@,
            ),
    {
        let name: &str = match ty {
            Some(Type::UnresolvedGeneric { name, .. }) => name.as_str(),
            Some(Type::Generic { base, .. }) => {
                if (*base as usize) < self.ctx.type_names.len() {
                    self.ctx.type_names[*base as usize].as_str()
                } else {
                    return false;
                }
            },
            _ => {
                return false;
            },
        };
        let base_name = trim(before_char_str(name, '<'));
        str_eq(base_name.as_str(), "Iterator")
    }

    /// An iterator terminal `method` on the lowered chain `chain`, with the
    /// arguments `args`; `source_ty` is the checker's type for the chain's
    /// source. Without a chain, nothing. Otherwise the fused loop for the
    /// method, as `terminal_lowered` says: `to_vec`, `to_map`, `join` (on a
    /// chain with adapters, or a source that is a sequence), `min` and
    /// `max`, `fold`, `map`, `filter` and `enumerate` standing on their own
    /// (the adapter, then `to_vec`), `any`, `all`, `find`, `position`,
    /// `count`, `sum`, `reduce`, `flat_map`, and `sort_by_key` on the
    /// chain's source; nothing, with nothing emitted, for another method or
    /// other arguments.
    pub fn try_lower_iter_terminal(
        &mut self,
        method: &str,
        chain: Option<IterChain>,
        source_ty: Option<&Type>,
        args: &Vec<TerminalArg>,
    ) -> (r: Result<Option<(MirOperand, MirType)>, LoweringError>)
        requires
            old(self).builder.wf(),
            chain matches Some(c) ==> terminal_fits(method@, c, args@),
        ensures
            match chain {
                None => r == Ok::<Option<(MirOperand, MirType)>, LoweringError>(None) && final(self).builder
                    == old(self).builder,
                Some(c) => terminal_lowered(
                    method@,
                    c,
                    match source_ty {
                        Some(t) => Some(*t),
                        None => None,
                    },
                    old(self).ctx.type_names@,
                    args@,
                    old(self).builder,
                    final(self).builder,
                    old(self).collected_elem_types@,
                    final(self).collected_elem_types@,
                    r,
                ),
            },
            final(self).ctx == old(self).ctx,
    {
        let c = match chain {
            Some(c) => c,
            None => {
                return Ok(None);
            },
        };
        let ghost b0 = self.builder;
        let ghost c0 = self.collected_elem_types@;
        let n = args.len();
        if str_eq(method, "to_vec") && n == 0 {
            let v = self.lower_iter_collect(&c);
            return Ok(Some(v));
        }
        if str_eq(method, "to_map") && n == 0 {
            let res = self.lower_iter_to_map(&c);
            proof {
                assert(to_mapped(b0, self.builder, c, res));
            }
            return match res {
                Ok(v) => Ok(Some(v)),
                Err(e) => Err(e),
            };
        }
        if str_eq(method, "join") && n == 1 {
            if let TerminalArg::Value(sep, _) = &args[0] {
                if c.adapters.len() > 0 || self.source_is_a_sequence(source_ty) {
                    let v = self.lower_iter_collect(&c);
                    let ghost mid = self.builder;
                    let dst = self.builder.alloc_temp(MirType::String);
                    let call_args = vec![v.0.duplicate(), sep.duplicate()];
                    let ghost av = call_args@;
                    self.builder.push_call(Some(dst), "Vec_join", call_args);
                    proof {
                        assert(av =~= seq![v.0, *sep]);
                        assert(collected(b0, mid, c, c0, self.collected_elem_types@, v));
                        assert(called_into(mid, self.builder, MirType::String, "Vec_join"@, seq![v.0, *sep]));
                    }
                    return Ok(Some((MirOperand::Local(dst), MirType::String)));
                }
            }
        }
        if (str_eq(method, "min") || str_eq(method, "max")) && n == 0 {
            let want_max = str_eq(method, "max");
            let v = self.lower_iter_extreme(&c, want_max);
            return Ok(Some(v));
        }
        if str_eq(method, "fold") && n == 2 {
            if let TerminalArg::Value(init, init_ty) = &args[0] {
                if let TerminalArg::Closure(f) = &args[1] {
                    let v = self.lower_iter_fold(&c, init, init_ty, f.func.as_str());
                    return Ok(Some(v));
                }
            }
        }
        let standalone = self.standalone_adapter_of(method, args);
        if let Some(a) = standalone {
            let ghost ga = a;
            let mut c2 = c;
            c2.adapters.push(a);
            let v = self.lower_iter_collect(&c2);
            proof {
                assert(collected(b0, self.builder, c2, c0, self.collected_elem_types@, v));
            }
            return Ok(Some(v));
        }
        if n == 1 {
            if let TerminalArg::Closure(f) = &args[0] {
                let kind = if str_eq(method, "any") {
                    Some(SearchKind::Any)
                } else if str_eq(method, "all") {
                    Some(SearchKind::All)
                } else if str_eq(method, "find") {
                    Some(SearchKind::Find)
                } else if str_eq(method, "position") {
                    Some(SearchKind::Position)
                } else {
                    None
                };
                if let Some(k) = kind {
                    let v = self.lower_iter_search(&c, f.func.as_str(), k);
                    return Ok(Some(v));
                }
                if str_eq(method, "reduce") {
                    let res = self.lower_iter_reduce(&c, Some(f));
                    return match res {
                        Ok(v) => Ok(Some(v)),
                        Err(e) => Err(e),
                    };
                }
                if str_eq(method, "flat_map") {
                    let sub = match &f.ret_elem_ty {
                        Some(t) => Some(t),
                        None => None,
                    };
                    let v = self.lower_iter_flat_map(&c, f.func.as_str(), sub);
                    return Ok(Some(v));
                }
                if str_eq(method, "sort_by_key") {
                    let et = match &c.elem_ty {
                        Some(t) => Some(t),
                        None => None,
                    };
                    let v = self.lower_iter_sort_by_key(&c.source, &c.source_ty, et, f.func.as_str(), &f.ret_ty);
                    return Ok(Some(v));
                }
            }
        }
        if (str_eq(method, "count") || str_eq(method, "sum")) && n == 0 {
            let v = if str_eq(method, "count") {
                self.lower_iter_count(&c)
            } else {
                self.lower_iter_sum(&c)
            };
            return Ok(Some(v));
        }
        Ok(None)
    }

    /// The adapter a standalone `map`, `filter` or `enumerate` adds; see
    /// `standalone_adapter`.
    fn standalone_adapter_of(&self, method: &str, args: &Vec<TerminalArg>) -> (r: Option<IterAdapter>)
        ensures
            r == standalone_adapter(method@, args@),
    {
        if str_eq(method, "enumerate") && args.len() == 0 {
            return Some(IterAdapter::Enumerate);
        }
        if (str_eq(method, "map") || str_eq(method, "filter")) && args.len() == 1 {
            if let TerminalArg::Closure(f) = &args[0] {
                if str_eq(method, "map") {
                    return Some(IterAdapter::MapTo { func: f.func.clone(), ret_ty: f.ret_ty.duplicate() });
                } else {
                    return Some(IterAdapter::Filter { pred: f.func.clone() });
                }
            }
        }
        None
    }
}

} // verus!
