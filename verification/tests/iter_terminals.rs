use lib::folding::LiftedClosure;
use lib::iterators::{IterAdapter, IterChain};
use lib::lowerer::{LowerCtx, LoweringError, MirLowerer};
use lib::mir::{LocalId, MirConst, MirOperand, MirStmt, MirType};
use lib::terminals::TerminalArg;
use lib::types::{ArgList, Type};

fn ctx() -> LowerCtx {
    LowerCtx {
        struct_layouts: Vec::new(),
        enum_layouts: Vec::new(),
        type_names: vec!["Vec".to_string(), "Iterator<T>".to_string()],
        shared_elem_types: Vec::new(),
        trait_methods: Vec::new(),
    }
}

fn chain(adapters: Vec<IterAdapter>) -> IterChain {
    IterChain { source: MirOperand::Local(LocalId(100)), source_ty: MirType::I64, elem_ty: Some(MirType::I64), adapters }
}

fn closure(name: &str, n_params: usize) -> TerminalArg {
    TerminalArg::Closure(LiftedClosure { func: name.to_string(), n_params, ret_ty: MirType::I64, ret_elem_ty: None })
}

fn calls(l: &MirLowerer) -> Vec<String> {
    l.builder
        .stmts
        .iter()
        .filter_map(|s| match &s.stmt {
            MirStmt::Call { func, .. } => Some(func.clone()),
            _ => None,
        })
        .collect()
}

#[test]
fn no_chain_is_not_a_terminal() {
    let mut l = MirLowerer::new(ctx());
    assert!(l.try_lower_iter_terminal("to_vec", None, None, &Vec::new()).unwrap().is_none());
    assert_eq!(l.builder.stmts.len(), 0);
}

#[test]
fn to_vec_collects() {
    let mut l = MirLowerer::new(ctx());
    let (op, ty) = l.try_lower_iter_terminal("to_vec", Some(chain(Vec::new())), None, &Vec::new()).unwrap().unwrap();
    assert!(matches!(op, MirOperand::Local(LocalId(0))));
    assert!(matches!(ty, MirType::I64));
    let c = calls(&l);
    assert_eq!(c[0], "Vec_new");
    assert!(c.contains(&"Vec_push".to_string()));
}

#[test]
fn standalone_map_collects_through_the_function() {
    let mut l = MirLowerer::new(ctx());
    let args = vec![closure("double", 1)];
    l.try_lower_iter_terminal("map", Some(chain(Vec::new())), None, &args).unwrap().unwrap();
    let c = calls(&l);
    assert!(c.contains(&"double".to_string()));
    assert!(c.contains(&"Vec_push".to_string()));
}

#[test]
fn searches_and_tallies_pick_their_loops() {
    let mut l = MirLowerer::new(ctx());
    let (_, t) = l.try_lower_iter_terminal("any", Some(chain(Vec::new())), None, &vec![closure("even", 1)]).unwrap().unwrap();
    assert!(matches!(t, MirType::Bool));
    assert!(calls(&l).contains(&"even".to_string()));
    let (_, t) = l.try_lower_iter_terminal("find", Some(chain(Vec::new())), None, &vec![closure("even", 1)]).unwrap().unwrap();
    assert!(matches!(t, MirType::Option(_)));
    let (_, t) = l.try_lower_iter_terminal("count", Some(chain(Vec::new())), None, &Vec::new()).unwrap().unwrap();
    assert!(matches!(t, MirType::I64));
    let (_, t) = l.try_lower_iter_terminal("max", Some(chain(Vec::new())), None, &Vec::new()).unwrap().unwrap();
    assert!(matches!(t, MirType::Option(_)));
}

#[test]
fn fold_takes_a_seed_and_a_closure() {
    let mut l = MirLowerer::new(ctx());
    let args = vec![TerminalArg::Value(MirOperand::Constant(MirConst::Int(0)), MirType::I64), closure("add", 2)];
    let (_, t) = l.try_lower_iter_terminal("fold", Some(chain(Vec::new())), None, &args).unwrap().unwrap();
    assert!(matches!(t, MirType::I64));
    assert!(calls(&l).contains(&"add".to_string()));
    let mut l2 = MirLowerer::new(ctx());
    let swapped = vec![closure("add", 2), TerminalArg::Value(MirOperand::Constant(MirConst::Int(0)), MirType::I64)];
    assert!(l2.try_lower_iter_terminal("fold", Some(chain(Vec::new())), None, &swapped).unwrap().is_none());
    assert_eq!(l2.builder.stmts.len(), 0);
}

#[test]
fn reduce_reports_a_wrong_closure() {
    let mut l = MirLowerer::new(ctx());
    match l.try_lower_iter_terminal("reduce", Some(chain(Vec::new())), None, &vec![closure("inc", 1)]) {
        Err(LoweringError::InvalidConstruct(m)) => assert_eq!(m, "reduce's closure takes two parameters"),
        other => panic!("expected an error, got {:?}", other),
    }
    assert_eq!(l.builder.stmts.len(), 0);
}

#[test]
fn join_needs_adapters_or_a_sequence() {
    let sep = vec![TerminalArg::Value(MirOperand::Constant(MirConst::String(", ".to_string())), MirType::String)];
    let mut l = MirLowerer::new(ctx());
    let vec_ty = Type::Generic { base: 0, args: ArgList::Nil };
    assert!(l.try_lower_iter_terminal("join", Some(chain(Vec::new())), Some(&vec_ty), &sep).unwrap().is_none());
    assert_eq!(l.builder.stmts.len(), 0);
    let seq_ty = Type::Generic { base: 1, args: ArgList::Nil };
    let (op, t) = l.try_lower_iter_terminal("join", Some(chain(Vec::new())), Some(&seq_ty), &sep).unwrap().unwrap();
    assert!(matches!(t, MirType::String));
    assert_eq!(calls(&l).last().unwrap(), "Vec_join");
    match &l.builder.stmts.last().unwrap().stmt {
        MirStmt::Call { dst, args, .. } => {
            assert!(matches!(op, MirOperand::Local(d) if Some(d) == *dst));
            assert!(matches!(args[0], MirOperand::Local(LocalId(0))));
            assert!(matches!(args[1], MirOperand::Constant(MirConst::String(ref s)) if s == ", "));
        },
        other => panic!("expected a call, got {:?}", other),
    }
    let mut l2 = MirLowerer::new(ctx());
    let filtered = chain(vec![IterAdapter::Filter { pred: "keep".to_string() }]);
    assert!(l2.try_lower_iter_terminal("join", Some(filtered), None, &sep).unwrap().is_some());
}

#[test]
fn sequences_are_named_iterator() {
    let l = MirLowerer::new(ctx());
    assert!(l.source_is_a_sequence(Some(&Type::UnresolvedGeneric { name: " Iterator<i64>".to_string(), args: ArgList::Nil })));
    assert!(l.source_is_a_sequence(Some(&Type::Generic { base: 1, args: ArgList::Nil })));
    assert!(!l.source_is_a_sequence(Some(&Type::Generic { base: 0, args: ArgList::Nil })));
    assert!(!l.source_is_a_sequence(Some(&Type::Generic { base: 9, args: ArgList::Nil })));
    assert!(!l.source_is_a_sequence(Some(&Type::I64)));
    assert!(!l.source_is_a_sequence(None));
}

#[test]
fn other_methods_are_not_terminals() {
    let mut l = MirLowerer::new(ctx());
    assert!(l.try_lower_iter_terminal("push", Some(chain(Vec::new())), None, &Vec::new()).unwrap().is_none());
    assert!(l.try_lower_iter_terminal("count", Some(chain(Vec::new())), None, &vec![closure("f", 1)]).unwrap().is_none());
    assert_eq!(l.builder.stmts.len(), 0);
}
