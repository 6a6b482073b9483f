use lib::iterators::{IterAdapter, IterChain};
use lib::lowerer::{LowerCtx, MirLowerer};
use lib::mir::{
    BinOp, BlockId, LocalId, MirConst, MirOperand, MirRValue, MirStmt, MirTerminator, MirType,
};

fn empty_ctx() -> LowerCtx {
    LowerCtx {
        struct_layouts: Vec::new(),
        enum_layouts: Vec::new(),
        type_names: Vec::new(),
        shared_elem_types: Vec::new(),
        trait_methods: Vec::new(),
    }
}

fn local(n: usize) -> MirOperand {
    MirOperand::Local(LocalId(n))
}

fn vec_chain(adapters: Vec<IterAdapter>) -> IterChain {
    IterChain { source: local(100), source_ty: MirType::I64, elem_ty: Some(MirType::I64), adapters }
}

fn pred_call(s: &MirStmt) -> (Option<LocalId>, String, Vec<usize>) {
    match s {
        MirStmt::Call { dst, func, args } => (
            *dst,
            func.clone(),
            args.iter()
                .map(|a| match a {
                    MirOperand::Local(LocalId(k)) => *k,
                    other => panic!("not a local: {:?}", other),
                })
                .collect(),
        ),
        other => panic!("not a call: {:?}", other),
    }
}

fn is_bool_assign(s: &MirStmt, dst: usize, b: bool) -> bool {
    matches!(s, MirStmt::Assign { dst: LocalId(d), rvalue: MirRValue::Use(MirOperand::Constant(MirConst::Bool(v))) } if *d == dst && *v == b)
}

#[test]
fn any_branches_out_on_the_first_hit() {
    let mut l = MirLowerer::new(empty_ctx());
    let (op, ty) = l.lower_iter_any(&vec_chain(Vec::new()), "is_even");
    assert!(matches!(op, MirOperand::Local(LocalId(0))));
    assert!(matches!(ty, MirType::Bool));
    assert!(is_bool_assign(&l.builder.stmts[0].stmt, 0, false));
    // result, coll, len, idx, cond, elem, predicate, increment temp
    assert_eq!(l.builder.locals.len(), 8);
    assert_eq!(pred_call(&l.builder.stmts[6].stmt), (Some(LocalId(6)), "is_even".to_string(), vec![5]));
    assert_eq!(l.builder.stmts[6].block, BlockId(2));
    assert!(matches!(
        &l.builder.terms[2],
        Some(MirTerminator::Branch { cond: MirOperand::Local(LocalId(6)), then_block: BlockId(5), else_block: BlockId(3) })
    ));
    assert!(is_bool_assign(&l.builder.stmts[7].stmt, 0, true));
    assert_eq!(l.builder.stmts[7].block, BlockId(5));
    assert!(matches!(&l.builder.terms[5], Some(MirTerminator::Goto { target: BlockId(4) })));
    assert!(matches!(&l.builder.terms[3], Some(MirTerminator::Goto { target: BlockId(1) })));
    assert_eq!(l.builder.stmts.len(), 10);
    assert_eq!(l.builder.current, BlockId(4));
}

#[test]
fn all_branches_out_on_the_first_miss() {
    let mut l = MirLowerer::new(empty_ctx());
    let (_, ty) = l.lower_iter_all(&vec_chain(Vec::new()), "positive");
    assert!(matches!(ty, MirType::Bool));
    assert!(is_bool_assign(&l.builder.stmts[0].stmt, 0, true));
    assert!(matches!(
        &l.builder.terms[2],
        Some(MirTerminator::Branch { cond: MirOperand::Local(LocalId(6)), then_block: BlockId(3), else_block: BlockId(5) })
    ));
    assert!(is_bool_assign(&l.builder.stmts[7].stmt, 0, false));
}

#[test]
fn find_stores_the_element() {
    let mut l = MirLowerer::new(empty_ctx());
    let (op, ty) = l.lower_iter_find(&vec_chain(Vec::new()), "big");
    assert!(matches!(op, MirOperand::Local(LocalId(0))));
    assert!(matches!(ty, MirType::Option(ref t) if matches!(**t, MirType::I64)));
    assert!(matches!(&l.builder.stmts[0].stmt, MirStmt::Store { addr: LocalId(0), offset: 0, value: MirOperand::Constant(MirConst::Int(1)), .. }));
    assert!(matches!(&l.builder.stmts[7].stmt, MirStmt::Store { addr: LocalId(0), offset: 0, value: MirOperand::Constant(MirConst::Int(0)), .. }));
    assert!(matches!(&l.builder.stmts[8].stmt, MirStmt::Store { addr: LocalId(0), offset: 8, value: MirOperand::Local(LocalId(5)), .. }));
    assert_eq!(l.builder.stmts[8].block, BlockId(5));
}

#[test]
fn find_tests_the_mapped_element() {
    let mut l = MirLowerer::new(empty_ctx());
    let chain = vec_chain(vec![IterAdapter::MapTo { func: "square".to_string(), ret_ty: MirType::I64 }]);
    let _ = l.lower_iter_find(&chain, "big");
    // the map writes L6, the predicate reads it and the hit stores it
    assert_eq!(pred_call(&l.builder.stmts[6].stmt), (Some(LocalId(6)), "square".to_string(), vec![5]));
    assert_eq!(pred_call(&l.builder.stmts[7].stmt), (Some(LocalId(7)), "big".to_string(), vec![6]));
    assert!(matches!(&l.builder.stmts[9].stmt, MirStmt::Store { offset: 8, value: MirOperand::Local(LocalId(6)), .. }));
}

#[test]
fn position_counts_before_testing() {
    let mut l = MirLowerer::new(empty_ctx());
    let (op, _) = l.lower_iter_position(&vec_chain(Vec::new()), "is_zero");
    assert!(matches!(op, MirOperand::Local(LocalId(0))));
    assert!(matches!(&l.builder.stmts[1].stmt, MirStmt::Assign { dst: LocalId(1), rvalue: MirRValue::Use(MirOperand::Constant(MirConst::Int(0))) }));
    // result, pos, coll, len, idx, cond, elem: `here` is L7, `next` L8
    assert!(matches!(&l.builder.stmts[7].stmt, MirStmt::Assign { dst: LocalId(7), rvalue: MirRValue::Use(MirOperand::Local(LocalId(1))) }));
    assert!(matches!(
        &l.builder.stmts[8].stmt,
        MirStmt::Assign { dst: LocalId(8), rvalue: MirRValue::BinaryOp { op: BinOp::Add, left: MirOperand::Local(LocalId(1)), .. } }
    ));
    assert!(matches!(&l.builder.stmts[9].stmt, MirStmt::Assign { dst: LocalId(1), rvalue: MirRValue::Use(MirOperand::Local(LocalId(8))) }));
    assert_eq!(pred_call(&l.builder.stmts[10].stmt), (Some(LocalId(9)), "is_zero".to_string(), vec![6]));
    assert!(matches!(&l.builder.stmts[12].stmt, MirStmt::Store { addr: LocalId(0), offset: 8, value: MirOperand::Local(LocalId(7)), .. }));
    assert_eq!(l.builder.current, BlockId(4));
}
