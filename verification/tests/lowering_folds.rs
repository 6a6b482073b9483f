use lib::iterators::{IterAdapter, IterChain};
use lib::folding::LiftedClosure;
use lib::lowerer::{LowerCtx, LoweringError, MirLowerer};
use lib::mir::{BinOp, BlockId, LocalId, MirConst, MirOperand, MirRValue, MirStmt, MirTerminator, MirType};

fn empty_ctx() -> LowerCtx {
    LowerCtx {
        struct_layouts: Vec::new(),
        enum_layouts: Vec::new(),
        type_names: Vec::new(),
        shared_elem_types: Vec::new(),
        trait_methods: Vec::new(),
    }
}

fn local(n: usize) -> MirOperand {
    MirOperand::Local(LocalId(n))
}

fn vec_chain(adapters: Vec<IterAdapter>) -> IterChain {
    IterChain { source: local(100), source_ty: MirType::I64, elem_ty: Some(MirType::I64), adapters }
}

fn call_parts(s: &MirStmt) -> (Option<LocalId>, String, Vec<String>) {
    match s {
        MirStmt::Call { dst, func, args } => (*dst, func.clone(), args.iter().map(|a| format!("{:?}", a)).collect()),
        other => panic!("not a call: {:?}", other),
    }
}

fn dbg(op: MirOperand) -> String {
    format!("{:?}", op)
}

#[test]
fn fold_threads_the_accumulator_through_the_function() {
    let mut l = MirLowerer::new(empty_ctx());
    let init = MirOperand::Constant(MirConst::Int(5));
    let (op, ty) = l.lower_iter_fold(&vec_chain(Vec::new()), &init, &MirType::I64, "add");
    assert!(matches!(op, MirOperand::Local(LocalId(0))));
    assert!(matches!(ty, MirType::I64));
    let b = &l.builder;
    assert!(matches!(&b.stmts[0].stmt, MirStmt::Assign { dst: LocalId(0), rvalue: MirRValue::Use(MirOperand::Constant(MirConst::Int(5))) }));
    assert_eq!(call_parts(&b.stmts[6].stmt), (Some(LocalId(6)), "add".to_string(), vec![dbg(local(0)), dbg(local(5))]));
    assert!(matches!(&b.stmts[7].stmt, MirStmt::Assign { dst: LocalId(0), rvalue: MirRValue::Use(MirOperand::Local(LocalId(6))) }));
    assert!(matches!(b.terms[2], Some(MirTerminator::Goto { target: BlockId(5) })));
    assert!(matches!(b.terms[5], Some(MirTerminator::Goto { target: BlockId(3) })));
    assert!(matches!(b.terms[3], Some(MirTerminator::Goto { target: BlockId(1) })));
    assert_eq!(b.current, BlockId(4));
    assert_eq!(b.stmts.len(), 10);
}

#[test]
fn reduce_seeds_then_combines() {
    let mut l = MirLowerer::new(empty_ctx());
    let f = LiftedClosure { func: "max2".to_string(), n_params: 2, ret_ty: MirType::I64, ret_elem_ty: None };
    let (op, ty) = l.lower_iter_reduce(&vec_chain(Vec::new()), Some(&f)).unwrap();
    assert!(matches!(op, MirOperand::Local(LocalId(9))));
    assert!(matches!(ty, MirType::Option(ref t) if matches!(**t, MirType::I64)));
    let b = &l.builder;
    // the flag picks the seeding or the combining block
    assert!(matches!(
        b.terms[2],
        Some(MirTerminator::Branch { cond: MirOperand::Local(LocalId(6)), then_block: BlockId(6), else_block: BlockId(5) })
    ));
    assert!(matches!(&b.stmts[5].stmt, MirStmt::Assign { dst: LocalId(5), rvalue: MirRValue::Use(MirOperand::Local(LocalId(4))) }));
    assert!(matches!(&b.stmts[6].stmt, MirStmt::Assign { dst: LocalId(6), rvalue: MirRValue::Use(MirOperand::Constant(MirConst::Bool(true))) }));
    assert_eq!(b.stmts[6].block, BlockId(5));
    assert_eq!(call_parts(&b.stmts[7].stmt), (Some(LocalId(7)), "max2".to_string(), vec![dbg(local(5)), dbg(local(4))]));
    assert_eq!(b.stmts[7].block, BlockId(6));
    assert!(matches!(b.terms[7], Some(MirTerminator::Goto { target: BlockId(3) })));
    // after the loop: present with the accumulator, or absent
    assert!(matches!(
        b.terms[4],
        Some(MirTerminator::Branch { cond: MirOperand::Local(LocalId(6)), then_block: BlockId(8), else_block: BlockId(9) })
    ));
    assert!(matches!(&b.stmts[12].stmt, MirStmt::Store { addr: LocalId(9), offset: 8, value: MirOperand::Local(LocalId(5)), .. }));
    assert!(matches!(&b.stmts[13].stmt, MirStmt::Store { addr: LocalId(9), offset: 0, value: MirOperand::Constant(MirConst::Int(1)), .. }));
    assert_eq!(b.stmts[13].block, BlockId(9));
    assert!(matches!(b.terms[8], Some(MirTerminator::Goto { target: BlockId(10) })));
    assert!(matches!(b.terms[9], Some(MirTerminator::Goto { target: BlockId(10) })));
    assert_eq!(b.current, BlockId(10));
}

#[test]
fn flat_map_pushes_every_inner_element() {
    let mut l = MirLowerer::new(empty_ctx());
    let (op, ty) = l.lower_iter_flat_map(&vec_chain(Vec::new()), "split_words", Some(&MirType::String));
    assert!(matches!(op, MirOperand::Local(LocalId(0))));
    assert!(matches!(ty, MirType::I64));
    let b = &l.builder;
    assert_eq!(call_parts(&b.stmts[0].stmt), (Some(LocalId(0)), "Vec_new".to_string(), vec![dbg(MirOperand::Constant(MirConst::Int(16)))]));
    assert_eq!(call_parts(&b.stmts[6].stmt), (Some(LocalId(6)), "split_words".to_string(), vec![dbg(local(5))]));
    assert_eq!(call_parts(&b.stmts[8].stmt).1, "Vec_len");
    assert!(matches!(
        &b.stmts[10].stmt,
        MirStmt::Assign { dst: LocalId(10), rvalue: MirRValue::BinaryOp { op: BinOp::Lt, left: MirOperand::Local(LocalId(9)), right: MirOperand::Local(LocalId(8)) } }
    ));
    // the inner loop falls back to the outer increment when done
    assert!(matches!(
        b.terms[5],
        Some(MirTerminator::Branch { cond: MirOperand::Local(LocalId(10)), then_block: BlockId(6), else_block: BlockId(3) })
    ));
    assert_eq!(call_parts(&b.stmts[12].stmt), (None, "Vec_push".to_string(), vec![dbg(local(0)), dbg(local(11))]));
    assert!(matches!(b.locals[11].ty, MirType::String));
    assert!(matches!(b.terms[7], Some(MirTerminator::Goto { target: BlockId(5) })));
    assert!(matches!(b.terms[3], Some(MirTerminator::Goto { target: BlockId(1) })));
    assert_eq!(b.current, BlockId(4));
    assert!(l.collected_elem_types.iter().any(|(k, t)| *k == LocalId(0) && matches!(t, MirType::String)));
}

#[test]
fn flat_map_without_a_recorded_type_reads_words() {
    let mut l = MirLowerer::new(empty_ctx());
    let _ = l.lower_iter_flat_map(&vec_chain(Vec::new()), "parts", None);
    assert_eq!(
        call_parts(&l.builder.stmts[0].stmt).2,
        vec![dbg(MirOperand::Constant(MirConst::Int(8)))]
    );
    assert!(matches!(l.builder.locals[11].ty, MirType::I64));
}

#[test]
fn reduce_needs_a_two_parameter_closure() {
    let mut l = MirLowerer::new(empty_ctx());
    match l.lower_iter_reduce(&vec_chain(Vec::new()), None) {
        Err(LoweringError::InvalidConstruct(m)) => assert_eq!(m, "reduce takes a closure"),
        other => panic!("expected an error, got {:?}", other),
    }
    let f = LiftedClosure { func: "inc".to_string(), n_params: 1, ret_ty: MirType::I64, ret_elem_ty: None };
    match l.lower_iter_reduce(&vec_chain(Vec::new()), Some(&f)) {
        Err(LoweringError::InvalidConstruct(m)) => assert_eq!(m, "reduce's closure takes two parameters"),
        other => panic!("expected an error, got {:?}", other),
    }
    assert_eq!(l.builder.stmts.len(), 0);
    assert_eq!(l.builder.locals.len(), 0);
    assert_eq!(l.builder.terms.len(), 1);
}
