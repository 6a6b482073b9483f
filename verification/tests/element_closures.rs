use lib::lowerer::{LowerCtx, MirLowerer};
use lib::mir::{BinOp, BlockId, LocalId, MirConst, MirOperand, MirRValue, MirStmt, MirTerminator, MirType};

fn ctx() -> LowerCtx {
    LowerCtx {
        struct_layouts: Vec::new(),
        enum_layouts: Vec::new(),
        type_names: Vec::new(),
        shared_elem_types: Vec::new(),
        trait_methods: Vec::new(),
    }
}

fn call_name(s: &MirStmt) -> String {
    match s {
        MirStmt::Call { func, .. } => func.clone(),
        other => panic!("expected a call, got {:?}", other),
    }
}

#[test]
fn element_access_tests_the_range_then_reads() {
    let mut l = MirLowerer::new(ctx());
    let acc = l
        .lower_vec_element_closure(MirOperand::Local(LocalId(40)), &MirType::Ptr, Some(&MirType::String), MirOperand::Constant(MirConst::Int(2)))
        .unwrap();
    assert_eq!(acc.collection, LocalId(0));
    assert_eq!(acc.idx, LocalId(1));
    assert_eq!(acc.result, LocalId(6));
    assert_eq!(acc.elem, LocalId(7));
    assert!(matches!(l.builder.locals[7].ty, MirType::String));
    assert_eq!(call_name(&l.builder.stmts[2].stmt), "Vec_len");
    assert!(matches!(
        l.builder.stmts[3].stmt,
        MirStmt::Assign { dst: LocalId(3), rvalue: MirRValue::BinaryOp { op: BinOp::Ge, .. } }
    ));
    assert!(matches!(
        l.builder.stmts[5].stmt,
        MirStmt::Assign { dst: LocalId(5), rvalue: MirRValue::BinaryOp { op: BinOp::And, .. } }
    ));
    assert!(matches!(
        l.builder.terms[0],
        Some(MirTerminator::Branch { cond: MirOperand::Local(LocalId(5)), then_block: BlockId(1), else_block: BlockId(2) })
    ));
    assert_eq!(l.builder.stmts[6].block, BlockId(1));
    assert_eq!(call_name(&l.builder.stmts[6].stmt), "Vec_get");
    assert_eq!(l.builder.current, BlockId(1));
}

#[test]
fn modify_writes_the_parameter_back() {
    let mut l = MirLowerer::new(ctx());
    let acc = l
        .lower_vec_element_closure(MirOperand::Local(LocalId(40)), &MirType::Ptr, None, MirOperand::Constant(MirConst::Int(0)))
        .unwrap();
    assert!(matches!(l.builder.locals[7].ty, MirType::I64));
    let (op, ty) = l.finish_vec_element_closure(acc, "modify", MirOperand::Local(LocalId(9)), MirType::Bool, Some(LocalId(8)));
    assert!(matches!(op, MirOperand::Local(LocalId(6))));
    assert!(matches!(ty, MirType::Option(ref t) if matches!(**t, MirType::Bool)));
    assert!(matches!(l.builder.locals[6].ty, MirType::Option(ref t) if matches!(**t, MirType::Bool)));
    assert_eq!(call_name(&l.builder.stmts[7].stmt), "Vec_set");
    assert!(matches!(l.builder.stmts[8].stmt, MirStmt::Store { addr: LocalId(6), offset: 0, value: MirOperand::Constant(MirConst::Int(0)), store_size: None }));
    assert!(matches!(l.builder.stmts[9].stmt, MirStmt::Store { addr: LocalId(6), offset: 8, store_size: Some(1), .. }));
    assert_eq!(l.builder.stmts[10].block, BlockId(2));
    assert!(matches!(l.builder.stmts[10].stmt, MirStmt::Store { offset: 0, value: MirOperand::Constant(MirConst::Int(1)), .. }));
    assert!(matches!(l.builder.terms[1], Some(MirTerminator::Goto { target: BlockId(3) })));
    assert!(matches!(l.builder.terms[2], Some(MirTerminator::Goto { target: BlockId(3) })));
    assert_eq!(l.builder.current, BlockId(3));
}

#[test]
fn read_leaves_the_vec_alone_and_sizes_empty_payloads() {
    let mut l = MirLowerer::new(ctx());
    let acc = l
        .lower_vec_element_closure(MirOperand::Local(LocalId(40)), &MirType::Ptr, None, MirOperand::Constant(MirConst::Int(0)))
        .unwrap();
    l.finish_vec_element_closure(acc, "read", MirOperand::Constant(MirConst::Int(0)), MirType::Void, Some(LocalId(8)));
    assert!(l.builder.stmts.iter().all(|s| !matches!(&s.stmt, MirStmt::Call { func, .. } if func == "Vec_set")));
    assert!(matches!(l.builder.stmts[8].stmt, MirStmt::Store { offset: 8, store_size: Some(1), .. }));
}

#[test]
fn element_access_needs_a_pointer_receiver() {
    let mut l = MirLowerer::new(ctx());
    assert!(l
        .lower_vec_element_closure(MirOperand::Local(LocalId(40)), &MirType::I64, None, MirOperand::Constant(MirConst::Int(0)))
        .is_none());
    assert_eq!(l.builder.stmts.len(), 0);
    assert_eq!(l.builder.locals.len(), 0);
}

#[test]
fn map_modify_tests_the_key_and_inserts_back() {
    let mut l = MirLowerer::new(ctx());
    let acc = l.lower_map_value_closure(
        MirOperand::Local(LocalId(40)),
        &MirType::Ptr,
        Some(&MirType::I64),
        MirOperand::Constant(MirConst::String("k".to_string())),
        &MirType::String,
    );
    assert!(acc.on_map);
    assert_eq!(acc.result, LocalId(3));
    assert_eq!(acc.elem, LocalId(4));
    assert_eq!(call_name(&l.builder.stmts[2].stmt), "Map_contains_key");
    assert!(matches!(
        l.builder.terms[0],
        Some(MirTerminator::Branch { cond: MirOperand::Local(LocalId(2)), then_block: BlockId(1), else_block: BlockId(2) })
    ));
    assert_eq!(call_name(&l.builder.stmts[3].stmt), "Map_get_unwrap");
    l.finish_vec_element_closure(acc, "modify", MirOperand::Local(LocalId(4)), MirType::I64, Some(LocalId(5)));
    assert_eq!(call_name(&l.builder.stmts[4].stmt), "Map_insert");
    assert_eq!(l.builder.current, BlockId(3));
}

#[test]
fn entry_modify_inserts_the_default_first() {
    let mut l = MirLowerer::new(ctx());
    let entry = l.lower_map_entry_modify(
        MirOperand::Local(LocalId(40)),
        &MirType::Ptr,
        None,
        MirOperand::Constant(MirConst::String("k".to_string())),
        &MirType::String,
    );
    assert_eq!(entry.map, LocalId(0));
    assert_eq!(entry.key, LocalId(1));
    assert_eq!(entry.have_block, BlockId(2));
    assert!(matches!(
        l.builder.terms[0],
        Some(MirTerminator::Branch { cond: MirOperand::Local(LocalId(2)), then_block: BlockId(2), else_block: BlockId(1) })
    ));
    assert_eq!(l.builder.current, BlockId(1));
    let value = l.map_entry_insert_default(&entry, MirOperand::Constant(MirConst::Int(0)));
    assert_eq!(value, LocalId(3));
    assert_eq!(call_name(&l.builder.stmts[3].stmt), "Map_insert");
    assert_eq!(l.builder.stmts[3].block, BlockId(1));
    assert!(matches!(l.builder.terms[1], Some(MirTerminator::Goto { target: BlockId(2) })));
    assert_eq!(call_name(&l.builder.stmts[4].stmt), "Map_get_unwrap");
    assert_eq!(l.builder.stmts[4].block, BlockId(2));
    let (op, ty) = l.finish_map_entry_modify(&entry, MirOperand::Local(LocalId(5)), MirType::I64, Some(LocalId(6)));
    assert!(matches!(op, MirOperand::Local(LocalId(5))));
    assert!(matches!(ty, MirType::I64));
    assert_eq!(call_name(&l.builder.stmts[5].stmt), "Map_insert");
}
