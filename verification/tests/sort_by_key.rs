use lib::lowerer::{LowerCtx, MirLowerer};
use lib::mir::{BinOp, BlockId, LocalId, MirConst, MirOperand, MirRValue, MirStmt, MirTerminator, MirType};

fn empty_ctx() -> LowerCtx {
    LowerCtx {
        struct_layouts: Vec::new(),
        enum_layouts: Vec::new(),
        type_names: Vec::new(),
        shared_elem_types: Vec::new(),
        trait_methods: Vec::new(),
    }
}

fn call_parts(s: &MirStmt) -> (Option<LocalId>, String, Vec<String>) {
    match s {
        MirStmt::Call { dst, func, args } => (*dst, func.clone(), args.iter().map(|a| format!("{:?}", a)).collect()),
        other => panic!("not a call: {:?}", other),
    }
}

#[test]
fn sort_by_key_extracts_keys_then_insertion_sorts() {
    let mut l = MirLowerer::new(empty_ctx());
    let (op, ty) = l.lower_iter_sort_by_key(
        &MirOperand::Local(LocalId(40)),
        &MirType::Ptr,
        Some(&MirType::I64),
        "key_of",
        &MirType::I64,
    );
    assert!(matches!(op, MirOperand::Constant(MirConst::Int(0))));
    assert!(matches!(ty, MirType::Void));
    let b = &l.builder;
    assert_eq!(b.locals.len(), 17);
    assert_eq!(b.stmts.len(), 24);
    assert!(matches!(&b.stmts[0].stmt, MirStmt::Assign { dst: LocalId(0), rvalue: MirRValue::Use(MirOperand::Local(LocalId(40))) }));
    // the keys Vec is sized for the key type
    let (d2, f2, a2) = call_parts(&b.stmts[2].stmt);
    assert_eq!((d2, f2.as_str()), (Some(LocalId(2)), "Vec_new"));
    assert_eq!(a2, vec![format!("{:?}", MirOperand::Constant(MirConst::Int(8)))]);
    // each key extracted once through the key function
    let (d6, f6, _) = call_parts(&b.stmts[6].stmt);
    assert_eq!((d6, f6.as_str()), (Some(LocalId(6)), "key_of"));
    assert_eq!(b.stmts[6].block, BlockId(2));
    assert_eq!(call_parts(&b.stmts[7].stmt).1, "Vec_push");
    // the comparison is strict, so equal keys never swap
    assert!(matches!(
        &b.stmts[17].stmt,
        MirStmt::Assign { dst: LocalId(15), rvalue: MirRValue::BinaryOp { op: BinOp::Lt, left: MirOperand::Local(LocalId(13)), right: MirOperand::Local(LocalId(14)) } }
    ));
    assert_eq!(call_parts(&b.stmts[18].stmt).1, "Vec_swap");
    assert_eq!(call_parts(&b.stmts[19].stmt).1, "Vec_swap");
    assert_eq!(call_parts(&b.stmts[23].stmt).1, "Vec_free");
    assert_eq!(b.stmts[23].block, BlockId(8));
    assert!(matches!(b.terms[0], Some(MirTerminator::Goto { target: BlockId(1) })));
    assert!(matches!(
        b.terms[10],
        Some(MirTerminator::Branch { cond: MirOperand::Local(LocalId(15)), then_block: BlockId(11), else_block: BlockId(7) })
    ));
    assert!(matches!(b.terms[11], Some(MirTerminator::Goto { target: BlockId(9) })));
    assert!(b.terms[8].is_none());
    assert_eq!(b.terms.len(), 12);
    assert_eq!(b.current, BlockId(8));
}

#[test]
fn string_keys_compare_through_the_runtime() {
    let mut l = MirLowerer::new(empty_ctx());
    let _ = l.lower_iter_sort_by_key(&MirOperand::Local(LocalId(3)), &MirType::Ptr, None, "name_of", &MirType::String);
    let b = &l.builder;
    // no recorded element type: the element is read as an i64
    assert!(matches!(b.locals[5].ty, MirType::I64));
    assert!(matches!(b.locals[13].ty, MirType::String));
    let (_, f2, a2) = call_parts(&b.stmts[2].stmt);
    assert_eq!(f2, "Vec_new");
    assert_eq!(a2, vec![format!("{:?}", MirOperand::Constant(MirConst::Int(16)))]);
    let (d17, f17, _) = call_parts(&b.stmts[17].stmt);
    assert_eq!((d17, f17.as_str()), (Some(LocalId(15)), "string_lt"));
}
