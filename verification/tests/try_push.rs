use lib::lowerer::{EnumLayout, LowerCtx, MirLowerer, VariantLayout};
use lib::mir::{BlockId, EnumLayoutId, LocalId, MirConst, MirOperand, MirStmt, MirTerminator, MirType};

fn grow_error_ctx() -> LowerCtx {
    let mut ctx = LowerCtx {
        struct_layouts: Vec::new(),
        enum_layouts: Vec::new(),
        type_names: Vec::new(),
        shared_elem_types: Vec::new(),
        trait_methods: Vec::new(),
    };
    ctx.enum_layouts.push(EnumLayout {
        name: "GrowError".to_string(),
        size: 16,
        align: 8,
        tag_offset: 0,
        variants: vec![VariantLayout { name: "Full".to_string(), tag: 3, payload_offset: 8, fields: Vec::new() }],
    });
    ctx
}

fn grow_result() -> MirType {
    MirType::Result {
        ok: Box::new(MirType::Void),
        err: Box::new(MirType::Enum(EnumLayoutId { id: 0, size: 16, align: 8 })),
    }
}

fn recv() -> MirOperand {
    MirOperand::Local(LocalId(100))
}

fn one_arg() -> Vec<(MirOperand, MirType)> {
    vec![(MirOperand::Constant(MirConst::Int(7)), MirType::I64)]
}

#[test]
fn try_push_checks_the_bound_then_builds_full_or_pushes() {
    let mut l = MirLowerer::new(grow_error_ctx());
    let ty = grow_result();
    let r = l.try_lower_try_push("try_push", &recv(), &MirType::Ptr, Some(&ty), &one_arg());
    let (op, rty) = r.expect("a try_push on a pointer receiver is lowered");
    assert!(matches!(op, MirOperand::Local(LocalId(1))));
    assert!(matches!(rty, MirType::Result { .. }));
    assert_eq!(l.builder.locals.len(), 4);
    match &l.builder.stmts[0].stmt {
        MirStmt::Call { dst, func, args } => {
            assert_eq!(*dst, Some(LocalId(0)));
            assert_eq!(func, "Vec_is_full");
            assert_eq!(args.len(), 1);
        }
        other => panic!("expected the bound check, got {:?}", other),
    }
    assert!(matches!(
        &l.builder.terms[0],
        Some(MirTerminator::Branch { cond: MirOperand::Local(LocalId(0)), then_block: BlockId(1), else_block: BlockId(2) })
    ));
    // When full: the error gets Full's tag and the value, the result tag 1.
    assert_eq!(l.builder.stmts[1].block, BlockId(1));
    assert!(matches!(
        &l.builder.stmts[1].stmt,
        MirStmt::Store { addr: LocalId(2), offset: 0, value: MirOperand::Constant(MirConst::Int(3)), store_size: None }
    ));
    assert!(matches!(
        &l.builder.stmts[2].stmt,
        MirStmt::Store { addr: LocalId(2), offset: 8, value: MirOperand::Constant(MirConst::Int(7)), store_size: None }
    ));
    assert!(matches!(
        &l.builder.stmts[3].stmt,
        MirStmt::Store { addr: LocalId(1), offset: 0, value: MirOperand::Constant(MirConst::Int(1)), .. }
    ));
    assert!(matches!(
        &l.builder.stmts[4].stmt,
        MirStmt::Store { addr: LocalId(1), offset: 24, value: MirOperand::Local(LocalId(2)), store_size: Some(16) }
    ));
    // Room left: the push and the result tag 0.
    assert_eq!(l.builder.stmts[5].block, BlockId(2));
    match &l.builder.stmts[5].stmt {
        MirStmt::Call { func, args, .. } => {
            assert_eq!(func, "Vec_push");
            assert_eq!(args.len(), 2);
        }
        other => panic!("expected the push, got {:?}", other),
    }
    assert!(matches!(
        &l.builder.stmts[6].stmt,
        MirStmt::Store { addr: LocalId(1), offset: 0, value: MirOperand::Constant(MirConst::Int(0)), .. }
    ));
    assert!(matches!(&l.builder.terms[1], Some(MirTerminator::Goto { target: BlockId(3) })));
    assert!(matches!(&l.builder.terms[2], Some(MirTerminator::Goto { target: BlockId(3) })));
    assert_eq!(l.builder.current, BlockId(3));
}

#[test]
fn try_push_leaves_other_receivers_and_types_alone() {
    let ty = grow_result();
    let mut l = MirLowerer::new(grow_error_ctx());
    assert!(l.try_lower_try_push("try_push", &recv(), &MirType::I64, Some(&ty), &one_arg()).is_none());
    assert!(l.try_lower_try_push("push", &recv(), &MirType::Ptr, Some(&ty), &one_arg()).is_none());
    assert!(l.try_lower_try_push("try_push", &recv(), &MirType::Ptr, None, &one_arg()).is_none());
    let plain = MirType::Result { ok: Box::new(MirType::Void), err: Box::new(MirType::String) };
    assert!(l.try_lower_try_push("try_push", &recv(), &MirType::Ptr, Some(&plain), &one_arg()).is_none());
    assert_eq!(l.builder.stmts.len(), 0);
    assert_eq!(l.builder.locals.len(), 0);
}
