use lib::control::ShortCircuit;
use lib::lowerer::{LocalMeta, LowerCtx, MirLowerer};
use lib::mir::{BinOp, BlockId, LocalId, MirConst, MirOperand, MirRValue, MirStmt, MirTerminator, MirType};
use lib::pointers::{PtrMethod, PtrSig};
use lib::types::Type;

fn empty_ctx() -> LowerCtx {
    LowerCtx {
        struct_layouts: Vec::new(),
        enum_layouts: Vec::new(),
        type_names: Vec::new(),
        shared_elem_types: Vec::new(),
        trait_methods: Vec::new(),
    }
}

fn local(n: usize) -> MirOperand {
    MirOperand::Local(LocalId(n))
}

fn ptr_to(t: Type) -> Type {
    Type::RawPtr(Box::new(t))
}

fn read_entry() -> PtrMethod {
    PtrMethod { mir_name: String::from("RawPtr_read"), has_c_symbol: true, scales_by_elem: true, sig: PtrSig::Read }
}

#[test]
fn pointee_sizes_follow_the_scalar() {
    let l = MirLowerer::new(empty_ctx());
    assert_eq!(l.pointee_size(Some(&ptr_to(Type::U8))), Some(1));
    assert_eq!(l.pointee_size(Some(&ptr_to(Type::Bool))), Some(1));
    assert_eq!(l.pointee_size(Some(&ptr_to(Type::I16))), Some(2));
    assert_eq!(l.pointee_size(Some(&ptr_to(Type::F32))), Some(4));
    assert_eq!(l.pointee_size(Some(&ptr_to(Type::I64))), Some(8));
    assert_eq!(l.pointee_size(Some(&ptr_to(Type::U128))), Some(8));
    assert_eq!(l.pointee_size(Some(&ptr_to(Type::Char))), Some(8));
    assert_eq!(l.pointee_size(Some(&ptr_to(Type::Named(3)))), None);
    assert_eq!(l.pointee_size(Some(&Type::I64)), None);
    assert_eq!(l.pointee_size(None), None);
}

#[test]
fn integral_pointees_exclude_floats_and_wide_integers() {
    let l = MirLowerer::new(empty_ctx());
    assert_eq!(l.integral_pointee_size(Some(&ptr_to(Type::U32))), Some(4));
    assert_eq!(l.integral_pointee_size(Some(&ptr_to(Type::I64))), Some(8));
    assert_eq!(l.integral_pointee_size(Some(&ptr_to(Type::F64))), None);
    assert_eq!(l.integral_pointee_size(Some(&ptr_to(Type::U128))), None);
    assert_eq!(l.integral_pointee_size(Some(&ptr_to(Type::Char))), None);
    assert_eq!(l.integral_pointee_size(Some(&Type::U8)), None);
}

#[test]
fn pointer_read_passes_the_pointee_size() {
    let mut l = MirLowerer::new(empty_ctx());
    let e = read_entry();
    let ty = ptr_to(Type::U16);
    let (op, rt) = l
        .try_lower_raw_ptr_method("read", Some(&e), None, None, Some(&ty), Vec::new(), &local(7), &MirType::Ptr)
        .unwrap();
    assert!(matches!(op, MirOperand::Local(LocalId(0))));
    assert!(matches!(rt, MirType::I64));
    assert!(matches!(l.builder.locals[0].ty, MirType::I64));
    match &l.builder.stmts[0].stmt {
        MirStmt::Call { dst, func, args } => {
            assert_eq!(*dst, Some(LocalId(0)));
            assert_eq!(func, "RawPtr_read");
            assert_eq!(args.len(), 2);
            assert!(matches!(args[0], MirOperand::Local(LocalId(7))));
            assert!(matches!(args[1], MirOperand::Constant(MirConst::Int(2))));
        },
        other => panic!("expected a call, got {:?}", other),
    }
}

#[test]
fn pointer_write_of_unknown_pointee_steps_by_a_word() {
    let mut l = MirLowerer::new(empty_ctx());
    let e = PtrMethod { mir_name: String::from("RawPtr_write"), has_c_symbol: true, scales_by_elem: true, sig: PtrSig::Write };
    let (_, rt) = l
        .try_lower_raw_ptr_method("write", Some(&e), None, None, None, vec![local(2)], &local(1), &MirType::Ptr)
        .unwrap();
    assert!(matches!(rt, MirType::Void));
    match &l.builder.stmts[0].stmt {
        MirStmt::Call { args, .. } => {
            assert_eq!(args.len(), 3);
            assert!(matches!(args[1], MirOperand::Local(LocalId(2))));
            assert!(matches!(args[2], MirOperand::Constant(MirConst::Int(8))));
        },
        other => panic!("expected a call, got {:?}", other),
    }
}

#[test]
fn pointer_predicates_return_bool_without_a_size() {
    let mut l = MirLowerer::new(empty_ctx());
    let e = PtrMethod { mir_name: String::from("RawPtr_is_null"), has_c_symbol: true, scales_by_elem: false, sig: PtrSig::Predicate };
    let (_, rt) = l
        .try_lower_raw_ptr_method("is_null", Some(&e), None, None, None, Vec::new(), &local(1), &MirType::Ptr)
        .unwrap();
    assert!(matches!(rt, MirType::Bool));
    match &l.builder.stmts[0].stmt {
        MirStmt::Call { args, .. } => assert_eq!(args.len(), 1),
        other => panic!("expected a call, got {:?}", other),
    }
}

#[test]
fn pointer_cast_is_the_pointer() {
    let mut l = MirLowerer::new(empty_ctx());
    let (op, rt) = l
        .try_lower_raw_ptr_method("cast", None, None, None, None, Vec::new(), &local(5), &MirType::Ptr)
        .unwrap();
    assert!(matches!(op, MirOperand::Local(LocalId(5))));
    assert!(matches!(rt, MirType::Ptr));
    assert_eq!(l.builder.stmts.len(), 0);
}

#[test]
fn smart_pointers_keep_their_own_methods() {
    let mut l = MirLowerer::new(empty_ctx());
    let e = read_entry();
    assert!(l
        .try_lower_raw_ptr_method("read", Some(&e), Some("Shared"), None, None, Vec::new(), &local(1), &MirType::Ptr)
        .is_none());
    l.meta.push((
        String::from("chan"),
        LocalMeta { elem_type: None, type_prefix: Some(String::from("Channel")), full_type: None },
    ));
    assert!(l
        .try_lower_raw_ptr_method("cast", None, None, Some("chan"), None, Vec::new(), &local(1), &MirType::Ptr)
        .is_none());
    assert!(l
        .try_lower_raw_ptr_method("read", Some(&e), Some("Vec"), Some("other"), None, Vec::new(), &local(1), &MirType::Ptr)
        .is_some());
    assert_eq!(l.builder.stmts.len(), 1);
}

#[test]
fn pointer_methods_need_a_pointer_and_a_runtime_symbol() {
    let mut l = MirLowerer::new(empty_ctx());
    let e = read_entry();
    assert!(l
        .try_lower_raw_ptr_method("read", Some(&e), None, None, None, Vec::new(), &local(1), &MirType::I64)
        .is_none());
    let no_sym = PtrMethod { mir_name: String::from("RawPtr_x"), has_c_symbol: false, scales_by_elem: false, sig: PtrSig::Read };
    assert!(l
        .try_lower_raw_ptr_method("x", Some(&no_sym), None, None, None, Vec::new(), &local(1), &MirType::Ptr)
        .is_none());
    assert!(l
        .try_lower_raw_ptr_method("nope", None, None, None, None, Vec::new(), &local(1), &MirType::Ptr)
        .is_none());
    assert_eq!(l.builder.stmts.len(), 0);
    assert_eq!(l.builder.locals.len(), 0);
}

#[test]
fn and_short_circuits_to_false() {
    let mut l = MirLowerer::new(empty_ctx());
    let sc = l.lower_short_circuit(BinOp::And, local(9));
    assert_eq!(sc, ShortCircuit { rhs_block: BlockId(1), merge_block: BlockId(3), result: LocalId(0) });
    match &l.builder.terms[0] {
        Some(MirTerminator::Branch { cond, then_block, else_block }) => {
            assert!(matches!(cond, MirOperand::Local(LocalId(9))));
            assert_eq!(*then_block, BlockId(1));
            assert_eq!(*else_block, BlockId(2));
        },
        other => panic!("expected a branch, got {:?}", other),
    }
    assert_eq!(l.builder.stmts[0].block, BlockId(2));
    assert!(matches!(
        l.builder.stmts[0].stmt,
        MirStmt::Assign { dst: LocalId(0), rvalue: MirRValue::Use(MirOperand::Constant(MirConst::Int(0))) }
    ));
    assert!(matches!(l.builder.terms[2], Some(MirTerminator::Goto { target: BlockId(3) })));
    assert_eq!(l.builder.current, BlockId(1));
    let (v, t) = l.finish_short_circuit(sc, local(4));
    assert!(matches!(v, MirOperand::Local(LocalId(0))));
    assert!(matches!(t, MirType::Bool));
    assert_eq!(l.builder.stmts[1].block, BlockId(1));
    assert!(matches!(
        l.builder.stmts[1].stmt,
        MirStmt::Assign { dst: LocalId(0), rvalue: MirRValue::Use(MirOperand::Local(LocalId(4))) }
    ));
    assert!(matches!(l.builder.terms[1], Some(MirTerminator::Goto { target: BlockId(3) })));
    assert_eq!(l.builder.current, BlockId(3));
    assert!(l.builder.terms[3].is_none());
}

#[test]
fn or_short_circuits_to_true() {
    let mut l = MirLowerer::new(empty_ctx());
    let sc = l.lower_short_circuit(BinOp::Or, local(9));
    match &l.builder.terms[0] {
        Some(MirTerminator::Branch { then_block, else_block, .. }) => {
            assert_eq!(*then_block, BlockId(2));
            assert_eq!(*else_block, BlockId(1));
        },
        other => panic!("expected a branch, got {:?}", other),
    }
    assert!(matches!(
        l.builder.stmts[0].stmt,
        MirStmt::Assign { rvalue: MirRValue::Use(MirOperand::Constant(MirConst::Int(1))), .. }
    ));
    // The right operand ended its block (it returned): nothing is added there.
    l.builder.terminate(MirTerminator::Return);
    l.finish_short_circuit(sc, local(4));
    assert_eq!(l.builder.stmts.len(), 1);
    assert!(matches!(l.builder.terms[1], Some(MirTerminator::Return)));
    assert_eq!(l.builder.current, BlockId(3));
}

#[test]
fn if_else_meets_in_one_block() {
    let mut l = MirLowerer::new(empty_ctx());
    let blocks = l.lower_if(local(5));
    assert_eq!(blocks.then_block, BlockId(1));
    assert_eq!(blocks.else_block, BlockId(2));
    assert_eq!(blocks.merge_block, BlockId(3));
    assert!(matches!(
        l.builder.terms[0],
        Some(MirTerminator::Branch { then_block: BlockId(1), else_block: BlockId(2), .. })
    ));
    assert_eq!(l.builder.current, BlockId(1));
    let result = l.lower_if_then(blocks, MirOperand::Constant(MirConst::Int(10)), MirType::I64);
    assert_eq!(result, LocalId(0));
    assert!(matches!(l.builder.locals[0].ty, MirType::I64));
    assert_eq!(l.builder.stmts[0].block, BlockId(1));
    assert!(matches!(l.builder.terms[1], Some(MirTerminator::Goto { target: BlockId(3) })));
    assert_eq!(l.builder.current, BlockId(2));
    let (v, t) = l.finish_if(blocks, result, Some(MirOperand::Constant(MirConst::Int(20))), MirType::I64);
    assert!(matches!(v, MirOperand::Local(LocalId(0))));
    assert!(matches!(t, MirType::I64));
    assert_eq!(l.builder.stmts[1].block, BlockId(2));
    assert!(matches!(
        l.builder.stmts[1].stmt,
        MirStmt::Assign { dst: LocalId(0), rvalue: MirRValue::Use(MirOperand::Constant(MirConst::Int(20))) }
    ));
    assert!(matches!(l.builder.terms[2], Some(MirTerminator::Goto { target: BlockId(3) })));
    assert_eq!(l.builder.current, BlockId(3));
}

#[test]
fn if_without_else_still_reaches_the_merge() {
    let mut l = MirLowerer::new(empty_ctx());
    let blocks = l.lower_if(local(5));
    l.builder.terminate(MirTerminator::Return);
    let result = l.lower_if_then(blocks, local(6), MirType::Void);
    assert_eq!(l.builder.stmts.len(), 0);
    assert!(matches!(l.builder.terms[1], Some(MirTerminator::Return)));
    l.finish_if(blocks, result, None, MirType::Void);
    assert_eq!(l.builder.stmts.len(), 0);
    assert!(matches!(l.builder.terms[2], Some(MirTerminator::Goto { target: BlockId(3) })));
    assert_eq!(l.builder.current, BlockId(3));
}
