use lib::lowerer::{LowerCtx, MirLowerer};
use lib::mir::{BinOp, LocalId, MirConst, MirOperand, MirRValue, MirStmt, MirType};
use lib::types::Type;

fn empty_ctx() -> LowerCtx {
    LowerCtx {
        struct_layouts: Vec::new(),
        enum_layouts: Vec::new(),
        type_names: Vec::new(),
        shared_elem_types: Vec::new(),
        trait_methods: Vec::new(),
    }
}

fn local(n: usize) -> MirOperand {
    MirOperand::Local(LocalId(n))
}

fn call(s: &MirStmt) -> (Option<LocalId>, String, usize) {
    match s {
        MirStmt::Call { dst, func, args } => (*dst, func.clone(), args.len()),
        other => panic!("not a call: {:?}", other),
    }
}

#[test]
fn string_compare_shifts_onto_ordering_tags() {
    let mut l = MirLowerer::new(empty_ctx());
    let (op, ty) = l.try_lower_string_compare("compare", &vec![local(4)], None, &local(3), &MirType::String).unwrap();
    assert_eq!(call(&l.builder.stmts[0].stmt), (Some(LocalId(0)), "string_compare".to_string(), 2));
    assert!(matches!(
        &l.builder.stmts[1].stmt,
        MirStmt::Assign { dst: LocalId(1), rvalue: MirRValue::BinaryOp { op: BinOp::Add, left: MirOperand::Local(LocalId(0)), right: MirOperand::Constant(MirConst::Int(1)) } }
    ));
    // no comparison enum registered: the tag itself
    assert!(matches!(op, MirOperand::Local(LocalId(1))));
    assert!(matches!(ty, MirType::I64));
}

#[test]
fn string_predicates_answer_bools() {
    let mut l = MirLowerer::new(empty_ctx());
    let (op, ty) = l.try_lower_string_compare("le", &vec![local(4)], None, &local(3), &MirType::String).unwrap();
    assert_eq!(call(&l.builder.stmts[0].stmt), (Some(LocalId(0)), "string_le".to_string(), 2));
    assert!(matches!(op, MirOperand::Local(LocalId(0))));
    assert!(matches!(ty, MirType::Bool));
    // a receiver whose MIR type was lost, but recorded as a string
    let _ = l.try_lower_string_compare("eq", &vec![local(4)], Some(&Type::String), &local(3), &MirType::Ptr).unwrap();
    assert_eq!(call(&l.builder.stmts[1].stmt).1, "string_eq");
}

#[test]
fn string_compare_refuses_other_receivers_and_methods() {
    let mut l = MirLowerer::new(empty_ctx());
    assert!(l.try_lower_string_compare("lt", &vec![local(4)], None, &local(3), &MirType::I64).is_none());
    assert!(l.try_lower_string_compare("ne", &vec![local(4)], None, &local(3), &MirType::String).is_none());
    assert!(l.try_lower_string_compare("lt", &Vec::new(), None, &local(3), &MirType::String).is_none());
    assert!(l.builder.stmts.is_empty());
}

#[test]
fn interpolation_concatenates() {
    let mut l = MirLowerer::new(empty_ctx());
    let (op, ty) = l.try_lower_string_concat("__concat", &vec![local(4)], &local(3), &MirType::String).unwrap();
    assert_eq!(call(&l.builder.stmts[0].stmt), (Some(LocalId(0)), "concat".to_string(), 2));
    assert!(matches!(op, MirOperand::Local(LocalId(0))));
    assert!(matches!(ty, MirType::String));
    assert!(l.try_lower_string_concat("__concat", &vec![local(4)], &local(3), &MirType::I64).is_none());
    assert!(l.try_lower_string_concat("concat", &vec![local(4)], &local(3), &MirType::String).is_none());
    assert_eq!(l.builder.stmts.len(), 1);
}

fn renderer_of(ty: MirType) -> String {
    let mut l = MirLowerer::new(empty_ctx());
    let (op, rt) = l.try_lower_to_string("to_string", &Vec::new(), false, false, &local(3), &ty).unwrap();
    assert!(matches!(op, MirOperand::Local(LocalId(0))));
    assert!(matches!(rt, MirType::String));
    assert!(matches!(l.builder.locals[0].ty, MirType::String));
    match &l.builder.stmts[0].stmt {
        MirStmt::Call { dst, func, args } => {
            assert_eq!(*dst, Some(LocalId(0)));
            assert_eq!(args.len(), 1);
            assert!(matches!(args[0], MirOperand::Local(LocalId(3))));
            func.clone()
        },
        other => panic!("expected a call, got {:?}", other),
    }
}

#[test]
fn to_string_picks_the_renderer_by_type() {
    assert_eq!(renderer_of(MirType::I32), "i64_to_string");
    assert_eq!(renderer_of(MirType::U8), "u64_to_string");
    assert_eq!(renderer_of(MirType::U128), "u128_to_string");
    assert_eq!(renderer_of(MirType::I128), "i128_to_string");
    assert_eq!(renderer_of(MirType::F32), "f32_to_string");
    assert_eq!(renderer_of(MirType::Bool), "bool_to_string");
    assert_eq!(renderer_of(MirType::Char), "char_to_string");
    assert_eq!(renderer_of(MirType::Ptr), "i64_to_string");
}

#[test]
fn to_string_of_a_string_is_the_string() {
    let mut l = MirLowerer::new(empty_ctx());
    let (op, rt) = l.try_lower_to_string("to_string", &Vec::new(), false, false, &local(3), &MirType::String).unwrap();
    assert!(matches!(op, MirOperand::Local(LocalId(3))));
    assert!(matches!(rt, MirType::String));
    assert_eq!(l.builder.stmts.len(), 0);
}

#[test]
fn to_string_of_its_own_is_left_to_dispatch() {
    let mut l = MirLowerer::new(empty_ctx());
    assert!(l.try_lower_to_string("to_string", &Vec::new(), true, false, &local(3), &MirType::I64).is_none());
    assert!(l.try_lower_to_string("to_string", &Vec::new(), false, true, &local(3), &MirType::I64).is_none());
    assert!(l.try_lower_to_string("to_string", &vec![local(1)], false, false, &local(3), &MirType::I64).is_none());
    assert!(l.try_lower_to_string("to_str", &Vec::new(), false, false, &local(3), &MirType::I64).is_none());
    assert_eq!(l.builder.stmts.len(), 0);
    assert_eq!(l.builder.locals.len(), 0);
}
