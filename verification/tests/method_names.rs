use lib::lowerer::{LowerCtx, LoweringError, MirLowerer};
use lib::method_names::{final_callee, has_prefix, qualified_method_name, regular_method};
use lib::mir::{LocalId, MirConst, MirOperand, MirRValue, MirStmt, MirType};

fn ctx() -> LowerCtx {
    LowerCtx {
        struct_layouts: Vec::new(),
        enum_layouts: Vec::new(),
        type_names: Vec::new(),
        shared_elem_types: Vec::new(),
        trait_methods: Vec::new(),
    }
}

fn result_of(t: MirType) -> MirType {
    MirType::Result { ok: Box::new(t), err: Box::new(MirType::I64) }
}

#[test]
fn method_name_takes_its_type_argument_and_float_parse() {
    assert_eq!(regular_method("get", None, None), "get");
    assert_eq!(regular_method("decode", Some("Point"), None), "decode_Point");
    assert_eq!(regular_method("parse", None, Some(&result_of(MirType::F32))), "parse_f32");
    assert_eq!(regular_method("parse", None, Some(&result_of(MirType::F64))), "parse_f64");
    assert_eq!(regular_method("parse", None, Some(&result_of(MirType::I32))), "parse");
}

#[test]
fn qualified_name_needs_a_real_prefix() {
    assert_eq!(qualified_method_name(Some("Vec<i64>"), "push", None).unwrap(), "Vec_push");
    assert_eq!(qualified_method_name(Some(" Map <string, i64>"), "get", None).unwrap(), "Map_get");
    assert_eq!(qualified_method_name(Some("Vec"), "push", Some("Vec_push_front")).unwrap(), "Vec_push_front");
    match qualified_method_name(Some("T"), "len", None) {
        Err(LoweringError::InvalidConstruct(m)) => assert_eq!(
            m,
            "method `len` on receiver of unresolved type — dispatch could not determine a stdlib type prefix"
        ),
        other => panic!("expected an error, got {:?}", other),
    }
    assert!(matches!(qualified_method_name(None, "len", None), Err(LoweringError::InvalidConstruct(_))));
    // a two-letter base is a type, not a parameter
    assert_eq!(qualified_method_name(Some("Io"), "open", None).unwrap(), "Io_open");
}

#[test]
fn final_names_follow_the_slot_and_the_elements() {
    let void = MirType::Void;
    assert_eq!(final_callee("string_parse", &result_of(MirType::U8), 1, false, false, false).0, "string_parse_u8");
    assert_eq!(final_callee("string_parse_i64", &result_of(MirType::F32), 1, false, false, false).0, "string_parse_f32");
    assert_eq!(final_callee("string_parse", &MirType::I64, 1, false, false, false).0, "string_parse");
    assert_eq!(final_callee("Pool_alloc", &void, 2, false, false, false).0, "Pool_insert");
    assert_eq!(final_callee("Pool_alloc", &void, 1, false, false, false).0, "Pool_alloc");
    assert_eq!(final_callee("Vec_get", &void, 2, false, false, false).0, "Vec_get_opt");
    assert_eq!(final_callee("Vec_join", &void, 2, true, false, false).0, "Vec_join");
    assert_eq!(final_callee("Vec_join", &void, 2, false, false, false).0, "Vec_join_i64");
    assert_eq!(final_callee("Vec_sort", &void, 1, false, true, true).0, "Vec_sort_f64");
    assert_eq!(final_callee("Vec_sort", &void, 1, true, false, true).0, "Vec_sort_str");
    assert_eq!(final_callee("Vec_sort", &void, 1, false, false, true), ("Vec_sort_by".to_string(), true));
    assert_eq!(final_callee("Vec_sort", &void, 1, false, false, false).0, "Vec_sort");
    assert_eq!(final_callee("Vec_contains", &void, 2, true, false, false).0, "Vec_contains_str");
    assert_eq!(final_callee("Map_len", &void, 1, false, false, false).0, "Map_len");
    assert!(has_prefix("f64_sqrt", "f64_"));
    assert!(!has_prefix("f6", "f64_"));
}

#[test]
fn a_regular_call_goes_to_the_final_name() {
    let mut l = MirLowerer::new(ctx());
    let r = l.lower_regular_method_call(
        "get",
        None,
        None,
        Some("Vec<i64>"),
        None,
        MirOperand::Local(LocalId(7)),
        &MirType::Ptr,
        vec![MirOperand::Constant(MirConst::Int(0))],
        MirType::Option(Box::new(MirType::I64)),
        false,
        false,
        None,
    );
    let (op, ty) = r.unwrap();
    assert!(matches!(op, MirOperand::Local(LocalId(0))));
    assert!(matches!(ty, MirType::Option(_)));
    match &l.builder.stmts[0].stmt {
        MirStmt::Call { dst, func, args } => {
            assert_eq!(*dst, Some(LocalId(0)));
            assert_eq!(func, "Vec_get_opt");
            assert_eq!(args.len(), 2);
        }
        other => panic!("expected a call, got {:?}", other),
    }
    // sorting with the element type's compare passes it along
    let _ = l
        .lower_regular_method_call(
            "sort",
            None,
            None,
            Some("Vec"),
            None,
            MirOperand::Local(LocalId(7)),
            &MirType::Ptr,
            Vec::new(),
            MirType::Void,
            false,
            false,
            Some(MirOperand::Local(LocalId(8))),
        )
        .unwrap();
    match &l.builder.stmts[1].stmt {
        MirStmt::Call { func, args, .. } => {
            assert_eq!(func, "Vec_sort_by");
            assert!(matches!(args[1], MirOperand::Local(LocalId(8))));
        }
        other => panic!("expected a call, got {:?}", other),
    }
}

#[test]
fn an_f32_receiver_narrows_an_f64_runtime_result() {
    let mut l = MirLowerer::new(ctx());
    let (op, ty) = l
        .lower_regular_method_call(
            "sqrt",
            None,
            None,
            Some("f64"),
            None,
            MirOperand::Local(LocalId(3)),
            &MirType::F32,
            Vec::new(),
            MirType::F64,
            false,
            false,
            None,
        )
        .unwrap();
    assert!(matches!(op, MirOperand::Local(LocalId(1))));
    assert!(matches!(ty, MirType::F32));
    assert!(matches!(
        l.builder.stmts[1].stmt,
        MirStmt::Assign { dst: LocalId(1), rvalue: MirRValue::Cast { value: MirOperand::Local(LocalId(0)), target_ty: MirType::F32 } }
    ));
}

#[test]
fn a_call_on_an_unresolved_receiver_emits_nothing() {
    let mut l = MirLowerer::new(ctx());
    let r = l.lower_regular_method_call(
        "len",
        None,
        None,
        Some("T"),
        None,
        MirOperand::Local(LocalId(3)),
        &MirType::Ptr,
        Vec::new(),
        MirType::I64,
        false,
        false,
        None,
    );
    assert!(matches!(r, Err(LoweringError::InvalidConstruct(_))));
    assert_eq!(l.builder.stmts.len(), 0);
    assert_eq!(l.builder.locals.len(), 0);
}

#[test]
fn pushing_a_link_records_the_edge() {
    let mut l = MirLowerer::new(ctx());
    let link = l.builder.alloc_temp(MirType::Link(Box::new(MirType::I64)));
    let (op, _) = l
        .lower_regular_method_call(
            "push",
            None,
            None,
            Some("Vec<Link<i64>>"),
            None,
            MirOperand::Local(LocalId(7)),
            &MirType::Ptr,
            vec![MirOperand::Local(link)],
            MirType::Void,
            false,
            false,
            None,
        )
        .unwrap();
    assert!(matches!(op, MirOperand::Local(LocalId(1))));
    assert_eq!(l.builder.stmts.len(), 2);
    match &l.builder.stmts[1].stmt {
        MirStmt::Call { dst, func, args } => {
            assert_eq!(*dst, None);
            assert_eq!(func, "Link_register_element");
            assert!(matches!(args[0], MirOperand::Local(LocalId(7))));
            assert!(matches!(args[1], MirOperand::Local(LocalId(0))));
        }
        other => panic!("expected the edge, got {:?}", other),
    }
    // a plain value records nothing
    l.lower_regular_method_call(
        "push",
        None,
        None,
        Some("Vec<i64>"),
        None,
        MirOperand::Local(LocalId(7)),
        &MirType::Ptr,
        vec![MirOperand::Constant(MirConst::Int(1))],
        MirType::Void,
        false,
        false,
        None,
    )
    .unwrap();
    assert_eq!(l.builder.stmts.len(), 3);
}
