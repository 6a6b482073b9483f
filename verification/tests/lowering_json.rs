use lib::lowerer::{EnumLayout, LowerCtx, LoweringError, MirLowerer, StructLayout, VariantLayout};
use lib::mir::{BlockId, LocalId, MirConst, MirOperand, MirStmt, MirTerminator, MirType};
use lib::types::{ArgList, GenericArg, Type};

fn ctx_with_names(names: &[&str]) -> LowerCtx {
    LowerCtx {
        struct_layouts: Vec::new(),
        enum_layouts: Vec::new(),
        type_names: names.iter().map(|s| s.to_string()).collect(),
        shared_elem_types: Vec::new(),
        trait_methods: Vec::new(),
    }
}

fn json_error_layout(with: &[(&str, u64, u32)]) -> EnumLayout {
    EnumLayout {
        name: "JsonError".to_string(),
        size: 24,
        align: 8,
        tag_offset: 0,
        variants: with
            .iter()
            .map(|(n, tag, off)| VariantLayout { name: n.to_string(), tag: *tag, payload_offset: *off, fields: Vec::new() })
            .collect(),
    }
}

fn args(ts: Vec<Type>) -> ArgList {
    ArgList::from_vec(ts.into_iter().map(|t| GenericArg::Type(Box::new(t))).collect())
}

#[test]
fn result_header_zeroes_origin_words() {
    let mut l = MirLowerer::new(ctx_with_names(&[]));
    l.store_result_header(LocalId(3), 1);
    assert_eq!(l.builder.stmts.len(), 3);
    let expect = [(0u32, 1i64), (8, 0), (16, 0)];
    for (k, (off, v)) in expect.iter().enumerate() {
        match &l.builder.stmts[k].stmt {
            MirStmt::Store { addr, offset, value: MirOperand::Constant(MirConst::Int(x)), store_size } => {
                assert_eq!(*addr, LocalId(3));
                assert_eq!(offset, off);
                assert_eq!(x, v);
                assert_eq!(*store_size, Some(8));
            },
            other => panic!("unexpected {:?}", other),
        }
    }
}

#[test]
fn shape_call_returns_handle_temp() {
    let mut l = MirLowerer::new(ctx_with_names(&[]));
    let h = l.emit_shape_call("json_shape_prim", vec![MirOperand::Constant(MirConst::Int(4))]);
    assert_eq!(h, LocalId(0));
    assert!(matches!(l.builder.locals[0].ty, MirType::I64));
    match &l.builder.stmts[0].stmt {
        MirStmt::Call { dst, func, args } => {
            assert_eq!(*dst, Some(LocalId(0)));
            assert_eq!(func, "json_shape_prim");
            assert_eq!(args.len(), 1);
        },
        other => panic!("unexpected {:?}", other),
    }
}

#[test]
fn json_error_switches_on_status() {
    let mut ctx = ctx_with_names(&[]);
    ctx.enum_layouts.push(json_error_layout(&[("MissingField", 2, 8), ("ParseError", 0, 8), ("TypeError", 1, 8)]));
    let mut l = MirLowerer::new(ctx);
    let e = l.emit_json_error(LocalId(9), &MirType::I64);
    assert_eq!(e, LocalId(1));
    // entry, join, then one block per variant in status order
    assert_eq!(l.builder.terms.len(), 5);
    assert_eq!(l.builder.current, BlockId(1));
    match &l.builder.terms[0] {
        Some(MirTerminator::Switch { value, cases, default }) => {
            assert!(matches!(value, MirOperand::Local(LocalId(9))));
            assert_eq!(cases, &vec![(1, BlockId(2)), (2, BlockId(3)), (3, BlockId(4))]);
            assert_eq!(*default, BlockId(2));
        },
        other => panic!("unexpected {:?}", other),
    }
    for b in 2..5 {
        assert!(matches!(&l.builder.terms[b], Some(MirTerminator::Goto { target: BlockId(1) })));
    }
    // ParseError's tag 0 in its block, then the message
    assert_eq!(l.builder.stmts[1].block, BlockId(2));
    assert!(matches!(&l.builder.stmts[1].stmt, MirStmt::Store { value: MirOperand::Constant(MirConst::Int(0)), store_size: Some(8), .. }));
    assert!(matches!(&l.builder.stmts[2].stmt, MirStmt::Store { value: MirOperand::Local(LocalId(0)), store_size: Some(16), .. }));
    assert!(matches!(&l.builder.stmts[3].stmt, MirStmt::Store { value: MirOperand::Constant(MirConst::Int(1)), .. }));
    assert!(matches!(&l.builder.stmts[5].stmt, MirStmt::Store { value: MirOperand::Constant(MirConst::Int(2)), .. }));
    assert_eq!(l.builder.stmts[5].block, BlockId(4));
}

#[test]
fn json_error_skips_missing_variants() {
    let mut ctx = ctx_with_names(&[]);
    ctx.enum_layouts.push(json_error_layout(&[("TypeError", 5, 8)]));
    let mut l = MirLowerer::new(ctx);
    let _ = l.emit_json_error(LocalId(9), &MirType::I64);
    match &l.builder.terms[0] {
        Some(MirTerminator::Switch { cases, default, .. }) => {
            assert_eq!(cases, &vec![(2, BlockId(2))]);
            assert_eq!(*default, BlockId(2));
        },
        other => panic!("unexpected {:?}", other),
    }
}

#[test]
fn json_error_without_layout_stores_message() {
    let mut l = MirLowerer::new(ctx_with_names(&[]));
    let e = l.emit_json_error(LocalId(9), &MirType::String);
    assert_eq!(e, LocalId(1));
    assert_eq!(l.builder.terms.len(), 1);
    assert_eq!(l.builder.stmts.len(), 2);
    match &l.builder.stmts[0].stmt {
        MirStmt::Call { dst, func, args } => {
            assert_eq!(*dst, Some(LocalId(0)));
            assert_eq!(func, "json_error_message");
            assert!(args.is_empty());
        },
        other => panic!("unexpected {:?}", other),
    }
    assert!(matches!(&l.builder.stmts[1].stmt, MirStmt::Store { addr: LocalId(1), offset: 0, value: MirOperand::Local(LocalId(0)), store_size: Some(16) }));
}

#[test]
fn collection_args_in_both_spellings() {
    let l = MirLowerer::new(ctx_with_names(&["Vec", "Map", "User"]));
    let unresolved = Type::UnresolvedGeneric { name: "Map".to_string(), args: args(vec![Type::String, Type::I32]) };
    let registered = Type::Generic { base: 0, args: args(vec![Type::Bool]) };
    assert!(matches!(l.collection_arg(&unresolved, "Map", 1), Some(Type::I32)));
    assert!(l.collection_arg(&unresolved, "Map", 2).is_none());
    assert!(l.collection_arg(&unresolved, "Vec", 0).is_none());
    assert!(matches!(l.collection_arg(&registered, "Vec", 0), Some(Type::Bool)));
    let consts = Type::Generic { base: 0, args: ArgList::from_vec(vec![GenericArg::Const(3)]) };
    assert!(l.collection_arg(&consts, "Vec", 0).is_none());
    assert!(l.is_map_type(&unresolved));
    assert!(l.is_map_type(&Type::Generic { base: 1, args: ArgList::Nil }));
    assert!(!l.is_map_type(&registered));
}

#[test]
fn type_names_and_layouts() {
    let mut ctx = ctx_with_names(&["Vec", "Map", "User"]);
    ctx.struct_layouts.push(StructLayout { name: "Vec".to_string(), size: 24, align: 8, fields: Vec::new() });
    ctx.struct_layouts.push(StructLayout { name: "User".to_string(), size: 40, align: 8, fields: Vec::new() });
    let l = MirLowerer::new(ctx);
    assert_eq!(l.type_name_of(&Type::Named(2)), Some("User".to_string()));
    assert_eq!(l.type_name_of(&Type::Named(7)), None);
    assert_eq!(l.type_name_of(&Type::UnresolvedNamed("Point".to_string())), Some("Point".to_string()));
    assert_eq!(l.type_name_of(&Type::I64), None);
    assert_eq!(l.struct_layout_of(&Type::Named(2)), Some(1));
    assert_eq!(l.struct_layout_of(&Type::Named(0)), None);
    assert_eq!(l.struct_layout_of(&Type::UnresolvedNamed("Vec".to_string())), None);
    assert_eq!(l.struct_layout_of(&Type::UnresolvedNamed("Nope".to_string())), None);
}

#[test]
fn optional_collections() {
    let l = MirLowerer::new(ctx_with_names(&["Vec"]));
    let opt_vec = Type::Result { ok: Box::new(Type::Generic { base: 0, args: args(vec![Type::I64]) }), err: Box::new(Type::NoneType) };
    assert!(l.is_optional_collection(&opt_vec));
    let opt_int = Type::Result { ok: Box::new(Type::I64), err: Box::new(Type::NoneType) };
    assert!(!l.is_optional_collection(&opt_int));
    let res_vec = Type::Result { ok: Box::new(Type::Generic { base: 0, args: args(vec![Type::I64]) }), err: Box::new(Type::String) };
    assert!(!l.is_optional_collection(&res_vec));
}

#[test]
fn decode_target_prefers_recorded_type() {
    let l = MirLowerer::new(ctx_with_names(&[]));
    let recorded = Type::Result { ok: Box::new(Type::Named(3)), err: Box::new(Type::Named(4)) };
    let written = Some(vec!["i32".to_string()]);
    assert!(matches!(l.json_decode_target(Some(&recorded), &written), Ok(Type::Named(3))));
    let open = Type::Result { ok: Box::new(Type::Var(1)), err: Box::new(Type::Named(4)) };
    assert!(matches!(l.json_decode_target(Some(&open), &written), Ok(Type::I32)));
    assert!(matches!(l.json_decode_target(None, &written), Ok(Type::I32)));
    match l.json_decode_target(Some(&open), &None) {
        Err(LoweringError::InvalidConstruct(msg)) => assert_eq!(
            msg,
            "json.decode needs to know what to build \u{2014} write it as `json.decode<Type>(input)` or annotate the binding"
        ),
        other => panic!("unexpected {:?}", other),
    }
    assert!(l.json_decode_target(None, &Some(Vec::new())).is_err());
}

fn call_name(s: &MirStmt) -> String {
    match s {
        MirStmt::Call { func, .. } => func.clone(),
        other => panic!("expected a call, got {:?}", other),
    }
}

#[test]
fn decode_to_json_value_is_json_parse() {
    let mut ctx = ctx_with_names(&[]);
    ctx.enum_layouts.push(json_error_layout(&[("ParseError", 0, 8)]));
    let mut l = MirLowerer::new(ctx);
    let value = Type::UnresolvedNamed("JsonValue".to_string());
    let (op, ty) = l.lower_json_decode(MirOperand::Local(LocalId(7)), &value, &MirType::Ptr).unwrap();
    assert!(matches!(op, MirOperand::Local(LocalId(0))));
    match ty {
        MirType::Result { ok, err } => {
            assert!(matches!(*ok, MirType::Ptr));
            assert!(matches!(*err, MirType::Enum(_)));
        },
        other => panic!("expected a result, got {:?}", other),
    }
    assert_eq!(call_name(&l.builder.stmts[0].stmt), "json_parse");
    assert!(l.lower_json_decode(MirOperand::Local(LocalId(7)), &Type::I64, &MirType::I64).is_none());
    assert_eq!(l.builder.stmts.len(), 1);
}

#[test]
fn decode_of_an_unbuildable_type_names_it() {
    match MirLowerer::json_decode_unbuildable(&Type::UnresolvedNamed("Socket".to_string())) {
        LoweringError::InvalidConstruct(m) => assert_eq!(
            m,
            "json.decode cannot build `Socket` — only bool, integers, floats, string, Vec<T>, Map<string, T>, T?, and structs of those are JSON-compatible"
        ),
        other => panic!("expected an invalid construct, got {:?}", other),
    }
}

#[test]
fn typed_decode_starts_with_its_shape() {
    let mut l = MirLowerer::new(ctx_with_names(&[]));
    match l.begin_typed_json_decode(&Type::UnresolvedNamed("Socket".to_string()), None, &MirType::I64, false) {
        Err(LoweringError::InvalidConstruct(m)) => assert!(m.starts_with("json.decode cannot build `Socket`")),
        other => panic!("expected an error, got {:?}", other),
    }
    assert_eq!(l.builder.stmts.len(), 0);
    let dst = l.begin_typed_json_decode(&Type::I64, Some(LocalId(3)), &MirType::I64, false).unwrap();
    assert_eq!(dst, LocalId(0));
    assert_eq!(call_name(&l.builder.stmts[0].stmt), "json_decode_zero");
}

#[test]
fn scalar_decode_goes_through_a_scratch_buffer() {
    let mut l = MirLowerer::new(ctx_with_names(&[]));
    let dst = l.json_decode_destination(&MirType::I32, false);
    assert_eq!(dst, LocalId(0));
    assert!(matches!(l.builder.locals[0].ty, MirType::Array { len: 16, .. }));
    match &l.builder.stmts[0].stmt {
        MirStmt::Call { func, args, .. } => {
            assert_eq!(func, "json_decode_zero");
            assert!(matches!(args[1], MirOperand::Constant(MirConst::Int(16))));
        },
        other => panic!("expected a call, got {:?}", other),
    }
    let shape = LocalId(5);
    let (op, ty) = l.finish_json_decode(MirOperand::Local(LocalId(9)), shape, dst, &MirType::I32, false);
    // status 1, result 2, read-back 3
    assert!(matches!(op, MirOperand::Local(LocalId(2))));
    assert!(matches!(ty, MirType::Result { .. }));
    assert_eq!(call_name(&l.builder.stmts[1].stmt), "json_decode_into");
    assert_eq!(call_name(&l.builder.stmts[2].stmt), "json_shape_free");
    assert!(matches!(
        l.builder.terms[0],
        Some(MirTerminator::Branch { cond: MirOperand::Local(LocalId(1)), then_block: BlockId(2), else_block: BlockId(1) })
    ));
    // success: header, read the scalar back, store it
    assert_eq!(l.builder.stmts[3].block, BlockId(1));
    assert!(matches!(l.builder.stmts[6].stmt, MirStmt::Assign { dst: LocalId(3), .. }));
    assert!(matches!(
        l.builder.stmts[7].stmt,
        MirStmt::Store { addr: LocalId(2), offset: 24, value: MirOperand::Local(LocalId(3)), store_size: Some(4) }
    ));
    assert!(matches!(l.builder.terms[1], Some(MirTerminator::Goto { target: BlockId(3) })));
    // failure, without a JsonError layout: the message, then header with tag 1
    assert_eq!(call_name(&l.builder.stmts[8].stmt), "json_error_message");
    assert!(matches!(
        l.builder.stmts[10].stmt,
        MirStmt::Store { addr: LocalId(2), offset: 0, value: MirOperand::Constant(MirConst::Int(1)), .. }
    ));
    assert!(matches!(l.builder.terms[2], Some(MirTerminator::Goto { target: BlockId(3) })));
    assert_eq!(l.builder.current, BlockId(3));
}

#[test]
fn aggregate_decode_writes_in_place() {
    let mut l = MirLowerer::new(ctx_with_names(&[]));
    let ty = MirType::String;
    let dst = l.json_decode_destination(&ty, true);
    match &l.builder.stmts[0].stmt {
        MirStmt::Call { args, .. } => assert!(matches!(args[1], MirOperand::Constant(MirConst::Int(16)))),
        other => panic!("expected a call, got {:?}", other),
    }
    l.finish_json_decode(MirOperand::Local(LocalId(9)), LocalId(5), dst, &ty, true);
    assert!(matches!(
        l.builder.stmts[6].stmt,
        MirStmt::Store { addr: LocalId(2), offset: 24, value: MirOperand::Local(LocalId(0)), store_size: Some(16) }
    ));
    assert_eq!(l.builder.locals.len(), 5);
}

#[test]
fn typed_decode_without_a_shape_cannot_build() {
    let mut l = MirLowerer::new(ctx_with_names(&[]));
    let r = l.lower_typed_json_decode(
        MirOperand::Local(LocalId(9)),
        &Type::UnresolvedNamed("Socket".to_string()),
        &MirType::I64,
        false,
        None,
        Vec::new(),
    );
    match r {
        Err(LoweringError::InvalidConstruct(m)) => assert!(m.starts_with("json.decode cannot build `Socket`")),
        other => panic!("expected an error, got {:?}", other),
    }
    assert_eq!(l.builder.stmts.len(), 0);
    assert_eq!(l.builder.locals.len(), 0);
}

#[test]
fn typed_decode_fills_then_decodes_by_its_shape() {
    let mut l = MirLowerer::new(ctx_with_names(&[]));
    let point = MirType::Struct(lib::mir::StructLayoutId { id: 0, size: 16, align: 8 });
    let fill = MirStmt::Store {
        addr: LocalId(0),
        offset: 8,
        value: MirOperand::Constant(MirConst::Int(42)),
        store_size: None,
    };
    let (op, ty) = l
        .lower_typed_json_decode(
            MirOperand::Local(LocalId(9)),
            &Type::UnresolvedNamed("Point".to_string()),
            &point,
            true,
            Some(LocalId(5)),
            vec![fill],
        )
        .unwrap();
    // destination 0, status 1, result 2
    assert!(matches!(op, MirOperand::Local(LocalId(2))));
    assert!(matches!(ty, MirType::Result { .. }));
    assert_eq!(call_name(&l.builder.stmts[0].stmt), "json_decode_zero");
    assert!(matches!(
        l.builder.stmts[1].stmt,
        MirStmt::Store { addr: LocalId(0), offset: 8, value: MirOperand::Constant(MirConst::Int(42)), .. }
    ));
    assert_eq!(call_name(&l.builder.stmts[2].stmt), "json_decode_into");
    assert_eq!(call_name(&l.builder.stmts[3].stmt), "json_shape_free");
    assert!(matches!(
        l.builder.terms[0],
        Some(MirTerminator::Branch { cond: MirOperand::Local(LocalId(1)), then_block: BlockId(2), else_block: BlockId(1) })
    ));
    assert_eq!(l.builder.current, BlockId(3));
}
