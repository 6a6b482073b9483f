use lib::lowerer::{FieldConst, FieldLayout, LowerCtx, LoweringError, MirLowerer, StructLayout};
use lib::mir::{
    FieldAccess, LocalId, MirConst, MirOperand, MirRValue, MirStmt, MirType,
    StructLayoutId, TypeList,
};
use lib::types::Type;

fn empty_ctx() -> LowerCtx {
    LowerCtx {
        struct_layouts: Vec::new(),
        enum_layouts: Vec::new(),
        type_names: Vec::new(),
        shared_elem_types: Vec::new(),
        trait_methods: Vec::new(),
    }
}

fn local(n: usize) -> MirOperand {
    MirOperand::Local(LocalId(n))
}

#[test]
fn trait_box_names_type_size_and_vtable() {
    let mut ctx = empty_ctx();
    ctx.struct_layouts.push(StructLayout { name: "Circle".to_string(), size: 24, align: 8, fields: Vec::new() });
    let mut l = MirLowerer::new(ctx);
    let circle = MirType::Struct(StructLayoutId { id: 0, size: 24, align: 8 });
    let (op, ty) = l.emit_trait_box(local(5), &circle, "Shape");
    assert!(matches!(op, MirOperand::Local(LocalId(0))));
    assert!(matches!(ty, MirType::TraitObject { ref trait_name } if trait_name == "Shape"));
    match &l.builder.stmts[0].stmt {
        MirStmt::TraitBox { dst, value, concrete_type, trait_name, concrete_size, vtable_name } => {
            assert_eq!(*dst, LocalId(0));
            assert!(matches!(value, MirOperand::Local(LocalId(5))));
            assert_eq!(concrete_type, "Circle");
            assert_eq!(trait_name, "Shape");
            assert_eq!(*concrete_size, 24);
            assert_eq!(vtable_name, ".vtable.Circle__Shape");
        },
        other => panic!("unexpected {:?}", other),
    }
    let (_, _) = l.emit_trait_box(local(6), &MirType::I32, "Show");
    match &l.builder.stmts[1].stmt {
        MirStmt::TraitBox { concrete_type, concrete_size, vtable_name, .. } => {
            assert_eq!(concrete_type, "unknown");
            assert_eq!(*concrete_size, 8);
            assert_eq!(vtable_name, ".vtable.unknown__Show");
        },
        other => panic!("unexpected {:?}", other),
    }
}

#[test]
fn tuple_fields_by_numeric_name() {
    let t = MirType::Tuple(TypeList::from_vec(vec![MirType::I8, MirType::I64, MirType::I32]));
    let (i, ty, off, size) = MirLowerer::resolve_tuple_field(&t, "1").unwrap();
    assert_eq!(i, 1);
    assert!(matches!(ty, MirType::I64));
    assert_eq!(off, Some(8));
    assert_eq!(size, Some(8));
    let (_, _, off2, size2) = MirLowerer::resolve_tuple_field(&t, "2").unwrap();
    assert_eq!(off2, Some(16));
    assert_eq!(size2, Some(4));
    let (_, _, off0, _) = MirLowerer::resolve_tuple_field(&t, "0").unwrap();
    assert_eq!(off0, Some(0));
    assert!(MirLowerer::resolve_tuple_field(&t, "3").is_none());
    assert!(MirLowerer::resolve_tuple_field(&t, "x").is_none());
    assert!(MirLowerer::resolve_tuple_field(&MirType::I64, "0").is_none());
}

#[test]
fn narrow_array_elements_are_widened_to_words() {
    let mut l = MirLowerer::new(empty_ctx());
    let (buf, stride) = l.array_buffer_at_vec_stride(&local(9), &MirType::I32, 3);
    assert!(matches!(buf, MirOperand::Local(LocalId(0))));
    assert_eq!(stride, 8);
    assert!(matches!(l.builder.locals[0].ty, MirType::Array { len: 3, .. }));
    assert_eq!(l.builder.stmts.len(), 6);
    for i in 0..3usize {
        match &l.builder.stmts[2 * i].stmt {
            MirStmt::Assign { dst, rvalue: MirRValue::ArrayIndex { index: MirOperand::Constant(MirConst::Int(k)), elem_size, .. } } => {
                assert_eq!(*dst, LocalId(1 + i));
                assert_eq!(*k, i as i64);
                assert_eq!(*elem_size, 4);
            },
            other => panic!("unexpected {:?}", other),
        }
        match &l.builder.stmts[2 * i + 1].stmt {
            MirStmt::Store { addr, offset, value: MirOperand::Local(v), .. } => {
                assert_eq!(*addr, LocalId(0));
                assert_eq!(*offset, 8 * i as u32);
                assert_eq!(*v, LocalId(1 + i));
            },
            other => panic!("unexpected {:?}", other),
        }
    }
    let mut l2 = MirLowerer::new(empty_ctx());
    let (buf2, stride2) = l2.array_buffer_at_vec_stride(&local(9), &MirType::String, 3);
    assert!(matches!(buf2, MirOperand::Local(LocalId(9))));
    assert_eq!(stride2, 16);
    assert!(l2.builder.stmts.is_empty());
}

#[test]
fn array_receiver_becomes_a_vec() {
    let mut l = MirLowerer::new(empty_ctx());
    assert!(l.array_receiver_as_vec(&local(1), &MirType::I64, 0).is_none());
    let arr = MirType::Array { elem: Box::new(MirType::I64), len: 4 };
    let (v, ty) = l.array_receiver_as_vec(&local(1), &arr, 0).unwrap();
    assert!(matches!(v, MirOperand::Local(LocalId(0))));
    assert!(matches!(ty, MirType::I64));
    match &l.builder.stmts[0].stmt {
        MirStmt::Call { dst, func, args } => {
            assert_eq!(*dst, Some(LocalId(0)));
            assert_eq!(func, "rask_vec_from_static");
            assert!(matches!(args.as_slice(), [
                MirOperand::Local(LocalId(1)),
                MirOperand::Constant(MirConst::Int(4)),
                MirOperand::Constant(MirConst::Int(8)),
                MirOperand::Constant(MirConst::Int(0)),
            ]));
        },
        other => panic!("unexpected {:?}", other),
    }
}

#[test]
fn presence_payload_binds_name() {
    let mut ctx = empty_ctx();
    ctx.struct_layouts.push(StructLayout { name: "User".to_string(), size: 24, align: 8, fields: Vec::new() });
    let mut l = MirLowerer::new(ctx);
    let user = MirType::Struct(StructLayoutId { id: 0, size: 24, align: 8 });
    l.bind_presence_payload("u", &local(3), &user, false, Some(24));
    assert_eq!(l.builder.locals[0].name.as_deref(), Some("u"));
    assert!(matches!(
        &l.builder.stmts[0].stmt,
        MirStmt::Assign { dst: LocalId(0), rvalue: MirRValue::Field { base: MirOperand::Local(LocalId(3)), field_index: 0, byte_offset: Some(24), access: FieldAccess::Word } }
    ));
    assert_eq!(l.locals.len(), 1);
    assert_eq!(l.locals[0].name, "u");
    assert_eq!(l.locals[0].local, LocalId(0));
    assert_eq!(l.meta[0].0, "u");
    assert_eq!(l.meta[0].1.type_prefix.as_deref(), Some("User"));
    l.bind_presence_payload("u", &local(4), &MirType::I64, true, None);
    assert!(matches!(
        &l.builder.stmts[1].stmt,
        MirStmt::Assign { dst: LocalId(1), rvalue: MirRValue::Use(MirOperand::Local(LocalId(4))) }
    ));
    assert_eq!(l.locals.len(), 1);
    assert_eq!(l.locals[0].local, LocalId(1));
    assert!(matches!(l.locals[0].ty, MirType::I64));
    assert_eq!(l.meta.len(), 1);
    assert_eq!(l.meta[0].1.type_prefix.as_deref(), Some("User"));
}

fn field(name: &str, offset: u32, mir_ty: MirType) -> FieldLayout {
    FieldLayout { name: name.to_string(), ty: Type::I64, mir_ty, offset, size: 8 }
}

#[test]
fn reflect_fields_builds_vec_of_field_info() {
    let mut ctx = empty_ctx();
    ctx.struct_layouts.push(StructLayout { name: "Other".to_string(), size: 8, align: 8, fields: Vec::new() });
    ctx.struct_layouts.push(StructLayout {
        name: "FieldInfo".to_string(),
        size: 48,
        align: 8,
        fields: vec![
            field("offset", 32, MirType::U64),
            field("name", 0, MirType::String),
            field("is_public", 40, MirType::Bool),
            field("type_name", 16, MirType::String),
        ],
    });
    let mut l = MirLowerer::new(ctx);
    let consts = vec![
        FieldConst { name: "x".to_string(), ty_name: "i64".to_string(), serial_name: "x".to_string(), offset: 0, size: 8, is_public: true, is_skipped: false, has_default: false },
        FieldConst { name: "y".to_string(), ty_name: "f64".to_string(), serial_name: "y".to_string(), offset: 8, size: 8, is_public: false, is_skipped: false, has_default: false },
    ];
    let (v, ty) = l.lower_reflect_fields_value(&consts, 7).unwrap();
    assert!(matches!(v, MirOperand::Local(LocalId(1))));
    assert!(matches!(ty, MirType::I64));
    assert!(matches!(&l.builder.locals[0].ty, MirType::Array { len: 2, .. }));
    // four slots per element, in FieldInfo's own order: name, type_name, offset, is_public
    assert_eq!(l.builder.stmts.len(), 9);
    let expect = [(0u32, 16u32), (16, 16), (32, 8), (40, 1), (48, 16), (64, 16), (80, 8), (88, 1)];
    for (k, (off, width)) in expect.iter().enumerate() {
        match &l.builder.stmts[k].stmt {
            MirStmt::Store { addr, offset, store_size, .. } => {
                assert_eq!(*addr, LocalId(0));
                assert_eq!(*offset, *off);
                assert_eq!(*store_size, Some(*width));
            },
            other => panic!("unexpected {:?}", other),
        }
    }
    assert!(matches!(&l.builder.stmts[1].stmt, MirStmt::Store { value: MirOperand::Constant(MirConst::String(s)), .. } if s == "i64"));
    assert!(matches!(&l.builder.stmts[7].stmt, MirStmt::Store { value: MirOperand::Constant(MirConst::Bool(false)), .. }));
    assert!(matches!(&l.builder.stmts[6].stmt, MirStmt::Store { value: MirOperand::Constant(MirConst::Int(8)), .. }));
    match &l.builder.stmts[8].stmt {
        MirStmt::Call { dst, func, args } => {
            assert_eq!(*dst, Some(LocalId(1)));
            assert_eq!(func, "rask_vec_from_static");
            assert!(matches!(args.as_slice(), [
                MirOperand::Local(LocalId(0)),
                MirOperand::Constant(MirConst::Int(2)),
                MirOperand::Constant(MirConst::Int(48)),
                MirOperand::Constant(MirConst::Int(7)),
            ]));
        },
        other => panic!("unexpected {:?}", other),
    }
    assert_eq!(l.collected_elem_types.len(), 1);
    assert_eq!(l.collected_elem_types[0].0, LocalId(1));
    assert!(matches!(l.collected_elem_types[0].1, MirType::Struct(StructLayoutId { id: 1, size: 48, .. })));
}

#[test]
fn reflect_fields_needs_field_info() {
    let mut l = MirLowerer::new(empty_ctx());
    match l.lower_reflect_fields_value(&Vec::new(), 7) {
        Err(LoweringError::InvalidConstruct(msg)) => {
            assert_eq!(msg, "reflect.fields<T>() as a value needs `FieldInfo`, which this program never names \u{2014} add `import std.reflect`");
        },
        other => panic!("expected an invalid construct, got {:?}", other),
    }
    assert!(l.builder.stmts.is_empty());
    assert!(l.builder.locals.is_empty());
}

fn shape_ctx() -> LowerCtx {
    let mut ctx = empty_ctx();
    ctx.trait_methods.push((
        "Shape".to_string(),
        vec!["area".to_string(), "perimeter".to_string(), "name".to_string()],
    ));
    ctx
}

fn shape_obj() -> MirType {
    MirType::TraitObject { trait_name: "Shape".to_string() }
}

#[test]
fn trait_method_calls_through_its_vtable_slot() {
    let mut l = MirLowerer::new(shape_ctx());
    let (op, ty) = l
        .try_lower_trait_object("perimeter", vec![local(2)], Some(MirType::F64), &local(1), &shape_obj())
        .unwrap()
        .unwrap();
    assert!(matches!(op, MirOperand::Local(LocalId(0))));
    assert!(matches!(ty, MirType::F64));
    match &l.builder.stmts[0].stmt {
        MirStmt::TraitCall { dst, trait_object, method_name, vtable_offset, args } => {
            assert_eq!(*dst, Some(LocalId(0)));
            assert_eq!(*trait_object, LocalId(1));
            assert_eq!(method_name, "perimeter");
            assert_eq!(*vtable_offset, 32);
            assert_eq!(args.len(), 1);
        },
        other => panic!("expected a trait call, got {:?}", other),
    }
    l.try_lower_trait_object("name", Vec::new(), None, &local(1), &shape_obj()).unwrap().unwrap();
    assert!(matches!(l.builder.locals[1].ty, MirType::I64));
    match &l.builder.stmts[1].stmt {
        MirStmt::TraitCall { vtable_offset, .. } => assert_eq!(*vtable_offset, 40),
        other => panic!("expected a trait call, got {:?}", other),
    }
}

#[test]
fn trait_call_needs_a_known_method_and_a_local_receiver() {
    let mut l = MirLowerer::new(shape_ctx());
    assert!(l.try_lower_trait_object("volume", Vec::new(), None, &local(1), &shape_obj()).unwrap().is_none());
    let other = MirType::TraitObject { trait_name: "Drawable".to_string() };
    assert!(l.try_lower_trait_object("area", Vec::new(), None, &local(1), &other).unwrap().is_none());
    assert!(l.try_lower_trait_object("area", Vec::new(), None, &local(1), &MirType::I64).unwrap().is_none());
    assert_eq!(l.builder.locals.len(), 0);
    let err = l.try_lower_trait_object(
        "area",
        Vec::new(),
        None,
        &MirOperand::Constant(MirConst::Int(0)),
        &shape_obj(),
    );
    match err {
        Err(LoweringError::InvalidConstruct(msg)) => assert_eq!(msg, "trait object must be a local variable"),
        other => panic!("expected an error, got {:?}", other),
    }
    assert_eq!(l.builder.stmts.len(), 0);
}
