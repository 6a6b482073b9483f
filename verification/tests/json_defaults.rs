use lib::lowerer::{FieldLayout, LowerCtx, MirLowerer, StructLayout};
use lib::mir::{LocalId, MirConst, MirOperand, MirStmt, MirType};
use lib::types::{ArgList, GenericArg, Type};

fn empty_ctx() -> LowerCtx {
    LowerCtx {
        struct_layouts: Vec::new(),
        enum_layouts: Vec::new(),
        type_names: Vec::new(),
        shared_elem_types: Vec::new(),
        trait_methods: Vec::new(),
    }
}

fn generic(name: &str, arg: Type) -> Type {
    Type::UnresolvedGeneric {
        name: name.to_string(),
        args: ArgList::Cons(GenericArg::Type(Box::new(arg)), Box::new(ArgList::Nil)),
    }
}

fn field(name: &str, ty: Type, mir_ty: MirType, offset: u32, size: u32) -> FieldLayout {
    FieldLayout { name: name.to_string(), ty, mir_ty, offset, size }
}

#[test]
fn struct_fields_are_zeroed_in_turn() {
    let mut ctx = empty_ctx();
    ctx.struct_layouts.push(StructLayout {
        name: "Cfg".to_string(),
        size: 48,
        align: 8,
        fields: vec![
            field("name", Type::String, MirType::String, 0, 16),
            field("tags", generic("Vec", Type::String), MirType::Ptr, 16, 8),
            field(
                "retries",
                Type::Result { ok: Box::new(Type::I64), err: Box::new(Type::NoneType) },
                MirType::Option(Box::new(MirType::I64)),
                24,
                16,
            ),
            field("count", Type::I64, MirType::I64, 40, 8),
        ],
    });
    let mut l = MirLowerer::new(ctx);
    l.emit_zero_value(LocalId(5), 8, &Type::UnresolvedNamed("Cfg".to_string()));
    let s = &l.builder.stmts;
    assert_eq!(s.len(), 4);
    assert!(matches!(&s[0].stmt, MirStmt::Store { addr: LocalId(5), offset: 8, value: MirOperand::Constant(MirConst::String(t)), store_size: Some(16) } if t.is_empty()));
    match &s[1].stmt {
        MirStmt::Call { dst, func, args } => {
            assert_eq!(*dst, Some(LocalId(0)));
            assert_eq!(func, "Vec_new");
            assert!(args.is_empty());
        },
        other => panic!("expected a call, got {:?}", other),
    }
    assert!(matches!(&s[2].stmt, MirStmt::Store { addr: LocalId(5), offset: 24, value: MirOperand::Local(LocalId(0)), store_size: Some(8) }));
    assert!(matches!(&s[3].stmt, MirStmt::Store { addr: LocalId(5), offset: 32, value: MirOperand::Constant(MirConst::Int(1)), store_size: Some(8) }));
    assert_eq!(l.builder.locals.len(), 1);
}

#[test]
fn maps_start_empty_and_numbers_are_left_alone() {
    let mut l = MirLowerer::new(empty_ctx());
    l.emit_zero_value(LocalId(2), 0, &generic("Map", Type::I64));
    match &l.builder.stmts[0].stmt {
        MirStmt::Call { func, .. } => assert_eq!(func, "Map_new_string_keys"),
        other => panic!("expected a call, got {:?}", other),
    }
    l.emit_zero_value(LocalId(2), 0, &Type::I64);
    l.emit_zero_value(LocalId(2), 0, &Type::UnresolvedNamed("Missing".to_string()));
    assert_eq!(l.builder.stmts.len(), 2);
}
