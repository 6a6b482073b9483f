use lib::lowerer::{EnumLayout, FieldLayout, LowerCtx, MirLowerer, StructLayout, VariantLayout};
use lib::mir::{
    BlockId, EnumLayoutId, FieldAccess, LocalId, MirConst, MirOperand, MirRValue, MirStmt,
    MirTerminator, MirType, StructLayoutId, TypeList,
};
use lib::types::{ArgList, GenericArg, Type, TypeSeq};

fn empty_ctx() -> LowerCtx {
    LowerCtx {
        struct_layouts: Vec::new(),
        enum_layouts: Vec::new(),
        type_names: Vec::new(),
        shared_elem_types: Vec::new(),
        trait_methods: Vec::new(),
    }
}

fn local(n: usize) -> MirOperand {
    MirOperand::Local(LocalId(n))
}

fn is_text(op: &MirOperand, text: &str) -> bool {
    matches!(op, MirOperand::Constant(MirConst::String(s)) if s == text)
}

fn is_local(op: &MirOperand, n: usize) -> bool {
    matches!(op, MirOperand::Local(LocalId(k)) if *k == n)
}

fn call_of(stmt: &MirStmt) -> (Option<LocalId>, String, &Vec<MirOperand>) {
    match stmt {
        MirStmt::Call { dst, func, args } => (*dst, func.clone(), args),
        other => panic!("expected a call, got {:?}", other),
    }
}

fn field_load(stmt: &MirStmt) -> (LocalId, u32, Option<u32>, FieldAccess) {
    match stmt {
        MirStmt::Assign { dst, rvalue: MirRValue::Field { field_index, byte_offset, access, .. } } => {
            (*dst, *field_index, *byte_offset, *access)
        },
        other => panic!("expected a field load, got {:?}", other),
    }
}

fn field(name: &str, ty: Type, mir_ty: MirType, offset: u32, size: u32) -> FieldLayout {
    FieldLayout { name: name.to_string(), ty, mir_ty, offset, size }
}

fn point_ctx() -> LowerCtx {
    let mut ctx = empty_ctx();
    ctx.struct_layouts.push(StructLayout {
        name: "Point".to_string(),
        size: 24,
        align: 8,
        fields: vec![
            field("x", Type::I64, MirType::I64, 0, 8),
            field("label", Type::String, MirType::String, 8, 16),
        ],
    });
    ctx
}

#[test]
fn struct_debug_names_each_field() {
    let mut l = MirLowerer::new(point_ctx());
    let ty = MirType::Struct(StructLayoutId { id: 0, size: 24, align: 8 });
    let r = l.lower_derived_debug(&local(9), &ty, 0).unwrap();
    let stmts = &l.builder.stmts;
    // x read at offset 0 as a sized scalar, then rendered as a number.
    let (d0, i0, o0, a0) = field_load(&stmts[0].stmt);
    assert_eq!((d0, i0, o0, a0), (LocalId(0), 0, Some(0), FieldAccess::Sized(8)));
    let (d1, f1, args1) = call_of(&stmts[1].stmt);
    assert_eq!(d1, Some(LocalId(1)));
    assert_eq!(f1, "i64_to_string");
    assert!(is_local(&args1[0], 0));
    // label read by the word, then quoted.
    let (d2, i2, o2, a2) = field_load(&stmts[2].stmt);
    assert_eq!((d2, i2, o2, a2), (LocalId(2), 1, Some(8), FieldAccess::Word));
    let (_, f3, args3) = call_of(&stmts[3].stmt);
    assert_eq!(f3, "string_debug");
    assert!(is_local(&args3[0], 2));
    // "Point { " "x: " x ", " "label: " label " }" joined left to right.
    assert_eq!(stmts.len(), 10);
    let (_, f4, args4) = call_of(&stmts[4].stmt);
    assert_eq!(f4, "concat");
    assert!(is_text(&args4[0], "Point { "));
    assert!(is_text(&args4[1], "x: "));
    let (_, _, args5) = call_of(&stmts[5].stmt);
    assert!(is_local(&args5[0], 4));
    assert!(is_local(&args5[1], 1));
    let (_, _, args6) = call_of(&stmts[6].stmt);
    assert!(is_text(&args6[1], ", "));
    let (_, _, args7) = call_of(&stmts[7].stmt);
    assert!(is_text(&args7[1], "label: "));
    let (_, _, args8) = call_of(&stmts[8].stmt);
    assert!(is_local(&args8[1], 3));
    let (d9, _, args9) = call_of(&stmts[9].stmt);
    assert!(is_text(&args9[1], " }"));
    assert!(is_local(&r, d9.unwrap().0));
    assert_eq!(l.builder.terms.len(), 1);
}

#[test]
fn struct_without_fields_is_name_and_braces() {
    let mut ctx = empty_ctx();
    ctx.struct_layouts.push(StructLayout { name: "Unit".to_string(), size: 0, align: 1, fields: Vec::new() });
    let mut l = MirLowerer::new(ctx);
    let ty = MirType::Struct(StructLayoutId { id: 0, size: 0, align: 1 });
    let r = l.lower_derived_debug(&local(0), &ty, 0).unwrap();
    assert!(is_text(&r, "Unit {}"));
    assert_eq!(l.builder.stmts.len(), 0);
}

#[test]
fn unregistered_layouts_and_other_types_give_nothing() {
    let mut l = MirLowerer::new(empty_ctx());
    let s = MirType::Struct(StructLayoutId { id: 3, size: 8, align: 8 });
    let e = MirType::Enum(EnumLayoutId { id: 0, size: 8, align: 8 });
    assert!(l.lower_derived_debug(&local(0), &s, 0).is_none());
    assert!(l.lower_derived_debug(&local(0), &e, 0).is_none());
    assert!(l.lower_derived_debug(&local(0), &MirType::I64, 0).is_none());
    assert_eq!(l.builder.stmts.len(), 0);
}

fn shape_ctx() -> LowerCtx {
    let mut ctx = empty_ctx();
    ctx.enum_layouts.push(EnumLayout {
        name: "Shape".to_string(),
        size: 16,
        align: 8,
        tag_offset: 0,
        variants: vec![
            VariantLayout {
                name: "Circle".to_string(),
                tag: 0,
                payload_offset: 8,
                fields: vec![field("0", Type::I64, MirType::I64, 0, 8)],
            },
            VariantLayout { name: "Empty".to_string(), tag: 1, payload_offset: 8, fields: Vec::new() },
        ],
    });
    ctx
}

#[test]
fn enum_debug_switches_on_the_tag() {
    let mut l = MirLowerer::new(shape_ctx());
    let ty = MirType::Enum(EnumLayoutId { id: 0, size: 16, align: 8 });
    let r = l.lower_derived_debug(&local(7), &ty, 0).unwrap();
    // The tag is read first, the result slot comes next.
    let (d0, i0, o0, a0) = field_load(&l.builder.stmts[0].stmt);
    assert_eq!((d0, i0, o0, a0), (LocalId(0), 0, Some(0), FieldAccess::Sized(8)));
    assert!(is_local(&r, 1));
    assert!(matches!(l.builder.locals[1].ty, MirType::String));
    // Entry, merge, and one block per variant.
    assert_eq!(l.builder.terms.len(), 4);
    match &l.builder.terms[0] {
        Some(MirTerminator::Switch { value, cases, default }) => {
            assert!(is_local(value, 0));
            assert_eq!(cases.clone(), vec![(0u64, BlockId(2)), (1u64, BlockId(3))]);
            assert_eq!(*default, BlockId(2));
        },
        other => panic!("expected a switch, got {:?}", other),
    }
    assert!(matches!(l.builder.terms[2], Some(MirTerminator::Goto { target: BlockId(1) })));
    assert!(matches!(l.builder.terms[3], Some(MirTerminator::Goto { target: BlockId(1) })));
    assert!(l.builder.terms[1].is_none());
    assert_eq!(l.builder.current, BlockId(1));
    // Circle's payload is read past the payload offset, in its own block.
    let (_, _, o2, _) = field_load(&l.builder.stmts[1].stmt);
    assert_eq!(o2, Some(8));
    assert_eq!(l.builder.stmts[1].block, BlockId(2));
    let (_, f, _) = call_of(&l.builder.stmts[2].stmt);
    assert_eq!(f, "i64_to_string");
    let (_, _, a3) = call_of(&l.builder.stmts[3].stmt);
    assert!(is_text(&a3[0], "Shape.Circle("));
    let (_, _, a4) = call_of(&l.builder.stmts[4].stmt);
    assert!(is_text(&a4[1], ")"));
    // Empty is just its name, copied into the result.
    let last = l.builder.stmts.last().unwrap();
    assert_eq!(last.block, BlockId(3));
    match &last.stmt {
        MirStmt::Assign { dst, rvalue: MirRValue::Use(v) } => {
            assert_eq!(*dst, LocalId(1));
            assert!(is_text(v, "Shape.Empty"));
        },
        other => panic!("expected the result copy, got {:?}", other),
    }
}

#[test]
fn enum_without_variants_defaults_to_merge() {
    let mut ctx = empty_ctx();
    ctx.enum_layouts.push(EnumLayout { name: "Never".to_string(), size: 8, align: 8, tag_offset: 0, variants: Vec::new() });
    let mut l = MirLowerer::new(ctx);
    let ty = MirType::Enum(EnumLayoutId { id: 0, size: 8, align: 8 });
    let r = l.lower_derived_debug(&local(0), &ty, 0).unwrap();
    assert!(is_local(&r, 1));
    match &l.builder.terms[0] {
        Some(MirTerminator::Switch { cases, default, .. }) => {
            assert!(cases.is_empty());
            assert_eq!(*default, BlockId(1));
        },
        other => panic!("expected a switch, got {:?}", other),
    }
    assert_eq!(l.builder.current, BlockId(1));
}

#[test]
fn values_render_by_type() {
    let mut l = MirLowerer::new(empty_ctx());
    let c = l.debug_render_value(&local(5), &MirType::Char, None, 0);
    let (_, f, _) = call_of(&l.builder.stmts[0].stmt);
    assert_eq!(f, "char_debug");
    assert!(is_local(&c, 0));
    let _ = l.debug_render_value(&local(5), &MirType::U8, None, 0);
    assert_eq!(call_of(&l.builder.stmts[1].stmt).1, "u64_to_string");
    let _ = l.debug_render_value(&local(5), &MirType::Bool, None, 0);
    assert_eq!(call_of(&l.builder.stmts[2].stmt).1, "bool_to_string");
    let _ = l.debug_render_value(&local(5), &MirType::I128, None, 0);
    assert_eq!(call_of(&l.builder.stmts[3].stmt).1, "i128_to_string");
    let p = l.debug_render_value(&local(5), &MirType::Ptr, None, 0);
    assert!(is_text(&p, "\u{2026}"));
    assert_eq!(l.builder.stmts.len(), 4);
}

fn generic(name: &str, arg: Type) -> Type {
    Type::UnresolvedGeneric {
        name: name.to_string(),
        args: ArgList::Cons(GenericArg::Type(Box::new(arg)), Box::new(ArgList::Nil)),
    }
}

#[test]
fn vec_of_primitives_goes_to_the_runtime() {
    let mut l = MirLowerer::new(empty_ctx());
    let decl = generic("Vec", Type::I64);
    let r = l.debug_render_value(&local(3), &MirType::Ptr, Some(&decl), 0);
    let (d, f, args) = call_of(&l.builder.stmts[0].stmt);
    assert_eq!(f, "vec_debug");
    assert!(is_local(&args[0], 3));
    assert!(matches!(args[1], MirOperand::Constant(MirConst::Int(0))));
    assert!(is_local(&r, d.unwrap().0));
    let strings = generic("Vec", Type::String);
    let _ = l.debug_render_value(&local(3), &MirType::Ptr, Some(&strings), 0);
    let (_, _, args2) = call_of(&l.builder.stmts[1].stmt);
    assert!(matches!(args2[1], MirOperand::Constant(MirConst::Int(4))));
}

#[test]
fn other_containers_render_their_shape() {
    let mut l = MirLowerer::new(empty_ctx());
    let nested = generic("Vec", generic("Vec", Type::I64));
    let r = l.debug_render_value(&local(3), &MirType::Ptr, Some(&nested), 0);
    assert!(is_text(&r, "[\u{2026}]"));
    let map = generic("Map", Type::String);
    let m = l.debug_render_value(&local(3), &MirType::Ptr, Some(&map), 0);
    assert!(is_text(&m, "{\u{2026}}"));
    let other = l.debug_render_value(&local(3), &MirType::Ptr, Some(&Type::I64), 0);
    assert!(is_text(&other, "\u{2026}"));
    assert_eq!(l.builder.stmts.len(), 0);
}

#[test]
fn nesting_past_the_limit_is_elided() {
    let mut l = MirLowerer::new(point_ctx());
    let ty = MirType::Struct(StructLayoutId { id: 0, size: 24, align: 8 });
    let r = l.debug_render_value(&local(0), &ty, None, 3);
    assert!(is_text(&r, "\u{2026}"));
    let tup = MirType::Tuple(TypeList::from_vec(vec![MirType::I64]));
    let t = l.debug_render_value(&local(0), &tup, None, 3);
    assert!(is_text(&t, "\u{2026}"));
    let arr = MirType::Array { elem: Box::new(MirType::I64), len: 2 };
    let a = l.debug_render_value(&local(0), &arr, None, 3);
    assert!(is_text(&a, "[\u{2026}]"));
    assert_eq!(l.builder.stmts.len(), 0);
}

#[test]
fn tuple_renders_positionally() {
    let mut l = MirLowerer::new(empty_ctx());
    let tup = MirType::Tuple(TypeList::from_vec(vec![MirType::I32, MirType::Bool]));
    let decl = Type::Tuple(TypeSeq::Cons(
        Box::new(Type::I32),
        Box::new(TypeSeq::Cons(Box::new(Type::Bool), Box::new(TypeSeq::Nil))),
    ));
    let r = l.debug_render_value(&local(8), &tup, Some(&decl), 0);
    let (_, i0, o0, a0) = field_load(&l.builder.stmts[0].stmt);
    assert_eq!((i0, o0, a0), (0, Some(0), FieldAccess::Sized(4)));
    assert_eq!(call_of(&l.builder.stmts[1].stmt).1, "i64_to_string");
    let (_, i2, o2, a2) = field_load(&l.builder.stmts[2].stmt);
    assert_eq!((i2, o2, a2), (1, Some(4), FieldAccess::Sized(1)));
    assert_eq!(call_of(&l.builder.stmts[3].stmt).1, "bool_to_string");
    // "(" a ", " b ")" is four joins.
    assert_eq!(l.builder.stmts.len(), 8);
    let (_, _, first) = call_of(&l.builder.stmts[4].stmt);
    assert!(is_text(&first[0], "("));
    let (d, _, last) = call_of(&l.builder.stmts[7].stmt);
    assert!(is_text(&last[1], ")"));
    assert!(is_local(&r, d.unwrap().0));
}

#[test]
fn long_array_shows_thirty_two_then_ellipsis() {
    let mut l = MirLowerer::new(empty_ctx());
    let arr = MirType::Array { elem: Box::new(MirType::U8), len: 40 };
    let r = l.debug_render_value(&local(2), &arr, None, 0);
    // 32 loads and 32 renders, then "[" + 32 values + 31 commas + ", …" + "]".
    let parts = 1 + 32 + 31 + 1 + 1;
    assert_eq!(l.builder.stmts.len(), 64 + parts - 1);
    let (_, i, o, a) = field_load(&l.builder.stmts[62].stmt);
    assert_eq!((i, o, a), (31, Some(31), FieldAccess::Sized(1)));
    let (_, _, tail) = call_of(&l.builder.stmts[l.builder.stmts.len() - 2].stmt);
    assert!(is_text(&tail[1], ", \u{2026}"));
    let (d, _, end) = call_of(&l.builder.stmts.last().unwrap().stmt);
    assert!(is_text(&end[1], "]"));
    assert!(is_local(&r, d.unwrap().0));
}
