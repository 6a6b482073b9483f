use lib::builder::MirBuilder;
use lib::expr::{primitive_type_constant, vec_slot_type};
use lib::lowerer::{
    ElemWriteback, EnumLayout, FieldConst, LocalMeta, LowerCtx, MirLowerer, StructLayout,
    VariantLayout,
};
use lib::mir::{
    BinOp, BlockId, EnumLayoutId, LocalId, MirConst, MirOperand, MirRValue, MirStmt,
    MirTerminator, MirType, StructLayoutId,
};

fn empty_ctx() -> LowerCtx {
    LowerCtx {
        struct_layouts: Vec::new(),
        enum_layouts: Vec::new(),
        type_names: Vec::new(),
        shared_elem_types: Vec::new(),
        trait_methods: Vec::new(),
    }
}

fn enum_layout(name: &str, variants: &[(&str, u64, u32)]) -> EnumLayout {
    EnumLayout {
        name: name.to_string(),
        size: 32,
        align: 8,
        tag_offset: 0,
        variants: variants
            .iter()
            .map(|(n, tag, off)| VariantLayout {
                name: n.to_string(),
                tag: *tag,
                payload_offset: *off,
                fields: Vec::new(),
            })
            .collect(),
    }
}

fn struct_layout(name: &str, size: u32) -> StructLayout {
    StructLayout { name: name.to_string(), size, align: 8, fields: Vec::new() }
}

fn local(n: usize) -> MirOperand {
    MirOperand::Local(LocalId(n))
}

fn konst(n: i64) -> MirOperand {
    MirOperand::Constant(MirConst::Int(n))
}

#[test]
fn builder_starts_in_one_open_block() {
    let b = MirBuilder::new();
    assert_eq!(b.current, BlockId(0));
    assert_eq!(b.terms.len(), 1);
    assert!(b.terms[0].is_none());
    assert!(b.current_block_unterminated());
}

#[test]
fn vec_slots_widen_narrow_scalars() {
    assert!(matches!(vec_slot_type(MirType::U8), MirType::I64));
    assert!(matches!(vec_slot_type(MirType::Bool), MirType::I64));
    assert!(matches!(vec_slot_type(MirType::String), MirType::String));
    let s = StructLayoutId { id: 0, size: 2, align: 1 };
    assert!(matches!(vec_slot_type(MirType::Struct(s)), MirType::Struct(x) if x == s));
}

#[test]
fn primitive_constants() {
    assert!(matches!(
        primitive_type_constant("i8", "MAX"),
        Some((MirOperand::Constant(MirConst::Int(127)), MirType::I8))
    ));
    assert!(matches!(
        primitive_type_constant("u64", "MAX"),
        Some((MirOperand::Constant(MirConst::Int(-1)), MirType::U64))
    ));
    assert!(matches!(
        primitive_type_constant("i32", "MIN"),
        Some((MirOperand::Constant(MirConst::Int(-2147483648)), MirType::I32))
    ));
    let one = 1.0f64.to_bits();
    assert!(matches!(
        primitive_type_constant("f64", "ONE"),
        Some((MirOperand::Constant(MirConst::FloatBits(b)), MirType::F64)) if b == one
    ));
    let max32 = (f32::MAX as f64).to_bits();
    assert!(matches!(
        primitive_type_constant("f32", "MAX"),
        Some((MirOperand::Constant(MirConst::FloatBits(b)), MirType::F32)) if b == max32
    ));
    let eps32 = (f32::EPSILON as f64).to_bits();
    assert!(matches!(
        primitive_type_constant("f32", "EPSILON"),
        Some((MirOperand::Constant(MirConst::FloatBits(b)), MirType::F32)) if b == eps32
    ));
    assert!(matches!(
        primitive_type_constant("f64", "NAN"),
        Some((MirOperand::Constant(MirConst::FloatBits(b)), _)) if f64::from_bits(b).is_nan()
    ));
    assert!(primitive_type_constant("i8", "EPSILON").is_none());
    assert!(primitive_type_constant("string", "MAX").is_none());
}

#[test]
fn sized_scalars_and_closure_arity() {
    assert!(MirLowerer::is_sized_scalar(&MirType::Char));
    assert!(!MirLowerer::is_sized_scalar(&MirType::Ptr));
    assert!(!MirLowerer::is_sized_scalar(&MirType::I128));
    assert_eq!(MirLowerer::elem_closure_arity("sort_by"), Some(2));
    assert_eq!(MirLowerer::elem_closure_arity("any"), Some(1));
    assert_eq!(MirLowerer::elem_closure_arity("fold"), None);
}

#[test]
fn parse_variant_by_payload() {
    let slot = MirType::Result { ok: Box::new(MirType::U16), err: Box::new(MirType::String) };
    assert_eq!(MirLowerer::parse_variant_for_slot(&slot), Some("string_parse_u16"));
    let other = MirType::Result { ok: Box::new(MirType::String), err: Box::new(MirType::String) };
    assert_eq!(MirLowerer::parse_variant_for_slot(&other), None);
    assert_eq!(MirLowerer::parse_variant_for_slot(&MirType::I64), None);
}

#[test]
fn type_names_for_lookup() {
    let mut ctx = empty_ctx();
    ctx.struct_layouts.push(struct_layout("Point", 16));
    ctx.enum_layouts.push(enum_layout("Shape", &[]));
    let l = MirLowerer::new(ctx);
    let p = MirType::Struct(StructLayoutId { id: 0, size: 16, align: 8 });
    assert_eq!(l.mir_type_name(&p), Some("Point".to_string()));
    let e = MirType::Enum(EnumLayoutId { id: 0, size: 32, align: 8 });
    assert_eq!(l.mir_type_name(&e), Some("Shape".to_string()));
    let missing = MirType::Struct(StructLayoutId { id: 3, size: 16, align: 8 });
    assert_eq!(l.mir_type_name(&missing), None);
    assert_eq!(l.mir_type_name(&MirType::F32), Some("f64".to_string()));
    assert_eq!(l.mir_type_name(&MirType::I64), None);
}

#[test]
fn eq_const_and_enum_tag() {
    let mut l = MirLowerer::new(empty_ctx());
    let r = l.emit_eq_const(LocalId(7), 3);
    assert_eq!(r, LocalId(0));
    assert!(matches!(l.builder.locals[0].ty, MirType::Bool));
    assert!(matches!(
        &l.builder.stmts[0].stmt,
        MirStmt::Assign { dst: LocalId(0), rvalue: MirRValue::BinaryOp { op: BinOp::Eq, left: MirOperand::Local(LocalId(7)), right: MirOperand::Constant(MirConst::Int(3)) } }
    ));
    let t = l.emit_enum_tag(local(7));
    assert_eq!(t, LocalId(1));
    assert!(matches!(l.builder.locals[1].ty, MirType::U16));
    assert!(matches!(
        &l.builder.stmts[1].stmt,
        MirStmt::Assign { dst: LocalId(1), rvalue: MirRValue::EnumTag { value: MirOperand::Local(LocalId(7)) } }
    ));
}

#[test]
fn inclusive_end_is_bumped_once() {
    let mut l = MirLowerer::new(empty_ctx());
    let same = l.bump_inclusive_end(konst(10), false);
    assert!(matches!(same, MirOperand::Constant(MirConst::Int(10))));
    assert!(l.builder.stmts.is_empty());
    let bumped = l.bump_inclusive_end(konst(10), true);
    assert!(matches!(bumped, MirOperand::Local(LocalId(0))));
    assert!(matches!(
        &l.builder.stmts[0].stmt,
        MirStmt::Assign { rvalue: MirRValue::BinaryOp { op: BinOp::Add, right: MirOperand::Constant(MirConst::Int(1)), .. }, .. }
    ));
}

#[test]
fn concat_all_joins_left_to_right() {
    let mut l = MirLowerer::new(empty_ctx());
    let none = l.concat_all(Vec::new());
    assert!(matches!(none, MirOperand::Constant(MirConst::String(ref s)) if s.is_empty()));
    let one = l.concat_all(vec![local(9)]);
    assert!(matches!(one, MirOperand::Local(LocalId(9))));
    assert!(l.builder.stmts.is_empty());
    let three = l.concat_all(vec![local(5), local(6), local(7)]);
    assert!(matches!(three, MirOperand::Local(LocalId(1))));
    assert_eq!(l.builder.stmts.len(), 2);
    match &l.builder.stmts[0].stmt {
        MirStmt::Call { dst, func, args } => {
            assert_eq!(*dst, Some(LocalId(0)));
            assert_eq!(func, "concat");
            assert!(matches!(args.as_slice(), [MirOperand::Local(LocalId(5)), MirOperand::Local(LocalId(6))]));
        },
        other => panic!("unexpected {:?}", other),
    }
    match &l.builder.stmts[1].stmt {
        MirStmt::Call { dst, func, args } => {
            assert_eq!(*dst, Some(LocalId(1)));
            assert_eq!(func, "concat");
            assert!(matches!(args.as_slice(), [MirOperand::Local(LocalId(0)), MirOperand::Local(LocalId(7))]));
        },
        other => panic!("unexpected {:?}", other),
    }
}

#[test]
fn unsigned_mod_is_one_remainder() {
    let mut l = MirLowerer::new(empty_ctx());
    let (r, ty) = l.lower_int_mod(&local(8), local(9), &MirType::U32);
    assert!(matches!(r, MirOperand::Local(LocalId(0))));
    assert!(matches!(ty, MirType::U32));
    assert_eq!(l.builder.stmts.len(), 1);
    assert_eq!(l.builder.terms.len(), 1);
}

#[test]
fn signed_mod_corrects_negative_remainders() {
    let mut l = MirLowerer::new(empty_ctx());
    let (r, _) = l.lower_int_mod(&local(8), local(9), &MirType::I64);
    assert!(matches!(r, MirOperand::Local(LocalId(0))));
    // entry, fix, done, sub, add
    assert_eq!(l.builder.terms.len(), 5);
    assert_eq!(l.builder.current, BlockId(2));
    assert!(matches!(
        &l.builder.terms[0],
        Some(MirTerminator::Branch { cond: MirOperand::Local(LocalId(1)), then_block: BlockId(1), else_block: BlockId(2) })
    ));
    assert!(matches!(
        &l.builder.terms[1],
        Some(MirTerminator::Branch { cond: MirOperand::Local(LocalId(2)), then_block: BlockId(3), else_block: BlockId(4) })
    ));
    assert!(l.builder.terms[2].is_none());
    assert!(matches!(&l.builder.terms[3], Some(MirTerminator::Goto { target: BlockId(2) })));
    assert!(matches!(&l.builder.terms[4], Some(MirTerminator::Goto { target: BlockId(2) })));
    assert!(matches!(
        &l.builder.stmts[3].stmt,
        MirStmt::Assign { dst: LocalId(0), rvalue: MirRValue::BinaryOp { op: BinOp::Sub, .. } }
    ));
    assert_eq!(l.builder.stmts[3].block, BlockId(3));
    assert!(matches!(
        &l.builder.stmts[4].stmt,
        MirStmt::Assign { dst: LocalId(0), rvalue: MirRValue::BinaryOp { op: BinOp::Add, .. } }
    ));
    assert_eq!(l.builder.stmts[4].block, BlockId(4));
}

#[test]
fn assert_helper_widening() {
    let mut l = MirLowerer::new(empty_ctx());
    let same = l.widen_for_assert_helper(local(3), &MirType::I64, &MirType::I64);
    assert!(matches!(same, MirOperand::Local(LocalId(3))));
    let wide = l.widen_for_assert_helper(local(3), &MirType::U8, &MirType::I64);
    assert!(matches!(wide, MirOperand::Local(LocalId(0))));
    assert!(matches!(
        &l.builder.stmts[0].stmt,
        MirStmt::Assign { rvalue: MirRValue::Cast { target_ty: MirType::I64, .. }, .. }
    ));
    let f = l.widen_for_assert_helper(local(4), &MirType::F32, &MirType::F64);
    assert!(matches!(f, MirOperand::Local(LocalId(1))));
    let s = l.widen_for_assert_helper(local(4), &MirType::String, &MirType::I64);
    assert!(matches!(s, MirOperand::Local(LocalId(4))));
}

#[test]
fn scalar_hash_widths() {
    let mut l = MirLowerer::new(empty_ctx());
    assert!(l.lower_scalar_hash(&local(1), &MirType::String).is_none());
    let r = l.lower_scalar_hash(&local(1), &MirType::I32).unwrap();
    assert!(matches!(r, (MirOperand::Local(LocalId(0)), MirType::U64)));
    match &l.builder.stmts[0].stmt {
        MirStmt::Call { func, args, .. } => {
            assert_eq!(func, "int_hash");
            assert!(matches!(args.as_slice(), [MirOperand::Local(LocalId(1)), MirOperand::Constant(MirConst::Int(0)), MirOperand::Constant(MirConst::Int(4))]));
        },
        other => panic!("unexpected {:?}", other),
    }
    let wide = l.lower_scalar_hash(&local(1), &MirType::U128).unwrap();
    assert!(matches!(wide.0, MirOperand::Local(LocalId(4))));
    assert_eq!(l.builder.stmts.len(), 5);
    match &l.builder.stmts[4].stmt {
        MirStmt::Call { args, .. } => {
            assert!(matches!(args.as_slice(), [MirOperand::Local(LocalId(1)), MirOperand::Local(LocalId(3)), MirOperand::Constant(MirConst::Int(16))]));
        },
        other => panic!("unexpected {:?}", other),
    }
}

#[test]
fn union_arms_need_every_message() {
    let mut ctx = empty_ctx();
    ctx.struct_layouts.push(struct_layout("IoError", 16));
    let l = MirLowerer::new(ctx);
    let members = vec![MirType::Struct(StructLayoutId { id: 0, size: 16, align: 8 }), MirType::String];
    let arms = l.union_message_arms(&members, &["IoError_message", "string_message"]).unwrap();
    assert_eq!(arms.len(), 2);
    assert_eq!(arms[0].1, "IoError_message");
    assert_eq!(arms[1].1, "string_message");
    assert!(l.union_message_arms(&members, &["IoError_message"]).is_none());
    assert!(l.union_message_arms(&[MirType::I64], &["i64_message"]).is_none());
}

#[test]
fn tracked_element_types() {
    let mut ctx = empty_ctx();
    ctx.shared_elem_types.push(("self.items".to_string(), MirType::String));
    ctx.shared_elem_types.push(("v".to_string(), MirType::I32));
    let mut l = MirLowerer::new(ctx);
    l.meta.push(("v".to_string(), LocalMeta { elem_type: Some(MirType::U8), type_prefix: None, full_type: None }));
    l.meta.push(("w".to_string(), LocalMeta { elem_type: None, type_prefix: None, full_type: None }));
    assert!(matches!(l.tracked_elem_for_key("v"), Some(MirType::U8)));
    assert!(matches!(l.tracked_elem_for_key("self.items"), Some(MirType::String)));
    assert!(l.tracked_elem_for_key("w").is_none());
    assert!(l.tracked_elem_for_key("z").is_none());
}

#[test]
fn writebacks_flush_in_order_after_mark() {
    let mut l = MirLowerer::new(empty_ctx());
    l.elem_writebacks.push(ElemWriteback::ScalarCopyBack { dst: LocalId(1), addr: LocalId(2) });
    l.elem_writebacks.push(ElemWriteback::ReleaseBorrow { collection: local(3), release: "Vec_release".to_string() });
    l.elem_writebacks.push(ElemWriteback::ScalarCopyBack { dst: LocalId(4), addr: LocalId(5) });
    l.flush_elem_writebacks(1);
    assert_eq!(l.elem_writebacks.len(), 1);
    assert_eq!(l.builder.stmts.len(), 2);
    match &l.builder.stmts[0].stmt {
        MirStmt::Call { dst, func, args } => {
            assert!(dst.is_none());
            assert_eq!(func, "Vec_release");
            assert!(matches!(args.as_slice(), [MirOperand::Local(LocalId(3))]));
        },
        other => panic!("unexpected {:?}", other),
    }
    assert!(matches!(
        &l.builder.stmts[1].stmt,
        MirStmt::Assign { dst: LocalId(4), rvalue: MirRValue::Deref(MirOperand::Local(LocalId(5))) }
    ));
}

fn field_const(name: &str, offset: u32) -> FieldConst {
    FieldConst {
        name: name.to_string(),
        ty_name: "i64".to_string(),
        serial_name: format!("{}_s", name),
        offset,
        size: 8,
        is_public: true,
        is_skipped: false,
        has_default: true,
    }
}

#[test]
fn comptime_field_uses_innermost_binding() {
    let mut l = MirLowerer::new(empty_ctx());
    l.comptime_for_bindings.push(("f".to_string(), field_const("outer", 0)));
    l.comptime_for_bindings.push(("f".to_string(), field_const("inner", 24)));
    assert!(matches!(
        l.comptime_field_const("f", "name"),
        Some((MirOperand::Constant(MirConst::String(ref s)), MirType::String)) if s == "inner"
    ));
    assert!(matches!(
        l.comptime_field_const("f", "offset"),
        Some((MirOperand::Constant(MirConst::Int(24)), MirType::U64))
    ));
    assert!(matches!(
        l.comptime_field_const("f", "has_default"),
        Some((MirOperand::Constant(MirConst::Bool(true)), MirType::Bool))
    ));
    assert!(l.comptime_field_const("f", "colour").is_none());
    assert!(l.comptime_field_const("g", "name").is_none());
}

#[test]
fn edge_calls_only_for_link_values() {
    let mut l = MirLowerer::new(empty_ctx());
    let v = l.builder.alloc_temp(MirType::I64);
    let link = l.builder.alloc_temp(MirType::Link(Box::new(MirType::I64)));
    let plain = l.builder.alloc_temp(MirType::I64);
    let r = l.container_edge_call("Vec_push", &[MirOperand::Local(v), MirOperand::Local(link)]).unwrap();
    assert_eq!(r.0, "Link_register_element");
    assert!(matches!(r.1.as_slice(), [MirOperand::Local(LocalId(0)), MirOperand::Local(LocalId(1))]));
    let m = l
        .container_edge_call("Map_insert", &[MirOperand::Local(v), MirOperand::Local(plain), MirOperand::Local(link)])
        .unwrap();
    assert_eq!(m.0, "Link_register_entry");
    assert!(l.container_edge_call("Vec_push", &[MirOperand::Local(v), MirOperand::Local(plain)]).is_none());
    assert!(l.container_edge_call("Vec_push", &[MirOperand::Local(v)]).is_none());
    assert!(l.container_edge_call("Vec_len", &[MirOperand::Local(v), MirOperand::Local(link)]).is_none());
}

#[test]
fn ordering_enum_recognised_and_wrapped() {
    let mut ctx = empty_ctx();
    ctx.enum_layouts.push(enum_layout("Color", &[]));
    ctx.enum_layouts.push(enum_layout("Ordering", &[("Less", 0, 8), ("Equal", 1, 8), ("Greater", 2, 8)]));
    let mut l = MirLowerer::new(ctx);
    let ord = MirType::Enum(EnumLayoutId { id: 1, size: 32, align: 8 });
    let col = MirType::Enum(EnumLayoutId { id: 0, size: 32, align: 8 });
    assert!(l.is_ordering_ty(&ord));
    assert!(!l.is_ordering_ty(&col));
    assert!(!l.is_ordering_ty(&MirType::I64));
    let (op, ty) = l.wrap_ordering(konst(2));
    assert!(matches!(op, MirOperand::Local(LocalId(0))));
    assert!(matches!(ty, MirType::Enum(EnumLayoutId { id: 1, .. })));
    assert!(matches!(
        &l.builder.stmts[0].stmt,
        MirStmt::Store { addr: LocalId(0), offset: 0, value: MirOperand::Constant(MirConst::Int(2)), store_size: None }
    ));
    let tag = l.emit_ordering_tag_i64(MirOperand::Local(LocalId(0)));
    assert_eq!(tag, LocalId(2));
    assert!(matches!(l.builder.locals[1].ty, MirType::U16));
    assert!(matches!(l.builder.locals[2].ty, MirType::I64));
    let mut bare = MirLowerer::new(empty_ctx());
    let (op, ty) = bare.wrap_ordering(konst(1));
    assert!(matches!(op, MirOperand::Constant(MirConst::Int(1))));
    assert!(matches!(ty, MirType::I64));
    assert!(bare.builder.stmts.is_empty());
}
