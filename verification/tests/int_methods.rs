use lib::lowerer::{EnumLayout, FieldLayout, LowerCtx, MirLowerer, VariantLayout};
use lib::mir::{
    BinOp, BlockId, EnumLayoutId, LocalId, MirConst, MirOperand, MirRValue, MirStmt, MirTerminator, MirType,
    UnaryOp,
};
use lib::types::Type;

fn empty_ctx() -> LowerCtx {
    LowerCtx {
        struct_layouts: Vec::new(),
        enum_layouts: Vec::new(),
        type_names: Vec::new(),
        shared_elem_types: Vec::new(),
        trait_methods: Vec::new(),
    }
}

fn local(n: usize) -> MirOperand {
    MirOperand::Local(LocalId(n))
}

fn bin(s: &MirStmt) -> (LocalId, BinOp, String, String) {
    match s {
        MirStmt::Assign { dst, rvalue: MirRValue::BinaryOp { op, left, right } } => {
            (*dst, *op, format!("{:?}", left), format!("{:?}", right))
        },
        other => panic!("not a binary op: {:?}", other),
    }
}

fn un(s: &MirStmt) -> (LocalId, UnaryOp, String) {
    match s {
        MirStmt::Assign { dst, rvalue: MirRValue::UnaryOp { op, operand } } => (*dst, *op, format!("{:?}", operand)),
        other => panic!("not a unary op: {:?}", other),
    }
}

fn d(op: MirOperand) -> String {
    format!("{:?}", op)
}

#[test]
fn checked_add_answers_an_optional() {
    let mut l = MirLowerer::new(empty_ctx());
    let (op, ty) = l.lower_fallible_arith("checked_add", &vec![local(7)], &local(3), &MirType::I32).unwrap();
    assert!(matches!(op, MirOperand::Local(LocalId(1))));
    assert!(matches!(ty, MirType::Option(ref t) if matches!(**t, MirType::I32)));
    let b = &l.builder;
    assert_eq!(bin(&b.stmts[0].stmt), (LocalId(0), BinOp::OverflowAdd, d(local(3)), d(local(7))));
    assert!(matches!(b.terms[0], Some(MirTerminator::Branch { cond: MirOperand::Local(LocalId(0)), then_block: BlockId(1), else_block: BlockId(2) })));
    assert_eq!(bin(&b.stmts[1].stmt), (LocalId(2), BinOp::WrappingAdd, d(local(3)), d(local(7))));
    assert_eq!(b.stmts[1].block, BlockId(2));
    assert!(matches!(&b.stmts[3].stmt, MirStmt::Store { addr: LocalId(1), offset: 8, value: MirOperand::Local(LocalId(2)), store_size: Some(4) }));
    assert!(matches!(&b.stmts[4].stmt, MirStmt::Store { addr: LocalId(1), offset: 0, value: MirOperand::Constant(MirConst::Int(1)), store_size: None }));
    assert_eq!(b.stmts[4].block, BlockId(1));
    assert!(matches!(b.terms[1], Some(MirTerminator::Goto { target: BlockId(3) })));
    assert!(matches!(b.terms[2], Some(MirTerminator::Goto { target: BlockId(3) })));
    assert_eq!(b.current, BlockId(3));
}

#[test]
fn overflowing_mul_answers_a_pair() {
    let mut l = MirLowerer::new(empty_ctx());
    let (op, ty) = l.lower_fallible_arith("overflowing_mul", &vec![local(7)], &local(3), &MirType::I64).unwrap();
    assert!(matches!(op, MirOperand::Local(LocalId(2))));
    assert!(matches!(ty, MirType::Tuple(_)));
    let b = &l.builder;
    assert_eq!(bin(&b.stmts[0].stmt).1, BinOp::OverflowMul);
    assert_eq!(bin(&b.stmts[1].stmt), (LocalId(1), BinOp::WrappingMul, d(local(3)), d(local(7))));
    assert!(matches!(&b.stmts[2].stmt, MirStmt::Store { addr: LocalId(2), offset: 0, value: MirOperand::Local(LocalId(1)), store_size: Some(8) }));
    assert!(matches!(&b.stmts[3].stmt, MirStmt::Store { addr: LocalId(2), offset: 8, value: MirOperand::Local(LocalId(0)), store_size: Some(1) }));
    assert_eq!(b.terms.len(), 1);
}

#[test]
fn fallible_arith_needs_one_argument() {
    let mut l = MirLowerer::new(empty_ctx());
    assert!(l.lower_fallible_arith("checked_div", &vec![local(1), local(2)], &local(3), &MirType::I64).is_none());
    assert!(l.lower_fallible_arith("abs", &vec![local(1)], &local(3), &MirType::I64).is_none());
    assert!(l.builder.stmts.is_empty());
    assert!(l.builder.locals.is_empty());
}

#[test]
fn bit_methods_lower_to_operators() {
    let mut l = MirLowerer::new(empty_ctx());
    let (op, _) = l.lower_int_bit_method("rotate_left", &vec![local(5)], &local(9), &MirType::U32).unwrap();
    assert!(matches!(op, MirOperand::Local(LocalId(0))));
    assert_eq!(bin(&l.builder.stmts[0].stmt), (LocalId(0), BinOp::RotateLeft, d(local(9)), d(local(5))));
    let _ = l.lower_int_bit_method("unchecked_sub", &vec![local(5)], &local(9), &MirType::U32).unwrap();
    assert_eq!(bin(&l.builder.stmts[1].stmt).1, BinOp::WrappingSub);
    let (z, _) = l.lower_int_bit_method("count_zeros", &Vec::new(), &local(9), &MirType::U32).unwrap();
    assert_eq!(un(&l.builder.stmts[2].stmt), (LocalId(2), UnaryOp::BitNot, d(local(9))));
    assert_eq!(un(&l.builder.stmts[3].stmt), (LocalId(3), UnaryOp::CountOnes, d(local(2))));
    assert!(matches!(z, MirOperand::Local(LocalId(3))));
    let _ = l.lower_int_bit_method("to_be", &Vec::new(), &local(9), &MirType::U32).unwrap();
    assert_eq!(un(&l.builder.stmts[4].stmt), (LocalId(4), UnaryOp::SwapBytes, d(local(9))));
    let (same, ty) = l.lower_int_bit_method("to_le", &Vec::new(), &local(9), &MirType::U32).unwrap();
    assert!(matches!(same, MirOperand::Local(LocalId(9))));
    assert!(matches!(ty, MirType::U32));
    assert_eq!(l.builder.stmts.len(), 5);
    let (c, _) = l.lower_int_bit_method("checked_sub", &vec![local(5)], &local(9), &MirType::U32).unwrap();
    assert!(matches!(c, MirOperand::Local(LocalId(6))));
}

#[test]
fn bit_methods_refuse_wrong_arity_and_unknown_names() {
    let mut l = MirLowerer::new(empty_ctx());
    assert!(l.lower_int_bit_method("rotate_left", &Vec::new(), &local(9), &MirType::U32).is_none());
    assert!(l.lower_int_bit_method("count_ones", &vec![local(1)], &local(9), &MirType::U32).is_none());
    assert!(l.lower_int_bit_method("checked_add", &Vec::new(), &local(9), &MirType::U32).is_none());
    assert!(l.lower_int_bit_method("abs", &Vec::new(), &local(9), &MirType::U32).is_none());
    assert!(l.builder.stmts.is_empty());
}

#[test]
fn integer_compare_is_a_three_way_branch() {
    let mut l = MirLowerer::new(empty_ctx());
    let (op, ty) = l.try_lower_primitive_compare("compare", &vec![local(8)], &local(4), &MirType::I64).unwrap();
    assert!(matches!(op, MirOperand::Local(LocalId(0))));
    assert!(matches!(ty, MirType::I64));
    let b = &l.builder;
    assert_eq!(bin(&b.stmts[0].stmt), (LocalId(1), BinOp::Lt, d(local(4)), d(local(8))));
    assert!(matches!(&b.stmts[1].stmt, MirStmt::Assign { dst: LocalId(0), rvalue: MirRValue::Use(MirOperand::Constant(MirConst::Int(0))) }));
    assert_eq!(b.stmts[1].block, BlockId(1));
    assert_eq!(bin(&b.stmts[2].stmt), (LocalId(2), BinOp::Gt, d(local(4)), d(local(8))));
    assert!(matches!(&b.stmts[3].stmt, MirStmt::Assign { dst: LocalId(0), rvalue: MirRValue::Use(MirOperand::Constant(MirConst::Int(2))) }));
    assert!(matches!(&b.stmts[4].stmt, MirStmt::Assign { dst: LocalId(0), rvalue: MirRValue::Use(MirOperand::Constant(MirConst::Int(1))) }));
    assert_eq!(b.stmts[4].block, BlockId(4));
    assert!(matches!(b.terms[2], Some(MirTerminator::Branch { cond: MirOperand::Local(LocalId(2)), then_block: BlockId(3), else_block: BlockId(4) })));
    assert_eq!(b.current, BlockId(5));
}

fn variant(name: &str, tag: u64, fields: Vec<FieldLayout>) -> VariantLayout {
    VariantLayout { name: name.to_string(), tag, payload_offset: 8, fields }
}

#[test]
fn compare_wraps_into_a_registered_ordering() {
    let mut ctx = empty_ctx();
    ctx.enum_layouts.push(EnumLayout {
        name: "Ordering".to_string(),
        size: 8,
        align: 8,
        tag_offset: 0,
        variants: vec![variant("Less", 0, Vec::new()), variant("Equal", 1, Vec::new()), variant("Greater", 2, Vec::new())],
    });
    let mut l = MirLowerer::new(ctx);
    let (op, ty) = l.try_lower_primitive_compare("compare", &vec![local(8)], &local(4), &MirType::F64).unwrap();
    match &l.builder.stmts[0].stmt {
        MirStmt::Call { dst, func, args } => {
            assert_eq!(*dst, Some(LocalId(0)));
            assert_eq!(func, "f64_compare");
            assert_eq!(args.len(), 2);
        },
        other => panic!("expected a call, got {:?}", other),
    }
    assert!(matches!(&l.builder.stmts[1].stmt, MirStmt::Store { addr: LocalId(1), offset: 0, value: MirOperand::Local(LocalId(0)), .. }));
    assert!(matches!(op, MirOperand::Local(LocalId(1))));
    assert!(matches!(ty, MirType::Enum(EnumLayoutId { id: 0, .. })));
    // a fieldless enum compares by its tags
    let e = MirType::Enum(EnumLayoutId { id: 0, size: 8, align: 8 });
    let _ = l.try_lower_primitive_compare("compare", &vec![local(6)], &local(5), &e).unwrap();
    assert!(matches!(&l.builder.stmts[2].stmt, MirStmt::Assign { dst: LocalId(2), rvalue: MirRValue::EnumTag { value: MirOperand::Local(LocalId(5)) } }));
    assert!(matches!(&l.builder.stmts[3].stmt, MirStmt::Assign { dst: LocalId(3), rvalue: MirRValue::EnumTag { value: MirOperand::Local(LocalId(6)) } }));
    assert_eq!(bin(&l.builder.stmts[4].stmt), (LocalId(5), BinOp::Lt, d(local(2)), d(local(3))));
}

#[test]
fn compare_refuses_other_shapes() {
    let mut ctx = empty_ctx();
    ctx.enum_layouts.push(EnumLayout {
        name: "Shape".to_string(),
        size: 16,
        align: 8,
        tag_offset: 0,
        variants: vec![variant(
            "Circle",
            0,
            vec![FieldLayout { name: "0".to_string(), ty: Type::I64, mir_ty: MirType::I64, offset: 0, size: 8 }],
        )],
    });
    let mut l = MirLowerer::new(ctx);
    let e = MirType::Enum(EnumLayoutId { id: 0, size: 16, align: 8 });
    assert!(l.try_lower_primitive_compare("compare", &vec![local(1)], &local(2), &e).is_none());
    assert!(l.try_lower_primitive_compare("compare", &vec![local(1)], &local(2), &MirType::String).is_none());
    assert!(l.try_lower_primitive_compare("compare", &Vec::new(), &local(2), &MirType::I64).is_none());
    assert!(l.try_lower_primitive_compare("eq", &vec![local(1)], &local(2), &MirType::I64).is_none());
    assert!(l.builder.stmts.is_empty());
}

#[test]
fn numeric_conversions_cast() {
    let mut l = MirLowerer::new(empty_ctx());
    let (op, ty) = l.try_lower_numeric_conversion("to_int", &Vec::new(), &local(3), &MirType::F64).unwrap();
    assert!(matches!(op, MirOperand::Local(LocalId(0))));
    assert!(matches!(ty, MirType::I64));
    assert!(matches!(&l.builder.stmts[0].stmt, MirStmt::Assign { dst: LocalId(0), rvalue: MirRValue::Cast { value: MirOperand::Local(LocalId(3)), target_ty: MirType::I64 } }));
    let (_, fty) = l.try_lower_numeric_conversion("to_float", &Vec::new(), &local(3), &MirType::U16).unwrap();
    assert!(matches!(fty, MirType::F64));
    assert!(l.try_lower_numeric_conversion("to_int", &Vec::new(), &local(3), &MirType::I64).is_none());
    assert!(l.try_lower_numeric_conversion("to_float", &Vec::new(), &local(3), &MirType::I128).is_none());
    assert!(l.try_lower_numeric_conversion("to_float", &vec![local(1)], &local(3), &MirType::I64).is_none());
    assert_eq!(l.builder.stmts.len(), 2);
}

#[test]
fn discriminant_reads_the_tag() {
    let mut l = MirLowerer::new(empty_ctx());
    let e = MirType::Enum(EnumLayoutId { id: 0, size: 8, align: 8 });
    let (op, ty) = l.try_lower_discriminant("discriminant", &Vec::new(), &local(2), &e).unwrap();
    assert!(matches!(op, MirOperand::Local(LocalId(0))));
    assert!(matches!(ty, MirType::U16));
    assert!(matches!(&l.builder.stmts[0].stmt, MirStmt::Assign { dst: LocalId(0), rvalue: MirRValue::EnumTag { value: MirOperand::Local(LocalId(2)) } }));
    assert!(l.try_lower_discriminant("discriminant", &Vec::new(), &local(2), &MirType::I64).is_none());
    assert!(l.try_lower_discriminant("tag", &Vec::new(), &local(2), &e).is_none());
    assert_eq!(l.builder.stmts.len(), 1);
}

#[test]
fn unchecked_and_wrapping_emit_the_same() {
    for (u, w) in [("unchecked_add", "wrapping_add"), ("unchecked_sub", "wrapping_sub"), ("unchecked_mul", "wrapping_mul")] {
        let mut a = MirLowerer::new(empty_ctx());
        let mut b = MirLowerer::new(empty_ctx());
        let ra = a.lower_int_bit_method(u, &vec![local(2)], &local(1), &MirType::I32);
        let rb = b.lower_int_bit_method(w, &vec![local(2)], &local(1), &MirType::I32);
        assert_eq!(format!("{:?}", ra), format!("{:?}", rb));
        assert_eq!(format!("{:?}", a.builder.stmts), format!("{:?}", b.builder.stmts));
        assert_eq!(a.builder.stmts.len(), 1);
    }
}
