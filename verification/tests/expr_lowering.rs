use lib::ast::{BinaryOp, Expr, ExprKind, IntSuffix, PrefixOp};
use lib::lowerer::{LocalBinding, LowerCtx, LoweringError, MirLowerer};
use lib::mir::{BinOp, BlockId, FieldAccess, LocalId, MirConst, MirOperand, MirRValue, MirStmt, MirTerminator, MirType, UnaryOp};

fn ctx() -> LowerCtx {
    LowerCtx {
        struct_layouts: Vec::new(),
        enum_layouts: Vec::new(),
        type_names: Vec::new(),
        shared_elem_types: Vec::new(),
        trait_methods: Vec::new(),
    }
}

fn node(kind: ExprKind) -> Expr {
    Expr { id: 0, node_ty: None, kind }
}

fn typed(kind: ExprKind, ty: MirType) -> Expr {
    Expr { id: 0, node_ty: Some(ty), kind }
}

fn int_lit(value: i128, suffix: Option<IntSuffix>) -> ExprKind {
    ExprKind::Int { value, suffix, float_bits: 0 }
}

fn name(n: &str) -> Expr {
    node(ExprKind::Ident(n.to_string()))
}

#[test]
fn literals_are_constants() {
    let mut l = MirLowerer::new(ctx());
    let (op, ty) = l.lower_expr(&node(int_lit(7, None))).unwrap();
    assert!(matches!(op, MirOperand::Constant(MirConst::Int(7))));
    assert!(matches!(ty, MirType::I64));
    let (_, ty) = l.lower_expr(&node(int_lit(7, Some(IntSuffix::U8)))).unwrap();
    assert!(matches!(ty, MirType::U8));
    let (_, ty) = l.lower_expr(&typed(int_lit(7, None), MirType::I32)).unwrap();
    assert!(matches!(ty, MirType::I32));
    let (op, ty) = l.lower_expr(&typed(int_lit(-1, Some(IntSuffix::U64ByMagnitude)), MirType::U128)).unwrap();
    assert!(matches!(op, MirOperand::Constant(MirConst::Int128(-1))));
    assert!(matches!(ty, MirType::U128));
    let (op, ty) = l
        .lower_expr(&typed(ExprKind::Int { value: 1, suffix: None, float_bits: 0x3ff0000000000000 }, MirType::F64))
        .unwrap();
    assert!(matches!(op, MirOperand::Constant(MirConst::FloatBits(0x3ff0000000000000))));
    assert!(matches!(ty, MirType::F64));
    let (op, ty) = l.lower_expr(&node(ExprKind::Null)).unwrap();
    assert!(matches!(op, MirOperand::Constant(MirConst::Int(0))));
    assert!(matches!(ty, MirType::Ptr));
    let (_, ty) = l.lower_expr(&node(ExprKind::Float { bits: 0, is_f32: true })).unwrap();
    assert!(matches!(ty, MirType::F32));
    assert_eq!(l.builder.stmts.len(), 0);
}

#[test]
fn names_read_their_binding_and_narrow() {
    let mut l = MirLowerer::new(ctx());
    let opt = MirType::Option(Box::new(MirType::I64));
    l.locals.push(LocalBinding { name: "x".to_string(), local: LocalId(4), ty: opt });
    let (op, ty) = l.lower_expr(&name("x")).unwrap();
    assert!(matches!(op, MirOperand::Local(LocalId(4))));
    assert!(matches!(ty, MirType::Option(_)));
    assert_eq!(l.builder.stmts.len(), 0);
    let (op, ty) = l.lower_expr(&typed(ExprKind::Ident("x".to_string()), MirType::I64)).unwrap();
    assert!(matches!(op, MirOperand::Local(LocalId(0))));
    assert!(matches!(ty, MirType::I64));
    assert!(matches!(
        l.builder.stmts[0].stmt,
        MirStmt::Assign {
            dst: LocalId(0),
            rvalue: MirRValue::Field { base: MirOperand::Local(LocalId(4)), field_index: 0, byte_offset: None, access: FieldAccess::Word }
        }
    ));
    match l.lower_expr(&name("y")) {
        Err(LoweringError::UnresolvedVariable(n)) => assert_eq!(n, "y"),
        other => panic!("expected an unresolved name, got {:?}", other),
    }
}

#[test]
fn and_short_circuits_around_its_right_side() {
    let mut l = MirLowerer::new(ctx());
    l.locals.push(LocalBinding { name: "a".to_string(), local: LocalId(7), ty: MirType::Bool });
    let e = node(ExprKind::Logical {
        is_and: true,
        left: Box::new(name("a")),
        right: Box::new(node(ExprKind::Bool(true))),
    });
    let (op, ty) = l.lower_expr(&e).unwrap();
    assert!(matches!(op, MirOperand::Local(LocalId(0))));
    assert!(matches!(ty, MirType::Bool));
    assert!(matches!(
        l.builder.terms[0],
        Some(MirTerminator::Branch { cond: MirOperand::Local(LocalId(7)), then_block: BlockId(1), else_block: BlockId(2) })
    ));
    assert!(matches!(
        l.builder.stmts[1].stmt,
        MirStmt::Assign { dst: LocalId(0), rvalue: MirRValue::Use(MirOperand::Constant(MirConst::Bool(true))) }
    ));
    assert_eq!(l.builder.current, BlockId(3));
}

#[test]
fn if_else_lowers_both_branches() {
    let mut l = MirLowerer::new(ctx());
    let e = node(ExprKind::If {
        cond: Box::new(node(ExprKind::Bool(false))),
        then_branch: Box::new(node(int_lit(1, None))),
        else_branch: Some(Box::new(node(int_lit(2, None)))),
    });
    let (op, ty) = l.lower_expr(&e).unwrap();
    assert!(matches!(op, MirOperand::Local(LocalId(0))));
    assert!(matches!(ty, MirType::I64));
    assert_eq!(l.builder.stmts[0].block, BlockId(1));
    assert_eq!(l.builder.stmts[1].block, BlockId(2));
    assert!(matches!(
        l.builder.stmts[1].stmt,
        MirStmt::Assign { dst: LocalId(0), rvalue: MirRValue::Use(MirOperand::Constant(MirConst::Int(2))) }
    ));
    assert_eq!(l.builder.current, BlockId(3));
}

#[test]
fn an_error_in_a_part_stops_the_lowering() {
    let mut l = MirLowerer::new(ctx());
    let e = node(ExprKind::Logical {
        is_and: false,
        left: Box::new(node(ExprKind::Bool(true))),
        right: Box::new(name("missing")),
    });
    assert!(matches!(l.lower_expr(&e), Err(LoweringError::UnresolvedVariable(_))));
    // the short circuit was begun before the right side failed
    assert_eq!(l.builder.terms.len(), 4);
    let mut l2 = MirLowerer::new(ctx());
    let e2 = node(ExprKind::If { cond: Box::new(name("missing")), then_branch: Box::new(node(int_lit(1, None))), else_branch: None });
    assert!(l2.lower_expr(&e2).is_err());
    assert_eq!(l2.builder.terms.len(), 1);
}

#[test]
fn unit_is_a_void_temp() {
    let mut l = MirLowerer::new(ctx());
    let (op, ty) = l.lower_expr(&node(ExprKind::Unit)).unwrap();
    assert!(matches!(op, MirOperand::Local(LocalId(0))));
    assert!(matches!(ty, MirType::Void));
    assert!(matches!(l.builder.locals[0].ty, MirType::Void));
    assert_eq!(l.builder.stmts.len(), 0);
}

fn bind(l: &mut MirLowerer, n: &str, local: usize, ty: MirType) {
    l.locals.push(LocalBinding { name: n.to_string(), local: LocalId(local), ty });
}

#[test]
fn a_comparison_lowers_each_operand_once_into_a_bool() {
    let mut l = MirLowerer::new(ctx());
    bind(&mut l, "a", 10, MirType::I32);
    let e = node(ExprKind::Binary { op: BinaryOp::Lt, left: Box::new(name("a")), right: Box::new(node(int_lit(3, None))) });
    let (op, ty) = l.lower_expr(&e).unwrap();
    assert!(matches!(op, MirOperand::Local(LocalId(0))));
    assert!(matches!(ty, MirType::Bool));
    assert_eq!(l.builder.stmts.len(), 1);
    assert!(matches!(
        &l.builder.stmts[0].stmt,
        MirStmt::Assign {
            dst: LocalId(0),
            rvalue: MirRValue::BinaryOp {
                op: BinOp::Lt,
                left: MirOperand::Local(LocalId(10)),
                right: MirOperand::Constant(MirConst::Int(3))
            }
        }
    ));
}

#[test]
fn arithmetic_keeps_the_left_operand_type() {
    let mut l = MirLowerer::new(ctx());
    bind(&mut l, "a", 10, MirType::U16);
    let e = node(ExprKind::Binary { op: BinaryOp::Add, left: Box::new(name("a")), right: Box::new(name("a")) });
    let (_, ty) = l.lower_expr(&e).unwrap();
    assert!(matches!(ty, MirType::U16));
    assert!(matches!(l.builder.locals[0].ty, MirType::U16));
    let bad = node(ExprKind::Binary { op: BinaryOp::Mul, left: Box::new(name("a")), right: Box::new(name("nope")) });
    assert!(matches!(l.lower_expr(&bad), Err(LoweringError::UnresolvedVariable(_))));
}

#[test]
fn an_inclusive_substring_bumps_its_end() {
    let mut l = MirLowerer::new(ctx());
    bind(&mut l, "s", 10, MirType::String);
    let e = node(ExprKind::Slice {
        object: Box::new(name("s")),
        start: Some(Box::new(node(int_lit(1, None)))),
        end: Some(Box::new(node(int_lit(4, None)))),
        inclusive: true,
    });
    let (op, ty) = l.lower_expr(&e).unwrap();
    assert!(matches!(op, MirOperand::Local(LocalId(1))));
    assert!(matches!(ty, MirType::String));
    assert!(matches!(
        &l.builder.stmts[0].stmt,
        MirStmt::Assign {
            dst: LocalId(0),
            rvalue: MirRValue::BinaryOp { op: BinOp::Add, left: MirOperand::Constant(MirConst::Int(4)), right: MirOperand::Constant(MirConst::Int(1)) }
        }
    ));
    match &l.builder.stmts[1].stmt {
        MirStmt::Call { dst, func, args } => {
            assert_eq!(*dst, Some(LocalId(1)));
            assert_eq!(func, "string_substr");
            assert!(matches!(args[0], MirOperand::Local(LocalId(10))));
            assert!(matches!(args[1], MirOperand::Constant(MirConst::Int(1))));
            assert!(matches!(args[2], MirOperand::Local(LocalId(0))));
        }
        other => panic!("expected the cut, got {:?}", other),
    }
}

#[test]
fn an_open_vec_slice_runs_to_the_length() {
    let mut l = MirLowerer::new(ctx());
    bind(&mut l, "v", 10, MirType::Ptr);
    let e = node(ExprKind::Slice { object: Box::new(name("v")), start: None, end: None, inclusive: false });
    let (op, ty) = l.lower_expr(&e).unwrap();
    assert!(matches!(op, MirOperand::Local(LocalId(1))));
    assert!(matches!(ty, MirType::Ptr));
    match &l.builder.stmts[0].stmt {
        MirStmt::Call { dst, func, .. } => {
            assert_eq!(*dst, Some(LocalId(0)));
            assert_eq!(func, "Vec_len");
        }
        other => panic!("expected the length, got {:?}", other),
    }
    match &l.builder.stmts[1].stmt {
        MirStmt::Call { func, args, .. } => {
            assert_eq!(func, "Vec_slice");
            assert!(matches!(args[1], MirOperand::Constant(MirConst::Int(0))));
            assert!(matches!(args[2], MirOperand::Local(LocalId(0))));
        }
        other => panic!("expected the cut, got {:?}", other),
    }
    // a half-open end is passed as it is
    let e2 = node(ExprKind::Slice {
        object: Box::new(name("v")),
        start: None,
        end: Some(Box::new(node(int_lit(2, None)))),
        inclusive: false,
    });
    l.lower_expr(&e2).unwrap();
    assert_eq!(l.builder.stmts.len(), 3);
    match &l.builder.stmts[2].stmt {
        MirStmt::Call { args, .. } => assert!(matches!(args[2], MirOperand::Constant(MirConst::Int(2)))),
        other => panic!("expected the cut, got {:?}", other),
    }
}

#[test]
fn todo_panics_then_continues_in_a_fresh_block() {
    let mut l = MirLowerer::new(ctx());
    let e = node(ExprKind::Panic { unreachable: false, message: Some(Box::new(node(ExprKind::String("later".to_string())))) });
    let (op, ty) = l.lower_expr(&e).unwrap();
    assert!(matches!(op, MirOperand::Local(LocalId(0))));
    assert!(matches!(ty, MirType::I64));
    match &l.builder.stmts[0].stmt {
        MirStmt::Call { func, args, .. } => {
            assert_eq!(func, "panic");
            match &args[0] {
                MirOperand::Constant(MirConst::String(m)) => assert_eq!(m, "not yet implemented: later"),
                other => panic!("expected the message, got {:?}", other),
            }
        }
        other => panic!("expected the panic, got {:?}", other),
    }
    assert!(matches!(l.builder.terms[0], Some(MirTerminator::Unreachable)));
    assert_eq!(l.builder.current, BlockId(1));
    let u = node(ExprKind::Panic { unreachable: true, message: None });
    l.lower_expr(&u).unwrap();
    match &l.builder.stmts[1].stmt {
        MirStmt::Call { args, .. } => match &args[0] {
            MirOperand::Constant(MirConst::String(m)) => assert_eq!(m, "entered unreachable code"),
            other => panic!("expected the message, got {:?}", other),
        },
        other => panic!("expected the panic, got {:?}", other),
    }
}

#[test]
fn prefix_operators_take_an_address_or_negate() {
    let mut l = MirLowerer::new(ctx());
    bind(&mut l, "x", 10, MirType::I64);
    let r = node(ExprKind::Unary { op: PrefixOp::Ref, operand: Box::new(name("x")) });
    let (op, ty) = l.lower_expr(&r).unwrap();
    assert!(matches!(op, MirOperand::Local(LocalId(0))));
    assert!(matches!(ty, MirType::Ptr));
    assert!(matches!(l.builder.stmts[0].stmt, MirStmt::Assign { dst: LocalId(0), rvalue: MirRValue::Ref(LocalId(10)) }));
    let k = node(ExprKind::Unary { op: PrefixOp::Ref, operand: Box::new(node(int_lit(5, None))) });
    l.lower_expr(&k).unwrap();
    assert!(matches!(
        l.builder.stmts[1].stmt,
        MirStmt::Assign { dst: LocalId(1), rvalue: MirRValue::Use(MirOperand::Constant(MirConst::Int(5))) }
    ));
    let n = node(ExprKind::Unary { op: PrefixOp::Not, operand: Box::new(node(ExprKind::Bool(false))) });
    let (_, ty) = l.lower_expr(&n).unwrap();
    assert!(matches!(ty, MirType::Bool));
    assert!(matches!(
        l.builder.stmts[2].stmt,
        MirStmt::Assign {
            dst: LocalId(2),
            rvalue: MirRValue::UnaryOp { op: UnaryOp::Not, operand: MirOperand::Constant(MirConst::Bool(false)) }
        }
    ));
}

#[test]
fn the_first_unbound_name_in_lowering_order_is_the_error() {
    let mut l = MirLowerer::new(ctx());
    bind(&mut l, "s", 10, MirType::String);
    let e = node(ExprKind::Slice {
        object: Box::new(name("s")),
        start: Some(Box::new(name("first"))),
        end: Some(Box::new(name("second"))),
        inclusive: false,
    });
    match l.lower_expr(&e) {
        Err(LoweringError::UnresolvedVariable(n)) => assert_eq!(n, "first"),
        other => panic!("expected an unresolved name, got {:?}", other),
    }
    let p = node(ExprKind::Panic { unreachable: true, message: Some(Box::new(name("why"))) });
    match l.lower_expr(&p) {
        Err(LoweringError::UnresolvedVariable(n)) => assert_eq!(n, "why"),
        other => panic!("expected an unresolved name, got {:?}", other),
    }
}
