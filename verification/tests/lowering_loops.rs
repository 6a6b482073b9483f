use lib::iterators::{IterAdapter, IterChain};
use lib::lowerer::{LowerCtx, LoweringError, MirLowerer};
use lib::mir::{
    BinOp, BlockId, FieldAccess, LocalId, MirConst, MirOperand, MirRValue, MirStmt, MirTerminator,
    MirType, TypeList,
};

fn empty_ctx() -> LowerCtx {
    LowerCtx {
        struct_layouts: Vec::new(),
        enum_layouts: Vec::new(),
        type_names: Vec::new(),
        shared_elem_types: Vec::new(),
        trait_methods: Vec::new(),
    }
}

fn local(n: usize) -> MirOperand {
    MirOperand::Local(LocalId(n))
}

fn konst(n: i64) -> MirOperand {
    MirOperand::Constant(MirConst::Int(n))
}

fn vec_chain(adapters: Vec<IterAdapter>) -> IterChain {
    IterChain { source: local(100), source_ty: MirType::I64, elem_ty: Some(MirType::I64), adapters }
}

fn call_of(s: &MirStmt) -> (Option<LocalId>, String, usize) {
    match s {
        MirStmt::Call { dst, func, args } => (*dst, func.clone(), args.len()),
        other => panic!("not a call: {:?}", other),
    }
}

#[test]
fn key_less_uses_runtime_for_strings() {
    let mut l = MirLowerer::new(empty_ctx());
    let a = l.emit_key_less(&MirType::String, LocalId(4), LocalId(5));
    assert_eq!(a, LocalId(0));
    assert_eq!(call_of(&l.builder.stmts[0].stmt), (Some(LocalId(0)), "string_lt".to_string(), 2));
    let b = l.emit_key_less(&MirType::I64, LocalId(4), LocalId(5));
    assert_eq!(b, LocalId(1));
    assert!(matches!(
        &l.builder.stmts[1].stmt,
        MirStmt::Assign { dst: LocalId(1), rvalue: MirRValue::BinaryOp { op: BinOp::Lt, left: MirOperand::Local(LocalId(4)), right: MirOperand::Local(LocalId(5)) } }
    ));
}

#[test]
fn prefix_ignores_generic_arguments() {
    assert!(MirLowerer::prefix_is(&Some("Vec<i64>".to_string()), "Vec"));
    assert!(MirLowerer::prefix_is(&Some(" Map <K, V>".to_string()), "Map"));
    assert!(!MirLowerer::prefix_is(&Some("Vector".to_string()), "Vec"));
    assert!(!MirLowerer::prefix_is(&None, "Vec"));
}

#[test]
fn plain_loop_skeleton() {
    let mut l = MirLowerer::new(empty_ctx());
    let chain = vec_chain(Vec::new());
    let s = l.setup_iter_chain_loop(&chain);
    // coll, len, idx, cond, elem
    assert_eq!((s.idx, s.elem_local), (LocalId(2), LocalId(4)));
    assert_eq!((s.check_block, s.inc_block, s.exit_block), (BlockId(1), BlockId(3), BlockId(4)));
    assert_eq!(l.builder.current, BlockId(2));
    assert_eq!(call_of(&l.builder.stmts[1].stmt), (Some(LocalId(1)), "Vec_len".to_string(), 1));
    assert!(matches!(&l.builder.stmts[2].stmt, MirStmt::Assign { dst: LocalId(2), rvalue: MirRValue::Use(MirOperand::Constant(MirConst::Int(0))) }));
    assert!(matches!(
        &l.builder.stmts[3].stmt,
        MirStmt::Assign { dst: LocalId(3), rvalue: MirRValue::BinaryOp { op: BinOp::Lt, left: MirOperand::Local(LocalId(2)), right: MirOperand::Local(LocalId(1)) } }
    ));
    assert_eq!(l.builder.stmts[3].block, BlockId(1));
    assert_eq!(call_of(&l.builder.stmts[4].stmt), (Some(LocalId(4)), "Vec_get".to_string(), 2));
    assert!(matches!(&l.builder.terms[0], Some(MirTerminator::Goto { target: BlockId(1) })));
    assert!(matches!(
        &l.builder.terms[1],
        Some(MirTerminator::Branch { cond: MirOperand::Local(LocalId(3)), then_block: BlockId(2), else_block: BlockId(4) })
    ));
}

#[test]
fn skip_then_take_clamps_the_end() {
    let mut l = MirLowerer::new(empty_ctx());
    let chain = vec_chain(vec![IterAdapter::Skip { count: konst(2) }, IterAdapter::Take { count: konst(50) }]);
    let s = l.setup_iter_chain_loop(&chain);
    // coll 0, len 1, adjusted 2, end 3, over 4, idx 5
    assert!(matches!(
        &l.builder.stmts[2].stmt,
        MirStmt::Assign { dst: LocalId(2), rvalue: MirRValue::BinaryOp { op: BinOp::Add, left: MirOperand::Constant(MirConst::Int(2)), right: MirOperand::Constant(MirConst::Int(50)) } }
    ));
    assert!(matches!(&l.builder.stmts[3].stmt, MirStmt::Assign { dst: LocalId(3), rvalue: MirRValue::Use(MirOperand::Local(LocalId(2))) }));
    assert!(matches!(
        &l.builder.stmts[4].stmt,
        MirStmt::Assign { dst: LocalId(4), rvalue: MirRValue::BinaryOp { op: BinOp::Gt, left: MirOperand::Local(LocalId(3)), right: MirOperand::Local(LocalId(1)) } }
    ));
    assert!(matches!(&l.builder.stmts[5].stmt, MirStmt::Assign { dst: LocalId(3), rvalue: MirRValue::Use(MirOperand::Local(LocalId(1))) }));
    assert_eq!(l.builder.stmts[5].block, BlockId(1));
    assert!(matches!(&l.builder.stmts[6].stmt, MirStmt::Assign { dst: LocalId(5), rvalue: MirRValue::Use(MirOperand::Constant(MirConst::Int(2))) }));
    assert_eq!(l.builder.stmts[6].block, BlockId(2));
    assert_eq!(s.idx, LocalId(5));
    assert!(matches!(
        &l.builder.terms[0],
        Some(MirTerminator::Branch { cond: MirOperand::Local(LocalId(4)), then_block: BlockId(1), else_block: BlockId(2) })
    ));
    assert!(matches!(&l.builder.terms[1], Some(MirTerminator::Goto { target: BlockId(2) })));
    assert!(matches!(&l.builder.terms[2], Some(MirTerminator::Goto { target: BlockId(3) })));
    assert!(matches!(
        &l.builder.stmts[7].stmt,
        MirStmt::Assign { rvalue: MirRValue::BinaryOp { op: BinOp::Lt, right: MirOperand::Local(LocalId(3)), .. }, .. }
    ));
}

#[test]
fn take_without_skip_ends_at_count() {
    let mut l = MirLowerer::new(empty_ctx());
    let chain = vec_chain(vec![IterAdapter::Take { count: konst(3) }]);
    let _ = l.setup_iter_chain_loop(&chain);
    assert!(matches!(&l.builder.stmts[2].stmt, MirStmt::Assign { dst: LocalId(2), rvalue: MirRValue::Use(MirOperand::Constant(MirConst::Int(3))) }));
}

#[test]
fn array_source_uses_constant_length_and_indexing() {
    let mut l = MirLowerer::new(empty_ctx());
    let chain = IterChain {
        source: local(100),
        source_ty: MirType::Array { elem: Box::new(MirType::I32), len: 5 },
        elem_ty: None,
        adapters: Vec::new(),
    };
    let s = l.setup_iter_chain_loop(&chain);
    assert!(matches!(&l.builder.stmts[1].stmt, MirStmt::Assign { dst: LocalId(1), rvalue: MirRValue::Use(MirOperand::Constant(MirConst::Int(5))) }));
    assert!(matches!(
        &l.builder.stmts[4].stmt,
        MirStmt::Assign { dst, rvalue: MirRValue::ArrayIndex { elem_size: 4, .. } } if *dst == s.elem_local
    ));
    assert!(matches!(s.elem_ty, MirType::I64));
}

#[test]
fn adapters_filter_map_enumerate() {
    let mut l = MirLowerer::new(empty_ctx());
    let chain = vec_chain(vec![
        IterAdapter::Filter { pred: "is_even".to_string() },
        IterAdapter::MapTo { func: "square".to_string(), ret_ty: MirType::I32 },
        IterAdapter::Enumerate,
    ]);
    let s = l.setup_iter_chain_loop(&chain);
    let n = l.builder.locals.len();
    let blocks = l.builder.terms.len();
    let (op, ty) = l.apply_iter_adapters(&chain, MirOperand::Local(s.elem_local), MirType::I64, s.inc_block, s.idx);
    assert!(matches!(op, MirOperand::Local(x) if x == LocalId(n + 2)));
    match ty {
        MirType::Tuple(TypeList::Cons(a, rest)) => {
            assert!(matches!(*a, MirType::I64));
            assert!(matches!(*rest, TypeList::Cons(ref b, _) if matches!(**b, MirType::I32)));
        },
        other => panic!("unexpected {:?}", other),
    }
    assert_eq!(l.builder.terms.len(), blocks + 1);
    assert_eq!(l.builder.current, BlockId(blocks));
    assert!(matches!(
        &l.builder.terms[s.inc_block.0 - 1],
        Some(MirTerminator::Branch { then_block, else_block, .. }) if *then_block == BlockId(blocks) && *else_block == s.inc_block
    ));
    let k = l.builder.stmts.len();
    assert_eq!(call_of(&l.builder.stmts[k - 4].stmt), (Some(LocalId(n)), "is_even".to_string(), 1));
    assert_eq!(call_of(&l.builder.stmts[k - 3].stmt), (Some(LocalId(n + 1)), "square".to_string(), 1));
    assert!(matches!(&l.builder.stmts[k - 2].stmt, MirStmt::Store { offset: 0, value: MirOperand::Local(i), .. } if *i == s.idx));
    assert!(matches!(&l.builder.stmts[k - 1].stmt, MirStmt::Store { offset: 8, value: MirOperand::Local(v), .. } if *v == LocalId(n + 1)));
}

#[test]
fn count_increments_a_counter() {
    let mut l = MirLowerer::new(empty_ctx());
    let (op, ty) = l.lower_iter_count(&vec_chain(Vec::new()));
    assert!(matches!(op, MirOperand::Local(LocalId(0))));
    assert!(matches!(ty, MirType::I64));
    assert!(matches!(&l.builder.stmts[0].stmt, MirStmt::Assign { dst: LocalId(0), rvalue: MirRValue::Use(MirOperand::Constant(MirConst::Int(0))) }));
    // counter, coll, len, idx, cond, elem, step temp, increment temp
    assert_eq!(l.builder.locals.len(), 8);
    assert!(matches!(
        &l.builder.stmts[6].stmt,
        MirStmt::Assign { dst: LocalId(6), rvalue: MirRValue::BinaryOp { op: BinOp::Add, left: MirOperand::Local(LocalId(0)), right: MirOperand::Constant(MirConst::Int(1)) } }
    ));
    assert!(matches!(&l.builder.stmts[7].stmt, MirStmt::Assign { dst: LocalId(0), rvalue: MirRValue::Use(MirOperand::Local(LocalId(6))) }));
    // the body jumps to the increment, which jumps back to the check
    assert!(matches!(&l.builder.terms[2], Some(MirTerminator::Goto { target: BlockId(3) })));
    assert!(matches!(&l.builder.terms[3], Some(MirTerminator::Goto { target: BlockId(1) })));
    assert_eq!(l.builder.current, BlockId(4));
}

#[test]
fn sum_adds_each_element() {
    let mut l = MirLowerer::new(empty_ctx());
    let (op, _) = l.lower_iter_sum(&vec_chain(Vec::new()));
    assert!(matches!(op, MirOperand::Local(LocalId(0))));
    assert!(matches!(
        &l.builder.stmts[6].stmt,
        MirStmt::Assign { rvalue: MirRValue::BinaryOp { op: BinOp::Add, left: MirOperand::Local(LocalId(0)), right: MirOperand::Local(LocalId(5)) }, .. }
    ));
}

#[test]
fn max_keeps_running_extreme() {
    let mut l = MirLowerer::new(empty_ctx());
    let (op, ty) = l.lower_iter_extreme(&vec_chain(Vec::new()), true);
    assert!(matches!(op, MirOperand::Local(LocalId(0))));
    assert!(matches!(ty, MirType::Option(ref t) if matches!(**t, MirType::I64)));
    assert!(matches!(&l.builder.stmts[0].stmt, MirStmt::Store { addr: LocalId(0), offset: 0, value: MirOperand::Constant(MirConst::Int(1)), .. }));
    assert!(matches!(
        &l.builder.stmts[9].stmt,
        MirStmt::Assign { rvalue: MirRValue::BinaryOp { op: BinOp::Gt, left: MirOperand::Local(LocalId(5)), .. }, .. }
    ));
    assert!(matches!(
        &l.builder.stmts[8].stmt,
        MirStmt::Assign { rvalue: MirRValue::Field { byte_offset: Some(8), access: FieldAccess::Word, .. }, .. }
    ));
    assert!(matches!(&l.builder.stmts[11].stmt, MirStmt::Store { offset: 0, value: MirOperand::Constant(MirConst::Int(0)), .. }));
    assert_eq!(l.builder.stmts[11].block, BlockId(5));
    let mut m = MirLowerer::new(empty_ctx());
    let _ = m.lower_iter_extreme(&vec_chain(Vec::new()), false);
    assert!(matches!(&m.builder.stmts[9].stmt, MirStmt::Assign { rvalue: MirRValue::BinaryOp { op: BinOp::Lt, .. }, .. }));
}

#[test]
fn collect_sizes_vec_new_after_adapters() {
    let mut l = MirLowerer::new(empty_ctx());
    let chain = vec_chain(vec![IterAdapter::MapTo { func: "name_of".to_string(), ret_ty: MirType::String }]);
    let (op, _) = l.lower_iter_collect(&chain);
    assert!(matches!(op, MirOperand::Local(LocalId(0))));
    match &l.builder.stmts[0].stmt {
        MirStmt::Call { dst, func, args } => {
            assert_eq!(*dst, Some(LocalId(0)));
            assert_eq!(func, "Vec_new");
            assert!(matches!(args.as_slice(), [MirOperand::Constant(MirConst::Int(16))]));
        },
        other => panic!("unexpected {:?}", other),
    }
    assert_eq!(l.collected_elem_types.len(), 1);
    assert!(matches!(l.collected_elem_types[0], (LocalId(0), MirType::String)));
    let k = l.builder.stmts.len();
    assert_eq!(call_of(&l.builder.stmts[k - 3].stmt), (None, "Vec_push".to_string(), 2));
}

#[test]
fn to_map_reads_pairs() {
    let mut l = MirLowerer::new(empty_ctx());
    let chain = vec_chain(vec![IterAdapter::Enumerate]);
    let r = l.lower_iter_to_map(&chain);
    assert!(matches!(r, Ok((MirOperand::Local(LocalId(0)), MirType::I64))));
    match &l.builder.stmts[0].stmt {
        MirStmt::Call { func, args, .. } => {
            assert_eq!(func, "Map_new");
            assert!(matches!(args.as_slice(), [MirOperand::Constant(MirConst::Int(8)), MirOperand::Constant(MirConst::Int(8))]));
        },
        other => panic!("unexpected {:?}", other),
    }
    let k = l.builder.stmts.len();
    assert_eq!(call_of(&l.builder.stmts[k - 3].stmt), (None, "Map_insert".to_string(), 3));
    assert!(matches!(&l.builder.stmts[k - 4].stmt, MirStmt::Assign { rvalue: MirRValue::Field { field_index: 1, byte_offset: Some(8), .. }, .. }));
}

#[test]
fn to_map_rejects_non_pairs() {
    let mut l = MirLowerer::new(empty_ctx());
    match l.lower_iter_to_map(&vec_chain(Vec::new())) {
        Err(LoweringError::InvalidConstruct(msg)) => {
            assert_eq!(msg, format!("to_map needs a sequence of pairs, got {:?}", MirType::I64));
        },
        other => panic!("expected an invalid construct, got {:?}", other),
    }
}

#[test]
fn slot_sizes() {
    assert_eq!(MirLowerer::mir_slot_size(&MirType::U8), 8);
    assert_eq!(MirLowerer::mir_slot_size(&MirType::String), 16);
    assert_eq!(MirLowerer::mir_slot_size(&MirType::I128), 16);
}

#[test]
fn increment_block_bumps_index() {
    let mut l = MirLowerer::new(empty_ctx());
    let inc = l.builder.create_block();
    l.emit_iter_increment(LocalId(7), inc, BlockId(0));
    assert_eq!(l.builder.current, inc);
    assert!(matches!(&l.builder.terms[1], Some(MirTerminator::Goto { target: BlockId(0) })));
    assert!(matches!(&l.builder.stmts[1].stmt, MirStmt::Assign { dst: LocalId(7), rvalue: MirRValue::Use(MirOperand::Local(LocalId(0))) }));
}
