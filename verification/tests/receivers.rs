use lib::lowerer::{LowerCtx, MirLowerer};
use lib::mir::{LocalId, MirConst, MirOperand, MirStmt, MirType};

fn empty_ctx() -> LowerCtx {
    LowerCtx {
        struct_layouts: Vec::new(),
        enum_layouts: Vec::new(),
        type_names: Vec::new(),
        shared_elem_types: Vec::new(),
        trait_methods: Vec::new(),
    }
}

fn local(n: usize) -> MirOperand {
    MirOperand::Local(LocalId(n))
}

#[test]
fn array_methods_come_from_the_type() {
    let l = MirLowerer::new(empty_ctx());
    let arr = MirType::Array { elem: Box::new(MirType::I32), len: 3 };
    let (n, t) = l.try_lower_array_intrinsic("len", &Vec::new(), &local(1), &arr).unwrap();
    assert!(matches!(n, MirOperand::Constant(MirConst::Int(3))));
    assert!(matches!(t, MirType::I64));
    let (e, _) = l.try_lower_array_intrinsic("is_empty", &Vec::new(), &local(1), &arr).unwrap();
    assert!(matches!(e, MirOperand::Constant(MirConst::Bool(false))));
    let empty = MirType::Array { elem: Box::new(MirType::I32), len: 0 };
    let (e0, _) = l.try_lower_array_intrinsic("is_empty", &Vec::new(), &local(1), &empty).unwrap();
    assert!(matches!(e0, MirOperand::Constant(MirConst::Bool(true))));
    let (p, pt) = l.try_lower_array_intrinsic("as_mut_ptr", &Vec::new(), &local(1), &arr).unwrap();
    assert!(matches!(p, MirOperand::Local(LocalId(1))));
    assert!(matches!(pt, MirType::Ptr));
    assert!(l.try_lower_array_intrinsic("len", &vec![local(2)], &local(1), &arr).is_none());
    assert!(l.try_lower_array_intrinsic("first", &Vec::new(), &local(1), &arr).is_none());
    assert!(l.try_lower_array_intrinsic("len", &Vec::new(), &local(1), &MirType::Ptr).is_none());
}

#[test]
fn origin_reads_a_result() {
    let mut l = MirLowerer::new(empty_ctx());
    let res = MirType::Result { ok: Box::new(MirType::I64), err: Box::new(MirType::String) };
    let (op, ty) = l.try_lower_origin("origin", &Vec::new(), &local(4), &res).unwrap();
    assert!(matches!(op, MirOperand::Local(LocalId(0))));
    assert!(matches!(ty, MirType::String));
    match &l.builder.stmts[0].stmt {
        MirStmt::Call { dst, func, args } => {
            assert_eq!(*dst, Some(LocalId(0)));
            assert_eq!(func, "rask_result_origin");
            assert_eq!(args.len(), 1);
        },
        other => panic!("expected a call, got {:?}", other),
    }
    let (text, _) = l.try_lower_origin("origin", &Vec::new(), &local(4), &MirType::I64).unwrap();
    assert!(matches!(text, MirOperand::Constant(MirConst::String(ref s)) if s == "<no origin>"));
    assert!(l.try_lower_origin("origin", &vec![local(1)], &local(4), &res).is_none());
    assert_eq!(l.builder.stmts.len(), 1);
}
