use lib::debug_text::{checker_type_debug, mir_type_debug};
use lib::mir::{EnumLayoutId, MirType, TypeList};
use lib::types::{ArgList, GenericArg, Type, TypeSeq};

fn tuple(items: Vec<MirType>) -> MirType {
    let mut l = TypeList::Nil;
    for t in items.into_iter().rev() {
        l = TypeList::Cons(Box::new(t), Box::new(l));
    }
    MirType::Tuple(l)
}

#[test]
fn mir_types_print_as_derived_debug_does() {
    assert_eq!(mir_type_debug(&MirType::I64), "I64");
    assert_eq!(mir_type_debug(&tuple(vec![MirType::I64, MirType::Bool])), "Tuple([I64, Bool])");
    assert_eq!(mir_type_debug(&tuple(Vec::new())), "Tuple([])");
    assert_eq!(
        mir_type_debug(&MirType::Result { ok: Box::new(MirType::U8), err: Box::new(MirType::String) }),
        "Result { ok: U8, err: String }"
    );
    assert_eq!(
        mir_type_debug(&MirType::Array { elem: Box::new(MirType::Option(Box::new(MirType::I32))), len: 120 }),
        "Array { elem: Option(I32), len: 120 }"
    );
    assert_eq!(
        mir_type_debug(&MirType::Enum(EnumLayoutId { id: 3, size: 16, align: 8 })),
        "Enum(EnumLayoutId { id: 3, size: 16, align: 8 })"
    );
    assert_eq!(
        mir_type_debug(&MirType::TraitObject { trait_name: "Sh\"a\\pe".to_string() }),
        "TraitObject { trait_name: \"Sh\\\"a\\\\pe\" }"
    );
}

#[test]
fn mir_debug_matches_std_for_plain_names() {
    let name = "Shape\n\t".to_string();
    assert_eq!(
        mir_type_debug(&MirType::TraitObject { trait_name: name.clone() }),
        format!("TraitObject {{ trait_name: {:?} }}", name)
    );
}

#[test]
fn checker_types_print_as_derived_debug_does() {
    assert_eq!(checker_type_debug(&Type::NoneType), "None");
    assert_eq!(checker_type_debug(&Type::Var(7)), "Var(7)");
    let args = ArgList::Cons(
        GenericArg::Type(Box::new(Type::I64)),
        Box::new(ArgList::Cons(GenericArg::Const(10), Box::new(ArgList::Nil))),
    );
    assert_eq!(checker_type_debug(&Type::Generic { base: 2, args }), "Generic { base: 2, args: [Type(I64), Const(10)] }");
    let params = TypeSeq::Cons(Box::new(Type::Bool), Box::new(TypeSeq::Nil));
    assert_eq!(
        checker_type_debug(&Type::Fn { params, ret: Box::new(Type::RawPtr(Box::new(Type::U8))) }),
        "Fn { params: [Bool], ret: RawPtr(U8) }"
    );
    assert_eq!(
        checker_type_debug(&Type::UnresolvedGeneric { name: "Map".to_string(), args: ArgList::Nil }),
        "UnresolvedGeneric { name: \"Map\", args: [] }"
    );
}
