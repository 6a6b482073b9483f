use lib::lowerer::{EnumLayout, LowerCtx, MirLowerer, VariantLayout};
use lib::mir::{EnumLayoutId, MirType};
use lib::text::after_last_str;

fn variant(name: &str, tag: u64) -> VariantLayout {
    VariantLayout { name: name.to_string(), tag, payload_offset: 8, fields: Vec::new() }
}

fn ctx_with_error_enum() -> LowerCtx {
    let mut ctx = LowerCtx {
        struct_layouts: Vec::new(),
        enum_layouts: Vec::new(),
        type_names: Vec::new(),
        shared_elem_types: Vec::new(),
        trait_methods: Vec::new(),
    };
    ctx.enum_layouts.push(EnumLayout {
        name: "IoError".to_string(),
        size: 16,
        align: 8,
        tag_offset: 0,
        variants: vec![variant("NotFound", 0), variant("Denied", 1), variant("Closed", 7)],
    });
    ctx
}

fn io_result() -> MirType {
    MirType::Result {
        ok: Box::new(MirType::I64),
        err: Box::new(MirType::Enum(EnumLayoutId { id: 0, size: 16, align: 8 })),
    }
}

#[test]
fn after_last_takes_the_final_segment() {
    assert_eq!(after_last_str("IoError.Closed", '.'), "Closed");
    assert_eq!(after_last_str("a.b.c", '.'), "c");
    assert_eq!(after_last_str("Closed", '.'), "Closed");
    assert_eq!(after_last_str("trailing.", '.'), "");
    assert_eq!(after_last_str("", '.'), "");
}

#[test]
fn error_variant_is_found_by_its_bare_name() {
    let l = MirLowerer::new(ctx_with_error_enum());
    let (ty, tag) = l.err_variant_of_result(Some("IoError.Closed"), &io_result()).unwrap();
    assert_eq!(tag, 7);
    assert!(matches!(ty, MirType::Enum(EnumLayoutId { id: 0, .. })));
    let (_, tag) = l.err_variant_of_result(Some("Denied"), &io_result()).unwrap();
    assert_eq!(tag, 1);
}

#[test]
fn error_variant_needs_a_result_over_a_known_enum() {
    let l = MirLowerer::new(ctx_with_error_enum());
    assert!(l.err_variant_of_result(Some("Ok"), &io_result()).is_none());
    assert!(l.err_variant_of_result(None, &io_result()).is_none());
    assert!(l.err_variant_of_result(Some("Closed"), &MirType::I64).is_none());
    let string_err = MirType::Result { ok: Box::new(MirType::I64), err: Box::new(MirType::String) };
    assert!(l.err_variant_of_result(Some("Closed"), &string_err).is_none());
    let unknown = MirType::Result {
        ok: Box::new(MirType::I64),
        err: Box::new(MirType::Enum(EnumLayoutId { id: 5, size: 16, align: 8 })),
    };
    assert!(l.err_variant_of_result(Some("Closed"), &unknown).is_none());
}
