use lib::closure_params::{fn_type_param_strs, split_params};
use lib::lowerer::{LocalMeta, LowerCtx, MirLowerer};
use lib::mir::MirType;

fn strs(v: &[&str]) -> Vec<String> {
    v.iter().map(|s| s.to_string()).collect()
}

#[test]
fn closure_params_come_from_the_callee_function_type() {
    let params = vec![
        None,
        Some("func(i64, string) -> bool".to_string()),
        Some("i64".to_string()),
        Some("func(Map<K, V>, func(i64) -> i64) -> i64".to_string()),
        Some("func()".to_string()),
    ];
    assert!(MirLowerer::expected_closure_param_tys(&params, 0).is_empty());
    assert_eq!(MirLowerer::expected_closure_param_tys(&params, 1), strs(&["i64", "string"]));
    assert!(MirLowerer::expected_closure_param_tys(&params, 2).is_empty());
    assert_eq!(
        MirLowerer::expected_closure_param_tys(&params, 3),
        strs(&["Map<K, V>", "func(i64) -> i64"])
    );
    assert!(MirLowerer::expected_closure_param_tys(&params, 4).is_empty());
    assert!(MirLowerer::expected_closure_param_tys(&params, 9).is_empty());
}

#[test]
fn function_type_text_is_trimmed_and_must_close() {
    assert_eq!(fn_type_param_strs("  func( a ,b ) -> c "), Some(strs(&["a", "b"])));
    assert_eq!(fn_type_param_strs("func(a, b"), None);
    assert_eq!(fn_type_param_strs("fun(a)"), None);
    assert_eq!(fn_type_param_strs("func() -> i64"), Some(Vec::new()));
    assert_eq!(fn_type_param_strs("func([i64; 3], (a, b))"), Some(strs(&["[i64; 3]", "(a, b)"])));
}

#[test]
fn params_split_outside_brackets() {
    assert_eq!(split_params("i64, Map<K, V>"), strs(&["i64", "Map<K, V>"]));
    assert_eq!(split_params("a,"), strs(&["a"]));
    assert_eq!(split_params(""), Vec::<String>::new());
    assert_eq!(split_params("func(a) -> b, c"), strs(&["func(a) -> b", "c"]));
}

#[test]
fn element_closures_take_the_tracked_element_type() {
    let ctx = LowerCtx {
        struct_layouts: Vec::new(),
        enum_layouts: Vec::new(),
        type_names: Vec::new(),
        shared_elem_types: vec![("names".to_string(), MirType::String)],
        trait_methods: Vec::new(),
    };
    let mut l = MirLowerer::new(ctx);
    l.meta.push(("flags".to_string(), LocalMeta { elem_type: Some(MirType::Bool), type_prefix: None, full_type: None }));
    l.meta.push(("ids".to_string(), LocalMeta { elem_type: Some(MirType::I64), type_prefix: None, full_type: None }));
    assert_eq!(l.elem_closure_param_tys(Some("names"), "sort_by"), strs(&["string", "string"]));
    assert_eq!(l.elem_closure_param_tys(Some("flags"), "any"), strs(&["bool"]));
    // an element type without a name, an unknown key, no key, a method with no closure
    assert!(l.elem_closure_param_tys(Some("ids"), "any").is_empty());
    assert!(l.elem_closure_param_tys(Some("other"), "any").is_empty());
    assert!(l.elem_closure_param_tys(None, "any").is_empty());
    assert!(l.elem_closure_param_tys(Some("names"), "push").is_empty());
}
