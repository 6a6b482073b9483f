use lib::json_decode::{
    parse_type_str, prim_shape_kind, split_type_args, type_label, JSHAPE_I64, JSHAPE_STRING,
    JSHAPE_U64,
};
use lib::mir::{MirType, TypeList};
use lib::text::{before_char_str, is_whitespace, parse_usize, str_eq, trim};
use lib::types::{ArgList, GenericArg, Type};

#[test]
fn str_eq_compares_characters() {
    assert!(str_eq("abc", "abc"));
    assert!(!str_eq("abc", "abd"));
    assert!(!str_eq("ab", "abc"));
    assert!(str_eq("", ""));
}

#[test]
fn parse_usize_reads_decimal_digits() {
    assert_eq!(parse_usize("42"), Some(42));
    assert_eq!(parse_usize("007"), Some(7));
    assert_eq!(parse_usize("+3"), Some(3));
    assert_eq!(parse_usize(""), None);
    assert_eq!(parse_usize("+"), None);
    assert_eq!(parse_usize("-1"), None);
    assert_eq!(parse_usize("4a"), None);
    assert_eq!(parse_usize(" 4"), None);
    assert_eq!(parse_usize("99999999999999999999999999"), None);
}

#[test]
fn parse_usize_agrees_with_std() {
    for s in ["0", "1", "18", "+18", "1_0", "", "x", "18446744073709551615", "18446744073709551616"] {
        assert_eq!(parse_usize(s), s.parse::<usize>().ok(), "input {:?}", s);
    }
}

#[test]
fn trim_drops_surrounding_whitespace_only() {
    assert_eq!(trim("  a b \t\n"), "a b");
    assert_eq!(trim("x"), "x");
    assert_eq!(trim("   "), "");
    assert_eq!(trim("\u{3000}wide\u{a0}"), "wide");
    for s in ["  a ", "\t\tb c\n", "", " \u{2028} q"] {
        assert_eq!(trim(s), s.trim());
    }
}

#[test]
fn whitespace_matches_std() {
    for c in [' ', '\t', '\n', '\r', '\u{b}', '\u{c}', '\u{85}', '\u{a0}', '\u{1680}', '\u{2000}', '\u{200a}', '\u{2028}', '\u{2029}', '\u{202f}', '\u{205f}', '\u{3000}', 'a', '_', '\u{200b}', '0'] {
        assert_eq!(is_whitespace(c), c.is_whitespace(), "char {:?}", c);
    }
}

#[test]
fn before_char_cuts_at_first_occurrence() {
    assert_eq!(before_char_str("Vec<T>", '<'), "Vec");
    assert_eq!(before_char_str("Map<K, V<W>>", '<'), "Map");
    assert_eq!(before_char_str("plain", '<'), "plain");
    assert_eq!(before_char_str("<x>", '<'), "");
}

#[test]
fn split_type_args_splits_on_top_level_commas() {
    assert_eq!(split_type_args("string, Map<K, V>"), vec!["string".to_string(), "Map<K, V>".to_string()]);
    assert_eq!(split_type_args("a,b , c"), vec!["a", "b", "c"]);
    assert_eq!(split_type_args(""), Vec::<String>::new());
    assert_eq!(split_type_args("a, "), vec!["a"]);
    assert_eq!(split_type_args(", a"), vec!["", "a"]);
    assert_eq!(split_type_args("Vec<Map<a, b>>, i64"), vec!["Vec<Map<a, b>>", "i64"]);
}

#[test]
fn prim_shape_kind_reads_resolved_and_written_primitives() {
    assert_eq!(prim_shape_kind(&Type::I64), Some(JSHAPE_I64));
    assert_eq!(prim_shape_kind(&Type::String), Some(JSHAPE_STRING));
    assert_eq!(prim_shape_kind(&Type::UnresolvedNamed("usize".to_string())), Some(JSHAPE_U64));
    assert_eq!(prim_shape_kind(&Type::UnresolvedNamed("isize".to_string())), Some(JSHAPE_I64));
    assert_eq!(prim_shape_kind(&Type::UnresolvedNamed("User".to_string())), None);
    assert_eq!(prim_shape_kind(&Type::Char), None);
    assert_eq!(prim_shape_kind(&Type::Bool), Some(0));
    assert_eq!(prim_shape_kind(&Type::F64), Some(10));
}

#[test]
fn parse_type_str_reads_written_types() {
    assert!(matches!(parse_type_str(" i32 "), Type::I32));
    assert!(matches!(parse_type_str("usize"), Type::U64));
    assert!(matches!(parse_type_str("string"), Type::String));
    match parse_type_str("User") {
        Type::UnresolvedNamed(n) => assert_eq!(n, "User"),
        other => panic!("unexpected {:?}", other),
    }
    match parse_type_str("i64?") {
        Type::Result { ok, err } => {
            assert!(matches!(*ok, Type::I64));
            assert!(matches!(*err, Type::NoneType));
        },
        other => panic!("unexpected {:?}", other),
    }
    match parse_type_str("Map<string, Vec<User>>") {
        Type::UnresolvedGeneric { name, args } => {
            assert_eq!(name, "Map");
            match args {
                ArgList::Cons(GenericArg::Type(k), rest) => {
                    assert!(matches!(*k, Type::String));
                    match *rest {
                        ArgList::Cons(GenericArg::Type(v), tail) => {
                            assert!(matches!(*tail, ArgList::Nil));
                            match *v {
                                Type::UnresolvedGeneric { name, args } => {
                                    assert_eq!(name, "Vec");
                                    assert!(matches!(args, ArgList::Cons(GenericArg::Type(_), _)));
                                },
                                other => panic!("unexpected {:?}", other),
                            }
                        },
                        other => panic!("unexpected {:?}", other),
                    }
                },
                other => panic!("unexpected {:?}", other),
            }
        },
        other => panic!("unexpected {:?}", other),
    }
}

#[test]
fn type_label_names_unresolved_types_as_written() {
    assert_eq!(type_label(&Type::UnresolvedNamed("User".to_string())), "User");
    assert_eq!(
        type_label(&Type::UnresolvedGeneric { name: "Vec".to_string(), args: ArgList::Nil }),
        "Vec"
    );
    assert_eq!(type_label(&Type::Bool), format!("{:?}", Type::Bool));
}

#[test]
fn type_sizes_and_alignments() {
    assert_eq!(MirType::I32.size(), 4);
    assert_eq!(MirType::String.size(), 16);
    assert_eq!(MirType::Option(Box::new(MirType::I64)).size(), 16);
    assert_eq!(
        MirType::Result { ok: Box::new(MirType::I32), err: Box::new(MirType::String) }.size(),
        40
    );
    assert_eq!(MirType::Array { elem: Box::new(MirType::U16), len: 5 }.size(), 10);
    assert_eq!(MirType::I128.align(), 16);
    let pair = TypeList::from_vec(vec![MirType::I8, MirType::I64]);
    assert_eq!(pair.size(), 9);
    assert_eq!(pair.align(), 8);
}

#[test]
fn split_type_args_without_angles_is_a_trimmed_split() {
    assert_eq!(split_type_args(""), Vec::<String>::new());
    assert_eq!(split_type_args("a, b,"), vec!["a".to_string(), "b".to_string()]);
    assert_eq!(split_type_args("a,,b"), vec!["a".to_string(), "".to_string(), "b".to_string()]);
    for s in ["x", " i64 , string ", ",", "a,b, ,"] {
        let mut v: Vec<String> = s.split(',').map(|p| p.trim().to_string()).collect();
        if v.last().unwrap().is_empty() {
            v.pop();
        }
        assert_eq!(split_type_args(s), v);
    }
}
