use bridge_analysis::bridge_name_tracker::BridgeNameTracker;
use bridge_analysis::idents::{
    cxx_ident_verdict, has_bounded_nesting, is_ident_ok_for_rust, is_literal_admitted, read_ident,
    read_str_literal, rust_ident_verdict, validate_ident_ok_for_cxx, validate_ident_ok_for_rust,
};
use bridge_analysis::decisions::{ideal_name, ideal_name_given, wrapper_name_of};
use bridge_analysis::errors::ConvertError;
use bridge_analysis::gen_files::{implementation_file_name, implementation_file_names, PlanError};
use bridge_analysis::names::{Namespace, QualifiedName};
use bridge_analysis::overload_tracker::OverloadTracker;
use bridge_analysis::rust_name_tracker::RustNameTracker;
use bridge_analysis::text::{
    concat2, concat3, contains, decimal, ends_with, join, matches_at, same_text, starts_with,
    tail_from,
};

fn ns(segments: &[&str]) -> Namespace {
    Namespace::from_segments(segments.iter().map(|s| s.to_string()).collect())
}

#[test]
fn bridge_names_are_taken_as_proposed_then_qualified_then_numbered() {
    let mut bnt = BridgeNameTracker::new();
    let ns_root = Namespace::new();
    let ns_a = ns(&["A"]);
    let ns_b = ns(&["B"]);
    let ns_ab = ns(&["A", "B"]);
    assert_eq!(bnt.get_unique_cxx_bridge_name(None, "do", &ns_root), "do");
    assert_eq!(bnt.get_unique_cxx_bridge_name(None, "do", &ns_root), "do_autocxx1");
    assert_eq!(bnt.get_unique_cxx_bridge_name(None, "did", &ns_root), "did");
    assert_eq!(bnt.get_unique_cxx_bridge_name(Some("ty1"), "do", &ns_root), "ty1_do");
    assert_eq!(bnt.get_unique_cxx_bridge_name(Some("ty1"), "do", &ns_root), "ty1_do_autocxx1");
    assert_eq!(bnt.get_unique_cxx_bridge_name(Some("ty1"), "did", &ns_root), "ty1_did");
    assert_eq!(bnt.get_unique_cxx_bridge_name(Some("ty2"), "do", &ns_root), "ty2_do");
    assert_eq!(bnt.get_unique_cxx_bridge_name(Some("ty1"), "do", &ns_a), "A_ty1_do");
    assert_eq!(bnt.get_unique_cxx_bridge_name(Some("ty1"), "do", &ns_b), "B_ty1_do");
    assert_eq!(bnt.get_unique_cxx_bridge_name(Some("ty1"), "do", &ns_ab), "A_B_ty1_do");
    assert_eq!(bnt.get_unique_cxx_bridge_name(None, "do", &ns_ab), "A_B_do");
    assert_eq!(bnt.get_unique_cxx_bridge_name(None, "do", &ns_ab), "A_B_do_autocxx1");
    assert_eq!(bnt.get_unique_cxx_bridge_name(None, "do", &ns_ab), "A_B_do_autocxx2");
    assert_eq!(bnt.get_unique_cxx_bridge_name(None, "do", &ns_root), "do_autocxx2");
}

#[test]
fn bridge_names_never_repeat_even_when_a_proposal_looks_numbered() {
    let mut bnt = BridgeNameTracker::new();
    let root = Namespace::new();
    let mut seen: Vec<String> = Vec::new();
    for proposal in ["x_autocxx1", "x", "x", "x", "x_autocxx2", "x", "x_autocxx1", "x"] {
        let name = bnt.get_unique_cxx_bridge_name(None, proposal, &root);
        assert!(!seen.contains(&name), "{} was handed out twice", name);
        seen.push(name);
    }
    assert_eq!(
        seen,
        vec![
            "x_autocxx1",
            "x",
            "x_autocxx2",
            "x_autocxx3",
            "x_autocxx2_autocxx1",
            "x_autocxx4",
            "x_autocxx1_autocxx1",
            "x_autocxx5"
        ]
    );
    assert_eq!(bnt.issued_names(), seen);
}

#[test]
fn bridge_numbers_go_past_nine() {
    let mut bnt = BridgeNameTracker::new();
    let root = Namespace::new();
    let mut last = String::new();
    for _ in 0..12 {
        last = bnt.get_unique_cxx_bridge_name(None, "f", &root);
    }
    assert_eq!(last, "f_autocxx11");
}

#[test]
fn functions_sharing_a_name_are_numbered_in_first_seen_order() {
    let mut ot = OverloadTracker::new();
    let root = Namespace::new();
    assert_eq!(ot.get_function_real_name(&root, "foo".to_string()), "foo");
    assert_eq!(ot.get_function_real_name(&root, "foo".to_string()), "foo1");
    assert_eq!(ot.get_function_real_name(&root, "foo".to_string()), "foo2");
    assert_eq!(ot.get_function_real_name(&root, "bar".to_string()), "bar");
    assert_eq!(ot.get_function_real_name(&ns(&["a"]), "foo".to_string()), "foo");
    assert_eq!(ot.get_function_real_name(&root, "foo".to_string()), "foo3");
    assert_eq!(ot.len(), 6);
}

#[test]
fn methods_are_counted_by_their_type() {
    let mut ot = OverloadTracker::new();
    let root = Namespace::new();
    assert_eq!(ot.get_method_real_name(&root, "Ty1", "found".to_string()), "found");
    assert_eq!(ot.get_method_real_name(&root, "Ty1", "found".to_string()), "found1");
    assert_eq!(ot.get_method_real_name(&root, "Ty2", "found".to_string()), "found");
    assert_eq!(ot.get_method_real_name(&root, "Ty2", "found".to_string()), "found1");
    assert_eq!(ot.get_function_real_name(&root, "found".to_string()), "found");
}

#[test]
fn owning_type_is_taken_off_the_front_of_a_method_name() {
    let mut ot = OverloadTracker::new();
    let root = Namespace::new();
    assert_eq!(ot.get_method_real_name(&root, "Widget", "Widget_resize".to_string()), "resize");
    assert_eq!(ot.get_method_real_name(&root, "Widget", "resize".to_string()), "resize1");
    assert_eq!(ot.get_method_real_name(&root, "Widget", "Widget_Widget".to_string()), "Widget");
    assert_eq!(ot.get_method_real_name(&root, "Widget", "Widgets".to_string()), "Widgets");
    assert_eq!(ot.get_method_real_name(&root, "Widget", "Widget".to_string()), "Widget1");
    assert_eq!(ot.get_method_real_name(&root, "Widget", "Widget_".to_string()), "");
}

#[test]
fn a_managed_name_is_free_once() {
    let mut rnt = RustNameTracker::new();
    assert!(rnt.ok_to_use_rust_name("go"));
    assert!(!rnt.ok_to_use_rust_name("go"));
    assert!(rnt.ok_to_use_rust_name("stop"));
    assert!(!rnt.ok_to_use_rust_name("go"));
    assert!(!rnt.ok_to_use_rust_name("stop"));
}

#[test]
fn decimal_numerals() {
    assert_eq!(decimal(0), "0");
    assert_eq!(decimal(7), "7");
    assert_eq!(decimal(10), "10");
    assert_eq!(decimal(109), "109");
    assert_eq!(decimal(65535), "65535");
    assert_eq!(decimal(4294967295), "4294967295");
}

#[test]
fn text_helpers() {
    assert!(starts_with("Widget_new", "Widget"));
    assert!(starts_with("Widget", "Widget"));
    assert!(starts_with("Widget", ""));
    assert!(!starts_with("Widge", "Widget"));
    assert!(!starts_with("widget_new", "Widget"));
    assert!(ends_with("Widget_destructor", "_destructor"));
    assert!(!ends_with("destructor", "_destructor"));
    assert!(ends_with("a_", "_"));
    assert!(!ends_with("", "_"));
    assert!(contains("a__b", "__"));
    assert!(contains("__", "__"));
    assert!(!contains("a_b_", "__"));
    assert!(contains("abc", ""));
    assert!(!contains("", "a"));
    assert!(matches_at("hello", "ll", 2));
    assert!(!matches_at("hello", "ll", 3));
    assert!(!matches_at("hello", "lo", 4));
    assert!(matches_at("hello", "", 5));
    assert!(!matches_at("hello", "", 6));
    assert!(same_text("héllo", "héllo"));
    assert!(!same_text("héllo", "hello"));
    assert!(!same_text("a", "ab"));
    assert_eq!(tail_from("Widget1", 6), "1");
    assert_eq!(tail_from("Widget", 6), "");
    assert_eq!(tail_from("héllo", 2), "llo");
    assert_eq!(concat2("make_unique", "1"), "make_unique1");
    assert_eq!(concat3("a", "_", "b"), "a_b");
    let parts = vec!["a".to_string(), "b".to_string(), "c".to_string()];
    assert_eq!(join(&parts, "::"), "a::b::c");
    assert_eq!(join(&vec!["a".to_string()], "::"), "a");
    assert_eq!(join(&Vec::new(), "::"), "");
    assert_eq!(join(&vec![String::new(), "b".to_string()], "_"), "_b");
}

#[test]
fn qualified_names() {
    let q = QualifiedName::new(&ns(&["a", "b"]), "C".to_string());
    assert_eq!(q.to_cpp_name(), "a::b::C");
    assert_eq!(q.get_final_item(), "C");
    assert!(q.get_namespace().same(&ns(&["a", "b"])));
    assert!(!q.get_namespace().same(&ns(&["a"])));
    assert!(!q.is_cvoid());
    assert!(q.same(&q.clone()));
    assert!(!q.same(&QualifiedName::new(&ns(&["a"]), "C".to_string())));
    let root = QualifiedName::new(&Namespace::new(), "C".to_string());
    assert_eq!(root.to_cpp_name(), "C");
    let void = QualifiedName::new(&ns(&["std", "os", "raw"]), "c_void".to_string());
    assert!(void.is_cvoid());
    assert!(!QualifiedName::new(&ns(&["std", "os"]), "c_void".to_string()).is_cvoid());
    assert!(!QualifiedName::new(&ns(&["std", "os", "raw"]), "c_int".to_string()).is_cvoid());
}

#[test]
fn identifiers_of_the_managed_language() {
    for good in ["foo", "_foo", "foo_", "r2d2", "Widget", "async", "héllo"] {
        assert!(is_ident_ok_for_rust(good), "{} should be accepted", good);
        assert!(validate_ident_ok_for_rust(good).is_ok());
    }
    for bad in ["move", "fn", "self", "_", "", "2fast", "a b", " a", "a-b", "a::b", "\"a\""] {
        assert!(!is_ident_ok_for_rust(bad), "{} should be rejected", bad);
        match validate_ident_ok_for_rust(bad) {
            Err(ConvertError::InvalidIdentifier(name)) => assert_eq!(name, bad),
            _ => panic!("{} should be rejected", bad),
        }
    }
}

#[test]
fn identifiers_of_the_bridge() {
    for good in ["foo", "_foo", "foo_bar", "_bindgen_ty", "a_b_c"] {
        assert!(validate_ident_ok_for_cxx(good).is_ok(), "{} should be accepted", good);
    }
    for bad in ["move", "a__b", "__a", "a__", "_bindgen_ty_1", "_bindgen_ty_", "", "a b"] {
        match validate_ident_ok_for_cxx(bad) {
            Err(ConvertError::InvalidIdentifier(name)) => assert_eq!(name, bad),
            _ => panic!("{} should be rejected", bad),
        }
    }
}

#[test]
fn verdicts_follow_what_the_parser_read() {
    assert!(rust_ident_verdict("foo", &Some("foo".to_string())));
    assert!(!rust_ident_verdict(" foo", &Some("foo".to_string())));
    assert!(!rust_ident_verdict("foo", &None));
    assert!(cxx_ident_verdict("foo", &Some("foo".to_string())));
    assert!(!cxx_ident_verdict("a__b", &Some("a__b".to_string())));
    assert!(!cxx_ident_verdict("_bindgen_ty_7", &Some("_bindgen_ty_7".to_string())));
    assert!(!cxx_ident_verdict("foo", &None));
}

#[test]
fn ideal_names() {
    assert_eq!(ideal_name("foo", &None), "foo");
    assert_eq!(ideal_name("move_", &Some("move".to_string())), "move_");
    assert_eq!(ideal_name("foo1", &Some("foo".to_string())), "foo");
    assert_eq!(ideal_name("A_foo", &Some("foo".to_string())), "foo");
    assert_eq!(ideal_name("A_move", &Some("move".to_string())), "move_");
    assert_eq!(ideal_name("A_foo1", &Some("foo".to_string())), "foo");
    assert_eq!(ideal_name_given("A_x", &Some("x".to_string()), false), "x_");
    assert_eq!(ideal_name_given("A_x", &Some("x".to_string()), true), "x");
    assert_eq!(ideal_name_given("x_", &Some("y".to_string()), true), "x_");
    assert_eq!(ideal_name_given("x", &None, false), "x");
}

#[test]
fn wrapper_names_avoid_a_double_underscore() {
    assert_eq!(wrapper_name_of("foo"), "foo_autocxx_wrapper");
    assert_eq!(wrapper_name_of("foo_"), "foo_autocxx_wrapper");
    assert_eq!(wrapper_name_of(""), "_autocxx_wrapper");
}

#[test]
fn generated_files_are_numbered_from_zero() {
    assert_eq!(implementation_file_name(0), "gen0.cxx");
    assert_eq!(implementation_file_name(12), "gen12.cxx");
    assert_eq!(implementation_file_names(0), Err(PlanError::NoIncludeCxxMacrosFound));
    assert_eq!(
        implementation_file_names(3),
        Ok(vec!["gen0.cxx".to_string(), "gen1.cxx".to_string(), "gen2.cxx".to_string()])
    );
}

#[test]
fn string_literals_are_read_only_from_texts_that_begin_like_one() {
    assert_eq!(read_str_literal("\"move_ctor\""), Some("move_ctor".to_string()));
    assert_eq!(read_str_literal("\"a\\nb\""), Some("a\nb".to_string()));
    assert_eq!(read_str_literal("\"f(x)[y]{z}\""), Some("f(x)[y]{z}".to_string()));
    assert_eq!(read_str_literal("r\"a\\nb\""), Some("a\\nb".to_string()));
    assert_eq!(read_str_literal("r#\"a\"b\"#"), Some("a\"b".to_string()));
    assert_eq!(read_str_literal("\"\""), Some(String::new()));
    for none in [
        "",
        "c\"x\"",
        "cr\"x\"",
        "cr#\"x\"#",
        "(/*ERROR*/)",
        "b\"x\"",
        "br\"x\"",
        "'x'",
        "1",
        "-1",
        "true",
        "move_ctor",
        "raw",
        "r#raw",
        " \"x\"",
        "\"x\" \"y\"",
        "\"x",
        "\"\\q\"",
        "r\"x",
    ] {
        assert_eq!(read_str_literal(none), None, "{:?} is no string literal", none);
    }
    assert!(is_literal_admitted("\"x\""));
    assert!(is_literal_admitted("r"));
    assert!(!is_literal_admitted(""));
    assert!(!is_literal_admitted("c\"x\""));
    assert!(!is_literal_admitted(" \"x\""));
}

#[test]
fn texts_with_many_opening_brackets_are_not_parsed() {
    let at_bound = format!("{}{}", "(".repeat(64), ")".repeat(64));
    let over_bound = format!("{}{}", "(".repeat(65), ")".repeat(65));
    let deep = format!("{}{}", "[".repeat(100_000), "]".repeat(100_000));
    assert!(has_bounded_nesting(""));
    assert!(has_bounded_nesting("a(b[c{d"));
    assert!(has_bounded_nesting(&at_bound));
    assert!(!has_bounded_nesting(&over_bound));
    assert!(has_bounded_nesting(&")".repeat(100)));
    assert!(!has_bounded_nesting(&"{".repeat(65)));
    assert_eq!(read_ident(&at_bound), None);
    assert_eq!(read_ident(&over_bound), None);
    assert_eq!(read_ident("foo"), Some("foo".to_string()));
    assert_eq!(read_ident(" foo "), Some("foo".to_string()));
    assert_eq!(read_ident("fn"), None);
    assert!(!is_ident_ok_for_rust(&over_bound));
    assert!(validate_ident_ok_for_cxx(&over_bound).is_err());
    let literal_then_deep = format!("\"x\" {}", over_bound);
    assert!(!is_literal_admitted(&literal_then_deep));
    assert_eq!(read_str_literal(&literal_then_deep), None);
    assert_eq!(read_str_literal(&format!("\"{}\"", "(".repeat(64))), Some("(".repeat(64)));
    assert_eq!(read_str_literal(&format!("\"{}\"", "(".repeat(65))), None);
    assert!(!has_bounded_nesting(&deep[..2000]));
}
