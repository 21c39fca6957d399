use bridge_analysis::api::{
    Annotation, Api, ApiName, CppFunctionBody, FnAnalysisBody, FnArg, FnKind, FuncToConvert,
    MethodKind, NullAnalysis, Pat, RustRenameStrategy, TypeKind, Visibility,
};
use bridge_analysis::config::{IncludeCppConfig, KnownTypes, UnsafePolicy};
use bridge_analysis::errors::{ConvertError, ErrorContext};
use bridge_analysis::fn_analyzer::FnAnalyzer;
use bridge_analysis::names::{Namespace, QualifiedName};
use bridge_analysis::types::{ConversionKind, NativeType};

fn root() -> Namespace {
    Namespace::new()
}

fn qn(name: &str) -> QualifiedName {
    QualifiedName::new(&root(), name.to_string())
}

fn qn_in(ns: &[&str], name: &str) -> QualifiedName {
    let ns = Namespace::from_segments(ns.iter().map(|s| s.to_string()).collect());
    QualifiedName::new(&ns, name.to_string())
}

fn named(name: &str) -> NativeType {
    NativeType::Path(qn(name))
}

fn ptr(mutable: bool, to: NativeType) -> NativeType {
    NativeType::Ptr { mutable, elem: Box::new(to) }
}

fn arg(name: &str, ty: NativeType) -> FnArg {
    FnArg { pat: Pat::Ident(name.to_string()), ty }
}

fn note(name: &str, args: &str) -> Annotation {
    Annotation { name: name.to_string(), args: args.to_string() }
}

fn declaration(ident: &str, inputs: Vec<FnArg>, output: Option<NativeType>) -> FuncToConvert {
    FuncToConvert {
        ident: ident.to_string(),
        attrs: Vec::new(),
        vis: Visibility::Public,
        inputs,
        output,
        virtual_this_type: None,
        self_ty: None,
    }
}

fn function(ident: &str, cpp_name: Option<&str>, fun: FuncToConvert) -> Api<NullAnalysis> {
    Api::Function {
        name: ApiName { cpp_name: cpp_name.map(|s| s.to_string()), name: qn(ident) },
        fun,
        analysis: NullAnalysis,
    }
}

fn config(allow: &[&str]) -> IncludeCppConfig {
    IncludeCppConfig {
        allowlist: allow.iter().map(|s| s.to_string()).collect(),
        exclude_utilities: false,
    }
}

fn known() -> KnownTypes {
    KnownTypes {
        pod_safe: vec![qn("int")],
        string_like: vec![qn_in(&["std"], "string")],
        unacceptable_receivers: vec![qn("Abstract")],
    }
}

fn run(apis: Vec<Api<NullAnalysis>>, allow: &[&str]) -> Vec<Api<FnAnalysisBody>> {
    let config = config(allow);
    let known = known();
    FnAnalyzer::analyze_functions(apis, UnsafePolicy::AllFunctionsSafe, &config, &known)
}

fn analysis_of(api: &Api<FnAnalysisBody>) -> &FnAnalysisBody {
    match api {
        Api::Function { analysis, .. } => analysis,
        _ => panic!("not a function"),
    }
}

fn error_of(api: &Api<FnAnalysisBody>) -> (&ConvertError, &ErrorContext) {
    match api {
        Api::IgnoredItem { err, ctx, .. } => (err, ctx),
        _ => panic!("not an ignored item"),
    }
}

fn same_type(a: &NativeType, b: &NativeType) -> bool {
    match (a, b) {
        (NativeType::Path(x), NativeType::Path(y)) => x.same(y),
        (
            NativeType::Ptr { mutable: m, elem: x },
            NativeType::Ptr { mutable: n, elem: y },
        ) => m == n && same_type(x, y),
        (
            NativeType::Reference { mutable: m, elem: x },
            NativeType::Reference { mutable: n, elem: y },
        ) => m == n && same_type(x, y),
        (NativeType::UniquePtr(x), NativeType::UniquePtr(y)) => same_type(x, y),
        _ => false,
    }
}

#[test]
fn free_function_of_plain_types_needs_no_shim() {
    let f = declaration(
        "native_add",
        vec![arg("a", named("int")), arg("b", named("int"))],
        Some(named("int")),
    );
    let out = run(vec![function("native_add", None, f)], &[]);
    assert_eq!(out.len(), 1);
    let a = analysis_of(&out[0]);
    assert_eq!(a.cxxbridge_name, "native_add");
    assert_eq!(a.rust_name, "native_add");
    assert!(matches!(a.rust_rename_strategy, RustRenameStrategy::NoRenameNeeded));
    assert!(a.cpp_wrapper.is_none());
    assert!(matches!(a.kind, FnKind::Function));
    assert!(!a.requires_unsafe);
    assert_eq!(a.params.len(), 2);
    assert_eq!(a.params[0].pat.text(), "a");
    assert_eq!(a.params[1].pat.text(), "b");
    assert!(same_type(&a.params[0].ty, &named("int")));
    assert!(same_type(a.ret_type.as_ref().unwrap(), &named("int")));
    assert!(matches!(a.param_details[0].conversion.conversion, ConversionKind::Unconverted));
    assert_eq!(a.deps.len(), 1);
    assert!(a.deps[0].same(&qn("int")));
    assert!(!out[0].needs_cpp_codegen());
    assert_eq!(out[0].cxxbridge_name(), Some("native_add".to_string()));
    assert!(out[0].typename_for_allowlist().same(&qn("native_add")));
    match &out[0] {
        Api::Function { name, .. } => {
            assert!(name.cpp_name.is_none());
            assert!(name.name.same(&qn("native_add")));
        }
        _ => panic!("not a function"),
    }
}

#[test]
fn method_with_receiver_is_normal() {
    let f = declaration(
        "Widget_resize",
        vec![arg("this", ptr(true, named("Widget"))), arg("w", named("int"))],
        None,
    );
    let apis = vec![
        Api::Struct { name: qn("Widget"), kind: TypeKind::NonPod, field_deps: Vec::new() },
        function("Widget_resize", None, f),
    ];
    let out = run(apis, &["Widget"]);
    assert_eq!(out.len(), 2);
    let a = analysis_of(&out[1]);
    match &a.kind {
        FnKind::Method(ty, MethodKind::Normal) => assert!(ty.same(&qn("Widget"))),
        _ => panic!("not a normal method"),
    }
    assert_eq!(a.rust_name, "resize");
    assert_eq!(a.cxxbridge_name, "resize");
    assert!(matches!(a.rust_rename_strategy, RustRenameStrategy::NoRenameNeeded));
    assert!(a.cpp_wrapper.is_none());
    assert_eq!(a.params.len(), 2);
    assert_eq!(a.params[0].pat.text(), "self");
    assert!(same_type(
        &a.params[0].ty,
        &NativeType::Reference { mutable: true, elem: Box::new(named("Widget")) }
    ));
    assert!(a.param_details[0].self_type.as_ref().unwrap().same(&qn("Widget")));
    assert!(a.param_details[0].was_reference);
    assert!(!a.param_details[0].is_virtual);
    assert!(a.ret_type.is_none());
    assert!(out[1].typename_for_allowlist().same(&qn("Widget")));
    match &out[1] {
        Api::Function { name, .. } => {
            assert!(name.name.same(&qn("resize")));
            assert!(name.cpp_name.is_none());
        }
        _ => panic!("not a function"),
    }
}

#[test]
fn method_named_like_its_type_is_a_constructor() {
    let f = declaration("Widget_new", vec![arg("this", ptr(true, named("Widget")))], None);
    let apis = vec![
        Api::Struct { name: qn("Widget"), kind: TypeKind::NonPod, field_deps: Vec::new() },
        function("Widget_new", Some("Widget"), f),
    ];
    let out = run(apis, &["Widget"]);
    assert_eq!(out.len(), 2);
    let a = analysis_of(&out[1]);
    match &a.kind {
        FnKind::Method(ty, MethodKind::Constructor) => assert!(ty.same(&qn("Widget"))),
        _ => panic!("not a constructor"),
    }
    assert_eq!(a.rust_name, "make_unique");
    assert_eq!(a.cxxbridge_name, "make_unique_autocxx_wrapper");
    assert!(a.params.is_empty());
    assert!(a.param_details.is_empty());
    assert!(same_type(
        a.ret_type.as_ref().unwrap(),
        &NativeType::UniquePtr(Box::new(named("Widget")))
    ));
    let shim = a.cpp_wrapper.as_ref().unwrap();
    assert!(matches!(shim.payload, CppFunctionBody::Constructor));
    assert!(!shim.is_a_method);
    assert_eq!(shim.wrapper_function_name, "make_unique_autocxx_wrapper");
    assert!(matches!(
        shim.return_conversion.as_ref().unwrap().conversion,
        ConversionKind::ToOwnedPointer
    ));
    assert!(shim.argument_conversion.is_empty());
    assert_eq!(a.deps.len(), 1);
    assert!(a.deps[0].same(&qn("Widget")));
    assert!(out[1].needs_cpp_codegen());
}

#[test]
fn front_end_name_of_a_constructor_is_recognised_without_native_name() {
    let f = declaration("Widget_Widget", vec![arg("this", ptr(true, named("Widget")))], None);
    let apis = vec![function("Widget_Widget", None, f)];
    let out = run(apis, &["Widget"]);
    let a = analysis_of(&out[0]);
    assert!(matches!(a.kind, FnKind::Method(_, MethodKind::Constructor)));
    assert_eq!(a.rust_name, "make_unique");
}

#[test]
fn overloaded_constructors_keep_their_numbers() {
    let first = declaration("Widget_Widget", vec![arg("this", ptr(true, named("Widget")))], None);
    let second = declaration(
        "Widget_Widget1",
        vec![arg("this", ptr(true, named("Widget"))), arg("size", named("int"))],
        None,
    );
    let apis = vec![
        function("Widget_Widget", Some("Widget"), first),
        function("Widget_Widget1", Some("Widget"), second),
    ];
    let out = run(apis, &["Widget"]);
    assert_eq!(analysis_of(&out[0]).rust_name, "make_unique");
    assert_eq!(analysis_of(&out[1]).rust_name, "make_unique1");
    assert_eq!(analysis_of(&out[1]).cxxbridge_name, "make_unique1_autocxx_wrapper");
    assert_eq!(analysis_of(&out[1]).params.len(), 1);
    assert_eq!(analysis_of(&out[1]).params[0].pat.text(), "size");
}

#[test]
fn reference_return_without_reference_parameter_is_rejected() {
    let mut f = declaration(
        "peek",
        vec![arg("a", named("int"))],
        Some(ptr(false, named("int"))),
    );
    f.attrs.push(note("bindgen_ret_type_reference", ""));
    let out = run(vec![function("peek", None, f)], &[]);
    assert_eq!(out.len(), 1);
    let (err, ctx) = error_of(&out[0]);
    match err {
        ConvertError::AmbiguousReferenceReturn(name) => assert_eq!(name, "peek"),
        _ => panic!("wrong error"),
    }
    match ctx {
        ErrorContext::Item(id) => assert_eq!(id, "peek"),
        _ => panic!("wrong context"),
    }
    assert!(out[0].name().same(&qn("peek")));
    assert_eq!(out[0].cxxbridge_name(), None);
}

#[test]
fn reference_return_with_one_reference_parameter_is_accepted() {
    let mut f = declaration(
        "first",
        vec![arg("a", ptr(false, named("int"))), arg("b", named("int"))],
        Some(ptr(false, named("int"))),
    );
    f.attrs.push(note("bindgen_arg_type_reference", "a"));
    f.attrs.push(note("bindgen_ret_type_reference", ""));
    let out = run(vec![function("first", None, f)], &[]);
    let a = analysis_of(&out[0]);
    assert!(a.param_details[0].was_reference);
    assert!(!a.param_details[1].was_reference);
    assert!(same_type(
        a.ret_type.as_ref().unwrap(),
        &NativeType::Reference { mutable: false, elem: Box::new(named("int")) }
    ));
    assert!(a.cpp_wrapper.is_none());
    assert!(!a.requires_unsafe);
}

#[test]
fn reference_return_with_two_reference_parameters_is_rejected() {
    let mut f = declaration(
        "pick",
        vec![arg("a", ptr(false, named("int"))), arg("b", ptr(false, named("int")))],
        Some(ptr(false, named("int"))),
    );
    f.attrs.push(note("bindgen_arg_type_reference", "a"));
    f.attrs.push(note("bindgen_arg_type_reference", "b"));
    f.attrs.push(note("bindgen_ret_type_reference", ""));
    let out = run(vec![function("pick", None, f)], &[]);
    assert!(matches!(error_of(&out[0]).0, ConvertError::AmbiguousReferenceReturn(_)));
}

#[test]
fn move_constructor_is_rejected_and_the_run_goes_on() {
    let mut mover = declaration(
        "Widget_Widget",
        vec![arg("this", ptr(true, named("Widget"))), arg("other", ptr(true, named("Widget")))],
        None,
    );
    mover.attrs.push(note("bindgen_special_member", "\"move_ctor\""));
    let add = declaration(
        "native_add",
        vec![arg("a", named("int")), arg("b", named("int"))],
        Some(named("int")),
    );
    let apis = vec![
        function("Widget_Widget", Some("Widget"), mover),
        function("native_add", None, add),
        Api::Struct { name: qn("Widget"), kind: TypeKind::NonPod, field_deps: Vec::new() },
    ];
    let out = run(apis, &["Widget"]);
    assert_eq!(out.len(), 3);
    assert!(matches!(out[2], Api::Struct { .. }));
    let (err, ctx) = error_of(&out[0]);
    assert!(matches!(err, ConvertError::MoveConstructorUnsupported));
    match ctx {
        ErrorContext::Method { self_ty, method } => {
            assert_eq!(self_ty, "Widget");
            assert_eq!(method, "make_unique");
        }
        _ => panic!("wrong context"),
    }
    let a = analysis_of(&out[1]);
    assert_eq!(a.rust_name, "native_add");
    assert_eq!(a.cxxbridge_name, "native_add");
    assert!(a.cpp_wrapper.is_none());
}

#[test]
fn copy_constructor_annotation_is_no_move_constructor() {
    let mut f = declaration(
        "Widget_Widget",
        vec![arg("this", ptr(true, named("Widget"))), arg("other", ptr(false, named("Widget")))],
        None,
    );
    f.attrs.push(note("bindgen_special_member", "\"copy_ctor\""));
    assert!(!FnAnalyzer::is_move_constructor(&f));
    assert_eq!(
        FnAnalyzer::get_bindgen_special_member_annotation(&f),
        Some("copy_ctor".to_string())
    );
    let out = run(vec![function("Widget_Widget", Some("Widget"), f)], &["Widget"]);
    assert!(matches!(analysis_of(&out[0]).kind, FnKind::Method(_, MethodKind::Constructor)));
}

#[test]
fn special_member_annotation_needs_a_string_literal() {
    let mut f = declaration("f", Vec::new(), None);
    f.attrs.push(note("bindgen_special_member", "move_ctor"));
    f.attrs.push(note("other", "\"move_ctor\""));
    assert_eq!(FnAnalyzer::get_bindgen_special_member_annotation(&f), None);
    assert!(!FnAnalyzer::is_move_constructor(&f));
    f.attrs.push(note("bindgen_special_member", "\"dtor\""));
    f.attrs.push(note("bindgen_special_member", "\"move_ctor\""));
    assert_eq!(FnAnalyzer::get_bindgen_special_member_annotation(&f), Some("dtor".to_string()));
}

#[test]
fn reference_annotations_are_collected_in_order() {
    let mut f = declaration("f", Vec::new(), None);
    f.attrs.push(note("bindgen_arg_type_reference", "b"));
    f.attrs.push(note("bindgen_arg_type_reference", "\"quoted\""));
    f.attrs.push(note("bindgen_arg_type_reference", "a"));
    f.attrs.push(note("bindgen_arg_type_reference", "b"));
    f.attrs.push(note("bindgen_other", "c"));
    let (params, ret) = FnAnalyzer::get_reference_parameters_and_return(&f);
    assert_eq!(params, vec!["b".to_string(), "a".to_string()]);
    assert!(!ret);
    f.attrs.push(note("bindgen_ret_type_reference", "c"));
    let (params, ret) = FnAnalyzer::get_reference_parameters_and_return(&f);
    assert_eq!(params, vec!["b".to_string(), "a".to_string()]);
    assert!(ret);
}

#[test]
fn destructors_are_dropped() {
    let f = declaration("Widget_Widget_destructor", vec![arg("this", ptr(true, named("Widget")))], None);
    let out = run(vec![function("Widget_Widget_destructor", None, f)], &["Widget"]);
    assert!(out.is_empty());
}

#[test]
fn methods_of_types_that_were_not_asked_for_are_dropped() {
    let f = declaration("Gadget_spin", vec![arg("this", ptr(true, named("Gadget")))], None);
    let g = declaration("Gadget_spin", vec![arg("this", ptr(true, named("Gadget")))], None);
    let apis = vec![
        Api::Struct { name: qn("Gadget"), kind: TypeKind::NonPod, field_deps: Vec::new() },
        function("Gadget_spin", None, f),
    ];
    let out = run(apis, &["Widget"]);
    assert_eq!(out.len(), 1);
    assert!(matches!(out[0], Api::Struct { .. }));
    let out = run(vec![function("Gadget_spin", None, g)], &["Gadget"]);
    assert_eq!(analysis_of(&out[0]).rust_name, "spin");
}

#[test]
fn allow_list_is_asked_with_the_native_path() {
    let ty = qn_in(&["a", "b"], "Gadget");
    assert_eq!(ty.to_cpp_name(), "a::b::Gadget");
    let f = declaration(
        "Gadget_spin",
        vec![arg("this", ptr(true, NativeType::Path(qn_in(&["a", "b"], "Gadget"))))],
        None,
    );
    let out = run(vec![function("Gadget_spin", None, f)], &["Gadget"]);
    assert_eq!(out.len(), 1);
    assert!(matches!(out[0], Api::ForwardDeclaration { .. }));
    let f = declaration(
        "Gadget_spin",
        vec![arg("this", ptr(true, NativeType::Path(qn_in(&["a", "b"], "Gadget"))))],
        None,
    );
    let out = run(vec![function("Gadget_spin", None, f)], &["a::b::Gadget"]);
    assert_eq!(out.len(), 2);
    assert_eq!(analysis_of(&out[0]).rust_name, "spin");
    match &out[1] {
        Api::ForwardDeclaration { name } => assert!(name.same(&ty)),
        _ => panic!("not a forward declaration"),
    }
}

#[test]
fn static_methods_always_get_a_shim() {
    let mut f = declaration("Widget_count", Vec::new(), Some(named("int")));
    f.self_ty = Some(qn("Widget"));
    let out = run(vec![function("Widget_count", Some("count"), f)], &["Widget"]);
    let a = analysis_of(&out[0]);
    assert!(matches!(a.kind, FnKind::Method(_, MethodKind::Static)));
    assert_eq!(a.rust_name, "count");
    assert_eq!(a.cxxbridge_name, "count_autocxx_wrapper");
    let shim = a.cpp_wrapper.as_ref().unwrap();
    match &shim.payload {
        CppFunctionBody::StaticMethodCall(ns, ty, f) => {
            assert!(ns.same(&root()));
            assert_eq!(ty, "Widget");
            assert_eq!(f, "count");
        }
        _ => panic!("wrong payload"),
    }
    assert!(!shim.is_a_method);
    assert!(matches!(
        shim.return_conversion.as_ref().unwrap().conversion,
        ConversionKind::Unconverted
    ));
}

#[test]
fn virtual_methods_get_the_supplied_receiver_and_a_shim() {
    let void = NativeType::Path(qn_in(&["std", "os", "raw"], "c_void"));
    let mut f = declaration("Shape_area", vec![arg("this", ptr(false, void))], Some(named("int")));
    f.virtual_this_type = Some(qn("Shape"));
    let out = run(vec![function("Shape_area", Some("area"), f)], &["Shape"]);
    let a = analysis_of(&out[0]);
    match &a.kind {
        FnKind::Method(ty, MethodKind::Virtual) => assert!(ty.same(&qn("Shape"))),
        _ => panic!("not virtual"),
    }
    assert!(a.param_details[0].is_virtual);
    assert_eq!(a.params[0].pat.text(), "autocxx_gen_this");
    assert!(same_type(
        &a.params[0].ty,
        &NativeType::Reference { mutable: false, elem: Box::new(named("Shape")) }
    ));
    assert_eq!(a.param_details[0].name.text(), "self");
    let shim = a.cpp_wrapper.as_ref().unwrap();
    assert!(shim.is_a_method);
    match &shim.payload {
        CppFunctionBody::FunctionCall(_, f) => assert_eq!(f, "area"),
        _ => panic!("wrong payload"),
    }
    assert_eq!(a.cxxbridge_name, "area_autocxx_wrapper");
}

#[test]
fn pure_virtual_methods_are_told_apart_by_their_annotation() {
    let void = NativeType::Path(qn_in(&["std", "os", "raw"], "c_void"));
    let mut f = declaration("Shape_area", vec![arg("this", ptr(false, void))], Some(named("int")));
    f.virtual_this_type = Some(qn("Shape"));
    f.attrs.push(note("bindgen_pure_virtual", ""));
    let out = run(vec![function("Shape_area", Some("area"), f)], &["Shape"]);
    let a = analysis_of(&out[0]);
    assert!(matches!(a.kind, FnKind::Method(_, MethodKind::PureVirtual)));
    assert!(a.cpp_wrapper.is_some());
}

#[test]
fn virtual_receiver_without_supplied_type_is_an_error() {
    let void = NativeType::Path(qn_in(&["std", "os", "raw"], "c_void"));
    let mut f = declaration("Shape_area", vec![arg("this", ptr(false, void))], Some(named("int")));
    f.self_ty = Some(qn("Shape"));
    let out = run(vec![function("Shape_area", Some("area"), f)], &["Shape"]);
    let (err, ctx) = error_of(&out[0]);
    match err {
        ConvertError::VirtualThisTypeMissing(ns, name) => {
            assert!(ns.same(&root()));
            assert_eq!(name, "area");
        }
        _ => panic!("wrong error"),
    }
    assert!(matches!(ctx, ErrorContext::Method { .. }));
}

#[test]
fn receiver_that_is_no_pointer_to_a_named_type_is_an_error() {
    let f = declaration("Widget_poke", vec![arg("this", named("Widget"))], None);
    let out = run(vec![function("Widget_poke", None, f)], &[]);
    match error_of(&out[0]).0 {
        ConvertError::UnexpectedReceiverShape(_, name) => assert_eq!(name, "Widget_poke"),
        _ => panic!("wrong error"),
    }
    let f = declaration(
        "Widget_poke",
        vec![arg("this", ptr(true, ptr(true, named("Widget"))))],
        None,
    );
    let out = run(vec![function("Widget_poke", None, f)], &[]);
    assert!(matches!(error_of(&out[0]).0, ConvertError::UnexpectedReceiverShape(_, _)));
}

#[test]
fn parameter_names_outside_the_bridge_grammar_are_errors() {
    for bad in ["move", "a__b", "_bindgen_ty_1", "two words", ""] {
        let f = declaration("f", vec![arg(bad, named("int"))], None);
        let out = run(vec![function("f", None, f)], &[]);
        match error_of(&out[0]).0 {
            ConvertError::InvalidIdentifier(name) => assert_eq!(name, bad),
            _ => panic!("wrong error"),
        }
    }
}

#[test]
fn first_failing_parameter_is_reported() {
    let f = declaration(
        "f",
        vec![arg("ok", named("int")), arg("a__b", named("int")), arg("fn", named("int"))],
        None,
    );
    let out = run(vec![function("f", None, f)], &[]);
    match error_of(&out[0]).0 {
        ConvertError::InvalidIdentifier(name) => assert_eq!(name, "a__b"),
        _ => panic!("wrong error"),
    }
}

#[test]
fn unresolved_template_parameter_is_an_error() {
    let mut f = declaration("f", vec![arg("a", named("int"))], None);
    f.attrs.push(note("bindgen_unused_template_param_in_arg_or_return", ""));
    let out = run(vec![function("f", None, f)], &[]);
    assert!(matches!(error_of(&out[0]).0, ConvertError::UnresolvedTemplateParameter));
}

#[test]
fn unacceptable_receiver_is_an_error_unless_the_method_is_static() {
    let f = declaration("Abstract_go", vec![arg("this", ptr(true, named("Abstract")))], None);
    let out = run(vec![function("Abstract_go", None, f)], &["Abstract"]);
    let (err, ctx) = error_of(&out[0]);
    assert!(matches!(err, ConvertError::UnsupportedReceiverType));
    match ctx {
        ErrorContext::Method { self_ty, method } => {
            assert_eq!(self_ty, "Abstract");
            assert_eq!(method, "go");
        }
        _ => panic!("wrong context"),
    }
    let mut f = declaration("Abstract_make", Vec::new(), None);
    f.self_ty = Some(qn("Abstract"));
    let out = run(vec![function("Abstract_make", None, f)], &["Abstract"]);
    assert!(matches!(analysis_of(&out[0]).kind, FnKind::Method(_, MethodKind::Static)));
}

#[test]
fn bridge_name_outside_the_bridge_grammar_is_an_error() {
    let f = declaration("a__b", Vec::new(), None);
    let out = run(vec![function("a__b", None, f)], &[]);
    match error_of(&out[0]).0 {
        ConvertError::InvalidIdentifier(name) => assert_eq!(name, "a__b"),
        _ => panic!("wrong error"),
    }
}

#[test]
fn overloads_are_numbered_in_the_order_they_are_seen() {
    let apis = vec![
        function("foo", Some("foo"), declaration("foo", Vec::new(), None)),
        function("foo1", Some("foo"), declaration("foo1", vec![arg("a", named("int"))], None)),
        function("foo2", Some("foo"), declaration("foo2", vec![arg("b", named("int"))], None)),
    ];
    let out = run(apis, &[]);
    assert_eq!(analysis_of(&out[0]).rust_name, "foo");
    assert_eq!(analysis_of(&out[1]).rust_name, "foo1");
    assert_eq!(analysis_of(&out[2]).rust_name, "foo2");
    assert_eq!(analysis_of(&out[0]).cxxbridge_name, "foo");
    assert_eq!(analysis_of(&out[1]).cxxbridge_name, "foo1");
    assert_eq!(analysis_of(&out[2]).cxxbridge_name, "foo2");
}

#[test]
fn reserved_native_names_get_an_underscore_and_a_shim() {
    let f = declaration("move_", Vec::new(), None);
    let out = run(vec![function("move_", Some("move"), f)], &[]);
    let a = analysis_of(&out[0]);
    assert_eq!(a.rust_name, "move_");
    assert_eq!(a.cxxbridge_name, "move_autocxx_wrapper");
    assert!(matches!(a.rust_rename_strategy, RustRenameStrategy::RenameViaAttribute));
    match &a.cpp_wrapper.as_ref().unwrap().payload {
        CppFunctionBody::FunctionCall(_, f) => assert_eq!(f, "move"),
        _ => panic!("wrong payload"),
    }
    let f = declaration("A_move", vec![arg("this", ptr(true, named("A")))], None);
    let out = run(vec![function("A_move", Some("move"), f)], &["A"]);
    let a = analysis_of(&out[0]);
    assert_eq!(a.rust_name, "move_");
    assert!(matches!(a.kind, FnKind::Method(_, MethodKind::Normal)));
    assert!(a.cpp_wrapper.is_some());
    assert_eq!(a.cxxbridge_name, "move_autocxx_wrapper");
}

#[test]
fn same_name_in_two_namespaces_gets_a_qualified_bridge_name_and_an_alias() {
    let in_a = Api::Function {
        name: ApiName { cpp_name: None, name: qn_in(&["a"], "go") },
        fun: declaration("go", Vec::new(), None),
        analysis: NullAnalysis,
    };
    let in_b = Api::Function {
        name: ApiName { cpp_name: None, name: qn_in(&["b"], "go") },
        fun: declaration("go", Vec::new(), None),
        analysis: NullAnalysis,
    };
    let out = run(vec![in_a, in_b], &[]);
    let first = analysis_of(&out[0]);
    assert_eq!(first.rust_name, "go");
    assert_eq!(first.cxxbridge_name, "go");
    assert!(matches!(first.rust_rename_strategy, RustRenameStrategy::NoRenameNeeded));
    let second = analysis_of(&out[1]);
    assert_eq!(second.rust_name, "go");
    assert_eq!(second.cxxbridge_name, "b_go");
    match &second.rust_rename_strategy {
        RustRenameStrategy::RenameViaAliasExport(alias) => assert_eq!(alias, "go"),
        _ => panic!("wrong strategy"),
    }
    assert!(second.cpp_wrapper.is_none());
    match &out[1] {
        Api::Function { name, .. } => {
            assert_eq!(name.cpp_name, Some("go".to_string()));
            assert!(name.name.same(&qn_in(&["b"], "go")) == false);
            assert!(name.name.same(&qn_in(&["b"], "b_go")));
        }
        _ => panic!("not a function"),
    }
    assert!(out[1].typename_for_allowlist().same(&qn_in(&["b"], "go")));
}

#[test]
fn non_trivial_types_pass_through_owning_pointers() {
    let f = declaration(
        "consume",
        vec![arg("w", named("Widget")), arg("s", NativeType::Path(qn_in(&["std"], "string")))],
        Some(named("Widget")),
    );
    let apis = vec![
        Api::Struct { name: qn("Widget"), kind: TypeKind::NonPod, field_deps: Vec::new() },
        function("consume", None, f),
    ];
    let out = run(apis, &[]);
    let a = analysis_of(&out[1]);
    assert!(matches!(a.param_details[0].conversion.conversion, ConversionKind::FromOwnedPointer));
    assert!(matches!(a.param_details[1].conversion.conversion, ConversionKind::FromBorrowedString));
    assert!(a.param_details[1].conversion.rust_work_needed());
    assert_eq!(a.cxxbridge_name, "consume_autocxx_wrapper");
    assert_eq!(a.rust_name, "consume");
    assert!(matches!(a.rust_rename_strategy, RustRenameStrategy::RenameViaAttribute));
    assert!(same_type(&a.params[0].ty, &NativeType::UniquePtr(Box::new(named("Widget")))));
    assert!(same_type(
        a.ret_type.as_ref().unwrap(),
        &NativeType::UniquePtr(Box::new(named("Widget")))
    ));
    let shim = a.cpp_wrapper.as_ref().unwrap();
    assert_eq!(shim.argument_conversion.len(), 2);
    assert!(matches!(
        shim.return_conversion.as_ref().unwrap().conversion,
        ConversionKind::ToOwnedPointer
    ));
    assert_eq!(a.deps.len(), 2);
    assert!(a.deps[0].same(&qn("Widget")));
    assert!(a.deps[1].same(&qn_in(&["std"], "string")));
    let deps = out[1].deps();
    assert_eq!(deps.len(), 2);
}

#[test]
fn string_helpers_can_be_left_out() {
    let f = declaration(
        "say",
        vec![arg("s", NativeType::Path(qn_in(&["std"], "string")))],
        None,
    );
    let config = IncludeCppConfig { allowlist: Vec::new(), exclude_utilities: true };
    let known = known();
    let out = FnAnalyzer::analyze_functions(
        vec![function("say", None, f)],
        UnsafePolicy::AllFunctionsSafe,
        &config,
        &known,
    );
    let a = analysis_of(&out[0]);
    assert!(matches!(a.param_details[0].conversion.conversion, ConversionKind::FromOwnedPointer));
}

#[test]
fn plain_structs_and_enums_pass_unconverted() {
    let f = declaration(
        "paint",
        vec![arg("p", named("Point")), arg("c", named("Colour"))],
        Some(named("Point")),
    );
    let apis = vec![
        Api::Struct { name: qn("Point"), kind: TypeKind::Pod, field_deps: Vec::new() },
        Api::Enum { name: qn("Colour") },
        function("paint", None, f),
    ];
    let out = run(apis, &[]);
    assert_eq!(out.len(), 3);
    let a = analysis_of(&out[2]);
    assert!(a.cpp_wrapper.is_none());
    assert_eq!(a.cxxbridge_name, "paint");
}

#[test]
fn raw_pointers_ask_for_unsafe_and_policy_can_force_it() {
    let f = declaration("poke", vec![arg("p", ptr(true, named("int")))], None);
    let out = run(vec![function("poke", None, f)], &[]);
    let a = analysis_of(&out[0]);
    assert!(a.requires_unsafe);
    assert!(a.param_details[0].requires_unsafe);
    assert!(!a.param_details[0].was_reference);

    let f = declaration("add", vec![arg("a", named("int"))], None);
    let config = config(&[]);
    let known = known();
    let out = FnAnalyzer::analyze_functions(
        vec![function("add", None, f)],
        UnsafePolicy::AllFunctionsUnsafe,
        &config,
        &known,
    );
    assert!(analysis_of(&out[0]).requires_unsafe);
}

#[test]
fn unknown_types_are_declared_after_the_run_once() {
    let f = declaration("a", vec![arg("x", ptr(true, named("Hidden")))], None);
    let g = declaration("b", vec![arg("y", ptr(true, named("Hidden")))], Some(named("int")));
    let out = run(vec![function("a", None, f), function("b", None, g)], &[]);
    assert_eq!(out.len(), 3);
    match &out[2] {
        Api::ForwardDeclaration { name } => assert!(name.same(&qn("Hidden"))),
        _ => panic!("not a forward declaration"),
    }
    assert!(out[2].typename_for_allowlist().same(&qn("Hidden")));
    assert!(!out[2].needs_cpp_codegen());
    assert_eq!(out[2].cxxbridge_name(), Some("Hidden".to_string()));
    assert!(out[2].deps().is_empty());
}

#[test]
fn other_items_are_carried_over_unchanged() {
    let apis: Vec<Api<NullAnalysis>> = vec![
        Api::Typedef {
            name: qn("Alias"),
            old_tyname: Some(qn("Old")),
            deps: vec![qn("A"), qn("B")],
        },
        Api::Struct { name: qn("S"), kind: TypeKind::NonPod, field_deps: vec![qn("F")] },
        Api::StringConstructor { name: qn("make_string") },
        Api::CType { name: qn("c_int"), typename: qn("int") },
        Api::Const { name: qn("K") },
        Api::ConcreteType {
            name: qn("Concrete"),
            rs_definition: named("Concrete"),
            cpp_definition: "std::vector<int>".to_string(),
        },
    ];
    let out = run(apis, &[]);
    assert_eq!(out.len(), 6);
    let deps = out[0].deps();
    assert_eq!(deps.len(), 3);
    assert!(deps[0].same(&qn("Old")));
    assert!(deps[1].same(&qn("A")));
    assert!(deps[2].same(&qn("B")));
    assert_eq!(out[1].deps().len(), 1);
    assert!(out[1].deps()[0].same(&qn("F")));
    assert!(!out[0].needs_cpp_codegen());
    assert!(!out[1].needs_cpp_codegen());
    assert!(out[2].needs_cpp_codegen());
    assert!(out[3].needs_cpp_codegen());
    assert!(!out[4].needs_cpp_codegen());
    assert!(out[5].needs_cpp_codegen());
    assert_eq!(out[2].cxxbridge_name(), None);
    assert_eq!(out[4].cxxbridge_name(), None);
    assert_eq!(out[3].cxxbridge_name(), Some("c_int".to_string()));
    assert!(out[1].typename_for_allowlist().same(&qn("S")));
}

#[test]
fn two_runs_on_the_same_input_agree() {
    let make = || {
        vec![
            function("foo", Some("foo"), declaration("foo", Vec::new(), None)),
            function("foo1", Some("foo"), declaration("foo1", vec![arg("w", named("Widget"))], None)),
            function(
                "Widget_size",
                Some("size"),
                declaration("Widget_size", vec![arg("this", ptr(false, named("Widget")))], None),
            ),
        ]
    };
    let one = run(make(), &["Widget"]);
    let two = run(make(), &["Widget"]);
    assert_eq!(one.len(), two.len());
    for (a, b) in one.iter().zip(two.iter()) {
        match (a, b) {
            (Api::Function { analysis: x, .. }, Api::Function { analysis: y, .. }) => {
                assert_eq!(x.cxxbridge_name, y.cxxbridge_name);
                assert_eq!(x.rust_name, y.rust_name);
                assert_eq!(
                    matches!(x.rust_rename_strategy, RustRenameStrategy::NoRenameNeeded),
                    matches!(y.rust_rename_strategy, RustRenameStrategy::NoRenameNeeded)
                );
            }
            (Api::ForwardDeclaration { name: x }, Api::ForwardDeclaration { name: y }) => {
                assert!(x.same(y))
            }
            _ => panic!("runs differ"),
        }
    }
}

#[test]
fn names_of_a_mixed_run_are_pairwise_distinct() {
    let apis = vec![
        function("go", None, declaration("go", Vec::new(), None)),
        Api::Function {
            name: ApiName { cpp_name: None, name: qn_in(&["a"], "go") },
            fun: declaration("go", vec![arg("w", named("Widget"))], None),
            analysis: NullAnalysis,
        },
        Api::Function {
            name: ApiName { cpp_name: None, name: qn_in(&["a"], "go1") },
            fun: declaration("go1", vec![arg("w", named("int"))], None),
            analysis: NullAnalysis,
        },
        Api::Function {
            name: ApiName { cpp_name: Some("go".to_string()), name: qn_in(&["a"], "go2") },
            fun: declaration("go2", Vec::new(), Some(named("Widget"))),
            analysis: NullAnalysis,
        },
        function(
            "Widget_go",
            Some("go"),
            declaration("Widget_go", vec![arg("this", ptr(true, named("Widget")))], None),
        ),
        function("stop", None, declaration("stop", Vec::new(), None)),
    ];
    let out = run(apis, &["Widget"]);
    let functions: Vec<&Api<FnAnalysisBody>> =
        out.iter().filter(|api| matches!(api, Api::Function { .. })).collect();
    assert_eq!(functions.len(), 6);
    let bridge: Vec<String> =
        functions.iter().map(|api| analysis_of(api).cxxbridge_name.clone()).collect();
    assert_eq!(
        bridge,
        vec![
            "go",
            "a_go_autocxx_wrapper",
            "go1",
            "a_go1_autocxx_wrapper",
            "Widget_go_autocxx_wrapper",
            "stop"
        ]
    );
    for i in 0..bridge.len() {
        for j in 0..i {
            assert_ne!(bridge[i], bridge[j]);
        }
    }
    let managed: Vec<String> =
        functions.iter().map(|api| analysis_of(api).rust_name.clone()).collect();
    assert_eq!(managed, vec!["go", "go", "go1", "go1", "go", "stop"]);
    let ids: Vec<String> = functions
        .iter()
        .filter(|api| matches!(analysis_of(api).kind, FnKind::Function))
        .map(|api| match api {
            Api::Function { name, .. } => name.name.get_final_item().to_string(),
            _ => unreachable!(),
        })
        .collect();
    assert_eq!(
        ids,
        vec!["go", "a_go_autocxx_wrapper", "go1", "a_go1_autocxx_wrapper", "stop"]
    );
    for i in 0..ids.len() {
        for j in 0..i {
            assert_ne!(ids[i], ids[j]);
        }
    }
}

#[test]
fn a_method_called_new_is_no_constructor() {
    let f = declaration("Widget_new", vec![arg("this", ptr(true, named("Widget")))], None);
    let out = run(vec![function("Widget_new", None, f)], &["Widget"]);
    let a = analysis_of(&out[0]);
    assert!(matches!(a.kind, FnKind::Method(_, MethodKind::Normal)));
    assert_eq!(a.rust_name, "new");
    assert_eq!(a.params.len(), 1);
    assert!(a.cpp_wrapper.is_none());
}

#[test]
fn a_constructor_without_receiver_keeps_its_parameters() {
    let mut f = declaration("Widget_Widget", vec![arg("size", named("int"))], None);
    f.self_ty = Some(qn("Widget"));
    let out = run(vec![function("Widget_Widget", Some("Widget"), f)], &["Widget"]);
    let a = analysis_of(&out[0]);
    assert!(matches!(a.kind, FnKind::Method(_, MethodKind::Constructor)));
    assert_eq!(a.params.len(), 1);
    assert_eq!(a.params[0].pat.text(), "size");
    assert_eq!(a.param_details.len(), 1);
}

#[test]
fn rejected_declarations_take_an_overload_number_and_no_bridge_name() {
    let mut bad = declaration("foo", Vec::new(), None);
    bad.attrs.push(note("bindgen_unused_template_param_in_arg_or_return", ""));
    let apis = vec![
        function("foo", Some("foo"), bad),
        function("foo1", Some("foo"), declaration("foo1", Vec::new(), None)),
        function("foo1", None, declaration("foo1", Vec::new(), None)),
    ];
    let out = run(apis, &[]);
    assert!(matches!(error_of(&out[0]).0, ConvertError::UnresolvedTemplateParameter));
    assert!(out[0].name().same(&qn("foo")));
    let second = analysis_of(&out[1]);
    assert_eq!(second.rust_name, "foo1");
    assert_eq!(second.cxxbridge_name, "foo1");
    let third = analysis_of(&out[2]);
    assert_eq!(third.rust_name, "foo1");
    assert_eq!(third.cxxbridge_name, "foo1_autocxx1");
    match &third.rust_rename_strategy {
        RustRenameStrategy::RenameViaAliasExport(alias) => assert_eq!(alias, "foo1"),
        _ => panic!("wrong strategy"),
    }
}

#[test]
fn analyser_can_be_driven_one_declaration_at_a_time() {
    let config = config(&[]);
    let known = known();
    let apis: Vec<Api<NullAnalysis>> = Vec::new();
    let mut analyzer = FnAnalyzer::new(&apis, UnsafePolicy::AllFunctionsSafe, &config, &known);
    let first = analyzer.analyze_foreign_fn(
        ApiName { cpp_name: None, name: qn("f") },
        declaration("f", vec![arg("w", ptr(true, named("Widget")))], None),
    );
    match first {
        Ok(Some(Api::Function { analysis, .. })) => assert_eq!(analysis.cxxbridge_name, "f"),
        _ => panic!("no result"),
    }
    let second = analyzer.analyze_foreign_fn(
        ApiName { cpp_name: None, name: qn("g") },
        declaration("g", vec![arg("fn", named("int"))], None),
    );
    match second {
        Err(e) => {
            assert!(matches!(e.0, ConvertError::InvalidIdentifier(_)));
            assert!(matches!(e.1, Some(ErrorContext::Item(_))));
        }
        _ => panic!("no error"),
    }
    let dropped = analyzer.analyze_foreign_fn(
        ApiName { cpp_name: None, name: qn("h_destructor") },
        declaration("h_destructor", Vec::new(), None),
    );
    assert!(matches!(dropped, Ok(None)));
    let extra = analyzer.extra_apis();
    assert_eq!(extra.len(), 1);
    assert!(extra[0].name().same(&qn("Widget")));
    assert_eq!(analyzer.get_cxx_bridge_name(None, "f", &root()), "f_autocxx1");
    assert!(analyzer.ok_to_use_rust_name("g"));
    assert!(!analyzer.ok_to_use_rust_name("f"));
    assert!(!analyzer.should_be_unsafe());
    assert!(!analyzer.is_on_allowlist(&qn("Widget")));
}

#[test]
fn first_look_at_a_parameter() {
    let refs = vec!["b".to_string()];
    let by_pointer = arg("b", ptr(false, named("int")));
    let p = FnAnalyzer::prepare_fn_arg(&by_pointer, &root(), "f", None, &refs, true).unwrap();
    assert_eq!(p.pat.text(), "b");
    assert!(p.treat_as_reference);
    assert!(p.self_type.is_none());
    assert!(!p.is_virtual);
    let p = FnAnalyzer::prepare_fn_arg(&arg("a", named("int")), &root(), "f", None, &refs, true)
        .unwrap();
    assert!(!p.treat_as_reference);
    let e = FnAnalyzer::prepare_fn_arg(&arg("a", named("int")), &root(), "f", None, &refs, false)
        .unwrap_err();
    assert!(matches!(e, ConvertError::InvalidIdentifier(_)));
    let p = FnAnalyzer::prepare_fn_arg(
        &arg("this", ptr(true, named("Widget"))),
        &root(),
        "f",
        Some(qn("Other")),
        &refs,
        false,
    )
    .unwrap();
    assert_eq!(p.pat.text(), "self");
    assert!(p.treat_as_reference);
    assert!(p.self_type.as_ref().unwrap().same(&qn("Widget")));
    assert!(same_type(&p.ty, &ptr(true, named("Widget"))));
    let void = NativeType::Path(qn_in(&["std", "os", "raw"], "c_void"));
    let p = FnAnalyzer::prepare_fn_arg(
        &arg("this", ptr(true, void)),
        &root(),
        "f",
        Some(qn("Other")),
        &refs,
        true,
    )
    .unwrap();
    assert!(p.is_virtual);
    assert!(p.self_type.as_ref().unwrap().same(&qn("Other")));
    assert!(same_type(&p.ty, &ptr(true, named("Other"))));
}

#[test]
fn a_parameter_marked_twice_as_a_reference_is_held_once() {
    let mut f = declaration("f", Vec::new(), None);
    f.attrs.push(note("bindgen_arg_type_reference", "a"));
    f.attrs.push(note("bindgen_arg_type_reference", "b"));
    f.attrs.push(note("bindgen_arg_type_reference", "a"));
    f.attrs.push(note("bindgen_ret_type_reference", ""));
    let (params, ret) = FnAnalyzer::get_reference_parameters_and_return(&f);
    assert_eq!(params, vec!["a".to_string(), "b".to_string()]);
    assert!(ret);
}

#[test]
fn arguments_of_other_annotations_are_not_read() {
    let mut f = declaration("f", vec![arg("a", named("int"))], None);
    f.attrs.push(note("bindgen_original_name", "c\"x\""));
    f.attrs.push(note("doc", "(/*ERROR*/)"));
    f.attrs.push(note("bindgen_special_member", "c\"move_ctor\""));
    f.attrs.push(note("bindgen_special_member", "cr\"move_ctor\""));
    f.attrs.push(note("bindgen_special_member", "(/*ERROR*/)"));
    f.attrs.push(note("bindgen_special_member", "b\"move_ctor\""));
    f.attrs.push(note("bindgen_special_member", "'m'"));
    f.attrs.push(note("bindgen_special_member", "1"));
    f.attrs.push(note("bindgen_special_member", " \"move_ctor\""));
    f.attrs.push(note("bindgen_arg_type_reference", "c\"a\""));
    assert_eq!(FnAnalyzer::get_bindgen_special_member_annotation(&f), None);
    assert!(!FnAnalyzer::is_move_constructor(&f));
    let (params, ret) = FnAnalyzer::get_reference_parameters_and_return(&f);
    assert!(params.is_empty());
    assert!(!ret);
    let out = run(vec![function("f", None, f)], &[]);
    assert_eq!(analysis_of(&out[0]).rust_name, "f");
}

#[test]
fn raw_string_literal_names_a_special_member() {
    let mut f = declaration("f", Vec::new(), None);
    f.attrs.push(note("bindgen_special_member", "r#\"move_ctor\"#"));
    assert!(FnAnalyzer::is_move_constructor(&f));
}

#[test]
fn a_constructor_loses_its_receiver_wherever_it_stands() {
    let f = declaration(
        "Widget_Widget",
        vec![
            arg("size", named("int")),
            arg("this", ptr(true, named("Widget"))),
            arg("count", named("int")),
        ],
        None,
    );
    let out = run(vec![function("Widget_Widget", Some("Widget"), f)], &["Widget"]);
    let a = analysis_of(&out[0]);
    assert!(matches!(a.kind, FnKind::Method(_, MethodKind::Constructor)));
    assert_eq!(a.params.len(), 2);
    assert_eq!(a.params[0].pat.text(), "size");
    assert_eq!(a.params[1].pat.text(), "count");
    assert_eq!(a.param_details.len(), 2);
    assert!(a.param_details.iter().all(|d| d.self_type.is_none()));
    assert_eq!(a.cpp_wrapper.as_ref().unwrap().argument_conversion.len(), 2);
}

#[test]
fn a_pattern_that_is_no_name_is_kept_as_it_is() {
    let f = declaration(
        "f",
        vec![
            FnArg { pat: Pat::Other("_".to_string()), ty: ptr(false, named("int")) },
            FnArg { pat: Pat::Other("this".to_string()), ty: named("int") },
        ],
        None,
    );
    let mut f = f;
    f.attrs.push(note("bindgen_arg_type_reference", "_"));
    let out = run(vec![function("f", None, f)], &[]);
    let a = analysis_of(&out[0]);
    assert!(matches!(a.kind, FnKind::Function));
    assert_eq!(a.params.len(), 2);
    assert!(matches!(&a.params[0].pat, Pat::Other(text) if text == "_"));
    assert!(matches!(&a.param_details[1].name, Pat::Other(text) if text == "this"));
    assert!(a.param_details[1].self_type.is_none());
    assert!(!a.param_details[0].was_reference);
    assert!(a.param_details[0].requires_unsafe);
    assert!(same_type(&a.params[0].ty, &ptr(false, named("int"))));
}

#[test]
fn types_safe_to_pass_by_value_are_a_set() {
    let apis: Vec<Api<NullAnalysis>> = vec![
        Api::Struct { name: qn("Point"), kind: TypeKind::Pod, field_deps: Vec::new() },
        Api::Enum { name: qn("Colour") },
        Api::Struct { name: qn("Widget"), kind: TypeKind::NonPod, field_deps: Vec::new() },
        Api::Enum { name: qn("Point") },
        Api::Struct { name: qn("int"), kind: TypeKind::Pod, field_deps: Vec::new() },
    ];
    let set = FnAnalyzer::build_pod_safe_type_set(&apis, &known());
    assert_eq!(set.len(), 3);
    assert!(set[0].same(&qn("Point")));
    assert!(set[1].same(&qn("Colour")));
    assert!(set[2].same(&qn("int")));
}
