//! The decisions of the analysis that depend on nothing but their
//! arguments: the ideal name, the kind of a method, whether a shim is
//! needed and what it looks like, and the final naming.

use crate::api::{
    ArgumentAnalysis, CppFunctionBody, FnKind, FuncToConvert, MethodKind, RustRenameStrategy,
};
use crate::annotations::has_attr;
use crate::details::some_virtual;
use crate::idents::is_ident_ok_for_rust;
use crate::model::{
    final_naming, ideal_rust_name, method_kind, shim_needed, shim_payload, wrapper_name,
};
use crate::names::Namespace;
use crate::text::{concat2, concat3, ends_with, same_text, starts_with};
use vstd::prelude::*;

verus! {

/// The ideal managed name of a declaration that the front end called
/// `initial` and native code calls `cpp_name`, given whether `cpp_name` is
/// an identifier of the managed language. Without a native name, the front
/// end's name stands. A front end's name that ends in an underscore was
/// made from a reserved word and stands too. Else the native name stands,
/// with an underscore behind it where it is no identifier.
pub fn ideal_name_given(initial: &str, cpp_name: &Option<String>, cpp_name_ok: bool) -> (r: String)
    ensures
        r@ == match cpp_name.deep_view() {
            None => initial@,
            Some(c) => if "_"@.is_suffix_of(initial@) {
                initial@
            } else if !cpp_name_ok {
                c + "_"@
            } else {
                c
            },
        },
{
    match cpp_name {
        None => String::from_str(initial),
        Some(c) => {
            if ends_with(initial, "_") {
                String::from_str(initial)
            } else if !cpp_name_ok {
                concat2(c.as_str(), "_")
            } else {
                c.clone()
            }
        },
    }
}

/// The ideal managed name of a declaration that the front end called
/// `initial` and native code calls `cpp_name`.
pub fn ideal_name(initial: &str, cpp_name: &Option<String>) -> (r: String)
    ensures
        r@ == ideal_rust_name(initial@, cpp_name.deep_view()),
{
    let cpp_name_ok = match cpp_name {
        Some(c) => is_ident_ok_for_rust(c.as_str()),
        None => true,
    };
    ideal_name_given(initial, cpp_name, cpp_name_ok)
}

/// The kind of a method of the type called `type_ident` that the overload
/// registry named `given`: a constructor if that name begins with the type's
/// own; else static if no receiver was found; else virtual or pure virtual if
/// the receiver is that of a virtual method; else normal.
pub fn method_kind_of(
    fun: &FuncToConvert,
    type_ident: &str,
    given: &str,
    is_static: bool,
    details: &Vec<ArgumentAnalysis>,
) -> (r: MethodKind)
    ensures
        r == method_kind(fun@, type_ident@, given@, is_static, details.deep_view()),
{
    if starts_with(given, type_ident) {
        MethodKind::Constructor
    } else if is_static {
        MethodKind::Static
    } else if some_virtual(details) {
        if has_attr(&fun.attrs, "bindgen_pure_virtual") {
            MethodKind::PureVirtual
        } else {
            MethodKind::Virtual
        }
    } else {
        MethodKind::Normal
    }
}

/// Whether a shim is required.
pub fn wrapper_function_needed(
    kind: &FnKind,
    names_differ: bool,
    param_conversion_needed: bool,
    ret_conversion_needed: bool,
    cpp_name_incompatible: bool,
) -> (r: bool)
    ensures
        r == shim_needed(
            kind@,
            names_differ,
            param_conversion_needed,
            ret_conversion_needed,
            cpp_name_incompatible,
        ),
{
    match kind {
        FnKind::Method(_, MethodKind::Static) => true,
        FnKind::Method(_, MethodKind::Virtual) => true,
        FnKind::Method(_, MethodKind::PureVirtual) => true,
        FnKind::Method(_, _) => names_differ || param_conversion_needed || ret_conversion_needed
            || cpp_name_incompatible,
        FnKind::Function => param_conversion_needed || ret_conversion_needed
            || cpp_name_incompatible,
    }
}

/// The name of the shim for the bridge entry `bridge_name`: the fixed
/// suffix is joined on by one underscore, which is left out where the name
/// ends in one.
pub fn wrapper_name_of(bridge_name: &str) -> (r: String)
    ensures
        r@ == wrapper_name(bridge_name@),
{
    if ends_with(bridge_name, "_") {
        concat2(bridge_name, "autocxx_wrapper")
    } else {
        concat3(bridge_name, "_", "autocxx_wrapper")
    }
}

/// What the shim of a declaration of kind `kind` does, and whether it takes
/// a receiver.
pub fn shim_payload_of(kind: &FnKind, ns: &Namespace, native_name: &str) -> (r: (
    CppFunctionBody,
    bool,
))
    ensures
        (r.0@, r.1) == shim_payload(kind@, ns@, native_name@),
{
    match kind {
        FnKind::Method(_, MethodKind::Constructor) => (CppFunctionBody::Constructor, false),
        FnKind::Method(self_ty, MethodKind::Static) => (
            CppFunctionBody::StaticMethodCall(
                ns.clone(),
                String::from_str(self_ty.get_final_item()),
                String::from_str(native_name),
            ),
            false,
        ),
        FnKind::Method(_, _) => (
            CppFunctionBody::FunctionCall(ns.clone(), String::from_str(native_name)),
            true,
        ),
        FnKind::Function => (
            CppFunctionBody::FunctionCall(ns.clone(), String::from_str(native_name)),
            false,
        ),
    }
}

/// The final managed identifier of a declaration and the way to bring it
/// about, given whether its managed name was still free.
pub fn choose_final_naming(
    kind: &FnKind,
    cxxbridge_name: &str,
    rust_name: &str,
    rust_name_ok: bool,
) -> (r: (String, RustRenameStrategy))
    ensures
        (r.0@, r.1@) == final_naming(kind@, cxxbridge_name@, rust_name@, rust_name_ok),
{
    match kind {
        FnKind::Method(_, _) => (String::from_str(rust_name), RustRenameStrategy::NoRenameNeeded),
        FnKind::Function => {
            if same_text(cxxbridge_name, rust_name) {
                (String::from_str(rust_name), RustRenameStrategy::NoRenameNeeded)
            } else if rust_name_ok {
                (String::from_str(rust_name), RustRenameStrategy::RenameViaAttribute)
            } else {
                (
                    String::from_str(cxxbridge_name),
                    RustRenameStrategy::RenameViaAliasExport(String::from_str(rust_name)),
                )
            }
        },
    }
}

} // verus!
