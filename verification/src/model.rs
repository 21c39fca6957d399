//! The analysis of one declaration as mathematics: what the result is, and
//! what the registries hold afterwards, as functions of the declaration and
//! of what the registries held before.

use crate::annotations::{
    has_annotation, is_move_constructor, reference_parameters, reference_return,
};
use crate::api::{
    ApiNameView, ApiView, ArgumentView, CppFunctionBodyView, CppFunctionView, FnAnalysisView,
    FnArgView, FnKindView, FuncView, MethodKind, PatView, RenameView, ReturnView, TypeKind,
};
use crate::bridge_name_tracker::unique_name;
use crate::config::{ConfigView, KnownTypesView, UnsafePolicy};
use crate::errors::{ConvertErrorView, ConvertErrorWithContextView, ErrorContextView};
use crate::idents::{is_cxx_ident, is_rust_ident};
use crate::names::{
    lemma_added_once, lemma_with_names_no_duplicates, with_name, with_names, QName,
};
use crate::overload_tracker::{occurrences, suffixed, without_owner_prefix, OverloadKey};
use crate::rust_name_tracker::claim;
use crate::type_converter::{discovered, initially_known};
use crate::types::{ConversionKind, PolicyView, TypeView};
use vstd::prelude::*;

verus! {

/// What stays the same during a run.
pub struct EnvView {
    pub unsafe_policy: UnsafePolicy,
    pub pod_safe_types: Seq<QName>,
    pub config: ConfigView,
    pub known: KnownTypesView,
}

/// The model of the analyser: the environment and the registries.
pub struct AnalyzerView {
    pub env: EnvView,
    /// The managed names claimed so far.
    pub rust_names: Seq<Seq<char>>,
    /// The types discovered so far that no item of the run describes.
    pub extra_apis: Seq<QName>,
    /// The types known to the run.
    pub known_types: Seq<QName>,
    /// The bridge names handed out so far.
    pub bridge_names: Seq<Seq<char>>,
    /// The requests for overload names answered so far.
    pub overloads: Seq<OverloadKey>,
}

impl AnalyzerView {
    /// What holds of the analyser at all times: no bridge name was handed
    /// out twice, no managed name was claimed twice, and the set of types
    /// that are safe to pass by value holds no type twice.
    pub open spec fn wf(self) -> bool {
        &&& self.bridge_names.no_duplicates()
        &&& self.rust_names.no_duplicates()
        &&& self.env.pod_safe_types.no_duplicates()
    }
}

/// The model of the analyser at the start of a run over `apis`.
pub open spec fn initial_state(
    apis: Seq<ApiView<()>>,
    unsafe_policy: UnsafePolicy,
    config: ConfigView,
    known: KnownTypesView,
) -> AnalyzerView {
    AnalyzerView {
        env: EnvView {
            unsafe_policy,
            pod_safe_types: pod_safe_type_set(apis, known),
            config,
            known,
        },
        rust_names: Seq::empty(),
        extra_apis: Seq::empty(),
        known_types: initially_known(apis, known),
        bridge_names: Seq::empty(),
        overloads: Seq::empty(),
    }
}

/// The named type that a declared return type leads to.
pub open spec fn declared_leaf(output: Option<TypeView>) -> Option<QName> {
    match output {
        Some(ty) => Some(ty.leaf()),
        None => None,
    }
}

/// The named type that the analysis of a parameter meets, if the parameter
/// is accepted.
pub open spec fn met_by_arg(p: Result<PreparedArg, ConvertErrorView>) -> Option<QName> {
    match p {
        Ok(p) => Some(p.ty.leaf()),
        Err(_) => None,
    }
}

/// The set of types that are safe to pass by value: the plain structs and
/// the enumerations among `apis` and the built-in ones, each once, in the
/// order in which they are first met.
pub open spec fn pod_safe_type_set<A>(apis: Seq<ApiView<A>>, known: KnownTypesView) -> Seq<QName> {
    with_names(pod_safe_apis(apis), known.pod_safe)
}

/// The plain structs and the enumerations among `apis`, each once, in the
/// order in which they are first met.
pub open spec fn pod_safe_apis<A>(apis: Seq<ApiView<A>>) -> Seq<QName>
    decreases apis.len(),
{
    if apis.len() == 0 {
        Seq::empty()
    } else {
        match apis.last() {
            ApiView::Struct { name, kind: TypeKind::Pod, .. } => with_name(
                pod_safe_apis(apis.drop_last()),
                name,
            ),
            ApiView::Enum { name } => with_name(pod_safe_apis(apis.drop_last()), name),
            _ => pod_safe_apis(apis.drop_last()),
        }
    }
}

/// The set of types that are safe to pass by value holds no type twice.
pub proof fn lemma_pod_safe_types_are_a_set<A>(apis: Seq<ApiView<A>>, known: KnownTypesView)
    ensures
        pod_safe_apis(apis).no_duplicates(),
        pod_safe_type_set(apis, known).no_duplicates(),
    decreases apis.len(),
{
    if apis.len() > 0 {
        lemma_pod_safe_types_are_a_set(apis.drop_last(), known);
        let before = pod_safe_apis(apis.drop_last());
        match apis.last() {
            ApiView::Struct { name, kind: TypeKind::Pod, .. } => {
                if !before.contains(name) {
                    lemma_added_once(before, name);
                }
            },
            ApiView::Enum { name } => {
                if !before.contains(name) {
                    lemma_added_once(before, name);
                }
            },
            _ => {},
        }
    }
    lemma_with_names_no_duplicates(pod_safe_apis(apis), known.pod_safe);
}

/// The conversion of an argument whose type in the bridge is `ty`.
pub open spec fn argument_conversion(env: EnvView, ty: TypeView) -> PolicyView {
    match ty {
        TypeView::Path(q) => if env.pod_safe_types.contains(q) {
            PolicyView { unwrapped_type: ty, conversion: ConversionKind::Unconverted }
        } else if env.known.string_like.contains(q) && !env.config.exclude_utilities {
            PolicyView { unwrapped_type: ty, conversion: ConversionKind::FromBorrowedString }
        } else {
            PolicyView { unwrapped_type: ty, conversion: ConversionKind::FromOwnedPointer }
        },
        _ => PolicyView { unwrapped_type: ty, conversion: ConversionKind::Unconverted },
    }
}

/// The conversion of a return value whose type in the bridge is `ty`.
pub open spec fn return_conversion(env: EnvView, ty: TypeView) -> PolicyView {
    match ty {
        TypeView::Path(q) => if env.pod_safe_types.contains(q) {
            PolicyView { unwrapped_type: ty, conversion: ConversionKind::Unconverted }
        } else {
            PolicyView { unwrapped_type: ty, conversion: ConversionKind::ToOwnedPointer }
        },
        _ => PolicyView { unwrapped_type: ty, conversion: ConversionKind::Unconverted },
    }
}

/// The ideal managed name of a declaration that the front end called
/// `initial` and native code calls `cpp_name`.
pub open spec fn ideal_rust_name(initial: Seq<char>, cpp_name: Option<Seq<char>>) -> Seq<char> {
    match cpp_name {
        None => initial,
        Some(c) => if "_"@.is_suffix_of(initial) {
            initial
        } else if !is_rust_ident(c) {
            c + "_"@
        } else {
            c
        },
    }
}

/// A parameter before its type is converted.
pub struct PreparedArg {
    pub pat: PatView,
    pub ty: TypeView,
    pub self_type: Option<QName>,
    pub is_virtual: bool,
    pub treat_as_reference: bool,
}

/// The first look at a parameter, given whether its name is in the grammar
/// of the bridge: a receiver is recognised by its name and must be a
/// pointer to a named type, the placeholder of virtual dispatch being
/// replaced by `virtual_this`; any other named parameter must have a name
/// that the bridge accepts. A parameter whose pattern is no plain name is
/// kept as it is; it is no receiver and no reference.
pub open spec fn prepared_arg_given(
    arg: FnArgView,
    ns: Seq<Seq<char>>,
    fn_name: Seq<char>,
    virtual_this: Option<QName>,
    reference_args: Seq<Seq<char>>,
    name_ok: bool,
) -> Result<PreparedArg, ConvertErrorView> {
    if arg.pat is Other {
        Ok(
            PreparedArg {
                pat: arg.pat,
                ty: arg.ty,
                self_type: None,
                is_virtual: false,
                treat_as_reference: false,
            },
        )
    } else if arg.pat.text() == "this"@ {
        match arg.ty {
            TypeView::Ptr { mutable, elem } => match *elem {
                TypeView::Path(q) => if q.is_cvoid() {
                    match virtual_this {
                        Some(t) => Ok(
                            PreparedArg {
                                pat: PatView::Ident("self"@),
                                ty: TypeView::Ptr { mutable, elem: Box::new(TypeView::Path(t)) },
                                self_type: Some(t),
                                is_virtual: true,
                                treat_as_reference: true,
                            },
                        ),
                        None => Err(ConvertErrorView::VirtualThisTypeMissing(ns, fn_name)),
                    }
                } else {
                    Ok(
                        PreparedArg {
                            pat: PatView::Ident("self"@),
                            ty: arg.ty,
                            self_type: Some(q),
                            is_virtual: false,
                            treat_as_reference: true,
                        },
                    )
                },
                _ => Err(ConvertErrorView::UnexpectedReceiverShape(ns, fn_name)),
            },
            _ => Err(ConvertErrorView::UnexpectedReceiverShape(ns, fn_name)),
        }
    } else if !name_ok {
        Err(ConvertErrorView::InvalidIdentifier(arg.pat.text()))
    } else {
        Ok(
            PreparedArg {
                pat: arg.pat,
                ty: arg.ty,
                self_type: None,
                is_virtual: false,
                treat_as_reference: reference_args.contains(arg.pat.text()),
            },
        )
    }
}

/// The first look at a parameter.
pub open spec fn prepared_arg(
    arg: FnArgView,
    ns: Seq<Seq<char>>,
    fn_name: Seq<char>,
    virtual_this: Option<QName>,
    reference_args: Seq<Seq<char>>,
) -> Result<PreparedArg, ConvertErrorView> {
    prepared_arg_given(
        arg,
        ns,
        fn_name,
        virtual_this,
        reference_args,
        is_cxx_ident(arg.pat.text()),
    )
}

/// The parameter of the bridge entry that a prepared parameter becomes.
pub open spec fn finished_arg(p: PreparedArg) -> FnArgView {
    FnArgView { pat: p.pat, ty: p.ty.converted(p.treat_as_reference) }
}

/// What the analysis records about a prepared parameter.
pub open spec fn finished_analysis(env: EnvView, p: PreparedArg) -> ArgumentView {
    let ty = p.ty.converted(p.treat_as_reference);
    ArgumentView {
        conversion: argument_conversion(env, ty),
        name: p.pat,
        self_type: p.self_type,
        was_reference: ty is Reference,
        deps: seq![p.ty.leaf()],
        is_virtual: p.is_virtual,
        requires_unsafe: ty.has_raw_pointer(),
    }
}

/// The analysis of one parameter.
pub open spec fn analyzed_arg(
    env: EnvView,
    arg: FnArgView,
    ns: Seq<Seq<char>>,
    fn_name: Seq<char>,
    virtual_this: Option<QName>,
    reference_args: Seq<Seq<char>>,
) -> Result<(FnArgView, ArgumentView), ConvertErrorView> {
    match prepared_arg(arg, ns, fn_name, virtual_this, reference_args) {
        Ok(p) => Ok((finished_arg(p), finished_analysis(env, p))),
        Err(e) => Err(e),
    }
}

/// What the analysis of all parameters gives: the parameters that were
/// analysed, the first failure if there was one, and the types known and
/// discovered afterwards.
pub struct ArgsView {
    pub params: Seq<FnArgView>,
    pub details: Seq<ArgumentView>,
    pub first_error: Option<ConvertErrorView>,
    pub known_types: Seq<QName>,
    pub extra_apis: Seq<QName>,
}

/// The analysis of the parameters `inputs`, in order. A parameter that fails
/// is left out; the others are still analysed.
pub open spec fn analyzed_args(
    env: EnvView,
    inputs: Seq<FnArgView>,
    ns: Seq<Seq<char>>,
    fn_name: Seq<char>,
    virtual_this: Option<QName>,
    reference_args: Seq<Seq<char>>,
    known_types: Seq<QName>,
    extra_apis: Seq<QName>,
) -> ArgsView
    decreases inputs.len(),
{
    if inputs.len() == 0 {
        ArgsView {
            params: Seq::empty(),
            details: Seq::empty(),
            first_error: None,
            known_types,
            extra_apis,
        }
    } else {
        let before = analyzed_args(
            env,
            inputs.drop_last(),
            ns,
            fn_name,
            virtual_this,
            reference_args,
            known_types,
            extra_apis,
        );
        match prepared_arg(inputs.last(), ns, fn_name, virtual_this, reference_args) {
            Ok(p) => ArgsView {
                params: before.params.push(finished_arg(p)),
                details: before.details.push(finished_analysis(env, p)),
                first_error: before.first_error,
                known_types: with_name(before.known_types, p.ty.leaf()),
                extra_apis: before.extra_apis + discovered(before.known_types, p.ty.leaf()),
            },
            Err(e) => ArgsView {
                params: before.params,
                details: before.details,
                first_error: if before.first_error is Some {
                    before.first_error
                } else {
                    Some(e)
                },
                known_types: before.known_types,
                extra_apis: before.extra_apis,
            },
        }
    }
}

/// The types that the parameters depend on, each once, in the order in
/// which they are met.
pub open spec fn params_deps(details: Seq<ArgumentView>) -> Seq<QName>
    decreases details.len(),
{
    if details.len() == 0 {
        Seq::empty()
    } else {
        with_names(params_deps(details.drop_last()), details.last().deps)
    }
}

/// The owning type that the first receiver among the parameters names.
pub open spec fn first_self_type(details: Seq<ArgumentView>) -> Option<QName>
    decreases details.len(),
{
    if details.len() == 0 {
        None
    } else if details.first().self_type is Some {
        details.first().self_type
    } else {
        first_self_type(details.drop_first())
    }
}

/// Whether a parameter asks for the function to be unsafe.
pub open spec fn any_requires_unsafe(details: Seq<ArgumentView>) -> bool {
    exists|i: int| 0 <= i < details.len() && (#[trigger] details[i]).requires_unsafe
}

/// Whether a parameter is the receiver of a virtual method.
pub open spec fn any_virtual(details: Seq<ArgumentView>) -> bool {
    exists|i: int| 0 <= i < details.len() && (#[trigger] details[i]).is_virtual
}

/// Whether a parameter needs a conversion on the native side.
pub open spec fn any_conversion(details: Seq<ArgumentView>) -> bool {
    exists|i: int| 0 <= i < details.len() && (#[trigger] details[i]).conversion.cpp_work_needed()
}

/// How many parameters are references.
pub open spec fn reference_count(details: Seq<ArgumentView>) -> nat
    decreases details.len(),
{
    if details.len() == 0 {
        0
    } else {
        reference_count(details.drop_last()) + if details.last().was_reference {
            1nat
        } else {
            0nat
        }
    }
}

/// The parameters without the receivers among them: the parameters of the
/// bridge entry and what was recorded about them, in step.
pub open spec fn without_receivers(
    params: Seq<FnArgView>,
    details: Seq<ArgumentView>,
) -> (Seq<FnArgView>, Seq<ArgumentView>)
    decreases details.len(),
{
    if details.len() == 0 {
        (Seq::empty(), Seq::empty())
    } else {
        let rest = without_receivers(params.drop_last(), details.drop_last());
        if details.last().self_type is Some {
            rest
        } else {
            (rest.0.push(params.last()), rest.1.push(details.last()))
        }
    }
}

/// What is decided about a declaration with its kind.
pub struct ResolvedView {
    pub kind: FnKindView,
    pub rust_name: Seq<char>,
    pub context: ErrorContextView,
    pub params: Seq<FnArgView>,
    pub details: Seq<ArgumentView>,
}

/// The owning type of the declaration, and whether it is known only from
/// the front end and not from a receiver.
pub open spec fn owning_type(fun: FuncView, details: Seq<ArgumentView>) -> (bool, Option<QName>) {
    match first_self_type(details) {
        Some(t) => (false, Some(t)),
        None => (fun.self_ty is Some, fun.self_ty),
    }
}

/// The request that the declaration makes to the overload registry.
pub open spec fn overload_key(
    ns: Seq<Seq<char>>,
    self_ty: Option<QName>,
    ideal: Seq<char>,
) -> OverloadKey {
    match self_ty {
        Some(t) => OverloadKey {
            ns,
            owner: Some(t.name),
            name: without_owner_prefix(t.name, ideal),
        },
        None => OverloadKey { ns, owner: None, name: ideal },
    }
}

/// The kind of a method of the type called `type_ident` that the overload
/// registry named `given`.
pub open spec fn method_kind(
    fun: FuncView,
    type_ident: Seq<char>,
    given: Seq<char>,
    is_static: bool,
    details: Seq<ArgumentView>,
) -> MethodKind {
    if type_ident.is_prefix_of(given) {
        MethodKind::Constructor
    } else if is_static {
        MethodKind::Static
    } else if any_virtual(details) {
        if has_annotation(fun.attrs, "bindgen_pure_virtual"@) {
            MethodKind::PureVirtual
        } else {
            MethodKind::Virtual
        }
    } else {
        MethodKind::Normal
    }
}

/// The kind, the managed name and the parameters of a declaration whose
/// owning type is `self_ty` and which the overload registry named `given`.
pub open spec fn resolved(
    fun: FuncView,
    self_ty: Option<QName>,
    is_static: bool,
    given: Seq<char>,
    params: Seq<FnArgView>,
    details: Seq<ArgumentView>,
) -> ResolvedView {
    match self_ty {
        Some(t) => {
            let kind = method_kind(fun, t.name, given, is_static, details);
            let rust_name = if kind == MethodKind::Constructor {
                "make_unique"@ + given.skip(t.name.len() as int)
            } else {
                given
            };
            let drop = kind == MethodKind::Constructor;
            ResolvedView {
                kind: FnKindView::Method(t, kind),
                rust_name,
                context: ErrorContextView::Method { self_ty: t.name, method: rust_name },
                params: if drop {
                    without_receivers(params, details).0
                } else {
                    params
                },
                details: if drop {
                    without_receivers(params, details).1
                } else {
                    details
                },
            }
        },
        None => ResolvedView {
            kind: FnKindView::Function,
            rust_name: given,
            context: ErrorContextView::Item(given),
            params,
            details,
        },
    }
}

/// The reason for which a declaration is rejected once its kind is known,
/// if there is one: a parameter that failed, an unresolved template
/// parameter, a move constructor, or a receiver that cannot be one.
pub open spec fn rejection(
    env: EnvView,
    fun: FuncView,
    first_error: Option<ConvertErrorView>,
    kind: FnKindView,
) -> Option<ConvertErrorView> {
    if first_error is Some {
        first_error
    } else if has_annotation(fun.attrs, "bindgen_unused_template_param_in_arg_or_return"@) {
        Some(ConvertErrorView::UnresolvedTemplateParameter)
    } else if is_move_constructor(fun.attrs) {
        Some(ConvertErrorView::MoveConstructorUnsupported)
    } else {
        match kind {
            FnKindView::Method(t, k) => if k != MethodKind::Static
                && env.known.unacceptable_receivers.contains(t) {
                Some(ConvertErrorView::UnsupportedReceiverType)
            } else {
                None
            },
            FnKindView::Function => None,
        }
    }
}

/// The owning type's own name, for a method.
pub open spec fn owner_name(kind: FnKindView) -> Option<Seq<char>> {
    match kind {
        FnKindView::Method(t, _) => Some(t.name),
        FnKindView::Function => None,
    }
}

/// The analysis of the return type `output` of a declaration of kind `kind`.
/// A constructor returns its owning type in an owning pointer whatever the
/// declaration says.
pub open spec fn analyzed_return(
    env: EnvView,
    kind: FnKindView,
    output: Option<TypeView>,
    convert_ptr_to_reference: bool,
) -> ReturnView {
    match kind {
        FnKindView::Method(t, MethodKind::Constructor) => ReturnView {
            rt: Some(TypeView::Path(t)),
            conversion: Some(
                PolicyView {
                    unwrapped_type: TypeView::Path(t),
                    conversion: ConversionKind::ToOwnedPointer,
                },
            ),
            was_reference: false,
            deps: seq![t],
        },
        _ => converted_return(env, output, convert_ptr_to_reference),
    }
}

/// The analysis of a return type as it is declared.
pub open spec fn converted_return(
    env: EnvView,
    output: Option<TypeView>,
    convert_ptr_to_reference: bool,
) -> ReturnView {
    match output {
        None => ReturnView { rt: None, conversion: None, was_reference: false, deps: Seq::empty() },
        Some(ty) => {
            let c = ty.converted(convert_ptr_to_reference);
            ReturnView {
                rt: Some(c),
                conversion: Some(return_conversion(env, c)),
                was_reference: c is Reference,
                deps: seq![ty.leaf()],
            }
        },
    }
}

/// The named type that the analysis of the return type meets, if it
/// converts a declared type.
pub open spec fn return_leaf(kind: FnKindView, output: Option<TypeView>) -> Option<QName> {
    match kind {
        FnKindView::Method(_, MethodKind::Constructor) => None,
        _ => match output {
            Some(ty) => Some(ty.leaf()),
            None => None,
        },
    }
}

/// Whether a shim is required: always for a static, virtual or pure virtual
/// method; for any other method whose bridge name is not its managed name;
/// and for everything that needs a conversion or whose native name is no
/// identifier of the managed language.
pub open spec fn shim_needed(
    kind: FnKindView,
    names_differ: bool,
    param_conversion_needed: bool,
    ret_conversion_needed: bool,
    cpp_name_incompatible: bool,
) -> bool {
    match kind {
        FnKindView::Method(_, MethodKind::Static) => true,
        FnKindView::Method(_, MethodKind::Virtual) => true,
        FnKindView::Method(_, MethodKind::PureVirtual) => true,
        FnKindView::Method(_, _) => names_differ || param_conversion_needed
            || ret_conversion_needed || cpp_name_incompatible,
        FnKindView::Function => param_conversion_needed || ret_conversion_needed
            || cpp_name_incompatible,
    }
}

/// The name of the shim for the bridge entry `bridge_name`.
pub open spec fn wrapper_name(bridge_name: Seq<char>) -> Seq<char> {
    if "_"@.is_suffix_of(bridge_name) {
        bridge_name + "autocxx_wrapper"@
    } else {
        bridge_name + "_"@ + "autocxx_wrapper"@
    }
}

/// What the shim of a declaration of kind `kind` does, and whether it takes
/// a receiver.
pub open spec fn shim_payload(
    kind: FnKindView,
    ns: Seq<Seq<char>>,
    native_name: Seq<char>,
) -> (CppFunctionBodyView, bool) {
    match kind {
        FnKindView::Method(_, MethodKind::Constructor) => (CppFunctionBodyView::Constructor, false),
        FnKindView::Method(t, MethodKind::Static) => (
            CppFunctionBodyView::StaticMethodCall(ns, t.name, native_name),
            false,
        ),
        FnKindView::Method(_, _) => (CppFunctionBodyView::FunctionCall(ns, native_name), true),
        FnKindView::Function => (CppFunctionBodyView::FunctionCall(ns, native_name), false),
    }
}

/// The parameter of the shim's bridge entry for an analysed parameter: its
/// type is the converted one, and a receiver gets the reserved name.
pub open spec fn shim_param(kind: FnKindView, d: ArgumentView) -> FnArgView {
    FnArgView {
        pat: if d.self_type is Some && !(kind matches FnKindView::Method(
            _,
            MethodKind::Constructor,
        )) {
            PatView::Ident("autocxx_gen_this"@)
        } else {
            d.name
        },
        ty: d.conversion.converted_rust_type(),
    }
}

/// What the shim decision leaves of the bridge entry.
pub struct ShimView {
    pub cxxbridge_name: Seq<char>,
    pub ret_type: Option<TypeView>,
    pub params: Seq<FnArgView>,
    pub cpp_wrapper: Option<CppFunctionView>,
}

/// The bridge entry with its shim, where one is needed, else as it was.
pub open spec fn shim(
    needed: bool,
    kind: FnKindView,
    ns: Seq<Seq<char>>,
    native_name: Seq<char>,
    bridge_name: Seq<char>,
    params: Seq<FnArgView>,
    details: Seq<ArgumentView>,
    ret: ReturnView,
) -> ShimView {
    if needed {
        let (payload, is_a_method) = shim_payload(kind, ns, native_name);
        ShimView {
            cxxbridge_name: wrapper_name(bridge_name),
            ret_type: match ret.conversion {
                Some(c) => Some(c.unconverted_rust_type()),
                None => ret.rt,
            },
            params: Seq::new(details.len(), |i: int| shim_param(kind, details[i])),
            cpp_wrapper: Some(
                CppFunctionView {
                    payload,
                    wrapper_function_name: wrapper_name(bridge_name),
                    return_conversion: ret.conversion,
                    argument_conversion: Seq::new(details.len(), |i: int| details[i].conversion),
                    is_a_method,
                },
            ),
        }
    } else {
        ShimView { cxxbridge_name: bridge_name, ret_type: ret.rt, params, cpp_wrapper: None }
    }
}

/// The final managed identifier and the way to bring it about. A method
/// keeps its managed name. A free function keeps it where it is the bridge
/// name or where it was still free, and else goes by its bridge name and
/// gets an alias.
pub open spec fn final_naming(
    kind: FnKindView,
    cxxbridge_name: Seq<char>,
    rust_name: Seq<char>,
    rust_name_ok: bool,
) -> (Seq<char>, RenameView) {
    match kind {
        FnKindView::Method(_, _) => (rust_name, RenameView::NoRenameNeeded),
        FnKindView::Function => if cxxbridge_name == rust_name {
            (rust_name, RenameView::NoRenameNeeded)
        } else if rust_name_ok {
            (rust_name, RenameView::RenameViaAttribute)
        } else {
            (cxxbridge_name, RenameView::RenameViaAliasExport(rust_name))
        },
    }
}

/// The managed names claimed after the final naming of a declaration.
pub open spec fn names_after(
    kind: FnKindView,
    rust_names: Seq<Seq<char>>,
    rust_name: Seq<char>,
) -> Seq<Seq<char>> {
    match kind {
        FnKindView::Method(_, _) => rust_names,
        FnKindView::Function => claim(rust_names, rust_name),
    }
}

/// How the analysis of one declaration ends, and what the analyser holds then.
pub struct OutcomeView {
    pub state: AnalyzerView,
    pub result: Result<Option<ApiView<FnAnalysisView>>, ConvertErrorWithContextView>,
}

/// The analyser after the named type `leaf` was met, if one was: it is
/// known from then on, and where it was not known before, it is kept as a
/// type to declare in addition.
pub open spec fn after_meeting(s: AnalyzerView, leaf: Option<QName>) -> AnalyzerView {
    match leaf {
        Some(q) => AnalyzerView {
            known_types: with_name(s.known_types, q),
            extra_apis: s.extra_apis + discovered(s.known_types, q),
            ..s
        },
        None => s,
    }
}

/// The parameters of `fun` as the analysis started in `s` sees them.
pub open spec fn args_of(s: AnalyzerView, name: ApiNameView, fun: FuncView) -> ArgsView {
    analyzed_args(
        s.env,
        fun.inputs,
        name.name.ns,
        match name.cpp_name {
            Some(c) => c,
            None => fun.ident,
        },
        fun.virtual_this_type,
        reference_parameters(fun.attrs),
        s.known_types,
        s.extra_apis,
    )
}

/// The request that `fun` makes to the overload registry in the analysis
/// started in `s`.
pub open spec fn overload_request(s: AnalyzerView, name: ApiNameView, fun: FuncView) -> OverloadKey {
    overload_key(
        name.name.ns,
        owning_type(fun, args_of(s, name, fun).details).1,
        ideal_rust_name(fun.ident, name.cpp_name),
    )
}

/// The name that the overload registry gives `fun` in the analysis started in `s`.
pub open spec fn given_name(s: AnalyzerView, name: ApiNameView, fun: FuncView) -> Seq<char> {
    let key = overload_request(s, name, fun);
    suffixed(key.name, occurrences(s.overloads, key))
}

/// The kind, managed name and parameters that the analysis started in `s`
/// decides for `fun`.
pub open spec fn resolution(s: AnalyzerView, name: ApiNameView, fun: FuncView) -> ResolvedView {
    let args = args_of(s, name, fun);
    let (is_static, self_ty) = owning_type(fun, args.details);
    resolved(fun, self_ty, is_static, given_name(s, name, fun), args.params, args.details)
}

/// The name that the bridge name registry hands out for `fun` in the
/// analysis started in `s`.
pub open spec fn base_bridge_name(s: AnalyzerView, name: ApiNameView, fun: FuncView) -> Seq<char> {
    let r = resolution(s, name, fun);
    unique_name(s.bridge_names, owner_name(r.kind), r.rust_name, name.name.ns)
}

/// The name by which native code calls `fun`, as the analysis started in
/// `s` settles it: the native name that came with it, or else its managed name.
pub open spec fn native_name(s: AnalyzerView, name: ApiNameView, fun: FuncView) -> Seq<char> {
    match name.cpp_name {
        Some(c) => c,
        None => resolution(s, name, fun).rust_name,
    }
}

/// Whether the analysis started in `s` decides that `fun` needs a shim.
pub open spec fn needs_shim(s: AnalyzerView, name: ApiNameView, fun: FuncView) -> bool {
    let r = resolution(s, name, fun);
    let ret = analyzed_return(s.env, r.kind, fun.output, reference_return(fun.attrs));
    shim_needed(
        r.kind,
        base_bridge_name(s, name, fun) != r.rust_name,
        any_conversion(r.details),
        ret.conversion is Some && ret.conversion->0.cpp_work_needed(),
        !is_rust_ident(native_name(s, name, fun)),
    )
}

/// The analysis of the declaration `fun` that goes by `name`, started with
/// an analyser that holds `s`.
pub open spec fn analysis(s: AnalyzerView, name: ApiNameView, fun: FuncView) -> OutcomeView {
    if "_destructor"@.is_suffix_of(fun.ident) {
        OutcomeView { state: s, result: Ok(None) }
    } else {
        let args = args_of(s, name, fun);
        let s1 = AnalyzerView { known_types: args.known_types, extra_apis: args.extra_apis, ..s };
        let self_ty = owning_type(fun, args.details).1;
        if self_ty is Some && !s.env.config.allowlist.contains(self_ty->0.cpp_name()) {
            OutcomeView { state: s1, result: Ok(None) }
        } else {
            let s2 = AnalyzerView {
                overloads: s.overloads.push(overload_request(s, name, fun)),
                ..s1
            };
            let r = resolution(s, name, fun);
            let requires_unsafe = s.env.unsafe_policy == UnsafePolicy::AllFunctionsUnsafe
                || any_requires_unsafe(args.details);
            match rejection(s.env, fun, args.first_error, r.kind) {
                Some(e) => OutcomeView {
                    state: s2,
                    result: Err(
                        ConvertErrorWithContextView { error: e, context: Some(r.context) },
                    ),
                },
                None => named(s2, name, fun, r, params_deps(args.details), requires_unsafe),
            }
        }
    }
}

/// The rest of the analysis of a declaration whose kind and managed name
/// are resolved and that was not rejected: its bridge name, its return
/// type, its shim and its final naming.
pub open spec fn named(
    s: AnalyzerView,
    name: ApiNameView,
    fun: FuncView,
    r: ResolvedView,
    deps_of_params: Seq<QName>,
    requires_unsafe: bool,
) -> OutcomeView {
    let ns = name.name.ns;
    let bridge_name = unique_name(s.bridge_names, owner_name(r.kind), r.rust_name, ns);
    let cpp_name = if bridge_name != r.rust_name && name.cpp_name is None {
        Some(r.rust_name)
    } else {
        name.cpp_name
    };
    let ret = analyzed_return(s.env, r.kind, fun.output, reference_return(fun.attrs));
    let s3 = AnalyzerView {
        bridge_names: s.bridge_names.push(bridge_name),
        ..after_meeting(s, return_leaf(r.kind, fun.output))
    };
    if ret.was_reference && reference_count(r.details) != 1 {
        OutcomeView {
            state: s3,
            result: Err(
                ConvertErrorWithContextView {
                    error: ConvertErrorView::AmbiguousReferenceReturn(r.rust_name),
                    context: Some(r.context),
                },
            ),
        }
    } else {
        let native_name = match cpp_name {
            Some(c) => c,
            None => r.rust_name,
        };
        let needed = shim_needed(
            r.kind,
            bridge_name != r.rust_name,
            any_conversion(r.details),
            ret.conversion is Some && ret.conversion->0.cpp_work_needed(),
            !is_rust_ident(native_name),
        );
        let sh = shim(needed, r.kind, ns, native_name, bridge_name, r.params, r.details, ret);
        if !is_cxx_ident(sh.cxxbridge_name) {
            OutcomeView {
                state: s3,
                result: Err(
                    ConvertErrorWithContextView {
                        error: ConvertErrorView::InvalidIdentifier(sh.cxxbridge_name),
                        context: Some(r.context),
                    },
                ),
            }
        } else {
            let (id, strategy) = final_naming(
                r.kind,
                sh.cxxbridge_name,
                r.rust_name,
                !s.rust_names.contains(r.rust_name),
            );
            OutcomeView {
                state: AnalyzerView {
                    rust_names: names_after(r.kind, s.rust_names, r.rust_name),
                    ..s3
                },
                result: Ok(
                    Some(
                        ApiView::Function {
                            name: ApiNameView { cpp_name, name: QName { ns, name: id } },
                            fun,
                            analysis: FnAnalysisView {
                                cxxbridge_name: sh.cxxbridge_name,
                                rust_name: r.rust_name,
                                rust_rename_strategy: strategy,
                                params: sh.params,
                                kind: r.kind,
                                ret_type: sh.ret_type,
                                param_details: r.details,
                                requires_unsafe,
                                vis: fun.vis,
                                cpp_wrapper: sh.cpp_wrapper,
                                deps: with_names(deps_of_params, ret.deps),
                            },
                        },
                    ),
                ),
            }
        }
    }
}

/// The name under which a context is listed.
pub open spec fn context_id(ctx: ErrorContextView) -> Seq<char> {
    match ctx {
        ErrorContextView::Item(id) => id,
        ErrorContextView::Method { method, .. } => method,
    }
}

/// The item that records a failed declaration of namespace `ns`: it is
/// listed under the managed name of its context. A failure without a
/// context leaves no item.
pub open spec fn ignored_item(
    ns: Seq<Seq<char>>,
    e: ConvertErrorWithContextView,
) -> Option<ApiView<FnAnalysisView>> {
    match e.context {
        Some(ctx) => Some(
            ApiView::IgnoredItem {
                name: QName { ns, name: context_id(ctx) },
                err: e.error,
                ctx,
            },
        ),
        None => None,
    }
}

/// An item that is no function, as it stands after the analysis: unchanged.
pub open spec fn carried_over(api: ApiView<()>) -> Option<ApiView<FnAnalysisView>> {
    match api {
        ApiView::ForwardDeclaration { name } => Some(ApiView::ForwardDeclaration { name }),
        ApiView::ConcreteType { name, rs_definition, cpp_definition } => Some(
            ApiView::ConcreteType { name, rs_definition, cpp_definition },
        ),
        ApiView::StringConstructor { name } => Some(ApiView::StringConstructor { name }),
        ApiView::Function { .. } => None,
        ApiView::Const { name } => Some(ApiView::Const { name }),
        ApiView::Typedef { name, old_tyname, deps } => Some(
            ApiView::Typedef { name, old_tyname, deps },
        ),
        ApiView::Enum { name } => Some(ApiView::Enum { name }),
        ApiView::Struct { name, kind, field_deps } => Some(
            ApiView::Struct { name, kind, field_deps },
        ),
        ApiView::CType { name, typename } => Some(ApiView::CType { name, typename }),
        ApiView::IgnoredItem { name, err, ctx } => Some(ApiView::IgnoredItem { name, err, ctx }),
    }
}

/// Where a run stands: what the analyser holds and the items it has given.
pub struct BatchView {
    pub state: AnalyzerView,
    pub results: Seq<ApiView<FnAnalysisView>>,
}

/// The run after one more item. A function is analysed: it gives its
/// analysed self, nothing where it was dropped, and an ignored item where
/// it failed. Any other item is carried over.
pub open spec fn step(b: BatchView, api: ApiView<()>) -> BatchView {
    match api {
        ApiView::Function { name, fun, .. } => {
            let o = analysis(b.state, name, fun);
            let produced = match o.result {
                Ok(Some(api)) => Some(api),
                Ok(None) => None,
                Err(e) => ignored_item(name.name.ns, e),
            };
            BatchView {
                state: o.state,
                results: match produced {
                    Some(api) => b.results.push(api),
                    None => b.results,
                },
            }
        },
        _ => BatchView { state: b.state, results: b.results.push(carried_over(api)->0) },
    }
}

/// The run over `apis`, in order, started with an analyser that holds `s`.
pub open spec fn batch(s: AnalyzerView, apis: Seq<ApiView<()>>) -> BatchView
    decreases apis.len(),
{
    if apis.len() == 0 {
        BatchView { state: s, results: Seq::empty() }
    } else {
        step(batch(s, apis.drop_last()), apis.last())
    }
}

/// The forward declarations of the types in `names`, in order.
pub open spec fn forward_declarations(names: Seq<QName>) -> Seq<ApiView<FnAnalysisView>> {
    Seq::new(names.len(), |i: int| ApiView::ForwardDeclaration { name: names[i] })
}

/// All that a run over `apis` gives when it starts with an analyser that
/// holds `s`: the items of the run in order, each analysed or carried over,
/// and after them a forward declaration of every type that was discovered.
pub open spec fn run(s: AnalyzerView, apis: Seq<ApiView<()>>) -> Seq<ApiView<FnAnalysisView>> {
    let b = batch(s, apis);
    b.results + forward_declarations(b.state.extra_apis)
}

} // verus!
