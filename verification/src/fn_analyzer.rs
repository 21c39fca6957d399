//! The analyser: it looks at one declaration after the other and decides,
//! for each, its kind, its names and whether it needs a shim.

use crate::annotations::{
    add_reference_parameter, has_annotation, has_attr, is_move_constructor,
    is_move_constructor_value, lemma_reference_parameters_are_a_set, reference_parameter_in,
    reference_parameters, reference_return, special_member_annotation, special_member_in,
};
use crate::api::{
    AnnotationView, Api, ApiName, ApiView, ArgumentAnalysis, ArgumentView, CppFunction,
    FnAnalysisBody, FnAnalysisView, FnArg, FnArgView, FnKind, FuncToConvert, MethodKind,
    NullAnalysis, Pat, ReturnTypeAnalysis, TypeKind,
};
use crate::decisions::{
    choose_final_naming, ideal_name, method_kind_of, shim_payload_of, wrapper_function_needed,
    wrapper_name_of,
};
use crate::details::{
    argument_conversions, collect_deps, count_references, drop_receivers, find_self_type,
    shim_params, some_conversion, some_requires_unsafe,
};
use crate::bridge_name_tracker::{unique_name, BridgeNameTracker};
use crate::config::{IncludeCppConfig, KnownTypes, UnsafePolicy};
use crate::errors::{
    ConvertError, ConvertErrorView, ConvertErrorWithContext, ConvertErrorWithContextView,
    ErrorContext,
};
use crate::laws::lemma_analysis_keeps_wf;
use crate::idents::{is_ident_ok_for_rust, validate_ident_ok_for_cxx};
use crate::model::{
    after_meeting, analysis, analyzed_arg, analyzed_args, argument_conversion, batch,
    carried_over, converted_return, declared_leaf, forward_declarations, ignored_item,
    initial_state, lemma_pod_safe_types_are_a_set, met_by_arg, named, pod_safe_apis,
    pod_safe_type_set, prepared_arg, prepared_arg_given, return_conversion, run, step,
    AnalyzerView, BatchView, EnvView, PreparedArg, ResolvedView,
};
use crate::names::{
    add_name, add_names, clone_opt_name, clone_opt_text, contains_name, contains_text, with_name,
    Namespace, QName, QualifiedName,
};
use crate::overload_tracker::OverloadTracker;
use crate::rust_name_tracker::{claim, RustNameTracker};
use crate::text::{concat2, ends_with, same_text, tail_from};
use crate::type_converter::TypeConverter;
use crate::types::{type_view, NativeType, TypeConversionPolicy, TypeView};
use vstd::prelude::*;

verus! {

/// A parameter after the first look at it, before its type is converted.
#[derive(Debug)]
pub struct PreparedFnArg {
    pub pat: Pat,
    pub ty: NativeType,
    /// The owning type, where the parameter is the receiver.
    pub self_type: Option<QualifiedName>,
    pub is_virtual: bool,
    /// Whether a pointer at the top of the type is to become a reference.
    pub treat_as_reference: bool,
}

impl View for PreparedFnArg {
    type V = PreparedArg;

    open spec fn view(&self) -> PreparedArg {
        PreparedArg {
            pat: self.pat@,
            ty: self.ty@,
            self_type: self.self_type.deep_view(),
            is_virtual: self.is_virtual,
            treat_as_reference: self.treat_as_reference,
        }
    }
}

/// The analyser of one run. It owns the three registries of names and the
/// list of types discovered on the way.
pub struct FnAnalyzer<'a> {
    unsafe_policy: UnsafePolicy,
    rust_name_tracker: RustNameTracker,
    extra_apis: Vec<QualifiedName>,
    type_converter: TypeConverter,
    bridge_name_tracker: BridgeNameTracker,
    pod_safe_types: Vec<QualifiedName>,
    config: &'a IncludeCppConfig,
    known: &'a KnownTypes,
    overload_tracker: OverloadTracker,
}

impl<'a> View for FnAnalyzer<'a> {
    type V = AnalyzerView;

    closed spec fn view(&self) -> AnalyzerView {
        AnalyzerView {
            env: EnvView {
                unsafe_policy: self.unsafe_policy,
                pod_safe_types: self.pod_safe_types.deep_view(),
                config: self.config@,
                known: self.known@,
            },
            rust_names: self.rust_name_tracker@,
            extra_apis: self.extra_apis.deep_view(),
            known_types: self.type_converter@,
            bridge_names: self.bridge_name_tracker@,
            overloads: self.overload_tracker@,
        }
    }
}

impl<'a> FnAnalyzer<'a> {
    /// An analyser for a run over `apis`, with empty registries.
    pub fn new(
        apis: &Vec<Api<NullAnalysis>>,
        unsafe_policy: UnsafePolicy,
        config: &'a IncludeCppConfig,
        known: &'a KnownTypes,
    ) -> (r: FnAnalyzer<'a>)
        ensures
            r@ == initial_state(apis.deep_view(), unsafe_policy, config@, known@),
            r@.wf(),
    {
        let r = FnAnalyzer {
            unsafe_policy,
            rust_name_tracker: RustNameTracker::new(),
            extra_apis: Vec::new(),
            type_converter: TypeConverter::new(apis, known),
            bridge_name_tracker: BridgeNameTracker::new(),
            pod_safe_types: Self::build_pod_safe_type_set(apis, known),
            config,
            known,
            overload_tracker: OverloadTracker::new(),
        };
        assert(r.extra_apis.deep_view() =~= Seq::<QName>::empty());
        r
    }

    /// The set of types that are safe to pass by value: the plain structs
    /// and the enumerations among `apis`, and the built-in ones, each once.
    pub fn build_pod_safe_type_set(apis: &Vec<Api<NullAnalysis>>, known: &KnownTypes) -> (r: Vec<
        QualifiedName,
    >)
        ensures
            r.deep_view() == pod_safe_type_set(apis.deep_view(), known@),
            r.deep_view().no_duplicates(),
    {
        let ghost all = apis.deep_view();
        let mut r: Vec<QualifiedName> = Vec::new();
        let mut i: usize = 0;
        assert(all.take(0) =~= Seq::<ApiView<()>>::empty());
        assert(r.deep_view() =~= Seq::<QName>::empty());
        while i < apis.len()
            invariant
                i <= apis.len(),
                all == apis.deep_view(),
                r.deep_view() == pod_safe_apis(all.take(i as int)),
            decreases apis.len() - i,
        {
            assert(all.take(i + 1).drop_last() =~= all.take(i as int));
            assert(all.take(i + 1).last() == apis[i as int].deep_view());
            match &apis[i] {
                Api::Struct { name, kind: TypeKind::Pod, .. } => {
                    add_name(&mut r, name);
                },
                Api::Enum { name } => {
                    add_name(&mut r, name);
                },
                _ => {},
            }
            i += 1;
        }
        assert(all.take(apis.len() as int) =~= all);
        add_names(&mut r, &known.pod_safe);
        proof {
            lemma_pod_safe_types_are_a_set(all, known@);
        }
        r
    }

    /// Converts `ty` into the type that the bridge declares, and keeps what
    /// the conversion discovered. Returns the converted type, the types it
    /// depends on, and whether it needs an unsafe function.
    pub fn convert_boxed_type(&mut self, ty: NativeType, convert_ptrs_to_references: bool) -> (r: (
        NativeType,
        Vec<QualifiedName>,
        bool,
    ))
        ensures
            r.0@ == ty@.converted(convert_ptrs_to_references),
            r.1.deep_view() == seq![ty@.leaf()],
            r.2 == ty@.converted(convert_ptrs_to_references).has_raw_pointer(),
            final(self)@ == after_meeting(old(self)@, Some(ty@.leaf())),
    {
        let annotated = self.type_converter.convert_boxed_type(ty, convert_ptrs_to_references);
        let ghost before = self.extra_apis.deep_view();
        let mut i: usize = 0;
        while i < annotated.extra_apis.len()
            invariant
                i <= annotated.extra_apis.len(),
                self.extra_apis.deep_view() == before + annotated.extra_apis.deep_view().take(
                    i as int,
                ),
                self.unsafe_policy == old(self).unsafe_policy,
                self.rust_name_tracker == old(self).rust_name_tracker,
                self.bridge_name_tracker == old(self).bridge_name_tracker,
                self.pod_safe_types == old(self).pod_safe_types,
                self.config == old(self).config,
                self.known == old(self).known,
                self.overload_tracker == old(self).overload_tracker,
                self.type_converter@ == with_name(old(self).type_converter@, ty@.leaf()),
            decreases annotated.extra_apis.len() - i,
        {
            let ghost so_far = self.extra_apis.deep_view();
            self.extra_apis.push(annotated.extra_apis[i].clone());
            assert(self.extra_apis.deep_view() =~= so_far.push(annotated.extra_apis[i as int]@));
            assert(self.extra_apis.deep_view() =~= before + annotated.extra_apis.deep_view().take(
                i + 1,
            ));
            i += 1;
        }
        assert(annotated.extra_apis.deep_view().take(annotated.extra_apis.len() as int)
            =~= annotated.extra_apis.deep_view());
        (annotated.ty, annotated.types_encountered, annotated.requires_unsafe)
    }

    /// Asks the bridge name registry for a new name.
    pub fn get_cxx_bridge_name(&mut self, owner: Option<&str>, found_name: &str, ns: &Namespace) -> (r:
        String)
        ensures
            r@ == unique_name(old(self)@.bridge_names, owner.deep_view(), found_name@, ns@),
            !old(self)@.bridge_names.contains(r@),
            final(self)@ == (AnalyzerView {
                bridge_names: old(self)@.bridge_names.push(r@),
                ..old(self)@
            }),
    {
        self.bridge_name_tracker.get_unique_cxx_bridge_name(owner, found_name, ns)
    }

    /// Claims a managed name and says whether it was still free.
    pub fn ok_to_use_rust_name(&mut self, rust_name: &str) -> (r: bool)
        ensures
            r == !old(self)@.rust_names.contains(rust_name@),
            final(self)@ == (AnalyzerView {
                rust_names: claim(old(self)@.rust_names, rust_name@),
                ..old(self)@
            }),
    {
        self.rust_name_tracker.ok_to_use_rust_name(rust_name)
    }

    /// Whether methods of this type were asked for.
    pub fn is_on_allowlist(&self, ty: &QualifiedName) -> (r: bool)
        ensures
            r == self@.env.config.allowlist.contains(ty@.cpp_name()),
    {
        self.config.is_on_allowlist(ty.to_cpp_name().as_str())
    }

    /// Whether every function is unsafe by policy.
    pub fn should_be_unsafe(&self) -> (r: bool)
        ensures
            r == (self@.env.unsafe_policy == UnsafePolicy::AllFunctionsUnsafe),
    {
        match self.unsafe_policy {
            UnsafePolicy::AllFunctionsUnsafe => true,
            UnsafePolicy::AllFunctionsSafe => false,
        }
    }

    /// The conversion of an argument whose type in the bridge is `ty`: none
    /// for a type that is safe to pass by value and for anything that is not
    /// a named type held by value; from a borrowed string for a string-like
    /// type, unless the string helpers are left out; else from an owning
    /// pointer.
    pub fn argument_conversion_details(&self, ty: &NativeType) -> (r: TypeConversionPolicy)
        ensures
            r@ == argument_conversion(self@.env, ty@),
    {
        match ty {
            NativeType::Path(tn) => {
                if contains_name(&self.pod_safe_types, tn) {
                    TypeConversionPolicy::new_unconverted(ty.clone())
                } else if self.known.convertible_from_strs(tn) && !self.config.exclude_utilities() {
                    TypeConversionPolicy::new_from_str(ty.clone())
                } else {
                    TypeConversionPolicy::new_from_unique_ptr(ty.clone())
                }
            },
            _ => TypeConversionPolicy::new_unconverted(ty.clone()),
        }
    }

    /// The conversion of a return value whose type in the bridge is `ty`:
    /// none for a type that is safe to pass by value and for anything that
    /// is not a named type held by value; else into an owning pointer.
    pub fn return_type_conversion_details(&self, ty: &NativeType) -> (r: TypeConversionPolicy)
        ensures
            r@ == return_conversion(self@.env, ty@),
    {
        match ty {
            NativeType::Path(tn) => {
                if contains_name(&self.pod_safe_types, tn) {
                    TypeConversionPolicy::new_unconverted(ty.clone())
                } else {
                    TypeConversionPolicy::new_to_unique_ptr(ty.clone())
                }
            },
            _ => TypeConversionPolicy::new_unconverted(ty.clone()),
        }
    }

    /// The analysis of a return type as it is declared.
    pub fn convert_return_type(&mut self, rt: &Option<NativeType>, convert_ptr_to_reference: bool) -> (r:
        ReturnTypeAnalysis)
        ensures
            r@ == converted_return(old(self)@.env, rt.deep_view(), convert_ptr_to_reference),
            final(self)@ == after_meeting(old(self)@, declared_leaf(rt.deep_view())),
    {
        match rt {
            None => {
                let deps: Vec<QualifiedName> = Vec::new();
                assert(deps.deep_view() =~= Seq::<QName>::empty());
                ReturnTypeAnalysis { rt: None, conversion: None, was_reference: false, deps }
            },
            Some(boxed_type) => {
                let (boxed_type, deps, _) = self.convert_boxed_type(
                    boxed_type.clone(),
                    convert_ptr_to_reference,
                );
                let was_reference = boxed_type.is_reference();
                let conversion = self.return_type_conversion_details(&boxed_type);
                ReturnTypeAnalysis {
                    rt: Some(boxed_type),
                    conversion: Some(conversion),
                    was_reference,
                    deps,
                }
            },
        }
    }

    /// The first look at a parameter, given whether its name is in the
    /// grammar of the bridge. A parameter called `this` is the receiver: it
    /// must be a pointer to a named type, and where that type is the
    /// placeholder of virtual dispatch, `virtual_this` takes its place. Any
    /// other named parameter must have a name that the bridge accepts; it is
    /// a reference if `reference_args` holds its name. A parameter whose
    /// pattern is no plain name is kept as it is.
    pub fn prepare_fn_arg(
        arg: &FnArg,
        ns: &Namespace,
        fn_name: &str,
        virtual_this: Option<QualifiedName>,
        reference_args: &Vec<String>,
        name_ok: bool,
    ) -> (r: Result<PreparedFnArg, ConvertError>)
        ensures
            match r {
                Ok(p) => prepared_arg_given(
                    arg@,
                    ns@,
                    fn_name@,
                    virtual_this.deep_view(),
                    reference_args.deep_view(),
                    name_ok,
                ) == Ok::<PreparedArg, ConvertErrorView>(p@),
                Err(e) => prepared_arg_given(
                    arg@,
                    ns@,
                    fn_name@,
                    virtual_this.deep_view(),
                    reference_args.deep_view(),
                    name_ok,
                ) == Err::<PreparedArg, ConvertErrorView>(e@),
            },
    {
        let name = match &arg.pat {
            Pat::Ident(name) => name,
            Pat::Other(_) => {
                return Ok(
                    PreparedFnArg {
                        pat: arg.pat.clone(),
                        ty: arg.ty.clone(),
                        self_type: None,
                        is_virtual: false,
                        treat_as_reference: false,
                    },
                );
            },
        };
        if same_text(name.as_str(), "this") {
            match &arg.ty {
                NativeType::Ptr { mutable, elem } => match &**elem {
                    NativeType::Path(typ) => {
                        assert(arg@.ty == TypeView::Ptr {
                            mutable: *mutable,
                            elem: Box::new(TypeView::Path(typ@)),
                        }) by {
                            assert(type_view(**elem) == TypeView::Path(typ@));
                        }
                        if typ.is_cvoid() {
                            match virtual_this {
                                Some(this_type) => {
                                    let pointee = NativeType::Path(this_type.clone());
                                    assert(pointee@ == TypeView::Path(this_type@));
                                    let ty = NativeType::Ptr {
                                        mutable: *mutable,
                                        elem: Box::new(pointee),
                                    };
                                    assert(ty@ == TypeView::Ptr {
                                        mutable: *mutable,
                                        elem: Box::new(TypeView::Path(this_type@)),
                                    });
                                    Ok(
                                        PreparedFnArg {
                                            pat: Pat::Ident(String::from_str("self")),
                                            ty,
                                            self_type: Some(this_type),
                                            is_virtual: true,
                                            treat_as_reference: true,
                                        },
                                    )
                                },
                                None => Err(
                                    ConvertError::VirtualThisTypeMissing(
                                        ns.clone(),
                                        String::from_str(fn_name),
                                    ),
                                ),
                            }
                        } else {
                            Ok(
                                PreparedFnArg {
                                    pat: Pat::Ident(String::from_str("self")),
                                    ty: arg.ty.clone(),
                                    self_type: Some(typ.clone()),
                                    is_virtual: false,
                                    treat_as_reference: true,
                                },
                            )
                        }
                    },
                    _ => {
                        assert(arg@.ty == TypeView::Ptr {
                            mutable: *mutable,
                            elem: Box::new(type_view(**elem)),
                        });
                        assert(!(type_view(**elem) is Path));
                        Err(
                            ConvertError::UnexpectedReceiverShape(
                                ns.clone(),
                                String::from_str(fn_name),
                            ),
                        )
                    },
                },
                _ => {
                    assert(!(arg@.ty is Ptr));
                    Err(
                        ConvertError::UnexpectedReceiverShape(
                            ns.clone(),
                            String::from_str(fn_name),
                        ),
                    )
                },
            }
        } else if !name_ok {
            Err(ConvertError::InvalidIdentifier(name.clone()))
        } else {
            Ok(
                PreparedFnArg {
                    pat: arg.pat.clone(),
                    ty: arg.ty.clone(),
                    self_type: None,
                    is_virtual: false,
                    treat_as_reference: contains_text(reference_args, name.as_str()),
                },
            )
        }
    }

    /// The analysis of one parameter: after the first look at it, its type
    /// is converted into the type that the bridge declares, a pointer
    /// becoming a reference for a receiver and for a parameter that is
    /// marked as a reference, and the conversion of its values is chosen.
    pub fn convert_fn_arg(
        &mut self,
        arg: &FnArg,
        ns: &Namespace,
        fn_name: &str,
        virtual_this: Option<QualifiedName>,
        reference_args: &Vec<String>,
    ) -> (r: Result<(FnArg, ArgumentAnalysis), ConvertError>)
        ensures
            match r {
                Ok((a, d)) => analyzed_arg(
                    old(self)@.env,
                    arg@,
                    ns@,
                    fn_name@,
                    virtual_this.deep_view(),
                    reference_args.deep_view(),
                ) == Ok::<(FnArgView, ArgumentView), ConvertErrorView>((a@, d@)),
                Err(e) => analyzed_arg(
                    old(self)@.env,
                    arg@,
                    ns@,
                    fn_name@,
                    virtual_this.deep_view(),
                    reference_args.deep_view(),
                ) == Err::<(FnArgView, ArgumentView), ConvertErrorView>(e@),
            },
            final(self)@ == after_meeting(
                old(self)@,
                met_by_arg(
                    prepared_arg(
                        arg@,
                        ns@,
                        fn_name@,
                        virtual_this.deep_view(),
                        reference_args.deep_view(),
                    ),
                ),
            ),
    {
        let name_ok = match &arg.pat {
            Pat::Ident(name) => validate_ident_ok_for_cxx(name.as_str()).is_ok(),
            Pat::Other(_) => true,
        };
        let prepared = match Self::prepare_fn_arg(
            arg,
            ns,
            fn_name,
            virtual_this,
            reference_args,
            name_ok,
        ) {
            Ok(prepared) => prepared,
            Err(e) => {
                return Err(e);
            },
        };
        let PreparedFnArg { pat, ty, self_type, is_virtual, treat_as_reference } = prepared;
        let (new_ty, deps, requires_unsafe) = self.convert_boxed_type(ty, treat_as_reference);
        let was_reference = new_ty.is_reference();
        let conversion = self.argument_conversion_details(&new_ty);
        Ok(
            (
                FnArg { pat: pat.clone(), ty: new_ty },
                ArgumentAnalysis {
                    self_type,
                    name: pat,
                    conversion,
                    was_reference,
                    deps,
                    is_virtual,
                    requires_unsafe,
                },
            ),
        )
    }

    /// The kind of special member that `fun` is annotated as: the string of
    /// the first special-member annotation whose argument is a string literal.
    pub fn get_bindgen_special_member_annotation(fun: &FuncToConvert) -> (r: Option<String>)
        ensures
            r.deep_view() == special_member_annotation(fun@.attrs),
    {
        let ghost attrs = fun@.attrs;
        let mut i: usize = 0;
        assert(attrs.skip(0) =~= attrs);
        while i < fun.attrs.len()
            invariant
                i <= fun.attrs.len(),
                attrs == fun.attrs.deep_view(),
                special_member_annotation(attrs) == special_member_annotation(
                    attrs.skip(i as int),
                ),
            decreases fun.attrs.len() - i,
        {
            let ghost rest = attrs.skip(i as int);
            assert(rest.first() == attrs[i as int]);
            assert(rest.drop_first() =~= attrs.skip(i + 1));
            let found = special_member_in(&fun.attrs[i]);
            if found.is_some() {
                return found;
            }
            i += 1;
        }
        None
    }

    /// Whether `fun` is annotated as a move constructor.
    pub fn is_move_constructor(fun: &FuncToConvert) -> (r: bool)
        ensures
            r == is_move_constructor(fun@.attrs),
    {
        let value = Self::get_bindgen_special_member_annotation(fun);
        is_move_constructor_value(&value)
    }

    /// The set of parameters of `fun` that are annotated as references, each
    /// name once, and whether its return value is annotated as one.
    pub fn get_reference_parameters_and_return(fun: &FuncToConvert) -> (r: (Vec<String>, bool))
        ensures
            r.0.deep_view() == reference_parameters(fun@.attrs),
            r.0.deep_view().no_duplicates(),
            r.1 == reference_return(fun@.attrs),
    {
        proof {
            lemma_reference_parameters_are_a_set(fun@.attrs);
        }
        let ghost attrs = fun@.attrs;
        let mut ref_params: Vec<String> = Vec::new();
        let mut ref_return = false;
        let mut i: usize = 0;
        assert(attrs.take(0) =~= Seq::<AnnotationView>::empty());
        while i < fun.attrs.len()
            invariant
                i <= fun.attrs.len(),
                attrs == fun.attrs.deep_view(),
                ref_params.deep_view() == reference_parameters(attrs.take(i as int)),
                ref_return == has_annotation(attrs.take(i as int), "bindgen_ret_type_reference"@),
            decreases fun.attrs.len() - i,
        {
            let ghost seen = attrs.take(i as int);
            let ghost next = attrs.take(i + 1);
            assert(next.drop_last() =~= seen);
            assert(next.last() == attrs[i as int]);
            let a = &fun.attrs[i];
            if same_text(a.name.as_str(), "bindgen_ret_type_reference") {
                ref_return = true;
            }
            add_reference_parameter(&mut ref_params, reference_parameter_in(a));
            proof {
                let name = "bindgen_ret_type_reference"@;
                if has_annotation(next, name) {
                    let k = choose|k: int| 0 <= k < next.len() && (#[trigger] next[k]).name == name;
                    if k < i {
                        assert(seen[k].name == name);
                    }
                }
                if has_annotation(seen, name) {
                    let k = choose|k: int| 0 <= k < seen.len() && (#[trigger] seen[k]).name == name;
                    assert(next[k].name == name);
                }
                if attrs[i as int].name == name {
                    assert(next[i as int].name == name);
                }
            }
            i += 1;
        }
        assert(attrs.take(fun.attrs.len() as int) =~= attrs);
        (ref_params, ref_return)
    }
}

/// The model of the result of an analysis.
pub open spec fn result_view(
    r: Result<Option<Api<FnAnalysisBody>>, ConvertErrorWithContext>,
) -> Result<Option<ApiView<FnAnalysisView>>, ConvertErrorWithContextView> {
    match r {
        Ok(Some(api)) => Ok(Some(api.deep_view())),
        Ok(None) => Ok(None),
        Err(e) => Err(e@),
    }
}

/// A declaration whose kind and managed name are decided.
struct Resolved {
    kind: FnKind,
    rust_name: String,
    context: ErrorContext,
    params: Vec<FnArg>,
    details: Vec<ArgumentAnalysis>,
}

impl View for Resolved {
    type V = ResolvedView;

    closed spec fn view(&self) -> ResolvedView {
        ResolvedView {
            kind: self.kind@,
            rust_name: self.rust_name@,
            context: self.context@,
            params: self.params.deep_view(),
            details: self.details.deep_view(),
        }
    }
}

impl<'a> FnAnalyzer<'a> {
    /// The analysis of all parameters of `fun`, in order. A parameter that
    /// fails is left out and the others are still analysed; the first
    /// failure is handed back with them.
    fn analyze_params(
        &mut self,
        fun: &FuncToConvert,
        ns: &Namespace,
        fn_name: &str,
        reference_args: &Vec<String>,
    ) -> (r: (Vec<FnArg>, Vec<ArgumentAnalysis>, Option<ConvertError>))
        ensures
            r.0.len() == r.1.len(),
            ({
                let args = analyzed_args(
                    old(self)@.env,
                    fun@.inputs,
                    ns@,
                    fn_name@,
                    fun@.virtual_this_type,
                    reference_args.deep_view(),
                    old(self)@.known_types,
                    old(self)@.extra_apis,
                );
                &&& r.0.deep_view() == args.params
                &&& r.1.deep_view() == args.details
                &&& r.2.deep_view() == args.first_error
                &&& final(self)@ == (AnalyzerView {
                    known_types: args.known_types,
                    extra_apis: args.extra_apis,
                    ..old(self)@
                })
            }),
    {
        let ghost s0 = self@;
        let ghost inputs = fun@.inputs;
        let mut params: Vec<FnArg> = Vec::new();
        let mut details: Vec<ArgumentAnalysis> = Vec::new();
        let mut first_error: Option<ConvertError> = None;
        let mut i: usize = 0;
        assert(inputs.take(0) =~= Seq::<FnArgView>::empty());
        assert(params.deep_view() =~= Seq::<FnArgView>::empty());
        assert(details.deep_view() =~= Seq::<ArgumentView>::empty());
        while i < fun.inputs.len()
            invariant
                i <= fun.inputs.len(),
                inputs == fun.inputs.deep_view(),
                inputs == fun@.inputs,
                s0 == old(self)@,
                params.len() == details.len(),
                ({
                    let args = analyzed_args(
                        s0.env,
                        inputs.take(i as int),
                        ns@,
                        fn_name@,
                        fun@.virtual_this_type,
                        reference_args.deep_view(),
                        s0.known_types,
                        s0.extra_apis,
                    );
                    &&& params.deep_view() == args.params
                    &&& details.deep_view() == args.details
                    &&& first_error.deep_view() == args.first_error
                    &&& self@ == (AnalyzerView {
                        known_types: args.known_types,
                        extra_apis: args.extra_apis,
                        ..s0
                    })
                }),
            decreases fun.inputs.len() - i,
        {
            assert(inputs.take(i + 1).drop_last() =~= inputs.take(i as int));
            assert(inputs.take(i + 1).last() == fun.inputs[i as int]@);
            let ghost params_before = params.deep_view();
            let ghost details_before = details.deep_view();
            match self.convert_fn_arg(
                &fun.inputs[i],
                ns,
                fn_name,
                clone_opt_name(&fun.virtual_this_type),
                reference_args,
            ) {
                Ok((a, d)) => {
                    params.push(a);
                    details.push(d);
                    assert(params.deep_view() =~= params_before.push(a@));
                    assert(details.deep_view() =~= details_before.push(d@));
                },
                Err(e) => {
                    if first_error.is_none() {
                        first_error = Some(e);
                    }
                },
            }
            i += 1;
        }
        assert(inputs.take(fun.inputs.len() as int) =~= inputs);
        (params, details, first_error)
    }

    /// Decides how one declaration is brought across the boundary.
    ///
    /// A declaration whose name marks it as a destructor gives nothing. The
    /// parameters are analysed, the ideal managed name is worked out, and the
    /// declaration is recognised as a free function or as a method of its
    /// owning type; a method of a type that was not asked for gives nothing.
    /// The overload registry names it, and a method whose name still begins
    /// with its owning type's is a constructor. A parameter that failed, an
    /// unresolved template parameter, a move constructor or an unacceptable
    /// receiver rejects the declaration. Otherwise it gets its bridge name,
    /// its return type is analysed, a shim is described where one is needed,
    /// and the final naming is chosen.
    pub fn analyze_foreign_fn(&mut self, name: ApiName, func_information: FuncToConvert) -> (r: Result<
        Option<Api<FnAnalysisBody>>,
        ConvertErrorWithContext,
    >)
        ensures
            result_view(r) == analysis(old(self)@, name@, func_information@).result,
            final(self)@ == analysis(old(self)@, name@, func_information@).state,
            old(self)@.wf() ==> final(self)@.wf(),
    {
        proof {
            if old(self)@.wf() {
                lemma_analysis_keeps_wf(old(self)@, name@, func_information@);
            }
        }
        let fun = &func_information;
        let ns = name.name.get_namespace().clone();
        if ends_with(fun.ident.as_str(), "_destructor") {
            return Ok(None);
        }
        let diagnostic_display_name = match &name.cpp_name {
            Some(c) => c.clone(),
            None => fun.ident.clone(),
        };
        let (reference_params, reference_return) = Self::get_reference_parameters_and_return(fun);
        let (mut params, mut param_details, first_error) = self.analyze_params(
            fun,
            &ns,
            diagnostic_display_name.as_str(),
            &reference_params,
        );
        let params_deps = collect_deps(&param_details);
        let self_ty = find_self_type(&param_details);
        let requires_unsafe = self.should_be_unsafe() || some_requires_unsafe(&param_details);
        let ideal_rust_name = ideal_name(fun.ident.as_str(), &name.cpp_name);
        let (is_static_method, self_ty) = match self_ty {
            Some(t) => (false, Some(t)),
            None => {
                let t = clone_opt_name(&fun.self_ty);
                (t.is_some(), t)
            },
        };
        let resolved = match self_ty {
            Some(self_ty) => {
                if !self.is_on_allowlist(&self_ty) {
                    return Ok(None);
                }
                let type_ident = self_ty.get_final_item();
                let given = self.overload_tracker.get_method_real_name(
                    &ns,
                    type_ident,
                    ideal_rust_name,
                );
                let method_kind = method_kind_of(
                    fun,
                    type_ident,
                    given.as_str(),
                    is_static_method,
                    &param_details,
                );
                let rust_name = match method_kind {
                    MethodKind::Constructor => {
                        let constructor_suffix = tail_from(
                            given.as_str(),
                            type_ident.unicode_len(),
                        );
                        let rust_name = concat2("make_unique", constructor_suffix.as_str());
                        let kept = drop_receivers(&params, &param_details);
                        params = kept.0;
                        param_details = kept.1;
                        rust_name
                    },
                    _ => given,
                };
                let context = ErrorContext::Method {
                    self_ty: String::from_str(type_ident),
                    method: rust_name.clone(),
                };
                Resolved {
                    kind: FnKind::Method(self_ty, method_kind),
                    rust_name,
                    context,
                    params,
                    details: param_details,
                }
            },
            None => {
                let rust_name = self.overload_tracker.get_function_real_name(&ns, ideal_rust_name);
                let context = ErrorContext::Item(rust_name.clone());
                Resolved {
                    kind: FnKind::Function,
                    rust_name,
                    context,
                    params,
                    details: param_details,
                }
            },
        };
        match first_error {
            Some(problem) => {
                return Err(ConvertErrorWithContext(problem, Some(resolved.context)));
            },
            None => {},
        }
        if has_attr(&fun.attrs, "bindgen_unused_template_param_in_arg_or_return") {
            return Err(
                ConvertErrorWithContext(
                    ConvertError::UnresolvedTemplateParameter,
                    Some(resolved.context),
                ),
            );
        }
        if Self::is_move_constructor(fun) {
            return Err(
                ConvertErrorWithContext(
                    ConvertError::MoveConstructorUnsupported,
                    Some(resolved.context),
                ),
            );
        }
        let receiver_ok = match &resolved.kind {
            FnKind::Method(_, MethodKind::Static) => true,
            FnKind::Method(self_ty, _) => self.known.is_cxx_acceptable_receiver(self_ty),
            FnKind::Function => true,
        };
        if !receiver_ok {
            return Err(
                ConvertErrorWithContext(
                    ConvertError::UnsupportedReceiverType,
                    Some(resolved.context),
                ),
            );
        }
        self.name_and_wrap(
            name,
            func_information,
            resolved,
            params_deps,
            requires_unsafe,
            reference_return,
        )
    }

    /// The rest of the analysis of a declaration that was not rejected: its
    /// bridge name, its return type, its shim and its final naming.
    fn name_and_wrap(
        &mut self,
        name: ApiName,
        func_information: FuncToConvert,
        resolved: Resolved,
        params_deps: Vec<QualifiedName>,
        requires_unsafe: bool,
        ref_return: bool,
    ) -> (r: Result<Option<Api<FnAnalysisBody>>, ConvertErrorWithContext>)
        requires
            ref_return == reference_return(func_information@.attrs),
        ensures
            result_view(r) == named(
                old(self)@,
                name@,
                func_information@,
                resolved@,
                params_deps.deep_view(),
                requires_unsafe,
            ).result,
            final(self)@ == named(
                old(self)@,
                name@,
                func_information@,
                resolved@,
                params_deps.deep_view(),
                requires_unsafe,
            ).state,
    {
        let Resolved { kind, rust_name, context, params, details: param_details } = resolved;
        let ns = name.name.get_namespace().clone();
        let cxxbridge_name = match &kind {
            FnKind::Method(self_ty, _) => self.get_cxx_bridge_name(
                Some(self_ty.get_final_item()),
                rust_name.as_str(),
                &ns,
            ),
            FnKind::Function => self.get_cxx_bridge_name(None, rust_name.as_str(), &ns),
        };
        let names_differ = !same_text(cxxbridge_name.as_str(), rust_name.as_str());
        let cpp_name = if names_differ && name.cpp_name.is_none() {
            Some(rust_name.clone())
        } else {
            clone_opt_text(&name.cpp_name)
        };
        let return_analysis = match &kind {
            FnKind::Method(self_ty, MethodKind::Constructor) => {
                let constructed_type = NativeType::Path(self_ty.clone());
                let mut these_deps: Vec<QualifiedName> = Vec::new();
                these_deps.push(self_ty.clone());
                assert(these_deps.deep_view() =~= seq![self_ty@]);
                ReturnTypeAnalysis {
                    rt: Some(constructed_type.clone()),
                    conversion: Some(TypeConversionPolicy::new_to_unique_ptr(constructed_type)),
                    was_reference: false,
                    deps: these_deps,
                }
            },
            _ => self.convert_return_type(&func_information.output, ref_return),
        };
        let mut deps = params_deps;
        add_names(&mut deps, &return_analysis.deps);
        if return_analysis.was_reference {
            let num_input_references = count_references(&param_details);
            if num_input_references != 1 {
                return Err(
                    ConvertErrorWithContext(
                        ConvertError::AmbiguousReferenceReturn(rust_name),
                        Some(context),
                    ),
                );
            }
        }
        let param_conversion_needed = some_conversion(&param_details);
        let ret_type_conversion_needed = match &return_analysis.conversion {
            Some(c) => c.cpp_work_needed(),
            None => false,
        };
        let effective_cpp_name = match &cpp_name {
            Some(c) => c.clone(),
            None => rust_name.clone(),
        };
        let cpp_name_incompatible_with_cxx = !is_ident_ok_for_rust(effective_cpp_name.as_str());
        let wrapper_function_needed = wrapper_function_needed(
            &kind,
            names_differ,
            param_conversion_needed,
            ret_type_conversion_needed,
            cpp_name_incompatible_with_cxx,
        );
        let ReturnTypeAnalysis { rt, conversion: ret_type_conversion, .. } = return_analysis;
        let (cxxbridge_name, ret_type, params, cpp_wrapper) = if wrapper_function_needed {
            let wrapper_function_name = wrapper_name_of(cxxbridge_name.as_str());
            let (payload, has_receiver) = shim_payload_of(&kind, &ns, effective_cpp_name.as_str());
            let ret_type = match &ret_type_conversion {
                Some(conversion) => Some(conversion.unconverted_rust_type()),
                None => rt,
            };
            let params = shim_params(&kind, &param_details);
            let cpp_wrapper = CppFunction {
                payload,
                wrapper_function_name: wrapper_function_name.clone(),
                return_conversion: ret_type_conversion,
                argument_conversion: argument_conversions(&param_details),
                is_a_method: has_receiver,
            };
            (wrapper_function_name, ret_type, params, Some(cpp_wrapper))
        } else {
            (cxxbridge_name, rt, params, None)
        };
        match validate_ident_ok_for_cxx(cxxbridge_name.as_str()) {
            Ok(_) => {},
            Err(e) => {
                return Err(ConvertErrorWithContext(e, Some(context)));
            },
        }
        let rust_name_ok = match &kind {
            FnKind::Method(_, _) => false,
            FnKind::Function => self.ok_to_use_rust_name(rust_name.as_str()),
        };
        let (id, rust_rename_strategy) = choose_final_naming(
            &kind,
            cxxbridge_name.as_str(),
            rust_name.as_str(),
            rust_name_ok,
        );
        let vis = func_information.vis;
        Ok(
            Some(
                Api::Function {
                    fun: func_information,
                    analysis: FnAnalysisBody {
                        cxxbridge_name,
                        rust_name,
                        rust_rename_strategy,
                        params,
                        kind,
                        ret_type,
                        param_details,
                        requires_unsafe,
                        vis,
                        cpp_wrapper,
                        deps,
                    },
                    name: ApiName { cpp_name, name: QualifiedName::new(&ns, id) },
                },
            ),
        )
    }
}

/// Turns a failed declaration of namespace `ns` into the item that records
/// the failure. A failure without a context leaves no item.
pub fn ignored_item_of(ns: &Namespace, e: ConvertErrorWithContext) -> (r: Option<
    Api<FnAnalysisBody>,
>)
    ensures
        r.deep_view() == ignored_item(ns@, e@),
{
    let ConvertErrorWithContext(err, ctx) = e;
    match ctx {
        Some(ctx) => {
            let id = match &ctx {
                ErrorContext::Item(id) => id.clone(),
                ErrorContext::Method { method, .. } => method.clone(),
            };
            Some(Api::IgnoredItem { name: QualifiedName::new(ns, id), err, ctx })
        },
        None => None,
    }
}

/// An item that is no function, as it stands after the analysis: unchanged.
/// A function has no such form.
pub fn carry_over(api: Api<NullAnalysis>) -> (r: Option<Api<FnAnalysisBody>>)
    ensures
        r.deep_view() == carried_over(api.deep_view()),
{
    match api {
        Api::ForwardDeclaration { name } => Some(Api::ForwardDeclaration { name }),
        Api::ConcreteType { name, rs_definition, cpp_definition } => Some(
            Api::ConcreteType { name, rs_definition, cpp_definition },
        ),
        Api::StringConstructor { name } => Some(Api::StringConstructor { name }),
        Api::Function { .. } => None,
        Api::Const { name } => Some(Api::Const { name }),
        Api::Typedef { name, old_tyname, deps } => Some(Api::Typedef { name, old_tyname, deps }),
        Api::Enum { name } => Some(Api::Enum { name }),
        Api::Struct { name, kind, field_deps } => Some(Api::Struct { name, kind, field_deps }),
        Api::CType { name, typename } => Some(Api::CType { name, typename }),
        Api::IgnoredItem { name, err, ctx } => Some(Api::IgnoredItem { name, err, ctx }),
    }
}

impl<'a> FnAnalyzer<'a> {
    /// Takes one item of the run: a function is analysed and what that
    /// gives is added to `results`; any other item is added as it is.
    pub fn analyze_api(&mut self, api: Api<NullAnalysis>, results: &mut Vec<Api<FnAnalysisBody>>)
        ensures
            (BatchView { state: final(self)@, results: final(results).deep_view() }) == step(
                BatchView { state: old(self)@, results: old(results).deep_view() },
                api.deep_view(),
            ),
    {
        let ghost before = results.deep_view();
        match api {
            Api::Function { name, fun, .. } => {
                let ns = name.name.get_namespace().clone();
                let produced = match self.analyze_foreign_fn(name, fun) {
                    Ok(produced) => produced,
                    Err(e) => ignored_item_of(&ns, e),
                };
                match produced {
                    Some(api) => {
                        results.push(api);
                        assert(results.deep_view() =~= before.push(api.deep_view()));
                    },
                    None => {},
                }
            },
            other => {
                match carry_over(other) {
                    Some(api) => {
                        results.push(api);
                        assert(results.deep_view() =~= before.push(api.deep_view()));
                    },
                    None => {},
                }
            },
        }
    }

    /// The forward declarations of the types that were discovered, in the
    /// order of their discovery.
    pub fn extra_apis(&self) -> (r: Vec<Api<FnAnalysisBody>>)
        ensures
            r.deep_view() == forward_declarations(self@.extra_apis),
    {
        let mut r: Vec<Api<FnAnalysisBody>> = Vec::new();
        let mut i: usize = 0;
        while i < self.extra_apis.len()
            invariant
                i <= self.extra_apis.len(),
                r.len() == i,
                forall|k: int|
                    0 <= k < i ==> (#[trigger] r[k]).deep_view() == (ApiView::<
                        FnAnalysisView,
                    >::ForwardDeclaration { name: self.extra_apis[k]@ }),
            decreases self.extra_apis.len() - i,
        {
            r.push(Api::ForwardDeclaration { name: self.extra_apis[i].clone() });
            i += 1;
        }
        assert(r.deep_view() =~= forward_declarations(self@.extra_apis));
        r
    }

    /// Analyses every function among `apis`, in order, with fresh
    /// registries. The result holds the items of `apis` in their order,
    /// each function analysed (or left out where it was dropped, or replaced
    /// by an ignored item where it failed) and every other item unchanged,
    /// and after them a forward declaration of every type that was
    /// discovered on the way.
    pub fn analyze_functions(
        apis: Vec<Api<NullAnalysis>>,
        unsafe_policy: UnsafePolicy,
        config: &'a IncludeCppConfig,
        known: &'a KnownTypes,
    ) -> (results: Vec<Api<FnAnalysisBody>>)
        ensures
            results.deep_view() == run(
                initial_state(apis.deep_view(), unsafe_policy, config@, known@),
                apis.deep_view(),
            ),
    {
        let mut me = Self::new(&apis, unsafe_policy, config, known);
        let ghost all = apis.deep_view();
        let ghost s0 = me@;
        let mut results: Vec<Api<FnAnalysisBody>> = Vec::new();
        let mut pending: Vec<Api<NullAnalysis>> = Vec::new();
        let mut rest = apis;
        while rest.len() > 0
            invariant
                all == rest.deep_view() + pending.deep_view().reverse(),
            decreases rest.len(),
        {
            let ghost rest_before = rest.deep_view();
            let ghost pending_before = pending.deep_view();
            match rest.pop() {
                Some(api) => {
                    pending.push(api);
                    assert(rest.deep_view() =~= rest_before.drop_last());
                    assert(pending.deep_view() =~= pending_before.push(api.deep_view()));
                    assert(rest.deep_view() + pending.deep_view().reverse() =~= rest_before
                        + pending_before.reverse());
                },
                None => {},
            }
        }
        assert(all =~= pending.deep_view().reverse());
        assert(all.take(0) =~= Seq::<ApiView<()>>::empty());
        assert(results.deep_view() =~= Seq::<ApiView<FnAnalysisView>>::empty());
        let ghost mut done: int = 0;
        while pending.len() > 0
            invariant
                0 <= done <= all.len(),
                pending.len() == all.len() - done,
                all.skip(done) == pending.deep_view().reverse(),
                (BatchView { state: me@, results: results.deep_view() }) == batch(
                    s0,
                    all.take(done),
                ),
            decreases pending.len(),
        {
            let ghost pending_before = pending.deep_view();
            match pending.pop() {
                Some(api) => {
                    proof {
                        assert(pending.deep_view() =~= pending_before.drop_last());
                        assert(api.deep_view() == pending_before.last());
                        assert(pending_before.reverse()[0] == pending_before.last());
                        assert(all.skip(done)[0] == all[done]);
                        assert(all.skip(done + 1) =~= pending.deep_view().reverse()) by {
                            assert(all.skip(done + 1) =~= all.skip(done).drop_first());
                            assert(pending_before.reverse().drop_first()
                                =~= pending_before.drop_last().reverse());
                        }
                        assert(all.take(done + 1).drop_last() =~= all.take(done));
                        assert(all.take(done + 1).last() == all[done]);
                    }
                    me.analyze_api(api, &mut results);
                    proof {
                        done = done + 1;
                    }
                },
                None => {},
            }
        }
        assert(all.take(done) =~= all);
        let mut extra = me.extra_apis();
        let ghost head = results.deep_view();
        let ghost tail = extra.deep_view();
        results.append(&mut extra);
        assert(results.deep_view() =~= head + tail);
        results
    }
}

} // verus!
