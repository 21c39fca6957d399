//! The items of a run: declarations as the front end hands them over, and
//! what the analysis adds to each function.

use crate::errors::{ConvertError, ConvertErrorView, ErrorContext, ErrorContextView};
use crate::names::{clone_names, clone_opt_name, Namespace, QName, QualifiedName};
use crate::types::{NativeType, PolicyView, TypeConversionPolicy, TypeView};
use vstd::prelude::*;

verus! {

/// Who may see an item.
#[derive(Clone, Copy, Debug, PartialEq, Eq, Structural)]
pub enum Visibility {
    Public,
    Crate,
    Restricted,
    Inherited,
}

/// Whether a struct can be passed by value.
#[derive(Clone, Copy, Debug, PartialEq, Eq, Structural)]
pub enum TypeKind {
    Pod,
    NonPod,
    Abstract,
}

/// A note that the front end attached to a declaration: its name, and the
/// text between its parentheses (empty where there are none).
#[derive(Debug)]
pub struct Annotation {
    pub name: String,
    pub args: String,
}

/// The model of an [`Annotation`].
pub struct AnnotationView {
    pub name: Seq<char>,
    pub args: Seq<char>,
}

impl View for Annotation {
    type V = AnnotationView;

    open spec fn view(&self) -> AnnotationView {
        AnnotationView { name: self.name@, args: self.args@ }
    }
}

impl DeepView for Annotation {
    type V = AnnotationView;

    open spec fn deep_view(&self) -> AnnotationView {
        self@
    }
}

/// The pattern of a parameter: a plain name, or any other pattern, which
/// is kept as the text it was written as.
#[derive(Debug)]
pub enum Pat {
    Ident(String),
    Other(String),
}

/// The model of a [`Pat`].
pub enum PatView {
    Ident(Seq<char>),
    Other(Seq<char>),
}

impl PatView {
    /// The text of the pattern.
    pub open spec fn text(self) -> Seq<char> {
        match self {
            PatView::Ident(name) => name,
            PatView::Other(text) => text,
        }
    }
}

impl View for Pat {
    type V = PatView;

    open spec fn view(&self) -> PatView {
        match self {
            Pat::Ident(name) => PatView::Ident(name@),
            Pat::Other(text) => PatView::Other(text@),
        }
    }
}

impl DeepView for Pat {
    type V = PatView;

    open spec fn deep_view(&self) -> PatView {
        self@
    }
}

impl Pat {
    /// The text of the pattern.
    pub fn text(&self) -> (r: &str)
        ensures
            r@ == self@.text(),
    {
        match self {
            Pat::Ident(name) => name.as_str(),
            Pat::Other(text) => text.as_str(),
        }
    }
}

impl Clone for Pat {
    fn clone(&self) -> (r: Pat)
        ensures
            r@ == self@,
    {
        match self {
            Pat::Ident(name) => Pat::Ident(name.clone()),
            Pat::Other(text) => Pat::Other(text.clone()),
        }
    }
}

/// One parameter: its pattern and its type.
#[derive(Debug)]
pub struct FnArg {
    pub pat: Pat,
    pub ty: NativeType,
}

/// The model of a [`FnArg`].
pub struct FnArgView {
    pub pat: PatView,
    pub ty: TypeView,
}

impl View for FnArg {
    type V = FnArgView;

    open spec fn view(&self) -> FnArgView {
        FnArgView { pat: self.pat@, ty: self.ty@ }
    }
}

impl DeepView for FnArg {
    type V = FnArgView;

    open spec fn deep_view(&self) -> FnArgView {
        self@
    }
}

impl Clone for FnArg {
    fn clone(&self) -> (r: FnArg)
        ensures
            r@ == self@,
    {
        FnArg { pat: self.pat.clone(), ty: self.ty.clone() }
    }
}

/// A native function or method as the front end declares it.
#[derive(Debug)]
pub struct FuncToConvert {
    /// The name that the front end gave the declaration.
    pub ident: String,
    pub attrs: Vec<Annotation>,
    pub vis: Visibility,
    pub inputs: Vec<FnArg>,
    /// The return type; `None` where nothing is returned.
    pub output: Option<NativeType>,
    /// For a virtual method, the type to put in place of the receiver's placeholder.
    pub virtual_this_type: Option<QualifiedName>,
    /// The owning type, where the front end knows it.
    pub self_ty: Option<QualifiedName>,
}

/// The model of a [`FuncToConvert`].
pub struct FuncView {
    pub ident: Seq<char>,
    pub attrs: Seq<AnnotationView>,
    pub vis: Visibility,
    pub inputs: Seq<FnArgView>,
    pub output: Option<TypeView>,
    pub virtual_this_type: Option<QName>,
    pub self_ty: Option<QName>,
}

impl View for FuncToConvert {
    type V = FuncView;

    open spec fn view(&self) -> FuncView {
        FuncView {
            ident: self.ident@,
            attrs: self.attrs.deep_view(),
            vis: self.vis,
            inputs: self.inputs.deep_view(),
            output: self.output.deep_view(),
            virtual_this_type: self.virtual_this_type.deep_view(),
            self_ty: self.self_ty.deep_view(),
        }
    }
}

impl DeepView for FuncToConvert {
    type V = FuncView;

    open spec fn deep_view(&self) -> FuncView {
        self@
    }
}

/// The names of a function: the one native code calls it by, where that
/// differs from the other, and its qualified name on the managed side.
#[derive(Debug)]
pub struct ApiName {
    pub cpp_name: Option<String>,
    pub name: QualifiedName,
}

/// The model of an [`ApiName`].
pub struct ApiNameView {
    pub cpp_name: Option<Seq<char>>,
    pub name: QName,
}

impl View for ApiName {
    type V = ApiNameView;

    open spec fn view(&self) -> ApiNameView {
        ApiNameView { cpp_name: self.cpp_name.deep_view(), name: self.name@ }
    }
}

impl DeepView for ApiName {
    type V = ApiNameView;

    open spec fn deep_view(&self) -> ApiNameView {
        self@
    }
}

/// The kinds of method.
#[derive(Clone, Copy, Debug, PartialEq, Eq, Structural)]
pub enum MethodKind {
    Normal,
    Constructor,
    Static,
    Virtual,
    PureVirtual,
}

/// What a declaration is: a free function, or a method of some type.
#[derive(Debug)]
pub enum FnKind {
    Function,
    Method(QualifiedName, MethodKind),
}

/// The model of a [`FnKind`].
pub enum FnKindView {
    Function,
    Method(QName, MethodKind),
}

impl View for FnKind {
    type V = FnKindView;

    open spec fn view(&self) -> FnKindView {
        match self {
            FnKind::Function => FnKindView::Function,
            FnKind::Method(ty, kind) => FnKindView::Method(ty@, *kind),
        }
    }
}

/// How the managed name that callers expect is brought about.
#[derive(Debug)]
pub enum RustRenameStrategy {
    /// The bridge name is the managed name already.
    NoRenameNeeded,
    /// The bridge entry carries the managed name as an attribute.
    RenameViaAttribute,
    /// The bridge entry is exported under its own name, and an alias in the
    /// output module gives it the managed name that is carried here.
    RenameViaAliasExport(String),
}

/// The model of a [`RustRenameStrategy`].
pub enum RenameView {
    NoRenameNeeded,
    RenameViaAttribute,
    RenameViaAliasExport(Seq<char>),
}

impl View for RustRenameStrategy {
    type V = RenameView;

    open spec fn view(&self) -> RenameView {
        match self {
            RustRenameStrategy::NoRenameNeeded => RenameView::NoRenameNeeded,
            RustRenameStrategy::RenameViaAttribute => RenameView::RenameViaAttribute,
            RustRenameStrategy::RenameViaAliasExport(n) => RenameView::RenameViaAliasExport(n@),
        }
    }
}

/// What the analysis found out about one parameter.
#[derive(Debug)]
pub struct ArgumentAnalysis {
    pub conversion: TypeConversionPolicy,
    pub name: Pat,
    /// The owning type, where this parameter is the receiver.
    pub self_type: Option<QualifiedName>,
    pub was_reference: bool,
    pub deps: Vec<QualifiedName>,
    pub is_virtual: bool,
    pub requires_unsafe: bool,
}

/// The model of an [`ArgumentAnalysis`].
pub struct ArgumentView {
    pub conversion: PolicyView,
    pub name: PatView,
    pub self_type: Option<QName>,
    pub was_reference: bool,
    pub deps: Seq<QName>,
    pub is_virtual: bool,
    pub requires_unsafe: bool,
}

impl View for ArgumentAnalysis {
    type V = ArgumentView;

    open spec fn view(&self) -> ArgumentView {
        ArgumentView {
            conversion: self.conversion@,
            name: self.name@,
            self_type: self.self_type.deep_view(),
            was_reference: self.was_reference,
            deps: self.deps.deep_view(),
            is_virtual: self.is_virtual,
            requires_unsafe: self.requires_unsafe,
        }
    }
}

impl DeepView for ArgumentAnalysis {
    type V = ArgumentView;

    open spec fn deep_view(&self) -> ArgumentView {
        self@
    }
}

impl Clone for ArgumentAnalysis {
    fn clone(&self) -> (r: ArgumentAnalysis)
        ensures
            r@ == self@,
    {
        ArgumentAnalysis {
            conversion: self.conversion.clone(),
            name: self.name.clone(),
            self_type: clone_opt_name(&self.self_type),
            was_reference: self.was_reference,
            deps: clone_names(&self.deps),
            is_virtual: self.is_virtual,
            requires_unsafe: self.requires_unsafe,
        }
    }
}

/// What the analysis found out about the return type.
#[derive(Debug)]
pub struct ReturnTypeAnalysis {
    pub rt: Option<NativeType>,
    pub conversion: Option<TypeConversionPolicy>,
    pub was_reference: bool,
    pub deps: Vec<QualifiedName>,
}

/// The model of a [`ReturnTypeAnalysis`].
pub struct ReturnView {
    pub rt: Option<TypeView>,
    pub conversion: Option<PolicyView>,
    pub was_reference: bool,
    pub deps: Seq<QName>,
}

impl View for ReturnTypeAnalysis {
    type V = ReturnView;

    open spec fn view(&self) -> ReturnView {
        ReturnView {
            rt: self.rt.deep_view(),
            conversion: self.conversion.deep_view(),
            was_reference: self.was_reference,
            deps: self.deps.deep_view(),
        }
    }
}

/// What the body of a shim does.
#[derive(Debug)]
pub enum CppFunctionBody {
    /// It constructs a value of the owning type.
    Constructor,
    /// It calls the function of the given name in the given namespace.
    FunctionCall(Namespace, String),
    /// It calls the static method of the given name on the given type of the
    /// given namespace.
    StaticMethodCall(Namespace, String, String),
}

/// The model of a [`CppFunctionBody`].
pub enum CppFunctionBodyView {
    Constructor,
    FunctionCall(Seq<Seq<char>>, Seq<char>),
    StaticMethodCall(Seq<Seq<char>>, Seq<char>, Seq<char>),
}

impl View for CppFunctionBody {
    type V = CppFunctionBodyView;

    open spec fn view(&self) -> CppFunctionBodyView {
        match self {
            CppFunctionBody::Constructor => CppFunctionBodyView::Constructor,
            CppFunctionBody::FunctionCall(ns, f) => CppFunctionBodyView::FunctionCall(ns@, f@),
            CppFunctionBody::StaticMethodCall(ns, ty, f) => CppFunctionBodyView::StaticMethodCall(
                ns@,
                ty@,
                f@,
            ),
        }
    }
}

/// The description of a shim: a wrapper on the native side, with a matching
/// entry in the bridge.
#[derive(Debug)]
pub struct CppFunction {
    pub payload: CppFunctionBody,
    pub wrapper_function_name: String,
    pub return_conversion: Option<TypeConversionPolicy>,
    pub argument_conversion: Vec<TypeConversionPolicy>,
    pub is_a_method: bool,
}

/// The model of a [`CppFunction`].
pub struct CppFunctionView {
    pub payload: CppFunctionBodyView,
    pub wrapper_function_name: Seq<char>,
    pub return_conversion: Option<PolicyView>,
    pub argument_conversion: Seq<PolicyView>,
    pub is_a_method: bool,
}

impl View for CppFunction {
    type V = CppFunctionView;

    open spec fn view(&self) -> CppFunctionView {
        CppFunctionView {
            payload: self.payload@,
            wrapper_function_name: self.wrapper_function_name@,
            return_conversion: self.return_conversion.deep_view(),
            argument_conversion: self.argument_conversion.deep_view(),
            is_a_method: self.is_a_method,
        }
    }
}

impl DeepView for CppFunction {
    type V = CppFunctionView;

    open spec fn deep_view(&self) -> CppFunctionView {
        self@
    }
}

/// Everything the analysis decides about one function.
#[derive(Debug)]
pub struct FnAnalysisBody {
    pub cxxbridge_name: String,
    pub rust_name: String,
    pub rust_rename_strategy: RustRenameStrategy,
    pub params: Vec<FnArg>,
    pub kind: FnKind,
    pub ret_type: Option<NativeType>,
    pub param_details: Vec<ArgumentAnalysis>,
    pub requires_unsafe: bool,
    pub vis: Visibility,
    pub cpp_wrapper: Option<CppFunction>,
    pub deps: Vec<QualifiedName>,
}

/// The model of a [`FnAnalysisBody`].
pub struct FnAnalysisView {
    pub cxxbridge_name: Seq<char>,
    pub rust_name: Seq<char>,
    pub rust_rename_strategy: RenameView,
    pub params: Seq<FnArgView>,
    pub kind: FnKindView,
    pub ret_type: Option<TypeView>,
    pub param_details: Seq<ArgumentView>,
    pub requires_unsafe: bool,
    pub vis: Visibility,
    pub cpp_wrapper: Option<CppFunctionView>,
    pub deps: Seq<QName>,
}

impl View for FnAnalysisBody {
    type V = FnAnalysisView;

    open spec fn view(&self) -> FnAnalysisView {
        FnAnalysisView {
            cxxbridge_name: self.cxxbridge_name@,
            rust_name: self.rust_name@,
            rust_rename_strategy: self.rust_rename_strategy@,
            params: self.params.deep_view(),
            kind: self.kind@,
            ret_type: self.ret_type.deep_view(),
            param_details: self.param_details.deep_view(),
            requires_unsafe: self.requires_unsafe,
            vis: self.vis,
            cpp_wrapper: self.cpp_wrapper.deep_view(),
            deps: self.deps.deep_view(),
        }
    }
}

impl DeepView for FnAnalysisBody {
    type V = FnAnalysisView;

    open spec fn deep_view(&self) -> FnAnalysisView {
        self@
    }
}

/// The function analysis of an item that has not been analysed yet.
#[derive(Debug)]
pub struct NullAnalysis;

impl DeepView for NullAnalysis {
    type V = ();

    open spec fn deep_view(&self) -> () {
        ()
    }
}

/// One item of a run. `T` is what is known about a function at the current
/// stage: [`NullAnalysis`] before the analysis, [`FnAnalysisBody`] after it.
#[allow(inconsistent_fields)]
#[derive(Debug)]
pub enum Api<T> {
    /// A type that is declared and nowhere defined.
    ForwardDeclaration { name: QualifiedName },
    /// A made-up type that stands for one instantiation of a template.
    ConcreteType { name: QualifiedName, rs_definition: NativeType, cpp_definition: String },
    /// A note that a constructor for heap strings is wanted.
    StringConstructor { name: QualifiedName },
    /// A function or method.
    Function { name: ApiName, fun: FuncToConvert, analysis: T },
    /// A constant.
    Const { name: QualifiedName },
    /// A type alias.
    Typedef { name: QualifiedName, old_tyname: Option<QualifiedName>, deps: Vec<QualifiedName> },
    /// An enumeration.
    Enum { name: QualifiedName },
    /// A struct, with its kind and the types of its fields.
    Struct { name: QualifiedName, kind: TypeKind, field_deps: Vec<QualifiedName> },
    /// An integer type whose width depends on the platform.
    CType { name: QualifiedName, typename: QualifiedName },
    /// An item that was given up, with the reason.
    IgnoredItem { name: QualifiedName, err: ConvertError, ctx: ErrorContext },
}

/// The model of an [`Api`].
#[allow(inconsistent_fields)]
pub enum ApiView<A> {
    ForwardDeclaration { name: QName },
    ConcreteType { name: QName, rs_definition: TypeView, cpp_definition: Seq<char> },
    StringConstructor { name: QName },
    Function { name: ApiNameView, fun: FuncView, analysis: A },
    Const { name: QName },
    Typedef { name: QName, old_tyname: Option<QName>, deps: Seq<QName> },
    Enum { name: QName },
    Struct { name: QName, kind: TypeKind, field_deps: Seq<QName> },
    CType { name: QName, typename: QName },
    IgnoredItem { name: QName, err: ConvertErrorView, ctx: ErrorContextView },
}

impl<T: DeepView> DeepView for Api<T> {
    type V = ApiView<T::V>;

    open spec fn deep_view(&self) -> ApiView<T::V> {
        match self {
            Api::ForwardDeclaration { name } => ApiView::ForwardDeclaration { name: name@ },
            Api::ConcreteType { name, rs_definition, cpp_definition } => ApiView::ConcreteType {
                name: name@,
                rs_definition: rs_definition@,
                cpp_definition: cpp_definition@,
            },
            Api::StringConstructor { name } => ApiView::StringConstructor { name: name@ },
            Api::Function { name, fun, analysis } => ApiView::Function {
                name: name@,
                fun: fun@,
                analysis: analysis.deep_view(),
            },
            Api::Const { name } => ApiView::Const { name: name@ },
            Api::Typedef { name, old_tyname, deps } => ApiView::Typedef {
                name: name@,
                old_tyname: old_tyname.deep_view(),
                deps: deps.deep_view(),
            },
            Api::Enum { name } => ApiView::Enum { name: name@ },
            Api::Struct { name, kind, field_deps } => ApiView::Struct {
                name: name@,
                kind: *kind,
                field_deps: field_deps.deep_view(),
            },
            Api::CType { name, typename } => ApiView::CType { name: name@, typename: typename@ },
            Api::IgnoredItem { name, err, ctx } => ApiView::IgnoredItem {
                name: name@,
                err: err@,
                ctx: ctx@,
            },
        }
    }
}

impl<A> ApiView<A> {
    /// The qualified name of the item.
    pub open spec fn name(self) -> QName {
        match self {
            ApiView::ForwardDeclaration { name } => name,
            ApiView::ConcreteType { name, .. } => name,
            ApiView::StringConstructor { name } => name,
            ApiView::Function { name, .. } => name.name,
            ApiView::Const { name } => name,
            ApiView::Typedef { name, .. } => name,
            ApiView::Enum { name } => name,
            ApiView::Struct { name, .. } => name,
            ApiView::CType { name, .. } => name,
            ApiView::IgnoredItem { name, .. } => name,
        }
    }
}

impl ApiView<FnAnalysisView> {
    /// The name under which the allow-list is asked about the item.
    pub open spec fn typename_for_allowlist(self) -> QName {
        match self {
            ApiView::Function { name, analysis, .. } => match analysis.kind {
                FnKindView::Method(self_ty, _) => self_ty,
                FnKindView::Function => QName { ns: name.name.ns, name: analysis.rust_name },
            },
            _ => self.name(),
        }
    }

    /// Whether native code has to be generated for the item.
    pub open spec fn needs_cpp_codegen(self) -> bool {
        match self {
            ApiView::Function { analysis, .. } => analysis.cpp_wrapper is Some,
            ApiView::StringConstructor { .. } => true,
            ApiView::ConcreteType { .. } => true,
            ApiView::CType { .. } => true,
            _ => false,
        }
    }

    /// The name of the item in the bridge, if it has an entry there.
    pub open spec fn cxxbridge_name(self) -> Option<Seq<char>> {
        match self {
            ApiView::Function { analysis, .. } => Some(analysis.cxxbridge_name),
            ApiView::StringConstructor { .. } => None,
            ApiView::Const { .. } => None,
            ApiView::IgnoredItem { .. } => None,
            _ => Some(self.name().name),
        }
    }

    /// The items that this item depends on.
    pub open spec fn deps(self) -> Seq<QName> {
        match self {
            ApiView::Typedef { old_tyname, deps, .. } => match old_tyname {
                Some(old) => seq![old] + deps,
                None => deps,
            },
            ApiView::Struct { field_deps, .. } => field_deps,
            ApiView::Function { analysis, .. } => analysis.deps,
            _ => Seq::empty(),
        }
    }
}

impl<T: DeepView> Api<T> {
    /// The qualified name of the item.
    pub fn name(&self) -> (r: &QualifiedName)
        ensures
            r@ == self.deep_view().name(),
    {
        match self {
            Api::ForwardDeclaration { name } => name,
            Api::ConcreteType { name, .. } => name,
            Api::StringConstructor { name } => name,
            Api::Function { name, .. } => &name.name,
            Api::Const { name } => name,
            Api::Typedef { name, .. } => name,
            Api::Enum { name } => name,
            Api::Struct { name, .. } => name,
            Api::CType { name, .. } => name,
            Api::IgnoredItem { name, .. } => name,
        }
    }
}

impl Api<FnAnalysisBody> {
    /// The name under which the allow-list is asked about the item: the
    /// owning type of a method, the managed name of a free function in its
    /// namespace, and the item's own name otherwise.
    pub fn typename_for_allowlist(&self) -> (r: QualifiedName)
        ensures
            r@ == self.deep_view().typename_for_allowlist(),
    {
        match self {
            Api::Function { name, analysis, .. } => match &analysis.kind {
                FnKind::Method(self_ty, _) => self_ty.clone(),
                FnKind::Function => QualifiedName::new(
                    name.name.get_namespace(),
                    analysis.rust_name.clone(),
                ),
            },
            _ => self.name().clone(),
        }
    }

    /// Whether native code has to be generated for the item: for a function
    /// that has a shim, and for every string constructor, concrete type and
    /// platform integer type.
    pub fn needs_cpp_codegen(&self) -> (r: bool)
        ensures
            r == self.deep_view().needs_cpp_codegen(),
    {
        match self {
            Api::Function { analysis, .. } => analysis.cpp_wrapper.is_some(),
            Api::StringConstructor { .. } => true,
            Api::ConcreteType { .. } => true,
            Api::CType { .. } => true,
            _ => false,
        }
    }

    /// The name of the item in the bridge, if it has an entry there.
    pub fn cxxbridge_name(&self) -> (r: Option<String>)
        ensures
            r.deep_view() == self.deep_view().cxxbridge_name(),
    {
        match self {
            Api::Function { analysis, .. } => Some(analysis.cxxbridge_name.clone()),
            Api::StringConstructor { .. } => None,
            Api::Const { .. } => None,
            Api::IgnoredItem { .. } => None,
            _ => Some(String::from_str(self.name().get_final_item())),
        }
    }

    /// The items that this item depends on, each once for every time it is
    /// recorded: for a type alias the aliased type and then what the alias
    /// mentions, for a struct the types of its fields, for a function what
    /// its analysis collected.
    pub fn deps(&self) -> (r: Vec<QualifiedName>)
        ensures
            r.deep_view() == self.deep_view().deps(),
    {
        match self {
            Api::Typedef { old_tyname, deps, .. } => {
                let mut r: Vec<QualifiedName> = Vec::new();
                match old_tyname {
                    Some(old) => {
                        r.push(old.clone());
                    },
                    None => {},
                }
                let ghost head = r.deep_view();
                let mut i: usize = 0;
                while i < deps.len()
                    invariant
                        i <= deps.len(),
                        r.deep_view() == head + deps.deep_view().take(i as int),
                    decreases deps.len() - i,
                {
                    let ghost before = r.deep_view();
                    r.push(deps[i].clone());
                    assert(r.deep_view() =~= before.push(deps[i as int]@));
                    assert(deps.deep_view().take(i + 1) =~= deps.deep_view().take(i as int).push(
                        deps[i as int]@,
                    ));
                    assert(r.deep_view() =~= head + deps.deep_view().take(i + 1));
                    i += 1;
                }
                assert(deps.deep_view().take(deps.len() as int) =~= deps.deep_view());
                proof {
                    match old_tyname {
                        Some(old) => {
                            assert(head =~= seq![old@]);
                        },
                        None => {
                            assert(head =~= Seq::<QName>::empty());
                            assert(head + deps.deep_view() =~= deps.deep_view());
                        },
                    }
                }
                r
            },
            Api::Struct { field_deps, .. } => clone_names(field_deps),
            Api::Function { analysis, .. } => clone_names(&analysis.deps),
            _ => {
                let r: Vec<QualifiedName> = Vec::new();
                assert(r.deep_view() =~= Seq::<QName>::empty());
                r
            },
        }
    }
}

} // verus!
