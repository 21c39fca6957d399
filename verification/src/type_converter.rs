//! The conversion of a native type into the type that the bridge declares,
//! and the discovery of types that no item of the run describes.

use crate::api::{Api, ApiView, NullAnalysis};
use crate::config::{KnownTypes, KnownTypesView};
use crate::names::{contains_name, with_name, QName, QualifiedName};
use crate::types::{NativeType, TypeView};
use vstd::prelude::*;

verus! {

impl TypeView {
    /// Whether a raw pointer occurs anywhere in the type.
    pub open spec fn has_raw_pointer(self) -> bool
        decreases self,
    {
        match self {
            TypeView::Path(_) => false,
            TypeView::Ptr { .. } => true,
            TypeView::Reference { elem, .. } => elem.has_raw_pointer(),
            TypeView::UniquePtr(elem) => elem.has_raw_pointer(),
        }
    }

    /// The type that the bridge declares for a value of this type: a pointer
    /// at the top becomes a reference where the caller asks for that.
    pub open spec fn converted(self, convert_ptrs_to_references: bool) -> TypeView {
        match self {
            TypeView::Ptr { mutable, elem } => if convert_ptrs_to_references {
                TypeView::Reference { mutable, elem }
            } else {
                self
            },
            _ => self,
        }
    }
}

impl NativeType {
    /// Whether a raw pointer occurs anywhere in the type.
    pub fn has_raw_pointer(&self) -> (r: bool)
        ensures
            r == self@.has_raw_pointer(),
        decreases self,
    {
        match self {
            NativeType::Path(_) => false,
            NativeType::Ptr { .. } => true,
            NativeType::Reference { elem, .. } => elem.has_raw_pointer(),
            NativeType::UniquePtr(elem) => elem.has_raw_pointer(),
        }
    }
}

/// The names of the items in `apis`, in order.
pub open spec fn api_names<A>(apis: Seq<ApiView<A>>) -> Seq<QName> {
    Seq::new(apis.len(), |i: int| apis[i].name())
}

/// The types that are known when a run starts: those that the items of the
/// run describe, and the built-in ones.
pub open spec fn initially_known<A>(apis: Seq<ApiView<A>>, known: KnownTypesView) -> Seq<QName> {
    api_names(apis) + known.pod_safe + known.string_like
}

/// The types to declare in addition after `ty` was met: `ty` if it was not
/// known, else none.
pub open spec fn discovered(known: Seq<QName>, ty: QName) -> Seq<QName> {
    if known.contains(ty) {
        Seq::empty()
    } else {
        seq![ty]
    }
}

/// A converted type with what the conversion found out on the way.
#[derive(Debug)]
pub struct Annotated {
    pub ty: NativeType,
    /// The named types that the type mentions.
    pub types_encountered: Vec<QualifiedName>,
    /// The types that the run did not know and that the type needs; each
    /// is to be declared in addition.
    pub extra_apis: Vec<QualifiedName>,
    /// Whether a function with a parameter of this type has to be unsafe.
    pub requires_unsafe: bool,
}

/// The types that the run knows, oldest first.
pub struct TypeConverter {
    known: Vec<QualifiedName>,
}

impl View for TypeConverter {
    type V = Seq<QName>;

    closed spec fn view(&self) -> Seq<QName> {
        self.known.deep_view()
    }
}

impl TypeConverter {
    /// A converter that knows the types that `apis` describe and the built-in ones.
    pub fn new(apis: &Vec<Api<NullAnalysis>>, known: &KnownTypes) -> (r: TypeConverter)
        ensures
            r@ == initially_known(apis.deep_view(), known@),
    {
        let mut names: Vec<QualifiedName> = Vec::new();
        let mut i: usize = 0;
        while i < apis.len()
            invariant
                i <= apis.len(),
                names.deep_view() == api_names(apis.deep_view()).take(i as int),
            decreases apis.len() - i,
        {
            let ghost before = names.deep_view();
            names.push(apis[i].name().clone());
            assert(names.deep_view() =~= before.push(apis[i as int].deep_view().name()));
            assert(names.deep_view() =~= api_names(apis.deep_view()).take(i + 1));
            i += 1;
        }
        assert(api_names(apis.deep_view()).take(apis.len() as int) =~= api_names(
            apis.deep_view(),
        ));
        let ghost head = names.deep_view();
        let mut j: usize = 0;
        while j < known.pod_safe.len()
            invariant
                j <= known.pod_safe.len(),
                names.deep_view() == head + known@.pod_safe.take(j as int),
            decreases known.pod_safe.len() - j,
        {
            let ghost before = names.deep_view();
            names.push(known.pod_safe[j].clone());
            assert(names.deep_view() =~= before.push(known.pod_safe[j as int]@));
            assert(names.deep_view() =~= head + known@.pod_safe.take(j + 1));
            j += 1;
        }
        assert(known@.pod_safe.take(known.pod_safe.len() as int) =~= known@.pod_safe);
        let ghost middle = names.deep_view();
        let mut k: usize = 0;
        while k < known.string_like.len()
            invariant
                k <= known.string_like.len(),
                names.deep_view() == middle + known@.string_like.take(k as int),
            decreases known.string_like.len() - k,
        {
            let ghost before = names.deep_view();
            names.push(known.string_like[k].clone());
            assert(names.deep_view() =~= before.push(known.string_like[k as int]@));
            assert(names.deep_view() =~= middle + known@.string_like.take(k + 1));
            k += 1;
        }
        assert(known@.string_like.take(known.string_like.len() as int) =~= known@.string_like);
        TypeConverter { known: names }
    }

    /// Converts `ty` into the type that the bridge declares. A pointer at the
    /// top becomes a reference if `convert_ptrs_to_references` says so. The
    /// named type that `ty` leads to is reported as met, and, where the run
    /// did not know it, it is handed out once as a type to declare in addition.
    pub fn convert_boxed_type(&mut self, ty: NativeType, convert_ptrs_to_references: bool) -> (r:
        Annotated)
        ensures
            r.ty@ == ty@.converted(convert_ptrs_to_references),
            r.types_encountered.deep_view() == seq![ty@.leaf()],
            r.extra_apis.deep_view() == discovered(old(self)@, ty@.leaf()),
            r.requires_unsafe == ty@.converted(convert_ptrs_to_references).has_raw_pointer(),
            final(self)@ == with_name(old(self)@, ty@.leaf()),
    {
        let leaf = ty.leaf();
        let mut extra_apis: Vec<QualifiedName> = Vec::new();
        if !contains_name(&self.known, &leaf) {
            self.known.push(leaf.clone());
            assert(self.known.deep_view() =~= old(self).known.deep_view().push(leaf@));
            extra_apis.push(leaf.clone());
        }
        assert(extra_apis.deep_view() =~= discovered(old(self)@, ty@.leaf()));
        let mut types_encountered: Vec<QualifiedName> = Vec::new();
        types_encountered.push(leaf);
        assert(types_encountered.deep_view() =~= seq![ty@.leaf()]);
        let new_ty = match ty {
            NativeType::Ptr { mutable, elem } => if convert_ptrs_to_references {
                NativeType::Reference { mutable, elem }
            } else {
                NativeType::Ptr { mutable, elem }
            },
            other => other,
        };
        let requires_unsafe = new_ty.has_raw_pointer();
        Annotated { ty: new_ty, types_encountered, extra_apis, requires_unsafe }
    }
}

} // verus!
