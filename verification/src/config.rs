//! What a run is configured with, and what it knows about types beforehand.

use crate::names::{contains_name, contains_text, QName, QualifiedName};
use vstd::prelude::*;

verus! {

/// Whether every generated function is marked unsafe, or only those whose
/// arguments ask for it.
#[derive(Clone, Copy, Debug, PartialEq, Eq, Structural)]
pub enum UnsafePolicy {
    AllFunctionsUnsafe,
    AllFunctionsSafe,
}

/// The user's configuration of a run.
#[derive(Debug)]
pub struct IncludeCppConfig {
    /// The native names of the types and functions that bindings were asked for.
    pub allowlist: Vec<String>,
    /// Whether the string helpers are left out.
    pub exclude_utilities: bool,
}

/// The model of an [`IncludeCppConfig`].
pub struct ConfigView {
    pub allowlist: Seq<Seq<char>>,
    pub exclude_utilities: bool,
}

impl View for IncludeCppConfig {
    type V = ConfigView;

    open spec fn view(&self) -> ConfigView {
        ConfigView {
            allowlist: self.allowlist.deep_view(),
            exclude_utilities: self.exclude_utilities,
        }
    }
}

impl IncludeCppConfig {
    /// Whether bindings were asked for the item with this native name.
    pub fn is_on_allowlist(&self, cpp_name: &str) -> (r: bool)
        ensures
            r == self@.allowlist.contains(cpp_name@),
    {
        contains_text(&self.allowlist, cpp_name)
    }

    /// Whether the string helpers are left out.
    pub fn exclude_utilities(&self) -> (r: bool)
        ensures
            r == self@.exclude_utilities,
    {
        self.exclude_utilities
    }
}

/// What is known about types before any declaration is looked at.
#[derive(Debug)]
pub struct KnownTypes {
    /// Built-in types that are safe to pass by value.
    pub pod_safe: Vec<QualifiedName>,
    /// String-like types, which can be built from a borrowed string.
    pub string_like: Vec<QualifiedName>,
    /// Types that cannot be the receiver of a method across the boundary.
    pub unacceptable_receivers: Vec<QualifiedName>,
}

/// The model of [`KnownTypes`].
pub struct KnownTypesView {
    pub pod_safe: Seq<QName>,
    pub string_like: Seq<QName>,
    pub unacceptable_receivers: Seq<QName>,
}

impl View for KnownTypes {
    type V = KnownTypesView;

    open spec fn view(&self) -> KnownTypesView {
        KnownTypesView {
            pod_safe: self.pod_safe.deep_view(),
            string_like: self.string_like.deep_view(),
            unacceptable_receivers: self.unacceptable_receivers.deep_view(),
        }
    }
}

impl KnownTypes {
    /// Whether a value of this type can be built from a borrowed string.
    pub fn convertible_from_strs(&self, ty: &QualifiedName) -> (r: bool)
        ensures
            r == self@.string_like.contains(ty@),
    {
        contains_name(&self.string_like, ty)
    }

    /// Whether this type can be the receiver of a method across the boundary.
    pub fn is_cxx_acceptable_receiver(&self, ty: &QualifiedName) -> (r: bool)
        ensures
            r == !self@.unacceptable_receivers.contains(ty@),
    {
        !contains_name(&self.unacceptable_receivers, ty)
    }
}

} // verus!
