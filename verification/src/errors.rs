//! Why a declaration could not be analysed, and where.

use crate::names::Namespace;
use vstd::prelude::*;

verus! {

/// The reasons for which the analysis gives up on one declaration.
#[derive(Debug)]
pub enum ConvertError {
    /// A parameter name, bridge name or managed name is outside the grammar
    /// of identifiers that its layer accepts. Carries the name.
    InvalidIdentifier(String),
    /// A receiver points to the placeholder of virtual dispatch, and no type
    /// was supplied to put in its place. Carries namespace and function.
    VirtualThisTypeMissing(Namespace, String),
    /// A parameter named as a receiver is not a pointer to a named type.
    /// Carries namespace and function.
    UnexpectedReceiverShape(Namespace, String),
    /// The declaration touches a template instantiation that was left unresolved.
    UnresolvedTemplateParameter,
    /// The declaration is a move constructor.
    MoveConstructorUnsupported,
    /// The owning type of a method cannot be a receiver across the boundary.
    UnsupportedReceiverType,
    /// A reference is returned and the number of reference parameters is not
    /// one. Carries the function.
    AmbiguousReferenceReturn(String),
}

/// The model of a [`ConvertError`].
pub enum ConvertErrorView {
    InvalidIdentifier(Seq<char>),
    VirtualThisTypeMissing(Seq<Seq<char>>, Seq<char>),
    UnexpectedReceiverShape(Seq<Seq<char>>, Seq<char>),
    UnresolvedTemplateParameter,
    MoveConstructorUnsupported,
    UnsupportedReceiverType,
    AmbiguousReferenceReturn(Seq<char>),
}

impl View for ConvertError {
    type V = ConvertErrorView;

    open spec fn view(&self) -> ConvertErrorView {
        match self {
            ConvertError::InvalidIdentifier(n) => ConvertErrorView::InvalidIdentifier(n@),
            ConvertError::VirtualThisTypeMissing(ns, f) => ConvertErrorView::VirtualThisTypeMissing(
                ns@,
                f@,
            ),
            ConvertError::UnexpectedReceiverShape(ns, f) => ConvertErrorView::UnexpectedReceiverShape(
                ns@,
                f@,
            ),
            ConvertError::UnresolvedTemplateParameter => ConvertErrorView::UnresolvedTemplateParameter,
            ConvertError::MoveConstructorUnsupported => ConvertErrorView::MoveConstructorUnsupported,
            ConvertError::UnsupportedReceiverType => ConvertErrorView::UnsupportedReceiverType,
            ConvertError::AmbiguousReferenceReturn(f) => ConvertErrorView::AmbiguousReferenceReturn(
                f@,
            ),
        }
    }
}

impl DeepView for ConvertError {
    type V = ConvertErrorView;

    open spec fn deep_view(&self) -> ConvertErrorView {
        self@
    }
}

impl Clone for ConvertError {
    fn clone(&self) -> (r: ConvertError)
        ensures
            r@ == self@,
    {
        match self {
            ConvertError::InvalidIdentifier(n) => ConvertError::InvalidIdentifier(n.clone()),
            ConvertError::VirtualThisTypeMissing(ns, f) => ConvertError::VirtualThisTypeMissing(
                ns.clone(),
                f.clone(),
            ),
            ConvertError::UnexpectedReceiverShape(ns, f) => ConvertError::UnexpectedReceiverShape(
                ns.clone(),
                f.clone(),
            ),
            ConvertError::UnresolvedTemplateParameter => ConvertError::UnresolvedTemplateParameter,
            ConvertError::MoveConstructorUnsupported => ConvertError::MoveConstructorUnsupported,
            ConvertError::UnsupportedReceiverType => ConvertError::UnsupportedReceiverType,
            ConvertError::AmbiguousReferenceReturn(f) => ConvertError::AmbiguousReferenceReturn(
                f.clone(),
            ),
        }
    }
}

/// The item in whose analysis an error arose.
#[derive(Debug)]
pub enum ErrorContext {
    /// A free function, by its managed name.
    Item(String),
    /// A method, by its owning type and its managed name.
    Method { self_ty: String, method: String },
}

/// The model of an [`ErrorContext`].
pub enum ErrorContextView {
    Item(Seq<char>),
    Method { self_ty: Seq<char>, method: Seq<char> },
}

impl View for ErrorContext {
    type V = ErrorContextView;

    open spec fn view(&self) -> ErrorContextView {
        match self {
            ErrorContext::Item(n) => ErrorContextView::Item(n@),
            ErrorContext::Method { self_ty, method } => ErrorContextView::Method {
                self_ty: self_ty@,
                method: method@,
            },
        }
    }
}

impl DeepView for ErrorContext {
    type V = ErrorContextView;

    open spec fn deep_view(&self) -> ErrorContextView {
        self@
    }
}

impl Clone for ErrorContext {
    fn clone(&self) -> (r: ErrorContext)
        ensures
            r@ == self@,
    {
        match self {
            ErrorContext::Item(n) => ErrorContext::Item(n.clone()),
            ErrorContext::Method { self_ty, method } => ErrorContext::Method {
                self_ty: self_ty.clone(),
                method: method.clone(),
            },
        }
    }
}

/// An error together with the item it belongs to, where that is known.
#[derive(Debug)]
pub struct ConvertErrorWithContext(pub ConvertError, pub Option<ErrorContext>);

/// The model of a [`ConvertErrorWithContext`].
pub struct ConvertErrorWithContextView {
    pub error: ConvertErrorView,
    pub context: Option<ErrorContextView>,
}

impl View for ConvertErrorWithContext {
    type V = ConvertErrorWithContextView;

    open spec fn view(&self) -> ConvertErrorWithContextView {
        ConvertErrorWithContextView { error: self.0@, context: self.1.deep_view() }
    }
}

impl DeepView for ConvertErrorWithContext {
    type V = ConvertErrorWithContextView;

    open spec fn deep_view(&self) -> ConvertErrorWithContextView {
        self@
    }
}

} // verus!
