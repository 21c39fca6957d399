//! Native types as the analysis sees them, and the policies that say how a
//! value of such a type crosses the boundary.

use crate::names::{QName, QualifiedName};
use vstd::prelude::*;

verus! {

/// The type of a parameter or of a return value.
#[derive(Debug)]
pub enum NativeType {
    /// A named type, held by value.
    Path(QualifiedName),
    /// A raw pointer.
    Ptr { mutable: bool, elem: Box<NativeType> },
    /// A reference.
    Reference { mutable: bool, elem: Box<NativeType> },
    /// An owning pointer to a value on the native heap.
    UniquePtr(Box<NativeType>),
}

/// The model of a [`NativeType`].
pub enum TypeView {
    Path(QName),
    Ptr { mutable: bool, elem: Box<TypeView> },
    Reference { mutable: bool, elem: Box<TypeView> },
    UniquePtr(Box<TypeView>),
}

/// The model of `t`.
pub open spec fn type_view(t: NativeType) -> TypeView
    decreases t,
{
    match t {
        NativeType::Path(q) => TypeView::Path(q@),
        NativeType::Ptr { mutable, elem } => TypeView::Ptr {
            mutable,
            elem: Box::new(type_view(*elem)),
        },
        NativeType::Reference { mutable, elem } => TypeView::Reference {
            mutable,
            elem: Box::new(type_view(*elem)),
        },
        NativeType::UniquePtr(elem) => TypeView::UniquePtr(Box::new(type_view(*elem))),
    }
}

impl View for NativeType {
    type V = TypeView;

    open spec fn view(&self) -> TypeView {
        type_view(*self)
    }
}

impl DeepView for NativeType {
    type V = TypeView;

    open spec fn deep_view(&self) -> TypeView {
        type_view(*self)
    }
}

impl TypeView {
    /// The named type that is reached by following every pointer and reference.
    pub open spec fn leaf(self) -> QName
        decreases self,
    {
        match self {
            TypeView::Path(q) => q,
            TypeView::Ptr { elem, .. } => elem.leaf(),
            TypeView::Reference { elem, .. } => elem.leaf(),
            TypeView::UniquePtr(elem) => elem.leaf(),
        }
    }

    /// An owning pointer to this type.
    pub open spec fn owned(self) -> TypeView {
        TypeView::UniquePtr(Box::new(self))
    }
}

impl NativeType {
    /// The named type that is reached by following every pointer and reference.
    pub fn leaf(&self) -> (r: QualifiedName)
        ensures
            r@ == self@.leaf(),
        decreases self,
    {
        match self {
            NativeType::Path(q) => q.clone(),
            NativeType::Ptr { elem, .. } => elem.leaf(),
            NativeType::Reference { elem, .. } => elem.leaf(),
            NativeType::UniquePtr(elem) => elem.leaf(),
        }
    }

    /// Whether this is a reference type.
    pub fn is_reference(&self) -> (r: bool)
        ensures
            r == (self@ is Reference),
    {
        match self {
            NativeType::Reference { .. } => true,
            _ => false,
        }
    }
}

impl Clone for NativeType {
    fn clone(&self) -> (r: NativeType)
        ensures
            r@ == self@,
        decreases self,
    {
        match self {
            NativeType::Path(q) => NativeType::Path(q.clone()),
            NativeType::Ptr { mutable, elem } => NativeType::Ptr {
                mutable: *mutable,
                elem: Box::new((**elem).clone()),
            },
            NativeType::Reference { mutable, elem } => NativeType::Reference {
                mutable: *mutable,
                elem: Box::new((**elem).clone()),
            },
            NativeType::UniquePtr(elem) => NativeType::UniquePtr(Box::new((**elem).clone())),
        }
    }
}

/// How a value is converted when it crosses the boundary.
#[derive(Clone, Copy, Debug, PartialEq, Eq, Structural)]
pub enum ConversionKind {
    /// The representation is the same on both sides.
    Unconverted,
    /// An owned string-like value is built from a borrowed string view.
    FromBorrowedString,
    /// A value that leaves by value is wrapped into an owning pointer.
    ToOwnedPointer,
    /// A value that arrives in an owning pointer is unwrapped.
    FromOwnedPointer,
}

/// The conversion of one argument or return value.
#[derive(Debug)]
pub struct TypeConversionPolicy {
    /// The type as native code has it.
    pub unwrapped_type: NativeType,
    pub conversion: ConversionKind,
}

/// The model of a [`TypeConversionPolicy`].
pub struct PolicyView {
    pub unwrapped_type: TypeView,
    pub conversion: ConversionKind,
}

impl PolicyView {
    /// Whether the native side has to do anything.
    pub open spec fn cpp_work_needed(self) -> bool {
        self.conversion != ConversionKind::Unconverted
    }

    /// The type on the managed side of a value that was handed out.
    pub open spec fn unconverted_rust_type(self) -> TypeView {
        if self.conversion == ConversionKind::ToOwnedPointer {
            self.unwrapped_type.owned()
        } else {
            self.unwrapped_type
        }
    }

    /// The type on the managed side of a value that is handed in.
    pub open spec fn converted_rust_type(self) -> TypeView {
        if self.conversion == ConversionKind::FromOwnedPointer || self.conversion
            == ConversionKind::FromBorrowedString {
            self.unwrapped_type.owned()
        } else {
            self.unwrapped_type
        }
    }
}

impl View for TypeConversionPolicy {
    type V = PolicyView;

    open spec fn view(&self) -> PolicyView {
        PolicyView { unwrapped_type: self.unwrapped_type@, conversion: self.conversion }
    }
}

impl DeepView for TypeConversionPolicy {
    type V = PolicyView;

    open spec fn deep_view(&self) -> PolicyView {
        self@
    }
}

impl TypeConversionPolicy {
    /// The policy that leaves a value of type `ty` as it is.
    pub fn new_unconverted(ty: NativeType) -> (r: TypeConversionPolicy)
        ensures
            r@ == (PolicyView { unwrapped_type: ty@, conversion: ConversionKind::Unconverted }),
    {
        TypeConversionPolicy { unwrapped_type: ty, conversion: ConversionKind::Unconverted }
    }

    /// The policy that wraps an outgoing value of type `ty` into an owning pointer.
    pub fn new_to_unique_ptr(ty: NativeType) -> (r: TypeConversionPolicy)
        ensures
            r@ == (PolicyView { unwrapped_type: ty@, conversion: ConversionKind::ToOwnedPointer }),
    {
        TypeConversionPolicy { unwrapped_type: ty, conversion: ConversionKind::ToOwnedPointer }
    }

    /// The policy that unwraps an incoming value of type `ty` from an owning pointer.
    pub fn new_from_unique_ptr(ty: NativeType) -> (r: TypeConversionPolicy)
        ensures
            r@ == (PolicyView { unwrapped_type: ty@, conversion: ConversionKind::FromOwnedPointer }),
    {
        TypeConversionPolicy { unwrapped_type: ty, conversion: ConversionKind::FromOwnedPointer }
    }

    /// The policy that builds an incoming value of type `ty` from a borrowed string.
    pub fn new_from_str(ty: NativeType) -> (r: TypeConversionPolicy)
        ensures
            r@ == (PolicyView {
                unwrapped_type: ty@,
                conversion: ConversionKind::FromBorrowedString,
            }),
    {
        TypeConversionPolicy { unwrapped_type: ty, conversion: ConversionKind::FromBorrowedString }
    }

    /// Whether the native side has to do anything.
    pub fn cpp_work_needed(&self) -> (r: bool)
        ensures
            r == self@.cpp_work_needed(),
    {
        match self.conversion {
            ConversionKind::Unconverted => false,
            _ => true,
        }
    }

    /// Whether the managed side has to do anything.
    pub fn rust_work_needed(&self) -> (r: bool)
        ensures
            r == (self@.conversion == ConversionKind::FromBorrowedString),
    {
        match self.conversion {
            ConversionKind::FromBorrowedString => true,
            _ => false,
        }
    }

    /// The type on the managed side of a value that was handed out.
    pub fn unconverted_rust_type(&self) -> (r: NativeType)
        ensures
            r@ == self@.unconverted_rust_type(),
    {
        match self.conversion {
            ConversionKind::ToOwnedPointer => NativeType::UniquePtr(
                Box::new(self.unwrapped_type.clone()),
            ),
            _ => self.unwrapped_type.clone(),
        }
    }

    /// The type on the managed side of a value that is handed in.
    pub fn converted_rust_type(&self) -> (r: NativeType)
        ensures
            r@ == self@.converted_rust_type(),
    {
        match self.conversion {
            ConversionKind::FromOwnedPointer => NativeType::UniquePtr(
                Box::new(self.unwrapped_type.clone()),
            ),
            ConversionKind::FromBorrowedString => NativeType::UniquePtr(
                Box::new(self.unwrapped_type.clone()),
            ),
            _ => self.unwrapped_type.clone(),
        }
    }
}

impl Clone for TypeConversionPolicy {
    fn clone(&self) -> (r: TypeConversionPolicy)
        ensures
            r@ == self@,
    {
        TypeConversionPolicy {
            unwrapped_type: self.unwrapped_type.clone(),
            conversion: self.conversion,
        }
    }
}

} // verus!
