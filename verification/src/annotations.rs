//! What the front end notes on a declaration: that a method is pure virtual,
//! that a declaration is a special member, that a parameter or the return
//! value is a reference.

use crate::api::{Annotation, AnnotationView};
use crate::idents::{ident_read, read_ident, read_str_literal, str_literal_read};
use crate::names::{add_text, lemma_added_once, with_text};
use crate::text::same_text;
use vstd::prelude::*;

verus! {

/// Whether an annotation of this name is among `attrs`.
pub open spec fn has_annotation(attrs: Seq<AnnotationView>, name: Seq<char>) -> bool {
    exists|i: int| 0 <= i < attrs.len() && (#[trigger] attrs[i]).name == name
}

/// What one annotation says about special members: the string that its
/// argument denotes, if it is the special-member annotation and its argument
/// is a string literal.
pub open spec fn special_member_of(a: AnnotationView) -> Option<Seq<char>> {
    if a.name == "bindgen_special_member"@ {
        str_literal_read(a.args)
    } else {
        None
    }
}

/// The kind of special member that the declaration is, by the first
/// annotation that says so.
pub open spec fn special_member_annotation(attrs: Seq<AnnotationView>) -> Option<Seq<char>>
    decreases attrs.len(),
{
    if attrs.len() == 0 {
        None
    } else if special_member_of(attrs.first()) is Some {
        special_member_of(attrs.first())
    } else {
        special_member_annotation(attrs.drop_first())
    }
}

/// Whether the declaration is annotated as a move constructor.
pub open spec fn is_move_constructor(attrs: Seq<AnnotationView>) -> bool {
    special_member_annotation(attrs) == Some("move_ctor"@)
}

/// The parameter that one annotation marks as a reference, if it does: the
/// identifier that its argument is.
pub open spec fn reference_parameter_of(a: AnnotationView) -> Option<Seq<char>> {
    if a.name == "bindgen_arg_type_reference"@ {
        ident_read(a.args)
    } else {
        None
    }
}

/// The parameters after one more was marked: a name is held once, however
/// often it is marked.
pub open spec fn with_reference_parameter(
    marked: Seq<Seq<char>>,
    parameter: Option<Seq<char>>,
) -> Seq<Seq<char>> {
    match parameter {
        Some(p) => with_text(marked, p),
        None => marked,
    }
}

/// The set of parameters that the annotations mark as references: each
/// name once, in the order in which the names are first marked.
pub open spec fn reference_parameters(attrs: Seq<AnnotationView>) -> Seq<Seq<char>>
    decreases attrs.len(),
{
    if attrs.len() == 0 {
        Seq::empty()
    } else {
        with_reference_parameter(
            reference_parameters(attrs.drop_last()),
            reference_parameter_of(attrs.last()),
        )
    }
}

/// The set of parameters that are marked as references holds no name twice.
pub proof fn lemma_reference_parameters_are_a_set(attrs: Seq<AnnotationView>)
    ensures
        reference_parameters(attrs).no_duplicates(),
    decreases attrs.len(),
{
    if attrs.len() > 0 {
        lemma_reference_parameters_are_a_set(attrs.drop_last());
        let before = reference_parameters(attrs.drop_last());
        match reference_parameter_of(attrs.last()) {
            Some(p) => {
                if !before.contains(p) {
                    lemma_added_once(before, p);
                }
            },
            None => {},
        }
    }
}

/// Whether an annotation marks the return value as a reference.
pub open spec fn reference_return(attrs: Seq<AnnotationView>) -> bool {
    has_annotation(attrs, "bindgen_ret_type_reference"@)
}

/// Whether an annotation of this name is among `attrs`.
pub fn has_attr(attrs: &Vec<Annotation>, name: &str) -> (r: bool)
    ensures
        r == has_annotation(attrs.deep_view(), name@),
{
    let mut i: usize = 0;
    while i < attrs.len()
        invariant
            i <= attrs.len(),
            forall|k: int| 0 <= k < i ==> (#[trigger] attrs.deep_view()[k]).name != name@,
        decreases attrs.len() - i,
    {
        if same_text(attrs[i].name.as_str(), name) {
            assert(attrs.deep_view()[i as int].name == name@);
            return true;
        }
        i += 1;
    }
    false
}

/// What `annotation` says about special members: the string that its
/// argument denotes, if it is the special-member annotation and its argument
/// is a string literal. The argument of any other annotation is not read.
pub fn special_member_in(annotation: &Annotation) -> (r: Option<String>)
    ensures
        r.deep_view() == special_member_of(annotation@),
{
    if same_text(annotation.name.as_str(), "bindgen_special_member") {
        read_str_literal(annotation.args.as_str())
    } else {
        None
    }
}

/// The parameter that `annotation` marks as a reference, if it does: the
/// identifier that its argument is. The argument of any other annotation is
/// not read.
pub fn reference_parameter_in(annotation: &Annotation) -> (r: Option<String>)
    ensures
        r.deep_view() == reference_parameter_of(annotation@),
{
    if same_text(annotation.name.as_str(), "bindgen_arg_type_reference") {
        read_ident(annotation.args.as_str())
    } else {
        None
    }
}

/// Adds `parameter`, where an annotation marked one, to the set of
/// parameters that are marked as references. A name that the set holds is
/// not added again.
pub fn add_reference_parameter(marked: &mut Vec<String>, parameter: Option<String>)
    ensures
        final(marked).deep_view() == with_reference_parameter(
            old(marked).deep_view(),
            parameter.deep_view(),
        ),
{
    match parameter {
        Some(p) => {
            add_text(marked, p);
        },
        None => {},
    }
}

/// Whether `value`, the kind of special member that a declaration is
/// annotated with, says that it is a move constructor.
pub fn is_move_constructor_value(value: &Option<String>) -> (r: bool)
    ensures
        r == (value.deep_view() == Some("move_ctor"@)),
{
    match value {
        Some(v) => same_text(v.as_str(), "move_ctor"),
        None => false,
    }
}

} // verus!
