//! Questions about the analysed parameters of a declaration.

use crate::api::{
    ArgumentAnalysis, ArgumentView, FnArg, FnArgView, FnKind, MethodKind, Pat,
};
use crate::model::{
    any_conversion, any_requires_unsafe, any_virtual, first_self_type, params_deps,
    reference_count, shim_param, without_receivers,
};
use crate::names::{add_names, QName, QualifiedName};
use crate::types::TypeConversionPolicy;
use vstd::prelude::*;

verus! {

/// The types that the parameters depend on, each once, in the order in
/// which they are met.
pub fn collect_deps(details: &Vec<ArgumentAnalysis>) -> (r: Vec<QualifiedName>)
    ensures
        r.deep_view() == params_deps(details.deep_view()),
{
    let ghost all = details.deep_view();
    let mut r: Vec<QualifiedName> = Vec::new();
    let mut i: usize = 0;
    assert(all.take(0) =~= Seq::<ArgumentView>::empty());
    assert(r.deep_view() =~= Seq::<QName>::empty());
    while i < details.len()
        invariant
            i <= details.len(),
            all == details.deep_view(),
            r.deep_view() == params_deps(all.take(i as int)),
        decreases details.len() - i,
    {
        assert(all.take(i + 1).drop_last() =~= all.take(i as int));
        assert(all.take(i + 1).last() == details[i as int]@);
        add_names(&mut r, &details[i].deps);
        i += 1;
    }
    assert(all.take(details.len() as int) =~= all);
    r
}

/// The owning type that the first receiver among the parameters names.
pub fn find_self_type(details: &Vec<ArgumentAnalysis>) -> (r: Option<QualifiedName>)
    ensures
        r.deep_view() == first_self_type(details.deep_view()),
{
    let ghost all = details.deep_view();
    let mut i: usize = 0;
    assert(all.skip(0) =~= all);
    while i < details.len()
        invariant
            i <= details.len(),
            all == details.deep_view(),
            first_self_type(all) == first_self_type(all.skip(i as int)),
        decreases details.len() - i,
    {
        assert(all.skip(i as int).first() == details[i as int]@);
        assert(all.skip(i as int).drop_first() =~= all.skip(i + 1));
        match &details[i].self_type {
            Some(t) => {
                return Some(t.clone());
            },
            None => {},
        }
        i += 1;
    }
    None
}

/// Whether a parameter asks for the function to be unsafe.
pub fn some_requires_unsafe(details: &Vec<ArgumentAnalysis>) -> (r: bool)
    ensures
        r == any_requires_unsafe(details.deep_view()),
{
    let mut i: usize = 0;
    while i < details.len()
        invariant
            i <= details.len(),
            forall|k: int| 0 <= k < i ==> !(#[trigger] details.deep_view()[k]).requires_unsafe,
        decreases details.len() - i,
    {
        if details[i].requires_unsafe {
            assert(details.deep_view()[i as int].requires_unsafe);
            return true;
        }
        i += 1;
    }
    false
}

/// Whether a parameter is the receiver of a virtual method.
pub fn some_virtual(details: &Vec<ArgumentAnalysis>) -> (r: bool)
    ensures
        r == any_virtual(details.deep_view()),
{
    let mut i: usize = 0;
    while i < details.len()
        invariant
            i <= details.len(),
            forall|k: int| 0 <= k < i ==> !(#[trigger] details.deep_view()[k]).is_virtual,
        decreases details.len() - i,
    {
        if details[i].is_virtual {
            assert(details.deep_view()[i as int].is_virtual);
            return true;
        }
        i += 1;
    }
    false
}

/// Whether a parameter needs a conversion on the native side.
pub fn some_conversion(details: &Vec<ArgumentAnalysis>) -> (r: bool)
    ensures
        r == any_conversion(details.deep_view()),
{
    let mut i: usize = 0;
    while i < details.len()
        invariant
            i <= details.len(),
            forall|k: int|
                0 <= k < i ==> !(#[trigger] details.deep_view()[k]).conversion.cpp_work_needed(),
        decreases details.len() - i,
    {
        if details[i].conversion.cpp_work_needed() {
            assert(details.deep_view()[i as int].conversion.cpp_work_needed());
            return true;
        }
        i += 1;
    }
    false
}

/// How many parameters are references.
pub fn count_references(details: &Vec<ArgumentAnalysis>) -> (r: usize)
    ensures
        r == reference_count(details.deep_view()),
{
    let ghost all = details.deep_view();
    let mut count: usize = 0;
    let mut i: usize = 0;
    assert(all.take(0) =~= Seq::<ArgumentView>::empty());
    while i < details.len()
        invariant
            i <= details.len(),
            all == details.deep_view(),
            count <= i,
            count == reference_count(all.take(i as int)),
        decreases details.len() - i,
    {
        assert(all.take(i + 1).drop_last() =~= all.take(i as int));
        assert(all.take(i + 1).last() == details[i as int]@);
        if details[i].was_reference {
            count += 1;
        }
        i += 1;
    }
    assert(all.take(details.len() as int) =~= all);
    count
}

/// The parameters without the receivers among them. The two lists are in
/// step: `details[i]` is what was recorded about `params[i]`.
pub(crate) fn drop_receivers(params: &Vec<FnArg>, details: &Vec<ArgumentAnalysis>) -> (r: (
    Vec<FnArg>,
    Vec<ArgumentAnalysis>,
))
    requires
        params.len() == details.len(),
    ensures
        (r.0.deep_view(), r.1.deep_view()) == without_receivers(
            params.deep_view(),
            details.deep_view(),
        ),
{
    let ghost all_params = params.deep_view();
    let ghost all_details = details.deep_view();
    let mut kept_params: Vec<FnArg> = Vec::new();
    let mut kept_details: Vec<ArgumentAnalysis> = Vec::new();
    let mut i: usize = 0;
    assert(all_details.take(0) =~= Seq::<ArgumentView>::empty());
    assert(kept_params.deep_view() =~= Seq::<FnArgView>::empty());
    assert(kept_details.deep_view() =~= Seq::<ArgumentView>::empty());
    while i < details.len()
        invariant
            i <= details.len(),
            params.len() == details.len(),
            all_params == params.deep_view(),
            all_details == details.deep_view(),
            (kept_params.deep_view(), kept_details.deep_view()) == without_receivers(
                all_params.take(i as int),
                all_details.take(i as int),
            ),
        decreases details.len() - i,
    {
        assert(all_params.take(i + 1).drop_last() =~= all_params.take(i as int));
        assert(all_details.take(i + 1).drop_last() =~= all_details.take(i as int));
        assert(all_params.take(i + 1).last() == params[i as int]@);
        assert(all_details.take(i + 1).last() == details[i as int]@);
        if details[i].self_type.is_none() {
            let ghost params_before = kept_params.deep_view();
            let ghost details_before = kept_details.deep_view();
            kept_params.push(params[i].clone());
            kept_details.push(details[i].clone());
            assert(kept_params.deep_view() =~= params_before.push(params[i as int]@));
            assert(kept_details.deep_view() =~= details_before.push(details[i as int]@));
        }
        i += 1;
    }
    assert(all_params.take(details.len() as int) =~= all_params);
    assert(all_details.take(details.len() as int) =~= all_details);
    (kept_params, kept_details)
}

/// The parameters of the shim's bridge entry: each with its converted type,
/// and a receiver under the reserved name unless the shim is a constructor.
pub fn shim_params(kind: &FnKind, details: &Vec<ArgumentAnalysis>) -> (r: Vec<FnArg>)
    ensures
        r.deep_view() == Seq::new(
            details.deep_view().len(),
            |i: int| shim_param(kind@, details.deep_view()[i]),
        ),
{
    let is_constructor = match kind {
        FnKind::Method(_, MethodKind::Constructor) => true,
        _ => false,
    };
    let mut r: Vec<FnArg> = Vec::new();
    let mut i: usize = 0;
    while i < details.len()
        invariant
            i <= details.len(),
            r.len() == i,
            is_constructor == (kind@ matches crate::api::FnKindView::Method(
                _,
                MethodKind::Constructor,
            )),
            forall|k: int| 0 <= k < i ==> (#[trigger] r[k])@ == shim_param(kind@, details[k]@),
        decreases details.len() - i,
    {
        let pd = &details[i];
        let pat = if pd.self_type.is_some() && !is_constructor {
            Pat::Ident(String::from_str("autocxx_gen_this"))
        } else {
            pd.name.clone()
        };
        r.push(FnArg { pat, ty: pd.conversion.converted_rust_type() });
        i += 1;
    }
    assert(r.deep_view() =~= Seq::new(
        details.deep_view().len(),
        |i: int| shim_param(kind@, details.deep_view()[i]),
    ));
    r
}

/// The conversions of the parameters, in order.
pub fn argument_conversions(details: &Vec<ArgumentAnalysis>) -> (r: Vec<TypeConversionPolicy>)
    ensures
        r.deep_view() == Seq::new(
            details.deep_view().len(),
            |i: int| details.deep_view()[i].conversion,
        ),
{
    let mut r: Vec<TypeConversionPolicy> = Vec::new();
    let mut i: usize = 0;
    while i < details.len()
        invariant
            i <= details.len(),
            r.len() == i,
            forall|k: int| 0 <= k < i ==> (#[trigger] r[k])@ == details[k]@.conversion,
        decreases details.len() - i,
    {
        r.push(details[i].conversion.clone());
        i += 1;
    }
    assert(r.deep_view() =~= Seq::new(
        details.deep_view().len(),
        |i: int| details.deep_view()[i].conversion,
    ));
    r
}

} // verus!
