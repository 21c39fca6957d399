//! What holds of every analysis and of every run, proved from the model.

use crate::annotations::reference_return;
use crate::api::{
    ApiNameView, ApiView, ArgumentView, CppFunctionBodyView, FnAnalysisView, FnArgView,
    FnKindView, FuncView, MethodKind, RenameView,
};
use crate::bridge_name_tracker::{lemma_unique_name_is_new, lemma_unique_name_shape};
use crate::config::{ConfigView, KnownTypesView, UnsafePolicy};
use crate::idents::is_rust_ident;
use crate::model::{
    analysis, analyzed_return, any_conversion, args_of, base_bridge_name, batch, given_name,
    ignored_item, initial_state, lemma_pod_safe_types_are_a_set, native_name, needs_shim,
    owner_name, owning_type, reference_count, resolution, run, without_receivers, wrapper_name,
    AnalyzerView,
};
use crate::names::lemma_added_once;
use crate::overload_tracker::{occurrences, suffixed, OverloadKey};
use crate::text::{
    decimal_digits, is_digit, lemma_decimal_ends_in_digit, lemma_decimal_injective,
    lemma_decimal_round_trip,
};
use crate::types::TypeView;
use vstd::prelude::*;

verus! {

/// The names that a result gives a function: its bridge-entry name, its
/// managed name and its rename strategy. `None` for any other item.
pub open spec fn name_assignment(api: ApiView<FnAnalysisView>) -> Option<
    (Seq<char>, Seq<char>, RenameView),
> {
    match api {
        ApiView::Function { analysis, .. } => Some(
            (analysis.cxxbridge_name, analysis.rust_name, analysis.rust_rename_strategy),
        ),
        _ => None,
    }
}

/// The name assignments of all results, in order.
pub open spec fn name_assignments(results: Seq<ApiView<FnAnalysisView>>) -> Seq<
    Option<(Seq<char>, Seq<char>, RenameView)>,
> {
    Seq::new(results.len(), |i: int| name_assignment(results[i]))
}

/// Determinism: two runs that start with the same registries on the same
/// items in the same order give the same results, and so the same bridge
/// names, managed names and rename strategies.
pub proof fn law_determinism(
    first: AnalyzerView,
    second: AnalyzerView,
    apis: Seq<ApiView<()>>,
    again: Seq<ApiView<()>>,
)
    requires
        first == second,
        apis == again,
    ensures
        run(first, apis) == run(second, again),
        name_assignments(run(first, apis)) == name_assignments(run(second, again)),
{
}

/// What a successful analysis says of a function, in terms of its steps:
/// the kind and the managed name are those of the resolution, the bridge
/// name registry has grown by the name it handed out, and a shim is there
/// exactly where one is needed, in which case the bridge-entry name is the
/// wrapper's.
pub proof fn law_result_follows_steps(s: AnalyzerView, name: ApiNameView, fun: FuncView)
    requires
        analysis(s, name, fun).result matches Ok(Some(_)),
    ensures
        analysis(s, name, fun).result matches Ok(Some(ApiView::Function { analysis: a, fun: f, .. }))
            && {
            &&& f == fun
            &&& a.kind == resolution(s, name, fun).kind
            &&& a.rust_name == resolution(s, name, fun).rust_name
            &&& a.param_details == resolution(s, name, fun).details
            &&& (a.cpp_wrapper is Some) == needs_shim(s, name, fun)
            &&& a.cxxbridge_name == if needs_shim(s, name, fun) {
                wrapper_name(base_bridge_name(s, name, fun))
            } else {
                base_bridge_name(s, name, fun)
            }
            &&& analysis(s, name, fun).state.bridge_names == s.bridge_names.push(
                base_bridge_name(s, name, fun),
            )
        },
{
}

/// Reference-return invariant: where a result returns a reference, exactly
/// one of its parameters is a reference.
pub proof fn law_reference_return(s: AnalyzerView, name: ApiNameView, fun: FuncView)
    ensures
        analysis(s, name, fun).result matches Ok(Some(ApiView::Function { analysis: a, .. }))
            ==> (a.ret_type matches Some(TypeView::Reference { .. }) ==> reference_count(
            a.param_details,
        ) == 1),
{
}

/// Shim necessity: a static, virtual or pure virtual method always needs a
/// shim, and so every such result has one.
pub proof fn law_dispatch_needs_shim(s: AnalyzerView, name: ApiNameView, fun: FuncView)
    ensures
        analysis(s, name, fun).result matches Ok(Some(ApiView::Function { analysis: a, .. }))
            ==> (a.kind matches FnKindView::Method(_, k) && (k == MethodKind::Static || k
            == MethodKind::Virtual || k == MethodKind::PureVirtual) ==> a.cpp_wrapper is Some),
{
}

/// Shim necessity, the other way: a normal method whose bridge name is its
/// managed name, whose parameters and return value need no conversion and
/// whose native name is an identifier of the managed language gets no shim.
pub proof fn law_plain_method_needs_no_shim(s: AnalyzerView, name: ApiNameView, fun: FuncView)
    requires
        analysis(s, name, fun).result matches Ok(Some(_)),
        resolution(s, name, fun).kind matches FnKindView::Method(_, MethodKind::Normal),
        base_bridge_name(s, name, fun) == resolution(s, name, fun).rust_name,
        !any_conversion(resolution(s, name, fun).details),
        ({
            let r = resolution(s, name, fun);
            let ret = analyzed_return(s.env, r.kind, fun.output, reference_return(fun.attrs));
            ret.conversion is Some ==> !ret.conversion->0.cpp_work_needed()
        }),
        is_rust_ident(native_name(s, name, fun)),
    ensures
        analysis(s, name, fun).result matches Ok(Some(ApiView::Function { analysis: a, .. }))
            && a.cpp_wrapper is None && a.cxxbridge_name == a.rust_name,
{
    law_result_follows_steps(s, name, fun);
}

/// Suffix stability: each request for a name counts once, and only for its
/// own namespace, owning type and ideal name.
pub proof fn law_overloads_count_up(log: Seq<OverloadKey>, asked: OverloadKey, key: OverloadKey)
    ensures
        occurrences(log.push(asked), key) == occurrences(log, key) + if asked == key {
            1nat
        } else {
            0nat
        },
{
    assert(log.push(asked).drop_last() =~= log);
}

/// Suffix stability: of three declarations that share an ideal name, the
/// first keeps it, the second gets it with 1 behind it and the third with 2.
pub proof fn law_first_three_overloads(log: Seq<OverloadKey>, key: OverloadKey)
    requires
        occurrences(log, key) == 0,
    ensures
        suffixed(key.name, occurrences(log, key)) == key.name,
        suffixed(key.name, occurrences(log.push(key), key)) == key.name + "1"@,
        suffixed(key.name, occurrences(log.push(key).push(key), key)) == key.name + "2"@,
{
    law_overloads_count_up(log, key, key);
    law_overloads_count_up(log.push(key), key, key);
    reveal_strlit("1");
    reveal_strlit("2");
    assert(decimal_digits(1) =~= "1"@);
    assert(decimal_digits(2) =~= "2"@);
}

/// Constructor detection: a method is a constructor exactly if the name
/// that the overload registry gives it begins with the name of its owning
/// type. A constructor goes by the constructor's reserved name with the
/// overload's number behind it, returns its owning type in an owning
/// pointer, has a shim that constructs, and has lost every receiver among
/// its parameters.
pub proof fn law_constructor(s: AnalyzerView, name: ApiNameView, fun: FuncView)
    requires
        analysis(s, name, fun).result matches Ok(Some(_)),
    ensures
        analysis(s, name, fun).result matches Ok(Some(ApiView::Function { analysis: a, .. })) && {
            let args = args_of(s, name, fun);
            let given = given_name(s, name, fun);
            &&& (a.kind matches FnKindView::Method(_, MethodKind::Constructor)) <==> (owning_type(
                fun,
                args.details,
            ).1 matches Some(t) && t.name.is_prefix_of(given))
            &&& a.kind matches FnKindView::Method(t, MethodKind::Constructor) ==> {
                &&& a.rust_name == "make_unique"@ + given.skip(t.name.len() as int)
                &&& a.ret_type == Some(TypeView::Path(t).owned())
                &&& (a.cpp_wrapper matches Some(w) && w.payload == CppFunctionBodyView::Constructor
                    && !w.is_a_method)
                &&& a.param_details == without_receivers(args.params, args.details).1
            }
        },
{
}

/// No receiver is among the parameters that are left when the receivers
/// are taken out, and the two lists that are left are of one length.
pub proof fn lemma_without_receivers(params: Seq<FnArgView>, details: Seq<ArgumentView>)
    ensures
        without_receivers(params, details).0.len() == without_receivers(params, details).1.len(),
        forall|k: int|
            0 <= k < without_receivers(params, details).1.len() ==> (#[trigger] without_receivers(
                params,
                details,
            ).1[k]).self_type is None,
    decreases details.len(),
{
    if details.len() > 0 {
        lemma_without_receivers(params.drop_last(), details.drop_last());
    }
}

/// Constructor detection, the receiver: no parameter of a constructor is a
/// receiver.
pub proof fn law_constructor_has_no_receiver(s: AnalyzerView, name: ApiNameView, fun: FuncView)
    requires
        analysis(s, name, fun).result matches Ok(Some(_)),
    ensures
        analysis(s, name, fun).result matches Ok(Some(ApiView::Function { analysis: a, .. }))
            && (a.kind matches FnKindView::Method(_, MethodKind::Constructor) ==> forall|k: int|
            0 <= k < a.param_details.len() ==> (#[trigger] a.param_details[k]).self_type is None),
{
    law_constructor(s, name, fun);
    let args = args_of(s, name, fun);
    lemma_without_receivers(args.params, args.details);
}

/// Every function among the results of a run is the result of the analysis
/// of a declaration in some state of the analyser; the lemma hands back
/// that state and the declaration with its names.
pub proof fn lemma_result_origin(s: AnalyzerView, apis: Seq<ApiView<()>>, i: int) -> (w: (
    AnalyzerView,
    ApiNameView,
    FuncView,
))
    requires
        0 <= i < batch(s, apis).results.len(),
        batch(s, apis).results[i] is Function,
    ensures
        analysis(w.0, w.1, w.2).result == Ok::<
            Option<ApiView<FnAnalysisView>>,
            crate::errors::ConvertErrorWithContextView,
        >(Some(batch(s, apis).results[i])),
    decreases apis.len(),
{
    if apis.len() == 0 {
        assert(false);
        arbitrary()
    } else {
        let before = batch(s, apis.drop_last());
        if i < before.results.len() {
            lemma_result_origin(s, apis.drop_last(), i)
        } else {
            match apis.last() {
                ApiView::Function { name, fun, .. } => (before.state, name, fun),
                _ => {
                    assert(false);
                    arbitrary()
                },
            }
        }
    }
}

/// A function among the results of a whole run is among the results of
/// its items, before the discovered types are added.
pub proof fn lemma_function_is_no_extra(s: AnalyzerView, apis: Seq<ApiView<()>>, i: int)
    requires
        0 <= i < run(s, apis).len(),
        run(s, apis)[i] is Function,
    ensures
        i < batch(s, apis).results.len(),
        run(s, apis)[i] == batch(s, apis).results[i],
{
}

/// Reference-return invariant, for a run: where a result returns a
/// reference, exactly one of its parameters is a reference.
pub proof fn law_run_reference_return(s: AnalyzerView, apis: Seq<ApiView<()>>, i: int)
    requires
        0 <= i < run(s, apis).len(),
    ensures
        run(s, apis)[i] matches ApiView::Function { analysis: a, .. } ==> (a.ret_type matches Some(
            TypeView::Reference { .. },
        ) ==> reference_count(a.param_details) == 1),
{
    if run(s, apis)[i] is Function {
        lemma_function_is_no_extra(s, apis, i);
        let w = lemma_result_origin(s, apis, i);
        law_reference_return(w.0, w.1, w.2);
    }
}

/// Shim necessity, for a run: every static, virtual or pure virtual method
/// among the results has a shim.
pub proof fn law_run_dispatch_needs_shim(s: AnalyzerView, apis: Seq<ApiView<()>>, i: int)
    requires
        0 <= i < run(s, apis).len(),
    ensures
        run(s, apis)[i] matches ApiView::Function { analysis: a, .. } ==> (a.kind matches FnKindView::Method(
            _,
            k,
        ) && (k == MethodKind::Static || k == MethodKind::Virtual || k == MethodKind::PureVirtual)
            ==> a.cpp_wrapper is Some),
{
    if run(s, apis)[i] is Function {
        lemma_function_is_no_extra(s, apis, i);
        let w = lemma_result_origin(s, apis, i);
        law_dispatch_needs_shim(w.0, w.1, w.2);
    }
}

/// Constructor detection, for a run: every constructor among the results
/// returns its owning type in an owning pointer, has a shim that
/// constructs, and has no receiver among its parameters.
pub proof fn law_run_constructor(s: AnalyzerView, apis: Seq<ApiView<()>>, i: int)
    requires
        0 <= i < run(s, apis).len(),
        run(s, apis)[i] matches ApiView::Function { analysis: a, .. } && a.kind matches FnKindView::Method(
            _,
            MethodKind::Constructor,
        ),
    ensures
        ({
            let a = run(s, apis)[i]->Function_analysis;
            &&& a.kind matches FnKindView::Method(t, _) && a.ret_type == Some(
                TypeView::Path(t).owned(),
            )
            &&& a.cpp_wrapper matches Some(w) && w.payload == CppFunctionBodyView::Constructor
            &&& forall|k: int|
                0 <= k < a.param_details.len() ==> (#[trigger] a.param_details[k]).self_type is None
        }),
{
    lemma_function_is_no_extra(s, apis, i);
    let w = lemma_result_origin(s, apis, i);
    law_constructor(w.0, w.1, w.2);
    law_constructor_has_no_receiver(w.0, w.1, w.2);
}

/// The bridge names that the registry handed out for the results of a run,
/// in the order of the results: `Some` for an analysed function, `None`
/// for any other result.
pub open spec fn handed_out(s: AnalyzerView, apis: Seq<ApiView<()>>) -> Seq<Option<Seq<char>>>
    decreases apis.len(),
{
    if apis.len() == 0 {
        Seq::empty()
    } else {
        let before = batch(s, apis.drop_last());
        let t = handed_out(s, apis.drop_last());
        match apis.last() {
            ApiView::Function { name, fun, .. } => match analysis(before.state, name, fun).result {
                Ok(Some(_)) => t.push(Some(base_bridge_name(before.state, name, fun))),
                Ok(None) => t,
                Err(e) => if ignored_item(name.name.ns, e) is Some {
                    t.push(None)
                } else {
                    t
                },
            },
            _ => t.push(None),
        }
    }
}

/// `api` is a function whose bridge-entry name was made from the name `n`
/// that the registry handed out: it is `n`, or the name of the wrapper for
/// `n` where the function has a shim. `n` is no shorter than the managed
/// name.
pub open spec fn made_from(api: ApiView<FnAnalysisView>, n: Seq<char>) -> bool {
    api matches ApiView::Function { analysis: a, .. } && {
        &&& a.cxxbridge_name == if a.cpp_wrapper is Some {
            wrapper_name(n)
        } else {
            n
        }
        &&& n.len() >= a.rust_name.len()
    }
}

/// An analysis hands out at most one bridge name, and a new one; what was
/// handed out before stays.
pub proof fn lemma_bridge_names_after(s: AnalyzerView, name: ApiNameView, fun: FuncView)
    ensures
        ({
            let o = analysis(s, name, fun);
            let n = base_bridge_name(s, name, fun);
            &&& !s.bridge_names.contains(n)
            &&& o.state.bridge_names == s.bridge_names || o.state.bridge_names
                == s.bridge_names.push(n)
            &&& o.result matches Ok(Some(api)) ==> o.state.bridge_names == s.bridge_names.push(n)
                && made_from(api, n)
        }),
{
    let r = resolution(s, name, fun);
    lemma_unique_name_is_new(s.bridge_names, owner_name(r.kind), r.rust_name, name.name.ns);
    lemma_unique_name_shape(s.bridge_names, owner_name(r.kind), r.rust_name, name.name.ns);
}

/// The registries stay well formed through every analysis.
pub proof fn lemma_analysis_keeps_wf(s: AnalyzerView, name: ApiNameView, fun: FuncView)
    requires
        s.wf(),
    ensures
        analysis(s, name, fun).state.wf(),
{
    lemma_bridge_names_after(s, name, fun);
    lemma_added_once(s.bridge_names, base_bridge_name(s, name, fun));
    let r = resolution(s, name, fun);
    if !s.rust_names.contains(r.rust_name) {
        lemma_added_once(s.rust_names, r.rust_name);
    }
}

/// The registries stay well formed through every run.
pub proof fn lemma_batch_keeps_wf(s: AnalyzerView, apis: Seq<ApiView<()>>)
    requires
        s.wf(),
    ensures
        batch(s, apis).state.wf(),
    decreases apis.len(),
{
    if apis.len() > 0 {
        lemma_batch_keeps_wf(s, apis.drop_last());
        match apis.last() {
            ApiView::Function { name, fun, .. } => {
                lemma_analysis_keeps_wf(batch(s, apis.drop_last()).state, name, fun);
            },
            _ => {},
        }
    }
}

/// What ties the results of a run to the names that the bridge name
/// registry handed out: every analysed function was made from one of them,
/// each from its own, and all of them are in the registry, which holds no
/// name twice.
pub proof fn lemma_handed_out(s: AnalyzerView, apis: Seq<ApiView<()>>)
    requires
        s.wf(),
    ensures
        ({
            let b = batch(s, apis);
            let t = handed_out(s, apis);
            &&& t.len() == b.results.len()
            &&& b.state.wf()
            &&& forall|i: int|
                0 <= i < t.len() ==> ((#[trigger] b.results[i]) is Function <==> t[i] is Some)
            &&& forall|i: int|
                0 <= i < t.len() && (#[trigger] t[i]) is Some ==> b.state.bridge_names.contains(
                    t[i]->0,
                ) && made_from(b.results[i], t[i]->0)
            &&& forall|i: int, j: int|
                0 <= i < j < t.len() && (#[trigger] t[i]) is Some && (#[trigger] t[j]) is Some
                    ==> t[i] != t[j]
        }),
    decreases apis.len(),
{
    lemma_batch_keeps_wf(s, apis);
    if apis.len() > 0 {
        lemma_handed_out(s, apis.drop_last());
        let before = batch(s, apis.drop_last());
        let tb = handed_out(s, apis.drop_last());
        let b = batch(s, apis);
        let t = handed_out(s, apis);
        match apis.last() {
            ApiView::Function { name, fun, .. } => {
                lemma_bridge_names_after(before.state, name, fun);
                let o = analysis(before.state, name, fun);
                let n = base_bridge_name(before.state, name, fun);
                assert forall|i: int| 0 <= i < tb.len() && (#[trigger] tb[i]) is Some implies {
                    &&& b.state.bridge_names.contains(tb[i]->0)
                    &&& tb[i]->0 != n
                } by {
                    let k = before.state.bridge_names.index_of(tb[i]->0);
                    assert(before.state.bridge_names[k] == tb[i]->0);
                    if o.state.bridge_names != before.state.bridge_names {
                        assert(o.state.bridge_names[k] == tb[i]->0);
                    }
                }
                match o.result {
                    Ok(Some(api)) => {
                        assert(o.state.bridge_names.last() == n);
                        assert(b.state.bridge_names[b.state.bridge_names.len() - 1] == n);
                    },
                    _ => {},
                }
            },
            _ => {},
        }
    }
}

/// `api` is a function with a shim.
pub open spec fn has_shim(api: ApiView<FnAnalysisView>) -> bool {
    api matches ApiView::Function { analysis: a, .. } && a.cpp_wrapper is Some
}

/// `a` is `b` with one underscore behind it, and `b` does not end in one.
/// The wrappers for two such names have one name, because the underscore
/// that joins the wrapper's ending on is left out behind an underscore.
pub open spec fn differ_by_joiner(a: Seq<char>, b: Seq<char>) -> bool {
    !"_"@.is_suffix_of(b) && a == b + "_"@
}

/// The two cases in which the functions `x` and `y`, made from the
/// different names `n` and `m` that the registry handed out, come to have
/// one bridge-entry name: both have a shim and the names differ by the
/// joining underscore; or one has a shim and the other, without a shim,
/// was handed out the very name of that wrapper.
pub open spec fn bridge_names_clash(
    x: ApiView<FnAnalysisView>,
    n: Seq<char>,
    y: ApiView<FnAnalysisView>,
    m: Seq<char>,
) -> bool {
    ||| has_shim(x) && has_shim(y) && (differ_by_joiner(n, m) || differ_by_joiner(m, n))
    ||| has_shim(x) && !has_shim(y) && m == wrapper_name(n)
    ||| !has_shim(x) && has_shim(y) && n == wrapper_name(m)
}

/// Two names have wrappers of one name exactly if they are one name or
/// differ by the joining underscore.
pub proof fn lemma_wrapper_names_equal(n: Seq<char>, m: Seq<char>)
    ensures
        wrapper_name(n) == wrapper_name(m) <==> n == m || differ_by_joiner(n, m)
            || differ_by_joiner(m, n),
{
    let w = "autocxx_wrapper"@;
    let u = "_"@;
    assert forall|a: Seq<char>, b: Seq<char>| a + w == b + w implies a == b by {
        assert((a + w).len() == a.len() + w.len());
        assert((b + w).len() == b.len() + w.len());
        assert(a =~= (a + w).subrange(0, a.len() as int));
        assert(b =~= (b + w).subrange(0, b.len() as int));
    }
    assert forall|a: Seq<char>| u.is_suffix_of(#[trigger] (a + u)) by {
        assert((a + u).subrange((a + u).len() - u.len(), (a + u).len() as int) =~= u);
    }
    assert(n + u + w =~= (n + u) + w);
    assert(m + u + w =~= (m + u) + w);
    if u.is_suffix_of(n) && !u.is_suffix_of(m) {
        assert(wrapper_name(n) == n + w);
        assert(wrapper_name(m) == (m + u) + w);
    }
    if u.is_suffix_of(m) && !u.is_suffix_of(n) {
        assert(wrapper_name(m) == m + w);
        assert(wrapper_name(n) == (n + u) + w);
    }
    if u.is_suffix_of(n) && u.is_suffix_of(m) {
        assert(!differ_by_joiner(n, m) && !differ_by_joiner(m, n));
    }
    if !u.is_suffix_of(n) && !u.is_suffix_of(m) {
        assert(u.is_suffix_of(n + u) && u.is_suffix_of(m + u));
        if wrapper_name(n) == wrapper_name(m) {
            assert(n + u == m + u);
            assert(n =~= (n + u).subrange(0, n.len() as int));
            assert(m =~= (m + u).subrange(0, m.len() as int));
        }
    }
}

/// Uniqueness of bridge-entry names: the names that the registry hands out
/// for two functions among the results of a run always differ, and the
/// bridge-entry names made from them are one name in the two cases of
/// [`bridge_names_clash`] and in no other. The run may start with any
/// well-formed registries, such as empty ones.
pub proof fn law_bridge_names_distinct(s: AnalyzerView, apis: Seq<ApiView<()>>, i: int, j: int)
    requires
        s.wf(),
        0 <= i < j < run(s, apis).len(),
        run(s, apis)[i] is Function,
        run(s, apis)[j] is Function,
    ensures
        i < j < handed_out(s, apis).len(),
        handed_out(s, apis)[i] is Some,
        handed_out(s, apis)[j] is Some,
        handed_out(s, apis)[i] != handed_out(s, apis)[j],
        made_from(run(s, apis)[i], handed_out(s, apis)[i]->0),
        made_from(run(s, apis)[j], handed_out(s, apis)[j]->0),
        run(s, apis)[i]->Function_analysis.cxxbridge_name == run(
            s,
            apis,
        )[j]->Function_analysis.cxxbridge_name <==> bridge_names_clash(
            run(s, apis)[i],
            handed_out(s, apis)[i]->0,
            run(s, apis)[j],
            handed_out(s, apis)[j]->0,
        ),
{
    lemma_function_is_no_extra(s, apis, i);
    lemma_function_is_no_extra(s, apis, j);
    lemma_handed_out(s, apis);
    let b = batch(s, apis);
    let t = handed_out(s, apis);
    assert(b.results[i] is Function);
    assert(b.results[j] is Function);
    assert(t[i] is Some && t[j] is Some);
    let n = t[i]->0;
    let m = t[j]->0;
    assert(n != m);
    assert(made_from(b.results[i], n));
    assert(made_from(b.results[j], m));
    lemma_wrapper_names_equal(n, m);
}

/// Uniqueness of bridge-entry names, without shims: two functions among
/// the results of a run that have no shim have different bridge-entry names.
pub proof fn law_bridge_names_without_shim_distinct(
    s: AnalyzerView,
    apis: Seq<ApiView<()>>,
    i: int,
    j: int,
)
    requires
        s.wf(),
        0 <= i < j < run(s, apis).len(),
        run(s, apis)[i] is Function,
        run(s, apis)[j] is Function,
        !has_shim(run(s, apis)[i]),
        !has_shim(run(s, apis)[j]),
    ensures
        run(s, apis)[i]->Function_analysis.cxxbridge_name != run(
            s,
            apis,
        )[j]->Function_analysis.cxxbridge_name,
{
    law_bridge_names_distinct(s, apis, i, j);
}

/// The managed identifier under which a result lists a free function.
pub open spec fn managed_id(api: ApiView<FnAnalysisView>) -> Seq<char> {
    match api {
        ApiView::Function { name, .. } => name.name.name,
        _ => Seq::empty(),
    }
}

/// `api` is a free function among the results.
pub open spec fn is_free_function(api: ApiView<FnAnalysisView>) -> bool {
    api matches ApiView::Function { analysis: a, .. } && a.kind is Function
}

/// `api` is a free function that is exported under its bridge-entry name
/// and gets its managed name by an alias.
pub open spec fn is_alias_export(api: ApiView<FnAnalysisView>) -> bool {
    api matches ApiView::Function { analysis: a, .. } && a.kind is Function
        && a.rust_rename_strategy is RenameViaAliasExport
}

/// The case in which two free functions come to be listed under one
/// identifier: `x` is exported under its bridge-entry name with an alias,
/// and `y` gets its managed name by an attribute, and that managed name is
/// the bridge-entry name of `x`.
pub open spec fn clashes_with_alias(
    x: ApiView<FnAnalysisView>,
    y: ApiView<FnAnalysisView>,
) -> bool {
    &&& is_alias_export(x)
    &&& y matches ApiView::Function { analysis: b, .. }
    &&& b.rust_rename_strategy is RenameViaAttribute
    &&& x->Function_analysis.cxxbridge_name == b.rust_name
}

/// The name of a wrapper is longer than the name it wraps.
pub proof fn lemma_wrapper_name_is_longer(n: Seq<char>)
    ensures
        wrapper_name(n).len() > n.len(),
{
    reveal_strlit("autocxx_wrapper");
}

/// What the analysis of a free function does to the registries of managed
/// names and bridge names, and how its final identifier comes about. No
/// analysis takes a name out of either registry.
pub proof fn lemma_free_function_names(s: AnalyzerView, name: ApiNameView, fun: FuncView)
    ensures
        ({
            let o = analysis(s, name, fun);
            &&& forall|x: Seq<char>|
                s.rust_names.contains(x) ==> #[trigger] o.state.rust_names.contains(x)
            &&& forall|x: Seq<char>|
                s.bridge_names.contains(x) ==> #[trigger] o.state.bridge_names.contains(x)
            &&& o.result matches Ok(Some(api)) ==> (is_free_function(api) ==> {
                let a = api->Function_analysis;
                &&& o.state.rust_names.contains(a.rust_name)
                &&& o.state.bridge_names.contains(a.rust_name)
                &&& a.rust_rename_strategy is RenameViaAttribute ==> !s.rust_names.contains(
                    a.rust_name,
                )
                &&& a.rust_rename_strategy is NoRenameNeeded ==> !s.bridge_names.contains(
                    a.rust_name,
                ) && a.cxxbridge_name == a.rust_name
                &&& managed_id(api) == if is_alias_export(api) {
                    a.cxxbridge_name
                } else {
                    a.rust_name
                }
            })
        }),
{
    let o = analysis(s, name, fun);
    let n = base_bridge_name(s, name, fun);
    lemma_bridge_names_after(s, name, fun);
    lemma_wrapper_name_is_longer(n);
    assert forall|x: Seq<char>| s.bridge_names.contains(x) implies (
    #[trigger] o.state.bridge_names.contains(x)) by {
        let k = s.bridge_names.index_of(x);
        assert(s.bridge_names[k] == x);
        if o.state.bridge_names != s.bridge_names {
            assert(o.state.bridge_names[k] == x);
        }
    }
    let r = resolution(s, name, fun);
    assert forall|x: Seq<char>| s.rust_names.contains(x) implies (
    #[trigger] o.state.rust_names.contains(x)) by {
        let k = s.rust_names.index_of(x);
        assert(s.rust_names[k] == x);
        if o.state.rust_names != s.rust_names {
            assert(o.state.rust_names == s.rust_names.push(r.rust_name));
            assert(o.state.rust_names[k] == x);
        }
    }
    match o.result {
        Ok(Some(api)) => {
            if is_free_function(api) {
                let a = api->Function_analysis;
                assert(a.rust_name == r.rust_name);
                assert(o.state.bridge_names == s.bridge_names.push(n));
                assert(o.state.bridge_names.last() == n);
                if !s.rust_names.contains(a.rust_name) {
                    assert(o.state.rust_names == s.rust_names.push(a.rust_name));
                    assert(o.state.rust_names.last() == a.rust_name);
                }
                if s.bridge_names.contains(a.rust_name) {
                    assert(o.state.bridge_names.contains(a.rust_name));
                } else {
                    assert(n == a.rust_name);
                    assert(o.state.bridge_names[o.state.bridge_names.len() - 1] == a.rust_name);
                }
            }
        },
        _ => {},
    }
}

/// Two free functions among the results of a run that both go by their
/// managed names have different managed names, and the managed name of
/// every free function among the results is taken in both registries.
pub proof fn lemma_managed_names(s: AnalyzerView, apis: Seq<ApiView<()>>)
    ensures
        ({
            let b = batch(s, apis);
            &&& forall|x: Seq<char>|
                s.rust_names.contains(x) ==> #[trigger] b.state.rust_names.contains(x)
            &&& forall|x: Seq<char>|
                s.bridge_names.contains(x) ==> #[trigger] b.state.bridge_names.contains(x)
            &&& forall|i: int|
                0 <= i < b.results.len() && is_free_function(#[trigger] b.results[i]) ==> {
                    &&& b.state.rust_names.contains(b.results[i]->Function_analysis.rust_name)
                    &&& b.state.bridge_names.contains(b.results[i]->Function_analysis.rust_name)
                    &&& managed_id(b.results[i]) == if is_alias_export(b.results[i]) {
                        b.results[i]->Function_analysis.cxxbridge_name
                    } else {
                        b.results[i]->Function_analysis.rust_name
                    }
                }
            &&& forall|i: int, j: int|
                0 <= i < j < b.results.len() && is_free_function(#[trigger] b.results[i])
                    && is_free_function(#[trigger] b.results[j]) && !is_alias_export(b.results[i])
                    && !is_alias_export(b.results[j]) ==> b.results[i]->Function_analysis.rust_name
                    != b.results[j]->Function_analysis.rust_name
        }),
    decreases apis.len(),
{
    if apis.len() > 0 {
        lemma_managed_names(s, apis.drop_last());
        let before = batch(s, apis.drop_last());
        let b = batch(s, apis);
        match apis.last() {
            ApiView::Function { name, fun, .. } => {
                lemma_free_function_names(before.state, name, fun);
                let o = analysis(before.state, name, fun);
                assert(b.state == o.state);
                assert forall|x: Seq<char>| s.rust_names.contains(x) implies (
                #[trigger] b.state.rust_names.contains(x)) by {
                    assert(before.state.rust_names.contains(x));
                }
                assert forall|x: Seq<char>| s.bridge_names.contains(x) implies (
                #[trigger] b.state.bridge_names.contains(x)) by {
                    assert(before.state.bridge_names.contains(x));
                }
                assert forall|i: int|
                    0 <= i < before.results.len() && is_free_function(
                        #[trigger] before.results[i],
                    ) implies b.state.rust_names.contains(
                    before.results[i]->Function_analysis.rust_name,
                ) && b.state.bridge_names.contains(before.results[i]->Function_analysis.rust_name) by {
                    let x = before.results[i]->Function_analysis.rust_name;
                    assert(before.state.rust_names.contains(x));
                    assert(before.state.bridge_names.contains(x));
                }
            },
            _ => {},
        }
    }
}

/// `api` is a free function whose bridge-entry name is its managed name.
pub open spec fn needs_no_rename(api: ApiView<FnAnalysisView>) -> bool {
    api matches ApiView::Function { analysis: a, .. } && a.kind is Function
        && a.rust_rename_strategy is NoRenameNeeded
}

/// The cases in which the free functions `x` and `y`, made from the names
/// `n` and `m` that the registry handed out, come to be listed under one
/// managed identifier: one is exported under its bridge-entry name with an
/// alias, the other goes by its bridge-entry name too (exported with an
/// alias or in need of no rename), and their bridge-entry names clash; or
/// one clashes with the alias of the other.
pub open spec fn managed_names_clash(
    x: ApiView<FnAnalysisView>,
    n: Seq<char>,
    y: ApiView<FnAnalysisView>,
    m: Seq<char>,
) -> bool {
    ||| is_alias_export(x) && (is_alias_export(y) || needs_no_rename(y)) && bridge_names_clash(
        x,
        n,
        y,
        m,
    )
    ||| needs_no_rename(x) && is_alias_export(y) && bridge_names_clash(x, n, y, m)
    ||| clashes_with_alias(x, y)
    ||| clashes_with_alias(y, x)
}

/// Uniqueness of managed names: two free functions among the results of a
/// run are listed under one managed identifier in the cases of
/// [`managed_names_clash`] and in no other. In particular two free
/// functions that both go by their managed names are always listed under
/// different identifiers. (Methods are reached through their owning types
/// and share names across types.)
pub proof fn law_managed_names_distinct(s: AnalyzerView, apis: Seq<ApiView<()>>, i: int, j: int)
    requires
        s.wf(),
        0 <= i < j < run(s, apis).len(),
        is_free_function(run(s, apis)[i]),
        is_free_function(run(s, apis)[j]),
    ensures
        i < j < handed_out(s, apis).len(),
        handed_out(s, apis)[i] is Some,
        handed_out(s, apis)[j] is Some,
        managed_id(run(s, apis)[i]) == managed_id(run(s, apis)[j]) <==> managed_names_clash(
            run(s, apis)[i],
            handed_out(s, apis)[i]->0,
            run(s, apis)[j],
            handed_out(s, apis)[j]->0,
        ),
        !is_alias_export(run(s, apis)[i]) && !is_alias_export(run(s, apis)[j]) ==> managed_id(
            run(s, apis)[i],
        ) != managed_id(run(s, apis)[j]),
{
    lemma_function_is_no_extra(s, apis, i);
    lemma_function_is_no_extra(s, apis, j);
    lemma_managed_names(s, apis);
    law_bridge_names_distinct(s, apis, i, j);
    let b = batch(s, apis);
    let x = b.results[i];
    let y = b.results[j];
    assert(is_free_function(x) && is_free_function(y));
    let wx = lemma_result_origin(s, apis, i);
    lemma_free_function_names(wx.0, wx.1, wx.2);
    let wy = lemma_result_origin(s, apis, j);
    lemma_free_function_names(wy.0, wy.1, wy.2);
}

/// The analyser of a fresh run is well formed.
pub proof fn lemma_initial_state_wf(
    apis: Seq<ApiView<()>>,
    unsafe_policy: UnsafePolicy,
    config: ConfigView,
    known: KnownTypesView,
)
    ensures
        initial_state(apis, unsafe_policy, config, known).wf(),
{
    lemma_pod_safe_types_are_a_set(apis, known);
}

/// Uniqueness, for a whole run with fresh registries: two functions among
/// its results have one bridge-entry name in the cases of
/// [`bridge_names_clash`] and in no other, and two free functions among
/// them are listed under one managed identifier in the cases of
/// [`managed_names_clash`] and in no other.
pub proof fn law_fresh_run_names_distinct(
    apis: Seq<ApiView<()>>,
    unsafe_policy: UnsafePolicy,
    config: ConfigView,
    known: KnownTypesView,
    i: int,
    j: int,
)
    requires
        ({
            let results = run(initial_state(apis, unsafe_policy, config, known), apis);
            &&& 0 <= i < j < results.len()
            &&& results[i] is Function
            &&& results[j] is Function
        }),
    ensures
        ({
            let s = initial_state(apis, unsafe_policy, config, known);
            let results = run(s, apis);
            let t = handed_out(s, apis);
            &&& i < j < t.len() && t[i] is Some && t[j] is Some && t[i] != t[j]
            &&& results[i]->Function_analysis.cxxbridge_name
                == results[j]->Function_analysis.cxxbridge_name <==> bridge_names_clash(
                results[i],
                t[i]->0,
                results[j],
                t[j]->0,
            )
            &&& is_free_function(results[i]) && is_free_function(results[j]) ==> (managed_id(
                results[i],
            ) == managed_id(results[j]) <==> managed_names_clash(
                results[i],
                t[i]->0,
                results[j],
                t[j]->0,
            ))
        }),
{
    let s = initial_state(apis, unsafe_policy, config, known);
    lemma_initial_state_wf(apis, unsafe_policy, config, known);
    law_bridge_names_distinct(s, apis, i, j);
    let results = run(s, apis);
    if is_free_function(results[i]) && is_free_function(results[j]) {
        law_managed_names_distinct(s, apis, i, j);
    }
}

/// `name` does not end in a decimal digit.
pub open spec fn ends_in_no_digit(name: Seq<char>) -> bool {
    name.len() == 0 || !is_digit(name.last())
}

/// Two names that do not end in digits and that are equal once numbers
/// are written behind them are equal, and so are the numbers.
pub proof fn lemma_suffixed_injective(a: Seq<char>, k: nat, b: Seq<char>, m: nat)
    requires
        ends_in_no_digit(a),
        ends_in_no_digit(b),
        suffixed(a, k) == suffixed(b, m),
    ensures
        a == b,
        k == m,
{
    let da = if k == 0 {
        Seq::<char>::empty()
    } else {
        decimal_digits(k)
    };
    let db = if m == 0 {
        Seq::<char>::empty()
    } else {
        decimal_digits(m)
    };
    lemma_decimal_ends_in_digit(k);
    lemma_decimal_ends_in_digit(m);
    lemma_decimal_round_trip(k);
    lemma_decimal_round_trip(m);
    let whole = a + da;
    assert(suffixed(a, k) =~= a + da);
    assert(suffixed(b, m) =~= b + db);
    assert(whole == b + db);
    if a.len() < b.len() {
        let at = b.len() - 1;
        assert(whole[at] == b.last());
        assert(whole[at] == da[at - a.len()]);
        assert(is_digit(da[at - a.len()]));
        assert(false);
    }
    if b.len() < a.len() {
        let at = a.len() - 1;
        assert(whole[at] == a.last());
        assert(whole[at] == db[at - b.len()]);
        assert(is_digit(db[at - b.len()]));
        assert(false);
    }
    assert(a =~= whole.subrange(0, a.len() as int));
    assert(b =~= whole.subrange(0, b.len() as int));
    assert(da =~= whole.skip(a.len() as int));
    assert(db =~= whole.skip(b.len() as int));
    if k != 0 && m != 0 {
        lemma_decimal_injective(k, m);
    }
}

/// The earlier a request stands in the log, the fewer of its kind came
/// before it.
pub proof fn lemma_occurrences_grow(log: Seq<OverloadKey>, i: int, j: int, key: OverloadKey)
    requires
        0 <= i < j <= log.len(),
        log[i] == key,
    ensures
        occurrences(log.take(i), key) < occurrences(log.take(j), key),
    decreases j - i,
{
    assert(log.take(j).drop_last() =~= log.take(j - 1));
    assert(log.take(j).last() == log[j - 1]);
    if j - 1 == i {
    } else {
        lemma_occurrences_grow(log, i, j - 1, key);
    }
}

/// Uniqueness within one owner: the names that the overload registry
/// gives to two requests of one namespace and one owning type (or to two
/// free functions of one namespace) differ, provided neither ideal name
/// ends in a decimal digit.
pub proof fn law_overload_names_distinct(log: Seq<OverloadKey>, i: int, j: int)
    requires
        0 <= i < j < log.len(),
        log[i].ns == log[j].ns,
        log[i].owner == log[j].owner,
        ends_in_no_digit(log[i].name),
        ends_in_no_digit(log[j].name),
    ensures
        suffixed(log[i].name, occurrences(log.take(i), log[i])) != suffixed(
            log[j].name,
            occurrences(log.take(j), log[j]),
        ),
{
    let a = suffixed(log[i].name, occurrences(log.take(i), log[i]));
    let b = suffixed(log[j].name, occurrences(log.take(j), log[j]));
    if a == b {
        lemma_suffixed_injective(
            log[i].name,
            occurrences(log.take(i), log[i]),
            log[j].name,
            occurrences(log.take(j), log[j]),
        );
        assert(log[i] == log[j]);
        lemma_occurrences_grow(log, i, j, log[i]);
    }
}

} // verus!
