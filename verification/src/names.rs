//! Namespaces and namespace-qualified names of native items.

use crate::text::{join, joined, same_text};
use vstd::prelude::*;

verus! {

/// A path of nested native namespaces, outermost first. The root namespace is
/// the empty path.
#[derive(Debug)]
pub struct Namespace {
    pub segments: Vec<String>,
}

impl View for Namespace {
    type V = Seq<Seq<char>>;

    open spec fn view(&self) -> Seq<Seq<char>> {
        self.segments.deep_view()
    }
}

impl DeepView for Namespace {
    type V = Seq<Seq<char>>;

    open spec fn deep_view(&self) -> Seq<Seq<char>> {
        self@
    }
}

/// The model of a qualified name: its namespace path and its final item.
pub struct QName {
    pub ns: Seq<Seq<char>>,
    pub name: Seq<char>,
}

/// The identity of a native item: the namespace it lives in and its own name.
#[derive(Debug)]
pub struct QualifiedName {
    pub ns: Namespace,
    pub name: String,
}

impl View for QualifiedName {
    type V = QName;

    open spec fn view(&self) -> QName {
        QName { ns: self.ns@, name: self.name@ }
    }
}

impl DeepView for QualifiedName {
    type V = QName;

    open spec fn deep_view(&self) -> QName {
        self@
    }
}

/// The separator between the segments of a native path.
pub open spec fn path_separator() -> Seq<char> {
    "::"@
}

impl QName {
    /// The name as native code writes it: all segments joined by `::`.
    pub open spec fn cpp_name(self) -> Seq<char> {
        joined(self.ns.push(self.name), path_separator())
    }

    /// Whether this is the opaque placeholder that stands for "no type".
    pub open spec fn is_cvoid(self) -> bool {
        &&& self.ns.len() == 3
        &&& self.ns[0] == "std"@
        &&& self.ns[1] == "os"@
        &&& self.ns[2] == "raw"@
        &&& self.name == "c_void"@
    }
}

/// `names` with `name` added at the end, unless it is there already.
pub open spec fn with_name(names: Seq<QName>, name: QName) -> Seq<QName> {
    if names.contains(name) {
        names
    } else {
        names.push(name)
    }
}

/// `names` with each of `more` added in turn, unless it is there already.
pub open spec fn with_names(names: Seq<QName>, more: Seq<QName>) -> Seq<QName>
    decreases more.len(),
{
    if more.len() == 0 {
        names
    } else {
        with_name(with_names(names, more.drop_last()), more.last())
    }
}

/// `texts` with `text` added at the end, unless it is there already.
pub open spec fn with_text(texts: Seq<Seq<char>>, text: Seq<char>) -> Seq<Seq<char>> {
    if texts.contains(text) {
        texts
    } else {
        texts.push(text)
    }
}

/// Adding an item to a list that holds nothing twice, unless it is there,
/// gives a list that holds nothing twice.
pub proof fn lemma_added_once<A>(items: Seq<A>, item: A)
    requires
        items.no_duplicates(),
        !items.contains(item),
    ensures
        items.push(item).no_duplicates(),
{
    let grown = items.push(item);
    assert forall|i: int, j: int| 0 <= i < grown.len() && 0 <= j < grown.len() && i != j implies grown[i]
        != grown[j] by {
        if i < items.len() {
            assert(items.contains(grown[i]));
        }
        if j < items.len() {
            assert(items.contains(grown[j]));
        }
    }
}

/// A list that names are added to with [`with_names`] keeps holding
/// nothing twice.
pub proof fn lemma_with_names_no_duplicates(names: Seq<QName>, more: Seq<QName>)
    requires
        names.no_duplicates(),
    ensures
        with_names(names, more).no_duplicates(),
    decreases more.len(),
{
    if more.len() > 0 {
        lemma_with_names_no_duplicates(names, more.drop_last());
        let before = with_names(names, more.drop_last());
        if !before.contains(more.last()) {
            lemma_added_once(before, more.last());
        }
    }
}

/// A copy of a list of strings.
pub fn clone_strings(v: &Vec<String>) -> (r: Vec<String>)
    ensures
        r.deep_view() == v.deep_view(),
{
    let mut r: Vec<String> = Vec::new();
    let mut i: usize = 0;
    while i < v.len()
        invariant
            i <= v.len(),
            r.len() == i,
            forall|k: int| 0 <= k < i ==> r[k]@ == v[k]@,
        decreases v.len() - i,
    {
        r.push(v[i].clone());
        i += 1;
    }
    assert(r.deep_view() =~= v.deep_view());
    r
}

/// Whether two lists of strings hold the same texts in the same order.
pub fn same_strings(a: &Vec<String>, b: &Vec<String>) -> (r: bool)
    ensures
        r == (a.deep_view() == b.deep_view()),
{
    if a.len() != b.len() {
        assert(a.deep_view().len() != b.deep_view().len());
        return false;
    }
    let mut i: usize = 0;
    while i < a.len()
        invariant
            a.len() == b.len(),
            i <= a.len(),
            forall|k: int| 0 <= k < i ==> a[k]@ == b[k]@,
        decreases a.len() - i,
    {
        if !same_text(a[i].as_str(), b[i].as_str()) {
            assert(a.deep_view()[i as int] != b.deep_view()[i as int]);
            return false;
        }
        i += 1;
    }
    assert(a.deep_view() =~= b.deep_view());
    true
}

impl Namespace {
    /// The root namespace.
    pub fn new() -> (r: Namespace)
        ensures
            r@ == Seq::<Seq<char>>::empty(),
    {
        let r = Namespace { segments: Vec::new() };
        assert(r@ =~= Seq::<Seq<char>>::empty());
        r
    }

    /// The namespace with the given path, outermost segment first.
    pub fn from_segments(segments: Vec<String>) -> (r: Namespace)
        ensures
            r@ == segments.deep_view(),
    {
        Namespace { segments }
    }

    /// Whether both are the same path.
    pub fn same(&self, other: &Namespace) -> (r: bool)
        ensures
            r == (self@ == other@),
    {
        same_strings(&self.segments, &other.segments)
    }
}

impl Clone for Namespace {
    fn clone(&self) -> (r: Namespace)
        ensures
            r@ == self@,
    {
        Namespace { segments: clone_strings(&self.segments) }
    }
}

impl QualifiedName {
    /// The item `name` of namespace `ns`.
    pub fn new(ns: &Namespace, name: String) -> (r: QualifiedName)
        ensures
            r@ == (QName { ns: ns@, name: name@ }),
    {
        QualifiedName { ns: ns.clone(), name }
    }

    /// The namespace that the item lives in.
    pub fn get_namespace(&self) -> (r: &Namespace)
        ensures
            r@ == self@.ns,
    {
        &self.ns
    }

    /// The item's own name, without its namespace.
    pub fn get_final_item(&self) -> (r: &str)
        ensures
            r@ == self@.name,
    {
        self.name.as_str()
    }

    /// The name as native code writes it: all segments joined by `::`.
    pub fn to_cpp_name(&self) -> (r: String)
        ensures
            r@ == self@.cpp_name(),
    {
        let mut parts = clone_strings(&self.ns.segments);
        parts.push(self.name.clone());
        proof {
            assert(parts.deep_view() =~= self@.ns.push(self@.name));
        }
        join(&parts, "::")
    }

    /// Whether this is the opaque placeholder that stands for "no type".
    pub fn is_cvoid(&self) -> (r: bool)
        ensures
            r == self@.is_cvoid(),
    {
        let segs = &self.ns.segments;
        segs.len() == 3 && same_text(segs[0].as_str(), "std") && same_text(segs[1].as_str(), "os")
            && same_text(segs[2].as_str(), "raw") && same_text(self.name.as_str(), "c_void")
    }

    /// Whether both name the same item.
    pub fn same(&self, other: &QualifiedName) -> (r: bool)
        ensures
            r == (self@ == other@),
    {
        self.ns.same(&other.ns) && same_text(self.name.as_str(), other.name.as_str())
    }
}

impl Clone for QualifiedName {
    fn clone(&self) -> (r: QualifiedName)
        ensures
            r@ == self@,
    {
        QualifiedName { ns: self.ns.clone(), name: self.name.clone() }
    }
}

/// Whether `names` holds `name`.
pub fn contains_name(names: &Vec<QualifiedName>, name: &QualifiedName) -> (r: bool)
    ensures
        r == names.deep_view().contains(name@),
{
    let mut i: usize = 0;
    while i < names.len()
        invariant
            i <= names.len(),
            forall|k: int| 0 <= k < i ==> names[k]@ != name@,
        decreases names.len() - i,
    {
        if names[i].same(name) {
            assert(names.deep_view()[i as int] == name@);
            return true;
        }
        i += 1;
    }
    false
}

/// Whether `texts` holds `text`.
pub fn contains_text(texts: &Vec<String>, text: &str) -> (r: bool)
    ensures
        r == texts.deep_view().contains(text@),
{
    let mut i: usize = 0;
    while i < texts.len()
        invariant
            i <= texts.len(),
            forall|k: int| 0 <= k < i ==> texts[k]@ != text@,
        decreases texts.len() - i,
    {
        if same_text(texts[i].as_str(), text) {
            assert(texts.deep_view()[i as int] == text@);
            return true;
        }
        i += 1;
    }
    false
}

/// A copy of a list of names.
pub fn clone_names(v: &Vec<QualifiedName>) -> (r: Vec<QualifiedName>)
    ensures
        r.deep_view() == v.deep_view(),
{
    let mut r: Vec<QualifiedName> = Vec::new();
    let mut i: usize = 0;
    while i < v.len()
        invariant
            i <= v.len(),
            r.len() == i,
            forall|k: int| 0 <= k < i ==> r[k]@ == v[k]@,
        decreases v.len() - i,
    {
        r.push(v[i].clone());
        i += 1;
    }
    assert(r.deep_view() =~= v.deep_view());
    r
}

/// Adds `text` to `texts` unless it is there already.
pub fn add_text(texts: &mut Vec<String>, text: String)
    ensures
        final(texts).deep_view() == with_text(old(texts).deep_view(), text@),
{
    if !contains_text(texts, text.as_str()) {
        texts.push(text);
        assert(texts.deep_view() =~= old(texts).deep_view().push(text@));
    }
}

/// Adds `name` to `names` unless it is there already.
pub fn add_name(names: &mut Vec<QualifiedName>, name: &QualifiedName)
    ensures
        final(names).deep_view() == with_name(old(names).deep_view(), name@),
{
    if !contains_name(names, name) {
        names.push(name.clone());
        assert(names.deep_view() =~= old(names).deep_view().push(name@));
    }
}

/// Adds each of `more` to `names` unless it is there already.
pub fn add_names(names: &mut Vec<QualifiedName>, more: &Vec<QualifiedName>)
    ensures
        final(names).deep_view() == with_names(old(names).deep_view(), more.deep_view()),
{
    let mut i: usize = 0;
    assert(more.deep_view().take(0) =~= Seq::<QName>::empty());
    while i < more.len()
        invariant
            i <= more.len(),
            names.deep_view() == with_names(old(names).deep_view(), more.deep_view().take(i as int)),
        decreases more.len() - i,
    {
        assert(more.deep_view().take(i + 1).drop_last() =~= more.deep_view().take(i as int));
        assert(more.deep_view().take(i + 1).last() == more[i as int]@);
        add_name(names, &more[i]);
        i += 1;
    }
    assert(more.deep_view().take(more.len() as int) =~= more.deep_view());
}

/// A copy of an optional name.
pub fn clone_opt_name(v: &Option<QualifiedName>) -> (r: Option<QualifiedName>)
    ensures
        r.deep_view() == v.deep_view(),
{
    match v {
        Some(q) => Some(q.clone()),
        None => None,
    }
}

/// A copy of an optional text.
pub fn clone_opt_text(v: &Option<String>) -> (r: Option<String>)
    ensures
        r.deep_view() == v.deep_view(),
{
    match v {
        Some(q) => Some(q.clone()),
        None => None,
    }
}

} // verus!
