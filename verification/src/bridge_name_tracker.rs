//! The registry of bridge names. The bridge layer is one flat namespace for
//! the whole run, so every name that this registry hands out is new.

use crate::names::{clone_strings, contains_text, lemma_added_once, Namespace};
use crate::text::{
    concat3, decimal, decimal_digits, join, joined, lemma_decimal_injective,
    lemma_decimal_round_trip,
};
use vstd::prelude::*;
use vstd::set_lib::{lemma_int_range, lemma_len_subset, set_int_range};

verus! {

/// The proposed name, qualified by its namespace and owning type: all parts
/// joined by single underscores.
pub open spec fn qualified(
    owner: Option<Seq<char>>,
    found_name: Seq<char>,
    ns: Seq<Seq<char>>,
) -> Seq<char> {
    match owner {
        Some(t) => joined(ns.push(t).push(found_name), "_"@),
        None => joined(ns.push(found_name), "_"@),
    }
}

/// The `n`-th numbered variant of a qualified name.
pub open spec fn numbered(prefix: Seq<char>, n: nat) -> Seq<char> {
    prefix + "_autocxx"@ + decimal_digits(n)
}

/// `n` is the least number from 1 on whose variant of `prefix` is not in `issued`.
pub open spec fn is_first_free(issued: Seq<Seq<char>>, prefix: Seq<char>, n: nat) -> bool {
    &&& n >= 1
    &&& !issued.contains(numbered(prefix, n))
    &&& forall|m: nat| 1 <= m < n ==> issued.contains(#[trigger] numbered(prefix, m))
}

/// The least number from 1 on whose variant of `prefix` is not in `issued`.
pub open spec fn first_free(issued: Seq<Seq<char>>, prefix: Seq<char>) -> nat {
    choose|n: nat| is_first_free(issued, prefix, n)
}

/// The name that the registry hands out for a proposal when `issued` are the
/// names it has handed out before: the proposal itself if that is new, else
/// its qualified form if that is new, else the first numbered variant of the
/// qualified form that is new.
pub open spec fn unique_name(
    issued: Seq<Seq<char>>,
    owner: Option<Seq<char>>,
    found_name: Seq<char>,
    ns: Seq<Seq<char>>,
) -> Seq<char> {
    let prefix = qualified(owner, found_name, ns);
    if !issued.contains(found_name) {
        found_name
    } else if !issued.contains(prefix) {
        prefix
    } else {
        numbered(prefix, first_free(issued, prefix))
    }
}

/// Different numbers give different variants, and no variant is the prefix itself.
pub proof fn lemma_numbered_injective(prefix: Seq<char>, n: nat, m: nat)
    ensures
        numbered(prefix, n) == numbered(prefix, m) ==> n == m,
        numbered(prefix, n) != prefix,
{
    lemma_decimal_round_trip(n);
    let a = prefix + "_autocxx"@;
    assert(numbered(prefix, n).len() == a.len() + decimal_digits(n).len());
    assert(a.len() >= prefix.len());
    if numbered(prefix, n) == numbered(prefix, m) {
        assert(decimal_digits(n) =~= numbered(prefix, n).skip(a.len() as int));
        assert(decimal_digits(m) =~= numbered(prefix, m).skip(a.len() as int));
        lemma_decimal_injective(n, m);
    }
}

/// At most one number is the first free one.
pub proof fn lemma_first_free_unique(issued: Seq<Seq<char>>, prefix: Seq<char>, n: nat)
    requires
        is_first_free(issued, prefix, n),
    ensures
        first_free(issued, prefix) == n,
{
    let k = first_free(issued, prefix);
    assert(is_first_free(issued, prefix, k));
    if k < n {
        assert(issued.contains(numbered(prefix, k)));
    }
    if n < k {
        assert(issued.contains(numbered(prefix, n)));
    }
}

proof fn search_free(issued: Seq<Seq<char>>, prefix: Seq<char>, n: nat, hit: Set<int>) -> (r: nat)
    requires
        n >= 1,
        hit.finite(),
        hit.len() == n,
        hit.subset_of(set_int_range(0, issued.len() as int)),
        forall|j: int| #[trigger]
            hit.contains(j) ==> issued[j] == prefix || exists|m: nat|
                1 <= m < n && issued[j] == numbered(prefix, m),
        forall|m: nat| 1 <= m < n ==> issued.contains(#[trigger] numbered(prefix, m)),
    ensures
        is_first_free(issued, prefix, r),
        r <= issued.len(),
    decreases issued.len() + 1 - n,
{
    let len = issued.len() as int;
    lemma_int_range(0, len);
    lemma_len_subset(hit, set_int_range(0, len));
    if !issued.contains(numbered(prefix, n)) {
        n
    } else {
        let j = issued.index_of(numbered(prefix, n));
        if hit.contains(j) {
            lemma_numbered_injective(prefix, n, 0);
            if issued[j] != prefix {
                let m = choose|m: nat| 1 <= m < n && issued[j] == numbered(prefix, m);
                lemma_numbered_injective(prefix, n, m);
            }
            assert(false);
        }
        let grown = hit.insert(j);
        assert(grown.subset_of(set_int_range(0, len)));
        lemma_len_subset(grown, set_int_range(0, len));
        assert forall|i: int| #[trigger] grown.contains(i) implies issued[i] == prefix || exists|
            m: nat,
        |
            1 <= m < n + 1 && issued[i] == numbered(prefix, m) by {
            if i == j {
                assert(1 <= n < n + 1 && issued[i] == numbered(prefix, n));
            } else {
                assert(hit.contains(i));
                if issued[i] != prefix {
                    let m = choose|m: nat| 1 <= m < n && issued[i] == numbered(prefix, m);
                    assert(1 <= m < n + 1 && issued[i] == numbered(prefix, m));
                }
            }
        }
        search_free(issued, prefix, n + 1, grown)
    }
}

/// Whatever was handed out before, some numbered variant of a name is new,
/// and the first such variant has a number no greater than the number of
/// names handed out.
pub proof fn lemma_free_number_exists(issued: Seq<Seq<char>>, prefix: Seq<char>)
    requires
        issued.contains(prefix),
    ensures
        is_first_free(issued, prefix, first_free(issued, prefix)),
        first_free(issued, prefix) <= issued.len(),
{
    let j = issued.index_of(prefix);
    let hit = Set::<int>::empty().insert(j);
    let n = search_free(issued, prefix, 1, hit);
    lemma_first_free_unique(issued, prefix, n);
}

/// The name that the registry hands out is one it has not handed out before.
pub proof fn lemma_unique_name_is_new(
    issued: Seq<Seq<char>>,
    owner: Option<Seq<char>>,
    found_name: Seq<char>,
    ns: Seq<Seq<char>>,
)
    ensures
        !issued.contains(unique_name(issued, owner, found_name, ns)),
{
    let prefix = qualified(owner, found_name, ns);
    if issued.contains(found_name) && issued.contains(prefix) {
        lemma_free_number_exists(issued, prefix);
    }
}

/// The last part of a joined text is its end.
pub proof fn lemma_joined_ends_in_last(parts: Seq<Seq<char>>, sep: Seq<char>)
    requires
        parts.len() > 0,
    ensures
        parts.last().is_suffix_of(joined(parts, sep)),
{
    let whole = joined(parts, sep);
    let last = parts.last();
    if parts.len() == 1 {
        assert(whole.subrange(0, whole.len() as int) =~= whole);
    } else {
        let head = joined(parts.drop_last(), sep) + sep;
        assert(whole == head + last);
        assert(whole.subrange(whole.len() - last.len(), whole.len() as int) =~= last);
    }
}

/// The name that the registry hands out is at least as long as the proposal.
pub proof fn lemma_unique_name_shape(
    issued: Seq<Seq<char>>,
    owner: Option<Seq<char>>,
    found_name: Seq<char>,
    ns: Seq<Seq<char>>,
)
    ensures
        unique_name(issued, owner, found_name, ns).len() >= found_name.len(),
{
    let prefix = qualified(owner, found_name, ns);
    let parts = match owner {
        Some(t) => ns.push(t).push(found_name),
        None => ns.push(found_name),
    };
    lemma_joined_ends_in_last(parts, "_"@);
    assert(parts.last() == found_name);
    assert(prefix == joined(parts, "_"@));
}

/// The bridge names handed out so far, oldest first.
pub struct BridgeNameTracker {
    issued: Vec<String>,
}

impl View for BridgeNameTracker {
    type V = Seq<Seq<char>>;

    closed spec fn view(&self) -> Seq<Seq<char>> {
        self.issued.deep_view()
    }
}

impl BridgeNameTracker {
    /// A registry that has handed out nothing.
    pub fn new() -> (r: BridgeNameTracker)
        ensures
            r@ == Seq::<Seq<char>>::empty(),
    {
        let r = BridgeNameTracker { issued: Vec::new() };
        assert(r@ =~= Seq::<Seq<char>>::empty());
        r
    }

    /// The names handed out so far, oldest first.
    pub fn issued_names(&self) -> (r: Vec<String>)
        ensures
            r.deep_view() == self@,
    {
        clone_strings(&self.issued)
    }

    fn record(&mut self, name: &String)
        ensures
            final(self)@ == old(self)@.push(name@),
    {
        self.issued.push(name.clone());
        assert(self.issued.deep_view() =~= old(self).issued.deep_view().push(name@));
    }

    /// Hands out a name for the bridge layer that it has not handed out
    /// before: the proposal, its qualified form, or a numbered variant of
    /// that, whichever is new first.
    pub fn get_unique_cxx_bridge_name(
        &mut self,
        owner: Option<&str>,
        found_name: &str,
        ns: &Namespace,
    ) -> (r: String)
        ensures
            r@ == unique_name(old(self)@, owner.deep_view(), found_name@, ns@),
            !old(self)@.contains(r@),
            final(self)@ == old(self)@.push(r@),
            old(self)@.no_duplicates() ==> final(self)@.no_duplicates(),
    {
        proof {
            if old(self)@.no_duplicates() {
                lemma_unique_name_is_new(old(self)@, owner.deep_view(), found_name@, ns@);
                lemma_added_once(
                    old(self)@,
                    unique_name(old(self)@, owner.deep_view(), found_name@, ns@),
                );
            }
        }
        if !contains_text(&self.issued, found_name) {
            let r = String::from_str(found_name);
            self.record(&r);
            return r;
        }
        let mut parts = clone_strings(&ns.segments);
        match owner {
            Some(t) => {
                parts.push(String::from_str(t));
                assert(parts.deep_view() =~= ns@.push(t@));
            },
            None => {},
        }
        let ghost before = parts.deep_view();
        parts.push(String::from_str(found_name));
        assert(parts.deep_view() =~= before.push(found_name@));
        let prefix = join(&parts, "_");
        assert(prefix@ == qualified(owner.deep_view(), found_name@, ns@));
        if !contains_text(&self.issued, prefix.as_str()) {
            self.record(&prefix);
            return prefix;
        }
        let ghost issued = self@;
        let ghost free = first_free(issued, prefix@);
        proof {
            lemma_free_number_exists(issued, prefix@);
        }
        let mut n: usize = 1;
        loop
            invariant
                self@ == issued,
                issued == old(self)@,
                issued.len() == self.issued.len(),
                prefix@ == qualified(owner.deep_view(), found_name@, ns@),
                issued.contains(found_name@),
                issued.contains(prefix@),
                is_first_free(issued, prefix@, free),
                free == first_free(issued, prefix@),
                free <= issued.len(),
                1 <= n <= free,
            decreases free - n,
        {
            let digits = decimal(n);
            let candidate = concat3(prefix.as_str(), "_autocxx", digits.as_str());
            assert(candidate@ == numbered(prefix@, n as nat));
            if !contains_text(&self.issued, candidate.as_str()) {
                assert(n == free);
                self.record(&candidate);
                return candidate;
            }
            n += 1;
        }
    }
}

} // verus!
