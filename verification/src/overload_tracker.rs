//! The registry of overloads. Declarations of one namespace and one owning
//! type that share an ideal name get that name with a running number behind
//! it, in the order in which they are seen.

use crate::names::Namespace;
use crate::text::{concat2, decimal, decimal_digits, same_text, starts_with, tail_from};
use vstd::prelude::*;

verus! {

/// What overloads are counted by: the namespace, the owning type if the
/// declaration is a method, and the ideal name.
pub struct OverloadKey {
    pub ns: Seq<Seq<char>>,
    pub owner: Option<Seq<char>>,
    pub name: Seq<char>,
}

/// How often `key` stands in `log`.
pub open spec fn occurrences(log: Seq<OverloadKey>, key: OverloadKey) -> nat
    decreases log.len(),
{
    if log.len() == 0 {
        0
    } else {
        occurrences(log.drop_last(), key) + if log.last() == key {
            1nat
        } else {
            0nat
        }
    }
}

/// The name of the overload that `k` others of the same ideal name came before.
pub open spec fn suffixed(name: Seq<char>, k: nat) -> Seq<char> {
    if k == 0 {
        name
    } else {
        name + decimal_digits(k)
    }
}

/// The ideal name of a method without the owning type and underscore that
/// the front end may have put before it.
pub open spec fn without_owner_prefix(owner: Seq<char>, ideal: Seq<char>) -> Seq<char> {
    if (owner + "_"@).is_prefix_of(ideal) {
        ideal.skip((owner + "_"@).len() as int)
    } else {
        ideal
    }
}

struct OverloadRequest {
    ns: Namespace,
    owner: Option<String>,
    name: String,
}

impl View for OverloadRequest {
    type V = OverloadKey;

    closed spec fn view(&self) -> OverloadKey {
        OverloadKey { ns: self.ns@, owner: self.owner.deep_view(), name: self.name@ }
    }
}

impl DeepView for OverloadRequest {
    type V = OverloadKey;

    closed spec fn deep_view(&self) -> OverloadKey {
        self@
    }
}

impl OverloadRequest {
    fn is_for(&self, ns: &Namespace, owner: &Option<String>, name: &str) -> (r: bool)
        ensures
            r == (self@ == OverloadKey { ns: ns@, owner: owner.deep_view(), name: name@ }),
    {
        let same_owner = match (&self.owner, owner) {
            (Some(a), Some(b)) => same_text(a.as_str(), b.as_str()),
            (None, None) => true,
            _ => false,
        };
        same_owner && same_text(self.name.as_str(), name) && self.ns.same(ns)
    }
}

/// Every request for a name that the registry has answered, oldest first.
pub struct OverloadTracker {
    log: Vec<OverloadRequest>,
}

impl View for OverloadTracker {
    type V = Seq<OverloadKey>;

    closed spec fn view(&self) -> Seq<OverloadKey> {
        self.log.deep_view()
    }
}

impl OverloadTracker {
    /// A registry that has seen nothing.
    pub fn new() -> (r: OverloadTracker)
        ensures
            r@ == Seq::<OverloadKey>::empty(),
    {
        let r = OverloadTracker { log: Vec::new() };
        assert(r@ =~= Seq::<OverloadKey>::empty());
        r
    }

    /// How many requests the registry has answered.
    pub fn len(&self) -> (r: usize)
        ensures
            r == self@.len(),
    {
        self.log.len()
    }

    fn get_name(&mut self, ns: &Namespace, owner: Option<String>, name: String) -> (r: String)
        ensures
            r@ == suffixed(
                name@,
                occurrences(
                    old(self)@,
                    OverloadKey { ns: ns@, owner: owner.deep_view(), name: name@ },
                ),
            ),
            final(self)@ == old(self)@.push(
                OverloadKey { ns: ns@, owner: owner.deep_view(), name: name@ },
            ),
    {
        let ghost key = OverloadKey { ns: ns@, owner: owner.deep_view(), name: name@ };
        let ghost log = self@;
        let mut count: usize = 0;
        let mut i: usize = 0;
        while i < self.log.len()
            invariant
                self@ == log,
                i <= self.log.len(),
                count <= i,
                count == occurrences(log.take(i as int), key),
                key == (OverloadKey { ns: ns@, owner: owner.deep_view(), name: name@ }),
            decreases self.log.len() - i,
        {
            assert(log.take(i + 1).drop_last() =~= log.take(i as int));
            assert(log.take(i + 1).last() == log[i as int]);
            if self.log[i].is_for(ns, &owner, name.as_str()) {
                count += 1;
            }
            i += 1;
        }
        assert(log.take(log.len() as int) =~= log);
        let r = if count == 0 {
            name.clone()
        } else {
            concat2(name.as_str(), decimal(count).as_str())
        };
        self.log.push(OverloadRequest { ns: ns.clone(), owner, name });
        assert(self.log.deep_view() =~= log.push(key));
        r
    }

    /// The managed name of a free function of namespace `ns` whose ideal name
    /// is `found_name`.
    pub fn get_function_real_name(&mut self, ns: &Namespace, found_name: String) -> (r: String)
        ensures
            r@ == suffixed(
                found_name@,
                occurrences(old(self)@, OverloadKey { ns: ns@, owner: None, name: found_name@ }),
            ),
            final(self)@ == old(self)@.push(
                OverloadKey { ns: ns@, owner: None, name: found_name@ },
            ),
    {
        self.get_name(ns, None, found_name)
    }

    /// The managed name of a method of type `owner` in namespace `ns` whose
    /// ideal name is `found_name`: the owning type is taken off its front,
    /// and overloads are counted among the methods of that type.
    pub fn get_method_real_name(&mut self, ns: &Namespace, owner: &str, found_name: String) -> (r:
        String)
        ensures
            r@ == suffixed(
                without_owner_prefix(owner@, found_name@),
                occurrences(
                    old(self)@,
                    OverloadKey {
                        ns: ns@,
                        owner: Some(owner@),
                        name: without_owner_prefix(owner@, found_name@),
                    },
                ),
            ),
            final(self)@ == old(self)@.push(
                OverloadKey {
                    ns: ns@,
                    owner: Some(owner@),
                    name: without_owner_prefix(owner@, found_name@),
                },
            ),
    {
        let prefix = concat2(owner, "_");
        let name = if starts_with(found_name.as_str(), prefix.as_str()) {
            tail_from(found_name.as_str(), prefix.as_str().unicode_len())
        } else {
            found_name
        };
        self.get_name(ns, Some(String::from_str(owner)), name)
    }
}

} // verus!
