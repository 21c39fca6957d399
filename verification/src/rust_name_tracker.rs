//! The registry of managed names. Managed names of free functions share one
//! flat space; a name can be claimed once.

use crate::names::contains_text;
use vstd::prelude::*;

verus! {

/// The managed names claimed so far, oldest first.
pub struct RustNameTracker {
    names: Vec<String>,
}

impl View for RustNameTracker {
    type V = Seq<Seq<char>>;

    closed spec fn view(&self) -> Seq<Seq<char>> {
        self.names.deep_view()
    }
}

/// The claimed names after `name` was asked for.
pub open spec fn claim(claimed: Seq<Seq<char>>, name: Seq<char>) -> Seq<Seq<char>> {
    if claimed.contains(name) {
        claimed
    } else {
        claimed.push(name)
    }
}

impl RustNameTracker {
    /// A registry in which every name is free.
    pub fn new() -> (r: RustNameTracker)
        ensures
            r@ == Seq::<Seq<char>>::empty(),
    {
        let r = RustNameTracker { names: Vec::new() };
        assert(r@ =~= Seq::<Seq<char>>::empty());
        r
    }

    /// Claims `rust_name` and says whether it was still free.
    pub fn ok_to_use_rust_name(&mut self, rust_name: &str) -> (r: bool)
        ensures
            r == !old(self)@.contains(rust_name@),
            final(self)@ == claim(old(self)@, rust_name@),
    {
        if contains_text(&self.names, rust_name) {
            false
        } else {
            self.names.push(String::from_str(rust_name));
            assert(self.names.deep_view() =~= old(self).names.deep_view().push(rust_name@));
            true
        }
    }
}

} // verus!
