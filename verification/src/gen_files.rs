//! The names of the files that hold generated native code.

use crate::text::{concat3, decimal, decimal_digits};
use vstd::prelude::*;

verus! {

/// Why no file can be planned.
#[derive(Clone, Copy, Debug, PartialEq, Eq, Structural)]
pub enum PlanError {
    /// Nothing was generated: the source asked for no bindings at all.
    NoIncludeCxxMacrosFound,
}

/// The name of the file that holds the generated implementation number
/// `counter`, counted from 0.
pub open spec fn file_name_for(counter: nat) -> Seq<char> {
    "gen"@ + decimal_digits(counter) + ".cxx"@
}

/// The name of the file that holds the generated implementation number
/// `counter`, counted from 0.
pub fn implementation_file_name(counter: usize) -> (r: String)
    ensures
        r@ == file_name_for(counter as nat),
{
    concat3("gen", decimal(counter).as_str(), ".cxx")
}

/// The names of the files for `count` generated implementations, in order.
/// It is an error if there is none.
pub fn implementation_file_names(count: usize) -> (r: Result<Vec<String>, PlanError>)
    ensures
        r is Err <==> count == 0,
        r matches Ok(names) ==> names.deep_view() == Seq::new(
            count as nat,
            |i: int| file_name_for(i as nat),
        ),
{
    if count == 0 {
        return Err(PlanError::NoIncludeCxxMacrosFound);
    }
    let mut names: Vec<String> = Vec::new();
    let mut i: usize = 0;
    while i < count
        invariant
            i <= count,
            names.len() == i,
            forall|k: int| 0 <= k < i ==> (#[trigger] names[k])@ == file_name_for(k as nat),
        decreases count - i,
    {
        names.push(implementation_file_name(i));
        i += 1;
    }
    assert(names.deep_view() =~= Seq::new(count as nat, |i: int| file_name_for(i as nat)));
    Ok(names)
}

} // verus!
