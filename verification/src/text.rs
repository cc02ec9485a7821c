use vstd::prelude::*;
use vstd::string::StringExecFns;

verus! {

/// Whether a borrowed string and an owned one hold the same characters.
pub fn string_eq(a: &str, b: &String) -> (r: bool)
    ensures
        r == (a@ == b@),
{
    let owned = String::from_str(a);
    owned == *b
}

} // verus!
