//! Path construction: a base directory and a chain of names are joined with
//! `/` separators. No name is sanitized; validation of ancestors happens at
//! run time, through the plan's existence-check steps.

use vstd::prelude::*;
use vstd::string::StringExecFns;

verus! {

/// The path of `name` directly under `base`.
pub open spec fn spec_join(base: Seq<char>, name: Seq<char>) -> Seq<char> {
    base + "/"@ + name
}

/// Joins one name onto a base path with a `/` separator.
pub fn join(base: &str, name: &str) -> (r: String)
    ensures
        r@ == spec_join(base@, name@),
{
    let mut s = base.to_owned();
    s.append("/");
    s.append(name);
    s
}

} // verus!
