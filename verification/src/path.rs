//! Paths below the install directory, as text.

use vstd::prelude::*;

verus! {

/// The path of the entry `name` directly under the directory `base`.
pub open spec fn child_path(base: Seq<char>, name: Seq<char>) -> Seq<char> {
    base + "/"@ + name
}

/// The path of the entry `name` directly under the directory `base`.
pub fn child(base: &str, name: &str) -> (path: String)
    ensures
        path@ == child_path(base@, name@),
{
    let mut path = base.to_owned();
    path.append("/");
    path.append(name);
    path
}

} // verus!
