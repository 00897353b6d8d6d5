//! Paths of the build, held as text.

use crate::text::str_ends_with;
use vstd::prelude::*;
use vstd::string::*;

verus! {

/// The path of the entry `name` in the directory `dir`: the two joined by
/// one `/`, which is left out where `dir` is empty or ends in one already.
pub open spec fn child_path(dir: Seq<char>, name: Seq<char>) -> Seq<char> {
    if dir.len() == 0 || dir.last() == '/' {
        dir + name
    } else {
        dir + seq!['/'] + name
    }
}

/// The path of the entry `name` in the directory `dir`.
pub fn join(dir: &str, name: &str) -> (path: String)
    ensures
        path@ == child_path(dir@, name@),
{
    let mut path = String::from_str(dir);
    proof {
        reveal_strlit("/");
        if dir@.len() > 0 {
            let tail = dir@.subrange(dir@.len() - 1, dir@.len() as int);
            assert(tail[0] == dir@.last());
            assert(dir@.last() == '/' ==> tail =~= "/"@);
        }
    }
    if !dir.is_empty() && !str_ends_with(dir, "/") {
        path.append("/");
    }
    path.append(name);
    path
}

} // verus!
