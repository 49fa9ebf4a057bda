use crate::path::{join_path, join_spec};
use crate::text::{starts_with, starts_with_spec};
use vstd::prelude::*;
use vstd::string::*;

verus! {

/// Where the layout is declared: a fixed file below the home directory.
pub fn spec_path(home: &str) -> (r: String)
    ensures
        r@ == join_spec(home@, "System/life-os/config/spec.json"@),
{
    join_path(home, "System/life-os/config/spec.json")
}

/// An area's root with a leading `~/` replaced by the home directory; any
/// other root is taken as it is written.
pub open spec fn expand_root_spec(root: Seq<char>, home: Seq<char>) -> Seq<char> {
    if starts_with_spec(root, seq!['~', '/']) {
        join_spec(home, root.skip(2))
    } else {
        root
    }
}

/// Resolves an area's root against the home directory.
pub fn expand_root(root: &str, home: &str) -> (r: String)
    ensures
        r@ == expand_root_spec(root@, home@),
{
    proof {
        reveal_strlit("~/");
        assert("~/"@ =~= seq!['~', '/']);
    }
    if starts_with(root, "~/") {
        let n: usize = root.unicode_len();
        let rest = root.substring_char(2, n);
        join_path(home, rest)
    } else {
        String::from_str(root)
    }
}

} // verus!
