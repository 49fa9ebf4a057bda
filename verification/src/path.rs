use vstd::prelude::*;
use vstd::string::*;

verus! {

/// The path obtained by extending `base` with `rel`.
///
/// A `rel` that begins at the root stands alone. Otherwise `rel` follows
/// `base`, with one `/` between them unless `base` is empty or already ends
/// in one.
pub open spec fn join_spec(base: Seq<char>, rel: Seq<char>) -> Seq<char> {
    if rel.len() > 0 && rel[0] == '/' {
        rel
    } else if base.len() == 0 || base.last() == '/' {
        base + rel
    } else {
        base + seq!['/'] + rel
    }
}

/// An absolute path begins at the root.
pub open spec fn is_absolute(path: Seq<char>) -> bool {
    path.len() > 0 && path[0] == '/'
}

/// Extending an absolute path gives an absolute path.
pub proof fn lemma_join_keeps_absolute(base: Seq<char>, rel: Seq<char>)
    requires
        is_absolute(base),
    ensures
        is_absolute(join_spec(base, rel)),
{
}

/// What `join_spec` puts in front of a `rel` whose first character is `first`.
pub open spec fn join_prefix(base: Seq<char>, first: char) -> Seq<char> {
    if first == '/' {
        Seq::<char>::empty()
    } else if base.len() == 0 || base.last() == '/' {
        base
    } else {
        base + seq!['/']
    }
}

/// Joining is prefixing, and the prefix depends on `rel` only through its
/// first character.
pub proof fn lemma_join_is_prefixing(base: Seq<char>, rel: Seq<char>)
    requires
        rel.len() > 0,
    ensures
        join_spec(base, rel) == join_prefix(base, rel[0]) + rel,
{
}

/// Extends the path `base` with `rel`.
pub fn join_path(base: &str, rel: &str) -> (r: String)
    ensures
        r@ == join_spec(base@, rel@),
{
    let base_len: usize = base.unicode_len();
    let rel_len: usize = rel.unicode_len();
    if rel_len > 0 && rel.get_char(0) == '/' {
        return String::from_str(rel);
    }
    let mut out = String::from_str(base);
    if base_len > 0 && base.get_char(base_len - 1) != '/' {
        proof {
            reveal_strlit("/");
        }
        out.append("/");
    }
    out.append(rel);
    out
}

} // verus!
