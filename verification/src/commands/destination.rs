use crate::path::{join_path, join_prefix, join_spec, lemma_join_is_prefixing};
use crate::text::{decimal, decimal_spec, lemma_decimal_injective, list_contains, texts};
use vstd::prelude::*;
use vstd::set_lib::{lemma_int_range, lemma_len_subset, lemma_map_size, set_int_range};
use vstd::relations::injective_on;
use vstd::string::*;

verus! {

/// Whether `i` is the position of the last `.` in `name`.
pub open spec fn is_last_dot(name: Seq<char>, i: int) -> bool {
    &&& 0 <= i < name.len()
    &&& name[i] == '.'
    &&& forall|j: int| i < j < name.len() ==> name[j] != '.'
}

/// A file name cut at its last `.`: the stem before it, and the extension
/// from the dot on. A name without a dot is all stem.
pub open spec fn split_spec(name: Seq<char>) -> (Seq<char>, Seq<char>) {
    if exists|i: int| is_last_dot(name, i) {
        let i = choose|i: int| is_last_dot(name, i);
        (name.subrange(0, i), name.subrange(i, name.len() as int))
    } else {
        (name, Seq::<char>::empty())
    }
}

/// The `i`-th numbered variant of a file name: `stem (i)ext`.
pub open spec fn candidate_name(name: Seq<char>, i: nat) -> Seq<char> {
    let (stem, ext) = split_spec(name);
    stem + seq![' ', '('] + decimal_spec(i) + seq![')'] + ext
}

/// The path of the `i`-th numbered variant of `name` inside `dest_dir`.
pub open spec fn candidate(dest_dir: Seq<char>, name: Seq<char>, i: nat) -> Seq<char> {
    join_spec(dest_dir, candidate_name(name, i))
}

/// Whether `i` numbers the first variant of `name` that is not taken.
pub open spec fn is_first_free(
    dest_dir: Seq<char>,
    name: Seq<char>,
    existing: Seq<Seq<char>>,
    i: nat,
) -> bool {
    &&& i >= 1
    &&& !existing.contains(candidate(dest_dir, name, i))
    &&& forall|j: nat| 1 <= j < i ==> existing.contains(#[trigger] candidate(dest_dir, name, j))
}

/// Where a file called `name` goes in `dest_dir` without landing on one of
/// the `existing` paths: `dest_dir/name` if that is free, else the first free
/// numbered variant.
pub open spec fn unique_destination_spec(
    dest_dir: Seq<char>,
    name: Seq<char>,
    existing: Seq<Seq<char>>,
) -> Seq<char> {
    let plain = join_spec(dest_dir, name);
    if !existing.contains(plain) {
        plain
    } else {
        candidate(dest_dir, name, choose|i: nat| is_first_free(dest_dir, name, existing, i))
    }
}

/// Cuts `file_name` at its last `.`.
pub fn split_name_ext(file_name: &str) -> (r: (String, String))
    ensures
        (r.0@, r.1@) == split_spec(file_name@),
{
    let n: usize = file_name.unicode_len();
    let mut i: usize = n;
    while i > 0
        invariant
            n == file_name@.len(),
            i <= n,
            forall|j: int| i <= j < n ==> file_name@[j] != '.',
        decreases i,
    {
        i -= 1;
        if file_name.get_char(i) == '.' {
            let stem = file_name.substring_char(0, i);
            let ext = file_name.substring_char(i, n);
            proof {
                assert(is_last_dot(file_name@, i as int));
                let k = choose|k: int| is_last_dot(file_name@, k);
                assert(k == i);
            }
            return (String::from_str(stem), String::from_str(ext));
        }
    }
    (String::from_str(file_name), String::new())
}

/// Different numbers give different candidate paths.
pub proof fn lemma_candidates_distinct(dest_dir: Seq<char>, name: Seq<char>, i: nat, j: nat)
    requires
        candidate(dest_dir, name, i) == candidate(dest_dir, name, j),
    ensures
        i == j,
{
    let (stem, ext) = split_spec(name);
    let head = stem + seq![' ', '('];
    let ci = candidate_name(name, i);
    let cj = candidate_name(name, j);
    let di = decimal_spec(i);
    let dj = decimal_spec(j);
    lemma_join_is_prefixing(dest_dir, ci);
    lemma_join_is_prefixing(dest_dir, cj);
    let front = join_prefix(dest_dir, head[0]) + head;
    let full_i = candidate(dest_dir, name, i);
    let full_j = candidate(dest_dir, name, j);
    assert(full_i =~= front + di + seq![')'] + ext);
    assert(full_j =~= front + dj + seq![')'] + ext);
    assert(di.len() == dj.len());
    assert(di =~= full_i.subrange(front.len() as int, (front.len() + di.len()) as int));
    assert(dj =~= full_j.subrange(front.len() as int, (front.len() + dj.len()) as int));
    lemma_decimal_injective(i, j);
}

/// If the first `k` numbered variants are all taken, at least `k` paths
/// exist: so a free variant is found within `existing.len() + 1` probes.
pub proof fn lemma_taken_candidates_bounded(
    dest_dir: Seq<char>,
    name: Seq<char>,
    existing: Seq<Seq<char>>,
    k: nat,
)
    requires
        forall|j: nat| 1 <= j <= k ==> existing.contains(#[trigger] candidate(dest_dir, name, j)),
    ensures
        k <= existing.len(),
{
    let f = |j: int| candidate(dest_dir, name, j as nat);
    let numbers = set_int_range(1, k as int + 1);
    lemma_int_range(1, k as int + 1);
    let taken = numbers.map(f);
    assert(injective_on(f, numbers)) by {
        assert forall|a: int, b: int|
            numbers.contains(a) && numbers.contains(b) && #[trigger] f(a) == #[trigger] f(
                b,
            ) implies a == b by {
            lemma_candidates_distinct(dest_dir, name, a as nat, b as nat);
        }
    }
    lemma_map_size(numbers, taken, f);
    existing.lemma_cardinality_of_set();
    assert(taken.subset_of(existing.to_set())) by {
        assert forall|p: Seq<char>| taken.contains(p) implies existing.to_set().contains(p) by {
            let a = choose|a: int| numbers.contains(a) && f(a) == p;
            assert(existing.contains(candidate(dest_dir, name, a as nat)));
        }
    }
    vstd::seq_lib::seq_to_set_is_finite(existing);
    lemma_len_subset(taken, existing.to_set());
}

/// Some numbered variant is always free, and the first free one has a number
/// no larger than `existing.len() + 1`.
pub proof fn lemma_first_free_exists(dest_dir: Seq<char>, name: Seq<char>, existing: Seq<Seq<char>>)
    ensures
        exists|i: nat| is_first_free(dest_dir, name, existing, i) && i <= existing.len() + 1,
{
    lemma_first_free_from(dest_dir, name, existing, 1);
}

proof fn lemma_first_free_from(
    dest_dir: Seq<char>,
    name: Seq<char>,
    existing: Seq<Seq<char>>,
    start: nat,
)
    requires
        start >= 1,
        forall|j: nat| 1 <= j < start ==> existing.contains(#[trigger] candidate(dest_dir, name, j)),
    ensures
        exists|i: nat| is_first_free(dest_dir, name, existing, i) && i <= existing.len() + 1,
    decreases existing.len() + 1 - start,
{
    if existing.contains(candidate(dest_dir, name, start)) {
        lemma_taken_candidates_bounded(dest_dir, name, existing, start);
        lemma_first_free_from(dest_dir, name, existing, start + 1);
    } else {
        lemma_taken_candidates_bounded(dest_dir, name, existing, (start - 1) as nat);
        assert(is_first_free(dest_dir, name, existing, start));
    }
}

/// Only one number is the first free one.
pub proof fn lemma_first_free_unique(
    dest_dir: Seq<char>,
    name: Seq<char>,
    existing: Seq<Seq<char>>,
    a: nat,
    b: nat,
)
    requires
        is_first_free(dest_dir, name, existing, a),
        is_first_free(dest_dir, name, existing, b),
    ensures
        a == b,
{
    if a < b {
        assert(existing.contains(candidate(dest_dir, name, a)));
    } else if b < a {
        assert(existing.contains(candidate(dest_dir, name, b)));
    }
}

/// Resolves where a file called `file_name` can be put in `dest_dir` so that
/// it lands on none of the `existing` paths.
pub fn unique_destination(dest_dir: &str, file_name: &str, existing: &Vec<String>) -> (r: String)
    ensures
        r@ == unique_destination_spec(dest_dir@, file_name@, texts(existing@)),
        !texts(existing@).contains(r@),
{
    let plain = join_path(dest_dir, file_name);
    if !list_contains(existing, plain.as_str()) {
        return plain;
    }
    let (stem, ext) = split_name_ext(file_name);
    let limit: usize = existing.len();
    let mut i: u128 = 1;
    loop
        invariant
            limit == existing@.len(),
            1 <= i <= existing@.len() + 1,
            (stem@, ext@) == split_spec(file_name@),
            texts(existing@).contains(join_spec(dest_dir@, file_name@)),
            forall|j: nat|
                1 <= j < i ==> texts(existing@).contains(
                    #[trigger] candidate(dest_dir@, file_name@, j),
                ),
        decreases existing@.len() + 1 - i,
    {
        let mut name = stem.clone();
        proof {
            reveal_strlit(" (");
            reveal_strlit(")");
        }
        name.append(" (");
        name.append(decimal(i).as_str());
        name.append(")");
        name.append(ext.as_str());
        proof {
            assert(name@ =~= candidate_name(file_name@, i as nat));
        }
        let path = join_path(dest_dir, name.as_str());
        if !list_contains(existing, path.as_str()) {
            proof {
                let ghost_existing = texts(existing@);
                assert(is_first_free(dest_dir@, file_name@, ghost_existing, i as nat));
                let chosen = choose|k: nat| is_first_free(dest_dir@, file_name@, ghost_existing, k);
                lemma_first_free_unique(dest_dir@, file_name@, ghost_existing, chosen, i as nat);
            }
            return path;
        }
        proof {
            lemma_taken_candidates_bounded(dest_dir@, file_name@, texts(existing@), i as nat);
        }
        i += 1;
    }
}

} // verus!
