use crate::path::{join_path, join_spec};
use crate::spec::Node;
use crate::text::{list_contains, texts};
use vstd::prelude::*;
use vstd::string::*;

verus! {

/// The paths of the first `n` of `nodes` and of all that lies below them,
/// resolved against `base`: each node before its children, the nodes in the
/// order in which they are listed.
pub open spec fn tree_paths_spec(base: Seq<char>, nodes: Seq<Node>, n: nat) -> Seq<Seq<char>>
    decreases nodes, n,
{
    if n == 0 || n > nodes.len() {
        Seq::empty()
    } else {
        let node = nodes[n - 1];
        let path = join_spec(base, node.path@);
        tree_paths_spec(base, nodes, (n - 1) as nat) + seq![path] + tree_paths_spec(
            path,
            node.children@,
            node.children@.len(),
        )
    }
}

/// The number of the first `n` of `nodes` and of all that lies below them.
pub open spec fn count_spec(nodes: Seq<Node>, n: nat) -> nat
    decreases nodes, n,
{
    if n == 0 || n > nodes.len() {
        0
    } else {
        count_spec(nodes, (n - 1) as nat) + 1 + count_spec(
            nodes[n - 1].children@,
            nodes[n - 1].children@.len(),
        )
    }
}

/// The test that a path is not among the `existing` ones.
pub open spec fn absent_pred(existing: Seq<Seq<char>>) -> spec_fn(Seq<char>) -> bool {
    |p: Seq<char>| !existing.contains(p)
}

/// The paths of a tree that are not among the `existing` ones, in the
/// tree's order.
pub open spec fn missing_spec(
    base: Seq<char>,
    nodes: Seq<Node>,
    existing: Seq<Seq<char>>,
) -> Seq<Seq<char>> {
    tree_paths_spec(base, nodes, nodes.len()).filter(absent_pred(existing))
}

/// A tree has one path for each of its nodes.
pub proof fn lemma_one_path_per_node(base: Seq<char>, nodes: Seq<Node>, n: nat)
    ensures
        tree_paths_spec(base, nodes, n).len() == count_spec(nodes, n),
    decreases nodes, n,
{
    if 0 < n <= nodes.len() {
        let node = nodes[n - 1];
        lemma_one_path_per_node(base, nodes, (n - 1) as nat);
        lemma_one_path_per_node(
            join_spec(base, node.path@),
            node.children@,
            node.children@.len(),
        );
    }
}

/// A path is reported missing exactly if it is a path of the tree and not
/// among the existing ones.
pub proof fn lemma_missing_are_the_absent(
    base: Seq<char>,
    nodes: Seq<Node>,
    existing: Seq<Seq<char>>,
    p: Seq<char>,
)
    ensures
        missing_spec(base, nodes, existing).contains(p) <==> tree_paths_spec(
            base,
            nodes,
            nodes.len(),
        ).contains(p) && !existing.contains(p),
{
    let all = tree_paths_spec(base, nodes, nodes.len());
    let absent = absent_pred(existing);
    let missing = all.filter(absent);
    if missing.contains(p) {
        all.lemma_filter_contains_rev(absent, p);
        let at = choose|at: int| 0 <= at < missing.len() && missing[at] == p;
        all.lemma_filter_pred(absent, at);
    }
    if all.contains(p) && !existing.contains(p) {
        let at = choose|at: int| 0 <= at < all.len() && all[at] == p;
        all.lemma_filter_contains(absent, at);
    }
}

/// Where every path of the tree exists, nothing is missing.
pub proof fn lemma_nothing_missing_when_all_present(
    base: Seq<char>,
    nodes: Seq<Node>,
    existing: Seq<Seq<char>>,
)
    requires
        forall|p: Seq<char>|
            tree_paths_spec(base, nodes, nodes.len()).contains(p) ==> existing.contains(p),
    ensures
        missing_spec(base, nodes, existing) == Seq::<Seq<char>>::empty(),
{
    let missing = missing_spec(base, nodes, existing);
    if missing.len() > 0 {
        lemma_missing_are_the_absent(base, nodes, existing, missing[0]);
    }
}

/// Lists the path of every node of a tree, resolved against `base`, each
/// node before its children.
pub fn tree_paths(base: &str, nodes: &Vec<Node>) -> (paths: Vec<String>)
    ensures
        texts(paths@) == tree_paths_spec(base@, nodes@, nodes@.len()),
    decreases nodes,
{
    let mut paths: Vec<String> = Vec::new();
    let mut i: usize = 0;
    while i < nodes.len()
        invariant
            i <= nodes.len(),
            texts(paths@) == tree_paths_spec(base@, nodes@, i as nat),
        decreases nodes.len() - i,
    {
        let node = &nodes[i];
        let path = join_path(base, node.path.as_str());
        let mut below = tree_paths(path.as_str(), &node.children);
        paths.push(path);
        paths.append(&mut below);
        i += 1;
    }
    paths
}

/// Appends to `missing` every path of the tree that is not among the
/// `existing` paths, in the tree's order.
pub fn check_tree(base: &str, nodes: &Vec<Node>, existing: &Vec<String>, missing: &mut Vec<String>)
    ensures
        texts(final(missing)@) == texts(old(missing)@) + missing_spec(
            base@,
            nodes@,
            texts(existing@),
        ),
    decreases nodes,
{
    let ghost start = texts(missing@);
    let ghost absent = absent_pred(texts(existing@));
    let mut i: usize = 0;
    proof {
        Seq::<Seq<char>>::empty().lemma_filter_len(absent);
    }
    while i < nodes.len()
        invariant
            i <= nodes.len(),
            absent == absent_pred(texts(existing@)),
            texts(missing@) == start + tree_paths_spec(base@, nodes@, i as nat).filter(absent),
        decreases nodes.len() - i,
    {
        let node = &nodes[i];
        let path = join_path(base, node.path.as_str());
        let ghost done = tree_paths_spec(base@, nodes@, i as nat);
        let ghost under = tree_paths_spec(path@, node.children@, node.children@.len());
        let ghost before = texts(missing@);
        proof {
            done.lemma_filter_push(path@, absent);
            assert(done + seq![path@] =~= done.push(path@));
            Seq::filter_distributes_over_add(done + seq![path@], under, absent);
        }
        if !list_contains(existing, path.as_str()) {
            missing.push(path.clone());
            proof {
                assert(texts(missing@) =~= before.push(path@));
            }
        }
        check_tree(path.as_str(), &node.children, existing, missing);
        i += 1;
    }
}

} // verus!
