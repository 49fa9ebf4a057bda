use crate::check::{check_tree, count_spec, missing_spec, tree_paths, tree_paths_spec};
use crate::spec::{Area, Node, SpecFile};
use crate::spec_loader::{expand_root, expand_root_spec};
use crate::text::{list_contains, texts};
use vstd::prelude::*;
use vstd::string::*;

verus! {

/// What a check of the layout found.
#[derive(Debug)]
pub struct DoctorReport {
    /// The required folders that are not there, in the layout's order.
    pub missing: Vec<String>,
    /// The number of areas.
    pub areas: usize,
    /// The number of required folders below the roots.
    pub required: usize,
    /// The root of each area, resolved.
    pub roots: Vec<String>,
}

/// A count cut off at the largest `usize`.
pub open spec fn saturate_count(n: nat) -> usize {
    if n > usize::MAX {
        usize::MAX
    } else {
        n as usize
    }
}

/// What one area lacks: its root alone if that is not there, else the
/// folders missing below it.
pub open spec fn area_missing(area: Area, home: Seq<char>, existing: Seq<Seq<char>>) -> Seq<
    Seq<char>,
> {
    let root = expand_root_spec(area.root@, home);
    if !existing.contains(root) {
        seq![root]
    } else {
        missing_spec(root, area.required@, existing)
    }
}

/// What the first `n` areas lack, area after area.
pub open spec fn areas_missing(
    areas: Seq<Area>,
    home: Seq<char>,
    existing: Seq<Seq<char>>,
    n: nat,
) -> Seq<Seq<char>>
    decreases n,
{
    if n == 0 || n > areas.len() {
        Seq::empty()
    } else {
        areas_missing(areas, home, existing, (n - 1) as nat) + area_missing(
            areas[n - 1],
            home,
            existing,
        )
    }
}

/// The number of folders required below the roots of the first `n` areas.
pub open spec fn areas_required(areas: Seq<Area>, n: nat) -> nat
    decreases n,
{
    if n == 0 || n > areas.len() {
        0
    } else {
        areas_required(areas, (n - 1) as nat) + count_spec(
            areas[n - 1].required@,
            areas[n - 1].required@.len(),
        )
    }
}

/// The resolved root of each area.
pub open spec fn roots_spec(areas: Seq<Area>, home: Seq<char>) -> Seq<Seq<char>> {
    Seq::new(areas.len(), |i: int| expand_root_spec(areas[i].root@, home))
}

/// Every path whose presence decides the report: for the first `n` areas,
/// the root and then the tree below it.
pub open spec fn probed_spec(areas: Seq<Area>, home: Seq<char>, n: nat) -> Seq<Seq<char>>
    decreases n,
{
    if n == 0 || n > areas.len() {
        Seq::empty()
    } else {
        let root = expand_root_spec(areas[n - 1].root@, home);
        probed_spec(areas, home, (n - 1) as nat) + seq![root] + tree_paths_spec(
            root,
            areas[n - 1].required@,
            areas[n - 1].required@.len(),
        )
    }
}

/// Counts the nodes of a tree, stopping at the largest `usize`.
pub fn count_nodes(nodes: &Vec<Node>) -> (total: usize)
    ensures
        total == saturate_count(count_spec(nodes@, nodes@.len())),
    decreases nodes,
{
    let mut total: usize = 0;
    let mut i: usize = 0;
    while i < nodes.len()
        invariant
            i <= nodes.len(),
            total == saturate_count(count_spec(nodes@, i as nat)),
        decreases nodes.len() - i,
    {
        let below: usize = count_nodes(&nodes[i].children);
        total = total.saturating_add(1).saturating_add(below);
        i += 1;
    }
    total
}

/// Lists every path whose presence `run` asks about, so that a caller can
/// look each one up before the check.
pub fn probe_paths(layout: &SpecFile, home: &str) -> (paths: Vec<String>)
    ensures
        texts(paths@) == probed_spec(layout.areas@, home@, layout.areas@.len()),
{
    let mut paths: Vec<String> = Vec::new();
    let mut i: usize = 0;
    while i < layout.areas.len()
        invariant
            i <= layout.areas.len(),
            texts(paths@) == probed_spec(layout.areas@, home@, i as nat),
        decreases layout.areas.len() - i,
    {
        let area = &layout.areas[i];
        let root = expand_root(area.root.as_str(), home);
        let mut below = tree_paths(root.as_str(), &area.required);
        paths.push(root);
        paths.append(&mut below);
        i += 1;
    }
    paths
}

/// Checks the layout against the paths that exist.
///
/// `existing` holds the paths that are there, among those that
/// `probe_paths` lists. An area whose root is missing is reported by its
/// root alone.
pub fn run(_verbose: bool, layout: &SpecFile, home: &str, existing: &Vec<String>) -> (report:
    DoctorReport)
    ensures
        texts(report.missing@) == areas_missing(
            layout.areas@,
            home@,
            texts(existing@),
            layout.areas@.len(),
        ),
        report.areas == layout.areas@.len(),
        report.required == saturate_count(areas_required(layout.areas@, layout.areas@.len())),
        texts(report.roots@) == roots_spec(layout.areas@, home@),
{
    let mut missing: Vec<String> = Vec::new();
    let mut roots: Vec<String> = Vec::new();
    let mut required: usize = 0;
    let mut i: usize = 0;
    while i < layout.areas.len()
        invariant
            i <= layout.areas.len(),
            texts(missing@) == areas_missing(layout.areas@, home@, texts(existing@), i as nat),
            required == saturate_count(areas_required(layout.areas@, i as nat)),
            texts(roots@) =~= roots_spec(layout.areas@, home@).take(i as int),
        decreases layout.areas.len() - i,
    {
        let area = &layout.areas[i];
        let root = expand_root(area.root.as_str(), home);
        let ghost roots_before = texts(roots@);
        roots.push(root.clone());
        proof {
            assert(texts(roots@) =~= roots_before.push(root@));
        }
        if !list_contains(existing, root.as_str()) {
            missing.push(root);
        } else {
            check_tree(root.as_str(), &area.required, existing, &mut missing);
        }
        required = required.saturating_add(count_nodes(&area.required));
        i += 1;
    }
    DoctorReport { missing, areas: layout.areas.len(), required, roots }
}

/// The exit code of a check: 0 if nothing is missing, 1 otherwise.
pub fn exit_code(report: &DoctorReport) -> (code: u8)
    ensures
        code == if report.missing@.len() == 0 {
            0u8
        } else {
            1u8
        },
{
    if report.missing.len() == 0 {
        0
    } else {
        1
    }
}

} // verus!
