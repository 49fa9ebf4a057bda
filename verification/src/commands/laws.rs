use crate::commands::destination::{
    candidate, candidate_name, is_first_free, is_last_dot, lemma_first_free_exists,
    lemma_first_free_unique, unique_destination_spec,
};
use crate::commands::sizes::saturate;
use crate::commands::tidy::{
    is_deletable, is_hidden_name, is_screenshot, is_screenshot_name, lemma_filter_take_step,
    lemma_total_bytes_push, moves_of, old_pred, other_pred, paths_of, plan_spec,
    screenshot_pred, total_bytes, visible_pred, EntryView, ReportView,
};
use crate::path::join_spec;
use vstd::prelude::*;

verus! {

/// Any name made of `Screenshot `, some text and `.png` is a screenshot's
/// name.
pub proof fn lemma_screenshot_names(middle: Seq<char>)
    ensures
        is_screenshot_name("Screenshot "@ + middle + ".png"@),
{
    reveal_strlit("Screenshot ");
    reveal_strlit(".png");
    let name = "Screenshot "@ + middle + ".png"@;
    assert(name.subrange(0, 11) =~= "Screenshot "@);
    assert(name.subrange(name.len() - 4, name.len() as int) =~= ".png"@);
}

/// A screenshot's name is made of `Screenshot `, some text and `.png`, and of
/// nothing else: the two ends do not overlap.
pub proof fn lemma_screenshot_name_shape(name: Seq<char>)
    requires
        is_screenshot_name(name),
    ensures
        name.len() >= 15,
        name == "Screenshot "@ + name.subrange(11, name.len() - 4) + ".png"@,
{
    reveal_strlit("Screenshot ");
    reveal_strlit(".png");
    let head = name.subrange(0, 11);
    let tail = name.subrange(name.len() - 4, name.len() as int);
    assert(name[name.len() - 4] == tail[0]);
    if name.len() < 15 {
        let at = name.len() - 4;
        assert(name[at] == head[at]);
    }
}

/// Whether a desktop entry is a screenshot depends on its name and on
/// whether it is a directory, and on nothing else about it.
pub proof fn lemma_classification_by_name_only(a: EntryView, b: EntryView)
    requires
        a.name == b.name,
        a.is_directory == b.is_directory,
    ensures
        is_screenshot(a) == is_screenshot(b),
        a.is_directory ==> !is_screenshot(a),
{
}

/// Two scans agree in names if they hold, position by position, entries of
/// the same path, the same name and the same kind.
pub open spec fn same_names(a: Seq<EntryView>, b: Seq<EntryView>) -> bool {
    &&& a.len() == b.len()
    &&& forall|i: int|
        0 <= i < a.len() ==> {
            &&& (#[trigger] a[i]).path == b[i].path
            &&& a[i].name == b[i].name
            &&& a[i].is_directory == b[i].is_directory
        }
}

proof fn lemma_same_names_prefix(
    a: Seq<EntryView>,
    b: Seq<EntryView>,
    dest: Seq<char>,
    existing: Seq<Seq<char>>,
    n: int,
)
    requires
        same_names(a, b),
        0 <= n <= a.len(),
    ensures
        paths_of(a.take(n).filter(screenshot_pred())) == paths_of(
            b.take(n).filter(screenshot_pred()),
        ),
        paths_of(a.take(n).filter(other_pred())) == paths_of(b.take(n).filter(other_pred())),
        moves_of(a.take(n).filter(screenshot_pred()), dest, existing) == moves_of(
            b.take(n).filter(screenshot_pred()),
            dest,
            existing,
        ),
    decreases n,
{
    if n == 0 {
        a.take(0).lemma_filter_len(screenshot_pred());
        a.take(0).lemma_filter_len(other_pred());
        b.take(0).lemma_filter_len(screenshot_pred());
        b.take(0).lemma_filter_len(other_pred());
    } else {
        let k = n - 1;
        lemma_same_names_prefix(a, b, dest, existing, k);
        lemma_filter_take_step(a, screenshot_pred(), k);
        lemma_filter_take_step(b, screenshot_pred(), k);
        lemma_filter_take_step(a, other_pred(), k);
        lemma_filter_take_step(b, other_pred(), k);
        let sb = b.take(k).filter(screenshot_pred());
        let ob = b.take(k).filter(other_pred());
        if is_screenshot(a[k]) {
            assert(paths_of(sb.push(b[k])) =~= paths_of(sb).push(b[k].path));
            let to = unique_destination_spec(dest, a[k].name->0, existing);
            assert(moves_of(sb.push(b[k]), dest, existing) =~= moves_of(sb, dest, existing).push(
                (b[k].path, to),
            ));
        } else {
            assert(paths_of(ob.push(b[k])) =~= paths_of(ob).push(b[k].path));
        }
    }
}

/// The desktop's part of a report depends on the names, paths and kinds of
/// the desktop's entries alone: two scans that agree in those give the same
/// screenshots, the same other entries and the same moves, whatever the
/// sizes and modification times.
pub proof fn lemma_desktop_report_by_names_only(
    a: Seq<EntryView>,
    b: Seq<EntryView>,
    downloads: Seq<EntryView>,
    dest: Seq<char>,
    existing: Seq<Seq<char>>,
    delete_all: bool,
    cutoff: i128,
)
    requires
        same_names(a, b),
    ensures
        ({
            let ra = plan_spec(a, downloads, dest, existing, delete_all, cutoff);
            let rb = plan_spec(b, downloads, dest, existing, delete_all, cutoff);
            &&& ra.desktop_screenshots == rb.desktop_screenshots
            &&& ra.desktop_other == rb.desktop_other
            &&& ra.planned_moves == rb.planned_moves
        }),
{
    lemma_same_names_prefix(a, b, dest, existing, a.len() as int);
    assert(a.take(a.len() as int) =~= a);
    assert(b.take(b.len() as int) =~= b);
}

/// Every desktop entry lands in exactly one of the two desktop lists: with
/// the screenshots if it is one, with the rest if not.
pub proof fn lemma_desktop_is_partitioned(
    desktop: Seq<EntryView>,
    downloads: Seq<EntryView>,
    dest: Seq<char>,
    existing: Seq<Seq<char>>,
    delete_all: bool,
    cutoff: i128,
)
    ensures
        ({
            let r = plan_spec(desktop, downloads, dest, existing, delete_all, cutoff);
            &&& r.desktop_screenshots.len() + r.desktop_other.len() == desktop.len()
            &&& forall|i: int|
                0 <= i < desktop.len() && is_screenshot(desktop[i])
                    ==> r.desktop_screenshots.contains(#[trigger] desktop[i].path)
            &&& forall|i: int|
                0 <= i < desktop.len() && !is_screenshot(desktop[i]) ==> r.desktop_other.contains(
                    #[trigger] desktop[i].path,
                )
        }),
{
    lemma_split_lengths(desktop);
    let shots = desktop.filter(screenshot_pred());
    let rest = desktop.filter(other_pred());
    assert forall|i: int| 0 <= i < desktop.len() && is_screenshot(desktop[i]) implies paths_of(
        shots,
    ).contains(#[trigger] desktop[i].path) by {
        desktop.lemma_filter_contains(screenshot_pred(), i);
        let at = choose|at: int| 0 <= at < shots.len() && shots[at] == desktop[i];
        assert(paths_of(shots)[at] == desktop[i].path);
    }
    assert forall|i: int| 0 <= i < desktop.len() && !is_screenshot(desktop[i]) implies paths_of(
        rest,
    ).contains(#[trigger] desktop[i].path) by {
        desktop.lemma_filter_contains(other_pred(), i);
        let at = choose|at: int| 0 <= at < rest.len() && rest[at] == desktop[i];
        assert(paths_of(rest)[at] == desktop[i].path);
    }
}

proof fn lemma_split_lengths(entries: Seq<EntryView>)
    ensures
        entries.filter(screenshot_pred()).len() + entries.filter(other_pred()).len()
            == entries.len(),
    decreases entries.len(),
{
    if entries.len() == 0 {
        entries.lemma_filter_len(screenshot_pred());
        entries.lemma_filter_len(other_pred());
    } else {
        let front = entries.drop_last();
        lemma_split_lengths(front);
        assert(entries =~= front.push(entries.last()));
        front.lemma_filter_push(entries.last(), screenshot_pred());
        front.lemma_filter_push(entries.last(), other_pred());
    }
}

/// A download whose name begins with a dot is invisible: the report is the
/// one that the scan without that entry would give, whatever the entry's age
/// and whether or not all downloads are to be deleted.
pub proof fn lemma_hidden_entries_are_invisible(
    desktop: Seq<EntryView>,
    downloads: Seq<EntryView>,
    dest: Seq<char>,
    existing: Seq<Seq<char>>,
    delete_all: bool,
    cutoff: i128,
    i: int,
)
    requires
        0 <= i < downloads.len(),
        downloads[i].name is Some,
        is_hidden_name(downloads[i].name->0),
    ensures
        plan_spec(desktop, downloads, dest, existing, delete_all, cutoff) == plan_spec(
            desktop,
            downloads.remove(i),
            dest,
            existing,
            delete_all,
            cutoff,
        ),
{
    let e = downloads[i];
    let before = downloads.take(i);
    let after = downloads.skip(i + 1);
    let one = Seq::<EntryView>::empty().push(e);
    assert(downloads =~= before + one + after);
    Seq::<EntryView>::empty().lemma_filter_push(e, visible_pred());
    Seq::<EntryView>::empty().lemma_filter_len(visible_pred());
    Seq::filter_distributes_over_add(before, one, visible_pred());
    Seq::filter_distributes_over_add(before + one, after, visible_pred());
    Seq::filter_distributes_over_add(before, after, visible_pred());
}

/// A name whose plain destination is free resolves to exactly that.
pub proof fn lemma_free_name_is_kept(dest: Seq<char>, name: Seq<char>, existing: Seq<Seq<char>>)
    requires
        !existing.contains(join_spec(dest, name)),
    ensures
        unique_destination_spec(dest, name, existing) == join_spec(dest, name),
{
}

/// A name whose plain destination is taken, and whose first numbered variant
/// is free, resolves to that variant.
pub proof fn lemma_first_variant_is_used(dest: Seq<char>, name: Seq<char>, existing: Seq<Seq<char>>)
    requires
        existing.contains(join_spec(dest, name)),
        !existing.contains(candidate(dest, name, 1)),
    ensures
        unique_destination_spec(dest, name, existing) == candidate(dest, name, 1),
{
    assert(is_first_free(dest, name, existing, 1));
    let chosen = choose|k: nat| is_first_free(dest, name, existing, k);
    lemma_first_free_unique(dest, name, existing, chosen, 1);
}

/// The first numbered variant of a name without a dot is the name followed
/// by ` (1)`; that of a name with a dot has ` (1)` before the last dot.
pub proof fn lemma_first_variant_text(name: Seq<char>, dot: int)
    ensures
        !name.contains('.') ==> candidate_name(name, 1) == name + " (1)"@,
        is_last_dot(name, dot) ==> candidate_name(name, 1) == name.subrange(0, dot) + " (1)"@
            + name.subrange(dot, name.len() as int),
{
    reveal_strlit(" (1)");
    if !name.contains('.') {
        assert forall|i: int| !is_last_dot(name, i) by {
            if 0 <= i < name.len() && name[i] == '.' {
                assert(name.contains('.'));
            }
        }
    }
    if is_last_dot(name, dot) {
        let chosen = choose|k: int| is_last_dot(name, k);
        assert(chosen == dot);
    }
}

/// A resolved destination is never one of the existing paths.
pub proof fn lemma_destination_is_free(dest: Seq<char>, name: Seq<char>, existing: Seq<Seq<char>>)
    ensures
        !existing.contains(unique_destination_spec(dest, name, existing)),
{
    lemma_first_free_exists(dest, name, existing);
}

/// The deletions are all the downloads items when everything is to be
/// deleted, and the old items otherwise.
pub proof fn lemma_deletions_follow_flag(
    desktop: Seq<EntryView>,
    downloads: Seq<EntryView>,
    dest: Seq<char>,
    existing: Seq<Seq<char>>,
    delete_all: bool,
    cutoff: i128,
)
    ensures
        ({
            let r = plan_spec(desktop, downloads, dest, existing, delete_all, cutoff);
            &&& delete_all ==> r.planned_downloads_deletions == r.downloads_items
            &&& !delete_all ==> r.planned_downloads_deletions == r.downloads_old_items
        }),
{
}

/// The test that a visible download is to be deleted.
pub open spec fn deletable_pred(delete_all: bool, cutoff: i128) -> spec_fn(EntryView) -> bool {
    |e: EntryView| is_deletable(e, delete_all, cutoff)
}

/// Two tests that agree on every entry of a list keep the same entries.
pub proof fn lemma_filter_agrees(
    entries: Seq<EntryView>,
    p: spec_fn(EntryView) -> bool,
    q: spec_fn(EntryView) -> bool,
)
    requires
        forall|i: int| 0 <= i < entries.len() ==> p(entries[i]) == q(entries[i]),
    ensures
        entries.filter(p) == entries.filter(q),
    decreases entries.len(),
{
    if entries.len() == 0 {
        entries.lemma_filter_len(p);
        entries.lemma_filter_len(q);
    } else {
        let front = entries.drop_last();
        lemma_filter_agrees(front, p, q);
        assert(entries =~= front.push(entries.last()));
        front.lemma_filter_push(entries.last(), p);
        front.lemma_filter_push(entries.last(), q);
    }
}

/// A test that holds of every entry of a list keeps the whole list.
pub proof fn lemma_filter_keeps_all(entries: Seq<EntryView>, p: spec_fn(EntryView) -> bool)
    requires
        forall|i: int| 0 <= i < entries.len() ==> p(entries[i]),
    ensures
        entries.filter(p) == entries,
    decreases entries.len(),
{
    if entries.len() == 0 {
        entries.lemma_filter_len(p);
    } else {
        let front = entries.drop_last();
        lemma_filter_keeps_all(front, p);
        assert(entries =~= front.push(entries.last()));
        front.lemma_filter_push(entries.last(), p);
    }
}

/// A visible download is planned for deletion exactly if everything is to be
/// deleted or it is old: the deletions are the visible downloads that pass
/// that test, in scan order.
pub proof fn lemma_deletions_are_the_deletable(
    desktop: Seq<EntryView>,
    downloads: Seq<EntryView>,
    dest: Seq<char>,
    existing: Seq<Seq<char>>,
    delete_all: bool,
    cutoff: i128,
)
    ensures
        plan_spec(desktop, downloads, dest, existing, delete_all, cutoff).planned_downloads_deletions
            == paths_of(
            downloads.filter(visible_pred()).filter(deletable_pred(delete_all, cutoff)),
        ),
{
    let visible = downloads.filter(visible_pred());
    if delete_all {
        lemma_filter_keeps_all(visible, deletable_pred(delete_all, cutoff));
    } else {
        lemma_filter_agrees(visible, deletable_pred(delete_all, cutoff), old_pred(cutoff));
    }
}

/// What holds between the parts of every report: one move per screenshot, in
/// the same order and to a free place; old items and deletions taken from the
/// downloads items; old bytes within the total.
pub open spec fn report_consistent(r: ReportView, existing: Seq<Seq<char>>) -> bool {
    &&& r.planned_moves.len() == r.desktop_screenshots.len()
    &&& forall|i: int|
        0 <= i < r.planned_moves.len() ==> (#[trigger] r.planned_moves[i]).0
            == r.desktop_screenshots[i]
    &&& forall|i: int|
        0 <= i < r.planned_moves.len() ==> !existing.contains((#[trigger] r.planned_moves[i]).1)
    &&& forall|p: Seq<char>|
        #[trigger] r.downloads_old_items.contains(p) ==> r.downloads_items.contains(p)
    &&& forall|p: Seq<char>|
        #[trigger] r.planned_downloads_deletions.contains(p) ==> r.downloads_items.contains(p)
    &&& r.downloads_old_bytes <= r.downloads_total_bytes
}

/// Every planned report is consistent.
pub proof fn lemma_plan_is_consistent(
    desktop: Seq<EntryView>,
    downloads: Seq<EntryView>,
    dest: Seq<char>,
    existing: Seq<Seq<char>>,
    delete_all: bool,
    cutoff: i128,
)
    ensures
        report_consistent(
            plan_spec(desktop, downloads, dest, existing, delete_all, cutoff),
            existing,
        ),
{
    let r = plan_spec(desktop, downloads, dest, existing, delete_all, cutoff);
    let shots = desktop.filter(screenshot_pred());
    let visible = downloads.filter(visible_pred());
    let old = visible.filter(old_pred(cutoff));
    assert forall|i: int| 0 <= i < r.planned_moves.len() implies !existing.contains(
        (#[trigger] r.planned_moves[i]).1,
    ) by {
        lemma_destination_is_free(dest, shots[i].name->0, existing);
    }
    assert forall|p: Seq<char>| #[trigger] r.downloads_old_items.contains(p) implies r.downloads_items.contains(p) by {
        let at = choose|at: int| 0 <= at < old.len() && paths_of(old)[at] == p;
        visible.lemma_filter_contains_rev(old_pred(cutoff), old[at]);
        let k = choose|k: int| 0 <= k < visible.len() && visible[k] == old[at];
        assert(paths_of(visible)[k] == p);
    }
    lemma_filtered_bytes_bounded(visible, old_pred(cutoff));
    if !delete_all {
        assert(r.planned_downloads_deletions == r.downloads_old_items);
    }
}

proof fn lemma_filtered_bytes_bounded(entries: Seq<EntryView>, pred: spec_fn(EntryView) -> bool)
    ensures
        total_bytes(entries.filter(pred)) <= total_bytes(entries),
    decreases entries.len(),
{
    if entries.len() == 0 {
        entries.lemma_filter_len(pred);
    } else {
        let front = entries.drop_last();
        lemma_filtered_bytes_bounded(front, pred);
        assert(entries =~= front.push(entries.last()));
        front.lemma_filter_push(entries.last(), pred);
        lemma_total_bytes_push(front.filter(pred), entries.last());
    }
}

/// The sizes of a list of entries, added one after the other with each sum
/// cut off at the largest `u64`.
pub open spec fn saturating_sum(entries: Seq<EntryView>) -> u64
    decreases entries.len(),
{
    if entries.len() == 0 {
        0
    } else {
        saturate(saturating_sum(entries.drop_last()) as nat + entries.last().size_bytes as nat)
    }
}

/// Adding with a cut-off at every step gives the exact total, cut off once.
pub proof fn lemma_saturating_sum_is_total(entries: Seq<EntryView>)
    ensures
        saturating_sum(entries) == saturate(total_bytes(entries)),
    decreases entries.len(),
{
    if entries.len() > 0 {
        lemma_saturating_sum_is_total(entries.drop_last());
    }
}

/// The two byte counts of a report are the saturating sums of the sizes of
/// the visible downloads and of the old ones among them.
pub proof fn lemma_totals_are_saturating_sums(
    desktop: Seq<EntryView>,
    downloads: Seq<EntryView>,
    dest: Seq<char>,
    existing: Seq<Seq<char>>,
    delete_all: bool,
    cutoff: i128,
)
    ensures
        ({
            let r = plan_spec(desktop, downloads, dest, existing, delete_all, cutoff);
            let visible = downloads.filter(visible_pred());
            &&& r.downloads_total_bytes == saturating_sum(visible)
            &&& r.downloads_old_bytes == saturating_sum(visible.filter(old_pred(cutoff)))
        }),
{
    let visible = downloads.filter(visible_pred());
    lemma_saturating_sum_is_total(visible);
    lemma_saturating_sum_is_total(visible.filter(old_pred(cutoff)));
}

} // verus!
