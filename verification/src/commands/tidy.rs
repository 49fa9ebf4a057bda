use crate::commands::destination::{unique_destination, unique_destination_spec};
use crate::commands::sizes::{dir_or_file_size, saturate, size_spec, FsNode};
use crate::path::is_absolute;
use crate::text::{ends_with, ends_with_spec, starts_with, starts_with_spec, texts};
use vstd::prelude::*;
use vstd::string::*;

verus! {

/// Nanoseconds in the seven days that a download is kept.
pub const RETENTION_NANOS: i128 = 604_800_000_000_000;

/// What a tidy run is asked to do. The three paths are absolute.
#[derive(Debug, Clone)]
pub struct TidyOptions {
    pub apply: bool,
    pub delete_all_downloads: bool,
    pub desktop: String,
    pub downloads: String,
    pub screenshots_dest: String,
}

/// The options that a run accepts: all three paths are absolute.
pub open spec fn options_wf(options: TidyOptions) -> bool {
    &&& is_absolute(options.desktop@)
    &&& is_absolute(options.downloads@)
    &&& is_absolute(options.screenshots_dest@)
}

/// One child of a scanned directory.
#[derive(Debug, Clone)]
pub struct Entry {
    /// The child's full path.
    pub path: String,
    /// Its file name, where that is valid Unicode.
    pub name: Option<String>,
    pub is_directory: bool,
    /// Bytes at and below the path; 0 where they could not be read.
    pub size_bytes: u64,
    /// Last modification, in nanoseconds since the Unix epoch, where it
    /// could be read.
    pub modified_at: Option<i128>,
}

/// An `Entry` as contracts see it.
pub struct EntryView {
    pub path: Seq<char>,
    pub name: Option<Seq<char>>,
    pub is_directory: bool,
    pub size_bytes: u64,
    pub modified_at: Option<i128>,
}

impl View for Entry {
    type V = EntryView;

    open spec fn view(&self) -> EntryView {
        EntryView {
            path: self.path@,
            name: match self.name {
                Some(name) => Some(name@),
                None => None,
            },
            is_directory: self.is_directory,
            size_bytes: self.size_bytes,
            modified_at: self.modified_at,
        }
    }
}

impl Entry {
    /// Makes the entry for a child of a scanned directory from what was
    /// read of it: `node` is what was found at the path, and decides the
    /// kind and, measured with all below it, the size. What could not be read
    /// counts as no directory, 0 bytes and no modification time.
    pub fn from_scan(
        path: String,
        name: Option<String>,
        node: &FsNode,
        modified_at: Option<i128>,
    ) -> (entry: Entry)
        ensures
            entry.path == path,
            entry.name == name,
            entry.is_directory == (*node is Directory),
            entry.size_bytes == saturate(size_spec(*node)),
            entry.modified_at == modified_at,
    {
        let is_directory = match node {
            FsNode::Directory { .. } => true,
            _ => false,
        };
        Entry { path, name, is_directory, size_bytes: dir_or_file_size(node), modified_at }
    }
}

/// What a tidy run found and what it intends to do about it.
#[derive(Debug, Clone)]
pub struct TidyReport {
    pub desktop_screenshots: Vec<String>,
    pub desktop_other: Vec<String>,
    pub downloads_items: Vec<String>,
    pub downloads_total_bytes: u64,
    pub downloads_old_items: Vec<String>,
    pub downloads_old_bytes: u64,
    pub planned_downloads_deletions: Vec<String>,
    pub planned_moves: Vec<(String, String)>,
}

/// A `TidyReport` as contracts see it.
pub struct ReportView {
    pub desktop_screenshots: Seq<Seq<char>>,
    pub desktop_other: Seq<Seq<char>>,
    pub downloads_items: Seq<Seq<char>>,
    pub downloads_total_bytes: u64,
    pub downloads_old_items: Seq<Seq<char>>,
    pub downloads_old_bytes: u64,
    pub planned_downloads_deletions: Seq<Seq<char>>,
    pub planned_moves: Seq<(Seq<char>, Seq<char>)>,
}

/// The source and destination texts of a list of moves, in order.
pub open spec fn move_texts(moves: Seq<(String, String)>) -> Seq<(Seq<char>, Seq<char>)> {
    Seq::new(moves.len(), |i: int| (moves[i].0@, moves[i].1@))
}

impl View for TidyReport {
    type V = ReportView;

    open spec fn view(&self) -> ReportView {
        ReportView {
            desktop_screenshots: texts(self.desktop_screenshots@),
            desktop_other: texts(self.desktop_other@),
            downloads_items: texts(self.downloads_items@),
            downloads_total_bytes: self.downloads_total_bytes,
            downloads_old_items: texts(self.downloads_old_items@),
            downloads_old_bytes: self.downloads_old_bytes,
            planned_downloads_deletions: texts(self.planned_downloads_deletions@),
            planned_moves: move_texts(self.planned_moves@),
        }
    }
}

/// The report of a run that found nothing.
pub open spec fn empty_report() -> ReportView {
    ReportView {
        desktop_screenshots: Seq::empty(),
        desktop_other: Seq::empty(),
        downloads_items: Seq::empty(),
        downloads_total_bytes: 0,
        downloads_old_items: Seq::empty(),
        downloads_old_bytes: 0,
        planned_downloads_deletions: Seq::empty(),
        planned_moves: Seq::empty(),
    }
}

impl Default for TidyReport {
    fn default() -> (r: TidyReport)
        ensures
            r@ == empty_report(),
    {
        let r = TidyReport {
            desktop_screenshots: Vec::new(),
            desktop_other: Vec::new(),
            downloads_items: Vec::new(),
            downloads_total_bytes: 0,
            downloads_old_items: Vec::new(),
            downloads_old_bytes: 0,
            planned_downloads_deletions: Vec::new(),
            planned_moves: Vec::new(),
        };
        proof {
            assert(texts(r.planned_downloads_deletions@) =~= Seq::empty());
            assert(move_texts(r.planned_moves@) =~= Seq::empty());
        }
        r
    }
}

/// The views of a list of entries, in order.
pub open spec fn entry_views(entries: Seq<Entry>) -> Seq<EntryView> {
    Seq::new(entries.len(), |i: int| entries[i]@)
}

/// A screenshot's file name begins with `Screenshot ` and ends with `.png`.
pub open spec fn is_screenshot_name(name: Seq<char>) -> bool {
    starts_with_spec(name, "Screenshot "@) && ends_with_spec(name, ".png"@)
}

/// A desktop entry is a screenshot if it is a file with a screenshot's name.
pub open spec fn is_screenshot(e: EntryView) -> bool {
    !e.is_directory && e.name is Some && is_screenshot_name(e.name->0)
}

/// A hidden name begins with a dot.
pub open spec fn is_hidden_name(name: Seq<char>) -> bool {
    name.len() > 0 && name[0] == '.'
}

/// A downloads entry counts if its name can be read and is not hidden.
pub open spec fn is_visible(e: EntryView) -> bool {
    e.name is Some && !is_hidden_name(e.name->0)
}

/// An entry is old if its modification time is known and lies before the
/// cutoff.
pub open spec fn is_old(modified_at: Option<i128>, cutoff: i128) -> bool {
    modified_at is Some && modified_at->0 < cutoff
}

/// A visible downloads entry is deleted if everything is, or if it is old.
pub open spec fn is_deletable(e: EntryView, delete_all: bool, cutoff: i128) -> bool {
    delete_all || is_old(e.modified_at, cutoff)
}

/// The cutoff of a run that starts at `now`: seven days earlier, if that
/// moment can be represented.
pub open spec fn cutoff_spec(now: i128) -> Option<i128> {
    if now - RETENTION_NANOS >= i128::MIN {
        Some((now - RETENTION_NANOS) as i128)
    } else {
        None
    }
}

/// The test that a desktop entry is a screenshot.
pub open spec fn screenshot_pred() -> spec_fn(EntryView) -> bool {
    |e: EntryView| is_screenshot(e)
}

/// The test that a desktop entry is no screenshot.
pub open spec fn other_pred() -> spec_fn(EntryView) -> bool {
    |e: EntryView| !is_screenshot(e)
}

/// The test that a downloads entry counts.
pub open spec fn visible_pred() -> spec_fn(EntryView) -> bool {
    |e: EntryView| is_visible(e)
}

/// The test that an entry was last modified before `cutoff`.
pub open spec fn old_pred(cutoff: i128) -> spec_fn(EntryView) -> bool {
    |e: EntryView| is_old(e.modified_at, cutoff)
}

/// The paths of a list of entries, in order.
pub open spec fn paths_of(entries: Seq<EntryView>) -> Seq<Seq<char>> {
    Seq::new(entries.len(), |i: int| entries[i].path)
}

/// The sizes of a list of entries, added up without a limit.
pub open spec fn total_bytes(entries: Seq<EntryView>) -> nat
    decreases entries.len(),
{
    if entries.len() == 0 {
        0
    } else {
        total_bytes(entries.drop_last()) + entries.last().size_bytes as nat
    }
}

/// The move planned for each screenshot: from where it lies to a free place
/// in `dest`, judged against the `existing` paths.
pub open spec fn moves_of(
    shots: Seq<EntryView>,
    dest: Seq<char>,
    existing: Seq<Seq<char>>,
) -> Seq<(Seq<char>, Seq<char>)> {
    Seq::new(
        shots.len(),
        |i: int| (shots[i].path, unique_destination_spec(dest, shots[i].name->0, existing)),
    )
}

/// The report that a run owes for the given scan.
///
/// Every list keeps the order of the scan. Desktop entries are split into
/// screenshots and the rest, and each screenshot gets a move. Of the downloads
/// only the visible entries count; the old ones among them are listed again,
/// and the deletions are all of them or just the old ones.
pub open spec fn plan_spec(
    desktop: Seq<EntryView>,
    downloads: Seq<EntryView>,
    dest: Seq<char>,
    existing: Seq<Seq<char>>,
    delete_all: bool,
    cutoff: i128,
) -> ReportView {
    let shots = desktop.filter(screenshot_pred());
    let visible = downloads.filter(visible_pred());
    let old = visible.filter(old_pred(cutoff));
    ReportView {
        desktop_screenshots: paths_of(shots),
        desktop_other: paths_of(desktop.filter(other_pred())),
        downloads_items: paths_of(visible),
        downloads_total_bytes: saturate(total_bytes(visible)),
        downloads_old_items: paths_of(old),
        downloads_old_bytes: saturate(total_bytes(old)),
        planned_downloads_deletions: if delete_all {
            paths_of(visible)
        } else {
            paths_of(old)
        },
        planned_moves: moves_of(shots, dest, existing),
    }
}

/// Tests a file name against the screenshot pattern.
pub fn is_macos_screenshot(file_name: &str) -> (r: bool)
    ensures
        r == is_screenshot_name(file_name@),
{
    starts_with(file_name, "Screenshot ") && ends_with(file_name, ".png")
}

/// Tests whether a file name is hidden.
pub fn is_hidden(file_name: &str) -> (r: bool)
    ensures
        r == is_hidden_name(file_name@),
{
    file_name.unicode_len() > 0 && file_name.get_char(0) == '.'
}

/// Tests whether a modification time lies before the cutoff. An unknown
/// time never does.
pub fn is_older_than(modified_at: Option<i128>, cutoff: i128) -> (r: bool)
    ensures
        r == is_old(modified_at, cutoff),
{
    match modified_at {
        Some(at) => at < cutoff,
        None => false,
    }
}

/// The cutoff of a run that starts at `now`.
pub fn cutoff_time(now: i128) -> (r: Option<i128>)
    ensures
        r == cutoff_spec(now),
{
    if now >= i128::MIN + RETENTION_NANOS {
        Some(now - RETENTION_NANOS)
    } else {
        None
    }
}

/// Filtering one entry more either appends that entry or changes nothing.
pub proof fn lemma_filter_take_step<A>(s: Seq<A>, pred: spec_fn(A) -> bool, i: int)
    requires
        0 <= i < s.len(),
    ensures
        s.take(i + 1).filter(pred) == if pred(s[i]) {
            s.take(i).filter(pred).push(s[i])
        } else {
            s.take(i).filter(pred)
        },
{
    assert(s.take(i + 1) =~= s.take(i).push(s[i]));
    s.take(i).lemma_filter_push(s[i], pred);
}

/// One entry more adds its size to the total.
pub proof fn lemma_total_bytes_push(entries: Seq<EntryView>, e: EntryView)
    ensures
        total_bytes(entries.push(e)) == total_bytes(entries) + e.size_bytes as nat,
{
    assert(entries.push(e).drop_last() =~= entries);
}

/// Builds the report for a scan, touching nothing.
///
/// `desktop` and `downloads` are the children of the two directories in scan
/// order, `existing` the paths already present in the screenshots
/// destination, and `cutoff` the moment before which a download is old.
pub fn plan(
    options: &TidyOptions,
    desktop: &Vec<Entry>,
    downloads: &Vec<Entry>,
    existing: &Vec<String>,
    cutoff: i128,
) -> (report: TidyReport)
    ensures
        report@ == plan_spec(
            entry_views(desktop@),
            entry_views(downloads@),
            options.screenshots_dest@,
            texts(existing@),
            options.delete_all_downloads,
            cutoff,
        ),
{
    let mut report = TidyReport::default();
    let ghost dv = entry_views(desktop@);
    let ghost taken = texts(existing@);
    let ghost dest = options.screenshots_dest@;

    let mut i: usize = 0;
    while i < desktop.len()
        invariant
            i <= desktop.len(),
            dv == entry_views(desktop@),
            taken == texts(existing@),
            dest == options.screenshots_dest@,
            report@.desktop_screenshots == paths_of(dv.take(i as int).filter(screenshot_pred())),
            report@.desktop_other == paths_of(dv.take(i as int).filter(other_pred())),
            report@.planned_moves == moves_of(
                dv.take(i as int).filter(screenshot_pred()),
                dest,
                taken,
            ),
            report@.downloads_items == Seq::<Seq<char>>::empty(),
            report@.downloads_old_items == Seq::<Seq<char>>::empty(),
            report@.planned_downloads_deletions == Seq::<Seq<char>>::empty(),
            report.downloads_total_bytes == 0,
            report.downloads_old_bytes == 0,
        decreases desktop.len() - i,
    {
        let entry = &desktop[i];
        let ghost before = report@;
        let ghost shots = dv.take(i as int).filter(screenshot_pred());
        let ghost rest = dv.take(i as int).filter(other_pred());
        proof {
            lemma_filter_take_step(dv, screenshot_pred(), i as int);
            lemma_filter_take_step(dv, other_pred(), i as int);
        }
        let mut moved = false;
        if !entry.is_directory {
            if let Some(name) = &entry.name {
                if is_macos_screenshot(name.as_str()) {
                    let to = unique_destination(
                        options.screenshots_dest.as_str(),
                        name.as_str(),
                        existing,
                    );
                    report.desktop_screenshots.push(entry.path.clone());
                    report.planned_moves.push((entry.path.clone(), to));
                    moved = true;
                    proof {
                        assert(paths_of(shots.push(entry@)) =~= paths_of(shots).push(entry@.path));
                        assert(moves_of(shots.push(entry@), dest, taken) =~= moves_of(
                            shots,
                            dest,
                            taken,
                        ).push((entry@.path, unique_destination_spec(dest, entry@.name->0, taken))));
                    }
                }
            }
        }
        if !moved {
            report.desktop_other.push(entry.path.clone());
            proof {
                assert(paths_of(rest.push(entry@)) =~= paths_of(rest).push(entry@.path));
            }
        }
        i += 1;
    }
    proof {
        assert(dv.take(desktop.len() as int) =~= dv);
    }

    let ghost dl = entry_views(downloads@);
    let ghost delete_all = options.delete_all_downloads;
    let ghost desktop_part = report@;
    let mut k: usize = 0;
    while k < downloads.len()
        invariant
            k <= downloads.len(),
            dl == entry_views(downloads@),
            delete_all == options.delete_all_downloads,
            report@.desktop_screenshots == desktop_part.desktop_screenshots,
            report@.desktop_other == desktop_part.desktop_other,
            report@.planned_moves == desktop_part.planned_moves,
            report@.downloads_items == paths_of(dl.take(k as int).filter(visible_pred())),
            report.downloads_total_bytes == saturate(
                total_bytes(dl.take(k as int).filter(visible_pred())),
            ),
            report@.downloads_old_items == paths_of(
                dl.take(k as int).filter(visible_pred()).filter(old_pred(cutoff)),
            ),
            report.downloads_old_bytes == saturate(
                total_bytes(dl.take(k as int).filter(visible_pred()).filter(old_pred(cutoff))),
            ),
            report@.planned_downloads_deletions == if delete_all {
                report@.downloads_items
            } else {
                report@.downloads_old_items
            },
        decreases downloads.len() - k,
    {
        let entry = &downloads[k];
        let ghost before = report@;
        let ghost visible = dl.take(k as int).filter(visible_pred());
        let ghost old = visible.filter(old_pred(cutoff));
        proof {
            lemma_filter_take_step(dl, visible_pred(), k as int);
            visible.lemma_filter_push(entry@, old_pred(cutoff));
            lemma_total_bytes_push(visible, entry@);
            lemma_total_bytes_push(old, entry@);
        }
        let counts = match &entry.name {
            Some(name) => !is_hidden(name.as_str()),
            None => false,
        };
        if counts {
            let size: u64 = entry.size_bytes;
            let aged = is_older_than(entry.modified_at, cutoff);
            report.downloads_total_bytes = report.downloads_total_bytes.saturating_add(size);
            report.downloads_items.push(entry.path.clone());
            if aged {
                report.downloads_old_items.push(entry.path.clone());
                report.downloads_old_bytes = report.downloads_old_bytes.saturating_add(size);
            }
            if options.delete_all_downloads || aged {
                report.planned_downloads_deletions.push(entry.path.clone());
            }
            proof {
                assert(paths_of(visible.push(entry@)) =~= paths_of(visible).push(entry@.path));
                if aged {
                    assert(paths_of(old.push(entry@)) =~= paths_of(old).push(entry@.path));
                }
                if delete_all || aged {
                    assert(report@.planned_downloads_deletions
                        =~= before.planned_downloads_deletions.push(entry@.path));
                }
            }
        }
        k += 1;
    }
    proof {
        assert(dl.take(downloads.len() as int) =~= dl);
    }
    report
}

/// Why a run could not produce a report.
#[derive(Debug, PartialEq, Eq, Structural)]
pub enum TidyError {
    /// Seven days before the run's start cannot be represented.
    CutoffUnavailable,
}

impl TidyError {
    /// The error as a sentence.
    pub fn message(&self) -> (r: String)
        ensures
            r@ == "failed to compute cutoff time"@,
    {
        String::from_str("failed to compute cutoff time")
    }
}

/// Plans a tidy run that starts at `now`, in nanoseconds since the Unix
/// epoch: computes the cutoff once, then builds the report against it.
pub fn run(
    options: &TidyOptions,
    desktop: &Vec<Entry>,
    downloads: &Vec<Entry>,
    existing: &Vec<String>,
    now: i128,
) -> (r: Result<TidyReport, TidyError>)
    ensures
        match r {
            Ok(report) => cutoff_spec(now) is Some && report@ == plan_spec(
                entry_views(desktop@),
                entry_views(downloads@),
                options.screenshots_dest@,
                texts(existing@),
                options.delete_all_downloads,
                cutoff_spec(now)->0,
            ),
            Err(e) => cutoff_spec(now) is None && e == TidyError::CutoffUnavailable,
        },
{
    match cutoff_time(now) {
        Some(cutoff) => Ok(plan(options, desktop, downloads, existing, cutoff)),
        None => Err(TidyError::CutoffUnavailable),
    }
}

} // verus!
