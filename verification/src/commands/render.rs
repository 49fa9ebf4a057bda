use crate::commands::doctor::DoctorReport;
use crate::commands::init::InitReport;
use crate::commands::sizes::{
    dir_or_file_size, human_bytes, human_bytes_spec, saturate, size_spec, sizes_sum, FsNode,
};
use crate::commands::tidy::{ReportView, TidyReport};
use crate::commands::{
    bullet, bullet_spec, color_if, desktop_clean_spec, downloads_level, err_symbol_spec,
    level_name, ok_symbol_spec, shown_level_spec, styled_spec, total_size, Color, DownloadsLevel,
    OutputStyle,
};
use crate::text::{decimal, decimal_spec, texts};
use vstd::prelude::*;
use vstd::string::*;

verus! {

/// A list item: the bullet, a space and the text.
pub open spec fn item_line(plain: bool, text: Seq<char>) -> Seq<char> {
    bullet_spec(plain) + " "@ + text
}

/// One list item for each of `texts`.
pub open spec fn item_lines(plain: bool, texts: Seq<Seq<char>>) -> Seq<Seq<char>> {
    Seq::new(texts.len(), |i: int| item_line(plain, texts[i]))
}

/// The lines of a layout check: the title, the verdict, the missing folders
/// if there are any and, in full, the roots.
pub open spec fn render_doctor_spec(
    missing: Seq<Seq<char>>,
    areas: nat,
    required: nat,
    roots: Seq<Seq<char>>,
    style: OutputStyle,
) -> Seq<Seq<char>> {
    let title = seq![styled_spec(style.plain, "life-os doctor"@, Color::Accent)];
    let verdict = if missing.len() == 0 {
        seq![
            styled_spec(
                style.plain,
                ok_symbol_spec(style.plain) + " Spec satisfied ("@ + decimal_spec(areas)
                    + " areas, "@ + decimal_spec(required) + " folders)"@,
                Color::Success,
            ),
        ]
    } else {
        seq![
            styled_spec(
                style.plain,
                err_symbol_spec(style.plain) + " Missing folders ("@ + decimal_spec(missing.len())
                    + ")"@,
                Color::Error,
            ),
            Seq::empty(),
            "Missing"@,
        ] + item_lines(style.plain, missing)
    };
    let roots_part = if style.verbose {
        seq![Seq::empty(), "Roots"@] + item_lines(style.plain, roots)
    } else {
        Seq::empty()
    };
    title + verdict + roots_part
}

/// The lines that tell what creating the layout did: the title, the count
/// and, in full, the folders created.
pub open spec fn render_init_spec(created: Seq<Seq<char>>, style: OutputStyle) -> Seq<Seq<char>> {
    let title = seq![styled_spec(style.plain, "life-os init"@, Color::Accent)];
    if created.len() == 0 {
        title + seq![
            styled_spec(
                style.plain,
                ok_symbol_spec(style.plain) + " Nothing to create (spec already satisfied)"@,
                Color::Success,
            ),
        ]
    } else {
        let count = seq![
            styled_spec(
                style.plain,
                ok_symbol_spec(style.plain) + " Created "@ + decimal_spec(created.len())
                    + " folder(s)"@,
                Color::Success,
            ),
        ];
        if style.verbose {
            title + count + seq![Seq::empty(), "Created"@] + item_lines(style.plain, created)
        } else {
            title + count
        }
    }
}

/// Appends one line.
fn push_line(lines: &mut Vec<String>, line: String)
    ensures
        texts(final(lines)@) == texts(old(lines)@) + seq![line@],
{
    lines.push(line);
}

/// Appends one list item for each of `items`.
fn push_items(lines: &mut Vec<String>, style: OutputStyle, items: &Vec<String>)
    ensures
        texts(final(lines)@) == texts(old(lines)@) + item_lines(style.plain, texts(items@)),
{
    let ghost before = texts(lines@);
    let mut i: usize = 0;
    while i < items.len()
        invariant
            i <= items.len(),
            texts(lines@) == before + item_lines(style.plain, texts(items@).take(i as int)),
        decreases items.len() - i,
    {
        let mut line = String::from_str(bullet(style));
        line.append(" ");
        line.append(items[i].as_str());
        push_line(lines, line);
        proof {
            assert(texts(items@).take(i + 1) =~= texts(items@).take(i as int).push(
                items@[i as int]@,
            ));
        }
        i += 1;
    }
}

/// Writes the report of a layout check, line by line.
pub fn render_doctor(report: &DoctorReport, style: OutputStyle) -> (lines: Vec<String>)
    ensures
        texts(lines@) == render_doctor_spec(
            texts(report.missing@),
            report.areas as nat,
            report.required as nat,
            texts(report.roots@),
            style,
        ),
{
    let mut lines: Vec<String> = Vec::new();
    push_line(&mut lines, style.header("life-os doctor"));
    if report.missing.len() == 0 {
        let mut msg = String::from_str(style.ok_symbol());
        msg.append(" Spec satisfied (");
        msg.append(decimal(report.areas as u128).as_str());
        msg.append(" areas, ");
        msg.append(decimal(report.required as u128).as_str());
        msg.append(" folders)");
        push_line(&mut lines, color_if(style, msg.as_str(), Color::Success));
    } else {
        let mut msg = String::from_str(style.err_symbol());
        msg.append(" Missing folders (");
        msg.append(decimal(report.missing.len() as u128).as_str());
        msg.append(")");
        push_line(&mut lines, color_if(style, msg.as_str(), Color::Error));
        push_line(&mut lines, String::new());
        push_line(&mut lines, String::from_str("Missing"));
        push_items(&mut lines, style, &report.missing);
    }
    if style.verbose {
        push_line(&mut lines, String::new());
        push_line(&mut lines, String::from_str("Roots"));
        push_items(&mut lines, style, &report.roots);
    }
    lines
}

/// Writes what creating the layout did, line by line.
pub fn render_init(report: &InitReport, style: OutputStyle) -> (lines: Vec<String>)
    ensures
        texts(lines@) == render_init_spec(texts(report.created@), style),
{
    let mut lines: Vec<String> = Vec::new();
    push_line(&mut lines, style.header("life-os init"));
    if report.created.len() == 0 {
        let mut msg = String::from_str(style.ok_symbol());
        msg.append(" Nothing to create (spec already satisfied)");
        push_line(&mut lines, color_if(style, msg.as_str(), Color::Success));
    } else {
        let mut msg = String::from_str(style.ok_symbol());
        msg.append(" Created ");
        msg.append(decimal(report.created.len() as u128).as_str());
        msg.append(" folder(s)");
        push_line(&mut lines, color_if(style, msg.as_str(), Color::Success));
        if style.verbose {
            push_line(&mut lines, String::new());
            push_line(&mut lines, String::from_str("Created"));
            push_items(&mut lines, style, &report.created);
        }
    }
    lines
}

/// The measured size of the `i`-th of `nodes`, and 0 where there is none.
pub open spec fn size_at(nodes: Seq<FsNode>, i: int) -> u64 {
    if 0 <= i < nodes.len() {
        saturate(size_spec(nodes[i]))
    } else {
        0
    }
}

/// The text that follows a count or a path: a space and the size in
/// brackets, dimmed.
pub open spec fn size_note(plain: bool, bytes: u64) -> Seq<char> {
    " ("@ + styled_spec(plain, human_bytes_spec(bytes as nat), Color::Dim) + ")"@
}

/// A list item that gives a count and a size.
pub open spec fn count_line(plain: bool, label: Seq<char>, count: nat, bytes: u64) -> Seq<char> {
    item_line(
        plain,
        label + ": "@ + styled_spec(plain, decimal_spec(count), Color::Accent) + size_note(
            plain,
            bytes,
        ),
    )
}

/// A list item that gives a count alone.
pub open spec fn action_line(plain: bool, label: Seq<char>, count: nat) -> Seq<char> {
    item_line(plain, label + ": "@ + styled_spec(plain, decimal_spec(count), Color::Accent))
}

/// One list item for each path, with the measured size of the node at the
/// same position.
pub open spec fn path_lines(plain: bool, paths: Seq<Seq<char>>, nodes: Seq<FsNode>) -> Seq<
    Seq<char>,
> {
    Seq::new(
        paths.len(),
        |i: int| item_line(plain, paths[i] + size_note(plain, size_at(nodes, i))),
    )
}

/// The summary of a tidy report: whether the desktop is clean, and how full
/// the downloads are.
pub open spec fn summary_line(plain: bool, report: ReportView) -> Seq<char> {
    let clean = desktop_clean_spec(report.desktop_screenshots.len(), report.desktop_other.len());
    let level = shown_level_spec(report.downloads_total_bytes, report.downloads_items.len());
    styled_spec(
        plain,
        ok_symbol_spec(plain) + " Desktop "@ + (if clean {
            "clean"@
        } else {
            "busy"@
        }) + ", Downloads "@ + level_name(level),
        Color::Success,
    )
}

/// A tidy report is written in full when that is asked for, when the desktop
/// is not clean, or when the downloads are not light.
pub open spec fn shows_full(verbose: bool, report: ReportView) -> bool {
    ||| verbose
    ||| !desktop_clean_spec(report.desktop_screenshots.len(), report.desktop_other.len())
    ||| shown_level_spec(report.downloads_total_bytes, report.downloads_items.len())
        != DownloadsLevel::Light
}

/// The part of a tidy report that tells what was done; empty for a dry run.
pub open spec fn action_lines(plain: bool, report: ReportView, apply: bool, delete_all: bool) -> Seq<
    Seq<char>,
> {
    if apply {
        seq![
            Seq::empty(),
            styled_spec(plain, "Actions"@, Color::Accent),
            action_line(plain, "Moved screenshots"@, report.planned_moves.len()),
            action_line(
                plain,
                if delete_all {
                    "Deleted downloads (all)"@
                } else {
                    "Deleted downloads (>7 days)"@
                },
                report.planned_downloads_deletions.len(),
            ),
        ]
    } else {
        Seq::empty()
    }
}

/// The list of paths under a count: written in full only.
pub open spec fn listed(plain: bool, full: bool, paths: Seq<Seq<char>>, nodes: Seq<FsNode>) -> Seq<
    Seq<char>,
> {
    if full {
        path_lines(plain, paths, nodes)
    } else {
        Seq::empty()
    }
}

/// The first lines of a tidy report: the title and the summary.
pub open spec fn head_lines(plain: bool, report: ReportView) -> Seq<Seq<char>> {
    seq![styled_spec(plain, "life-os tidy"@, Color::Accent), summary_line(plain, report)]
}

/// The desktop's part of a tidy report: the screenshots, then the other
/// entries.
pub open spec fn desktop_lines(
    plain: bool,
    full: bool,
    report: ReportView,
    screenshots: Seq<FsNode>,
    other: Seq<FsNode>,
) -> Seq<Seq<char>> {
    seq![
        Seq::empty(),
        styled_spec(plain, "Desktop"@, Color::Accent),
        count_line(
            plain,
            "Screenshots"@,
            report.desktop_screenshots.len(),
            saturate(sizes_sum(screenshots, screenshots.len())),
        ),
    ] + listed(plain, full, report.desktop_screenshots, screenshots) + seq![
        count_line(
            plain,
            "Other files"@,
            report.desktop_other.len(),
            saturate(sizes_sum(other, other.len())),
        ),
    ] + listed(plain, full, report.desktop_other, other)
}

/// The downloads' part of a tidy report: all items, then the old ones.
pub open spec fn downloads_lines(
    plain: bool,
    full: bool,
    report: ReportView,
    items: Seq<FsNode>,
) -> Seq<Seq<char>> {
    seq![
        Seq::empty(),
        styled_spec(plain, "Downloads"@, Color::Accent),
        count_line(plain, "Items"@, report.downloads_items.len(), report.downloads_total_bytes),
    ] + listed(plain, full, report.downloads_items, items) + seq![
        count_line(
            plain,
            "Old (>7 days)"@,
            report.downloads_old_items.len(),
            report.downloads_old_bytes,
        ),
    ]
}

/// The lines of a tidy report.
///
/// After the title and the summary come the desktop's screenshots and other
/// entries, then the downloads and the old ones among them, each with its
/// count and size, and last what was done. In full, every screenshot, other
/// entry and download is listed under its count with its own size. The three
/// lists of nodes hold what was measured at the paths of the report's three
/// lists, position by position.
pub open spec fn render_tidy_spec(
    report: ReportView,
    screenshots: Seq<FsNode>,
    other: Seq<FsNode>,
    items: Seq<FsNode>,
    style: OutputStyle,
    apply: bool,
    delete_all: bool,
) -> Seq<Seq<char>> {
    let full = shows_full(style.verbose, report);
    head_lines(style.plain, report) + desktop_lines(
        style.plain,
        full,
        report,
        screenshots,
        other,
    ) + downloads_lines(style.plain, full, report, items) + action_lines(
        style.plain,
        report,
        apply,
        delete_all,
    )
}

/// Writes a space and a size in brackets.
fn size_text(style: OutputStyle, bytes: u64) -> (r: String)
    ensures
        r@ == size_note(style.plain, bytes),
{
    let mut out = String::from_str(" (");
    out.append(style.dim(human_bytes(bytes).as_str()).as_str());
    out.append(")");
    out
}

/// Appends a list item that gives a count and a size.
fn push_count(lines: &mut Vec<String>, style: OutputStyle, label: &str, count: usize, bytes: u64)
    ensures
        texts(final(lines)@) == texts(old(lines)@) + seq![
            count_line(style.plain, label@, count as nat, bytes),
        ],
{
    let mut line = String::from_str(bullet(style));
    line.append(" ");
    line.append(label);
    line.append(": ");
    line.append(style.highlight(decimal(count as u128).as_str()).as_str());
    line.append(size_text(style, bytes).as_str());
    proof {
        assert(line@ =~= count_line(style.plain, label@, count as nat, bytes));
    }
    push_line(lines, line);
}

/// Appends a list item that gives a count alone.
fn push_action(lines: &mut Vec<String>, style: OutputStyle, label: &str, count: usize)
    ensures
        texts(final(lines)@) == texts(old(lines)@) + seq![
            action_line(style.plain, label@, count as nat),
        ],
{
    let mut line = String::from_str(bullet(style));
    line.append(" ");
    line.append(label);
    line.append(": ");
    line.append(style.highlight(decimal(count as u128).as_str()).as_str());
    proof {
        assert(line@ =~= action_line(style.plain, label@, count as nat));
    }
    push_line(lines, line);
}

/// Appends one list item for each path, with its measured size.
fn push_paths(lines: &mut Vec<String>, style: OutputStyle, paths: &Vec<String>, nodes: &Vec<FsNode>)
    ensures
        texts(final(lines)@) == texts(old(lines)@) + path_lines(
            style.plain,
            texts(paths@),
            nodes@,
        ),
{
    let ghost before = texts(lines@);
    let ghost all = path_lines(style.plain, texts(paths@), nodes@);
    let mut i: usize = 0;
    while i < paths.len()
        invariant
            i <= paths.len(),
            all == path_lines(style.plain, texts(paths@), nodes@),
            texts(lines@) == before + all.take(i as int),
        decreases paths.len() - i,
    {
        let bytes: u64 = if i < nodes.len() {
            dir_or_file_size(&nodes[i])
        } else {
            0
        };
        let mut line = String::from_str(bullet(style));
        line.append(" ");
        line.append(paths[i].as_str());
        line.append(size_text(style, bytes).as_str());
        proof {
            assert(line@ =~= all[i as int]);
        }
        push_line(lines, line);
        i += 1;
    }
}

/// Appends the list of paths under a count, if the report is written in
/// full.
fn push_listed(
    lines: &mut Vec<String>,
    style: OutputStyle,
    full: bool,
    paths: &Vec<String>,
    nodes: &Vec<FsNode>,
)
    ensures
        texts(final(lines)@) == texts(old(lines)@) + listed(
            style.plain,
            full,
            texts(paths@),
            nodes@,
        ),
{
    if full {
        push_paths(lines, style, paths, nodes);
    }
}

/// Appends the title and the summary. Returns whether the report is to be
/// written in full.
fn push_head(lines: &mut Vec<String>, report: &TidyReport, style: OutputStyle) -> (full: bool)
    ensures
        texts(final(lines)@) == texts(old(lines)@) + head_lines(style.plain, report@),
        full == shows_full(style.verbose, report@),
{
    let desktop_clean = report.desktop_screenshots.len() <= 10 && report.desktop_other.len() <= 2;
    let mut level = downloads_level(report.downloads_total_bytes);
    if report.downloads_items.len() > 100 {
        level = level.bump();
    }
    push_line(lines, style.header("life-os tidy"));
    let mut summary = String::from_str(style.ok_symbol());
    summary.append(" Desktop ");
    summary.append(if desktop_clean { "clean" } else { "busy" });
    summary.append(", Downloads ");
    summary.append(level.as_str());
    push_line(lines, color_if(style, summary.as_str(), Color::Success));
    style.verbose || !desktop_clean || !level.is_light()
}

/// Appends the desktop's part.
fn push_desktop(
    lines: &mut Vec<String>,
    report: &TidyReport,
    screenshots: &Vec<FsNode>,
    other: &Vec<FsNode>,
    style: OutputStyle,
    full: bool,
)
    ensures
        texts(final(lines)@) == texts(old(lines)@) + desktop_lines(
            style.plain,
            full,
            report@,
            screenshots@,
            other@,
        ),
{
    push_line(lines, String::new());
    push_line(lines, style.section("Desktop"));
    push_count(
        lines,
        style,
        "Screenshots",
        report.desktop_screenshots.len(),
        total_size(screenshots),
    );
    push_listed(lines, style, full, &report.desktop_screenshots, screenshots);
    push_count(lines, style, "Other files", report.desktop_other.len(), total_size(other));
    push_listed(lines, style, full, &report.desktop_other, other);
}

/// Appends the downloads' part.
fn push_downloads(
    lines: &mut Vec<String>,
    report: &TidyReport,
    items: &Vec<FsNode>,
    style: OutputStyle,
    full: bool,
)
    ensures
        texts(final(lines)@) == texts(old(lines)@) + downloads_lines(
            style.plain,
            full,
            report@,
            items@,
        ),
{
    push_line(lines, String::new());
    push_line(lines, style.section("Downloads"));
    push_count(
        lines,
        style,
        "Items",
        report.downloads_items.len(),
        report.downloads_total_bytes,
    );
    push_listed(lines, style, full, &report.downloads_items, items);
    push_count(
        lines,
        style,
        "Old (>7 days)",
        report.downloads_old_items.len(),
        report.downloads_old_bytes,
    );
}

/// Appends what was done, unless the run was a dry one.
fn push_actions(
    lines: &mut Vec<String>,
    report: &TidyReport,
    style: OutputStyle,
    apply: bool,
    delete_all: bool,
)
    ensures
        texts(final(lines)@) == texts(old(lines)@) + action_lines(
            style.plain,
            report@,
            apply,
            delete_all,
        ),
{
    if apply {
        push_line(lines, String::new());
        push_line(lines, style.section("Actions"));
        push_action(lines, style, "Moved screenshots", report.planned_moves.len());
        if delete_all {
            push_action(
                lines,
                style,
                "Deleted downloads (all)",
                report.planned_downloads_deletions.len(),
            );
        } else {
            push_action(
                lines,
                style,
                "Deleted downloads (>7 days)",
                report.planned_downloads_deletions.len(),
            );
        }
    }
}

/// Writes a tidy report, line by line.
pub fn render_tidy(
    report: &TidyReport,
    screenshots: &Vec<FsNode>,
    other: &Vec<FsNode>,
    items: &Vec<FsNode>,
    style: OutputStyle,
    apply: bool,
    delete_all: bool,
) -> (lines: Vec<String>)
    ensures
        texts(lines@) == render_tidy_spec(
            report@,
            screenshots@,
            other@,
            items@,
            style,
            apply,
            delete_all,
        ),
{
    let mut lines: Vec<String> = Vec::new();
    let full = push_head(&mut lines, report, style);
    push_desktop(&mut lines, report, screenshots, other, style, full);
    push_downloads(&mut lines, report, items, style, full);
    push_actions(&mut lines, report, style, apply, delete_all);
    lines
}

} // verus!
