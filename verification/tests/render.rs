use life_os::cli::Command;
use life_os::commands::doctor::DoctorReport;
use life_os::commands::init::InitReport;
use life_os::commands::render::{render_doctor, render_init, render_tidy};
use life_os::commands::sizes::{human_bytes, FsNode};
use life_os::commands::tidy::TidyReport;
use life_os::commands::OutputStyle;

fn strings(items: &[&str]) -> Vec<String> {
    items.iter().map(|s| s.to_string()).collect()
}

fn small_report() -> TidyReport {
    TidyReport {
        desktop_screenshots: strings(&["/h/Desktop/Screenshot 1.png"]),
        desktop_other: strings(&["/h/Desktop/notes.txt"]),
        downloads_items: strings(&["/h/Downloads/a.zip", "/h/Downloads/b"]),
        downloads_total_bytes: 1536,
        downloads_old_items: strings(&["/h/Downloads/b"]),
        downloads_old_bytes: 512,
        planned_downloads_deletions: strings(&["/h/Downloads/b"]),
        planned_moves: vec![(
            "/h/Desktop/Screenshot 1.png".to_string(),
            "/h/Documents/screenshots/Screenshot 1.png".to_string(),
        )],
    }
}

#[test]
fn a_short_plain_tidy_report_gives_counts_and_sizes() {
    let report = small_report();
    let shots = vec![FsNode::File { len: 10 }];
    let other = vec![FsNode::File { len: 5 }];
    let items = vec![FsNode::File { len: 1024 }, FsNode::File { len: 512 }];
    let lines =
        render_tidy(&report, &shots, &other, &items, OutputStyle::new(true, false), false, false);
    assert_eq!(
        lines,
        vec![
            "life-os tidy",
            "OK Desktop clean, Downloads light",
            "",
            "Desktop",
            "- Screenshots: 1 (10 B)",
            "- Other files: 1 (5 B)",
            "",
            "Downloads",
            "- Items: 2 (1.5 KB)",
            "- Old (>7 days): 1 (512 B)",
        ]
    );
}

#[test]
fn a_full_plain_tidy_report_lists_every_path_and_the_actions() {
    let report = small_report();
    let shots = vec![FsNode::File { len: 10 }];
    let other = vec![FsNode::File { len: 5 }];
    let items = vec![FsNode::File { len: 1024 }];
    let lines =
        render_tidy(&report, &shots, &other, &items, OutputStyle::new(true, true), true, false);
    assert_eq!(
        lines,
        vec![
            "life-os tidy",
            "OK Desktop clean, Downloads light",
            "",
            "Desktop",
            "- Screenshots: 1 (10 B)",
            "- /h/Desktop/Screenshot 1.png (10 B)",
            "- Other files: 1 (5 B)",
            "- /h/Desktop/notes.txt (5 B)",
            "",
            "Downloads",
            "- Items: 2 (1.5 KB)",
            "- /h/Downloads/a.zip (1.0 KB)",
            "- /h/Downloads/b (0 B)",
            "- Old (>7 days): 1 (512 B)",
            "",
            "Actions",
            "- Moved screenshots: 1",
            "- Deleted downloads (>7 days): 1",
        ]
    );
    let all = render_tidy(&report, &shots, &other, &items, OutputStyle::new(true, true), true, true);
    assert_eq!(all[17], "- Deleted downloads (all): 1");
}

#[test]
fn a_busy_desktop_or_heavy_downloads_force_the_full_report() {
    let mut report = small_report();
    report.desktop_other = strings(&["/a", "/b", "/c"]);
    let lines = render_tidy(
        &report,
        &Vec::new(),
        &Vec::new(),
        &Vec::new(),
        OutputStyle::new(true, false),
        false,
        false,
    );
    assert_eq!(lines[1], "OK Desktop busy, Downloads light");
    assert_eq!(lines.len(), 10 + 1 + 3 + 2);
    assert_eq!(lines[7], "- /a (0 B)");

    let mut report = small_report();
    report.downloads_total_bytes = 6 * 1024 * 1024 * 1024;
    let lines = render_tidy(
        &report,
        &Vec::new(),
        &Vec::new(),
        &Vec::new(),
        OutputStyle::new(true, false),
        false,
        false,
    );
    assert_eq!(lines[1], "OK Desktop clean, Downloads heavy");
    assert_eq!(lines.len(), 14);

    let mut report = small_report();
    report.downloads_items = (0..101).map(|i| format!("/d/{}", i)).collect();
    let lines = render_tidy(
        &report,
        &Vec::new(),
        &Vec::new(),
        &Vec::new(),
        OutputStyle::new(true, false),
        false,
        false,
    );
    assert_eq!(lines[1], "OK Desktop clean, Downloads moderate");
    assert_eq!(lines.len(), 10 + 1 + 1 + 101);
}

#[test]
fn a_colored_tidy_report_marks_titles_counts_and_sizes() {
    let report = small_report();
    let lines = render_tidy(
        &report,
        &vec![FsNode::File { len: 10 }],
        &Vec::new(),
        &Vec::new(),
        OutputStyle::new(false, false),
        false,
        false,
    );
    assert_eq!(lines[0], "\u{1b}[36mlife-os tidy\u{1b}[0m");
    assert_eq!(lines[1], "\u{1b}[32m✓ Desktop clean, Downloads light\u{1b}[0m");
    assert_eq!(lines[3], "\u{1b}[36mDesktop\u{1b}[0m");
    assert_eq!(lines[4], "• Screenshots: \u{1b}[36m1\u{1b}[0m (\u{1b}[2m10 B\u{1b}[0m)");
}

#[test]
fn the_doctor_report_lists_what_is_missing() {
    let ok = DoctorReport { missing: vec![], areas: 2, required: 9, roots: strings(&["/h/System"]) };
    assert_eq!(
        render_doctor(&ok, OutputStyle::new(true, false)),
        vec!["life-os doctor", "OK Spec satisfied (2 areas, 9 folders)"]
    );
    assert_eq!(
        render_doctor(&ok, OutputStyle::new(true, true)),
        vec!["life-os doctor", "OK Spec satisfied (2 areas, 9 folders)", "", "Roots", "- /h/System"]
    );
    let bad = DoctorReport {
        missing: strings(&["/h/System/apps", "/h/Documents"]),
        areas: 2,
        required: 9,
        roots: strings(&["/h/System", "/h/Documents"]),
    };
    assert_eq!(
        render_doctor(&bad, OutputStyle::new(true, false)),
        vec![
            "life-os doctor",
            "ERROR Missing folders (2)",
            "",
            "Missing",
            "- /h/System/apps",
            "- /h/Documents",
        ]
    );
    let fancy = render_doctor(&bad, OutputStyle::new(false, false));
    assert_eq!(fancy[1], "\u{1b}[31m✗ Missing folders (2)\u{1b}[0m");
    assert_eq!(fancy[4], "• /h/System/apps");
}

#[test]
fn the_init_report_counts_what_was_created() {
    let none = InitReport { created: vec![] };
    assert_eq!(
        render_init(&none, OutputStyle::new(true, true)),
        vec!["life-os init", "OK Nothing to create (spec already satisfied)"]
    );
    let some = InitReport { created: strings(&["/h/a", "/h/a/b"]) };
    assert_eq!(
        render_init(&some, OutputStyle::new(true, false)),
        vec!["life-os init", "OK Created 2 folder(s)"]
    );
    assert_eq!(
        render_init(&some, OutputStyle::new(true, true)),
        vec!["life-os init", "OK Created 2 folder(s)", "", "Created", "- /h/a", "- /h/a/b"]
    );
}

#[test]
fn a_command_writes_in_the_style_of_its_switches() {
    let style = Command::Doctor { verbose: true, plain: false }.style();
    assert!(style.verbose && !style.plain);
    let style = Command::Init { verbose: false, plain: true }.style();
    assert!(!style.verbose && style.plain);
    let style = Command::Tidy { apply: true, all: true, verbose: false, plain: false }.style();
    assert!(!style.verbose && !style.plain);
}

fn scaled_in_double_precision(bytes: u64) -> String {
    let units = ["B", "KB", "MB", "GB", "TB", "PB"];
    if bytes < 1024 {
        return format!("{} B", bytes);
    }
    let mut value = bytes as f64;
    let mut unit = 0usize;
    while value >= 1024.0 && unit < units.len() - 1 {
        value /= 1024.0;
        unit += 1;
    }
    format!("{:.1} {}", value, units[unit])
}

#[test]
fn human_bytes_agrees_with_scaling_in_double_precision() {
    let mut samples: Vec<u64> = vec![0, 1, 1023, 1024, 1280, 1792, 1536, u64::MAX, u64::MAX - 1];
    for shift in 0..64u32 {
        let power = 1u64 << shift;
        for delta in [0u64, 1, 2, 3, 51, 52, 102, 103] {
            samples.push(power.wrapping_add(delta));
            samples.push(power.wrapping_sub(delta));
        }
    }
    for odd in [33u64, 35, 37, 45, 55, 65, 1025, 4097, 16383, 65535] {
        for delta in [0u64, 1, 2, 3] {
            samples.push((odd << 48).wrapping_add(delta));
            samples.push((odd << 48).wrapping_sub(delta));
            samples.push((odd << 38).wrapping_add(delta));
            samples.push((odd << 28).wrapping_add(delta));
            samples.push((odd << 8).wrapping_add(delta));
        }
    }
    let mut state: u64 = 0x9E37_79B9_7F4A_7C15;
    for _ in 0..20000 {
        state = state.wrapping_mul(6364136223846793005).wrapping_add(1442695040888963407);
        samples.push(state);
        samples.push(state >> (state % 64));
    }
    for bytes in samples {
        assert_eq!(human_bytes(bytes), scaled_in_double_precision(bytes), "for {} bytes", bytes);
    }
    assert_eq!(human_bytes((33 << 48) + 1), "8.2 PB");
    assert_eq!(human_bytes((33 << 48) + 2), "8.3 PB");
}
