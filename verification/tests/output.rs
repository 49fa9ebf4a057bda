use life_os::commands::sizes::FsNode;
use life_os::commands::{
    bullet, color, color_if, downloads_level, home_options, total_size, Color, DownloadsLevel,
    OutputStyle,
};

#[test]
fn colors_wrap_the_text_in_escape_sequences() {
    assert_eq!(color("hi", Color::Accent), "\u{1b}[36mhi\u{1b}[0m");
    assert_eq!(color("hi", Color::Success), "\u{1b}[32mhi\u{1b}[0m");
    assert_eq!(color("hi", Color::Error), "\u{1b}[31mhi\u{1b}[0m");
    assert_eq!(color("", Color::Dim), "\u{1b}[2m\u{1b}[0m");
}

#[test]
fn a_plain_style_leaves_text_and_uses_words_for_symbols() {
    let plain = OutputStyle::new(true, false);
    assert_eq!(plain.header("life-os tidy"), "life-os tidy");
    assert_eq!(plain.section("Desktop"), "Desktop");
    assert_eq!(plain.dim("x"), "x");
    assert_eq!(plain.highlight("3"), "3");
    assert_eq!(plain.ok_symbol(), "OK");
    assert_eq!(plain.err_symbol(), "ERROR");
    assert_eq!(bullet(plain), "-");
    assert_eq!(color_if(plain, "x", Color::Error), "x");
}

#[test]
fn a_colored_style_uses_colors_and_symbols() {
    let fancy = OutputStyle::new(false, true);
    assert!(fancy.verbose);
    assert_eq!(fancy.header("t"), "\u{1b}[36mt\u{1b}[0m");
    assert_eq!(fancy.section("t"), "\u{1b}[36mt\u{1b}[0m");
    assert_eq!(fancy.dim("t"), "\u{1b}[2mt\u{1b}[0m");
    assert_eq!(fancy.highlight("t"), "\u{1b}[36mt\u{1b}[0m");
    assert_eq!(fancy.ok_symbol(), "✓");
    assert_eq!(fancy.err_symbol(), "✗");
    assert_eq!(bullet(fancy), "•");
    assert_eq!(color_if(fancy, "x", Color::Success), "\u{1b}[32mx\u{1b}[0m");
}

#[test]
fn downloads_are_graded_by_size() {
    let gb: u64 = 1024 * 1024 * 1024;
    assert_eq!(downloads_level(0), DownloadsLevel::Light);
    assert_eq!(downloads_level(gb), DownloadsLevel::Light);
    assert_eq!(downloads_level(gb + 1), DownloadsLevel::Moderate);
    assert_eq!(downloads_level(5 * gb), DownloadsLevel::Moderate);
    assert_eq!(downloads_level(5 * gb + 1), DownloadsLevel::Heavy);
    assert_eq!(downloads_level(u64::MAX), DownloadsLevel::Heavy);
    assert_eq!(DownloadsLevel::Light.bump(), DownloadsLevel::Moderate);
    assert_eq!(DownloadsLevel::Moderate.bump(), DownloadsLevel::Heavy);
    assert_eq!(DownloadsLevel::Heavy.bump(), DownloadsLevel::Heavy);
    assert!(DownloadsLevel::Light.is_light());
    assert!(!DownloadsLevel::Moderate.is_light());
    assert!(!DownloadsLevel::Heavy.is_light());
    assert_eq!(DownloadsLevel::Light.as_str(), "light");
    assert_eq!(DownloadsLevel::Moderate.as_str(), "moderate");
    assert_eq!(DownloadsLevel::Heavy.as_str(), "heavy");
}

#[test]
fn total_size_adds_up_and_saturates() {
    let nodes = vec![
        FsNode::File { len: 10 },
        FsNode::Directory { children: vec![FsNode::File { len: 5 }] },
        FsNode::Other,
    ];
    assert_eq!(total_size(&nodes), 15);
    assert_eq!(total_size(&Vec::new()), 0);
    let big = vec![FsNode::File { len: u64::MAX }, FsNode::File { len: 1 }];
    assert_eq!(total_size(&big), u64::MAX);
}

#[test]
fn the_usual_folders_lie_below_home() {
    let options = home_options("/home/u", true, false);
    assert!(options.apply);
    assert!(!options.delete_all_downloads);
    assert_eq!(options.desktop, "/home/u/Desktop");
    assert_eq!(options.downloads, "/home/u/Downloads");
    assert_eq!(options.screenshots_dest, "/home/u/Documents/screenshots");
}
