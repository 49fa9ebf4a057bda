use crate::commands::sizes::{dir_or_file_size, saturate, sizes_sum, FsNode};
use crate::commands::tidy::{options_wf, TidyOptions};
use crate::path::{is_absolute, join_path, join_spec};
use vstd::prelude::*;
use vstd::string::*;

pub mod destination;
pub mod doctor;
pub mod executor;
pub mod init;
pub mod laws;
pub mod render;
pub mod sizes;
pub mod tidy;

verus! {

/// How reports are written: with colors and symbols or plainly, in short or
/// in full.
#[derive(Clone, Copy)]
pub struct OutputStyle {
    pub plain: bool,
    pub verbose: bool,
}

/// The colors that a report uses.
#[derive(Clone, Copy)]
pub enum Color {
    Accent,
    Success,
    Error,
    Dim,
}

/// The terminal's number for a color.
pub open spec fn color_code(kind: Color) -> Seq<char> {
    match kind {
        Color::Accent => "36"@,
        Color::Success => "32"@,
        Color::Error => "31"@,
        Color::Dim => "2"@,
    }
}

/// A text wrapped in the escape sequences that switch a color on and off.
pub open spec fn color_spec(text: Seq<char>, kind: Color) -> Seq<char> {
    "\u{1b}["@ + color_code(kind) + "m"@ + text + "\u{1b}[0m"@
}

/// A text as a style shows it: unchanged when plain, colored otherwise.
pub open spec fn styled_spec(plain: bool, text: Seq<char>, kind: Color) -> Seq<char> {
    if plain {
        text
    } else {
        color_spec(text, kind)
    }
}

/// Wraps `text` in the escape sequences of a color.
pub fn color(text: &str, color_kind: Color) -> (r: String)
    ensures
        r@ == color_spec(text@, color_kind),
{
    let code = match color_kind {
        Color::Accent => "36",
        Color::Success => "32",
        Color::Error => "31",
        Color::Dim => "2",
    };
    let mut out = String::from_str("\u{1b}[");
    out.append(code);
    out.append("m");
    out.append(text);
    out.append("\u{1b}[0m");
    out
}

/// Colors `text` unless the style is plain.
pub fn color_if(style: OutputStyle, text: &str, color_kind: Color) -> (r: String)
    ensures
        r@ == styled_spec(style.plain, text@, color_kind),
{
    if style.plain {
        String::from_str(text)
    } else {
        color(text, color_kind)
    }
}

/// The mark in front of a list item: a dash when plain, a dot otherwise.
pub open spec fn bullet_spec(plain: bool) -> Seq<char> {
    if plain {
        "-"@
    } else {
        "•"@
    }
}

/// The mark of success: a word when plain, a check mark otherwise.
pub open spec fn ok_symbol_spec(plain: bool) -> Seq<char> {
    if plain {
        "OK"@
    } else {
        "✓"@
    }
}

/// The mark of failure: a word when plain, a cross otherwise.
pub open spec fn err_symbol_spec(plain: bool) -> Seq<char> {
    if plain {
        "ERROR"@
    } else {
        "✗"@
    }
}

/// The mark in front of a list item.
pub fn bullet(style: OutputStyle) -> (r: &'static str)
    ensures
        r@ == bullet_spec(style.plain),
{
    if style.plain {
        "-"
    } else {
        "•"
    }
}

impl OutputStyle {
    /// The style for the two switches that every command has.
    pub fn new(plain: bool, verbose: bool) -> (r: OutputStyle)
        ensures
            r.plain == plain,
            r.verbose == verbose,
    {
        OutputStyle { plain, verbose }
    }

    /// A report's title.
    pub fn header(&self, text: &str) -> (r: String)
        ensures
            r@ == styled_spec(self.plain, text@, Color::Accent),
    {
        color_if(*self, text, Color::Accent)
    }

    /// The mark of success.
    pub fn ok_symbol(&self) -> (r: &'static str)
        ensures
            r@ == ok_symbol_spec(self.plain),
    {
        if self.plain {
            "OK"
        } else {
            "✓"
        }
    }

    /// The mark of failure.
    pub fn err_symbol(&self) -> (r: &'static str)
        ensures
            r@ == err_symbol_spec(self.plain),
    {
        if self.plain {
            "ERROR"
        } else {
            "✗"
        }
    }

    /// A section's heading.
    pub fn section(&self, text: &str) -> (r: String)
        ensures
            r@ == styled_spec(self.plain, text@, Color::Accent),
    {
        color_if(*self, text, Color::Accent)
    }

    /// A text of less weight.
    pub fn dim(&self, text: &str) -> (r: String)
        ensures
            r@ == styled_spec(self.plain, text@, Color::Dim),
    {
        color_if(*self, text, Color::Dim)
    }

    /// A text that should stand out.
    pub fn highlight(&self, text: &str) -> (r: String)
        ensures
            r@ == styled_spec(self.plain, text@, Color::Accent),
    {
        color_if(*self, text, Color::Accent)
    }
}

/// How full the downloads folder is.
#[derive(Clone, Copy, Debug, PartialEq, Eq, Structural)]
pub enum DownloadsLevel {
    Light,
    Moderate,
    Heavy,
}

/// Bytes in a binary gigabyte.
pub const GB: u64 = 1024 * 1024 * 1024;

/// The level of a folder by its size: light up to 1 GB, moderate up to 5 GB,
/// heavy beyond.
pub open spec fn level_spec(total_bytes: u64) -> DownloadsLevel {
    if total_bytes <= GB {
        DownloadsLevel::Light
    } else if total_bytes <= 5 * GB {
        DownloadsLevel::Moderate
    } else {
        DownloadsLevel::Heavy
    }
}

/// The next level up; heavy stays heavy.
pub open spec fn bump_spec(level: DownloadsLevel) -> DownloadsLevel {
    match level {
        DownloadsLevel::Light => DownloadsLevel::Moderate,
        DownloadsLevel::Moderate => DownloadsLevel::Heavy,
        DownloadsLevel::Heavy => DownloadsLevel::Heavy,
    }
}

/// The word for a level.
pub open spec fn level_name(level: DownloadsLevel) -> Seq<char> {
    match level {
        DownloadsLevel::Light => "light"@,
        DownloadsLevel::Moderate => "moderate"@,
        DownloadsLevel::Heavy => "heavy"@,
    }
}

impl DownloadsLevel {
    /// The word for the level.
    pub fn as_str(self) -> (r: &'static str)
        ensures
            r@ == level_name(self),
    {
        match self {
            DownloadsLevel::Light => "light",
            DownloadsLevel::Moderate => "moderate",
            DownloadsLevel::Heavy => "heavy",
        }
    }

    /// The next level up; heavy stays heavy.
    pub fn bump(self) -> (r: DownloadsLevel)
        ensures
            r == bump_spec(self),
    {
        match self {
            DownloadsLevel::Light => DownloadsLevel::Moderate,
            DownloadsLevel::Moderate => DownloadsLevel::Heavy,
            DownloadsLevel::Heavy => DownloadsLevel::Heavy,
        }
    }

    /// Whether the level is the lowest.
    pub fn is_light(self) -> (r: bool)
        ensures
            r == (self == DownloadsLevel::Light),
    {
        match self {
            DownloadsLevel::Light => true,
            _ => false,
        }
    }
}

/// Grades the downloads folder by its size.
pub fn downloads_level(total_bytes: u64) -> (r: DownloadsLevel)
    ensures
        r == level_spec(total_bytes),
{
    if total_bytes <= 1 * GB {
        DownloadsLevel::Light
    } else if total_bytes <= 5 * GB {
        DownloadsLevel::Moderate
    } else {
        DownloadsLevel::Heavy
    }
}

/// The level that a report's summary shows: that of the total size, one
/// higher when there are more than a hundred items.
pub open spec fn shown_level_spec(total_bytes: u64, items: nat) -> DownloadsLevel {
    if items > 100 {
        bump_spec(level_spec(total_bytes))
    } else {
        level_spec(total_bytes)
    }
}

/// The desktop counts as clean with at most ten screenshots and at most two
/// other entries.
pub open spec fn desktop_clean_spec(screenshots: nat, other: nat) -> bool {
    screenshots <= 10 && other <= 2
}

/// Adds up the sizes of the scanned nodes, stopping at the largest `u64`.
pub fn total_size(nodes: &Vec<FsNode>) -> (total: u64)
    ensures
        total == saturate(sizes_sum(nodes@, nodes@.len())),
{
    let mut total: u64 = 0;
    let mut i: usize = 0;
    while i < nodes.len()
        invariant
            i <= nodes.len(),
            total == saturate(sizes_sum(nodes@, i as nat)),
        decreases nodes.len() - i,
    {
        total = total.saturating_add(dir_or_file_size(&nodes[i]));
        i += 1;
    }
    total
}

/// The options of a run on the usual folders below `home`.
pub fn home_options(home: &str, apply: bool, delete_all_downloads: bool) -> (r: TidyOptions)
    ensures
        r.apply == apply,
        r.delete_all_downloads == delete_all_downloads,
        r.desktop@ == join_spec(home@, "Desktop"@),
        r.downloads@ == join_spec(home@, "Downloads"@),
        r.screenshots_dest@ == join_spec(home@, "Documents/screenshots"@),
        is_absolute(home@) ==> options_wf(r),
{
    TidyOptions {
        apply,
        delete_all_downloads,
        desktop: join_path(home, "Desktop"),
        downloads: join_path(home, "Downloads"),
        screenshots_dest: join_path(home, "Documents/screenshots"),
    }
}

} // verus!
