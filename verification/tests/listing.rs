//! End-to-end tests of the listing pipeline: budgets, classification,
//! truncation, cells, and whole rendered outputs.

use dirlist::budget::compute_name_budget;
use dirlist::classify::{classify, color, glyph, EntryKind};
use dirlist::date::{atime_in_range, date_cell_text, MAX_DATE_SECS};
use dirlist::strutil::truncate_chars;
use dirlist::style::Color;
use dirlist::table::{build_row, render_listing, render_table, Entry};

fn sgr(code: &str, text: &str) -> String {
    format!("\u{1b}[{}m{}\u{1b}[0m", code, text)
}

fn entry(name: &str, is_dir: bool, is_file: bool, is_symlink: bool, size: u64, atime: i64) -> Entry {
    Entry {
        name: name.to_string(),
        is_dir,
        is_file,
        is_symlink,
        size,
        atime_secs: atime,
    }
}

// Unix timestamps of 2024-01-15T10:30:00Z and 2024-06-01T00:00:00Z.
const ATIME_JAN: i64 = 1705314600;
const ATIME_JUN: i64 = 1717200000;

#[test]
fn budget_default_when_width_unknown() {
    assert_eq!(compute_name_budget(None), 320);
}

#[test]
fn budget_narrow_clamp() {
    assert_eq!(compute_name_budget(Some(20)), 1);
    assert_eq!(compute_name_budget(Some(26)), 1);
    assert_eq!(compute_name_budget(Some(0)), 1);
}

#[test]
fn budget_from_width() {
    assert_eq!(compute_name_budget(Some(80)), 54);
    assert_eq!(compute_name_budget(Some(40)), 14);
    assert_eq!(compute_name_budget(Some(27)), 1);
}

#[test]
fn classify_priority_order() {
    assert_eq!(classify(true, true, true), EntryKind::Directory);
    assert_eq!(classify(true, false, false), EntryKind::Directory);
    assert_eq!(classify(false, true, true), EntryKind::RegularFile);
    assert_eq!(classify(false, false, true), EntryKind::Symlink);
    assert_eq!(classify(false, false, false), EntryKind::Unknown);
}

#[test]
fn glyph_and_color_mapping() {
    assert_eq!(glyph(EntryKind::Directory), '\u{f413}');
    assert_eq!(glyph(EntryKind::RegularFile), '\u{ea7b}');
    assert_eq!(glyph(EntryKind::Symlink), '\u{ea9c}');
    assert_eq!(glyph(EntryKind::Unknown), '?');
    assert_eq!(color(EntryKind::Directory), Color::Green);
    assert_eq!(color(EntryKind::RegularFile), Color::Blue);
    assert_eq!(color(EntryKind::Symlink), Color::Yellow);
    assert_eq!(color(EntryKind::Unknown), Color::BrightWhite);
}

#[test]
fn truncate_long_name() {
    let name = "x".repeat(200);
    let cut = truncate_chars(&name, 14);
    assert_eq!(cut, "x".repeat(14));
}

#[test]
fn truncate_counts_scalar_values_not_bytes() {
    let cut = truncate_chars("na\u{ef}ve.txt", 3);
    assert_eq!(cut, "na\u{ef}");
    assert_eq!(cut.chars().count(), 3);
}

#[test]
fn truncate_short_name_unchanged() {
    assert_eq!(truncate_chars("a.txt", 54), "a.txt");
}

#[test]
fn date_cell_epoch() {
    assert_eq!(date_cell_text(0), "1970-01-01");
}

#[test]
fn date_cell_example() {
    assert_eq!(date_cell_text(ATIME_JAN), "2024-01-15");
    assert_eq!(date_cell_text(ATIME_JUN), "2024-06-01");
}

#[test]
fn date_cell_last_supported_second() {
    assert_eq!(date_cell_text(MAX_DATE_SECS), "9999-12-31");
}

#[test]
fn date_cells_are_iso_calendar_dates() {
    for secs in [0, 1, 86399, 86400, 951868800, ATIME_JAN, ATIME_JUN, MAX_DATE_SECS] {
        let cell = date_cell_text(secs);
        let chars: Vec<char> = cell.chars().collect();
        assert_eq!(chars.len(), 10, "date cell {cell:?}");
        for (i, c) in chars.iter().enumerate() {
            if i == 4 || i == 7 {
                assert_eq!(*c, '-', "date cell {cell:?}");
            } else {
                assert!(c.is_ascii_digit(), "date cell {cell:?}");
            }
        }
    }
}

#[test]
fn atime_range_bounds() {
    assert!(!atime_in_range(-1));
    assert!(atime_in_range(0));
    assert!(atime_in_range(MAX_DATE_SECS));
    assert!(!atime_in_range(MAX_DATE_SECS + 1));
}

#[test]
fn size_cells() {
    let sizes: [(u64, &str); 6] = [
        (0, "0 B"),
        (7, "7 B"),
        (512, "512 B"),
        (1500, "1.5 KB"),
        (4096, "4.1 KB"),
        (1000000, "1 MB"),
    ];
    for (bytes, expected) in sizes {
        let r = build_row(&entry("f", false, true, false, bytes, ATIME_JAN), 54);
        assert_eq!(r.size.text, expected);
        assert_eq!(r.size.color, Color::Red);
    }
}

#[test]
fn size_cells_match_format() {
    for bytes in [0u64, 1, 9, 999, 1000, 1001, 123456, 98765432, 5000000000, u64::MAX] {
        let r = build_row(&entry("f", false, true, false, bytes, ATIME_JAN), 54);
        let cell = r.size.text;
        let (number, suffix) = cell.split_once(' ').expect("size cell has a space");
        assert!(["B", "KB", "MB", "GB", "TB", "PB", "EB", "ZB", "YB"].contains(&suffix), "{cell:?}");
        let mut parts = number.splitn(2, '.');
        let whole = parts.next().unwrap();
        assert!(!whole.is_empty() && whole.chars().all(|c| c.is_ascii_digit()), "{cell:?}");
        if let Some(frac) = parts.next() {
            assert!(!frac.is_empty() && frac.chars().all(|c| c.is_ascii_digit()), "{cell:?}");
        }
    }
}

#[test]
fn single_file_row_cells() {
    let r = build_row(&entry("hello.txt", false, true, false, 512, ATIME_JAN), 54);
    assert_eq!(r.glyph.text, "\u{ea7b}");
    assert_eq!(r.glyph.color, Color::Blue);
    assert_eq!(r.name.text, "hello.txt");
    assert_eq!(r.name.color, Color::White);
    assert_eq!(r.date.text, "2024-01-15");
    assert_eq!(r.date.color, Color::BrightBlack);
    assert_eq!(r.size.text, "512 B");
    assert_eq!(r.size.color, Color::Red);
}

#[test]
fn empty_directory_listing() {
    let out = render_listing(&Vec::new(), "/tmp/empty", Some(80));
    assert_eq!(out, "Reading /tmp/empty items[0]\n\n");
}

#[test]
fn single_file_listing() {
    let entries = vec![entry("hello.txt", false, true, false, 512, ATIME_JAN)];
    let out = render_listing(&entries, "/tmp/one", Some(80));
    let expected = format!(
        "Reading /tmp/one items[1]\n{}  {}  {}  {}\n\n",
        sgr("34", "\u{ea7b}"),
        sgr("37", "hello.txt"),
        sgr("90", "2024-01-15"),
        sgr("31", "512 B"),
    );
    assert_eq!(out, expected);
}

#[test]
fn mixed_entries_listing() {
    let entries = vec![
        entry("src", true, false, false, 4096, ATIME_JUN),
        entry("README", false, true, false, 1500, ATIME_JUN),
        entry("link", false, false, true, 7, ATIME_JUN),
    ];
    let out = render_listing(&entries, "/tmp/mix", Some(80));
    let expected = format!(
        "Reading /tmp/mix items[3]\n\
         {}  {}     {}  {}\n\
         {}  {}  {}  {}\n\
         {}  {}    {}  {}\n\n",
        sgr("32", "\u{f413}"),
        sgr("37", "src"),
        sgr("90", "2024-06-01"),
        sgr("31", "4.1 KB"),
        sgr("34", "\u{ea7b}"),
        sgr("37", "README"),
        sgr("90", "2024-06-01"),
        sgr("31", "1.5 KB"),
        sgr("33", "\u{ea9c}"),
        sgr("37", "link"),
        sgr("90", "2024-06-01"),
        sgr("31", "7 B"),
    );
    assert_eq!(out, expected);
}

#[test]
fn unknown_entry_glyph() {
    let entries = vec![entry("mystery", false, false, false, 0, ATIME_JAN)];
    let out = render_listing(&entries, "/tmp/odd", Some(80));
    assert!(out.contains(&sgr("97", "?")));
}

#[test]
fn row_count_preserved() {
    for n in [0usize, 1, 3, 7, 12] {
        let entries: Vec<Entry> = (0..n)
            .map(|i| entry(&format!("f{i}"), false, true, false, i as u64, ATIME_JAN))
            .collect();
        let out = render_listing(&entries, "/tmp/count", Some(80));
        assert!(out.starts_with(&format!("Reading /tmp/count items[{n}]\n")));
        // one header line, one line per row, one trailing newline
        assert_eq!(out.matches('\n').count(), n + 2);
    }
}

#[test]
fn ordering_preserved() {
    let entries = vec![
        entry("zeta", false, true, false, 1, ATIME_JAN),
        entry("alpha", false, true, false, 2, ATIME_JAN),
        entry("mid", false, true, false, 3, ATIME_JAN),
    ];
    let out = render_listing(&entries, "/tmp/order", Some(80));
    let pz = out.find(&sgr("37", "zeta")).expect("zeta shown");
    let pa = out.find(&sgr("37", "alpha")).expect("alpha shown");
    let pm = out.find(&sgr("37", "mid")).expect("mid shown");
    assert!(pz < pa && pa < pm);
}

#[test]
fn name_cell_within_budget() {
    for budget in [1usize, 2, 14, 54] {
        let r = build_row(&entry(&"y".repeat(100), false, true, false, 1, ATIME_JAN), budget);
        assert!(r.name.text.chars().count() <= budget);
    }
}

#[test]
fn narrow_terminal_clamps_names() {
    let entries = vec![entry("a.txt", false, true, false, 10, ATIME_JAN)];
    let out = render_listing(&entries, "/tmp/narrow", Some(20));
    assert!(out.contains(&sgr("37", "a")));
    assert!(!out.contains("a.txt"));
}

#[test]
fn rendering_is_idempotent() {
    let entries = vec![
        entry("one", false, true, false, 11, ATIME_JAN),
        entry("two", true, false, false, 22, ATIME_JUN),
    ];
    let a = render_listing(&entries, "/tmp/same", Some(60));
    let b = render_listing(&entries, "/tmp/same", Some(60));
    assert_eq!(a, b);
}

#[test]
fn columns_align_on_widest_name() {
    let rows = vec![
        build_row(&entry("ab", false, true, false, 1, ATIME_JAN), 54),
        build_row(&entry("abcdef", false, true, false, 2, ATIME_JAN), 54),
    ];
    let out = render_table(&rows, "/tmp/pad");
    // the shorter name is padded with four spaces up to the longer one
    assert!(out.contains(&format!("{}      ", sgr("37", "ab"))));
    assert!(out.contains(&format!("{}  ", sgr("37", "abcdef"))));
}
