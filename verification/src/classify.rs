//! Entry classification: maps an entry's metadata predicates to exactly one
//! category, and each category to its glyph and color.

use vstd::prelude::*;
use crate::style::Color;

verus! {

/// The category of a directory entry.
#[derive(Clone, Copy, PartialEq, Eq, Structural, Debug)]
pub enum EntryKind {
    Directory,
    RegularFile,
    Symlink,
    Unknown,
}

/// The category of an entry from its metadata predicates, in priority
/// order: directory, then regular file, then symbolic link, then unknown.
/// Fixing this order yields a single deterministic category per entry even
/// when a platform reports more than one predicate as true.
pub open spec fn kind_of(is_dir: bool, is_file: bool, is_symlink: bool) -> EntryKind {
    if is_dir {
        EntryKind::Directory
    } else if is_file {
        EntryKind::RegularFile
    } else if is_symlink {
        EntryKind::Symlink
    } else {
        EntryKind::Unknown
    }
}

/// The glyph shown for a category.
pub open spec fn glyph_of(k: EntryKind) -> char {
    match k {
        EntryKind::Directory => '\u{f413}',
        EntryKind::RegularFile => '\u{ea7b}',
        EntryKind::Symlink => '\u{ea9c}',
        EntryKind::Unknown => '?',
    }
}

/// The color shown for a category.
pub open spec fn color_of(k: EntryKind) -> Color {
    match k {
        EntryKind::Directory => Color::Green,
        EntryKind::RegularFile => Color::Blue,
        EntryKind::Symlink => Color::Yellow,
        EntryKind::Unknown => Color::BrightWhite,
    }
}

/// Classifies an entry from its metadata predicates.
pub fn classify(is_dir: bool, is_file: bool, is_symlink: bool) -> (k: EntryKind)
    ensures
        k == kind_of(is_dir, is_file, is_symlink),
{
    if is_dir {
        EntryKind::Directory
    } else if is_file {
        EntryKind::RegularFile
    } else if is_symlink {
        EntryKind::Symlink
    } else {
        EntryKind::Unknown
    }
}

/// The glyph for a category.
pub fn glyph(k: EntryKind) -> (c: char)
    ensures
        c == glyph_of(k),
{
    match k {
        EntryKind::Directory => '\u{f413}',
        EntryKind::RegularFile => '\u{ea7b}',
        EntryKind::Symlink => '\u{ea9c}',
        EntryKind::Unknown => '?',
    }
}

/// The color for a category.
pub fn color(k: EntryKind) -> (c: Color)
    ensures
        c == color_of(k),
{
    match k {
        EntryKind::Directory => Color::Green,
        EntryKind::RegularFile => Color::Blue,
        EntryKind::Symlink => Color::Yellow,
        EntryKind::Unknown => Color::BrightWhite,
    }
}

} // verus!
