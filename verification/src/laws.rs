//! Invariants of the listing pipeline, stated and proved over the same
//! spec functions the executable contracts use.

use vstd::prelude::*;
use crate::budget::spec_name_budget;
use crate::classify::{color_of, glyph_of, kind_of, EntryKind};
use crate::strutil::truncated;
use crate::table::{listing_text, row_of, rows_of, EntryView};

verus! {

/// Row count preservation: a listing has exactly one row per entry the
/// scanner yielded.
pub proof fn lemma_row_count(entries: Seq<EntryView>, name_budget: int)
    ensures
        rows_of(entries, name_budget).len() == entries.len(),
{
}

/// Ordering preservation: the display name of the row at any position is
/// the truncated name of the entry the scanner yielded at that position,
/// so the output names appear in scanner order.
pub proof fn lemma_order_preserved(entries: Seq<EntryView>, name_budget: int)
    ensures
        forall|i: int|
            0 <= i < entries.len() ==> #[trigger] rows_of(entries, name_budget)[i].name.text
                == truncated(entries[i].name, name_budget),
{
}

/// Type classification totality: every entry falls in exactly one
/// category, decided in the priority order directory, regular file,
/// symbolic link, unknown, and its glyph and color are the ones of that
/// category and of no other.
pub proof fn lemma_classification_total(is_dir: bool, is_file: bool, is_symlink: bool)
    ensures
        (kind_of(is_dir, is_file, is_symlink) == EntryKind::Directory) == is_dir,
        (kind_of(is_dir, is_file, is_symlink) == EntryKind::RegularFile) == (!is_dir && is_file),
        (kind_of(is_dir, is_file, is_symlink) == EntryKind::Symlink) == (!is_dir && !is_file
            && is_symlink),
        (kind_of(is_dir, is_file, is_symlink) == EntryKind::Unknown) == (!is_dir && !is_file
            && !is_symlink),
        glyph_of(kind_of(is_dir, is_file, is_symlink)) == '\u{f413}' || glyph_of(
            kind_of(is_dir, is_file, is_symlink),
        ) == '\u{ea7b}' || glyph_of(kind_of(is_dir, is_file, is_symlink)) == '\u{ea9c}' || glyph_of(
            kind_of(is_dir, is_file, is_symlink),
        ) == '?',
{
}

/// Every row carries exactly one glyph: the glyph cell of the row at any
/// position is the single code point of the category its entry's metadata
/// predicates select.
pub proof fn lemma_row_glyph(entries: Seq<EntryView>, name_budget: int)
    ensures
        forall|i: int|
            0 <= i < entries.len() ==> #[trigger] rows_of(entries, name_budget)[i].glyph.text
                =~= seq![
                glyph_of(
                    kind_of(entries[i].is_dir, entries[i].is_file, entries[i].is_symlink),
                ),
            ],
{
    assert forall|i: int| 0 <= i < entries.len() implies #[trigger] rows_of(
        entries,
        name_budget,
    )[i].glyph.text =~= seq![
        glyph_of(kind_of(entries[i].is_dir, entries[i].is_file, entries[i].is_symlink)),
    ] by {
        assert(rows_of(entries, name_budget)[i] == row_of(entries[i], name_budget));
    }
}

/// Each category keeps its own glyph and color, all four distinct.
pub proof fn lemma_glyphs_distinct()
    ensures
        glyph_of(EntryKind::Directory) == '\u{f413}',
        glyph_of(EntryKind::RegularFile) == '\u{ea7b}',
        glyph_of(EntryKind::Symlink) == '\u{ea9c}',
        glyph_of(EntryKind::Unknown) == '?',
        color_of(EntryKind::Directory) != color_of(EntryKind::RegularFile),
        color_of(EntryKind::Directory) != color_of(EntryKind::Symlink),
        color_of(EntryKind::Directory) != color_of(EntryKind::Unknown),
        color_of(EntryKind::RegularFile) != color_of(EntryKind::Symlink),
        color_of(EntryKind::RegularFile) != color_of(EntryKind::Unknown),
        color_of(EntryKind::Symlink) != color_of(EntryKind::Unknown),
{
}

/// Name truncation bound: the logical text of every name cell holds at
/// most `name_budget` Unicode scalar values.
pub proof fn lemma_name_truncation_bound(entries: Seq<EntryView>, name_budget: int)
    requires
        name_budget >= 0,
    ensures
        forall|i: int|
            0 <= i < entries.len() ==> #[trigger] rows_of(
                entries,
                name_budget,
            )[i].name.text.len() <= name_budget,
{
    assert forall|i: int| 0 <= i < entries.len() implies #[trigger] rows_of(
        entries,
        name_budget,
    )[i].name.text.len() <= name_budget by {
        assert(rows_of(entries, name_budget)[i] == row_of(entries[i], name_budget));
    }
}

/// Idempotence of rendering: the output is a function of the scanner
/// output, the directory path and the terminal width alone, so identical
/// inputs render to identical bytes.
pub proof fn lemma_rendering_idempotent(
    entries1: Seq<EntryView>,
    cwd1: Seq<char>,
    width1: Option<u16>,
    entries2: Seq<EntryView>,
    cwd2: Seq<char>,
    width2: Option<u16>,
)
    requires
        entries1 == entries2,
        cwd1 == cwd2,
        width1 == width2,
    ensures
        listing_text(entries1, cwd1, width1) == listing_text(entries2, cwd2, width2),
{
}

/// The name budget is never zero: whatever the probed width, at least one
/// character of every name survives truncation.
pub proof fn lemma_budget_at_least_one(width: Option<u16>)
    ensures
        spec_name_budget(width) >= 1,
{
}

} // verus!
