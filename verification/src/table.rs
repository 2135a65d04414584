//! Row assembly and table rendering: each directory entry becomes one row
//! of four styled cells (glyph, name, date, size); the table is a header
//! line followed by the rows, left-aligned in columns two spaces apart,
//! column widths taken from the widest logical cell text in each column.

use vstd::prelude::*;
use crate::budget::{compute_name_budget, spec_name_budget};
use crate::classify::{classify, color, color_of, glyph, glyph_of, kind_of};
use crate::date::{date_cell_text, date_text, is_date_shape, valid_atime};
use crate::numfmt::{dec_str, u64_to_dec};
use crate::size::{human_size, human_size_of};
use crate::strutil::{push_char, push_spaces, spaces, truncate_chars, truncated};
use crate::style::{push_styled, styled, Cell, CellView, Color};

verus! {

/// One directory entry as the scanner reports it: the short name, the
/// metadata predicates, the byte size, and the access timestamp as Unix
/// seconds in UTC.
pub struct Entry {
    pub name: String,
    pub is_dir: bool,
    pub is_file: bool,
    pub is_symlink: bool,
    pub size: u64,
    pub atime_secs: i64,
}

/// The mathematical value of an `Entry`.
#[verifier::ext_equal]
pub struct EntryView {
    pub name: Seq<char>,
    pub is_dir: bool,
    pub is_file: bool,
    pub is_symlink: bool,
    pub size: u64,
    pub atime_secs: i64,
}

impl View for Entry {
    type V = EntryView;

    open spec fn view(&self) -> EntryView {
        EntryView {
            name: self.name@,
            is_dir: self.is_dir,
            is_file: self.is_file,
            is_symlink: self.is_symlink,
            size: self.size,
            atime_secs: self.atime_secs,
        }
    }
}

/// One row of the table: four styled cells.
pub struct Row {
    pub glyph: Cell,
    pub name: Cell,
    pub date: Cell,
    pub size: Cell,
}

/// The mathematical value of a `Row`.
#[verifier::ext_equal]
pub struct RowView {
    pub glyph: CellView,
    pub name: CellView,
    pub date: CellView,
    pub size: CellView,
}

impl View for Row {
    type V = RowView;

    open spec fn view(&self) -> RowView {
        RowView { glyph: self.glyph@, name: self.name@, date: self.date@, size: self.size@ }
    }
}

/// The views of a sequence of entries.
pub open spec fn entry_views(entries: Seq<Entry>) -> Seq<EntryView> {
    entries.map_values(|e: Entry| e@)
}

/// The views of a sequence of rows.
pub open spec fn row_views(rows: Seq<Row>) -> Seq<RowView> {
    rows.map_values(|r: Row| r@)
}

/// The row an entry becomes under a given name budget: its category's
/// glyph in the category's color, the truncated name in white, the access
/// date in bright black, the human-readable size in red.
pub open spec fn row_of(e: EntryView, name_budget: int) -> RowView {
    let k = kind_of(e.is_dir, e.is_file, e.is_symlink);
    RowView {
        glyph: CellView { text: seq![glyph_of(k)], color: color_of(k) },
        name: CellView { text: truncated(e.name, name_budget), color: Color::White },
        date: CellView { text: date_text(e.atime_secs as int), color: Color::BrightBlack },
        size: CellView { text: human_size_of(e.size as nat), color: Color::Red },
    }
}

/// The rows of a sequence of entries, one per entry, in the same order.
pub open spec fn rows_of(entries: Seq<EntryView>, name_budget: int) -> Seq<RowView> {
    entries.map_values(|e: EntryView| row_of(e, name_budget))
}

/// Builds the presentation row for one entry.
pub fn build_row(e: &Entry, name_budget: usize) -> (r: Row)
    requires
        valid_atime(e.atime_secs as int),
    ensures
        r@ == row_of(e@, name_budget as int),
        r@.name.text.len() <= name_budget,
        is_date_shape(r@.date.text),
        r@.glyph.text.len() == 1,
{
    let k = classify(e.is_dir, e.is_file, e.is_symlink);
    let mut g = String::new();
    push_char(&mut g, glyph(k));
    let r = Row {
        glyph: Cell { text: g, color: color(k) },
        name: Cell { text: truncate_chars(e.name.as_str(), name_budget), color: Color::White },
        date: Cell { text: date_cell_text(e.atime_secs), color: Color::BrightBlack },
        size: Cell { text: human_size(e.size), color: Color::Red },
    };
    proof {
        assert(r@.glyph.text =~= seq![glyph_of(kind_of(e.is_dir, e.is_file, e.is_symlink))]);
        assert(r@ =~= row_of(e@, name_budget as int));
    }
    r
}

/// The cell of `r` in column `j` (glyph, name, date, size in that order).
pub open spec fn cell_at(r: RowView, j: int) -> CellView {
    if j == 0 {
        r.glyph
    } else if j == 1 {
        r.name
    } else if j == 2 {
        r.date
    } else {
        r.size
    }
}

/// The width of column `j`: the length of the longest logical cell text in
/// that column, over all rows. Styling is not part of the logical text, so
/// escape sequences never contribute to a column's width.
pub open spec fn col_width(rows: Seq<RowView>, j: int) -> nat
    decreases rows.len(),
{
    if rows.len() == 0 {
        0
    } else {
        let rest = col_width(rows.drop_last(), j);
        let last = cell_at(rows.last(), j).text.len();
        if last > rest {
            last
        } else {
            rest
        }
    }
}

/// No cell is wider than its column.
pub proof fn lemma_col_width_bound(rows: Seq<RowView>, j: int, i: int)
    requires
        0 <= i < rows.len(),
    ensures
        cell_at(rows[i], j).text.len() <= col_width(rows, j),
    decreases rows.len(),
{
    if i == rows.len() - 1 {
        assert(rows.last() == rows[i]);
    } else {
        lemma_col_width_bound(rows.drop_last(), j, i);
        assert(rows.drop_last()[i] == rows[i]);
    }
}

/// A cell rendered into a column of width `w`: the styled text, then
/// spaces up to the column width.
pub open spec fn rendered_cell(c: CellView, w: nat) -> Seq<char> {
    styled(c.text, c.color) + spaces(w - c.text.len())
}

/// A row rendered under the given widths of the first three columns: the
/// four cells, two spaces between columns, the last column unpadded, and a
/// terminating newline.
pub open spec fn rendered_row(r: RowView, w0: nat, w1: nat, w2: nat) -> Seq<char> {
    rendered_cell(r.glyph, w0) + seq![' ', ' '] + rendered_cell(r.name, w1) + seq![' ', ' ']
        + rendered_cell(r.date, w2) + seq![' ', ' '] + styled(r.size.text, r.size.color)
        + seq!['\n']
}

/// All rows rendered in order under the given column widths.
pub open spec fn rendered_rows(rows: Seq<RowView>, w0: nat, w1: nat, w2: nat) -> Seq<char>
    decreases rows.len(),
{
    if rows.len() == 0 {
        Seq::empty()
    } else {
        rendered_rows(rows.drop_last(), w0, w1, w2) + rendered_row(rows.last(), w0, w1, w2)
    }
}

/// The header line: the directory being read and the number of entries.
pub open spec fn header_text(cwd: Seq<char>, n: nat) -> Seq<char> {
    "Reading "@ + cwd + " items["@ + dec_str(n) + "]"@ + seq!['\n']
}

/// The table body: the rows under the widths of their own columns, and the
/// trailing newline after the table.
pub open spec fn table_text(rows: Seq<RowView>) -> Seq<char> {
    rendered_rows(rows, col_width(rows, 0), col_width(rows, 1), col_width(rows, 2)) + seq!['\n']
}

/// The whole output for a run: the header, then the table built from the
/// entries in scanner order under the name budget the terminal width gives.
pub open spec fn listing_text(entries: Seq<EntryView>, cwd: Seq<char>, width: Option<u16>) -> Seq<
    char,
> {
    header_text(cwd, entries.len()) + table_text(rows_of(entries, spec_name_budget(width)))
}

/// The widths of the glyph, name and date columns of `rows`.
fn col_widths(rows: &Vec<Row>) -> (w: (usize, usize, usize))
    ensures
        w.0 == col_width(row_views(rows@), 0),
        w.1 == col_width(row_views(rows@), 1),
        w.2 == col_width(row_views(rows@), 2),
{
    let ghost rv = row_views(rows@);
    let mut w0: usize = 0;
    let mut w1: usize = 0;
    let mut w2: usize = 0;
    let mut i: usize = 0;
    while i < rows.len()
        invariant
            i <= rows.len(),
            rv == row_views(rows@),
            rv.len() == rows@.len(),
            w0 == col_width(rv.take(i as int), 0),
            w1 == col_width(rv.take(i as int), 1),
            w2 == col_width(rv.take(i as int), 2),
        decreases rows.len() - i,
    {
        let l0 = rows[i].glyph.text.as_str().unicode_len();
        let l1 = rows[i].name.text.as_str().unicode_len();
        let l2 = rows[i].date.text.as_str().unicode_len();
        proof {
            assert(rv.take(i + 1).drop_last() =~= rv.take(i as int));
            assert(rv.take(i + 1).last() == rv[i as int]);
            assert(rv[i as int] == rows@[i as int]@);
        }
        if l0 > w0 {
            w0 = l0;
        }
        if l1 > w1 {
            w1 = l1;
        }
        if l2 > w2 {
            w2 = l2;
        }
        i = i + 1;
    }
    proof {
        assert(rv.take(rows@.len() as int) =~= rv);
    }
    (w0, w1, w2)
}

/// Appends one rendered row: each of the first three cells styled and then
/// padded to its column width, two spaces between columns, the size cell
/// unpadded, and a newline.
#[verifier::rlimit(50)]
fn push_row(out: &mut String, r: &Row, w0: usize, w1: usize, w2: usize)
    requires
        r@.glyph.text.len() <= w0,
        r@.name.text.len() <= w1,
        r@.date.text.len() <= w2,
    ensures
        final(out)@ == old(out)@ + rendered_row(r@, w0 as nat, w1 as nat, w2 as nat),
{
    push_styled(out, r.glyph.text.as_str(), r.glyph.color);
    let l0 = r.glyph.text.as_str().unicode_len();
    push_spaces(out, w0 - l0);
    push_char(out, ' ');
    push_char(out, ' ');
    let ghost s1 = old(out)@ + rendered_cell(r@.glyph, w0 as nat) + seq![' ', ' '];
    proof {
        assert(out@ =~= s1);
    }
    push_styled(out, r.name.text.as_str(), r.name.color);
    let l1 = r.name.text.as_str().unicode_len();
    push_spaces(out, w1 - l1);
    push_char(out, ' ');
    push_char(out, ' ');
    let ghost s2 = s1 + rendered_cell(r@.name, w1 as nat) + seq![' ', ' '];
    proof {
        assert(out@ =~= s2);
    }
    push_styled(out, r.date.text.as_str(), r.date.color);
    let l2 = r.date.text.as_str().unicode_len();
    push_spaces(out, w2 - l2);
    push_char(out, ' ');
    push_char(out, ' ');
    let ghost s3 = s2 + rendered_cell(r@.date, w2 as nat) + seq![' ', ' '];
    proof {
        assert(out@ =~= s3);
    }
    push_styled(out, r.size.text.as_str(), r.size.color);
    push_char(out, '\n');
    proof {
        assert(out@ =~= s3 + styled(r@.size.text, r@.size.color) + seq!['\n']);
        assert(out@ =~= old(out)@ + rendered_row(r@, w0 as nat, w1 as nat, w2 as nat));
    }
}

/// Renders the header line and the table for the given rows.
pub fn render_table(rows: &Vec<Row>, cwd: &str) -> (out: String)
    ensures
        out@ == header_text(cwd@, rows@.len()) + table_text(row_views(rows@)),
{
    let ghost rv = row_views(rows@);
    let mut out = String::new();
    out.append("Reading ");
    out.append(cwd);
    out.append(" items[");
    let count = u64_to_dec(rows.len() as u64);
    out.append(count.as_str());
    out.append("]");
    push_char(&mut out, '\n');
    proof {
        assert(out@ =~= header_text(cwd@, rows@.len()));
    }
    let ghost header = out@;
    let (w0, w1, w2) = col_widths(rows);
    let mut i: usize = 0;
    while i < rows.len()
        invariant
            i <= rows.len(),
            rv == row_views(rows@),
            rv.len() == rows@.len(),
            w0 == col_width(rv, 0),
            w1 == col_width(rv, 1),
            w2 == col_width(rv, 2),
            out@ == header + rendered_rows(rv.take(i as int), w0 as nat, w1 as nat, w2 as nat),
        decreases rows.len() - i,
    {
        proof {
            lemma_col_width_bound(rv, 0, i as int);
            lemma_col_width_bound(rv, 1, i as int);
            lemma_col_width_bound(rv, 2, i as int);
            assert(rv[i as int] == rows@[i as int]@);
            assert(rv.take(i + 1).drop_last() =~= rv.take(i as int));
            assert(rv.take(i + 1).last() == rv[i as int]);
        }
        push_row(&mut out, &rows[i], w0, w1, w2);
        i = i + 1;
    }
    proof {
        assert(rv.take(rows@.len() as int) =~= rv);
    }
    push_char(&mut out, '\n');
    proof {
        assert(out@ =~= header_text(cwd@, rows@.len()) + table_text(rv));
    }
    out
}

/// The whole pipeline after the scan: derives the name budget from the
/// terminal width, builds one row per entry in scanner order, and renders
/// the header and the table. The output is a function of the entries, the
/// directory path and the width alone, so identical inputs render
/// identically.
pub fn render_listing(entries: &Vec<Entry>, cwd: &str, width: Option<u16>) -> (out: String)
    requires
        forall|i: int|
            0 <= i < entries@.len() ==> valid_atime(#[trigger] entries@[i].atime_secs as int),
    ensures
        out@ == listing_text(entry_views(entries@), cwd@, width),
{
    let ghost ev = entry_views(entries@);
    let name_budget = compute_name_budget(width);
    let mut rows: Vec<Row> = Vec::new();
    let mut i: usize = 0;
    while i < entries.len()
        invariant
            i <= entries.len(),
            ev == entry_views(entries@),
            ev.len() == entries@.len(),
            name_budget == spec_name_budget(width),
            rows@.len() == i,
            forall|j: int| 0 <= j < i ==> rows@[j]@ == row_of(ev[j], name_budget as int),
            forall|k: int|
                0 <= k < entries@.len() ==> valid_atime(#[trigger] entries@[k].atime_secs as int),
        decreases entries.len() - i,
    {
        let r = build_row(&entries[i], name_budget);
        proof {
            assert(ev[i as int] == entries@[i as int]@);
        }
        rows.push(r);
        i = i + 1;
    }
    proof {
        let target = rows_of(ev, name_budget as int);
        assert forall|j: int| 0 <= j < ev.len() implies row_views(rows@)[j] == target[j] by {
            assert(row_views(rows@)[j] == rows@[j]@);
            assert(target[j] == row_of(ev[j], name_budget as int));
        }
        assert(row_views(rows@) =~= target);
    }
    let out = render_table(&rows, cwd);
    proof {
        assert(rows@.len() == ev.len());
        assert(out@ == listing_text(ev, cwd@, width));
    }
    out
}

} // verus!
