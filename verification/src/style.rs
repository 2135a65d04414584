//! Styled text: an immutable pairing of a logical text with a foreground
//! color. Rendering wraps the text in ANSI SGR escape sequences; width
//! measurement for column alignment uses the logical text alone, so the
//! escapes never leak into layout.

use vstd::prelude::*;
use crate::strutil::push_char;

verus! {

/// A foreground color, rendered as an ANSI SGR sequence.
#[derive(Clone, Copy, PartialEq, Eq, Structural, Debug)]
pub enum Color {
    White,
    BrightWhite,
    BrightBlack,
    Red,
    Green,
    Yellow,
    Blue,
}

/// The SGR parameter digits that select `c` as the foreground color.
pub open spec fn sgr_code(c: Color) -> Seq<char> {
    match c {
        Color::White => seq!['3', '7'],
        Color::BrightWhite => seq!['9', '7'],
        Color::BrightBlack => seq!['9', '0'],
        Color::Red => seq!['3', '1'],
        Color::Green => seq!['3', '2'],
        Color::Yellow => seq!['3', '3'],
        Color::Blue => seq!['3', '4'],
    }
}

/// `text` wrapped in the SGR sequence that selects `c` and the SGR reset.
#[verifier::opaque]
pub open spec fn styled(text: Seq<char>, c: Color) -> Seq<char> {
    seq!['\u{1b}', '['] + sgr_code(c) + seq!['m'] + text + seq!['\u{1b}', '[', '0', 'm']
}

/// A cell of the table: a logical text and the color it is shown in.
/// The logical text is what remains when styling is stripped.
pub struct Cell {
    pub text: String,
    pub color: Color,
}

/// The mathematical value of a `Cell`.
#[verifier::ext_equal]
pub struct CellView {
    pub text: Seq<char>,
    pub color: Color,
}

impl View for Cell {
    type V = CellView;

    open spec fn view(&self) -> CellView {
        CellView { text: self.text@, color: self.color }
    }
}

/// The two digit characters of the SGR code for `c`.
fn sgr_code_chars(c: Color) -> (r: (char, char))
    ensures
        seq![r.0, r.1] == sgr_code(c),
{
    let r = match c {
        Color::White => ('3', '7'),
        Color::BrightWhite => ('9', '7'),
        Color::BrightBlack => ('9', '0'),
        Color::Red => ('3', '1'),
        Color::Green => ('3', '2'),
        Color::Yellow => ('3', '3'),
        Color::Blue => ('3', '4'),
    };
    proof {
        assert(seq![r.0, r.1] =~= sgr_code(c));
    }
    r
}

/// Appends `text` styled in color `c`: the SGR color sequence, the text,
/// then the SGR reset.
pub fn push_styled(out: &mut String, text: &str, c: Color)
    ensures
        final(out)@ == old(out)@ + styled(text@, c),
{
    let (d0, d1) = sgr_code_chars(c);
    push_char(out, '\u{1b}');
    push_char(out, '[');
    push_char(out, d0);
    push_char(out, d1);
    push_char(out, 'm');
    out.append(text);
    push_char(out, '\u{1b}');
    push_char(out, '[');
    push_char(out, '0');
    push_char(out, 'm');
    proof {
        reveal(styled);
        assert(out@ =~= old(out)@ + styled(text@, c));
    }
}

} // verus!
