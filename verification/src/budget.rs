//! Derivation of the name budget: the maximum number of Unicode scalar
//! values retained from a file name, computed from the terminal width.

use vstd::prelude::*;

verus! {

/// The name budget used when the terminal width cannot be queried.
pub const DEFAULT_NAME_BUDGET: usize = 320;

/// Columns reserved for the glyph, date and size cells and the separators
/// between the four columns.
pub const RESERVED_COLUMNS: u16 = 26;

/// The name budget for a given terminal width: the wide default when the
/// width is unknown, otherwise the width minus the reserved columns,
/// clamped so that at least one character of every name survives.
pub open spec fn spec_name_budget(width: Option<u16>) -> int {
    match width {
        None => DEFAULT_NAME_BUDGET as int,
        Some(w) => if w <= RESERVED_COLUMNS { 1 } else { w - RESERVED_COLUMNS },
    }
}

/// Computes the name budget from the probed terminal width.
pub fn compute_name_budget(width: Option<u16>) -> (b: usize)
    ensures
        b == spec_name_budget(width),
        b >= 1,
{
    match width {
        None => DEFAULT_NAME_BUDGET,
        Some(w) => {
            if w <= RESERVED_COLUMNS {
                1
            } else {
                (w - RESERVED_COLUMNS) as usize
            }
        },
    }
}

} // verus!
