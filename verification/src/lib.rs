//! A directory-listing formatter: turns a sequence of directory entries
//! (name, type flags, size, access time) into a colorized, width-aware
//! table, one row per entry, rendered as a single output string.

use vstd::prelude::*;

pub mod budget;
pub mod classify;
pub mod date;
pub mod laws;
pub mod numfmt;
pub mod size;
pub mod strutil;
pub mod style;
pub mod table;

verus! {

} // verus!
