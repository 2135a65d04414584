//! The size cell: a byte count rendered human-readably with decimal (SI)
//! prefixes, 1 KB = 1000 B. The rendering comes from the `human_bytes`
//! crate and is a function of the byte count alone.

use vstd::prelude::*;

verus! {

/// The human-readable decimal (SI) rendering of a byte count.
pub uninterp spec fn human_size_of(bytes: nat) -> Seq<char>;

/// Relies on `human_bytes::human_bytes` (decimal units): a human-readable
/// rendering of a byte count with SI prefixes, a function of the byte
/// count alone; a count of zero renders as `0 B`. The count is widened to
/// the double-precision input scale the renderer takes by
/// `num_traits::ToPrimitive::to_f64`, which never fails for an unsigned
/// count.
#[verifier::external_body]
pub(crate) fn human_size(bytes: u64) -> (r: String)
    ensures
        r@ == human_size_of(bytes as nat),
        bytes == 0 ==> r@ == "0 B"@,
{
    let wide = num_traits::ToPrimitive::to_f64(&bytes).unwrap();
    human_bytes::human_bytes(wide)
}

} // verus!
