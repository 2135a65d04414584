//! Small string-building helpers shared by the formatting code: appending a
//! single character, runs of spaces, and truncation to a budget of Unicode
//! scalar values.

use vstd::prelude::*;

verus! {

/// Relies on `String::push`: appends exactly the given character.
#[verifier::external_body]
pub(crate) fn push_char(s: &mut String, c: char)
    ensures
        final(s)@ == old(s)@.push(c),
{
    s.push(c);
}

/// A run of `n` spaces (empty when `n` is not positive).
pub open spec fn spaces(n: int) -> Seq<char> {
    Seq::new(if n <= 0 { 0 } else { n as nat }, |i: int| ' ')
}

/// Appends `n` spaces to `s`.
pub fn push_spaces(s: &mut String, n: usize)
    ensures
        final(s)@ == old(s)@ + spaces(n as int),
{
    let mut i: usize = 0;
    while i < n
        invariant
            i <= n,
            s@ == old(s)@ + spaces(i as int),
        decreases n - i,
    {
        push_char(s, ' ');
        i = i + 1;
        proof {
            assert(s@ =~= old(s)@ + spaces(i as int));
        }
    }
}

/// The first `budget` scalar values of `name`, or all of `name` when it is
/// already short enough.
pub open spec fn truncated(name: Seq<char>, budget: int) -> Seq<char> {
    if name.len() <= budget {
        name
    } else {
        name.take(budget)
    }
}

/// Truncates `name` to at most `budget` Unicode scalar values, taken from
/// the start; never splits a multi-byte sequence.
pub fn truncate_chars(name: &str, budget: usize) -> (r: String)
    ensures
        r@ == truncated(name@, budget as int),
        r@.len() <= budget,
{
    let n = name.unicode_len();
    if n <= budget {
        name.to_owned()
    } else {
        let head = name.substring_char(0, budget);
        proof {
            assert(head@ =~= name@.take(budget as int));
        }
        head.to_owned()
    }
}

} // verus!
