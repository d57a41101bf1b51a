use vstd::prelude::*;
use crate::scroll::line_total;

verus! {

/// Relies on `str::lines`, counted: lines end at `'\n'` (with an optional
/// `'\r'` before it) and the final line ending is optional.
#[verifier::external_body]
fn count_lines(s: &str) -> (r: usize)
    ensures
        r as nat == line_total(s@),
{
    s.lines().count()
}

/// The character and line counts of a text, as the reader's scroll bound
/// uses them.
pub fn text_metrics(text: &String) -> (r: (usize, usize))
    ensures
        r.0 as nat == text@.len(),
        r.1 as nat == line_total(text@),
{
    let chars = text.as_str().unicode_len();
    let lines = count_lines(text.as_str());
    (chars, lines)
}

} // verus!
