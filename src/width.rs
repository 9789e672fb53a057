use unicode_width::UnicodeWidthChar;
use vstd::prelude::*;

verus! {

/// The display width that `unicode_width` reports for a character in a CJK
/// context, `None` for a control character.
pub uninterp spec fn cjk_width_of(c: char) -> Option<usize>;

/// Columns a character occupies on screen; a control character occupies none.
pub open spec fn char_columns(c: char) -> nat {
    match cjk_width_of(c) {
        Some(w) => w as nat,
        None => 0,
    }
}

/// Columns occupied by a run of characters.
pub open spec fn columns(s: Seq<char>) -> nat
    decreases s.len(),
{
    if s.len() == 0 {
        0
    } else {
        columns(s.drop_last()) + char_columns(s.last())
    }
}

/// Relies on `unicode_width::UnicodeWidthChar::width_cjk`: the displayed width
/// of one character, ambiguous characters counted as wide, `None` for control
/// characters; it depends on the character alone.
#[verifier::external_body]
fn width_cjk(c: char) -> (r: Option<usize>)
    ensures
        r == cjk_width_of(c),
{
    c.width_cjk()
}

/// Columns a character occupies; control characters count as zero.
pub fn char_width(c: char) -> (r: usize)
    ensures
        r == char_columns(c),
{
    match width_cjk(c) {
        Some(w) => w,
        None => 0,
    }
}

} // verus!
