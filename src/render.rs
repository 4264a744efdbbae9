use vstd::prelude::*;

verus! {

/// What a cell shows as: printable ASCII other than space stands for itself,
/// anything else becomes a no-break space so that every cell keeps one column.
pub open spec fn glyph(c: char) -> char {
    if 33 <= c as u32 <= 126 {
        c
    } else {
        '\u{a0}'
    }
}

/// The glyph that stands for cell `c` on screen.
pub fn fix_char_width(c: char) -> (r: char)
    ensures
        r == glyph(c),
{
    let ac = c as u32;
    if 33 <= ac && ac <= 126 {
        c
    } else {
        '\u{a0}'
    }
}

} // verus!
