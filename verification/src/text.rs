//! Comparing header text.

use vstd::prelude::*;

verus! {

/// The code point of a character, with the ASCII capitals `A` to `Z`
/// taken to their small letters. No other character is changed.
pub open spec fn ascii_fold(c: char) -> int {
    if 'A' <= c <= 'Z' {
        c as int + 32
    } else {
        c as int
    }
}

/// Whether two texts are equal but for the case of their ASCII letters.
pub open spec fn eq_ignore_ascii_case(a: Seq<char>, b: Seq<char>) -> bool {
    &&& a.len() == b.len()
    &&& forall|i: int| 0 <= i < a.len() ==> ascii_fold(#[trigger] a[i]) == ascii_fold(b[i])
}

/// Whether two characters are equal but for the case of an ASCII letter.
pub fn same_letter(a: char, b: char) -> (r: bool)
    ensures
        r == (ascii_fold(a) == ascii_fold(b)),
{
    let x: u32 = a as u32;
    let y: u32 = b as u32;
    let folded_x: u32 = if 65 <= x && x <= 90 {
        x + 32
    } else {
        x
    };
    let folded_y: u32 = if 65 <= y && y <= 90 {
        y + 32
    } else {
        y
    };
    folded_x == folded_y
}

/// The characters of a text, in order.
pub fn chars_of(text: &str) -> (r: Vec<char>)
    ensures
        r@ == text@,
{
    let mut out: Vec<char> = Vec::new();
    for c in it: text.chars()
        invariant
            it.seq() == text@,
            out@ == text@.take(it.index()),
    {
        out.push(c);
    }
    out
}

/// Whether `text` equals `name` but for the case of its ASCII letters.
pub fn matches_ignoring_case(text: &str, name: &Vec<char>) -> (r: bool)
    ensures
        r == eq_ignore_ascii_case(text@, name@),
{
    let mut i: usize = 0;
    for c in it: text.chars()
        invariant
            it.seq() == text@,
            i == it.index(),
            i <= name@.len(),
            forall|j: int| 0 <= j < i ==> ascii_fold(#[trigger] text@[j]) == ascii_fold(name@[j]),
    {
        if i >= name.len() {
            return false;
        }
        if !same_letter(c, name[i]) {
            return false;
        }
        i += 1;
    }
    i == name.len()
}

/// Whether `text` begins with `prefix`, character for character.
pub fn starts_with(text: &str, prefix: &Vec<char>) -> (r: bool)
    ensures
        r == prefix@.is_prefix_of(text@),
{
    let mut i: usize = 0;
    for c in it: text.chars()
        invariant
            it.seq() == text@,
            i == it.index(),
            i < prefix@.len() || (i == 0 && prefix@.len() == 0),
            forall|j: int| 0 <= j < i ==> #[trigger] text@[j] == prefix@[j],
    {
        if i >= prefix.len() {
            return true;
        }
        if c != prefix[i] {
            return false;
        }
        i += 1;
        if i == prefix.len() {
            return true;
        }
    }
    i == prefix.len()
}

} // verus!
