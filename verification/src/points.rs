//! Showing points: which picture of the digit sheet stands for which digit.

use vstd::prelude::*;
use crate::text::chars_of;

verus! {

/// The picture that shows a digit: the sheet starts with `1` and ends with
/// `0`. Other characters have no picture.
pub open spec fn sprite_index(c: char) -> Option<usize> {
    if c == '0' {
        Some(9usize)
    } else if '1' <= c <= '9' {
        Some((c as int - '1' as int) as usize)
    } else {
        None
    }
}

/// The pictures that show the digits of a text, in order.
pub open spec fn sprite_indexes(text: Seq<char>) -> Seq<usize>
    decreases text.len(),
{
    if text.len() == 0 {
        Seq::empty()
    } else {
        let before = sprite_indexes(text.drop_last());
        match sprite_index(text.last()) {
            Some(index) => before.push(index),
            None => before,
        }
    }
}

/// Picks the pictures that show the digits of a text. Characters that are
/// no digits are passed over.
pub fn get_sprite_indexes(text: &String) -> (indexes: Vec<usize>)
    ensures
        indexes@ == sprite_indexes(text@),
{
    let mut r: Vec<usize> = Vec::new();
    let chars = chars_of(text.as_str());
    let mut at: usize = 0;
    while at < chars.len()
        invariant
            at <= chars.len(),
            chars@ == text@,
            r@ == sprite_indexes(text@.take(at as int)),
        decreases chars.len() - at,
    {
        assert(text@.take(at + 1).drop_last() =~= text@.take(at as int));
        match chars[at] {
            '0' => r.push(9),
            '1' => r.push(0),
            '2' => r.push(1),
            '3' => r.push(2),
            '4' => r.push(3),
            '5' => r.push(4),
            '6' => r.push(5),
            '7' => r.push(6),
            '8' => r.push(7),
            '9' => r.push(8),
            _ => {},
        }
        at += 1;
    }
    assert(text@.take(chars.len() as int) =~= text@);
    r
}

} // verus!
