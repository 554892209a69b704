//! Cutting a text into the pieces between separators.

use vstd::prelude::*;

verus! {

/// Index of the first `sep` in `s`, or the length of `s` if it holds none.
pub open spec fn first_sep(s: Seq<char>, sep: char) -> int
    decreases s.len(),
{
    if s.len() == 0 || s[0] == sep {
        0
    } else {
        1 + first_sep(s.drop_first(), sep)
    }
}

/// The pieces of `s` between occurrences of `sep`, in order. There is one
/// piece more than there are separators, and a piece may be empty.
pub open spec fn split(s: Seq<char>, sep: char) -> Seq<Seq<char>>
    decreases s.len(),
{
    let cut = first_sep(s, sep);
    if 0 <= cut < s.len() {
        seq![s.subrange(0, cut)] + split(s.subrange(cut + 1, s.len() as int), sep)
    } else {
        seq![s]
    }
}

/// The views of a vector of pieces.
pub open spec fn piece_views(pieces: Seq<Vec<char>>) -> Seq<Seq<char>> {
    Seq::new(pieces.len(), |i: int| pieces[i]@)
}

/// `first_sep` is where the first separator stands: nothing before it is
/// one, and it is one unless the text ended first.
pub proof fn lemma_first_sep(s: Seq<char>, sep: char)
    ensures
        0 <= first_sep(s, sep) <= s.len(),
        forall|i: int| 0 <= i < first_sep(s, sep) ==> s[i] != sep,
        first_sep(s, sep) < s.len() ==> s[first_sep(s, sep)] == sep,
    decreases s.len(),
{
    if !(s.len() == 0 || s[0] == sep) {
        let rest = s.drop_first();
        lemma_first_sep(rest, sep);
        assert forall|i: int| 0 <= i < first_sep(s, sep) implies s[i] != sep by {
            if i > 0 {
                assert(s[i] == rest[i - 1]);
            }
        }
        if first_sep(s, sep) < s.len() {
            assert(s[first_sep(s, sep)] == rest[first_sep(rest, sep)]);
        }
    }
}

/// A position with no separator before it, and with a separator or the
/// text's end at it, is `first_sep`.
pub proof fn lemma_first_sep_is(s: Seq<char>, sep: char, at: int)
    requires
        0 <= at <= s.len(),
        forall|i: int| 0 <= i < at ==> s[i] != sep,
        at < s.len() ==> s[at] == sep,
    ensures
        first_sep(s, sep) == at,
{
    lemma_first_sep(s, sep);
    let found = first_sep(s, sep);
    if found < at {
        assert(s[found] == sep);
    } else if found > at {
        assert(s[at] != sep);
    }
}

/// A text has at least one piece, and no piece holds a separator.
pub proof fn law_pieces_hold_no_separator(s: Seq<char>, sep: char)
    ensures
        split(s, sep).len() >= 1,
        forall|i: int, j: int|
            0 <= i < split(s, sep).len() && 0 <= j < split(s, sep)[i].len() ==> split(
                s,
                sep,
            )[i][j] != sep,
    decreases s.len(),
{
    lemma_first_sep(s, sep);
    let cut = first_sep(s, sep);
    if 0 <= cut < s.len() {
        let rest = s.subrange(cut + 1, s.len() as int);
        law_pieces_hold_no_separator(rest, sep);
        assert forall|i: int, j: int|
            0 <= i < split(s, sep).len() && 0 <= j < split(s, sep)[i].len() implies split(
            s,
            sep,
        )[i][j] != sep by {
            if i > 0 {
                assert(split(s, sep)[i] == split(rest, sep)[i - 1]);
            }
        }
    }
}

/// A text has at most one piece more than it has characters, and no piece
/// is longer than the text.
pub proof fn lemma_split_len(s: Seq<char>, sep: char)
    ensures
        1 <= split(s, sep).len() <= s.len() + 1,
        forall|i: int|
            0 <= i < split(s, sep).len() ==> (#[trigger] split(s, sep)[i]).len() <= s.len(),
    decreases s.len(),
{
    lemma_first_sep(s, sep);
    let cut = first_sep(s, sep);
    if 0 <= cut < s.len() {
        let rest = s.subrange(cut + 1, s.len() as int);
        lemma_split_len(rest, sep);
        assert forall|i: int| 0 <= i < split(s, sep).len() implies (#[trigger] split(
            s,
            sep,
        )[i]).len() <= s.len() by {
            if i > 0 {
                assert(split(s, sep)[i] == split(rest, sep)[i - 1]);
            }
        }
    }
}

/// Number of characters in all the pieces together.
pub open spec fn total_len(pieces: Seq<Seq<char>>) -> nat
    decreases pieces.len(),
{
    if pieces.len() == 0 {
        0
    } else {
        total_len(pieces.drop_last()) + pieces.last().len()
    }
}

/// The characters of a piece in front count with those of the rest.
pub proof fn lemma_total_len_front(first: Seq<char>, rest: Seq<Seq<char>>)
    ensures
        total_len(seq![first] + rest) == first.len() + total_len(rest),
    decreases rest.len(),
{
    let all = seq![first] + rest;
    reveal_with_fuel(total_len, 2);
    if rest.len() == 0 {
        assert(all.drop_last() =~= Seq::<Seq<char>>::empty());
        assert(all.last() == first);
    } else {
        assert(all.drop_last() =~= seq![first] + rest.drop_last());
        assert(all.last() == rest.last());
        lemma_total_len_front(first, rest.drop_last());
    }
}

/// The pieces of a text hold all of its characters but the separators, of
/// which there is one fewer than there are pieces.
pub proof fn lemma_split_total(s: Seq<char>, sep: char)
    ensures
        total_len(split(s, sep)) + split(s, sep).len() == s.len() + 1,
    decreases s.len(),
{
    lemma_first_sep(s, sep);
    let cut = first_sep(s, sep);
    if 0 <= cut < s.len() {
        let rest = s.subrange(cut + 1, s.len() as int);
        lemma_split_total(rest, sep);
        lemma_total_len_front(s.subrange(0, cut), split(rest, sep));
    } else {
        reveal_with_fuel(total_len, 2);
        assert(seq![s].drop_last() =~= Seq::<Seq<char>>::empty());
        assert(seq![s].last() == s);
    }
}

/// The characters of a text, one by one.
pub fn chars_of(text: &str) -> (chars: Vec<char>)
    ensures
        chars@ == text@,
{
    let mut chars: Vec<char> = Vec::new();
    let count: usize = text.unicode_len();
    let mut at: usize = 0;
    while at < count
        invariant
            count == text@.len(),
            at <= count,
            chars@ == text@.subrange(0, at as int),
        decreases count - at,
    {
        chars.push(text.get_char(at));
        at += 1;
        assert(chars@ =~= text@.subrange(0, at as int));
    }
    assert(text@.subrange(0, count as int) =~= text@);
    chars
}

/// Cuts `s` at every `sep`.
pub fn split_chars(s: &Vec<char>, sep: char) -> (pieces: Vec<Vec<char>>)
    ensures
        piece_views(pieces@) == split(s@, sep),
{
    let mut pieces: Vec<Vec<char>> = Vec::new();
    let mut piece: Vec<char> = Vec::new();
    let mut from: usize = 0;
    let mut at: usize = 0;
    proof {
        assert(s@.subrange(0, s@.len() as int) =~= s@);
        assert(piece_views(pieces@) + split(s@, sep) =~= split(s@, sep));
    }
    while at < s.len()
        invariant
            from <= at <= s.len(),
            piece@ == s@.subrange(from as int, at as int),
            forall|i: int| from <= i < at ==> s@[i] != sep,
            split(s@, sep) == piece_views(pieces@) + split(
                s@.subrange(from as int, s@.len() as int),
                sep,
            ),
        decreases s.len() - at,
    {
        let c: char = s[at];
        if c == sep {
            proof {
                let tail = s@.subrange(from as int, s@.len() as int);
                lemma_first_sep_is(tail, sep, at - from);
                assert(tail.subrange(0, at - from) =~= piece@);
                assert(tail.subrange(at - from + 1, tail.len() as int) =~= s@.subrange(
                    at + 1,
                    s@.len() as int,
                ));
                assert(piece_views(pieces@.push(piece)) =~= piece_views(pieces@) + seq![piece@]);
            }
            pieces.push(piece);
            piece = Vec::new();
            from = at + 1;
        } else {
            piece.push(c);
            assert(piece@ =~= s@.subrange(from as int, at + 1));
        }
        at += 1;
        assert(piece@ =~= s@.subrange(from as int, at as int));
    }
    proof {
        let tail = s@.subrange(from as int, s@.len() as int);
        lemma_first_sep_is(tail, sep, tail.len() as int);
        assert(tail =~= piece@);
        assert(piece_views(pieces@.push(piece)) =~= piece_views(pieces@) + seq![piece@]);
    }
    pieces.push(piece);
    pieces
}

} // verus!
