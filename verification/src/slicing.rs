//! Cutting texts: trimming white space and splitting at a separator.

use crate::text::{chars_occur_at, occurs_at, to_chars};
use vstd::prelude::*;
use vstd::string::*;

verus! {

/// The characters that count as white space: those with the Unicode
/// property `White_Space`.
pub open spec fn is_whitespace(c: char) -> bool {
    let u = c as u32;
    (0x9 <= u <= 0xD) || u == 0x20 || u == 0x85 || u == 0xA0 || u == 0x1680 || (0x2000 <= u
        <= 0x200A) || u == 0x2028 || u == 0x2029 || u == 0x202F || u == 0x205F || u == 0x3000
}

/// `s` without the white space at its start.
pub open spec fn without_leading_space(s: Seq<char>) -> Seq<char>
    decreases s.len(),
{
    if s.len() > 0 && is_whitespace(s[0]) {
        without_leading_space(s.drop_first())
    } else {
        s
    }
}

/// `s` without the white space at its end.
pub open spec fn without_trailing_space(s: Seq<char>) -> Seq<char>
    decreases s.len(),
{
    if s.len() > 0 && is_whitespace(s.last()) {
        without_trailing_space(s.drop_last())
    } else {
        s
    }
}

/// `s` without the white space at its start and at its end.
pub open spec fn trimmed(s: Seq<char>) -> Seq<char> {
    without_trailing_space(without_leading_space(s))
}

/// The pieces of `s` between the occurrences of `separator`, found from
/// `scan` on, left to right and without overlap; the piece in progress
/// begins at `piece_start`.
pub open spec fn split_from(
    s: Seq<char>,
    separator: Seq<char>,
    piece_start: int,
    scan: int,
) -> Seq<Seq<char>>
    decreases s.len() - scan,
{
    if separator.len() == 0 || scan < 0 || scan + separator.len() > s.len() {
        seq![s.subrange(piece_start, s.len() as int)]
    } else if occurs_at(s, separator, scan) {
        seq![s.subrange(piece_start, scan)] + split_from(
            s,
            separator,
            scan + separator.len(),
            scan + separator.len(),
        )
    } else {
        split_from(s, separator, piece_start, scan + 1)
    }
}

/// The pieces of `s` between the occurrences of a non-empty `separator`.
/// A text without the separator is one piece.
pub open spec fn split_on(s: Seq<char>, separator: Seq<char>) -> Seq<Seq<char>> {
    split_from(s, separator, 0, 0)
}

/// Whether `c` is white space.
pub fn char_is_whitespace(c: char) -> (white: bool)
    ensures
        white == is_whitespace(c),
{
    let u = c as u32;
    (0x9 <= u && u <= 0xD) || u == 0x20 || u == 0x85 || u == 0xA0 || u == 0x1680 || (0x2000 <= u
        && u <= 0x200A) || u == 0x2028 || u == 0x2029 || u == 0x202F || u == 0x205F || u
        == 0x3000
}

/// The bounds of `chars[from..to]` without the white space at its ends.
pub fn trim_bounds(chars: &Vec<char>, from: usize, to: usize) -> (bounds: (usize, usize))
    requires
        from <= to <= chars.len(),
    ensures
        from <= bounds.0 <= bounds.1 <= to,
        chars@.subrange(bounds.0 as int, bounds.1 as int) == trimmed(
            chars@.subrange(from as int, to as int),
        ),
{
    let ghost piece = chars@.subrange(from as int, to as int);
    let mut start: usize = from;
    assert(piece.skip(0) =~= piece);
    while start < to && char_is_whitespace(chars[start])
        invariant
            from <= start <= to <= chars.len(),
            piece == chars@.subrange(from as int, to as int),
            without_leading_space(piece) == without_leading_space(piece.skip(start - from)),
        decreases to - start,
    {
        proof {
            let rest = piece.skip(start - from);
            assert(rest[0] == chars@[start as int]);
            assert(rest.drop_first() =~= piece.skip(start + 1 - from));
        }
        start += 1;
    }
    let ghost body = chars@.subrange(start as int, to as int);
    proof {
        assert(piece.skip(start - from) =~= body);
        if start < to {
            assert(body[0] == chars@[start as int]);
        }
        assert(without_leading_space(piece) == body);
        assert(body.take(body.len() as int) =~= body);
    }
    let mut end: usize = to;
    while end > start && char_is_whitespace(chars[end - 1])
        invariant
            start <= end <= to <= chars.len(),
            body == chars@.subrange(start as int, to as int),
            without_trailing_space(body) == without_trailing_space(body.take(end - start)),
        decreases end - start,
    {
        proof {
            let rest = body.take(end - start);
            assert(rest.last() == chars@[end - 1]);
            assert(rest.drop_last() =~= body.take(end - 1 - start));
        }
        end -= 1;
    }
    proof {
        let rest = body.take(end - start);
        assert(rest =~= chars@.subrange(start as int, end as int));
        if end > start {
            assert(rest.last() == chars@[end - 1]);
        }
    }
    (start, end)
}

/// `text` without the white space at its ends.
pub fn trim_text(text: &str) -> (result: String)
    ensures
        result@ == trimmed(text@),
{
    let chars = to_chars(text);
    assert(chars@.subrange(0, chars.len() as int) =~= chars@);
    let (start, end) = trim_bounds(&chars, 0, chars.len());
    text.substring_char(start, end).to_string()
}

fn push_text(list: &mut Vec<String>, item: String)
    ensures
        final(list).deep_view() == old(list).deep_view().push(item@),
{
    list.push(item);
    assert(list.deep_view() =~= old(list).deep_view().push(item@));
}

/// The pieces of `text` between the occurrences of `separator`, which is
/// not empty.
pub fn split_text(text: &str, separator: &str) -> (pieces: Vec<String>)
    requires
        separator@.len() > 0,
    ensures
        pieces.deep_view() == split_on(text@, separator@),
        pieces.len() >= 1,
{
    let chars = to_chars(text);
    let sep = to_chars(separator);
    let mut pieces: Vec<String> = Vec::new();
    let mut piece_start: usize = 0;
    let mut scan: usize = 0;
    assert(pieces.deep_view() =~= Seq::empty());
    while sep.len() <= chars.len() && scan <= chars.len() - sep.len()
        invariant
            chars@ == text@,
            sep@ == separator@,
            sep.len() > 0,
            piece_start <= scan <= chars.len(),
            split_on(text@, separator@) == pieces.deep_view() + split_from(
                text@,
                separator@,
                piece_start as int,
                scan as int,
            ),
        decreases chars.len() - scan,
    {
        if chars_occur_at(&chars, &sep, scan) {
            let ghost before = pieces.deep_view();
            let piece = text.substring_char(piece_start, scan).to_string();
            push_text(&mut pieces, piece);
            proof {
                assert(pieces.deep_view() + split_from(
                    text@,
                    separator@,
                    scan + sep.len(),
                    scan + sep.len(),
                ) =~= before + split_from(text@, separator@, piece_start as int, scan as int));
            }
            scan = scan + sep.len();
            piece_start = scan;
        } else {
            scan += 1;
        }
    }
    let ghost before = pieces.deep_view();
    let last = text.substring_char(piece_start, chars.len()).to_string();
    push_text(&mut pieces, last);
    assert(pieces.deep_view() =~= before + split_from(
        text@,
        separator@,
        piece_start as int,
        scan as int,
    ));
    pieces
}

/// The text before the first occurrence of `separator`, or all of
/// `text` without one: the first piece of the split.
pub fn first_piece(text: &str, separator: &str) -> (piece: String)
    requires
        separator@.len() > 0,
    ensures
        piece@ == split_on(text@, separator@)[0],
{
    let pieces = split_text(text, separator);
    assert(pieces.deep_view()[0] == pieces[0]@);
    pieces[0].clone()
}


/// The words of `s` from `scan` on: the longest stretches without white
/// space. `word_start` is where the word in progress began, or negative
/// between two words.
pub open spec fn words_from(s: Seq<char>, word_start: int, scan: int) -> Seq<Seq<char>>
    decreases s.len() - scan,
{
    if scan < 0 || scan >= s.len() {
        if word_start >= 0 {
            seq![s.subrange(word_start, s.len() as int)]
        } else {
            Seq::empty()
        }
    } else if is_whitespace(s[scan]) {
        if word_start >= 0 {
            seq![s.subrange(word_start, scan)] + words_from(s, -1, scan + 1)
        } else {
            words_from(s, -1, scan + 1)
        }
    } else {
        words_from(
            s,
            if word_start >= 0 {
                word_start
            } else {
                scan
            },
            scan + 1,
        )
    }
}

/// The words of `s`: the longest stretches without white space.
pub open spec fn words(s: Seq<char>) -> Seq<Seq<char>> {
    words_from(s, -1, 0)
}

/// The words of `text`.
pub fn split_words(text: &str) -> (found: Vec<String>)
    ensures
        found.deep_view() == words(text@),
{
    let chars = to_chars(text);
    let mut found: Vec<String> = Vec::new();
    let mut word_start: Option<usize> = None;
    let mut scan: usize = 0;
    assert(found.deep_view() =~= Seq::empty());
    while scan < chars.len()
        invariant
            chars@ == text@,
            scan <= chars.len(),
            word_start matches Some(w) ==> w < scan,
            words(text@) == found.deep_view() + words_from(
                text@,
                match word_start {
                    Some(w) => w as int,
                    None => -1,
                },
                scan as int,
            ),
        decreases chars.len() - scan,
    {
        let ghost before = found.deep_view();
        if char_is_whitespace(chars[scan]) {
            match word_start {
                Some(w) => {
                    let word = text.substring_char(w, scan).to_string();
                    push_text(&mut found, word);
                    assert(found.deep_view() + words_from(text@, -1, scan + 1) =~= before
                        + words_from(text@, w as int, scan as int));
                    word_start = None;
                },
                None => {},
            }
        } else {
            match word_start {
                Some(_) => {},
                None => {
                    word_start = Some(scan);
                },
            }
        }
        scan += 1;
    }
    let ghost before = found.deep_view();
    match word_start {
        Some(w) => {
            let word = text.substring_char(w, chars.len()).to_string();
            push_text(&mut found, word);
            assert(found.deep_view() =~= before + words_from(text@, w as int, scan as int));
        },
        None => {
            assert(found.deep_view() =~= before + words_from(text@, -1, scan as int));
        },
    }
    found
}

} // verus!
