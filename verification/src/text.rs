//! Strings as sequences of characters: splitting, byte lengths and display widths.

use unicode_width::UnicodeWidthStr;
use vstd::prelude::*;
use vstd::string::*;
use vstd::utf8::*;

verus! {

/// The pieces of `s` between the occurrences of `sep`. There is always at least one, and
/// neighbouring separators have an empty piece between them.
pub open spec fn pieces(s: Seq<char>, sep: char) -> Seq<Seq<char>>
    decreases s.len(),
{
    if s.len() == 0 {
        seq![Seq::<char>::empty()]
    } else {
        let before = pieces(s.drop_last(), sep);
        if s.last() == sep {
            before.push(Seq::empty())
        } else {
            before.drop_last().push(before.last().push(s.last()))
        }
    }
}

/// The pieces written one after the other with `sep` between them.
pub open spec fn joined(parts: Seq<Seq<char>>, sep: char) -> Seq<char>
    decreases parts.len(),
{
    if parts.len() == 0 {
        Seq::empty()
    } else if parts.len() == 1 {
        parts[0]
    } else {
        joined(parts.drop_last(), sep).push(sep) + parts.last()
    }
}

/// The texts of a sequence of strings.
pub open spec fn texts(v: Seq<String>) -> Seq<Seq<char>> {
    v.map_values(|s: String| s@)
}

/// How many bytes `s` takes in UTF-8.
pub open spec fn byte_len(s: Seq<char>) -> nat {
    encode_utf8(s).len()
}

/// Whether the first `n` bytes of `s` are whole characters.
pub open spec fn splits_at(s: Seq<char>, n: nat) -> bool {
    is_char_boundary(encode_utf8(s), n as int)
}

/// What is left of `s` behind its first `n` bytes.
pub open spec fn skip_bytes(s: Seq<char>, n: nat) -> Seq<char> {
    decode_utf8(encode_utf8(s).subrange(n as int, encode_utf8(s).len() as int))
}

/// Whether every character lies between the space and the tilde.
pub open spec fn is_printable_ascii(s: Seq<char>) -> bool {
    forall|i: int| 0 <= i < s.len() ==> ' ' <= #[trigger] s[i] <= '~'
}

/// The number of terminal columns that `UnicodeWidthStr::width` finds for a text.
pub uninterp spec fn display_width(s: Seq<char>) -> nat;

/// `UnicodeWidthStr::width`: the columns that `s` takes on a terminal. The result is a
/// function of the text alone, under the name [`display_width`]; a text made of printable
/// ASCII characters takes one column for each of them.
#[verifier::external_body]
pub(crate) fn width(s: &str) -> (w: usize)
    ensures
        w == display_width(s@),
        is_printable_ascii(s@) ==> w == s@.len(),
{
    UnicodeWidthStr::width(s)
}

/// `String::push` puts one character behind the text.
pub assume_specification[ String::push ](s: &mut String, ch: char)
    ensures
        final(s)@ == old(s)@.push(ch),
;

/// The pieces of `s` between the occurrences of `sep`.
pub fn split(s: &str, sep: char) -> (parts: Vec<String>)
    ensures
        texts(parts@) == pieces(s@, sep),
        parts@.len() >= 1,
{
    let mut parts: Vec<String> = Vec::new();
    let mut current = String::new();
    for c in it: s.chars()
        invariant
            it.seq() == s@,
            texts(parts@).push(current@) == pieces(s@.take(it.index() as int), sep),
    {
        proof {
            let k = it.index() as int;
            assert(s@.take(k + 1).drop_last() =~= s@.take(k));
            assert(texts(parts@).push(current@).drop_last() =~= texts(parts@));
            assert(texts(parts@.push(current)) =~= texts(parts@).push(current@));
        }
        if c == sep {
            parts.push(current);
            current = String::new();
        } else {
            current.push(c);
        }
    }
    proof {
        assert(s@.take(s@.len() as int) =~= s@);
        assert(texts(parts@.push(current)) =~= texts(parts@).push(current@));
    }
    parts.push(current);
    parts
}

/// The text behind the last occurrence of `sep`, or all of `s` where there is none.
pub fn last_piece(s: &str, sep: char) -> (last: String)
    ensures
        last@ == pieces(s@, sep).last(),
{
    let mut parts = split(s, sep);
    let ghost all = parts@;
    proof {
        assert(texts(all).last() == all.last()@);
    }
    match parts.pop() {
        Some(last) => last,
        None => String::new(),
    }
}

/// The first `n` characters of `s`, or all of `s` where it has no more than that.
pub fn first_chars(s: &str, n: usize) -> (start: String)
    ensures
        start@ == if n <= s@.len() {
            s@.take(n as int)
        } else {
            s@
        },
{
    let len: usize = s.unicode_len();
    if n < len {
        s.substring_char(0, n).to_owned()
    } else {
        proof {
            assert(s@.take(s@.len() as int) =~= s@);
        }
        s.to_owned()
    }
}

/// How many bytes `s` takes.
pub fn bytes(s: &str) -> (n: usize)
    ensures
        n == byte_len(s@),
{
    s.as_bytes().len()
}

/// Whether `s` can be cut behind its first `n` bytes.
pub fn can_split_at(s: &str, n: usize) -> (b: bool)
    ensures
        b == splits_at(s@, n as nat),
{
    s.is_char_boundary(n)
}

/// What is left of `s` behind its first `n` bytes.
pub fn after_bytes(s: &str, n: usize) -> (rest: String)
    requires
        splits_at(s@, n as nat),
    ensures
        rest@ == skip_bytes(s@, n as nat),
{
    let (_, rest) = s.split_at(n);
    proof {
        encode_utf8_decode_utf8(rest@);
    }
    rest.to_owned()
}

/// `first` followed by `second`.
pub fn concat(first: &str, second: &str) -> (both: String)
    ensures
        both@ == first@ + second@,
{
    let mut both = first.to_owned();
    both.append(second);
    both
}

/// There is always a piece.
pub proof fn split_is_not_empty(s: Seq<char>, sep: char)
    ensures
        pieces(s, sep).len() >= 1,
    decreases s.len(),
{
    if s.len() > 0 {
        split_is_not_empty(s.drop_last(), sep);
    }
}

/// Splitting loses nothing: the pieces joined by the separator are the text.
pub proof fn split_rejoins(s: Seq<char>, sep: char)
    ensures
        joined(pieces(s, sep), sep) == s,
    decreases s.len(),
{
    split_is_not_empty(s, sep);
    if s.len() > 0 {
        let before = pieces(s.drop_last(), sep);
        split_is_not_empty(s.drop_last(), sep);
        split_rejoins(s.drop_last(), sep);
        let now = pieces(s, sep);
        assert(s =~= s.drop_last().push(s.last()));
        if s.last() == sep {
            assert(now.drop_last() =~= before);
            assert(joined(now, sep) =~= joined(before, sep).push(sep));
        } else {
            assert(now.drop_last() =~= before.drop_last());
            assert(joined(now, sep) =~= joined(before, sep).push(s.last()));
        }
    }
}

/// No piece holds the separator.
pub proof fn pieces_hold_no_separator(s: Seq<char>, sep: char)
    ensures
        forall|i: int|
            0 <= i < pieces(s, sep).len() ==> !(#[trigger] pieces(s, sep)[i]).contains(sep),
    decreases s.len(),
{
    if s.len() > 0 {
        split_is_not_empty(s.drop_last(), sep);
        pieces_hold_no_separator(s.drop_last(), sep);
        let before = pieces(s.drop_last(), sep);
        let now = pieces(s, sep);
        assert forall|i: int| 0 <= i < now.len() implies !(#[trigger] now[i]).contains(sep) by {
            if i < now.len() - 1 {
                assert(now[i] == before[i]);
            } else if s.last() != sep {
                let old_last = before[before.len() - 1];
                assert(now[i] == old_last.push(s.last()));
                if now[i].contains(sep) {
                    let j = choose|j: int| 0 <= j < now[i].len() && now[i][j] == sep;
                    assert(old_last[j] == sep);
                }
            }
        }
    }
}

/// The last piece ends the text.
pub proof fn last_piece_ends_text(s: Seq<char>, sep: char)
    ensures
        pieces(s, sep).last().len() <= s.len(),
        s.skip(s.len() - pieces(s, sep).last().len()) == pieces(s, sep).last(),
    decreases s.len(),
{
    split_is_not_empty(s, sep);
    if s.len() > 0 {
        split_is_not_empty(s.drop_last(), sep);
        last_piece_ends_text(s.drop_last(), sep);
        if s.last() != sep {
            let before = pieces(s.drop_last(), sep).last();
            let start = s.drop_last().len() - before.len();
            assert(s.skip(start) =~= s.drop_last().skip(start).push(s.last()));
        }
    }
}

/// The last piece is what stands behind the last separator, or the whole text where there is no
/// separator.
pub proof fn last_piece_is_behind_last_separator(
    start: Option<Seq<char>>,
    last: Seq<char>,
    sep: char,
)
    requires
        !last.contains(sep),
    ensures
        ({
            let s = match start {
                Some(start) => start.push(sep) + last,
                None => last,
            };
            pieces(s, sep).last() == last
        }),
    decreases last.len(),
{
    let s = match start {
        Some(start) => start.push(sep) + last,
        None => last,
    };
    split_is_not_empty(s, sep);
    if last.len() == 0 {
        match start {
            Some(start) => {
                assert(s =~= start.push(sep));
            },
            None => {},
        }
        assert(pieces(s, sep).last() =~= last);
    } else {
        let shorter = last.drop_last();
        assert(last[last.len() - 1] != sep);
        assert(!shorter.contains(sep)) by {
            if shorter.contains(sep) {
                let i = choose|i: int| 0 <= i < shorter.len() && shorter[i] == sep;
                assert(last[i] == sep);
            }
        }
        last_piece_is_behind_last_separator(start, shorter, sep);
        match start {
            Some(start) => {
                assert(s.drop_last() =~= start.push(sep) + shorter);
            },
            None => {},
        }
        assert(s.last() == last.last());
        assert(pieces(s, sep).last() =~= last);
    }
}

proof fn lemma_encode_concat(a: Seq<char>, b: Seq<char>)
    ensures
        encode_utf8(a + b) == encode_utf8(a) + encode_utf8(b),
    decreases a.len(),
{
    if a.len() == 0 {
        assert(a + b =~= b);
        assert(encode_utf8(a) + encode_utf8(b) =~= encode_utf8(b));
    } else {
        assert((a + b).drop_first() =~= a.drop_first() + b);
        lemma_encode_concat(a.drop_first(), b);
        assert(encode_utf8(a + b) =~= encode_utf8(a) + encode_utf8(b));
    }
}

/// A text that starts with `start` can be cut behind the bytes of `start`, and what is left
/// there is the rest of the text.
pub proof fn skip_bytes_drops_prefix(start: Seq<char>, rest: Seq<char>)
    ensures
        splits_at(start + rest, byte_len(start)),
        skip_bytes(start + rest, byte_len(start)) == rest,
    decreases start.len(),
{
    lemma_encode_concat(start, rest);
    let all = encode_utf8(start + rest);
    assert(all.subrange(byte_len(start) as int, all.len() as int) =~= encode_utf8(rest));
    encode_utf8_decode_utf8(rest);
    encode_utf8_valid_utf8(start + rest);
    if start.len() > 0 {
        encode_utf8_first_scalar(start + rest);
        let tail = start.drop_first();
        assert((start + rest).drop_first() =~= tail + rest);
        skip_bytes_drops_prefix(tail, rest);
        assert(pop_first_scalar(all) =~= encode_utf8(tail + rest));
    }
}

} // verus!
