//! Byte positions in text.

use vstd::prelude::*;
use vstd::string::*;
use vstd::utf8::*;

verus! {

/// The number of bytes that `text` takes in UTF-8.
pub open spec fn byte_count(text: Seq<char>) -> nat {
    encode_utf8(text).len()
}

/// The number of bytes in front of the character at `index`; all of them where `text` has no
/// such character.
pub open spec fn byte_offset(text: Seq<char>, index: nat) -> nat {
    if index < text.len() {
        byte_count(text.take(index as int))
    } else {
        byte_count(text)
    }
}

/// The smaller of two numbers.
pub open spec fn at_most(n: nat, limit: nat) -> nat {
    if n < limit {
        n
    } else {
        limit
    }
}

/// `String::insert` of std: puts one character at a byte position, and what stood there moves on
/// behind it. The position has to be that of a character or the end of the text: std panics on
/// any other.
pub assume_specification[ String::insert ](text: &mut String, index: usize, new_char: char)
    requires
        exists|k: nat|
            k <= old(text)@.len() && #[trigger] byte_offset(old(text)@, k) == index,
    ensures
        forall|k: nat|
            k <= old(text)@.len() && #[trigger] byte_offset(old(text)@, k) == index
                ==> final(text)@ == old(text)@.insert(k as int, new_char),
;

/// The length of `text` in bytes.
pub fn byte_length(text: &str) -> (count: usize)
    ensures
        count == byte_count(text@),
{
    text.as_bytes().len()
}

/// The byte position of the character at `index`, or the end of `text`.
pub fn byte_index(text: &str, index: usize) -> (position: usize)
    ensures
        position == byte_offset(text@, index as nat),
{
    if index < text.unicode_len() {
        proof {
            assert(text@.subrange(0, index as int) == text@.take(index as int));
        }
        byte_length(text.substring_char(0, index))
    } else {
        byte_length(text)
    }
}

/// UTF-8 encodes one character after the other.
pub proof fn lemma_encode_concat(a: Seq<char>, b: Seq<char>)
    ensures
        encode_utf8(a + b) == encode_utf8(a) + encode_utf8(b),
    decreases a.len(),
{
    if a.len() == 0 {
        assert(a + b == b);
        assert(encode_utf8(a) + encode_utf8(b) == encode_utf8(b));
    } else {
        lemma_encode_concat(a.drop_first(), b);
        assert((a + b).drop_first() == a.drop_first() + b);
        assert((a + b)[0] == a[0]);
        assert(encode_utf8(a + b) == encode_utf8(a) + encode_utf8(b));
    }
}

/// No text has fewer bytes than characters.
pub proof fn lemma_byte_count_at_least(text: Seq<char>)
    ensures
        text.len() <= byte_count(text),
    decreases text.len(),
{
    if text.len() > 0 {
        lemma_byte_count_at_least(text.drop_first());
    }
}

/// No character stands before the byte position of its own number, and none behind the end.
pub proof fn lemma_byte_offset_bounds(text: Seq<char>, index: nat)
    ensures
        at_most(index, text.len()) <= byte_offset(text, index) <= byte_count(text),
{
    lemma_byte_count_at_least(text);
    if index < text.len() {
        lemma_byte_count_at_least(text.take(index as int));
        lemma_encode_concat(text.take(index as int), text.skip(index as int));
        assert(text.take(index as int) + text.skip(index as int) == text);
    }
}

/// A character more makes a text longer than any of the byte positions that the text had.
pub proof fn lemma_byte_count_insert(text: Seq<char>, place: nat, new_char: char)
    requires
        place <= text.len(),
    ensures
        byte_offset(text, place) < byte_count(text.insert(place as int, new_char)),
{
    let head = text.take(place as int);
    let tail = text.skip(place as int);
    let longer = text.insert(place as int, new_char);
    assert(longer == head + (seq![new_char] + tail));
    lemma_encode_concat(head, seq![new_char] + tail);
    lemma_byte_count_at_least(seq![new_char] + tail);
    assert(place == text.len() ==> head == text);
}

} // verus!
