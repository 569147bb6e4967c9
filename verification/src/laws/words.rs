//! Byte positions, fingerprints and the lines of a chat.

use vstd::prelude::*;
use vstd::utf8::*;

verus! {

/// The byte position of a character is the number of bytes of the text before it; that of the end
/// of the text, and of any place behind it, is the number of its bytes.
pub proof fn a_byte_position_counts_what_is_before(before: Seq<char>, behind: Seq<char>, n: nat)
    ensures
        crate::text::byte_offset(before + behind, before.len()) == encode_utf8(before).len(),
        n >= before.len() ==> crate::text::byte_offset(before, n) == encode_utf8(before).len(),
        crate::text::byte_count(before) == encode_utf8(before).len(),
{
    assert((before + behind).take(before.len() as int) =~= before);
    if behind.len() == 0 {
        assert(before + behind =~= before);
    }
}

/// A fingerprint can be cut where its first four bytes and its last four bytes are characters of
/// their own. In short, one of more than eight bytes is these, with three dots between.
pub proof fn fingerprints_that_can_be_cut(
    fingerprint: Seq<char>,
    head: Seq<char>,
    behind: Seq<char>,
    before: Seq<char>,
    tail: Seq<char>,
)
    requires
        fingerprint == head + behind,
        fingerprint == before + tail,
        encode_utf8(head).len() == 4,
        encode_utf8(tail).len() == 4,
    ensures
        crate::chat::can_be_shortened(fingerprint),
        encode_utf8(fingerprint).len() > 8 ==> crate::chat::shortened(fingerprint) == head
            + "..."@ + tail,
{
    let bytes = encode_utf8(fingerprint);
    let n = bytes.len() as int;
    crate::text::lemma_encode_concat(head, behind);
    crate::text::lemma_encode_concat(before, tail);
    lemma_boundary(head, behind);
    lemma_boundary(before, tail);
    assert(bytes.take(4) =~= encode_utf8(head));
    assert(bytes.skip(n - 4) =~= encode_utf8(tail));
    encode_utf8_decode_utf8(head);
    encode_utf8_decode_utf8(tail);
}

/// Where one text ends and another begins is a boundary between characters.
proof fn lemma_boundary(before: Seq<char>, behind: Seq<char>)
    ensures
        is_char_boundary(encode_utf8(before + behind), encode_utf8(before).len() as int),
{
    let bytes = encode_utf8(before + behind);
    let at = encode_utf8(before).len() as int;
    let rest = encode_utf8(behind);
    crate::text::lemma_encode_concat(before, behind);
    encode_utf8_valid_utf8(before + behind);
    encode_utf8_valid_utf8(behind);
    if rest.len() == 0 {
        is_char_boundary_start_end_of_seq(bytes);
    } else {
        is_char_boundary_start_end_of_seq(rest);
        is_char_boundary_iff_not_is_continuation_byte(rest, 0);
        is_char_boundary_iff_not_is_continuation_byte(bytes, at);
        assert(bytes[at] == rest[0]);
    }
}

/// A fingerprint of eight bytes or less stays as it is.
pub proof fn short_fingerprints_stay(fingerprint: Seq<char>)
    requires
        encode_utf8(fingerprint).len() <= 8,
    ensures
        crate::chat::can_be_shortened(fingerprint),
        crate::chat::shortened(fingerprint) == fingerprint,
{
}

/// The line of a chat message begins with the time, names the writer and their fingerprint, and
/// ends with the message, each as it is given. The fingerprint is in short where it is long.
pub proof fn a_chat_line_says_all(
    message: Seq<char>,
    userid: Seq<char>,
    fingerprint: Seq<char>,
    time: Seq<char>,
)
    requires
        is_ascii_chars(fingerprint),
    ensures
        ({
            let line = crate::chat::chat_line(message, userid, fingerprint, time);
            let n = fingerprint.len();
            let shown = if n > 8 {
                fingerprint.take(4) + "..."@ + fingerprint.skip(n - 4)
            } else {
                fingerprint
            };
            &&& line == time + " - "@ + userid + " ("@ + shown + "): "@ + message
            &&& time.is_prefix_of(line)
            &&& message.is_suffix_of(line)
        }),
{
    let line = crate::chat::chat_line(message, userid, fingerprint, time);
    crate::laws::ascii_fingerprints_keep_their_ends(fingerprint);
    is_ascii_chars_encode_utf8(fingerprint);
    assert(time.is_prefix_of(line));
    assert(message.is_suffix_of(line));
}

/// Where the parts of the line stand, whatever they are: the time, a dash, the writer, the
/// fingerprint in short between brackets, a colon and the message, and nothing else.
pub proof fn the_parts_of_a_chat_line_have_their_places(
    message: Seq<char>,
    userid: Seq<char>,
    fingerprint: Seq<char>,
    time: Seq<char>,
)
    ensures
        ({
            let line = crate::chat::chat_line(message, userid, fingerprint, time);
            let short = crate::chat::shortened(fingerprint);
            let name: int = 3 + time.len() as int;
            let print: int = name + userid.len() + 2;
            let text: int = print + short.len() + 3;
            &&& line.len() == text + message.len()
            &&& line.subrange(0, time.len() as int) == time
            &&& line.subrange(time.len() as int, name) == seq![' ', '-', ' ']
            &&& line.subrange(name, name + userid.len()) == userid
            &&& line.subrange(name + userid.len(), print) == seq![' ', '(']
            &&& line.subrange(print, print + short.len()) == short
            &&& line.subrange(print + short.len(), text) == seq![')', ':', ' ']
            &&& line.subrange(text, line.len() as int) == message
        }),
{
    reveal_strlit(" - ");
    reveal_strlit(" (");
    reveal_strlit("): ");
}

/// Lines that differ in nothing but the message differ where the message begins: what comes before
/// it does not depend on it.
pub proof fn a_message_does_not_change_what_is_before_it(
    one: Seq<char>,
    other: Seq<char>,
    userid: Seq<char>,
    fingerprint: Seq<char>,
    time: Seq<char>,
)
    ensures
        ({
            let first = crate::chat::chat_line(one, userid, fingerprint, time);
            let second = crate::chat::chat_line(other, userid, fingerprint, time);
            let head = crate::chat::chat_line(Seq::empty(), userid, fingerprint, time);
            &&& first == head + one
            &&& second == head + other
            &&& first == second <==> one == other
        }),
{
    let first = crate::chat::chat_line(one, userid, fingerprint, time);
    let second = crate::chat::chat_line(other, userid, fingerprint, time);
    let head = crate::chat::chat_line(Seq::empty(), userid, fingerprint, time);
    assert(first =~= head + one);
    assert(second =~= head + other);
    if first == second {
        assert(one =~= first.skip(head.len() as int));
        assert(other =~= second.skip(head.len() as int));
    }
}

} // verus!
