//! The line made of a chat message.

use crate::text::byte_length;
use vstd::prelude::*;
use vstd::string::*;
use vstd::utf8::*;

verus! {

/// Who writes a message: the name and the fingerprint of the public key.
#[derive(Debug)]
pub struct Identity {
    pub userid: String,
    pub fingerprint: String,
}

/// The fingerprint can be cut four bytes from either end, unless it is too short to be cut.
pub open spec fn can_be_shortened(fingerprint: Seq<char>) -> bool {
    let bytes = encode_utf8(fingerprint);
    bytes.len() > 8 ==> is_char_boundary(bytes, 4) && is_char_boundary(bytes, bytes.len() - 4)
}

/// The first four bytes and the last four bytes of a fingerprint of more than eight bytes, with
/// three dots between; any other as it is.
pub open spec fn shortened(fingerprint: Seq<char>) -> Seq<char> {
    let bytes = encode_utf8(fingerprint);
    if bytes.len() > 8 {
        decode_utf8(bytes.take(4)) + "..."@ + decode_utf8(bytes.skip(bytes.len() - 4))
    } else {
        fingerprint
    }
}

/// A chat message as it is shown.
pub open spec fn chat_line(
    message: Seq<char>,
    userid: Seq<char>,
    fingerprint: Seq<char>,
    time: Seq<char>,
) -> Seq<char> {
    time + " - "@ + userid + " ("@ + shortened(fingerprint) + "): "@ + message
}

/// Shortens a fingerprint.
pub fn short_fingerprint(fingerprint: &str) -> (short: String)
    requires
        can_be_shortened(fingerprint@),
    ensures
        short@ == shortened(fingerprint@),
{
    let len = byte_length(fingerprint);
    if len > 8 {
        let (first_four, _) = fingerprint.split_at(4);
        let (_, last_four) = fingerprint.split_at(len - 4);
        proof {
            let bytes = encode_utf8(fingerprint@);
            assert(bytes.subrange(0, 4) == bytes.take(4));
            assert(bytes.subrange(len - 4, len as int) == bytes.skip(len - 4));
            encode_utf8_decode_utf8(first_four@);
            encode_utf8_decode_utf8(last_four@);
        }
        let mut short = first_four.to_string();
        short.append("...");
        short.append(last_four);
        short
    } else {
        fingerprint.to_string()
    }
}

/// The id of the chat with `encro`, and a message of theirs as it is shown at `time`.
pub fn format_chat_msg(message: &str, encro: &Identity, time: &str) -> (formatted: (
    String,
    String,
))
    requires
        can_be_shortened(encro.fingerprint@),
    ensures
        formatted.0@ == encro.userid@,
        formatted.1@ == chat_line(message@, encro.userid@, encro.fingerprint@, time@),
{
    format_chat_msg_fmt(message, encro.userid.as_str(), encro.fingerprint.as_str(), time)
}

/// The id of the chat with `userid`, and a message of theirs as it is shown at `time`.
pub fn format_chat_msg_fmt(message: &str, userid: &str, fingerprint: &str, time: &str) -> (formatted:
    (String, String))
    requires
        can_be_shortened(fingerprint@),
    ensures
        formatted.0@ == userid@,
        formatted.1@ == chat_line(message@, userid@, fingerprint@, time@),
{
    let short = short_fingerprint(fingerprint);
    let mut chat_view = time.to_string();
    chat_view.append(" - ");
    chat_view.append(userid);
    chat_view.append(" (");
    chat_view.append(short.as_str());
    chat_view.append("): ");
    chat_view.append(message);
    let chat_id = userid.to_string();
    (chat_id, chat_view)
}

} // verus!
