//! Gossip tickets and their text form.
//!
//! A ticket travels between peers as text: the bytes of its serialized form
//! in unpadded base32, in lower case. This module frames bytes as such text
//! and back.

use vstd::prelude::*;
use vstd::utf8::{encode_utf8, is_ascii_chars, is_ascii_chars_encode_utf8};
use crate::ids::{NodeAddress, Topic};

verus! {

/// The error of `data_encoding`'s decoding functions.
#[verifier::external_type_specification]
#[verifier::external_body]
pub struct ExDecodeError(data_encoding::DecodeError);

/// The text that `data_encoding::BASE32_NOPAD` encodes `data` to.
pub uninterp spec fn base32_nopad_encoded(data: Seq<u8>) -> Seq<char>;

/// The bytes that `data_encoding::BASE32_NOPAD` decodes `text` to; `None`
/// where it rejects the text.
pub uninterp spec fn base32_nopad_decoded(text: Seq<char>) -> Option<Seq<u8>>;

/// The symbols of unpadded base32: the upper-case letters and the digits 2
/// to 7.
pub open spec fn is_base32_symbol(c: char) -> bool {
    ('A' <= c && c <= 'Z') || ('2' <= c && c <= '7')
}

/// Longest input that the encoder takes, in bytes.
pub open spec fn max_encode_len() -> int {
    (usize::MAX / 512) as int
}

/// Longest text that the decoder takes, in bytes.
pub open spec fn max_decode_len() -> int {
    (usize::MAX / 8) as int
}

/// Calls `data_encoding::BASE32_NOPAD.encode`. The contract names the
/// resulting text and states three things that the crate documents: the text
/// has eight symbols for every five bytes, rounded up; it is made of the
/// symbols `A` to `Z` and `2` to `7`; and decoding it gives the input back.
/// Inputs above the documented length limit, on which the encoder may panic,
/// are left out.
#[verifier::external_body]
fn base32_encode(data: &[u8]) -> (text: String)
    requires
        data@.len() <= max_encode_len(),
    ensures
        text@ == base32_nopad_encoded(data@),
        text@.len() == (8 * data@.len() + 4) / 5,
        forall|i: int| 0 <= i < text@.len() ==> is_base32_symbol(#[trigger] text@[i]),
        base32_nopad_decoded(text@) == Some(data@),
{
    data_encoding::BASE32_NOPAD.encode(data)
}

/// Calls `data_encoding::BASE32_NOPAD.decode` on the bytes of `text`. The
/// contract names the outcome: the decoded bytes, or an error where the
/// decoder rejects the text. Texts above the documented length limit, on
/// which the decoder may panic, are left out.
#[verifier::external_body]
fn base32_decode(text: &str) -> (r: Result<Vec<u8>, data_encoding::DecodeError>)
    requires
        encode_utf8(text@).len() <= max_decode_len(),
    ensures
        match r {
            Ok(bytes) => base32_nopad_decoded(text@) == Some(bytes@),
            Err(_) => base32_nopad_decoded(text@).is_none(),
        },
{
    data_encoding::BASE32_NOPAD.decode(text.as_bytes())
}

/// The ASCII lower-case form of a character.
pub open spec fn ascii_lower(c: char) -> char {
    if 'A' <= c && c <= 'Z' {
        ((c as u32) + 32) as char
    } else {
        c
    }
}

/// The ASCII upper-case form of a character.
pub open spec fn ascii_upper(c: char) -> char {
    if 'a' <= c && c <= 'z' {
        ((c as u32) - 32) as char
    } else {
        c
    }
}

/// A text with every character in ASCII lower case.
pub open spec fn lower_text(text: Seq<char>) -> Seq<char> {
    text.map_values(|c: char| ascii_lower(c))
}

/// A text with every character in ASCII upper case.
pub open spec fn upper_text(text: Seq<char>) -> Seq<char> {
    text.map_values(|c: char| ascii_upper(c))
}

/// Calls `String::make_ascii_lowercase`: the letters `A` to `Z` become `a`
/// to `z`, every other character stays.
#[verifier::external_body]
fn make_lowercase(text: &mut String)
    ensures
        final(text)@ == lower_text(old(text)@),
{
    text.make_ascii_lowercase()
}

/// Calls `str::to_ascii_uppercase`: a copy in which the letters `a` to `z`
/// are `A` to `Z` and every other character stays.
#[verifier::external_body]
fn to_uppercase(text: &str) -> (r: String)
    ensures
        r@ == upper_text(text@),
{
    text.to_ascii_uppercase()
}

/// Why a ticket could not be framed or read.
#[derive(Clone, Copy, Debug, PartialEq, Eq, Structural)]
pub enum TicketError {
    /// The bytes or the text are longer than the codec takes.
    TooLong,
    /// The text is not unpadded base32.
    Malformed,
}

/// The text form of serialized ticket bytes: unpadded base32 in lower case.
pub open spec fn ticket_text_of(bytes: Seq<u8>) -> Seq<char> {
    lower_text(base32_nopad_encoded(bytes))
}

/// The bytes that a ticket text stands for. Letters count in either case.
pub open spec fn ticket_bytes_of(text: Seq<char>) -> Result<Seq<u8>, TicketError> {
    let upper = upper_text(text);
    if encode_utf8(upper).len() > max_decode_len() {
        Err(TicketError::TooLong)
    } else {
        match base32_nopad_decoded(upper) {
            Some(bytes) => Ok(bytes),
            None => Err(TicketError::Malformed),
        }
    }
}

pub open spec fn bytes_view(r: Result<Vec<u8>, TicketError>) -> Result<Seq<u8>, TicketError> {
    match r {
        Ok(v) => Ok(v@),
        Err(e) => Err(e),
    }
}

/// Lower-casing base32 symbols and upper-casing them again changes nothing.
proof fn lemma_case_round_trip(text: Seq<char>)
    requires
        forall|i: int| 0 <= i < text.len() ==> is_base32_symbol(#[trigger] text[i]),
    ensures
        upper_text(lower_text(text)) == text,
        is_ascii_chars(text),
{
    assert forall|i: int| 0 <= i < text.len() implies upper_text(lower_text(text))[i]
        == text[i] by {
        let c = text[i];
        assert(is_base32_symbol(c));
        assert(ascii_upper(ascii_lower(c)) == c);
    }
    assert(upper_text(lower_text(text)) =~= text);
    assert forall|i: int| 0 <= i < text.len() implies '\0' <= #[trigger] text[i] <= '\u{7f}' by {
        assert(is_base32_symbol(text[i]));
    }
}

/// Frames serialized ticket bytes as ticket text. Parsing the text gives the
/// bytes back.
pub fn encode_ticket_text(bytes: &[u8]) -> (text: String)
    requires
        bytes@.len() <= max_encode_len(),
    ensures
        text@ == ticket_text_of(bytes@),
        ticket_bytes_of(text@) == Ok::<Seq<u8>, TicketError>(bytes@),
{
    let mut text = base32_encode(bytes);
    proof {
        let upper = text@;
        lemma_case_round_trip(upper);
        is_ascii_chars_encode_utf8(upper);
        assert(upper.len() <= max_decode_len()) by {
            assert(bytes@.len() <= usize::MAX / 512);
            assert(upper.len() == (8 * bytes@.len() + 4) / 5);
        }
    }
    make_lowercase(&mut text);
    text
}

/// Frames serialized ticket bytes as ticket text, for bytes of any length:
/// `TooLong` where the bytes exceed the encoder's limit, the text of
/// [`encode_ticket_text`] otherwise.
pub fn ticket_text(bytes: &[u8]) -> (r: Result<String, TicketError>)
    ensures
        match r {
            Ok(text) => {
                &&& bytes@.len() <= max_encode_len()
                &&& text@ == ticket_text_of(bytes@)
                &&& ticket_bytes_of(text@) == Ok::<Seq<u8>, TicketError>(bytes@)
            },
            Err(e) => e == TicketError::TooLong && bytes@.len() > max_encode_len(),
        },
{
    if bytes.len() > usize::MAX / 512 {
        Err(TicketError::TooLong)
    } else {
        Ok(encode_ticket_text(bytes))
    }
}

/// Reads ticket text back into the serialized bytes. Fails with `TooLong`
/// where the text exceeds the decoder's limit, with `Malformed` where it is
/// not unpadded base32.
pub fn decode_ticket_text(text: &str) -> (r: Result<Vec<u8>, TicketError>)
    ensures
        bytes_view(r) == ticket_bytes_of(text@),
{
    let upper = to_uppercase(text);
    if upper.as_str().as_bytes().len() > usize::MAX / 8 {
        return Err(TicketError::TooLong);
    }
    match base32_decode(upper.as_str()) {
        Ok(bytes) => Ok(bytes),
        Err(_) => Err(TicketError::Malformed),
    }
}

/// The bootstrap artifact that peers share out of band: a topic and the
/// addresses of nodes that are on it.
#[derive(Clone, Debug, PartialEq, Eq)]
pub struct GossipTicket {
    pub topic: Topic,
    pub nodes: Vec<NodeAddress>,
}

impl GossipTicket {
    /// The ticket that a node hands out for a topic: the topic with the
    /// node's own address as the only bootstrap node.
    pub fn for_local(topic: Topic, me: NodeAddress) -> (t: GossipTicket)
        ensures
            t.topic == topic,
            t.nodes@ == seq![me],
    {
        let mut nodes: Vec<NodeAddress> = Vec::new();
        nodes.push(me);
        GossipTicket { topic, nodes }
    }
}

} // verus!
