//! The text of a topic, as it is persisted between runs: 64 hexadecimal
//! digits, two for each byte, written in lower case and read in either case.

use vstd::prelude::*;
use crate::ids::Topic;

verus! {

/// The lower-case hexadecimal digit of a value below 16.
pub open spec fn hex_digit(n: u8) -> char {
    if n < 10 {
        (('0' as u8) + n) as char
    } else {
        (('a' as u8) + (n - 10)) as char
    }
}

/// The value of a hexadecimal digit of either case.
pub open spec fn hex_value(c: char) -> Option<u8> {
    if '0' <= c && c <= '9' {
        Some(((c as u8) - ('0' as u8)) as u8)
    } else if 'a' <= c && c <= 'f' {
        Some(((c as u8) - ('a' as u8) + 10) as u8)
    } else if 'A' <= c && c <= 'F' {
        Some(((c as u8) - ('A' as u8) + 10) as u8)
    } else {
        None
    }
}

/// The text of a topic: for each byte its high and its low half as digits.
pub open spec fn topic_text_of(topic: Seq<u8>) -> Seq<char> {
    Seq::new(
        2 * topic.len(),
        |i: int|
            if i % 2 == 0 {
                hex_digit(topic[i / 2] >> 4)
            } else {
                hex_digit(topic[i / 2] & 0x0f)
            },
    )
}

/// The byte that two digits stand for.
pub open spec fn byte_of_digits(high: char, low: char) -> u8 {
    (hex_value(high).unwrap() << 4) | hex_value(low).unwrap()
}

/// The topic that a text stands for: `None` unless the text is 64
/// hexadecimal digits.
pub open spec fn topic_of_text(text: Seq<char>) -> Option<Seq<u8>> {
    if text.len() == 64 && (forall|i: int| 0 <= i < 64 ==> hex_value(#[trigger] text[i]).is_some()) {
        Some(Seq::new(32, |i: int| byte_of_digits(text[2 * i], text[2 * i + 1])))
    } else {
        None
    }
}

pub open spec fn topic_view(t: Option<Topic>) -> Option<Seq<u8>> {
    match t {
        Some(t) => Some(t@),
        None => None,
    }
}

pub open spec fn bytes32_view(t: Option<[u8; 32]>) -> Option<Seq<u8>> {
    match t {
        Some(t) => Some(t@),
        None => None,
    }
}

/// Calls `Display` of `iroh_gossip::proto::TopicId`, which writes the 32
/// bytes with `hex::encode`: two lower-case digits per byte, high half
/// first.
#[verifier::external_body]
fn topic_id_to_string(bytes: &[u8; 32]) -> (text: String)
    ensures
        text@ == topic_text_of(bytes@),
{
    iroh_gossip::proto::TopicId::from_bytes(*bytes).to_string()
}

/// Calls `FromStr` of `iroh_gossip::proto::TopicId`, which reads the text
/// with `hex::decode_to_slice` into 32 bytes: it takes exactly 64 digits of
/// either case and rejects everything else.
#[verifier::external_body]
fn topic_id_from_str(text: &str) -> (r: Option<[u8; 32]>)
    ensures
        bytes32_view(r) == topic_of_text(text@),
{
    match text.parse::<iroh_gossip::proto::TopicId>() {
        Ok(topic) => Some(*topic.as_bytes()),
        Err(_) => None,
    }
}

/// Two digits written for a byte read back as that byte.
proof fn lemma_byte_round_trip(b: u8)
    ensures
        hex_value(hex_digit(b >> 4)) == Some((b >> 4) as u8),
        hex_value(hex_digit(b & 0x0f)) == Some((b & 0x0f) as u8),
        byte_of_digits(hex_digit(b >> 4), hex_digit(b & 0x0f)) == b,
{
    let high: u8 = b >> 4;
    let low: u8 = b & 0x0f;
    assert(high < 16 && low < 16 && (high << 4) | low == b) by (bit_vector)
        requires
            high == b >> 4,
            low == b & 0x0f,
    ;
    lemma_digit_round_trip(high);
    lemma_digit_round_trip(low);
}

/// A digit written for a value below 16 reads back as that value.
proof fn lemma_digit_round_trip(n: u8)
    requires
        n < 16,
    ensures
        hex_value(hex_digit(n)) == Some(n),
{
    let c = hex_digit(n);
    if n < 10 {
        assert(c as u8 == 48 + n);
        assert('0' <= c && c <= '9');
    } else {
        assert(c as u8 == 97 + (n - 10));
        assert('a' <= c && c <= 'f');
    }
}

/// Reading the text of a topic gives the topic back.
pub proof fn lemma_topic_text_round_trip(topic: Seq<u8>)
    requires
        topic.len() == 32,
    ensures
        topic_of_text(topic_text_of(topic)) == Some(topic),
{
    let text = topic_text_of(topic);
    assert forall|i: int| 0 <= i < 64 implies hex_value(#[trigger] text[i]).is_some() by {
        lemma_byte_round_trip(topic[i / 2]);
    }
    let back = Seq::new(32, |i: int| byte_of_digits(text[2 * i], text[2 * i + 1]));
    assert forall|i: int| 0 <= i < 32 implies back[i] == topic[i] by {
        lemma_byte_round_trip(topic[i]);
        assert((2 * i) / 2 == i && (2 * i + 1) / 2 == i);
        assert(text[2 * i] == hex_digit(topic[i] >> 4));
        assert(text[2 * i + 1] == hex_digit(topic[i] & 0x0f));
    }
    assert(back =~= topic);
}

/// The text of a topic, as it is persisted. Reading it gives the topic back.
pub fn topic_text(topic: &Topic) -> (text: String)
    ensures
        text@ == topic_text_of(topic@),
        topic_of_text(text@) == Some(topic@),
{
    proof {
        lemma_topic_text_round_trip(topic@);
    }
    topic_id_to_string(&topic.bytes)
}

/// Reads a persisted topic back. `None` where the text is not 64
/// hexadecimal digits.
pub fn parse_topic(text: &str) -> (r: Option<Topic>)
    ensures
        topic_view(r) == topic_of_text(text@),
{
    match topic_id_from_str(text) {
        Some(bytes) => Some(Topic::from_bytes(bytes)),
        None => None,
    }
}

} // verus!
