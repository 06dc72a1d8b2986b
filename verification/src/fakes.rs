//! Draws that the `fake` crate makes on the stream: texts, dates, addresses, bytes.
//!
//! Nothing here is proved of them: each function of this file states what the crate's own
//! source shows of one of its generators.

use crate::stream::StreamState;
use crate::stream::stream_state;
use fake::faker::internet::en::IPv4;
use fake::faker::time::en::Date;
use fake::Fake;
use fake::Faker;
use rand_chacha::ChaCha8Rng;
use vstd::prelude::*;

verus! {

/// An ASCII decimal digit.
pub open spec fn is_digit(c: char) -> bool {
    '0' <= c <= '9'
}

/// An ASCII letter or decimal digit.
pub open spec fn is_alphanumeric(c: char) -> bool {
    is_digit(c) || 'a' <= c <= 'z' || 'A' <= c <= 'Z'
}

/// A calendar date written as four digits, a hyphen, two digits, a hyphen and two digits.
pub open spec fn is_date_text(text: Seq<char>) -> bool {
    &&& text.len() == 10
    &&& text[4] == '-'
    &&& text[7] == '-'
    &&& forall|i: int| 0 <= i < 10 && i != 4 && i != 7 ==> is_digit(#[trigger] text[i])
}

/// Digits and dots, no shorter than `0.0.0.0` and no longer than `255.255.255.255`.
pub open spec fn is_address_text(text: Seq<char>) -> bool {
    &&& 7 <= text.len() <= 15
    &&& forall|i: int| 0 <= i < text.len() ==> is_digit(#[trigger] text[i]) || text[i] == '.'
}

/// The text that the string generator yields for a length range `[min, max)` on a machine
/// whose `usize` has `word_bits` bits, and where it leaves the stream.
pub uninterp spec fn text_outcome(state: StreamState, word_bits: int, min: nat, max: nat) -> (
    Seq<char>,
    StreamState,
);

/// The number that the inclusive-range generator yields on `u32`, and where it leaves the
/// stream.
pub uninterp spec fn inclusive_u32_outcome(state: StreamState, low: u32, high: u32) -> (
    u32,
    StreamState,
);

/// The date that the date generator writes, and where it leaves the stream.
pub uninterp spec fn date_outcome(state: StreamState) -> (Seq<char>, StreamState);

/// The address that the IPv4 generator writes, and where it leaves the stream.
pub uninterp spec fn ipv4_outcome(state: StreamState) -> (Seq<char>, StreamState);

/// The sixteen bytes that the array generator yields, and where it leaves the stream.
pub uninterp spec fn bytes16_outcome(state: StreamState) -> (Seq<u8>, StreamState);

/// `fake_with_rng::<String, _>` on a `Range<usize>`: the length is drawn with `gen_range`
/// from the range, which must not be empty, and that many characters are then sampled from
/// the letters and digits of ASCII.
#[verifier::external_body]
pub(crate) fn fake_text(rng: &mut ChaCha8Rng, min: usize, max: usize) -> (text: String)
    requires
        min < max,
    ensures
        min <= text@.len() < max,
        forall|i: int| 0 <= i < text@.len() ==> is_alphanumeric(#[trigger] text@[i]),
        text@ == text_outcome(
            stream_state(*old(rng)),
            usize::BITS as int,
            min as nat,
            max as nat,
        ).0,
        stream_state(*final(rng)) == text_outcome(
            stream_state(*old(rng)),
            usize::BITS as int,
            min as nat,
            max as nat,
        ).1,
{
    (min..max).fake_with_rng::<String, ChaCha8Rng>(rng)
}

/// `fake_with_rng::<u32, _>` on a `RangeInclusive<u32>`: one sample of the uniform
/// distribution on the closed range, which must hold `low <= high`.
#[verifier::external_body]
pub(crate) fn fake_u32(rng: &mut ChaCha8Rng, low: u32, high: u32) -> (value: u32)
    requires
        low <= high,
    ensures
        low <= value <= high,
        value == inclusive_u32_outcome(stream_state(*old(rng)), low, high).0,
        stream_state(*final(rng)) == inclusive_u32_outcome(stream_state(*old(rng)), low, high).1,
{
    (low..=high).fake_with_rng::<u32, ChaCha8Rng>(rng)
}

/// `fake_with_rng::<String, _>` on `faker::time::en::Date`: a year below 3000 and a day of
/// that year, written as `[year]-[month]-[day]`.
#[verifier::external_body]
pub(crate) fn fake_date(rng: &mut ChaCha8Rng) -> (text: String)
    ensures
        is_date_text(text@),
        text@ == date_outcome(stream_state(*old(rng))).0,
        stream_state(*final(rng)) == date_outcome(stream_state(*old(rng))).1,
{
    Date().fake_with_rng::<String, ChaCha8Rng>(rng)
}

/// `fake_with_rng::<String, _>` on `faker::internet::en::IPv4`: four bytes, each written
/// in decimal, with dots between them.
#[verifier::external_body]
pub(crate) fn fake_ipv4(rng: &mut ChaCha8Rng) -> (text: String)
    ensures
        is_address_text(text@),
        text@ == ipv4_outcome(stream_state(*old(rng))).0,
        stream_state(*final(rng)) == ipv4_outcome(stream_state(*old(rng))).1,
{
    IPv4().fake_with_rng::<String, ChaCha8Rng>(rng)
}

/// `fake_with_rng::<[u8; 16], _>` on `Faker`: sixteen bytes, each taken from the stream.
#[verifier::external_body]
pub(crate) fn fake_bytes16(rng: &mut ChaCha8Rng) -> (bytes: [u8; 16])
    ensures
        bytes@ == bytes16_outcome(stream_state(*old(rng))).0,
        stream_state(*final(rng)) == bytes16_outcome(stream_state(*old(rng))).1,
{
    Faker.fake_with_rng::<[u8; 16], ChaCha8Rng>(rng)
}

/// `String::push`: the character is appended.
#[verifier::external_body]
pub(crate) fn push_char(text: &mut String, c: char)
    ensures
        final(text)@ == old(text)@.push(c),
{
    text.push(c)
}

} // verus!
