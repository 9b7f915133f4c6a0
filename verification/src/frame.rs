//! Length-prefixed framing of a reply: `[len:4 big-endian][text:len]`.
//!
//! The length field always gives the number of bytes that follow it. A text
//! of more bytes than four bytes can count is not framed at all.

use vstd::prelude::*;
use vstd::utf8::*;

verus! {

/// The number of bytes in the length field of a frame.
pub const PREFIX_LEN: usize = 4;

/// The four bytes of `n`, most significant first.
pub open spec fn big_endian(n: u32) -> Seq<u8> {
    seq![
        (n / 0x100_0000) as u8,
        ((n / 0x1_0000) % 0x100) as u8,
        ((n / 0x100) % 0x100) as u8,
        (n % 0x100) as u8,
    ]
}

/// The number that four bytes spell, most significant first.
pub open spec fn big_endian_value(bytes: Seq<u8>) -> int
    recommends
        bytes.len() == 4,
{
    bytes[0] * 0x100_0000 + bytes[1] * 0x1_0000 + bytes[2] * 0x100 + bytes[3]
}

/// Whether a text is short enough for the length field to give its length.
pub open spec fn fits(text: Seq<u8>) -> bool {
    text.len() <= u32::MAX
}

/// The frame of `text`: its length in four bytes, followed by the text.
pub open spec fn framed(text: Seq<u8>) -> Seq<u8>
    recommends
        fits(text),
{
    big_endian(text.len() as u32) + text
}

/// The frame of `text`, or `None` for a text that is too long to frame.
pub open spec fn frame_of(text: Seq<u8>) -> Option<Seq<u8>> {
    if fits(text) {
        Some(framed(text))
    } else {
        None
    }
}

/// What a receiver reads out of `frame`: the bytes that follow the length
/// field, as many as the field says, or `None` if the frame is shorter than
/// that.
pub open spec fn unframed(frame: Seq<u8>) -> Option<Seq<u8>> {
    if frame.len() < 4 {
        None
    } else {
        let len = big_endian_value(frame.subrange(0, 4));
        if frame.len() - 4 < len {
            None
        } else {
            Some(frame.subrange(4, 4 + len))
        }
    }
}

/// Writes `n` as four bytes, most significant first.
pub fn big_endian_bytes(n: u32) -> (bytes: Vec<u8>)
    ensures
        bytes@ == big_endian(n),
{
    let mut bytes: Vec<u8> = Vec::with_capacity(PREFIX_LEN);
    bytes.push((n / 0x100_0000) as u8);
    bytes.push(((n / 0x1_0000) % 0x100) as u8);
    bytes.push(((n / 0x100) % 0x100) as u8);
    bytes.push((n % 0x100) as u8);
    bytes
}

/// Frames the text `s` for transport: four bytes that give the number of
/// its UTF-8 bytes, then those bytes. A text of more bytes than the four
/// can count has no frame.
pub fn pack_result(s: &str) -> (packed: Vec<u8>)
    requires
        fits(encode_utf8(s@)),
    ensures
        packed@ == framed(encode_utf8(s@)),
{
    let text = s.as_bytes();
    let len: u32 = text.len() as u32;
    let mut packed = big_endian_bytes(len);
    let mut i: usize = 0;
    while i < text.len()
        invariant
            i <= text.len(),
            packed@ == big_endian(len) + text@.subrange(0, i as int),
        decreases text.len() - i,
    {
        packed.push(text[i]);
        i += 1;
    }
    assert(text@.subrange(0, i as int) == text@);
    packed
}

/// Frames the text `s` where it can be framed, and says so where it cannot.
pub fn frame_text(s: &str) -> (packed: Option<Vec<u8>>)
    ensures
        frame_view(packed) == frame_of(encode_utf8(s@)),
{
    if s.as_bytes().len() as u64 <= u32::MAX as u64 {
        Some(pack_result(s))
    } else {
        None
    }
}

/// The bytes of a frame that may be missing.
pub open spec fn frame_view(frame: Option<Vec<u8>>) -> Option<Seq<u8>> {
    match frame {
        Some(bytes) => Some(bytes@),
        None => None,
    }
}

/// Reading a frame gives back the framed bytes.
pub proof fn lemma_unframed_framed(text: Seq<u8>)
    requires
        fits(text),
    ensures
        unframed(framed(text)) == Some(text),
{
    let n = text.len() as u32;
    let frame = framed(text);
    assert(frame.subrange(0, 4) == big_endian(n));
    assert(big_endian_value(big_endian(n)) == n);
    assert(frame.subrange(4, 4 + n) == text);
}

/// The round trip of a framed reply: the bytes after the length field, as
/// many as it says, decode as UTF-8 to the text that was framed.
pub proof fn lemma_frame_round_trip(text: Seq<char>)
    requires
        fits(encode_utf8(text)),
    ensures
        unframed(framed(encode_utf8(text))) == Some(encode_utf8(text)),
        decode_utf8(unframed(framed(encode_utf8(text))).unwrap()) == text,
{
    lemma_unframed_framed(encode_utf8(text));
    encode_utf8_decode_utf8(text);
}

} // verus!
