//! The terminal escape sequence that asks a terminal emulator to put text on
//! the clipboard of the machine it runs on (OSC 52).

use base64::Engine;
use vstd::prelude::*;
use vstd::string::*;
use vstd::utf8::*;

verus! {

/// The base64 text of `input`, in the standard alphabet and padded with `=`,
/// as ASCII bytes: what the `STANDARD` engine of the base64 crate encodes it
/// to.
pub uninterp spec fn base64_standard(input: Seq<u8>) -> Seq<u8>;

/// The base64 text of `length` bytes has a length that fits in `usize`.
pub open spec fn encodable(length: nat) -> bool {
    (length / 3) * 4 + (if length % 3 > 0 {
        4nat
    } else {
        0nat
    }) <= usize::MAX
}

/// The bytes that open the sequence: `ESC ] 5 2 ; c ;`.
pub open spec fn sequence_start() -> Seq<u8> {
    seq![0x1bu8, 0x5du8, 0x35u8, 0x32u8, 0x3bu8, 0x63u8, 0x3bu8]
}

/// The byte that closes the sequence: `BEL`.
pub open spec fn sequence_end() -> Seq<u8> {
    seq![0x07u8]
}

/// The sequence around a payload: the opening bytes, the payload, and the
/// closing byte.
pub open spec fn framed(payload: Seq<u8>) -> Seq<u8> {
    sequence_start() + payload + sequence_end()
}

/// The whole sequence for `text`: the frame around the base64 text of the
/// UTF-8 bytes of `text`.
pub open spec fn clipboard_sequence(text: Seq<char>) -> Seq<u8> {
    framed(base64_standard(encode_utf8(text)))
}

/// Calls `Engine::encode` of the base64 crate on its `STANDARD` engine, which
/// hands back the padded base64 text of the input in the standard alphabet,
/// here as its bytes. The text depends on the input alone, and
/// [`base64_standard`] is the name of it. The call panics where the length of
/// that text does not fit in `usize`; such inputs are left out. Taken on
/// trust: nothing here proves what the text is.
#[verifier::external_body]
fn base64_encode(input: &[u8]) -> (encoded: Vec<u8>)
    requires
        encodable(input@.len()),
    ensures
        encoded@ == base64_standard(input@),
{
    base64::engine::general_purpose::STANDARD.encode(input).into_bytes()
}

/// Whether text of `length` bytes can be put into a sequence.
pub fn can_encode(length: usize) -> (fits: bool)
    ensures
        fits == encodable(length as nat),
{
    let groups: usize = length / 3;
    let tail: usize = if length % 3 > 0 {
        4
    } else {
        0
    };
    groups <= (usize::MAX - tail) / 4
}

/// Puts the frame of the sequence around a payload that is already encoded.
pub fn frame(payload: Vec<u8>) -> (sequence: Vec<u8>)
    ensures
        sequence@ == framed(payload@),
{
    let mut rest = payload;
    let mut sequence: Vec<u8> = Vec::new();
    sequence.push(0x1b);
    sequence.push(0x5d);
    sequence.push(0x35);
    sequence.push(0x32);
    sequence.push(0x3b);
    sequence.push(0x63);
    sequence.push(0x3b);
    sequence.append(&mut rest);
    sequence.push(0x07);
    sequence
}

/// The escape sequence that sets the clipboard to `text`.
pub fn set_clipboard_osc_52(text: &str) -> (sequence: Vec<u8>)
    requires
        encodable(encode_utf8(text@).len()),
    ensures
        sequence@ == clipboard_sequence(text@),
{
    frame(base64_encode(text.as_bytes()))
}

} // verus!
