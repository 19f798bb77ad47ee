use vstd::prelude::*;

verus! {

/// The character encoding in which a child process writes its console output.
///
/// The choice is fixed once per build target by the caller: legacy GBK where
/// the tools print in the system code page, UTF-8 elsewhere.
#[derive(Clone, Copy, Debug, PartialEq, Eq, Structural)]
pub enum TextEncoding {
    Gbk,
    Utf8Lossy,
}

/// The text that `encoding_rs` gives for `b` when asked to decode it as GBK:
/// a chunk that starts with a UTF-8 or UTF-16 byte-order mark is decoded in
/// that encoding instead, and malformed sequences are replaced.
pub uninterp spec fn gbk_text(b: Seq<u8>) -> Seq<char>;

/// The text that lossy UTF-8 decoding gives for `b`.
pub uninterp spec fn utf8_lossy_text(b: Seq<u8>) -> Seq<char>;

/// Whether every byte of `b` is ASCII.
pub open spec fn is_ascii_bytes(b: Seq<u8>) -> bool {
    forall|i: int| 0 <= i < b.len() ==> #[trigger] b[i] < 0x80
}

/// The text whose characters are the bytes of `b`, one for one.
pub open spec fn ascii_text(b: Seq<u8>) -> Seq<char> {
    b.map_values(|x: u8| x as char)
}

/// The text that `decode_bytes` gives for a chunk of output.
pub open spec fn decoded(encoding: TextEncoding, b: Seq<u8>) -> Seq<char> {
    match encoding {
        TextEncoding::Gbk => gbk_text(b),
        TextEncoding::Utf8Lossy => utf8_lossy_text(b),
    }
}

/// Relies on `encoding_rs::Encoding::decode` for `GBK`: it never fails,
/// replaces malformed sequences, and gives empty text for empty input. ASCII
/// input holds no byte-order mark and is handed back as it is.
#[verifier::external_body]
fn gbk_decode(b: &[u8]) -> (r: String)
    ensures
        r@ == gbk_text(b@),
        b@.len() == 0 ==> r@.len() == 0,
        is_ascii_bytes(b@) ==> r@ == ascii_text(b@),
{
    let (text, _, _) = encoding_rs::GBK.decode(b);
    text.into_owned()
}

/// Relies on `String::from_utf8_lossy`: it never fails, replaces invalid
/// sequences, and hands valid UTF-8 (so ASCII) back unchanged.
#[verifier::external_body]
fn utf8_lossy_decode(b: &[u8]) -> (r: String)
    ensures
        r@ == utf8_lossy_text(b@),
        b@.len() == 0 ==> r@.len() == 0,
        is_ascii_bytes(b@) ==> r@ == ascii_text(b@),
{
    String::from_utf8_lossy(b).into_owned()
}

/// Decodes one chunk of console output. Total: undecodable input is replaced,
/// never reported.
pub fn decode_bytes(encoding: TextEncoding, buffer: &[u8]) -> (r: String)
    ensures
        r@ == decoded(encoding, buffer@),
        buffer@.len() == 0 ==> r@.len() == 0,
        is_ascii_bytes(buffer@) ==> r@ == ascii_text(buffer@),
{
    match encoding {
        TextEncoding::Gbk => gbk_decode(buffer),
        TextEncoding::Utf8Lossy => utf8_lossy_decode(buffer),
    }
}

} // verus!
