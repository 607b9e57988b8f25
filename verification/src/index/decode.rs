//! Decoding file bytes into text: the encodings tried in turn, and the test
//! that accepts a decoding.

use vstd::prelude::*;
use vstd::string::StrSliceExecFns;

use crate::index::manager::lemma_filter_push;

verus! {

/// The text encodings tried when reading a file, in this order.
#[derive(Debug, PartialEq, Eq, Structural, Clone, Copy)]
pub enum TextEncoding {
    Utf8,
    Gbk,
    Gb18030,
    Windows1252,
}

/// The text that `encoding_rs` gives when decoding `bytes` with `encoding`
/// (a byte order mark, if any, chooses the encoding instead), and whether
/// malformed sequences were replaced.
pub uninterp spec fn decoded_as(encoding: TextEncoding, bytes: Seq<u8>) -> (Seq<char>, bool);

/// The text that `String::from_utf8_lossy` gives for `bytes`.
pub uninterp spec fn utf8_lossy(bytes: Seq<u8>) -> Seq<char>;

/// Calls `Encoding::decode` of `encoding_rs` on the static encoding that
/// `encoding` stands for. Claimed: the text and the malformed-input flag are
/// those named by `decoded_as`. The call panics only when the size of its
/// output buffer overflows `usize`, which the bound on the input excludes.
#[verifier::external_body]
fn decode_as(encoding: TextEncoding, bytes: &[u8]) -> (res: (String, bool))
    requires
        bytes@.len() <= usize::MAX / 4,
    ensures
        (res.0@, res.1) == decoded_as(encoding, bytes@),
{
    let enc = match encoding {
        TextEncoding::Utf8 => encoding_rs::UTF_8,
        TextEncoding::Gbk => encoding_rs::GBK,
        TextEncoding::Gb18030 => encoding_rs::GB18030,
        TextEncoding::Windows1252 => encoding_rs::WINDOWS_1252,
    };
    let (text, _, had_errors) = enc.decode(bytes);
    (text.into_owned(), had_errors)
}

/// Calls `String::from_utf8_lossy`. Claimed: the text is the one named by
/// `utf8_lossy`.
#[verifier::external_body]
fn decode_utf8_lossy(bytes: &[u8]) -> (res: String)
    ensures
        res@ == utf8_lossy(bytes@),
{
    String::from_utf8_lossy(bytes).into_owned()
}

/// Number of replacement characters (U+FFFD) in `s`.
pub open spec fn replacement_count(s: Seq<char>) -> nat {
    s.filter(|c: char| c == '\u{FFFD}').len()
}

/// Replacement characters tolerated in a text of `byte_len` UTF-8 bytes:
/// 5 below 100 bytes, else 5% of the bytes, rounded down.
pub open spec fn replacement_threshold(byte_len: nat) -> nat {
    if byte_len < 100 {
        5
    } else {
        byte_len / 20
    }
}

/// A decoding is accepted when it had no malformed input and few
/// replacement characters.
pub open spec fn acceptable(d: (Seq<char>, bool)) -> bool {
    !d.1 && replacement_count(d.0) <= replacement_threshold(vstd::utf8::encode_utf8(d.0).len())
}

/// The text of a file's bytes: the first acceptable decoding among UTF-8,
/// GBK, GB18030 and Windows-1252, else lossy UTF-8.
pub open spec fn decoded_text(bytes: Seq<u8>) -> Seq<char> {
    if acceptable(decoded_as(TextEncoding::Utf8, bytes)) {
        decoded_as(TextEncoding::Utf8, bytes).0
    } else if acceptable(decoded_as(TextEncoding::Gbk, bytes)) {
        decoded_as(TextEncoding::Gbk, bytes).0
    } else if acceptable(decoded_as(TextEncoding::Gb18030, bytes)) {
        decoded_as(TextEncoding::Gb18030, bytes).0
    } else if acceptable(decoded_as(TextEncoding::Windows1252, bytes)) {
        decoded_as(TextEncoding::Windows1252, bytes).0
    } else {
        utf8_lossy(bytes)
    }
}

/// Counts the replacement characters of `s`.
fn count_replacements(s: &str) -> (res: usize)
    ensures
        res == replacement_count(s@),
{
    let bound = s.unicode_len();
    let mut n: usize = 0;
    let ghost pred = |c: char| c == '\u{FFFD}';
    for c in it: s.chars()
        invariant
            it.seq() == s@,
            it.seq().len() == bound,
            pred == (|c: char| c == '\u{FFFD}'),
            n == it.seq().take(it.index() as int).filter(pred).len(),
            n <= it.index(),
    {
        let ghost k = it.index() as int;
        proof {
            assert(it.seq().take(k + 1) == it.seq().take(k).push(c));
            lemma_filter_push(it.seq().take(k), pred, c);
        }
        if c == '\u{FFFD}' {
            n = n + 1;
        }
    }
    assert(s@.take(s@.len() as int) =~= s@);
    n
}

/// Whether a decoding is accepted (see `acceptable`).
fn accept_decoding(text: &str, had_errors: bool) -> (res: bool)
    ensures
        res == acceptable((text@, had_errors)),
{
    if had_errors {
        return false;
    }
    let len = text.as_bytes().len();
    let threshold = if len < 100 {
        5
    } else {
        len / 20
    };
    count_replacements(text) <= threshold
}

/// Decodes file bytes, trying UTF-8, GBK, GB18030 and Windows-1252 in turn
/// and taking the first decoding without malformed input and with few
/// replacement characters; lossy UTF-8 otherwise.
pub fn decode_bytes_with_encoding(bytes: &[u8]) -> (res: String)
    requires
        bytes@.len() <= usize::MAX / 4,
    ensures
        res@ == decoded_text(bytes@),
{
    let (text, errors) = decode_as(TextEncoding::Utf8, bytes);
    if accept_decoding(text.as_str(), errors) {
        return text;
    }
    let (text, errors) = decode_as(TextEncoding::Gbk, bytes);
    if accept_decoding(text.as_str(), errors) {
        return text;
    }
    let (text, errors) = decode_as(TextEncoding::Gb18030, bytes);
    if accept_decoding(text.as_str(), errors) {
        return text;
    }
    let (text, errors) = decode_as(TextEncoding::Windows1252, bytes);
    if accept_decoding(text.as_str(), errors) {
        return text;
    }
    decode_utf8_lossy(bytes)
}

} // verus!
