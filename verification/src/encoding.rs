use base64::{engine::general_purpose::STANDARD as BASE64, Engine as _};
use vstd::prelude::*;

use crate::error::StoreError;

verus! {

/// The character that stands for a six-bit value in the standard base64
/// alphabet (`A`-`Z`, `a`-`z`, `0`-`9`, `+`, `/`).
pub open spec fn base64_symbol(v: int) -> char {
    if v < 26 {
        (65 + v) as char
    } else if v < 52 {
        (97 + (v - 26)) as char
    } else if v < 62 {
        (48 + (v - 52)) as char
    } else if v == 62 {
        '+'
    } else {
        '/'
    }
}

/// The four characters that encode one group of three bytes.
pub open spec fn base64_quad(b0: int, b1: int, b2: int) -> Seq<char> {
    seq![
        base64_symbol(b0 / 4),
        base64_symbol((b0 % 4) * 16 + b1 / 16),
        base64_symbol((b1 % 16) * 4 + b2 / 64),
        base64_symbol(b2 % 64),
    ]
}

/// Standard base64 with `=` padding (RFC 4648, section 4), as the text
/// written for a byte sequence.
pub open spec fn base64_encoding(bytes: Seq<u8>) -> Seq<char>
    decreases bytes.len(),
{
    if bytes.len() == 0 {
        Seq::empty()
    } else if bytes.len() == 1 {
        let b0 = bytes[0] as int;
        seq![base64_symbol(b0 / 4), base64_symbol((b0 % 4) * 16), '=', '=']
    } else if bytes.len() == 2 {
        let b0 = bytes[0] as int;
        let b1 = bytes[1] as int;
        seq![
            base64_symbol(b0 / 4),
            base64_symbol((b0 % 4) * 16 + b1 / 16),
            base64_symbol((b1 % 16) * 4),
            '=',
        ]
    } else {
        base64_quad(bytes[0] as int, bytes[1] as int, bytes[2] as int) + base64_encoding(
            bytes.subrange(3, bytes.len() as int),
        )
    }
}

/// Whether a text is the standard padded base64 encoding of some bytes.
pub open spec fn is_base64_encoding(text: Seq<char>) -> bool {
    exists|bytes: Seq<u8>| base64_encoding(bytes) == text
}

/// The bytes that a text encodes in standard padded base64, if it is such an
/// encoding (there is at most one such byte sequence, see
/// `lemma_base64_encoding_injective`).
pub open spec fn base64_decoding(text: Seq<char>) -> Option<Seq<u8>> {
    if is_base64_encoding(text) {
        Some(choose|bytes: Seq<u8>| base64_encoding(bytes) == text)
    } else {
        None
    }
}

proof fn lemma_symbol_injective(v: int, w: int)
    requires
        0 <= v < 64,
        0 <= w < 64,
        base64_symbol(v) == base64_symbol(w),
    ensures
        v == w,
{
}

proof fn lemma_symbol_not_padding(v: int)
    requires
        0 <= v < 64,
    ensures
        base64_symbol(v) != '=',
{
}

proof fn lemma_quad_injective(a0: u8, a1: u8, a2: u8, b0: u8, b1: u8, b2: u8)
    requires
        base64_quad(a0 as int, a1 as int, a2 as int) == base64_quad(b0 as int, b1 as int, b2 as int),
    ensures
        a0 == b0,
        a1 == b1,
        a2 == b2,
{
    let qa = base64_quad(a0 as int, a1 as int, a2 as int);
    let qb = base64_quad(b0 as int, b1 as int, b2 as int);
    assert(qa[0] == qb[0] && qa[1] == qb[1] && qa[2] == qb[2] && qa[3] == qb[3]);
    lemma_symbol_injective(a0 as int / 4, b0 as int / 4);
    lemma_symbol_injective(
        (a0 as int % 4) * 16 + a1 as int / 16,
        (b0 as int % 4) * 16 + b1 as int / 16,
    );
    lemma_symbol_injective(
        (a1 as int % 16) * 4 + a2 as int / 64,
        (b1 as int % 16) * 4 + b2 as int / 64,
    );
    lemma_symbol_injective(a2 as int % 64, b2 as int % 64);
}

/// The encoding of `n` bytes has `4 * ceil(n / 3)` characters.
pub proof fn lemma_base64_encoding_len(bytes: Seq<u8>)
    ensures
        base64_encoding(bytes).len() == 4 * ((bytes.len() + 2) / 3),
    decreases bytes.len(),
{
    if bytes.len() >= 3 {
        lemma_base64_encoding_len(bytes.subrange(3, bytes.len() as int));
    }
}

/// Two byte sequences with the same standard base64 encoding are equal.
pub proof fn lemma_base64_encoding_injective(a: Seq<u8>, b: Seq<u8>)
    requires
        base64_encoding(a) == base64_encoding(b),
    ensures
        a == b,
    decreases a.len(),
{
    let ea = base64_encoding(a);
    let eb = base64_encoding(b);
    lemma_base64_encoding_len(a);
    lemma_base64_encoding_len(b);
    if a.len() == 0 || b.len() == 0 {
        assert(a.len() == 0 && b.len() == 0);
        assert(a =~= b);
    } else if a.len() < 3 || b.len() < 3 {
        assert(ea.len() == 4 && eb.len() == 4);
        assert(a.len() < 3 && b.len() < 3);
        assert(ea[0] == eb[0] && ea[1] == eb[1] && ea[2] == eb[2] && ea[3] == eb[3]);
        let a0 = a[0] as int;
        let b0 = b[0] as int;
        if a.len() == 1 && b.len() == 2 {
            lemma_symbol_not_padding((b[1] as int % 16) * 4);
        } else if a.len() == 2 && b.len() == 1 {
            lemma_symbol_not_padding((a[1] as int % 16) * 4);
        } else if a.len() == 1 {
            lemma_symbol_injective(a0 / 4, b0 / 4);
            lemma_symbol_injective((a0 % 4) * 16, (b0 % 4) * 16);
            assert(a =~= b);
        } else {
            let a1 = a[1] as int;
            let b1 = b[1] as int;
            lemma_symbol_injective(a0 / 4, b0 / 4);
            lemma_symbol_injective((a0 % 4) * 16 + a1 / 16, (b0 % 4) * 16 + b1 / 16);
            lemma_symbol_injective((a1 % 16) * 4, (b1 % 16) * 4);
            assert(a =~= b);
        }
    } else {
        let qa = base64_quad(a[0] as int, a[1] as int, a[2] as int);
        let qb = base64_quad(b[0] as int, b[1] as int, b[2] as int);
        let ra = a.subrange(3, a.len() as int);
        let rb = b.subrange(3, b.len() as int);
        assert(ea == qa + base64_encoding(ra));
        assert(eb == qb + base64_encoding(rb));
        assert(ea.subrange(0, 4) =~= qa);
        assert(eb.subrange(0, 4) =~= qb);
        assert(ea.subrange(4, ea.len() as int) =~= base64_encoding(ra));
        assert(eb.subrange(4, eb.len() as int) =~= base64_encoding(rb));
        lemma_quad_injective(a[0], a[1], a[2], b[0], b[1], b[2]);
        lemma_base64_encoding_injective(ra, rb);
        assert(a =~= seq![a[0], a[1], a[2]] + ra);
        assert(b =~= seq![b[0], b[1], b[2]] + rb);
    }
}

/// Decoding the encoding of some bytes gives those bytes back.
pub proof fn lemma_base64_round_trip(bytes: Seq<u8>)
    ensures
        base64_decoding(base64_encoding(bytes)) == Some(bytes),
{
    let text = base64_encoding(bytes);
    assert(is_base64_encoding(text));
    let chosen = choose|b: Seq<u8>| base64_encoding(b) == text;
    lemma_base64_encoding_injective(chosen, bytes);
}

/// Encodes bytes as text with `base64::engine::general_purpose::STANDARD`
/// (`Engine::encode`).
///
/// Trusted: the text is the standard alphabet with `=` padding, as the
/// crate's `STANDARD` engine documents (RFC 4648, section 4).
#[verifier::external_body]
pub(crate) fn base64_encode(bytes: &[u8]) -> (text: String)
    ensures
        text@ == base64_encoding(bytes@),
{
    BASE64.encode(bytes)
}

/// The description of the error with which the standard base64 engine
/// refuses a text that is not an encoding.
pub uninterp spec fn base64_error_text(text: Seq<char>) -> Seq<char>;

/// Decodes text with `base64::engine::general_purpose::STANDARD`
/// (`Engine::decode`).
///
/// Trusted: the engine's configuration requires canonical padding and rejects
/// non-zero trailing bits, so it accepts exactly the texts that its encoder
/// can produce, and gives back the bytes whose encoding the text is. The
/// error is the crate's `DecodeError`, kept as its description, which
/// depends on the text alone.
#[verifier::external_body]
pub(crate) fn base64_decode(text: &str) -> (r: Result<Vec<u8>, StoreError>)
    ensures
        r is Ok <==> is_base64_encoding(text@),
        r matches Ok(bytes) ==> base64_encoding(bytes@) == text@,
        r matches Err(StoreError::Outside(m)) ==> m@ == base64_error_text(text@),
        r matches Err(e) ==> e is Outside,
{
    BASE64.decode(text).map_err(|error| StoreError::Outside(error.to_string()))
}

/// The description of the error (`FromUtf8Error`) with which the standard
/// library refuses bytes that are not valid UTF-8.
pub uninterp spec fn utf8_error_text(bytes: Seq<u8>) -> Seq<char>;

/// Builds a `String` from bytes with `String::from_utf8`.
///
/// Trusted: the standard library accepts exactly the valid UTF-8 sequences
/// and decodes them; the error (`FromUtf8Error`) is kept as its description,
/// which names the position and kind of the first invalid sequence and so
/// depends on the bytes alone.
#[verifier::external_body]
pub(crate) fn string_from_utf8(bytes: Vec<u8>) -> (r: Result<String, StoreError>)
    ensures
        r is Ok <==> vstd::utf8::valid_utf8(bytes@),
        r matches Ok(s) ==> s@ == vstd::utf8::decode_utf8(bytes@),
        r matches Err(StoreError::Outside(m)) ==> m@ == utf8_error_text(bytes@),
        r matches Err(e) ==> e is Outside,
{
    String::from_utf8(bytes).map_err(|error| StoreError::Outside(error.to_string()))
}

} // verus!
