//! Verification of the signature that GitHub puts on a webhook delivery.
//!
//! GitHub signs the raw request body with HMAC-SHA1 under a secret that it
//! shares with the receiver, and sends the tag in a header of the form
//! `sha1=` followed by forty hex digits. A delivery is authentic when the
//! header is of that form and its digits denote the tag of the body that
//! arrived.
//!
//! Only this scheme is read. The newer `sha256=` header is a different
//! header; given here, it is malformed like any other text.

use crate::error::{ErrorKind, OctokitError};
use crate::hexcode::{
    hex_decode, hex_decoded, hex_encoded, is_hex_digit, is_hex_text, lemma_hex_round_trip,
};
use crate::hmac::{compute_hmac_sha1, constant_time_eq, hmac_sha1, MAX_KEY_LEN};
use vstd::prelude::*;
use vstd::slice::slice_subrange;
use vstd::utf8::{
    encode_scalar, encode_utf8, has_width_1_encoding, is_ascii_chars, is_ascii_chars_encode_utf8,
    leading_byte_width_2, leading_byte_width_3, leading_byte_width_4,
};

verus! {

/// The request header that names the kind of event delivered.
pub const EVENT_HEADER_NAME: &'static str = "X-GITHUB-EVENT";

/// The request header that carries the signature of the body.
pub const SIGNATURE_HEADER_NAME: &'static str = "X-HUB-SIGNATURE";

/// The length of the scheme prefix `sha1=`.
pub const PREFIX_LEN: usize = 5;

/// The length of an HMAC-SHA1 tag in bytes.
pub const DIGEST_LEN: usize = 20;

/// The length of a well-formed signature header: the prefix and two hex
/// digits for each byte of the tag.
pub const HEADER_LEN: usize = 45;

/// The bytes of the scheme prefix `sha1=`.
pub open spec fn signature_prefix() -> Seq<u8> {
    seq![0x73u8, 0x68u8, 0x61u8, 0x31u8, 0x3du8]
}

/// Whether `header` is `sha1=` followed by exactly forty hex digits.
pub open spec fn is_signature_header(header: Seq<u8>) -> bool {
    &&& header.len() == HEADER_LEN
    &&& header.subrange(0, PREFIX_LEN as int) == signature_prefix()
    &&& is_hex_text(header.subrange(PREFIX_LEN as int, HEADER_LEN as int))
}

/// The twenty bytes that the digits of a well-formed header denote.
pub open spec fn header_digest(header: Seq<u8>) -> Seq<u8>
    recommends
        is_signature_header(header),
{
    hex_decoded(header.subrange(PREFIX_LEN as int, HEADER_LEN as int))
}

/// The header that announces `digest`: `sha1=` and the digest in lower-case
/// hex.
pub open spec fn signature_header_for(digest: Seq<u8>) -> Seq<u8> {
    signature_prefix() + hex_encoded(digest)
}

/// Whether `header` proves that `body` was signed under `secret`: it is well
/// formed and denotes the HMAC-SHA1 tag of `body` under `secret`.
pub open spec fn authentic(header: Seq<u8>, secret: Seq<u8>, body: Seq<u8>) -> bool {
    &&& is_signature_header(header)
    &&& header_digest(header) == hmac_sha1(secret, body)
}

/// Whether `c` is a hex digit: `0`-`9`, `A`-`F` or `a`-`f`.
pub open spec fn is_hex_char(c: char) -> bool {
    ||| '0' <= c <= '9'
    ||| 'A' <= c <= 'F'
    ||| 'a' <= c <= 'f'
}

/// Whether the string `text` is `sha1=` followed by exactly forty hex
/// digits.
pub open spec fn is_signature_text(text: Seq<char>) -> bool {
    &&& text.len() == HEADER_LEN
    &&& text.subrange(0, PREFIX_LEN as int) == seq!['s', 'h', 'a', '1', '=']
    &&& forall|i: int| PREFIX_LEN <= i < HEADER_LEN ==> is_hex_char(#[trigger] text[i])
}

/// Whether the first five bytes of `header` are `sha1=`.
fn has_signature_prefix(header: &[u8]) -> (r: bool)
    requires
        header@.len() >= PREFIX_LEN,
    ensures
        r == (header@.subrange(0, PREFIX_LEN as int) == signature_prefix()),
{
    let r = header[0] == 0x73 && header[1] == 0x68 && header[2] == 0x61 && header[3] == 0x31
        && header[4] == 0x3d;
    proof {
        let head = header@.subrange(0, PREFIX_LEN as int);
        if r {
            assert(head =~= signature_prefix());
        } else {
            assert(head[0] == header@[0] && head[1] == header@[1] && head[2] == header@[2]
                && head[3] == header@[3] && head[4] == header@[4]);
        }
    }
    r
}

/// Reads a signature header: the tag that it announces, or a
/// `MalformedSignature` error when it is not `sha1=` followed by exactly
/// forty hex digits.
pub fn parse_signature(header: &[u8]) -> (r: Result<Vec<u8>, OctokitError>)
    ensures
        r is Ok <==> is_signature_header(header@),
        r matches Ok(digest) ==> digest@ == header_digest(header@),
        r matches Err(e) ==> e.kind() == ErrorKind::MalformedSignature,
{
    if header.len() != HEADER_LEN {
        return Err(
            OctokitError::with_kind(
                ErrorKind::MalformedSignature,
                "signature header must be 45 bytes long",
            ),
        );
    }
    if !has_signature_prefix(header) {
        return Err(
            OctokitError::with_kind(
                ErrorKind::MalformedSignature,
                "signature header must start with sha1=",
            ),
        );
    }
    match hex_decode(slice_subrange(header, PREFIX_LEN, HEADER_LEN)) {
        Ok(digest) => Ok(digest),
        Err(err) => Err(OctokitError::from(err)),
    }
}

/// Whether two digests are the same bytes. Digests of one length are
/// compared in time that does not depend on where they differ.
pub fn digests_match(received: &[u8], expected: &[u8]) -> (r: bool)
    ensures
        r == (received@ == expected@),
{
    if received.len() != expected.len() {
        false
    } else {
        constant_time_eq(received, expected)
    }
}

/// The verdict on a received digest once the backend has answered: whether
/// it equals the computed tag, or a `CryptoBackend` error when the backend
/// failed.
pub fn conclude(received: &[u8], computed: Result<Vec<u8>, openssl::error::ErrorStack>) -> (r:
    Result<bool, OctokitError>)
    ensures
        computed matches Ok(tag) ==> (r matches Ok(accepted) && accepted == (received@ == tag@)),
        computed is Err ==> (r matches Err(e) && e.kind() == ErrorKind::CryptoBackend),
{
    match computed {
        Ok(tag) => Ok(digests_match(received, tag.as_slice())),
        Err(err) => Err(OctokitError::from(err)),
    }
}

/// Verifies the signature header of a delivery against its raw body.
///
/// A header that is not well formed is a `MalformedSignature` error,
/// whatever the secret and the body. Otherwise the answer is whether the
/// header denotes the HMAC-SHA1 tag of `body` under `secret`, unless the
/// backend fails, which is a `CryptoBackend` error; a secret longer than
/// `MAX_KEY_LEN` always fails so.
pub fn verify_bytes(signature: &[u8], secret: &[u8], body: &[u8]) -> (r: Result<
    bool,
    OctokitError,
>)
    ensures
        !is_signature_header(signature@) ==> (r matches Err(e) && e.kind()
            == ErrorKind::MalformedSignature),
        is_signature_header(signature@) ==> match r {
            Ok(accepted) => accepted == authentic(signature@, secret@, body@) && secret@.len()
                <= MAX_KEY_LEN,
            Err(e) => e.kind() == ErrorKind::CryptoBackend,
        },
{
    let received = match parse_signature(signature) {
        Ok(digest) => digest,
        Err(e) => {
            return Err(e);
        },
    };
    if secret.len() > MAX_KEY_LEN {
        return Err(
            OctokitError::with_kind(
                ErrorKind::CryptoBackend,
                "secret is too long for the HMAC backend",
            ),
        );
    }
    conclude(received.as_slice(), compute_hmac_sha1(secret, body))
}

/// Verifies the signature header of a delivery, all three given as strings
/// and read as their UTF-8 bytes.
///
/// Returns what `verify_bytes` returns on those bytes: a string that is not
/// `sha1=` followed by forty hex digits is a `MalformedSignature` error.
pub fn verify(signature: &String, secret: &String, body: &String) -> (r: Result<
    bool,
    OctokitError,
>)
    ensures
        !is_signature_text(signature@) ==> (r matches Err(e) && e.kind()
            == ErrorKind::MalformedSignature),
        is_signature_text(signature@) ==> match r {
            Ok(accepted) => accepted == authentic(
                encode_utf8(signature@),
                encode_utf8(secret@),
                encode_utf8(body@),
            ) && encode_utf8(secret@).len() <= MAX_KEY_LEN,
            Err(e) => e.kind() == ErrorKind::CryptoBackend,
        },
{
    proof {
        lemma_signature_text(signature@);
    }
    verify_bytes(
        signature.as_str().as_bytes(),
        secret.as_str().as_bytes(),
        body.as_str().as_bytes(),
    )
}

/// Whether a verdict lets the delivery through: only a verification that
/// ran and accepted does; every error rejects.
pub fn accepts(verdict: &Result<bool, OctokitError>) -> (r: bool)
    ensures
        r == (*verdict matches Ok(accepted) && accepted),
{
    match verdict {
        Ok(accepted) => *accepted,
        Err(_) => false,
    }
}

/// Decides whether to trust a delivery.
///
/// A delivery without a signature header is never trusted, and neither is
/// one whose verification ends in an error: `true` is returned only for a
/// well-formed header that denotes the HMAC-SHA1 tag of `body` under
/// `secret`, the secret being no longer than `MAX_KEY_LEN`.
pub fn verify_payload_signature(signature: &Option<String>, secret: &String, body: &String) -> (r:
    bool)
    ensures
        signature is None ==> !r,
        r ==> (signature matches Some(header) && is_signature_text(header@) && authentic(
            encode_utf8(header@),
            encode_utf8(secret@),
            encode_utf8(body@),
        )),
        r ==> encode_utf8(secret@).len() <= MAX_KEY_LEN,
{
    match signature {
        None => false,
        Some(header) => accepts(&verify(header, secret, body)),
    }
}

/// A scalar value outside ASCII is encoded with a first byte of 128 or
/// more.
proof fn lemma_leading_byte_is_high(c: u32)
    ensures
        leading_byte_width_2(c) >= 0x80,
        leading_byte_width_3(c) >= 0x80,
        leading_byte_width_4(c) >= 0x80,
{
    assert(leading_byte_width_2(c) >= 0x80) by (bit_vector);
    assert(leading_byte_width_3(c) >= 0x80) by (bit_vector);
    assert(leading_byte_width_4(c) >= 0x80) by (bit_vector);
}

/// A character whose scalar value is below 128 is an ASCII character.
proof fn lemma_low_scalar_is_ascii(c: char)
    requires
        c as u32 <= 0x7f,
    ensures
        '\0' <= c <= '\u{7f}',
{
}

/// A string whose UTF-8 bytes are all below 128 holds ASCII characters
/// only.
pub proof fn lemma_ascii_bytes_are_ascii_chars(text: Seq<char>)
    requires
        forall|i: int| 0 <= i < encode_utf8(text).len() ==> #[trigger] encode_utf8(text)[i] < 0x80,
    ensures
        is_ascii_chars(text),
    decreases text.len(),
{
    if text.len() > 0 {
        let c = text[0] as u32;
        let head = encode_scalar(c);
        let rest = encode_utf8(text.drop_first());
        assert(encode_utf8(text) == head + rest);
        assert(encode_utf8(text)[0] == head[0]);
        lemma_leading_byte_is_high(c);
        assert(has_width_1_encoding(c));
        assert forall|i: int| 0 <= i < rest.len() implies #[trigger] rest[i] < 0x80 by {
            assert(rest[i] == encode_utf8(text)[i + 1]);
        }
        lemma_ascii_bytes_are_ascii_chars(text.drop_first());
        assert forall|i: int| 0 <= i < text.len() implies '\0' <= #[trigger] text[i]
            <= '\u{7f}' by {
            if i > 0 {
                assert(text[i] == text.drop_first()[i - 1]);
            } else {
                lemma_low_scalar_is_ascii(text[0]);
            }
        }
    }
}

/// The header, read as a string: its UTF-8 bytes are a well-formed header
/// exactly when the string is `sha1=` followed by forty hex digits.
pub proof fn lemma_signature_text(text: Seq<char>)
    ensures
        is_signature_text(text) <==> is_signature_header(encode_utf8(text)),
{
    let bytes = encode_utf8(text);
    if is_signature_text(text) {
        assert forall|i: int| 0 <= i < text.len() implies '\0' <= #[trigger] text[i]
            <= '\u{7f}' by {
            if i < PREFIX_LEN {
                assert(text[i] == text.subrange(0, PREFIX_LEN as int)[i]);
            } else {
                assert(is_hex_char(text[i]));
            }
        }
        is_ascii_chars_encode_utf8(text);
        assert forall|i: int| 0 <= i < PREFIX_LEN implies bytes.subrange(0, PREFIX_LEN as int)[i]
            == signature_prefix()[i] by {
            assert(text[i] == text.subrange(0, PREFIX_LEN as int)[i]);
            assert(bytes[i] == text[i] as u8);
        }
        assert(bytes.subrange(0, PREFIX_LEN as int) =~= signature_prefix());
        let digits = bytes.subrange(PREFIX_LEN as int, HEADER_LEN as int);
        assert forall|i: int| 0 <= i < digits.len() implies is_hex_digit(
            #[trigger] digits[i],
        ) by {
            assert(is_hex_char(text[i + PREFIX_LEN]));
            assert(bytes[i + PREFIX_LEN] == text[i + PREFIX_LEN] as u8);
        }
    }
    if is_signature_header(bytes) {
        let digits = bytes.subrange(PREFIX_LEN as int, HEADER_LEN as int);
        assert forall|i: int| 0 <= i < bytes.len() implies #[trigger] bytes[i] < 0x80 by {
            if i < PREFIX_LEN {
                assert(bytes[i] == bytes.subrange(0, PREFIX_LEN as int)[i]);
            } else {
                assert(bytes[i] == digits[i - PREFIX_LEN]);
                assert(is_hex_digit(digits[i - PREFIX_LEN]));
            }
        }
        lemma_ascii_bytes_are_ascii_chars(text);
        is_ascii_chars_encode_utf8(text);
        assert forall|i: int| 0 <= i < PREFIX_LEN implies text.subrange(0, PREFIX_LEN as int)[i]
            == seq!['s', 'h', 'a', '1', '='][i] by {
            assert(bytes[i] == bytes.subrange(0, PREFIX_LEN as int)[i]);
            assert(bytes[i] == text[i] as u8);
        }
        assert(text.subrange(0, PREFIX_LEN as int) =~= seq!['s', 'h', 'a', '1', '=']);
        assert forall|i: int| PREFIX_LEN <= i < HEADER_LEN implies is_hex_char(
            #[trigger] text[i],
        ) by {
            assert(bytes[i] == digits[i - PREFIX_LEN]);
            assert(is_hex_digit(digits[i - PREFIX_LEN]));
            assert(bytes[i] == text[i] as u8);
        }
    }
}

/// A header built from a twenty-byte digest is well formed and denotes that
/// digest.
pub proof fn lemma_signature_header_for(digest: Seq<u8>)
    requires
        digest.len() == DIGEST_LEN,
    ensures
        is_signature_header(signature_header_for(digest)),
        header_digest(signature_header_for(digest)) == digest,
{
    let header = signature_header_for(digest);
    lemma_hex_round_trip(digest);
    assert(header.subrange(0, PREFIX_LEN as int) =~= signature_prefix());
    assert(header.subrange(PREFIX_LEN as int, HEADER_LEN as int) =~= hex_encoded(digest));
}

/// Round trip: the header built from the tag of `body` under `secret`
/// proves `body` authentic under `secret`, the tag being twenty bytes long.
pub proof fn law_round_trip(secret: Seq<u8>, body: Seq<u8>)
    ensures
        hmac_sha1(secret, body).len() == DIGEST_LEN ==> authentic(
            signature_header_for(hmac_sha1(secret, body)),
            secret,
            body,
        ),
{
    if hmac_sha1(secret, body).len() == DIGEST_LEN {
        lemma_signature_header_for(hmac_sha1(secret, body));
    }
}

/// Wrong digest: a well-formed header that denotes anything but the tag of
/// `body` under `secret` does not prove `body` authentic.
pub proof fn law_wrong_digest(header: Seq<u8>, secret: Seq<u8>, body: Seq<u8>)
    requires
        is_signature_header(header),
        header_digest(header) != hmac_sha1(secret, body),
    ensures
        !authentic(header, secret, body),
{
}

/// Tampering: the header made for `body` does not prove another body
/// authentic under the same secret, unless the two bodies have the same tag.
pub proof fn law_tamper(secret: Seq<u8>, body: Seq<u8>, tampered: Seq<u8>)
    requires
        hmac_sha1(secret, tampered) != hmac_sha1(secret, body),
    ensures
        !authentic(signature_header_for(hmac_sha1(secret, body)), secret, tampered),
{
    let tag = hmac_sha1(secret, body);
    if is_signature_header(signature_header_for(tag)) {
        assert(signature_header_for(tag).len() == PREFIX_LEN + 2 * tag.len());
        lemma_signature_header_for(tag);
    }
}

/// Key sensitivity: the header made under one secret does not prove the body
/// authentic under another, unless the body has the same tag under both.
pub proof fn law_key_sensitivity(secret: Seq<u8>, other: Seq<u8>, body: Seq<u8>)
    requires
        hmac_sha1(other, body) != hmac_sha1(secret, body),
    ensures
        !authentic(signature_header_for(hmac_sha1(secret, body)), other, body),
{
    let tag = hmac_sha1(secret, body);
    if is_signature_header(signature_header_for(tag)) {
        assert(signature_header_for(tag).len() == PREFIX_LEN + 2 * tag.len());
        lemma_signature_header_for(tag);
    }
}

} // verus!
