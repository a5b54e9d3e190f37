//! HMAC-SHA1 and constant-time comparison, both computed by OpenSSL.

use vstd::prelude::*;

verus! {

/// The HMAC-SHA1 tag of `message` under `key`, as OpenSSL computes it.
pub uninterp spec fn hmac_sha1(key: Seq<u8>, message: Seq<u8>) -> Seq<u8>;

/// The longest key, in bytes, that the backend takes.
pub const MAX_KEY_LEN: usize = 0x7fff_ffff;

/// OpenSSL's recipe for an HMAC: `PKey::hmac` builds the key,
/// `Signer::new` with `MessageDigest::sha1` starts the computation,
/// `Signer::update` feeds the message and `Signer::sign_to_vec` returns the
/// tag. Any step may fail with OpenSSL's error. When all succeed, the result
/// is the HMAC-SHA1 tag of `message` under `key`. `PKey::hmac` panics on a
/// key longer than `MAX_KEY_LEN`, which `requires` leaves out.
#[verifier::external_body]
pub(crate) fn compute_hmac_sha1(key: &[u8], message: &[u8]) -> (r: Result<
    Vec<u8>,
    openssl::error::ErrorStack,
>)
    requires
        key@.len() <= MAX_KEY_LEN,
    ensures
        r matches Ok(tag) ==> tag@ == hmac_sha1(key@, message@),
{
    let key = openssl::pkey::PKey::hmac(key)?;
    let mut signer = openssl::sign::Signer::new(openssl::hash::MessageDigest::sha1(), &key)?;
    signer.update(message)?;
    signer.sign_to_vec()
}

/// `openssl::memcmp::eq`: whether two byte strings of one length are equal,
/// in time that depends on their length and not on their contents. It
/// panics on different lengths, which `requires` leaves out.
#[verifier::external_body]
pub(crate) fn constant_time_eq(a: &[u8], b: &[u8]) -> (r: bool)
    requires
        a@.len() == b@.len(),
    ensures
        r == (a@ == b@),
{
    openssl::memcmp::eq(a, b)
}

} // verus!
