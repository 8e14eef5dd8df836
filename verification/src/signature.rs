//! Signature header decoding and HMAC-SHA1 verification of delivery bodies.

use vstd::prelude::*;
use vstd::slice::slice_subrange;

use crate::bytes::digest_eq;
use crate::hex::{from_hex, spec_from_hex, spec_to_hex, is_hex_digit, lemma_from_hex_inverts_to_hex};

verus! {

/// The HMAC-SHA1 digest of a message under a key.
pub uninterp spec fn spec_hmac_sha1(key: Seq<u8>, msg: Seq<u8>) -> Seq<u8>;

/// Relies on crypto::hmac::Hmac over crypto::sha1::Sha1: the digest is a
/// function of the key and the message alone.
#[verifier::external_body]
fn hmac_sha1(secret: &[u8], body: &[u8]) -> (r: Vec<u8>)
    ensures
        r@ == spec_hmac_sha1(secret@, body@),
{
    let mut mac = crypto::hmac::Hmac::new(crypto::sha1::Sha1::new(), secret);
    crypto::mac::Mac::input(&mut mac, body);
    crypto::mac::Mac::result(&mut mac).code().to_vec()
}

/// A provided digest verifies exactly when it is the HMAC-SHA1 digest of the
/// body under the secret.
pub open spec fn spec_verify(body: Seq<u8>, secret: Seq<u8>, digest: Seq<u8>) -> bool {
    digest == spec_hmac_sha1(secret, body)
}

/// Check a caller-supplied digest against the HMAC-SHA1 digest of `body`
/// under `secret`, comparing without an early exit.
pub fn verify_signature(body: &[u8], secret: &[u8], signature: &[u8]) -> (r: bool)
    ensures
        r == spec_verify(body@, secret@, signature@),
{
    let expected = hmac_sha1(secret, body);
    digest_eq(signature, expected.as_slice())
}

/// Law: the digest computed over a body under a secret always verifies
/// against that body and secret.
pub proof fn lemma_correct_digest_verifies(body: Seq<u8>, secret: Seq<u8>)
    ensures
        spec_verify(body, secret, spec_hmac_sha1(secret, body)),
{
}

/// Law: any digest other than the one computed over the body under the
/// secret never verifies.
pub proof fn lemma_wrong_digest_fails(body: Seq<u8>, secret: Seq<u8>, digest: Seq<u8>)
    requires
        digest != spec_hmac_sha1(secret, body),
    ensures
        !spec_verify(body, secret, digest),
{
}

/// The ASCII bytes of the literal `sha1=`.
pub open spec fn sha1_prefix() -> Seq<u8> {
    seq![115u8, 104u8, 97u8, 49u8, 61u8]
}

/// True of a header value that begins with the literal `sha1=`.
pub open spec fn has_sha1_prefix(raw: Seq<u8>) -> bool {
    raw.len() >= 5 && raw[0] == 115 && raw[1] == 104 && raw[2] == 97 && raw[3] == 49 && raw[4]
        == 61
}

/// What decoding a signature header yields: the hex decoding of the value
/// with a leading `sha1=` stripped, or of the whole value when the prefix is
/// absent.
pub open spec fn spec_decode_signature(raw: Seq<u8>) -> Option<Seq<u8>> {
    if has_sha1_prefix(raw) {
        spec_from_hex(raw.skip(5))
    } else {
        spec_from_hex(raw)
    }
}

/// Decode a signature header value into digest bytes: strip a leading
/// `sha1=` if present, then decode the rest as hex.
pub fn decode_signature_header(raw: &[u8]) -> (r: Option<Vec<u8>>)
    ensures
        match r {
            Some(v) => spec_decode_signature(raw@) == Some(v@),
            None => spec_decode_signature(raw@) is None,
        },
{
    if raw.len() >= 5 && raw[0] == 115 && raw[1] == 104 && raw[2] == 97 && raw[3] == 49
        && raw[4] == 61 {
        let rest = slice_subrange(raw, 5, raw.len());
        proof {
            assert(rest@ =~= raw@.skip(5));
        }
        from_hex(rest)
    } else {
        from_hex(raw)
    }
}

/// Law: decoding a `sha1=`-prefixed lowercase hex encoding of any byte
/// sequence returns exactly that sequence.
pub proof fn lemma_decode_signature_round_trip(b: Seq<u8>)
    ensures
        spec_decode_signature(sha1_prefix() + spec_to_hex(b)) == Some(b),
{
    let raw = sha1_prefix() + spec_to_hex(b);
    assert(has_sha1_prefix(raw));
    assert(raw.skip(5) =~= spec_to_hex(b));
    lemma_from_hex_inverts_to_hex(b);
}

/// Law: a bare lowercase hex encoding, with no `sha1=` prefix, decodes to
/// the same byte sequence as the prefixed form.
pub proof fn lemma_decode_unprefixed_round_trip(b: Seq<u8>)
    ensures
        spec_decode_signature(spec_to_hex(b)) == Some(b),
{
    let h = spec_to_hex(b);
    if has_sha1_prefix(h) {
        assert(is_hex_digit(h[0]));
        assert(false);
    }
    lemma_from_hex_inverts_to_hex(b);
}

} // verus!
