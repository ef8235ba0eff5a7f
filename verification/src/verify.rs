//! The signature gate: decide whether a request body carries a valid
//! signature under the shared secret.

use vstd::prelude::*;
use vstd::string::StringSliceAdditionalSpecFns;
use crate::codec::{hex_valid, hex_decoded, hex_of, hex_decode, lemma_hex_round_trip};
use crate::mac::{hmac_sha256_of, hmac_sha256, ct_eq};

verus! {

/// Why a request was turned away.
#[derive(Clone, Copy, Debug, PartialEq, Eq)]
pub enum RejectReason {
    /// No signature header came with the request.
    MissingHeader,
    /// The header lacks the prefix, or its remainder is not hex for a
    /// digest-sized value.
    MalformedHeader,
    /// The claimed digest is well-formed but not the message's own.
    DigestMismatch,
}

/// The decision for one request.
#[derive(Clone, Copy, Debug, PartialEq, Eq)]
pub enum VerificationOutcome {
    Accepted,
    Rejected(RejectReason),
}

/// The seven bytes of the literal prefix "sha256=" that a signature header
/// must carry.
pub open spec fn sig_prefix() -> Seq<u8> {
    seq![115u8, 104u8, 97u8, 50u8, 53u8, 54u8, 61u8]
}

/// True when the header starts with the prefix.
pub open spec fn has_sig_prefix(h: Seq<u8>) -> bool {
    h.len() >= 7 && h.subrange(0, 7) == sig_prefix()
}

/// The decision for a secret, a body, and the signature header, if one came:
/// the header must carry the prefix, the remainder must be hex for exactly a
/// 32-byte digest, and that digest must equal the message's own.
pub open spec fn spec_verify(
    secret: Seq<u8>,
    body: Seq<u8>,
    header: Option<Seq<u8>>,
) -> VerificationOutcome {
    match header {
        Option::None => VerificationOutcome::Rejected(RejectReason::MissingHeader),
        Option::Some(h) => if !has_sig_prefix(h) {
            VerificationOutcome::Rejected(RejectReason::MalformedHeader)
        } else if !hex_valid(h.skip(7)) {
            VerificationOutcome::Rejected(RejectReason::MalformedHeader)
        } else if hex_decoded(h.skip(7)).len() != 32 {
            VerificationOutcome::Rejected(RejectReason::MalformedHeader)
        } else if hex_decoded(h.skip(7)) == hmac_sha256_of(secret, body) {
            VerificationOutcome::Accepted
        } else {
            VerificationOutcome::Rejected(RejectReason::DigestMismatch)
        },
    }
}

/// Decide a request that did carry a signature header, given as bytes.
pub fn verify_signature(secret: &[u8], body: &[u8], header: &[u8]) -> (r: VerificationOutcome)
    requires
        secret@.len() > 0,
    ensures
        r == spec_verify(secret@, body@, Some(header@)),
{
    if header.len() < 7 {
        return VerificationOutcome::Rejected(RejectReason::MalformedHeader);
    }
    let ok = header[0] == 115 && header[1] == 104 && header[2] == 97 && header[3] == 50
        && header[4] == 53 && header[5] == 54 && header[6] == 61;
    proof {
        if ok {
            assert(header@.subrange(0, 7) =~= sig_prefix());
        } else {
            if has_sig_prefix(header@) {
                assert(forall|i: int|
                    0 <= i < 7 ==> header@[i] == #[trigger] header@.subrange(0, 7)[i]);
                assert(false);
            }
        }
    }
    if !ok {
        return VerificationOutcome::Rejected(RejectReason::MalformedHeader);
    }
    let tail: &[u8] = &header[7..header.len()];
    proof {
        assert(tail@ =~= header@.skip(7));
    }
    match hex_decode(tail) {
        Option::None => VerificationOutcome::Rejected(RejectReason::MalformedHeader),
        Option::Some(d) => {
            if d.len() != 32 {
                VerificationOutcome::Rejected(RejectReason::MalformedHeader)
            } else {
                let expected = hmac_sha256(secret, body);
                if ct_eq(d.as_slice(), expected.as_slice()) {
                    VerificationOutcome::Accepted
                } else {
                    VerificationOutcome::Rejected(RejectReason::DigestMismatch)
                }
            }
        },
    }
}

/// Decide a request as the pipeline sees it: the header may be missing, and a
/// missing header is its own rejection.
pub fn verify_request(
    secret: &[u8],
    body: &[u8],
    header: Option<&str>,
) -> (r: VerificationOutcome)
    requires
        secret@.len() > 0,
    ensures
        r == spec_verify(
            secret@,
            body@,
            match header {
                Option::Some(h) => Option::Some(h.spec_bytes()),
                Option::None => Option::None,
            },
        ),
{
    match header {
        Option::None => VerificationOutcome::Rejected(RejectReason::MissingHeader),
        Option::Some(h) => verify_signature(secret, body, h.as_bytes()),
    }
}

/// Law: a header of the prefix followed by the lowercase hex of any 32-byte
/// value is accepted exactly when that value is the message's own digest, and
/// otherwise turned away as a mismatch.
pub proof fn lemma_digest_header_decides(secret: Seq<u8>, body: Seq<u8>, digest: Seq<u8>)
    requires
        digest.len() == 32,
    ensures
        spec_verify(secret, body, Some(sig_prefix() + hex_of(digest))) == (
        if digest == hmac_sha256_of(secret, body) {
            VerificationOutcome::Accepted
        } else {
            VerificationOutcome::Rejected(RejectReason::DigestMismatch)
        }),
{
    let h = sig_prefix() + hex_of(digest);
    lemma_hex_round_trip(digest);
    assert(h.subrange(0, 7) =~= sig_prefix());
    assert(h.skip(7) =~= hex_of(digest));
}

/// Law: for every secret and body, the header built from the message's own
/// digest is accepted.
pub proof fn lemma_correct_signature_accepted(secret: Seq<u8>, body: Seq<u8>)
    ensures
        hmac_sha256_of(secret, body).len() == 32 ==> spec_verify(
            secret,
            body,
            Some(sig_prefix() + hex_of(hmac_sha256_of(secret, body))),
        ) == VerificationOutcome::Accepted,
{
    if hmac_sha256_of(secret, body).len() == 32 {
        lemma_digest_header_decides(secret, body, hmac_sha256_of(secret, body));
    }
}

/// Law: flip any single bit of the message's own digest and the header built
/// from the result is turned away as a mismatch.
pub proof fn lemma_bit_flip_rejected(secret: Seq<u8>, body: Seq<u8>, i: int, j: u8)
    requires
        0 <= i < 32,
        j < 8,
    ensures
        ({
            let digest = hmac_sha256_of(secret, body);
            let flipped = digest.update(i, digest[i] ^ (1u8 << j));
            digest.len() == 32 ==> spec_verify(
                secret,
                body,
                Some(sig_prefix() + hex_of(flipped)),
            ) == VerificationOutcome::Rejected(RejectReason::DigestMismatch)
        }),
{
    let digest = hmac_sha256_of(secret, body);
    if digest.len() == 32 {
        let x = digest[i];
        assert(x ^ (1u8 << j) != x) by (bit_vector)
            requires
                j < 8,
        ;
        let flipped = digest.update(i, x ^ (1u8 << j));
        assert(flipped[i] != digest[i]);
        lemma_digest_header_decides(secret, body, flipped);
    }
}

/// Law: a header that does not start with the prefix is turned away as
/// malformed, whatever else it holds.
pub proof fn lemma_bad_prefix_rejected(secret: Seq<u8>, body: Seq<u8>, header: Seq<u8>)
    requires
        !has_sig_prefix(header),
    ensures
        spec_verify(secret, body, Some(header)) == VerificationOutcome::Rejected(
            RejectReason::MalformedHeader,
        ),
{
}

/// Law: a header with the right prefix whose remainder is not valid hex is
/// turned away as malformed.
pub proof fn lemma_bad_hex_rejected(secret: Seq<u8>, body: Seq<u8>, header: Seq<u8>)
    requires
        has_sig_prefix(header),
        !hex_valid(header.skip(7)),
    ensures
        spec_verify(secret, body, Some(header)) == VerificationOutcome::Rejected(
            RejectReason::MalformedHeader,
        ),
{
}

/// Law: a request without a signature header is turned away as missing.
pub proof fn lemma_missing_header_rejected(secret: Seq<u8>, body: Seq<u8>)
    ensures
        spec_verify(secret, body, None) == VerificationOutcome::Rejected(
            RejectReason::MissingHeader,
        ),
{
}

} // verus!
