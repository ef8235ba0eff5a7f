use webhook_gate::mac::ct_eq;
use webhook_gate::pipeline::{response_status, should_dispatch};
use webhook_gate::verify::{verify_request, verify_signature, RejectReason, VerificationOutcome};

use hmac::{Hmac, KeyInit, Mac};
use sha2::Sha256;

fn hmac_hex(secret: &[u8], body: &[u8]) -> String {
    let mut m = <Hmac<Sha256> as KeyInit>::new_from_slice(secret).unwrap();
    m.update(body);
    hex::encode(m.finalize().into_bytes().to_vec())
}

#[test]
fn correct_signature_accepted() {
    let secret = b"key";
    let body = b"The quick brown fox jumps over the lazy dog";
    let header = format!("sha256={}", hmac_hex(secret, body));
    let outcome = verify_request(secret, body, Some(&header));
    assert_eq!(outcome, VerificationOutcome::Accepted);
    assert_eq!(response_status(&outcome), 200);
    assert!(should_dispatch(&outcome));
}

#[test]
fn known_digest_accepted() {
    // HMAC-SHA256 with key "Jefe" over this message has a published digest.
    let secret = b"Jefe";
    let body = b"what do ya want for nothing?";
    let header = "sha256=5bdcc146bf60754e6a042426089575c75a003f089d2739839dec58b964ec3843";
    let outcome = verify_request(secret, body, Some(header));
    assert_eq!(outcome, VerificationOutcome::Accepted);
}

#[test]
fn empty_body_accepted() {
    let secret = b"key";
    let body = b"";
    let header = format!("sha256={}", hmac_hex(secret, body));
    let outcome = verify_request(secret, body, Some(&header));
    assert_eq!(outcome, VerificationOutcome::Accepted);
    assert_eq!(response_status(&outcome), 200);
}

#[test]
fn uppercase_hex_accepted() {
    let secret = b"key";
    let body = b"payload";
    let header = format!("sha256={}", hmac_hex(secret, body).to_uppercase());
    let outcome = verify_request(secret, body, Some(&header));
    assert_eq!(outcome, VerificationOutcome::Accepted);
}

#[test]
fn missing_header_rejected() {
    let secret = b"key";
    let body = b"payload";
    let outcome = verify_request(secret, body, None);
    assert_eq!(
        outcome,
        VerificationOutcome::Rejected(RejectReason::MissingHeader)
    );
    assert_eq!(response_status(&outcome), 401);
    assert!(!should_dispatch(&outcome));
}

#[test]
fn wrong_prefix_rejected() {
    let secret = b"key";
    let body = b"payload";
    let header = format!("sha512={}", hmac_hex(secret, body));
    let outcome = verify_request(secret, body, Some(&header));
    assert_eq!(
        outcome,
        VerificationOutcome::Rejected(RejectReason::MalformedHeader)
    );
    assert_eq!(response_status(&outcome), 401);
}

#[test]
fn bare_digest_without_prefix_rejected() {
    let secret = b"key";
    let body = b"payload";
    let header = hmac_hex(secret, body);
    let outcome = verify_request(secret, body, Some(&header));
    assert_eq!(
        outcome,
        VerificationOutcome::Rejected(RejectReason::MalformedHeader)
    );
}

#[test]
fn non_hex_suffix_rejected() {
    let secret = b"key";
    let body = b"payload";
    let header = format!("sha256={}", "zz".repeat(32));
    let outcome = verify_request(secret, body, Some(&header));
    assert_eq!(
        outcome,
        VerificationOutcome::Rejected(RejectReason::MalformedHeader)
    );
}

#[test]
fn odd_length_hex_rejected() {
    let secret = b"key";
    let body = b"payload";
    let outcome = verify_request(secret, body, Some("sha256=abc"));
    assert_eq!(
        outcome,
        VerificationOutcome::Rejected(RejectReason::MalformedHeader)
    );
}

#[test]
fn short_digest_rejected() {
    let secret = b"key";
    let body = b"payload";
    let outcome = verify_request(secret, body, Some("sha256=deadbeef"));
    assert_eq!(
        outcome,
        VerificationOutcome::Rejected(RejectReason::MalformedHeader)
    );
}

#[test]
fn empty_suffix_rejected() {
    let secret = b"key";
    let body = b"payload";
    let outcome = verify_request(secret, body, Some("sha256="));
    assert_eq!(
        outcome,
        VerificationOutcome::Rejected(RejectReason::MalformedHeader)
    );
}

#[test]
fn bit_flip_rejected() {
    let secret = b"key";
    let body = b"payload";
    let mut m = <Hmac<Sha256> as KeyInit>::new_from_slice(secret).unwrap();
    m.update(body);
    let mut digest = m.finalize().into_bytes().to_vec();
    digest[0] ^= 1;
    let header = format!("sha256={}", hex::encode(&digest));
    let outcome = verify_request(secret, body, Some(&header));
    assert_eq!(
        outcome,
        VerificationOutcome::Rejected(RejectReason::DigestMismatch)
    );
    assert_eq!(response_status(&outcome), 401);
    assert!(!should_dispatch(&outcome));
}

#[test]
fn every_bit_flip_rejected() {
    let secret = b"key";
    let body = b"payload";
    let mut m = <Hmac<Sha256> as KeyInit>::new_from_slice(secret).unwrap();
    m.update(body);
    let digest = m.finalize().into_bytes().to_vec();
    for i in 0..32 {
        for j in 0..8 {
            let mut flipped = digest.clone();
            flipped[i] ^= 1u8 << j;
            let header = format!("sha256={}", hex::encode(&flipped));
            let outcome = verify_request(secret, body, Some(&header));
            assert_eq!(
                outcome,
                VerificationOutcome::Rejected(RejectReason::DigestMismatch)
            );
        }
    }
}

#[test]
fn totally_wrong_digest_rejected() {
    let secret = b"key";
    let body = b"payload";
    let header = format!("sha256={}", "00".repeat(32));
    let outcome = verify_request(secret, body, Some(&header));
    assert_eq!(
        outcome,
        VerificationOutcome::Rejected(RejectReason::DigestMismatch)
    );
}

#[test]
fn signature_bound_to_body() {
    let secret = b"key";
    let header = format!("sha256={}", hmac_hex(secret, b"original body"));
    let outcome = verify_request(secret, b"tampered body", Some(&header));
    assert_eq!(
        outcome,
        VerificationOutcome::Rejected(RejectReason::DigestMismatch)
    );
}

#[test]
fn signature_bound_to_secret() {
    let body = b"payload";
    let header = format!("sha256={}", hmac_hex(b"their key", body));
    let outcome = verify_request(b"our key", body, Some(&header));
    assert_eq!(
        outcome,
        VerificationOutcome::Rejected(RejectReason::DigestMismatch)
    );
}

#[test]
fn event_handler_scenario() {
    let secret = b"sercret";
    let body = b"{}";
    let good = format!("sha256={}", hmac_hex(secret, body));
    let accepted = verify_request(secret, body, Some(&good));
    assert_eq!(accepted, VerificationOutcome::Accepted);
    assert_eq!(response_status(&accepted), 200);
    let rejected = verify_request(secret, body, Some("sha256=deadbeef"));
    assert!(matches!(rejected, VerificationOutcome::Rejected(_)));
    assert_eq!(response_status(&rejected), 401);
}

#[test]
fn byte_header_verification_matches() {
    let secret = b"key";
    let body = b"payload";
    let header = format!("sha256={}", hmac_hex(secret, body));
    assert_eq!(
        verify_signature(secret, body, header.as_bytes()),
        VerificationOutcome::Accepted
    );
}

#[test]
fn constant_time_eq_agrees_with_eq() {
    assert!(ct_eq(b"", b""));
    assert!(ct_eq(b"abc", b"abc"));
    assert!(!ct_eq(b"abc", b"abd"));
    assert!(!ct_eq(b"abc", b"ab"));
    assert!(!ct_eq(b"\x00\x00", b"\x00\x01"));
}
