use std::io::Write;

use sequoia_openpgp::cert::CertBuilder;
use sequoia_openpgp::parse::stream::{MessageLayer, MessageStructure, VerificationHelper};
use sequoia_openpgp::policy::StandardPolicy;
use sequoia_openpgp::serialize::stream::{Message, Signer};
use sequoia_openpgp::serialize::MarshalInto;
use sequoia_openpgp::{Cert, KeyHandle};
use tor_browser_builder::checksum::{checksum_matches, sha256_of_file};
use tor_browser_builder::signature::{
    check_layers, is_signing_key, parse_signature, signature_failure, signing_key_url,
    verdict_result, Fetched, Layer, SignatureAction, SignatureCheck, SignatureStep, Verdict,
};

#[test]
fn digests() {
    assert_eq!(
        sha256_of_file(b"abc"),
        "ba7816bf8f01cfea414140de5dae2223b00361a396177a9cb410ff61f20015ad"
    );
    assert_eq!(
        sha256_of_file(b""),
        "e3b0c44298fc1c149afbf4c8996fb92427ae41e4649b934ca495991b7852b855"
    );
}

#[test]
fn checksums_match_whatever_their_case() {
    assert!(checksum_matches("ab01", "AB01"));
    assert!(checksum_matches("AB01", "ab01"));
    assert!(!checksum_matches("ab01", "ab02"));
    assert!(!checksum_matches("ab01", "ab0"));
    assert!(checksum_matches("", ""));
    assert!(!checksum_matches("k", "\u{212a}"));
}

#[test]
fn failures_name_their_step() {
    assert_eq!(
        signature_failure(SignatureStep::RequestSignature, "e"),
        "failed to download signature: e"
    );
    assert_eq!(
        signature_failure(SignatureStep::SignatureStatus, "e"),
        "signature download failed: e"
    );
    assert_eq!(
        signature_failure(SignatureStep::RequestKey, "e"),
        "failed to fetch Tor Browser signing key: e"
    );
    assert_eq!(
        signature_failure(SignatureStep::KeyStatus, "e"),
        "signing key download failed: e"
    );
    assert_eq!(
        signature_failure(SignatureStep::ParseKey, "e"),
        "failed to parse Tor Browser signing key: e"
    );
    assert_eq!(
        signature_failure(SignatureStep::CompareKey, "e"),
        "not the Tor Browser signing key: e"
    );
    assert_eq!(
        signature_failure(SignatureStep::ParseSignature, "e"),
        "failed to parse .asc signature: e"
    );
    assert_eq!(
        signature_failure(SignatureStep::SetUp, "e"),
        "signature verification setup failed: e"
    );
    assert_eq!(
        signature_failure(SignatureStep::Verify, "e"),
        "PGP signature verification failed: e"
    );
    assert_eq!(signature_failure(SignatureStep::Other, "e"), "e");
}

#[test]
fn layers_need_one_good_signature() {
    let none = "No valid signature found from the Tor Browser Developers";
    assert_eq!(check_layers(&Vec::new()), Err(none.to_string()));
    assert_eq!(
        check_layers(&vec![Layer::Other, Layer::Signatures(vec![false, false])]),
        Err(none.to_string())
    );
    assert_eq!(check_layers(&vec![Layer::Signatures(Vec::new())]), Err(none.to_string()));
    assert_eq!(check_layers(&vec![Layer::Other, Layer::Signatures(vec![false, true])]), Ok(()));
}

#[test]
fn every_signature_is_taken_for_the_verifier() {
    assert!(parse_signature(b"no signature").is_ok());
    assert!(parse_signature(b"").is_ok());
}

/// Gives a verifier one certificate, and takes its report for the verdict.
struct OneKey(Cert);

impl VerificationHelper for OneKey {
    fn get_certs(&mut self, _ids: &[KeyHandle]) -> sequoia_openpgp::Result<Vec<Cert>> {
        Ok(vec![self.0.clone()])
    }

    fn check(&mut self, structure: MessageStructure) -> sequoia_openpgp::Result<()> {
        let layers: Vec<Layer> = structure
            .into_iter()
            .map(|layer| match layer {
                MessageLayer::SignatureGroup { results } => {
                    Layer::Signatures(results.iter().map(|r| r.is_ok()).collect())
                },
                _ => Layer::Other,
            })
            .collect();
        check_layers(&layers).map_err(anyhow::Error::msg)
    }
}

fn sign(cert: &Cert, data: &[u8]) -> Vec<u8> {
    let policy = StandardPolicy::new();
    let key = cert
        .keys()
        .unencrypted_secret()
        .with_policy(&policy, None)
        .supported()
        .alive()
        .revoked(false)
        .for_signing()
        .next()
        .unwrap()
        .key()
        .clone();
    let mut signature = Vec::new();
    let message = Message::new(&mut signature);
    let mut signer =
        Signer::new(message, key.into_keypair().unwrap()).detached().build().unwrap();
    signer.write_all(data).unwrap();
    signer.finalize().unwrap();
    signature
}

fn accepts(cert: &Cert, signature: &[u8], data: &[u8]) -> bool {
    let policy = StandardPolicy::new();
    let builder = parse_signature(signature).unwrap();
    let verdict = match builder.with_policy(&policy, None, OneKey(cert.clone())) {
        Ok(mut verifier) => verifier.verify_bytes(data).is_ok(),
        Err(_) => false,
    };
    verdict
}

#[test]
fn the_verifier_reads_the_signature_that_was_given() {
    let cert = strangers_key();
    let one = sign(&cert, b"one");
    let two = sign(&cert, b"two");
    assert!(accepts(&cert, &one, b"one"));
    assert!(accepts(&cert, &two, b"two"));
    assert!(!accepts(&cert, &one, b"two"));
    assert!(!accepts(&cert, &two, b"one"));
    assert!(!accepts(&strangers_key(), &one, b"one"));
    assert!(!accepts(&cert, b"no signature", b"one"));
    assert!(!accepts(&cert, b"", b"one"));
}

fn ended(action: Option<SignatureAction>) -> Result<(), String> {
    match action {
        Some(SignatureAction::Finish(r)) => r,
        _ => panic!("the check goes on"),
    }
}

/// A key that anybody can make.
fn strangers_key() -> Cert {
    CertBuilder::general_purpose(None, Some("a@example.org")).generate().unwrap().0
}

fn at_the_key() -> SignatureCheck {
    let (mut check, first) = SignatureCheck::new("https://x/tb.asc");
    assert!(matches!(first, SignatureAction::Fetch(url) if url == "https://x/tb.asc"));
    match check.fetched(Fetched::Bytes(vec![1, 2])) {
        Some(SignatureAction::Fetch(url)) => assert_eq!(url, signing_key_url()),
        _ => panic!(),
    }
    assert_eq!(check.signature(), &[1, 2]);
    assert!(check.key().is_none());
    check
}

#[test]
fn the_signing_key_is_told_by_its_fingerprint() {
    let fingerprint = "EF6E286DDA85EA2A4BA7DE684E2C6E8793298290";
    assert!(is_signing_key(fingerprint));
    assert!(signing_key_url().ends_with(fingerprint));
    assert!(!is_signing_key("EF6E286DDA85EA2A4BA7DE684E2C6E8793298291"));
    assert!(!is_signing_key(&fingerprint.to_lowercase()));
    assert!(!is_signing_key(&fingerprint[1..]));
    assert!(!is_signing_key(""));
    assert!(!is_signing_key(&strangers_key().fingerprint().to_hex()));
}

#[test]
fn a_strangers_key_is_refused() {
    let cert = strangers_key();
    let refusal =
        Err(format!("not the Tor Browser signing key: {}", cert.fingerprint().to_hex()));
    let mut check = at_the_key();
    assert_eq!(ended(check.fetched(Fetched::Bytes(cert.to_vec().unwrap()))), refusal);
    assert!(check.key().is_none());
    assert!(check.file_read(None).is_none());
    assert!(check.judged(Verdict::Accepted).is_none());
    let mut check = at_the_key();
    assert_eq!(ended(Some(check.key_parsed(Ok(cert)))), refusal);
    assert!(check.key().is_none());
}

#[test]
fn a_key_that_was_not_asked_for_ends_the_check() {
    let refusal = Err("failed to parse Tor Browser signing key: no key was asked for".to_string());
    let (mut check, _) = SignatureCheck::new("u");
    assert_eq!(ended(Some(check.key_parsed(Ok(strangers_key())))), refusal);
    assert!(check.key().is_none());
    assert!(check.fetched(Fetched::Bytes(Vec::new())).is_none());
    assert_eq!(ended(Some(check.key_parsed(Ok(strangers_key())))), refusal);
    assert!(check.key().is_none());
    assert!(check.judged(Verdict::Accepted).is_none());
}

#[test]
fn only_acceptance_is_a_success() {
    assert_eq!(verdict_result(Verdict::Accepted), Ok(()));
    assert_eq!(
        verdict_result(Verdict::Rejected("bad".to_string())),
        Err("PGP signature verification failed: bad".to_string())
    );
    assert_eq!(
        verdict_result(Verdict::NotSetUp("no".to_string())),
        Err("signature verification setup failed: no".to_string())
    );
    assert_eq!(
        verdict_result(Verdict::Unreadable("no".to_string())),
        Err("failed to parse .asc signature: no".to_string())
    );
}

#[test]
fn a_key_that_cannot_be_read_ends_the_check() {
    let mut check = at_the_key();
    match ended(check.fetched(Fetched::Bytes(b"no key".to_vec()))) {
        Err(e) => {
            let prefix = "failed to parse Tor Browser signing key: ";
            assert!(e.starts_with(prefix));
            assert!(e.len() > prefix.len());
        },
        Ok(()) => panic!(),
    }
    assert!(check.key().is_none());
}

#[test]
fn failed_fetches_end_the_check() {
    let fail = |f: fn(String) -> Fetched| {
        let (mut check, _) = SignatureCheck::new("u");
        ended(check.fetched(f("e".to_string()))).unwrap_err()
    };
    assert_eq!(fail(Fetched::Unanswered), "failed to download signature: e");
    assert_eq!(fail(Fetched::BadStatus), "signature download failed: e");
    assert_eq!(fail(Fetched::Broken), "e");
    let fail_key = |f: fn(String) -> Fetched| {
        ended(at_the_key().fetched(f("e".to_string()))).unwrap_err()
    };
    assert_eq!(fail_key(Fetched::Unanswered), "failed to fetch Tor Browser signing key: e");
    assert_eq!(fail_key(Fetched::BadStatus), "signing key download failed: e");
    assert_eq!(fail_key(Fetched::Broken), "e");
}

#[test]
fn reports_out_of_turn_change_nothing() {
    let mut check = at_the_key();
    assert!(check.file_read(None).is_none());
    assert!(check.file_read(Some("gone".to_string())).is_none());
    assert!(check.judged(Verdict::Accepted).is_none());
    let next = check.key_parsed(Err("odd".to_string()));
    assert_eq!(
        ended(Some(next)),
        Err("failed to parse Tor Browser signing key: odd".to_string())
    );
}
