//! The detached OpenPGP signature of a download.

use vstd::prelude::*;
use crate::text::{cat2, optional_text, owned, same_text};

verus! {

broadcast use vstd::string::group_string_axioms;

#[verifier::external_type_specification]
#[verifier::external_body]
pub struct ExCert(sequoia_openpgp::Cert);

#[verifier::external_type_specification]
#[verifier::external_body]
pub struct ExDetachedVerifierBuilder<'a>(
    sequoia_openpgp::parse::stream::DetachedVerifierBuilder<'a>,
);

/// Where the Tor Browser Developers signing key is fetched from, by its
/// fingerprint.
pub fn signing_key_url() -> (r: &'static str)
    ensures
        r@
            == "https://keys.openpgp.org/vks/v1/by-fingerprint/EF6E286DDA85EA2A4BA7DE684E2C6E8793298290"@,
{
    "https://keys.openpgp.org/vks/v1/by-fingerprint/EF6E286DDA85EA2A4BA7DE684E2C6E8793298290"
}

/// The fingerprint of the Tor Browser Developers signing key.
pub open spec fn developers_fingerprint() -> Seq<char> {
    "EF6E286DDA85EA2A4BA7DE684E2C6E8793298290"@
}

/// A step of the verification that can fail with an error of its own.
#[derive(Debug, Clone, Copy, PartialEq, Eq, Structural)]
pub enum SignatureStep {
    /// Sending the request for the signature.
    RequestSignature,
    /// The status of the answer to it.
    SignatureStatus,
    /// Sending the request for the signing key.
    RequestKey,
    /// The status of the answer to it.
    KeyStatus,
    /// Reading the key.
    ParseKey,
    /// Comparing the fingerprint of the key.
    CompareKey,
    /// Reading the signature.
    ParseSignature,
    /// Handing the key to the verifier.
    SetUp,
    /// Verifying the file.
    Verify,
    /// Any other step: building the client, reading an answer or the file.
    Other,
}

/// What a failure of a step is announced with.
pub open spec fn failure_prefix(step: SignatureStep) -> Seq<char> {
    match step {
        SignatureStep::RequestSignature => "failed to download signature: "@,
        SignatureStep::SignatureStatus => "signature download failed: "@,
        SignatureStep::RequestKey => "failed to fetch Tor Browser signing key: "@,
        SignatureStep::KeyStatus => "signing key download failed: "@,
        SignatureStep::ParseKey => "failed to parse Tor Browser signing key: "@,
        SignatureStep::CompareKey => "not the Tor Browser signing key: "@,
        SignatureStep::ParseSignature => "failed to parse .asc signature: "@,
        SignatureStep::SetUp => "signature verification setup failed: "@,
        SignatureStep::Verify => "PGP signature verification failed: "@,
        SignatureStep::Other => ""@,
    }
}

/// The message for a step that failed with `error`.
pub fn signature_failure(step: SignatureStep, error: &str) -> (r: String)
    ensures
        r@ == failure_prefix(step) + error@,
{
    let prefix = match step {
        SignatureStep::RequestSignature => "failed to download signature: ",
        SignatureStep::SignatureStatus => "signature download failed: ",
        SignatureStep::RequestKey => "failed to fetch Tor Browser signing key: ",
        SignatureStep::KeyStatus => "signing key download failed: ",
        SignatureStep::ParseKey => "failed to parse Tor Browser signing key: ",
        SignatureStep::CompareKey => "not the Tor Browser signing key: ",
        SignatureStep::ParseSignature => "failed to parse .asc signature: ",
        SignatureStep::SetUp => "signature verification setup failed: ",
        SignatureStep::Verify => "PGP signature verification failed: ",
        SignatureStep::Other => "",
    };
    cat2(prefix, error)
}

/// The certificate that `sequoia_openpgp` reads some bytes as, or the text of
/// the error with which it refuses them.
pub uninterp spec fn certificate_in(bytes: Seq<u8>) -> Result<sequoia_openpgp::Cert, Seq<char>>;

/// The result of reading a certificate, with its error as a text.
pub open spec fn certificate_result(r: Result<sequoia_openpgp::Cert, String>) -> Result<
    sequoia_openpgp::Cert,
    Seq<char>,
> {
    match r {
        Ok(cert) => Ok(cert),
        Err(e) => Err(e@),
    }
}

/// `sequoia_openpgp::Cert::from_bytes`: what the bytes are read as, or the text
/// of the error, depends on the bytes alone and is called `certificate_in` in
/// contracts. Nothing is said of which bytes are read as what.
#[verifier::external_body]
fn read_certificate(bytes: &[u8]) -> (r: Result<sequoia_openpgp::Cert, String>)
    ensures
        certificate_result(r) == certificate_in(bytes@),
{
    <sequoia_openpgp::Cert as sequoia_openpgp::parse::Parse<sequoia_openpgp::Cert>>::from_bytes(
        bytes,
    ).map_err(|e| e.to_string())
}

/// The fingerprint of a certificate, as `sequoia_openpgp` writes it.
pub uninterp spec fn fingerprint_in(cert: sequoia_openpgp::Cert) -> Seq<char>;

/// `sequoia_openpgp::Cert::fingerprint`, written by `Fingerprint::to_hex`: the
/// fingerprint of the primary key, in hexadecimal with capital letters. It
/// depends on the certificate alone and is called `fingerprint_in` in contracts.
#[verifier::external_body]
fn fingerprint_of(cert: &sequoia_openpgp::Cert) -> (r: String)
    ensures
        r@ == fingerprint_in(*cert),
{
    cert.fingerprint().to_hex()
}

/// Whether the key of this fingerprint is the Tor Browser Developers signing
/// key. No other key is accepted, whatever the key server sends.
pub fn is_signing_key(fingerprint: &str) -> (r: bool)
    ensures
        r == (fingerprint@ == developers_fingerprint()),
{
    same_text(fingerprint, "EF6E286DDA85EA2A4BA7DE684E2C6E8793298290")
}

/// The builder of a verifier that `sequoia_openpgp` makes of the bytes of a
/// detached signature.
pub uninterp spec fn signature_in(
    bytes: Seq<u8>,
) -> sequoia_openpgp::parse::stream::DetachedVerifierBuilder<'static>;

/// `DetachedVerifierBuilder::from_bytes` of `sequoia_openpgp`: it takes any
/// bytes, and leaves it to the verifier to read them. The builder depends on the
/// bytes alone and is called `signature_in` in contracts. Nothing is said of
/// what a verifier reads in which bytes.
#[verifier::external_body]
fn read_signature<'a>(bytes: &'a [u8]) -> (r: Result<
    sequoia_openpgp::parse::stream::DetachedVerifierBuilder<'a>,
    String,
>)
    ensures
        r is Ok,
        r->Ok_0 == signature_in(bytes@),
{
    <sequoia_openpgp::parse::stream::DetachedVerifierBuilder<
        'a,
    > as sequoia_openpgp::parse::Parse<
        'a,
        sequoia_openpgp::parse::stream::DetachedVerifierBuilder<'a>,
    >>::from_bytes(bytes).map_err(|e| e.to_string())
}

/// The builder of the verifier that is to read this detached signature.
/// Signatures of every form are taken here; what is no signature fails to
/// verify.
pub fn parse_signature<'a>(bytes: &'a [u8]) -> (r: Result<
    sequoia_openpgp::parse::stream::DetachedVerifierBuilder<'a>,
    String,
>)
    ensures
        r is Ok,
        r->Ok_0 == signature_in(bytes@),
{
    read_signature(bytes)
}

/// One layer of the structure of a signed message, as the verifier reports it.
pub enum Layer {
    /// A group of signatures, each good (`true`) or not.
    Signatures(Vec<bool>),
    /// A layer of another kind: compression or encryption.
    Other,
}

/// The layer holds a good signature.
pub open spec fn has_good_signature(layer: Layer) -> bool {
    match layer {
        Layer::Signatures(results) => exists|i: int|
            0 <= i < results@.len() && #[trigger] results@[i],
        Layer::Other => false,
    }
}

fn any_good(results: &Vec<bool>) -> (r: bool)
    ensures
        r == exists|i: int| 0 <= i < results@.len() && #[trigger] results@[i],
{
    let mut i: usize = 0;
    while i < results.len()
        invariant
            i <= results@.len(),
            forall|j: int| 0 <= j < i ==> !#[trigger] results@[j],
        decreases results@.len() - i,
    {
        if results[i] {
            assert(results@[i as int]);
            return true;
        }
        i = i + 1;
    }
    false
}

/// Decides on the verifier's report: the file is accepted if and only if some
/// layer holds a good signature by the signing key.
pub fn check_layers(layers: &Vec<Layer>) -> (r: Result<(), String>)
    ensures
        r is Ok <==> exists|i: int|
            0 <= i < layers@.len() && has_good_signature(#[trigger] layers@[i]),
        r matches Err(m) ==> m@ == "No valid signature found from the Tor Browser Developers"@,
{
    let mut i: usize = 0;
    while i < layers.len()
        invariant
            i <= layers@.len(),
            forall|j: int| 0 <= j < i ==> !has_good_signature(#[trigger] layers@[j]),
        decreases layers@.len() - i,
    {
        if let Layer::Signatures(results) = &layers[i] {
            if any_good(results) {
                assert(has_good_signature(layers@[i as int]));
                return Ok(());
            }
        }
        i = i + 1;
    }
    Err(owned("No valid signature found from the Tor Browser Developers"))
}

// ---------------------------------------------------------------------
// The whole check
// ---------------------------------------------------------------------

/// What came of fetching a file from a server.
pub enum Fetched {
    /// The request was not answered.
    Unanswered(String),
    /// The answer has an error status.
    BadStatus(String),
    /// The answer could not be read to its end.
    Broken(String),
    Bytes(Vec<u8>),
}

/// What came of fetching a file, as texts.
pub enum FetchedView {
    Unanswered(Seq<char>),
    BadStatus(Seq<char>),
    Broken(Seq<char>),
    Bytes(Seq<u8>),
}

impl View for Fetched {
    type V = FetchedView;

    open spec fn view(&self) -> FetchedView {
        match self {
            Fetched::Unanswered(e) => FetchedView::Unanswered(e@),
            Fetched::BadStatus(e) => FetchedView::BadStatus(e@),
            Fetched::Broken(e) => FetchedView::Broken(e@),
            Fetched::Bytes(bytes) => FetchedView::Bytes(bytes@),
        }
    }
}

/// What came of verifying the file.
pub enum Verdict {
    /// The signature could not be read.
    Unreadable(String),
    /// The verifier could not be set up.
    NotSetUp(String),
    Rejected(String),
    Accepted,
}

/// What came of verifying the file, as texts.
pub enum VerdictView {
    Unreadable(Seq<char>),
    NotSetUp(Seq<char>),
    Rejected(Seq<char>),
    Accepted,
}

impl View for Verdict {
    type V = VerdictView;

    open spec fn view(&self) -> VerdictView {
        match self {
            Verdict::Unreadable(e) => VerdictView::Unreadable(e@),
            Verdict::NotSetUp(e) => VerdictView::NotSetUp(e@),
            Verdict::Rejected(e) => VerdictView::Rejected(e@),
            Verdict::Accepted => VerdictView::Accepted,
        }
    }
}

/// What the signature check is waiting for.
#[derive(Debug, Clone, Copy, PartialEq, Eq, Structural)]
pub enum SignaturePhase {
    /// The detached signature.
    Signature,
    /// The signing key.
    Key,
    /// The file to verify.
    File,
    /// The verdict on the file.
    Verdict,
    /// Nothing any more.
    Over,
}

/// What the signature check asks for next.
pub enum SignatureAction {
    Fetch(String),
    ReadFile,
    /// Verify the file by the key and the signature.
    Verify,
    Finish(Result<(), String>),
}

/// What the signature check asks for next, as texts.
pub enum SignatureActionView {
    Fetch(Seq<char>),
    ReadFile,
    Verify,
    Finish(Result<(), Seq<char>>),
}

impl View for SignatureAction {
    type V = SignatureActionView;

    open spec fn view(&self) -> SignatureActionView {
        match self {
            SignatureAction::Fetch(url) => SignatureActionView::Fetch(url@),
            SignatureAction::ReadFile => SignatureActionView::ReadFile,
            SignatureAction::Verify => SignatureActionView::Verify,
            SignatureAction::Finish(r) => SignatureActionView::Finish(unit_result(*r)),
        }
    }
}

/// The check of a detached signature against a file: fetch the signature, fetch
/// the signing key, read the key, read the file, verify. The first step that
/// fails ends it.
pub struct SignatureCheck {
    phase: SignaturePhase,
    signature: Vec<u8>,
    key: Option<sequoia_openpgp::Cert>,
}

/// The state of a signature check.
#[verifier::ext_equal]
pub struct SignatureView {
    pub phase: SignaturePhase,
    /// The signature, once it is there.
    pub signature: Seq<u8>,
    /// The signing key, once it is read.
    pub key: Option<sequoia_openpgp::Cert>,
}

impl View for SignatureCheck {
    type V = SignatureView;

    closed spec fn view(&self) -> SignatureView {
        SignatureView {
            phase: self.phase,
            signature: self.signature@,
            key: self.key,
        }
    }
}

/// A step of the signature check.
#[verifier::ext_equal]
pub struct SignatureMove {
    pub now: SignatureView,
    pub action: SignatureActionView,
}

/// The check ends with an error.
pub open spec fn check_failed(v: SignatureView, step: SignatureStep, e: Seq<char>) -> SignatureMove {
    SignatureMove {
        now: SignatureView { phase: SignaturePhase::Over, ..v },
        action: SignatureActionView::Finish(Err(failure_prefix(step) + e)),
    }
}

/// The signature is there, or not: next comes the signing key.
pub open spec fn signature_fetched(v: SignatureView, f: FetchedView) -> SignatureMove {
    match f {
        FetchedView::Unanswered(e) => check_failed(v, SignatureStep::RequestSignature, e),
        FetchedView::BadStatus(e) => check_failed(v, SignatureStep::SignatureStatus, e),
        FetchedView::Broken(e) => check_failed(v, SignatureStep::Other, e),
        FetchedView::Bytes(bytes) => SignatureMove {
            now: SignatureView { phase: SignaturePhase::Key, signature: bytes, ..v },
            action: SignatureActionView::Fetch(
                "https://keys.openpgp.org/vks/v1/by-fingerprint/EF6E286DDA85EA2A4BA7DE684E2C6E8793298290"@,
            ),
        },
    }
}

/// A certificate was read, or why not. It is taken where a key is due, and only
/// if it is the signing key; then comes the file.
pub open spec fn key_parsed(
    v: SignatureView,
    r: Result<sequoia_openpgp::Cert, Seq<char>>,
) -> SignatureMove {
    match r {
        Err(e) => check_failed(v, SignatureStep::ParseKey, e),
        Ok(cert) => if v.phase != SignaturePhase::Key {
            check_failed(v, SignatureStep::ParseKey, "no key was asked for"@)
        } else if fingerprint_in(cert) != developers_fingerprint() {
            check_failed(v, SignatureStep::CompareKey, fingerprint_in(cert))
        } else {
            SignatureMove {
                now: SignatureView { phase: SignaturePhase::File, key: Some(cert), ..v },
                action: SignatureActionView::ReadFile,
            }
        },
    }
}

/// The signing key is there, or not.
pub open spec fn key_fetched(v: SignatureView, f: FetchedView) -> SignatureMove {
    match f {
        FetchedView::Unanswered(e) => check_failed(v, SignatureStep::RequestKey, e),
        FetchedView::BadStatus(e) => check_failed(v, SignatureStep::KeyStatus, e),
        FetchedView::Broken(e) => check_failed(v, SignatureStep::Other, e),
        FetchedView::Bytes(bytes) => key_parsed(v, certificate_in(bytes)),
    }
}

/// The file was read, or why not: next comes the verdict.
pub open spec fn file_read(v: SignatureView, error: Option<Seq<char>>) -> SignatureMove {
    match error {
        Some(e) => check_failed(v, SignatureStep::Other, e),
        None => SignatureMove {
            now: SignatureView { phase: SignaturePhase::Verdict, ..v },
            action: SignatureActionView::Verify,
        },
    }
}

/// What a verdict says of the file.
pub open spec fn verdict_view(verdict: VerdictView) -> Result<(), Seq<char>> {
    match verdict {
        VerdictView::Unreadable(e) => Err(failure_prefix(SignatureStep::ParseSignature) + e),
        VerdictView::NotSetUp(e) => Err(failure_prefix(SignatureStep::SetUp) + e),
        VerdictView::Rejected(e) => Err(failure_prefix(SignatureStep::Verify) + e),
        VerdictView::Accepted => Ok(()),
    }
}

/// A result whose error is a text.
pub open spec fn unit_result(r: Result<(), String>) -> Result<(), Seq<char>> {
    match r {
        Ok(_) => Ok(()),
        Err(e) => Err(e@),
    }
}

/// What a verdict says of the file: accepted, or why not.
pub fn verdict_result(verdict: Verdict) -> (r: Result<(), String>)
    ensures
        unit_result(r) == verdict_view(verdict@),
{
    match verdict {
        Verdict::Unreadable(e) => {
            Err(signature_failure(SignatureStep::ParseSignature, e.as_str()))
        },
        Verdict::NotSetUp(e) => Err(signature_failure(SignatureStep::SetUp, e.as_str())),
        Verdict::Rejected(e) => Err(signature_failure(SignatureStep::Verify, e.as_str())),
        Verdict::Accepted => Ok(()),
    }
}

/// The verdict on the file ends the check.
pub open spec fn judged(v: SignatureView, verdict: VerdictView) -> SignatureMove {
    SignatureMove {
        now: SignatureView { phase: SignaturePhase::Over, ..v },
        action: SignatureActionView::Finish(verdict_view(verdict)),
    }
}

/// What that which was fetched leads to, if anything was to be fetched.
pub open spec fn fetch_ended(v: SignatureView, f: FetchedView) -> Option<SignatureMove> {
    match v.phase {
        SignaturePhase::Signature => Some(signature_fetched(v, f)),
        SignaturePhase::Key => Some(key_fetched(v, f)),
        _ => None,
    }
}

impl SignatureCheck {
    /// The check by the signature at `sig_url`, and its first action.
    pub fn new(sig_url: &str) -> (r: (SignatureCheck, SignatureAction))
        ensures
            r.0@ == unstarted(),
            r.1@ == SignatureActionView::Fetch(sig_url@),
    {
        let check = SignatureCheck {
            phase: SignaturePhase::Signature,
            signature: Vec::new(),
            key: None,
        };
        assert(check@.signature =~= Seq::<u8>::empty());
        (check, SignatureAction::Fetch(owned(sig_url)))
    }

    /// The signature that was fetched.
    pub fn signature(&self) -> (r: &[u8])
        ensures
            r@ == self@.signature,
    {
        self.signature.as_slice()
    }

    /// The signing key that was read.
    pub fn key(&self) -> (r: Option<&sequoia_openpgp::Cert>)
        ensures
            match r {
                Some(cert) => self@.key == Some(*cert),
                None => self@.key is None,
            },
    {
        match &self.key {
            Some(cert) => Some(cert),
            None => None,
        }
    }

    fn fail(&mut self, step: SignatureStep, e: &str) -> (r: SignatureAction)
        ensures
            (SignatureMove { now: final(self)@, action: r@ }) == check_failed(
                old(self)@,
                step,
                e@,
            ),
    {
        self.phase = SignaturePhase::Over;
        SignatureAction::Finish(Err(signature_failure(step, e)))
    }

    /// Takes what was fetched. Where nothing was to be fetched, nothing changes.
    pub fn fetched(&mut self, fetched: Fetched) -> (r: Option<SignatureAction>)
        ensures
            match fetch_ended(old(self)@, fetched@) {
                Some(m) => r matches Some(action) && (SignatureMove {
                    now: final(self)@,
                    action: action@,
                }) == m,
                None => r is None && *final(self) == *old(self),
            },
    {
        match self.phase {
            SignaturePhase::Signature => Some(self.signature_fetched(fetched)),
            SignaturePhase::Key => Some(self.key_fetched(fetched)),
            _ => None,
        }
    }

    fn signature_fetched(&mut self, fetched: Fetched) -> (r: SignatureAction)
        ensures
            (SignatureMove { now: final(self)@, action: r@ }) == signature_fetched(
                old(self)@,
                fetched@,
            ),
    {
        match fetched {
            Fetched::Unanswered(e) => self.fail(SignatureStep::RequestSignature, e.as_str()),
            Fetched::BadStatus(e) => self.fail(SignatureStep::SignatureStatus, e.as_str()),
            Fetched::Broken(e) => self.fail(SignatureStep::Other, e.as_str()),
            Fetched::Bytes(bytes) => {
                self.signature = bytes;
                self.phase = SignaturePhase::Key;
                SignatureAction::Fetch(owned(signing_key_url()))
            },
        }
    }

    fn key_fetched(&mut self, fetched: Fetched) -> (r: SignatureAction)
        ensures
            (SignatureMove { now: final(self)@, action: r@ }) == key_fetched(
                old(self)@,
                fetched@,
            ),
    {
        match fetched {
            Fetched::Unanswered(e) => self.fail(SignatureStep::RequestKey, e.as_str()),
            Fetched::BadStatus(e) => self.fail(SignatureStep::KeyStatus, e.as_str()),
            Fetched::Broken(e) => self.fail(SignatureStep::Other, e.as_str()),
            Fetched::Bytes(bytes) => {
                let parsed = read_certificate(bytes.as_slice());
                self.key_parsed(parsed)
            },
        }
    }

    /// Takes the certificate that was read, or why none could be read. It ends
    /// the check unless a key is due and the certificate is the signing key.
    pub fn key_parsed(&mut self, parsed: Result<sequoia_openpgp::Cert, String>) -> (r:
        SignatureAction)
        ensures
            (SignatureMove { now: final(self)@, action: r@ }) == key_parsed(
                old(self)@,
                certificate_result(parsed),
            ),
    {
        match parsed {
            Err(e) => self.fail(SignatureStep::ParseKey, e.as_str()),
            Ok(cert) => {
                if self.phase != SignaturePhase::Key {
                    return self.fail(SignatureStep::ParseKey, "no key was asked for");
                }
                let fingerprint = fingerprint_of(&cert);
                if !is_signing_key(fingerprint.as_str()) {
                    return self.fail(SignatureStep::CompareKey, fingerprint.as_str());
                }
                self.key = Some(cert);
                self.phase = SignaturePhase::File;
                SignatureAction::ReadFile
            },
        }
    }

    /// Takes whether the file was read, or why not. Where no file was to be
    /// read, nothing changes.
    pub fn file_read(&mut self, error: Option<String>) -> (r: Option<SignatureAction>)
        ensures
            if old(self)@.phase == SignaturePhase::File {
                r matches Some(action) && (SignatureMove { now: final(self)@, action: action@ })
                    == file_read(old(self)@, optional_text(error))
            } else {
                r is None && *final(self) == *old(self)
            },
    {
        if self.phase != SignaturePhase::File {
            return None;
        }
        match error {
            Some(e) => Some(self.fail(SignatureStep::Other, e.as_str())),
            None => {
                self.phase = SignaturePhase::Verdict;
                Some(SignatureAction::Verify)
            },
        }
    }

    /// Takes the verdict on the file. Where none was to be given, nothing
    /// changes.
    pub fn judged(&mut self, verdict: Verdict) -> (r: Option<SignatureAction>)
        ensures
            if old(self)@.phase == SignaturePhase::Verdict {
                r matches Some(action) && (SignatureMove { now: final(self)@, action: action@ })
                    == judged(old(self)@, verdict@)
            } else {
                r is None && *final(self) == *old(self)
            },
    {
        if self.phase != SignaturePhase::Verdict {
            return None;
        }
        self.phase = SignaturePhase::Over;
        Some(SignatureAction::Finish(verdict_result(verdict)))
    }
}

// ---------------------------------------------------------------------
// Laws
// ---------------------------------------------------------------------

/// The key that the check holds, if any, is the signing key; past the key, it
/// holds one.
pub open spec fn is_keyed(v: SignatureView) -> bool {
    &&& v.key matches Some(cert) ==> fingerprint_in(cert) == developers_fingerprint()
    &&& v.phase == SignaturePhase::File || v.phase == SignaturePhase::Verdict ==> v.key is Some
}

/// Something that the check is told.
pub enum SignatureCall {
    Fetched(FetchedView),
    KeyParsed(Result<sequoia_openpgp::Cert, Seq<char>>),
    FileRead(Option<Seq<char>>),
    Judged(VerdictView),
}

/// What the check does when it is told something, if that was due.
pub open spec fn told(v: SignatureView, call: SignatureCall) -> Option<SignatureMove> {
    match call {
        SignatureCall::Fetched(f) => fetch_ended(v, f),
        SignatureCall::KeyParsed(r) => Some(key_parsed(v, r)),
        SignatureCall::FileRead(error) => if v.phase == SignaturePhase::File {
            Some(file_read(v, error))
        } else {
            None
        },
        SignatureCall::Judged(verdict) => if v.phase == SignaturePhase::Verdict {
            Some(judged(v, verdict))
        } else {
            None
        },
    }
}

/// A check that has been told nothing yet.
pub open spec fn unstarted() -> SignatureView {
    SignatureView {
        phase: SignaturePhase::Signature,
        signature: Seq::<u8>::empty(),
        key: None,
    }
}

/// The state of a check after it was told all this, in this order.
pub open spec fn check_after(calls: Seq<SignatureCall>) -> SignatureView
    decreases calls.len(),
{
    if calls.len() == 0 {
        unstarted()
    } else {
        let before = check_after(calls.drop_last());
        match told(before, calls.last()) {
            Some(m) => m.now,
            None => before,
        }
    }
}

/// What a step of a check leaves behind, and on what it ends well.
pub open spec fn is_strict(v: SignatureView, call: SignatureCall, m: SignatureMove) -> bool {
    &&& is_keyed(m.now)
    &&& m.action is Finish <==> m.now.phase == SignaturePhase::Over
    &&& m.action == SignatureActionView::Finish(Ok(())) <==> {
        &&& v.phase == SignaturePhase::Verdict
        &&& call == SignatureCall::Judged(VerdictView::Accepted)
    }
    &&& m.action == SignatureActionView::Finish(Ok(())) ==> {
        &&& m.now.key matches Some(cert)
        &&& fingerprint_in(cert) == developers_fingerprint()
    }
}

/// Nothing but the acceptance of the file by the verifier, by the Tor Browser
/// Developers signing key, lets a check end well: every other step goes on or
/// ends it with an error.
pub proof fn only_an_accepted_file_passes(v: SignatureView, call: SignatureCall)
    requires
        is_keyed(v),
    ensures
        told(v, call) matches Some(m) ==> is_strict(v, call, m),
{
}

/// Whatever a check is told, and in whatever order: it ends well only on the
/// acceptance of the file, and then by a key with the fingerprint of the Tor
/// Browser Developers signing key.
pub proof fn only_the_signing_key_passes(calls: Seq<SignatureCall>, call: SignatureCall)
    ensures
        is_keyed(check_after(calls)),
        told(check_after(calls), call) matches Some(m) ==> is_strict(
            check_after(calls),
            call,
            m,
        ),
    decreases calls.len(),
{
    if calls.len() > 0 {
        only_the_signing_key_passes(calls.drop_last(), calls.last());
    }
    only_an_accepted_file_passes(check_after(calls), call);
}

/// A certificate of another fingerprint ends the check with an error, wherever
/// it stands.
pub proof fn another_key_is_refused(v: SignatureView, cert: sequoia_openpgp::Cert)
    requires
        fingerprint_in(cert) != developers_fingerprint(),
    ensures
        key_parsed(v, Ok(cert)).action matches SignatureActionView::Finish(Err(_)),
        key_parsed(v, Ok(cert)).now.key == v.key,
{
}

/// The key that is accepted is the one whose fingerprint ends the address that it
/// is fetched from.
pub proof fn the_key_is_fetched_by_its_fingerprint(v: SignatureView, bytes: Seq<u8>)
    ensures
        signature_fetched(v, FetchedView::Bytes(bytes)).action == SignatureActionView::Fetch(
            "https://keys.openpgp.org/vks/v1/by-fingerprint/"@ + developers_fingerprint(),
        ),
{
    reveal_strlit("https://keys.openpgp.org/vks/v1/by-fingerprint/");
    reveal_strlit("EF6E286DDA85EA2A4BA7DE684E2C6E8793298290");
    reveal_strlit(
        "https://keys.openpgp.org/vks/v1/by-fingerprint/EF6E286DDA85EA2A4BA7DE684E2C6E8793298290",
    );
    assert("https://keys.openpgp.org/vks/v1/by-fingerprint/EF6E286DDA85EA2A4BA7DE684E2C6E8793298290"@
        =~= "https://keys.openpgp.org/vks/v1/by-fingerprint/"@
        + "EF6E286DDA85EA2A4BA7DE684E2C6E8793298290"@);
}

/// A check in which nothing fails comes to its end: the signature and the key are
/// kept as they were fetched, byte for byte, for the verifier, and what the
/// verifier says of the file is the result.
pub proof fn a_check_ends_with_the_verdict(
    signature: Seq<u8>,
    key: Seq<u8>,
    cert: sequoia_openpgp::Cert,
)
    requires
        certificate_in(key) == Ok::<sequoia_openpgp::Cert, Seq<char>>(cert),
        fingerprint_in(cert) == "EF6E286DDA85EA2A4BA7DE684E2C6E8793298290"@,
    ensures
        ({
            let fetched = SignatureCall::Fetched(FetchedView::Bytes(signature));
            let keyed = SignatureCall::Fetched(FetchedView::Bytes(key));
            let read = SignatureCall::FileRead(None);
            let end = check_after(seq![fetched, keyed, read]);
            &&& end.signature == signature
            &&& end.key == Some(cert)
            &&& told(check_after(seq![fetched, keyed]), read) matches Some(m) && m.action
                == SignatureActionView::Verify
            &&& told(end, SignatureCall::Judged(VerdictView::Accepted)) matches Some(m) && m.action
                == SignatureActionView::Finish(Ok(()))
            &&& forall|e: Seq<char>| #[trigger]
                told(end, SignatureCall::Judged(VerdictView::Rejected(e))) matches Some(m)
                    && m.action == SignatureActionView::Finish(
                    Err("PGP signature verification failed: "@ + e),
                )
        }),
{
    let fetched = SignatureCall::Fetched(FetchedView::Bytes(signature));
    let keyed = SignatureCall::Fetched(FetchedView::Bytes(key));
    let read = SignatureCall::FileRead(None);
    let none = Seq::<SignatureCall>::empty();
    assert(seq![fetched].drop_last() =~= none);
    assert(seq![fetched, keyed].drop_last() =~= seq![fetched]);
    assert(seq![fetched, keyed, read].drop_last() =~= seq![fetched, keyed]);
    assert(check_after(none) == unstarted());
    assert(check_after(seq![fetched]).phase == SignaturePhase::Key);
    assert(check_after(seq![fetched, keyed]).phase == SignaturePhase::File);
}

/// Every failure ends the check, with an error that says at what and why, and
/// changes nothing that was fetched.
pub proof fn every_failure_ends_the_check(v: SignatureView, e: Seq<char>)
    ensures
        ({
            let ends = |m: SignatureMove, text: Seq<char>|
                m.action == SignatureActionView::Finish(Err(text)) && m.now == (SignatureView {
                    phase: SignaturePhase::Over,
                    ..v
                });
            &&& ends(
                signature_fetched(v, FetchedView::Unanswered(e)),
                "failed to download signature: "@ + e,
            )
            &&& ends(
                signature_fetched(v, FetchedView::BadStatus(e)),
                "signature download failed: "@ + e,
            )
            &&& ends(signature_fetched(v, FetchedView::Broken(e)), e)
            &&& ends(
                key_fetched(v, FetchedView::Unanswered(e)),
                "failed to fetch Tor Browser signing key: "@ + e,
            )
            &&& ends(
                key_fetched(v, FetchedView::BadStatus(e)),
                "signing key download failed: "@ + e,
            )
            &&& ends(key_fetched(v, FetchedView::Broken(e)), e)
            &&& ends(key_parsed(v, Err(e)), "failed to parse Tor Browser signing key: "@ + e)
            &&& ends(file_read(v, Some(e)), e)
            &&& ends(
                judged(v, VerdictView::Rejected(e)),
                "PGP signature verification failed: "@ + e,
            )
            &&& ends(
                judged(v, VerdictView::NotSetUp(e)),
                "signature verification setup failed: "@ + e,
            )
            &&& ends(
                judged(v, VerdictView::Unreadable(e)),
                "failed to parse .asc signature: "@ + e,
            )
        }),
{
    reveal_strlit("");
    assert(""@ + e =~= e);
}

/// The key that is accepted is the one with this fingerprint.
pub proof fn one_fingerprint_is_accepted(v: SignatureView, cert: sequoia_openpgp::Cert)
    requires
        v.phase == SignaturePhase::Key,
    ensures
        key_parsed(v, Ok(cert)).now.phase == SignaturePhase::File <==> fingerprint_in(cert)
            == "EF6E286DDA85EA2A4BA7DE684E2C6E8793298290"@,
        key_parsed(v, Ok(cert)).now.phase == SignaturePhase::File ==> key_parsed(
            v,
            Ok(cert),
        ).now.key == Some(cert),
        fingerprint_in(cert) != "EF6E286DDA85EA2A4BA7DE684E2C6E8793298290"@ ==> key_parsed(
            v,
            Ok(cert),
        ).action == SignatureActionView::Finish(
            Err("not the Tor Browser signing key: "@ + fingerprint_in(cert)),
        ),
{
}

/// A key that nobody asked for ends the check, whichever it is.
pub proof fn a_key_out_of_turn_ends_the_check(v: SignatureView, cert: sequoia_openpgp::Cert)
    requires
        v.phase != SignaturePhase::Key,
    ensures
        key_parsed(v, Ok(cert)) == (SignatureMove {
            now: SignatureView { phase: SignaturePhase::Over, ..v },
            action: SignatureActionView::Finish(
                Err("failed to parse Tor Browser signing key: "@ + "no key was asked for"@),
            ),
        }),
{
}

/// A check takes what it has asked for, in its order, and nothing else.
pub proof fn a_check_takes_what_it_asked_for(v: SignatureView, call: SignatureCall)
    ensures
        told(v, call) is Some <==> (match call {
            SignatureCall::Fetched(_) => v.phase == SignaturePhase::Signature || v.phase
                == SignaturePhase::Key,
            SignatureCall::KeyParsed(_) => true,
            SignatureCall::FileRead(_) => v.phase == SignaturePhase::File,
            SignatureCall::Judged(_) => v.phase == SignaturePhase::Verdict,
        }),
        v.phase == SignaturePhase::Signature ==> (call matches SignatureCall::Fetched(f)
            ==> told(v, call) == Some(signature_fetched(v, f))),
        v.phase == SignaturePhase::Key ==> (call matches SignatureCall::Fetched(f) ==> told(v, call)
            == Some(key_fetched(v, f))),
{
}

/// A group of signatures counts if one of them is good, whichever it is; a layer
/// of another kind never does.
pub proof fn one_good_signature_is_enough(layer: Layer)
    ensures
        has_good_signature(layer) <==> (layer matches Layer::Signatures(results)
            && results@.contains(true)),
{
    if let Layer::Signatures(results) = layer {
        if results@.contains(true) {
            let i = choose|i: int| 0 <= i < results@.len() && results@[i] == true;
            assert(results@[i]);
        }
    }
}

} // verus!
