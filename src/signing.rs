use vstd::prelude::*;
use vstd::string::*;
use base64::Engine;
use p256::ecdsa::signature::Signer;

use crate::hashing::{compute_key_fingerprint, compute_signed_data, key_fingerprint_spec, signed_data_spec};
use crate::text::has_prefix;

verus! {

/// Standard base64 text of a byte string.
pub uninterp spec fn base64_of(b: Seq<u8>) -> Seq<char>;

/// Relies on base64's STANDARD engine `encode`: padded standard-alphabet text that
/// depends on the bytes alone, four characters for every started group of three bytes.
#[verifier::external_body]
fn base64_encode(b: &[u8]) -> (r: String)
    ensures
        r@ == base64_of(b@),
        r@.len() == 4 * ((b@.len() + 2) / 3),
{
    base64::engine::general_purpose::STANDARD.encode(b)
}

/// The byte strings that p256 accepts as a secret scalar.
pub uninterp spec fn valid_secret_key(secret: Seq<u8>) -> bool;

/// The uncompressed SEC1 public key of a secret scalar.
pub uninterp spec fn sec1_public_key_of(secret: Seq<u8>) -> Seq<u8>;

/// The DER-encoded ECDSA P-256 signature of a message under a secret scalar; p256 picks
/// the nonce by RFC 6979, so it depends on the key and the message alone.
pub uninterp spec fn ecdsa_der_of(secret: Seq<u8>, msg: Seq<u8>) -> Seq<u8>;

/// Relies on p256's SigningKey::random, fed by the operating system's generator, and
/// SigningKey::to_bytes: the secret scalar of a new key, which is always a valid one.
#[verifier::external_body]
fn random_secret_key() -> (r: Vec<u8>)
    ensures
        valid_secret_key(r@),
{
    p256::ecdsa::SigningKey::random(&mut rand_core::OsRng).to_bytes().to_vec()
}

/// Relies on p256's SigningKey::from_slice and VerifyingKey::to_encoded_point: the
/// public key of a secret scalar in uncompressed SEC1 form (65 bytes), or nothing when
/// the bytes are no valid scalar.
#[verifier::external_body]
fn public_key_sec1(secret: &[u8]) -> (r: Option<Vec<u8>>)
    ensures
        r is Some <==> valid_secret_key(secret@),
        r matches Some(p) ==> p@ == sec1_public_key_of(secret@) && p@.len() == 65,
{
    match p256::ecdsa::SigningKey::from_slice(secret) {
        Ok(key) => Some(key.verifying_key().to_encoded_point(false).as_bytes().to_vec()),
        Err(_) => None,
    }
}

/// Relies on p256's SigningKey::from_slice, ECDSA `Signer::sign` and
/// `Signature::to_der`: the DER-encoded signature of a message, never empty, or nothing
/// when the bytes are no valid scalar.
#[verifier::external_body]
fn ecdsa_sign_der(secret: &[u8], msg: &[u8]) -> (r: Option<Vec<u8>>)
    ensures
        r is Some <==> valid_secret_key(secret@),
        r matches Some(d) ==> d@ == ecdsa_der_of(secret@, msg@) && d@.len() > 0,
{
    match p256::ecdsa::SigningKey::from_slice(secret) {
        Ok(key) => {
            let sig: p256::ecdsa::Signature = key.sign(msg);
            Some(sig.to_der().as_bytes().to_vec())
        },
        Err(_) => None,
    }
}

/// Relies on uuid's Uuid::new_v4: a random identifier in hyphenated form.
#[verifier::external_body]
fn random_uuid() -> (r: String) {
    uuid::Uuid::new_v4().to_string()
}

/// Errors of signing operations.
#[derive(Debug, Clone)]
pub enum SigningError {
    BackendUnavailable(String),
    SigningFailed(String),
    KeyError(String),
    HashingFailed(String),
}

impl SigningError {
    /// The message of this error.
    pub fn to_string(&self) -> (r: String)
        ensures
            r@ == match self {
                SigningError::BackendUnavailable(m) => "Signing backend unavailable: "@ + m@,
                SigningError::SigningFailed(m) => "Signing failed: "@ + m@,
                SigningError::KeyError(m) => "Key error: "@ + m@,
                SigningError::HashingFailed(m) => "Hashing failed: "@ + m@,
            },
    {
        let (head, m) = match self {
            SigningError::BackendUnavailable(m) => ("Signing backend unavailable: ", m),
            SigningError::SigningFailed(m) => ("Signing failed: ", m),
            SigningError::KeyError(m) => ("Key error: ", m),
            SigningError::HashingFailed(m) => ("Hashing failed: ", m),
        };
        let mut r = String::from_str(head);
        r.append(m.as_str());
        r
    }
}

/// Signature attached to an envelope.
#[derive(Debug, Clone)]
pub struct SignatureBlock {
    pub signer_id: String,
    pub signer_type: String,
    pub algorithm: String,
    pub public_key: String,
    pub signature: String,
    pub key_id: String,
    pub covers: Vec<String>,
}

/// The envelope fields that a signature covers.
pub open spec fn standard_covers() -> Seq<Seq<char>> {
    seq!["content_hash"@, "evidence_hash"@]
}

pub open spec fn covers_view(v: Seq<String>) -> Seq<Seq<char>> {
    v.map_values(|s: String| s@)
}

fn standard_cover_list() -> (r: Vec<String>)
    ensures
        covers_view(r@) == standard_covers(),
{
    let mut v: Vec<String> = Vec::new();
    v.push(String::from_str("content_hash"));
    v.push(String::from_str("evidence_hash"));
    assert(covers_view(v@) =~= standard_covers());
    v
}

/// Software ECDSA P-256 backend with a key made for this process only.
pub struct SoftwareBackend {
    secret_key: Vec<u8>,
    public_key_bytes: Vec<u8>,
    key_id: String,
    signer_id: String,
}

pub open spec fn software_signer_id(public_key: Seq<u8>) -> Seq<char> {
    "software:sha256:"@ + key_fingerprint_spec(public_key)
}

impl SoftwareBackend {
    /// The public key, uncompressed SEC1 bytes.
    /// A backend's key is a valid scalar, and its public key is that scalar's.
    #[verifier::type_invariant]
    spec fn inv(&self) -> bool {
        &&& valid_secret_key(self.secret_key@)
        &&& self.public_key_bytes@ == sec1_public_key_of(self.secret_key@)
        &&& self.public_key_bytes@.len() == 65
    }

    /// The secret scalar.
    pub closed spec fn secret_view(&self) -> Seq<u8> {
        self.secret_key@
    }

    pub closed spec fn public_key_view(&self) -> Seq<u8> {
        self.public_key_bytes@
    }

    pub closed spec fn key_id_view(&self) -> Seq<char> {
        self.key_id@
    }

    pub closed spec fn signer_id_view(&self) -> Seq<char> {
        self.signer_id@
    }

    /// The public key, uncompressed SEC1 bytes.
    pub fn public_key_bytes(&self) -> (r: &[u8])
        ensures
            r@ == self.public_key_view(),
    {
        self.public_key_bytes.as_slice()
    }

    /// A backend with a freshly generated key.
    pub fn new() -> (r: Result<Self, SigningError>)
        ensures
            r is Ok,
            r matches Ok(b) ==> b.signer_id_view() == software_signer_id(b.public_key_view()) && has_prefix(
                b.key_id_view(),
                "software:ephemeral:"@,
            ) && b.public_key_view() == sec1_public_key_of(b.secret_view()),
    {
        let secret_key = random_secret_key();
        let public_key_bytes = match public_key_sec1(secret_key.as_slice()) {
            Some(p) => p,
            None => {
                return Err(SigningError::KeyError(String::from_str("Generated key is not a valid scalar")));
            },
        };
        let mut key_id = String::from_str("software:ephemeral:");
        let ghost prefix = key_id@;
        key_id.append(random_uuid().as_str());
        assert(key_id@.subrange(0, prefix.len() as int) =~= prefix);
        let mut signer_id = String::from_str("software:sha256:");
        signer_id.append(compute_key_fingerprint(public_key_bytes.as_slice()).as_str());
        Ok(SoftwareBackend { secret_key, public_key_bytes, key_id, signer_id })
    }

    pub fn algorithm(&self) -> (r: &'static str)
        ensures
            r@ == "ecdsa-p256"@,
    {
        "ecdsa-p256"
    }

    pub fn is_available(&self) -> (r: bool)
        ensures
            r,
    {
        true
    }

    pub fn signer_id(&self) -> (r: Result<String, SigningError>)
        ensures
            r matches Ok(s) && s@ == self.signer_id_view(),
    {
        Ok(self.signer_id.clone())
    }

    pub fn key_id(&self) -> (r: &str)
        ensures
            r@ == self.key_id_view(),
    {
        self.key_id.as_str()
    }

    pub fn export_public_key_base64(&self) -> (r: Result<String, SigningError>)
        ensures
            r matches Ok(s) && s@ == base64_of(self.public_key_view()),
    {
        Ok(base64_encode(self.public_key_bytes.as_slice()))
    }

    /// Signs `SHA256(content_hash || evidence_hash)` and describes the signature.
    pub fn sign_envelope_hashes(&self, content_hash: &str, evidence_hash: &str) -> (r: Result<SignatureBlock, SigningError>)
        ensures
            r is Ok,
            r matches Ok(b) ==> signature_block_of(b, *self) && b.signature@ == signature_text(
                *self,
                content_hash@,
                evidence_hash@,
            ),
            r matches Ok(b) ==> b.signature@.len() > 0 && b.public_key@.len() > 0,
    {
        proof {
            use_type_invariant(self);
        }
        let signed_data = compute_signed_data(content_hash, evidence_hash);
        let der = match ecdsa_sign_der(self.secret_key.as_slice(), signed_data.as_slice()) {
            Some(d) => d,
            None => {
                return Err(SigningError::SigningFailed(String::from_str("Secret key is not a valid scalar")));
            },
        };
        Ok(
            SignatureBlock {
                signer_id: self.signer_id.clone(),
                signer_type: String::from_str("agent"),
                algorithm: String::from_str("ecdsa-p256"),
                public_key: base64_encode(self.public_key_bytes.as_slice()),
                signature: base64_encode(der.as_slice()),
                key_id: self.key_id.clone(),
                covers: standard_cover_list(),
            },
        )
    }
}

/// The base64 text of this backend's signature over `SHA256(content_hash ||
/// evidence_hash)`.
pub open spec fn signature_text(backend: SoftwareBackend, content_hash: Seq<char>, evidence_hash: Seq<char>) -> Seq<char> {
    base64_of(ecdsa_der_of(backend.secret_view(), signed_data_spec(content_hash, evidence_hash)))
}

/// A signature block of this backend: its identity, its public key in base64, and the
/// standard covered fields.
pub open spec fn signature_block_of(b: SignatureBlock, backend: SoftwareBackend) -> bool {
    &&& b.signer_id@ == backend.signer_id_view()
    &&& b.signer_type@ == "agent"@
    &&& b.algorithm@ == "ecdsa-p256"@
    &&& b.public_key@ == base64_of(backend.public_key_view())
    &&& b.key_id@ == backend.key_id_view()
    &&& covers_view(b.covers@) == standard_covers()
}

/// Creates the signing backend of this process: the software backend.
pub fn create_backend() -> (r: Result<SoftwareBackend, SigningError>)
    ensures
        r is Ok,
        r matches Ok(b) ==> b.signer_id_view() == software_signer_id(b.public_key_view()),
{
    SoftwareBackend::new()
}

/// Outer wrapper of a result: its combined hashes and, once signed, its signature.
#[derive(Debug, Clone)]
pub struct ResultEnvelope {
    pub content_hash: String,
    pub evidence_hash: String,
    pub signature: Option<SignatureBlock>,
}

/// Signs an envelope in place.
pub fn sign_envelope(envelope: &mut ResultEnvelope, backend: &SoftwareBackend) -> (r: Result<(), SigningError>)
    ensures
        final(envelope).content_hash == old(envelope).content_hash,
        final(envelope).evidence_hash == old(envelope).evidence_hash,
        r is Ok,
        final(envelope).signature matches Some(b) && signature_block_of(b, *backend)
            && b.signature@ == signature_text(*backend, old(envelope).content_hash@, old(envelope).evidence_hash@),
{
    match backend.sign_envelope_hashes(envelope.content_hash.as_str(), envelope.evidence_hash.as_str()) {
        Ok(block) => {
            envelope.signature = Some(block);
            Ok(())
        },
        Err(e) => Err(e),
    }
}

/// Signs an envelope in place and says whether it did; signing with a software backend
/// does not fail, so it always does.
pub fn try_sign_envelope(envelope: &mut ResultEnvelope, backend: &SoftwareBackend) -> (r: bool)
    ensures
        final(envelope).content_hash == old(envelope).content_hash,
        final(envelope).evidence_hash == old(envelope).evidence_hash,
        r,
        final(envelope).signature matches Some(b) && signature_block_of(b, *backend)
            && b.signature@ == signature_text(*backend, old(envelope).content_hash@, old(envelope).evidence_hash@),
{
    match sign_envelope(envelope, backend) {
        Ok(()) => true,
        Err(_) => false,
    }
}

} // verus!
