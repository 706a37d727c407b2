use vstd::prelude::*;

use chacha20poly1305::aead::{Aead, AeadCore, KeyInit, OsRng};
use chacha20poly1305::ChaCha20Poly1305;
use ed25519_dalek::{Signer, Verifier};

use crate::cli::TextSignFormat;
use crate::errors::ProcessError;
use crate::process::b64::{
    b64url_decode, b64url_encode, spec_b64url_decode, spec_b64url_encode,
};
use crate::process::gen_pass::gen_pass_bytes;
use crate::utils::string_from_utf8;

verus! {

/// Produces raw signature bytes over a fully read input.
pub trait TextSign {
    fn sign(&self, data: &[u8]) -> Result<Vec<u8>, ProcessError>;
}

/// Checks raw signature bytes against a fully read input. A mismatch is
/// an ordinary `false` result, never an error.
pub trait TextVerify {
    fn verify(&self, data: &[u8], sig: &[u8]) -> Result<bool, ProcessError>;
}

/// Builds an algorithm's key material from already-read byte buffers, in
/// the order the algorithm needs them.
pub trait KeyLoader: Sized {
    fn load(sources: &[Vec<u8>]) -> Result<Self, ProcessError>;
}

/// Produces fresh key material: algorithm-specific buffers in a fixed
/// order, for the caller to persist.
pub trait KeyGenerator {
    fn generate() -> Result<Vec<Vec<u8>>, ProcessError>;
}

/// What the keyed hash returns for a 32-byte key and an input: a 256-bit
/// digest determined by the two alone.
pub uninterp spec fn spec_blake3_keyed(key: Seq<u8>, data: Seq<u8>) -> Seq<u8>;

/// Whether a candidate signature is accepted for the keyed-hash
/// algorithm: exactly the recomputed digest is.
pub open spec fn spec_blake3_verifies(key: Seq<u8>, data: Seq<u8>, sig: Seq<u8>) -> bool {
    sig == spec_blake3_keyed(key, data)
}

/// What the asymmetric scheme's signature over a message is, for a given
/// 32-byte private seed; the scheme signs deterministically.
pub uninterp spec fn spec_ed25519_sign(seed: Seq<u8>, msg: Seq<u8>) -> Seq<u8>;

/// The 32-byte public key the asymmetric scheme derives from a seed.
pub uninterp spec fn spec_ed25519_public(seed: Seq<u8>) -> Seq<u8>;

/// Whether 32 bytes decode to a valid public key of the asymmetric
/// scheme.
pub uninterp spec fn spec_ed25519_key_valid(key: Seq<u8>) -> bool;

/// Whether the asymmetric scheme accepts a 64-byte signature over a
/// message under a public key.
pub uninterp spec fn spec_ed25519_verifies(key: Seq<u8>, msg: Seq<u8>, sig: Seq<u8>) -> bool;

/// What sealing with the authenticated cipher returns for a 32-byte key,
/// a 12-byte nonce and a plaintext: determined by the three alone.
pub uninterp spec fn spec_chacha_seal(key: Seq<u8>, nonce: Seq<u8>, data: Seq<u8>) -> Seq<u8>;

/// What opening with the authenticated cipher returns: the plaintext, or
/// nothing when the authentication tag does not match.
pub uninterp spec fn spec_chacha_open(key: Seq<u8>, nonce: Seq<u8>, data: Seq<u8>) -> Option<
    Seq<u8>,
>;

/// Relies on blake3::keyed_hash: a 32-byte digest that depends on the key
/// and the input alone.
#[verifier::external_body]
fn blake3_keyed_hash(key: &[u8; 32], data: &[u8]) -> (r: Vec<u8>)
    ensures
        r@ == spec_blake3_keyed(key@, data@),
        r@.len() == 32,
{
    blake3::keyed_hash(key, data).as_bytes().to_vec()
}

/// Relies on ed25519_dalek's Signer::sign for SigningKey: the 64-byte
/// signature is a deterministic function of the seed and the message
/// (RFC 8032), and it verifies under the seed's own public key, which is
/// a valid 32-byte public key.
#[verifier::external_body]
fn ed25519_sign_raw(seed: &[u8; 32], msg: &[u8]) -> (r: Vec<u8>)
    ensures
        r@ == spec_ed25519_sign(seed@, msg@),
        r@.len() == 64,
        spec_ed25519_verifies(spec_ed25519_public(seed@), msg@, r@),
{
    let key = ed25519_dalek::SigningKey::from_bytes(seed);
    key.sign(msg).to_bytes().to_vec()
}

/// Relies on ed25519_dalek::SigningKey::verifying_key: the public half is
/// derived deterministically from the seed, is 32 bytes, and is a valid
/// public key.
#[verifier::external_body]
fn ed25519_derive_public(seed: &[u8; 32]) -> (r: Vec<u8>)
    ensures
        r@ == spec_ed25519_public(seed@),
        r@.len() == 32,
        spec_ed25519_key_valid(r@),
{
    ed25519_dalek::SigningKey::from_bytes(seed).verifying_key().to_bytes().to_vec()
}

/// Relies on ed25519_dalek::VerifyingKey::from_bytes: whether 32 bytes
/// decode to a valid public key depends on the bytes alone.
#[verifier::external_body]
fn ed25519_key_valid(key: &[u8; 32]) -> (r: bool)
    ensures
        r == spec_ed25519_key_valid(key@),
{
    ed25519_dalek::VerifyingKey::from_bytes(key).is_ok()
}

/// Relies on ed25519_dalek's Verifier::verify for VerifyingKey: whether a
/// 64-byte signature over a message is accepted depends on the key, the
/// message and the signature alone.
#[verifier::external_body]
fn ed25519_verify_raw(key: &[u8; 32], msg: &[u8], sig: &[u8]) -> (r: bool)
    requires
        spec_ed25519_key_valid(key@),
        sig@.len() == 64,
    ensures
        r == spec_ed25519_verifies(key@, msg@, sig@),
{
    let vk = match ed25519_dalek::VerifyingKey::from_bytes(key) {
        Ok(k) => k,
        Err(_) => return false,
    };
    let arr: [u8; 64] = match sig.try_into() {
        Ok(a) => a,
        Err(_) => return false,
    };
    let signature = ed25519_dalek::Signature::from_bytes(&arr);
    vk.verify(msg, &signature).is_ok()
}

/// Relies on ed25519_dalek::SigningKey::generate with the operating
/// system's secure random source: a fresh 32-byte private seed; the value
/// is random, so only its length is promised.
#[verifier::external_body]
fn ed25519_generate_seed() -> (r: Vec<u8>)
    ensures
        r@.len() == 32,
{
    let mut rng = OsRng;
    ed25519_dalek::SigningKey::generate(&mut rng).to_bytes().to_vec()
}

/// Relies on chacha20poly1305's Aead::encrypt with no associated data:
/// the sealed bytes are determined by key, nonce and plaintext, they are
/// the plaintext's length plus the 16-byte tag, and opening them with the
/// same key and nonce gives the plaintext back. The length bound keeps
/// the plaintext far below the cipher's message limit, so sealing cannot
/// fail.
#[verifier::external_body]
fn chacha_seal(key: &[u8; 32], nonce: &[u8; 12], data: &[u8]) -> (r: Vec<u8>)
    requires
        data@.len() <= 0xFFFF_FFFF,
    ensures
        r@ == spec_chacha_seal(key@, nonce@, data@),
        r@.len() == data@.len() + 16,
        spec_chacha_open(key@, nonce@, r@) == Some(data@),
{
    let cipher = ChaCha20Poly1305::new(chacha20poly1305::Key::from_slice(key));
    cipher.encrypt(chacha20poly1305::Nonce::from_slice(nonce), data).expect("sealing failed")
}

/// Relies on chacha20poly1305's Aead::decrypt with no associated data:
/// opening succeeds, with a plaintext determined by key, nonce and sealed
/// bytes, exactly when the authentication tag matches; otherwise nothing
/// is returned.
#[verifier::external_body]
fn chacha_open(key: &[u8; 32], nonce: &[u8; 12], data: &[u8]) -> (r: Option<Vec<u8>>)
    ensures
        match r {
            Some(p) => spec_chacha_open(key@, nonce@, data@) == Some(p@),
            None => spec_chacha_open(key@, nonce@, data@) is None,
        },
{
    let cipher = ChaCha20Poly1305::new(chacha20poly1305::Key::from_slice(key));
    match cipher.decrypt(chacha20poly1305::Nonce::from_slice(nonce), data) {
        Ok(p) => Some(p),
        Err(_) => None,
    }
}

/// Relies on chacha20poly1305's AeadCore::generate_key with the operating
/// system's secure random source: a fresh 32-byte key; the value is
/// random, so only its length is promised.
#[verifier::external_body]
fn chacha_generate_key() -> (r: Vec<u8>)
    ensures
        r@.len() == 32,
{
    ChaCha20Poly1305::generate_key(&mut OsRng).to_vec()
}

/// Relies on chacha20poly1305's AeadCore::generate_nonce with the
/// operating system's secure random source: a fresh 12-byte nonce; the
/// value is random, so only its length is promised.
#[verifier::external_body]
fn chacha_generate_nonce() -> (r: Vec<u8>)
    ensures
        r@.len() == 12,
{
    ChaCha20Poly1305::generate_nonce(&mut OsRng).to_vec()
}

/// Copies a 32-byte slice into an array.
fn copy_to_32(src: &[u8]) -> (r: [u8; 32])
    requires
        src@.len() == 32,
    ensures
        r@ == src@,
{
    let mut r: [u8; 32] = [0u8; 32];
    let mut i: usize = 0;
    while i < 32
        invariant
            src@.len() == 32,
            i <= 32,
            r@.len() == 32,
            forall|j: int| 0 <= j < i ==> r@[j] == src@[j],
        decreases 32 - i,
    {
        r[i] = src[i];
        i = i + 1;
    }
    proof {
        assert(r@ =~= src@);
    }
    r
}

/// Copies a 12-byte slice into an array.
fn copy_to_12(src: &[u8]) -> (r: [u8; 12])
    requires
        src@.len() == 12,
    ensures
        r@ == src@,
{
    let mut r: [u8; 12] = [0u8; 12];
    let mut i: usize = 0;
    while i < 12
        invariant
            src@.len() == 12,
            i <= 12,
            r@.len() == 12,
            forall|j: int| 0 <= j < i ==> r@[j] == src@[j],
        decreases 12 - i,
    {
        r[i] = src[i];
        i = i + 1;
    }
    proof {
        assert(r@ =~= src@);
    }
    r
}

/// Byte-for-byte equality that examines every byte of equal-length
/// inputs, so the time taken does not reveal the position of the first
/// mismatch.
fn constant_time_eq(a: &[u8], b: &[u8]) -> (r: bool)
    ensures
        r == (a@ == b@),
{
    if a.len() != b.len() {
        proof {
            assert(a@ != b@);
        }
        return false;
    }
    let n = a.len();
    let mut diff: u8 = 0;
    let mut i: usize = 0;
    while i < n
        invariant
            n == a@.len(),
            n == b@.len(),
            i <= n,
            (diff == 0) <==> (forall|j: int| 0 <= j < i ==> a@[j] == b@[j]),
        decreases n - i,
    {
        let x = a[i];
        let y = b[i];
        let d = x ^ y;
        proof {
            assert(((x ^ y) == 0) <==> (x == y)) by (bit_vector);
            assert(((diff | (x ^ y)) == 0) <==> (diff == 0 && (x ^ y) == 0)) by (bit_vector);
        }
        diff = diff | d;
        i = i + 1;
    }
    if diff == 0 {
        proof {
            assert(a@ =~= b@);
        }
        true
    } else {
        proof {
            assert(a@ != b@);
        }
        false
    }
}

/// The keyed-hash signer and verifier: a 32-byte symmetric key.
pub struct Black3 {
    key: [u8; 32],
}

/// The asymmetric signer: a 32-byte private seed, together with the
/// public key derived from it at construction time.
pub struct Ed25519Signer {
    key: [u8; 32],
    public: [u8; 32],
}

/// The asymmetric verifier: a 32-byte public key that decodes to a valid
/// point.
pub struct Ed25519Verifier {
    key: [u8; 32],
}

/// The authenticated cipher: a 32-byte key and a 12-byte nonce, loaded
/// together.
#[derive(Debug)]
pub struct ChaChaPoly {
    key: [u8; 32],
    nonce: [u8; 12],
}

impl Black3 {
    /// The loaded key bytes.
    pub closed spec fn spec_key(&self) -> Seq<u8> {
        self.key@
    }

    /// Wraps an exactly 32-byte key.
    pub fn new(key: [u8; 32]) -> (r: Self)
        ensures
            r.spec_key() == key@,
    {
        Self { key }
    }

    /// Accepts exactly 32 key bytes; any other length is rejected as an
    /// invalid key length.
    pub fn try_new(key: &[u8]) -> (r: Result<Self, ProcessError>)
        ensures
            match r {
                Ok(s) => key@.len() == 32 && s.spec_key() == key@,
                Err(e) => key@.len() != 32 && e == ProcessError::InvalidKeyLength,
            },
    {
        if key.len() != 32 {
            return Err(ProcessError::InvalidKeyLength);
        }
        Ok(Black3::new(copy_to_32(key)))
    }

    /// Signs by computing the keyed hash over the full input.
    pub fn sign_bytes(&self, data: &[u8]) -> (r: Vec<u8>)
        ensures
            r@ == spec_blake3_keyed(self.spec_key(), data@),
            r@.len() == 32,
            spec_blake3_verifies(self.spec_key(), data@, r@),
    {
        blake3_keyed_hash(&self.key, data)
    }

    /// Verifies by recomputing the keyed hash and comparing it to the
    /// candidate in constant time; a mismatch, including a wrong-length
    /// candidate, is an ordinary `false`.
    pub fn verify_bytes(&self, data: &[u8], sig: &[u8]) -> (r: bool)
        ensures
            r == spec_blake3_verifies(self.spec_key(), data@, sig@),
    {
        let hash = blake3_keyed_hash(&self.key, data);
        constant_time_eq(hash.as_slice(), sig)
    }

    /// Generates the key material: one 32-byte buffer of character bytes
    /// from the password generator, with all four classes enabled. The
    /// key deliberately holds printable characters, not raw random bytes.
    pub fn generate_keys() -> (r: Result<Vec<Vec<u8>>, ProcessError>)
        ensures
            match r {
                Ok(v) => v@.len() == 1 && v@[0]@.len() == 32 && forall|i: int|
                    0 <= i < v@[0]@.len() ==> crate::process::gen_pass::spec_allowed(
                        true,
                        true,
                        true,
                        true,
                        #[trigger] v@[0]@[i],
                    ),
                Err(_) => false,
            },
    {
        let key = gen_pass_bytes(32, true, true, true, true);
        let mut out: Vec<Vec<u8>> = Vec::new();
        out.push(key);
        Ok(out)
    }
}

impl Ed25519Signer {
    /// The loaded private seed bytes.
    pub closed spec fn spec_key(&self) -> Seq<u8> {
        self.key@
    }

    /// The stored public half is the one derived from the seed, and is a
    /// valid public key.
    #[verifier::type_invariant]
    spec fn type_inv(self) -> bool {
        self.public@ == spec_ed25519_public(self.key@) && spec_ed25519_key_valid(self.public@)
    }

    /// Wraps an exactly 32-byte private seed and derives its public key.
    pub fn new(key: [u8; 32]) -> (r: Self)
        ensures
            r.spec_key() == key@,
    {
        let public_vec = ed25519_derive_public(&key);
        let public = copy_to_32(public_vec.as_slice());
        Self { key, public }
    }

    /// Accepts exactly 32 seed bytes; any other length is rejected as an
    /// invalid key length.
    pub fn try_new(key: &[u8]) -> (r: Result<Self, ProcessError>)
        ensures
            match r {
                Ok(s) => key@.len() == 32 && s.spec_key() == key@,
                Err(e) => key@.len() != 32 && e == ProcessError::InvalidKeyLength,
            },
    {
        if key.len() != 32 {
            return Err(ProcessError::InvalidKeyLength);
        }
        Ok(Ed25519Signer::new(copy_to_32(key)))
    }

    /// Signs the full input: a 64-byte signature that verifies under the
    /// public key derived from this seed.
    pub fn sign_bytes(&self, data: &[u8]) -> (r: Vec<u8>)
        ensures
            r@ == spec_ed25519_sign(self.spec_key(), data@),
            r@.len() == 64,
            spec_ed25519_public(self.spec_key()).len() == 32,
            spec_ed25519_key_valid(spec_ed25519_public(self.spec_key())),
            spec_ed25519_verifies(spec_ed25519_public(self.spec_key()), data@, r@),
    {
        proof {
            use_type_invariant(self);
        }
        ed25519_sign_raw(&self.key, data)
    }

    /// Generates the key material: a fresh 32-byte private seed from the
    /// secure random source, then the 32-byte public key derived from it,
    /// in that order.
    pub fn generate_keys() -> (r: Result<Vec<Vec<u8>>, ProcessError>)
        ensures
            match r {
                Ok(v) => {
                    &&& v@.len() == 2
                    &&& v@[0]@.len() == 32
                    &&& v@[1]@.len() == 32
                    &&& v@[1]@ == spec_ed25519_public(v@[0]@)
                    &&& spec_ed25519_key_valid(v@[1]@)
                },
                Err(_) => false,
            },
    {
        let seed = ed25519_generate_seed();
        let public = ed25519_derive_public(&copy_to_32(seed.as_slice()));
        let mut out: Vec<Vec<u8>> = Vec::new();
        out.push(seed);
        out.push(public);
        Ok(out)
    }
}

impl Ed25519Verifier {
    /// The loaded public key bytes.
    pub closed spec fn spec_key(&self) -> Seq<u8> {
        self.key@
    }

    /// The stored bytes decode to a valid public key.
    #[verifier::type_invariant]
    spec fn type_inv(self) -> bool {
        spec_ed25519_key_valid(self.key@)
    }

    /// Wraps an exactly 32-byte public key already known to be valid.
    pub fn new(key: [u8; 32]) -> (r: Self)
        requires
            spec_ed25519_key_valid(key@),
        ensures
            r.spec_key() == key@,
    {
        Self { key }
    }

    /// Accepts exactly 32 bytes that decode to a valid public key; any
    /// other length is an invalid key length, and 32 bytes that decode to
    /// no valid key are a decode error.
    pub fn try_new(key: &[u8]) -> (r: Result<Self, ProcessError>)
        ensures
            match r {
                Ok(v) => key@.len() == 32 && spec_ed25519_key_valid(key@) && v.spec_key() == key@,
                Err(e) => (key@.len() != 32 && e == ProcessError::InvalidKeyLength) || (key@.len()
                    == 32 && !spec_ed25519_key_valid(key@) && e == ProcessError::DecodeError),
            },
    {
        if key.len() != 32 {
            return Err(ProcessError::InvalidKeyLength);
        }
        let arr = copy_to_32(key);
        if !ed25519_key_valid(&arr) {
            return Err(ProcessError::DecodeError);
        }
        Ok(Ed25519Verifier::new(arr))
    }

    /// Verifies a candidate signature over the full input. A candidate
    /// that is not exactly 64 bytes is an error; an unaccepted signature
    /// is an ordinary `false`.
    pub fn verify_bytes(&self, data: &[u8], sig: &[u8]) -> (r: Result<bool, ProcessError>)
        ensures
            match r {
                Ok(b) => sig@.len() == 64 && b == spec_ed25519_verifies(
                    self.spec_key(),
                    data@,
                    sig@,
                ),
                Err(e) => sig@.len() != 64 && e == ProcessError::InvalidKeyLength,
            },
    {
        proof {
            use_type_invariant(self);
        }
        if sig.len() != 64 {
            return Err(ProcessError::InvalidKeyLength);
        }
        Ok(ed25519_verify_raw(&self.key, data, sig))
    }
}

impl ChaChaPoly {
    /// The loaded key bytes.
    pub closed spec fn spec_cipher_key(&self) -> Seq<u8> {
        self.key@
    }

    /// The loaded nonce bytes.
    pub closed spec fn spec_nonce(&self) -> Seq<u8> {
        self.nonce@
    }

    /// Wraps an exactly 32-byte key and an exactly 12-byte nonce.
    pub fn new(key: [u8; 32], nonce: [u8; 12]) -> (r: Self)
        ensures
            r.spec_cipher_key() == key@,
            r.spec_nonce() == nonce@,
    {
        Self { key, nonce }
    }

    /// Accepts exactly 32 key bytes and 12 nonce bytes; any other lengths
    /// are rejected as an invalid key length.
    pub fn try_new(key: &[u8], nonce: &[u8]) -> (r: Result<Self, ProcessError>)
        ensures
            match r {
                Ok(c) => key@.len() == 32 && nonce@.len() == 12 && c.spec_cipher_key() == key@
                    && c.spec_nonce() == nonce@,
                Err(e) => (key@.len() != 32 || nonce@.len() != 12) && e
                    == ProcessError::InvalidKeyLength,
            },
    {
        if key.len() != 32 || nonce.len() != 12 {
            return Err(ProcessError::InvalidKeyLength);
        }
        Ok(ChaChaPoly::new(copy_to_32(key), copy_to_12(nonce)))
    }

    /// Seals the full plaintext with the loaded key and nonce and encodes
    /// the sealed bytes as URL-safe unpadded base64. The produced text
    /// decodes back to the sealed bytes, and opening those with the same
    /// key and nonce gives the plaintext back.
    pub fn encrypt(&self, data: &[u8]) -> (r: Result<String, ProcessError>)
        requires
            data@.len() <= 0xFFFF_FFFF,
        ensures
            match r {
                Ok(ct) => {
                    &&& ct@ == spec_b64url_encode(
                        spec_chacha_seal(self.spec_cipher_key(), self.spec_nonce(), data@),
                    )
                    &&& spec_b64url_decode(ct@) == Some(
                        spec_chacha_seal(self.spec_cipher_key(), self.spec_nonce(), data@),
                    )
                    &&& spec_chacha_open(
                        self.spec_cipher_key(),
                        self.spec_nonce(),
                        spec_chacha_seal(self.spec_cipher_key(), self.spec_nonce(), data@),
                    ) == Some(data@)
                },
                Err(_) => false,
            },
    {
        let sealed = chacha_seal(&self.key, &self.nonce, data);
        Ok(b64url_encode(sealed.as_slice()))
    }

    /// Decodes the base64 text, opens the sealed bytes with the loaded
    /// key and nonce, and returns the plaintext as text. Text that is no
    /// valid encoding, or a plaintext that is no valid UTF-8, is a decode
    /// error; a mismatched authentication tag is an authentication
    /// failure, and no partial plaintext is returned.
    pub fn decrypt(&self, data: &str) -> (r: Result<String, ProcessError>)
        ensures
            match r {
                Ok(s) => spec_aead_decrypt(self.spec_cipher_key(), self.spec_nonce(), data@)
                    == Ok::<Seq<char>, ProcessError>(s@),
                Err(e) => spec_aead_decrypt(self.spec_cipher_key(), self.spec_nonce(), data@)
                    == Err::<Seq<char>, ProcessError>(e),
            },
    {
        let decoded = match b64url_decode(data) {
            Some(v) => v,
            None => {
                return Err(ProcessError::DecodeError);
            },
        };
        let opened = match chacha_open(&self.key, &self.nonce, decoded.as_slice()) {
            Some(p) => p,
            None => {
                return Err(ProcessError::AuthenticationFailure);
            },
        };
        match string_from_utf8(opened) {
            Some(s) => Ok(s),
            None => Err(ProcessError::DecodeError),
        }
    }

    /// Generates the key material: a fresh 32-byte key and a fresh
    /// 12-byte nonce from the secure random source, in that order.
    pub fn generate_keys() -> (r: Result<Vec<Vec<u8>>, ProcessError>)
        ensures
            match r {
                Ok(v) => v@.len() == 2 && v@[0]@.len() == 32 && v@[1]@.len() == 12,
                Err(_) => false,
            },
    {
        let key = chacha_generate_key();
        let nonce = chacha_generate_nonce();
        let mut out: Vec<Vec<u8>> = Vec::new();
        out.push(key);
        out.push(nonce);
        Ok(out)
    }
}

/// What decrypting base64 text with the authenticated cipher yields: the
/// decoded plaintext as text, or the first failure on the way there.
pub open spec fn spec_aead_decrypt(key: Seq<u8>, nonce: Seq<u8>, text: Seq<char>) -> Result<
    Seq<char>,
    ProcessError,
> {
    match spec_b64url_decode(text) {
        None => Err(ProcessError::DecodeError),
        Some(sealed) => match spec_chacha_open(key, nonce, sealed) {
            None => Err(ProcessError::AuthenticationFailure),
            Some(plain) => if vstd::utf8::valid_utf8(plain) {
                Ok(vstd::utf8::decode_utf8(plain))
            } else {
                Err(ProcessError::DecodeError)
            },
        },
    }
}

impl TextSign for Black3 {
    fn sign(&self, data: &[u8]) -> Result<Vec<u8>, ProcessError> {
        Ok(self.sign_bytes(data))
    }
}

impl TextVerify for Black3 {
    fn verify(&self, data: &[u8], sig: &[u8]) -> Result<bool, ProcessError> {
        Ok(self.verify_bytes(data, sig))
    }
}

impl TextSign for Ed25519Signer {
    fn sign(&self, data: &[u8]) -> Result<Vec<u8>, ProcessError> {
        Ok(self.sign_bytes(data))
    }
}

impl TextVerify for Ed25519Verifier {
    fn verify(&self, data: &[u8], sig: &[u8]) -> Result<bool, ProcessError> {
        self.verify_bytes(data, sig)
    }
}

impl KeyLoader for Black3 {
    fn load(sources: &[Vec<u8>]) -> Result<Self, ProcessError> {
        if sources.len() < 1 {
            return Err(ProcessError::InvalidKeyLength);
        }
        Black3::try_new(sources[0].as_slice())
    }
}

impl KeyLoader for Ed25519Signer {
    fn load(sources: &[Vec<u8>]) -> Result<Self, ProcessError> {
        if sources.len() < 1 {
            return Err(ProcessError::InvalidKeyLength);
        }
        Ed25519Signer::try_new(sources[0].as_slice())
    }
}

impl KeyLoader for Ed25519Verifier {
    fn load(sources: &[Vec<u8>]) -> Result<Self, ProcessError> {
        if sources.len() < 1 {
            return Err(ProcessError::InvalidKeyLength);
        }
        Ed25519Verifier::try_new(sources[0].as_slice())
    }
}

impl KeyLoader for ChaChaPoly {
    fn load(sources: &[Vec<u8>]) -> Result<Self, ProcessError> {
        if sources.len() < 2 {
            return Err(ProcessError::InvalidKeyLength);
        }
        ChaChaPoly::try_new(sources[0].as_slice(), sources[1].as_slice())
    }
}

impl KeyGenerator for Black3 {
    fn generate() -> Result<Vec<Vec<u8>>, ProcessError> {
        Black3::generate_keys()
    }
}

impl KeyGenerator for Ed25519Signer {
    fn generate() -> Result<Vec<Vec<u8>>, ProcessError> {
        Ed25519Signer::generate_keys()
    }
}

impl KeyGenerator for ChaChaPoly {
    fn generate() -> Result<Vec<Vec<u8>>, ProcessError> {
        ChaChaPoly::generate_keys()
    }
}

/// What signing yields for each format: the URL-safe base64 text of the
/// raw signature for the two signing algorithms, an invalid-key-length
/// error for a key that is not exactly 32 bytes, and an unsupported-
/// format error for the cipher, which does not sign.
pub open spec fn spec_text_sign(data: Seq<u8>, key: Seq<u8>, format: TextSignFormat) -> Result<
    Seq<char>,
    ProcessError,
> {
    match format {
        TextSignFormat::Blake3 => if key.len() == 32 {
            Ok(spec_b64url_encode(spec_blake3_keyed(key, data)))
        } else {
            Err(ProcessError::InvalidKeyLength)
        },
        TextSignFormat::Ed25519 => if key.len() == 32 {
            Ok(spec_b64url_encode(spec_ed25519_sign(key, data)))
        } else {
            Err(ProcessError::InvalidKeyLength)
        },
        TextSignFormat::ChaChaPoly => Err(ProcessError::UnsupportedFormat),
    }
}

/// The key a verifier of the given format checks against, when the signer
/// held `key`: the same key for the keyed hash, the derived public key
/// for the asymmetric scheme.
pub open spec fn spec_verify_key_for(key: Seq<u8>, format: TextSignFormat) -> Seq<u8> {
    match format {
        TextSignFormat::Ed25519 => spec_ed25519_public(key),
        _ => key,
    }
}

/// What verifying yields for each format. The signature text is base64-
/// decoded first: text that is no valid encoding is a decode error,
/// whatever the format. The cipher does not verify. For the keyed hash,
/// any decoded candidate is compared against the recomputed digest; for
/// the asymmetric scheme, a key that decodes to no valid point is a
/// decode error and a candidate that is not exactly 64 bytes is an
/// invalid key length.
pub open spec fn spec_text_verify(
    data: Seq<u8>,
    key: Seq<u8>,
    format: TextSignFormat,
    sig_text: Seq<char>,
) -> Result<bool, ProcessError> {
    match spec_b64url_decode(sig_text) {
        None => Err(ProcessError::DecodeError),
        Some(sig) => match format {
            TextSignFormat::Blake3 => if key.len() == 32 {
                Ok(spec_blake3_verifies(key, data, sig))
            } else {
                Err(ProcessError::InvalidKeyLength)
            },
            TextSignFormat::Ed25519 => if key.len() != 32 {
                Err(ProcessError::InvalidKeyLength)
            } else if !spec_ed25519_key_valid(key) {
                Err(ProcessError::DecodeError)
            } else if sig.len() != 64 {
                Err(ProcessError::InvalidKeyLength)
            } else {
                Ok(spec_ed25519_verifies(key, data, sig))
            },
            TextSignFormat::ChaChaPoly => Err(ProcessError::UnsupportedFormat),
        },
    }
}

/// Signs fully read input bytes with a fully read key under the chosen
/// format. A produced signature text always verifies: checking it over
/// the same input against the matching verification key yields `true`.
pub fn process_text_sign(data: &[u8], key: &[u8], format: TextSignFormat) -> (r: Result<
    String,
    ProcessError,
>)
    ensures
        match r {
            Ok(s) => spec_text_sign(data@, key@, format) == Ok::<Seq<char>, ProcessError>(s@),
            Err(e) => spec_text_sign(data@, key@, format) == Err::<Seq<char>, ProcessError>(e),
        },
        r matches Ok(s) ==> spec_text_verify(data@, spec_verify_key_for(key@, format), format, s@)
            == Ok::<bool, ProcessError>(true),
{
    match format {
        TextSignFormat::Blake3 => {
            let signer = match Black3::try_new(key) {
                Ok(s) => s,
                Err(e) => {
                    return Err(e);
                },
            };
            let raw = signer.sign_bytes(data);
            Ok(b64url_encode(raw.as_slice()))
        },
        TextSignFormat::Ed25519 => {
            let signer = match Ed25519Signer::try_new(key) {
                Ok(s) => s,
                Err(e) => {
                    return Err(e);
                },
            };
            let raw = signer.sign_bytes(data);
            Ok(b64url_encode(raw.as_slice()))
        },
        TextSignFormat::ChaChaPoly => Err(ProcessError::UnsupportedFormat),
    }
}

/// Verifies a base64 signature text over fully read input bytes with a
/// fully read key under the chosen format. A mismatched signature is the
/// ordinary result `false`; only a malformed request is an error.
pub fn process_text_verify(data: &[u8], key: &[u8], format: TextSignFormat, sig: &str) -> (r:
    Result<bool, ProcessError>)
    ensures
        match r {
            Ok(b) => spec_text_verify(data@, key@, format, sig@) == Ok::<bool, ProcessError>(b),
            Err(e) => spec_text_verify(data@, key@, format, sig@) == Err::<bool, ProcessError>(e),
        },
{
    let raw = match b64url_decode(sig) {
        Some(v) => v,
        None => {
            return Err(ProcessError::DecodeError);
        },
    };
    match format {
        TextSignFormat::Blake3 => {
            let verifier = match Black3::try_new(key) {
                Ok(v) => v,
                Err(e) => {
                    return Err(e);
                },
            };
            Ok(verifier.verify_bytes(data, raw.as_slice()))
        },
        TextSignFormat::Ed25519 => {
            let verifier = match Ed25519Verifier::try_new(key) {
                Ok(v) => v,
                Err(e) => {
                    return Err(e);
                },
            };
            verifier.verify_bytes(data, raw.as_slice())
        },
        TextSignFormat::ChaChaPoly => Err(ProcessError::UnsupportedFormat),
    }
}

/// Generates fresh key material for the chosen format: one 32-byte buffer
/// for the keyed hash; a 32-byte private seed then its 32-byte public key
/// for the asymmetric scheme; a 32-byte key then a 12-byte nonce for the
/// cipher.
pub fn process_text_generate(format: TextSignFormat) -> (r: Result<Vec<Vec<u8>>, ProcessError>)
    ensures
        r is Ok,
        r matches Ok(v) ==> match format {
            TextSignFormat::Blake3 => v@.len() == 1 && v@[0]@.len() == 32 && forall|i: int|
                0 <= i < v@[0]@.len() ==> crate::process::gen_pass::spec_allowed(
                    true,
                    true,
                    true,
                    true,
                    #[trigger] v@[0]@[i],
                ),
            TextSignFormat::Ed25519 => v@.len() == 2 && v@[0]@.len() == 32 && v@[1]@.len() == 32
                && v@[1]@ == spec_ed25519_public(v@[0]@) && spec_ed25519_key_valid(v@[1]@),
            TextSignFormat::ChaChaPoly => v@.len() == 2 && v@[0]@.len() == 32 && v@[1]@.len()
                == 12,
        },
{
    match format {
        TextSignFormat::Blake3 => Black3::generate_keys(),
        TextSignFormat::Ed25519 => Ed25519Signer::generate_keys(),
        TextSignFormat::ChaChaPoly => ChaChaPoly::generate_keys(),
    }
}

/// What encrypting yields: the base64 text of the sealed plaintext, or an
/// invalid-key-length error when key or nonce have the wrong size.
pub open spec fn spec_text_encrypt(data: Seq<u8>, key: Seq<u8>, nonce: Seq<u8>) -> Result<
    Seq<char>,
    ProcessError,
> {
    if key.len() == 32 && nonce.len() == 12 {
        Ok(spec_b64url_encode(spec_chacha_seal(key, nonce, data)))
    } else {
        Err(ProcessError::InvalidKeyLength)
    }
}

/// What decrypting yields: the opened plaintext as text, the first
/// failure on the way there, or an invalid-key-length error when key or
/// nonce have the wrong size.
pub open spec fn spec_text_decrypt(data: Seq<char>, key: Seq<u8>, nonce: Seq<u8>) -> Result<
    Seq<char>,
    ProcessError,
> {
    if key.len() == 32 && nonce.len() == 12 {
        spec_aead_decrypt(key, nonce, data)
    } else {
        Err(ProcessError::InvalidKeyLength)
    }
}

/// Encrypts fully read plaintext bytes with fully read key and nonce
/// bytes. The produced text decodes to sealed bytes that open back to
/// exactly the plaintext under the same key and nonce; decrypting the
/// produced text under them returns the plaintext whenever it is valid
/// UTF-8.
pub fn process_text_encrypt(data: &[u8], key: &[u8], nonce: &[u8]) -> (r: Result<
    String,
    ProcessError,
>)
    requires
        data@.len() <= 0xFFFF_FFFF,
    ensures
        match r {
            Ok(s) => spec_text_encrypt(data@, key@, nonce@) == Ok::<Seq<char>, ProcessError>(s@),
            Err(e) => spec_text_encrypt(data@, key@, nonce@) == Err::<Seq<char>, ProcessError>(e),
        },
        r matches Ok(s) ==> spec_chacha_open(key@, nonce@, spec_chacha_seal(key@, nonce@, data@))
            == Some(data@),
        r matches Ok(s) ==> (vstd::utf8::valid_utf8(data@) ==> spec_text_decrypt(s@, key@, nonce@)
            == Ok::<Seq<char>, ProcessError>(vstd::utf8::decode_utf8(data@))),
{
    let cipher = match ChaChaPoly::try_new(key, nonce) {
        Ok(c) => c,
        Err(e) => {
            return Err(e);
        },
    };
    cipher.encrypt(data)
}

/// Decrypts base64 ciphertext text with fully read key and nonce bytes.
/// A mismatched authentication tag is an authentication failure and no
/// plaintext is returned.
pub fn process_text_decrypt(data: &str, key: &[u8], nonce: &[u8]) -> (r: Result<
    String,
    ProcessError,
>)
    ensures
        match r {
            Ok(s) => spec_text_decrypt(data@, key@, nonce@) == Ok::<Seq<char>, ProcessError>(s@),
            Err(e) => spec_text_decrypt(data@, key@, nonce@) == Err::<Seq<char>, ProcessError>(e),
        },
{
    let cipher = match ChaChaPoly::try_new(key, nonce) {
        Ok(c) => c,
        Err(e) => {
            return Err(e);
        },
    };
    cipher.decrypt(data)
}

/// Law: for the keyed-hash algorithm, the signature produced over an
/// input verifies against that input under the same key.
pub proof fn lemma_blake3_sign_verify(key: Seq<u8>, data: Seq<u8>)
    ensures
        spec_blake3_verifies(key, data, spec_blake3_keyed(key, data)),
{
}

/// Law: for the keyed-hash algorithm, every candidate signature other
/// than the recomputed digest is rejected.
pub proof fn lemma_blake3_reject_wrong_sig(key: Seq<u8>, data: Seq<u8>, sig: Seq<u8>)
    requires
        sig != spec_blake3_keyed(key, data),
    ensures
        !spec_blake3_verifies(key, data, sig),
{
}

} // verus!
