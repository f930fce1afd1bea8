//! Field-level crypto codec.
//!
//! Two independent sealing schemes that must never be confused:
//!
//! * the confidentiality-only seal (`OpaqueCodec`): randomized authenticated
//!   encryption, a fresh nonce per call, so the same plaintext yields a
//!   different ciphertext each time; for values only ever decrypted again for
//!   outbound transmission;
//! * the lookup-preserving seal (`LookupCodec`): deterministic authenticated
//!   encryption (a nonce-misuse-resistant mode with a fixed nonce), so the
//!   ciphertext can serve as an equality-filter key in storage.
//!
//! The two schemes produce values of two distinct types, [`OpaqueSealed`] and
//! [`LookupSealed`], so that sealing a field with one scheme and opening it
//! with the other is a compile-time error rather than a silent lookup failure.

use vstd::prelude::*;

use aes_gcm::aead::rand_core::RngCore;
use aes_gcm::aead::{Aead, KeyInit, OsRng};
use base64::Engine;

verus! {

/// Byte length every codec key must have.
pub const KEY_LEN: usize = 32;

/// Upper bound, in characters, on a plaintext handed to a seal operation;
/// keeps the encoded byte length far below the AEAD's plaintext limit.
pub const SEAL_MAX_LEN: usize = 0x4000_0000;

/// A ciphertext produced by the lookup-preserving (deterministic) seal.
/// Equal plaintexts sealed under the same key yield equal `data`, so the
/// value may be used as an equality-filter key at rest.
pub struct LookupSealed {
    pub data: String,
}

/// A ciphertext produced by the confidentiality-only (randomized) seal.
/// Two seals of the same plaintext are unrelated as values; never use this
/// as a lookup key.
pub struct OpaqueSealed {
    pub data: String,
}

impl LookupSealed {
    /// A copy that is equal as a value to the original.
    pub fn dup(&self) -> (r: LookupSealed)
        ensures
            r == *self,
    {
        LookupSealed { data: self.data.clone() }
    }
}

impl OpaqueSealed {
    /// A copy that is equal as a value to the original.
    pub fn dup(&self) -> (r: OpaqueSealed)
        ensures
            r == *self,
    {
        OpaqueSealed { data: self.data.clone() }
    }
}

/// The ciphertext that the lookup-preserving seal produces for a key and a
/// plaintext. Deterministic encryption makes this a function of the two
/// arguments alone.
pub uninterp spec fn lookup_sealed_of(key: Seq<u8>, plain: Seq<char>) -> Seq<char>;

/// What opening a lookup-preserving ciphertext under a key returns: the
/// original plaintext for a ciphertext sealed under that key, `None` for
/// text that does not authenticate. Decryption is a function of the key and
/// the ciphertext alone.
pub uninterp spec fn lookup_opened_of(key: Seq<u8>, sealed: Seq<char>) -> Option<Seq<char>>;

/// What opening a confidentiality-only ciphertext under a key returns.
/// The seal draws a fresh nonce per call, but the nonce travels inside the
/// ciphertext, so opening is still a function of the key and the ciphertext.
pub uninterp spec fn opened_of(key: Seq<u8>, sealed: Seq<char>) -> Option<Seq<char>>;

/// Codec for the lookup-preserving (deterministic) seal.
pub struct LookupCodec {
    key: Vec<u8>,
}

impl LookupCodec {
    /// The key material, for contracts.
    pub closed spec fn key_view(&self) -> Seq<u8> {
        self.key@
    }

    /// A codec is well formed when its key has the required length.
    pub closed spec fn wf(&self) -> bool {
        self.key@.len() == KEY_LEN
    }

    /// Builds a codec from raw key bytes; exactly the 32-byte keys are
    /// accepted.
    pub fn new(key: Vec<u8>) -> (r: Option<LookupCodec>)
        ensures
            r is Some <==> key@.len() == KEY_LEN,
            r matches Some(c) ==> c.wf() && c.key_view() == key@,
    {
        if key.len() == KEY_LEN {
            Some(LookupCodec { key })
        } else {
            None
        }
    }

    /// Relies on `aes_gcm_siv::Aes256GcmSiv::encrypt` with a fixed all-zero
    /// nonce and `base64::engine::general_purpose::STANDARD.encode`: under a
    /// fixed nonce the ciphertext depends on the key and the plaintext alone,
    /// encryption only fails for plaintexts beyond the AEAD's length bound
    /// (excluded by `requires`), and decrypting the ciphertext under the same
    /// key yields the plaintext back.
    #[verifier::external_body]
    pub fn seal_lookup(&self, plain: &str) -> (r: LookupSealed)
        requires
            self.wf(),
            plain@.len() <= SEAL_MAX_LEN,
        ensures
            r.data@ == lookup_sealed_of(self.key_view(), plain@),
            lookup_opened_of(self.key_view(), r.data@) == Some(plain@),
    {
        let key = aes_gcm_siv::Key::<aes_gcm_siv::Aes256GcmSiv>::from_slice(&self.key);
        let cipher = aes_gcm_siv::Aes256GcmSiv::new(key);
        let nonce = aes_gcm_siv::Nonce::from_slice(&[0u8; 12]);
        let ciphertext = cipher
            .encrypt(nonce, plain.as_bytes())
            .expect("plaintext within the AEAD length bound");
        LookupSealed { data: base64::engine::general_purpose::STANDARD.encode(ciphertext) }
    }

    /// Relies on `base64::engine::general_purpose::STANDARD.decode`,
    /// `aes_gcm_siv::Aes256GcmSiv::decrypt` with the fixed all-zero nonce, and
    /// `String::from_utf8`: all three are functions of their inputs, and each
    /// failure (malformed encoding, failed authentication, non-UTF-8
    /// plaintext) surfaces as `None`.
    #[verifier::external_body]
    pub fn open_lookup(&self, sealed: &LookupSealed) -> (r: Option<String>)
        requires
            self.wf(),
        ensures
            r matches Some(p) ==> lookup_opened_of(self.key_view(), sealed.data@) == Some(p@),
            r is None ==> lookup_opened_of(self.key_view(), sealed.data@) is None,
    {
        let key = aes_gcm_siv::Key::<aes_gcm_siv::Aes256GcmSiv>::from_slice(&self.key);
        let cipher = aes_gcm_siv::Aes256GcmSiv::new(key);
        let nonce = aes_gcm_siv::Nonce::from_slice(&[0u8; 12]);
        let decoded = base64::engine::general_purpose::STANDARD.decode(&sealed.data).ok()?;
        let plain = cipher.decrypt(nonce, decoded.as_slice()).ok()?;
        String::from_utf8(plain).ok()
    }
}

/// Codec for the confidentiality-only (randomized) seal.
pub struct OpaqueCodec {
    key: Vec<u8>,
}

impl OpaqueCodec {
    /// The key material, for contracts.
    pub closed spec fn key_view(&self) -> Seq<u8> {
        self.key@
    }

    /// A codec is well formed when its key has the required length.
    pub closed spec fn wf(&self) -> bool {
        self.key@.len() == KEY_LEN
    }

    /// Builds a codec from raw key bytes; exactly the 32-byte keys are
    /// accepted.
    pub fn new(key: Vec<u8>) -> (r: Option<OpaqueCodec>)
        ensures
            r is Some <==> key@.len() == KEY_LEN,
            r matches Some(c) ==> c.wf() && c.key_view() == key@,
    {
        if key.len() == KEY_LEN {
            Some(OpaqueCodec { key })
        } else {
            None
        }
    }

    /// Relies on `aes_gcm::Aes256Gcm::encrypt` with a fresh 12-byte nonce
    /// drawn from `OsRng` and prepended to the ciphertext, then
    /// `base64::engine::general_purpose::STANDARD.encode`: whatever nonce was
    /// drawn, decrypting the result under the same key yields the plaintext
    /// back; encryption only fails for plaintexts beyond the AEAD's length
    /// bound (excluded by `requires`).
    #[verifier::external_body]
    pub fn seal(&self, plain: &str) -> (r: OpaqueSealed)
        requires
            self.wf(),
            plain@.len() <= SEAL_MAX_LEN,
        ensures
            opened_of(self.key_view(), r.data@) == Some(plain@),
    {
        let key = aes_gcm::Key::<aes_gcm::Aes256Gcm>::from_slice(&self.key);
        let cipher = aes_gcm::Aes256Gcm::new(key);
        let mut nonce_bytes = [0u8; 12];
        OsRng.fill_bytes(&mut nonce_bytes);
        let nonce = aes_gcm::Nonce::from_slice(&nonce_bytes);
        let ciphertext = cipher
            .encrypt(nonce, plain.as_bytes())
            .expect("plaintext within the AEAD length bound");
        let mut framed = nonce_bytes.to_vec();
        framed.extend_from_slice(&ciphertext);
        OpaqueSealed { data: base64::engine::general_purpose::STANDARD.encode(framed) }
    }

    /// Relies on `base64::engine::general_purpose::STANDARD.decode` and
    /// `aes_gcm::Aes256Gcm::decrypt` with the 12-byte nonce carried as the
    /// prefix of the decoded bytes, then `String::from_utf8`: all are
    /// functions of their inputs, and each failure (malformed encoding, too
    /// short to carry a nonce, failed authentication, non-UTF-8 plaintext)
    /// surfaces as `None`.
    #[verifier::external_body]
    pub fn open(&self, sealed: &OpaqueSealed) -> (r: Option<String>)
        requires
            self.wf(),
        ensures
            r matches Some(p) ==> opened_of(self.key_view(), sealed.data@) == Some(p@),
            r is None ==> opened_of(self.key_view(), sealed.data@) is None,
    {
        let key = aes_gcm::Key::<aes_gcm::Aes256Gcm>::from_slice(&self.key);
        let cipher = aes_gcm::Aes256Gcm::new(key);
        let decoded = base64::engine::general_purpose::STANDARD.decode(&sealed.data).ok()?;
        if decoded.len() < 12 {
            return None;
        }
        let (nonce_bytes, ciphertext) = decoded.split_at(12);
        let nonce = aes_gcm::Nonce::from_slice(nonce_bytes);
        let plain = cipher.decrypt(nonce, ciphertext).ok()?;
        String::from_utf8(plain).ok()
    }
}

/// The lookup-preserving seal round-trips: opening what was just sealed
/// gives the original plaintext back.
pub fn lookup_seal_round_trip(codec: &LookupCodec, plain: &str) -> (r: Option<String>)
    requires
        codec.wf(),
        plain@.len() <= SEAL_MAX_LEN,
    ensures
        r matches Some(p) && p@ == plain@,
{
    let sealed = codec.seal_lookup(plain);
    codec.open_lookup(&sealed)
}

/// The lookup-preserving seal is a pure function of key and plaintext: two
/// seals of the same plaintext under the same codec are equal ciphertexts.
pub fn lookup_seal_deterministic(codec: &LookupCodec, plain: &str) -> (r: bool)
    requires
        codec.wf(),
        plain@.len() <= SEAL_MAX_LEN,
    ensures
        r,
{
    let first = codec.seal_lookup(plain);
    let second = codec.seal_lookup(plain);
    first.data == second.data
}

/// The confidentiality-only seal round-trips as well: whatever nonce the
/// seal drew, opening under the same key gives the plaintext back.
pub fn opaque_seal_round_trip(codec: &OpaqueCodec, plain: &str) -> (r: Option<String>)
    requires
        codec.wf(),
        plain@.len() <= SEAL_MAX_LEN,
    ensures
        r matches Some(p) && p@ == plain@,
{
    let sealed = codec.seal(plain);
    codec.open(&sealed)
}

} // verus!
