use vstd::prelude::*;
use vstd::utf8::{decode_utf8, encode_utf8, valid_utf8};

use base64::Engine;
use ring::aead::{Aad, LessSafeKey, Nonce, UnboundKey, CHACHA20_POLY1305};
use ring::rand::{SecureRandom, SystemRandom};

use crate::note::{byte_len, NoteError, MAX_CONTENT_BYTES};

verus! {

/// Bytes in a ChaCha20-Poly1305 nonce.
pub const NONCE_LEN: usize = 12;

/// Bytes of authentication tag that sealing appends.
pub const TAG_LEN: usize = 16;

/// What ChaCha20-Poly1305 yields when it seals `plain` under `key` and
/// `nonce` with empty associated data: ciphertext followed by the tag.
pub uninterp spec fn chacha_sealed(key: Seq<u8>, nonce: Seq<u8>, plain: Seq<u8>) -> Seq<u8>;

/// What ChaCha20-Poly1305 yields when it opens `sealed` under `key` and
/// `nonce` with empty associated data: `None` when the tag does not verify.
pub uninterp spec fn chacha_opened(key: Seq<u8>, nonce: Seq<u8>, sealed: Seq<u8>) -> Option<Seq<u8>>;

/// The standard, padded base64 text of some bytes.
pub uninterp spec fn base64_text(bytes: Seq<u8>) -> Seq<char>;

/// The bytes that standard, padded base64 text stands for, if it is well formed.
pub uninterp spec fn base64_bytes(text: Seq<char>) -> Option<Seq<u8>>;

#[verifier::external_type_specification]
#[verifier::external_body]
pub struct ExSystemRandom(SystemRandom);

/// Relies on ring's `SystemRandom::new`, which only builds a handle.
pub assume_specification[ SystemRandom::new ]() -> SystemRandom;

/// Relies on ring's `SecureRandom::fill` for `SystemRandom`: twelve bytes from
/// the operating system's generator, or `None` when it fails.
#[verifier::external_body]
fn fill_nonce(rng: &SystemRandom) -> (r: Option<[u8; 12]>) {
    let mut n = [0u8; 12];
    rng.fill(&mut n).ok().map(|_| n)
}

/// Relies on ring's `LessSafeKey::seal_in_place_append_tag` for
/// ChaCha20-Poly1305. The key is built with `UnboundKey::new`, which accepts
/// any 32-byte key; sealing fails only on input longer than 274,877,906,880 bytes.
#[verifier::external_body]
fn chacha_seal(key: &[u8; 32], nonce: &[u8; 12], plain: &[u8]) -> (r: Option<Vec<u8>>)
    ensures
        plain@.len() <= 274_877_906_880 ==> r is Some,
        r is Some ==> r->0@ == chacha_sealed(key@, nonce@, plain@),
        r is Some ==> r->0@.len() == plain@.len() + TAG_LEN,
        r is Some ==> chacha_opened(key@, nonce@, r->0@) == Some(plain@),
{
    let k = LessSafeKey::new(UnboundKey::new(&CHACHA20_POLY1305, key).ok()?);
    let mut in_out = plain.to_vec();
    k.seal_in_place_append_tag(Nonce::assume_unique_for_key(*nonce), Aad::empty(), &mut in_out)
        .ok()
        .map(|_| in_out)
}

/// Relies on ring's `LessSafeKey::open_in_place` for ChaCha20-Poly1305.
#[verifier::external_body]
fn chacha_open(key: &[u8; 32], nonce: &[u8; 12], sealed: &[u8]) -> (r: Option<Vec<u8>>)
    ensures
        r is Some ==> chacha_opened(key@, nonce@, sealed@) == Some(r->0@),
        r is None ==> chacha_opened(key@, nonce@, sealed@) is None,
{
    let k = LessSafeKey::new(UnboundKey::new(&CHACHA20_POLY1305, key).ok()?);
    let mut in_out = sealed.to_vec();
    let n = k.open_in_place(Nonce::assume_unique_for_key(*nonce), Aad::empty(), &mut in_out).ok()?.len();
    in_out.truncate(n);
    Some(in_out)
}

/// Relies on base64's `STANDARD.encode`, whose output `STANDARD.decode`
/// reads back to the same bytes.
#[verifier::external_body]
pub(crate) fn encode_base64(bytes: &[u8]) -> (r: String)
    ensures
        r@ == base64_text(bytes@),
        base64_bytes(r@) == Some(bytes@),
{
    base64::engine::general_purpose::STANDARD.encode(bytes)
}

/// Relies on base64's `STANDARD.decode`.
#[verifier::external_body]
pub(crate) fn decode_base64(text: &str) -> (r: Option<Vec<u8>>)
    ensures
        r is Some ==> base64_bytes(text@) == Some(r->0@),
        r is None ==> base64_bytes(text@) is None,
{
    base64::engine::general_purpose::STANDARD.decode(text).ok()
}

/// Relies on `String::from_utf8`: it accepts exactly the valid UTF-8 byte
/// strings and keeps the characters they encode.
#[verifier::external_body]
fn string_from_utf8(bytes: Vec<u8>) -> (r: Option<String>)
    ensures
        r is Some <==> valid_utf8(bytes@),
        r matches Some(s) ==> s@ == decode_utf8(bytes@),
{
    String::from_utf8(bytes).ok()
}

/// The fixed all-zero 256-bit key that every note is sealed under.
///
/// This gives no confidentiality between installations; it is kept so that
/// every note already stored stays readable.
pub open spec fn cipher_key() -> Seq<u8> {
    Seq::new(32, |i: int| 0u8)
}

fn cipher_key_bytes() -> (r: [u8; 32])
    ensures
        r@ == cipher_key(),
{
    let r = [0u8; 32];
    assert(r@ =~= cipher_key());
    r
}

/// The sealed bytes (ciphertext and tag) of a plaintext under a nonce.
pub open spec fn sealed_bytes(nonce: Seq<u8>, plain: Seq<char>) -> Seq<u8> {
    chacha_sealed(cipher_key(), nonce, encode_utf8(plain))
}

/// What opening some sealed bytes under a nonce owes.
pub open spec fn open_result(sealed: Seq<u8>, nonce: Seq<u8>) -> Result<Seq<char>, NoteError> {
    if nonce.len() != NONCE_LEN {
        Err(NoteError::InvalidNonce)
    } else {
        match chacha_opened(cipher_key(), nonce, sealed) {
            None => Err(NoteError::DecryptionFailed),
            Some(p) => if valid_utf8(p) {
                Ok(decode_utf8(p))
            } else {
                Err(NoteError::CorruptEnvelope)
            },
        }
    }
}

/// A sealed note body in its stored form: both halves as base64 text.
#[derive(Debug, Clone)]
pub struct Envelope {
    pub ciphertext: String,
    pub nonce: String,
}

/// The stored form of a plaintext sealed under a nonce.
pub open spec fn envelope_text(nonce: Seq<u8>, plain: Seq<char>) -> (Seq<char>, Seq<char>) {
    (base64_text(sealed_bytes(nonce, plain)), base64_text(nonce))
}

/// What opening a stored envelope owes.
/// The nonce is decoded and its length checked before the ciphertext is
/// looked at, so a nonce of the wrong length is `InvalidNonce` whatever the
/// ciphertext holds.
pub open spec fn open_text_result(ciphertext: Seq<char>, nonce: Seq<char>) -> Result<Seq<char>, NoteError> {
    match base64_bytes(nonce) {
        None => Err(NoteError::CorruptEnvelope),
        Some(n) => if n.len() != NONCE_LEN {
            Err(NoteError::InvalidNonce)
        } else {
            match base64_bytes(ciphertext) {
                None => Err(NoteError::CorruptEnvelope),
                Some(c) => open_result(c, n),
            }
        },
    }
}

/// Draws a fresh nonce from the system's secure generator.
pub fn draw_nonce() -> (r: Result<[u8; 12], NoteError>)
    ensures
        r is Err ==> r == Err::<[u8; 12], NoteError>(NoteError::EncryptionFailed),
{
    let rng = SystemRandom::new();
    match fill_nonce(&rng) {
        Some(n) => Ok(n),
        None => Err(NoteError::EncryptionFailed),
    }
}

/// Seals a plaintext under a given nonce.
pub fn seal_with_nonce(plain: &str, nonce: &[u8; 12]) -> (r: Vec<u8>)
    requires
        byte_len(plain@) <= MAX_CONTENT_BYTES,
    ensures
        r@ == sealed_bytes(nonce@, plain@),
        r@.len() == byte_len(plain@) + TAG_LEN,
        open_result(r@, nonce@) == Ok::<Seq<char>, NoteError>(plain@),
{
    let key = cipher_key_bytes();
    match chacha_seal(&key, nonce, plain.as_bytes()) {
        Some(s) => {
            proof {
                vstd::utf8::encode_utf8_valid_utf8(plain@);
                vstd::utf8::encode_utf8_decode_utf8(plain@);
            }
            s
        },
        None => {
            assert(false);
            Vec::new()
        },
    }
}

/// Seals a plaintext under a freshly drawn nonce, giving the sealed bytes and
/// the nonce they were sealed under; opening them under that nonce gives the
/// plaintext back.
pub fn seal(plain: &str) -> (r: Result<(Vec<u8>, [u8; 12]), NoteError>)
    requires
        byte_len(plain@) <= MAX_CONTENT_BYTES,
    ensures
        r matches Ok((s, n)) ==> s@ == sealed_bytes(n@, plain@),
        r matches Ok((s, n)) ==> open_result(s@, n@) == Ok::<Seq<char>, NoteError>(plain@),
        r is Err ==> r == Err::<(Vec<u8>, [u8; 12]), NoteError>(NoteError::EncryptionFailed),
{
    let nonce = draw_nonce()?;
    let sealed = seal_with_nonce(plain, &nonce);
    Ok((sealed, nonce))
}

/// Opens sealed bytes under a nonce. A nonce of any length but twelve is
/// refused before the cipher runs.
pub fn open(sealed: &[u8], nonce: &[u8]) -> (r: Result<String, NoteError>)
    ensures
        r matches Ok(s) ==> open_result(sealed@, nonce@) == Ok::<Seq<char>, NoteError>(s@),
        r matches Err(e) ==> open_result(sealed@, nonce@) == Err::<Seq<char>, NoteError>(e),
        nonce@.len() != NONCE_LEN ==> r == Err::<String, NoteError>(NoteError::InvalidNonce),
{
    if nonce.len() != NONCE_LEN {
        return Err(NoteError::InvalidNonce);
    }
    let n: [u8; 12] = [
        nonce[0], nonce[1], nonce[2], nonce[3], nonce[4], nonce[5],
        nonce[6], nonce[7], nonce[8], nonce[9], nonce[10], nonce[11],
    ];
    assert(n@ =~= nonce@);
    let key = cipher_key_bytes();
    let plain = match chacha_open(&key, &n, sealed) {
        Some(p) => p,
        None => return Err(NoteError::DecryptionFailed),
    };
    match string_from_utf8(plain) {
        Some(s) => Ok(s),
        None => Err(NoteError::CorruptEnvelope),
    }
}

/// Seals a plaintext under a given nonce into its stored base64 form.
pub fn seal_text_with_nonce(plain: &str, nonce: &[u8; 12]) -> (r: Envelope)
    requires
        byte_len(plain@) <= MAX_CONTENT_BYTES,
    ensures
        (r.ciphertext@, r.nonce@) == envelope_text(nonce@, plain@),
        open_text_result(r.ciphertext@, r.nonce@) == Ok::<Seq<char>, NoteError>(plain@),
        base64_bytes(r.ciphertext@) == Some(sealed_bytes(nonce@, plain@)),
        sealed_bytes(nonce@, plain@).len() == byte_len(plain@) + TAG_LEN,
{
    let sealed = seal_with_nonce(plain, nonce);
    Envelope { ciphertext: encode_base64(sealed.as_slice()), nonce: encode_base64(nonce) }
}

/// Opens an envelope in its stored base64 form. Malformed base64 on either
/// half is a corrupt envelope; a nonce of any length but twelve bytes is
/// refused before the ciphertext is decoded.
pub fn open_text(ciphertext: &str, nonce: &str) -> (r: Result<String, NoteError>)
    ensures
        r matches Ok(s) ==> open_text_result(ciphertext@, nonce@) == Ok::<Seq<char>, NoteError>(s@),
        r matches Err(e) ==> open_text_result(ciphertext@, nonce@) == Err::<Seq<char>, NoteError>(e),
{
    let n = match decode_base64(nonce) {
        Some(b) => b,
        None => return Err(NoteError::CorruptEnvelope),
    };
    if n.len() != NONCE_LEN {
        return Err(NoteError::InvalidNonce);
    }
    let sealed = match decode_base64(ciphertext) {
        Some(b) => b,
        None => return Err(NoteError::CorruptEnvelope),
    };
    open(sealed.as_slice(), n.as_slice())
}

} // verus!
