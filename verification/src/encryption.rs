//! Envelope encryption for stored files.
//!
//! Every file carries its own random 256-bit data encryption key. The content
//! is sealed with AES-256-GCM under that key; the key itself is sealed under
//! the server-wide master key and stored next to the row. Only the wrapped key
//! ever touches the database, and only ciphertext ever reaches the object
//! store. Rotating the master key therefore means re-wrapping the stored keys,
//! not re-encrypting the files.

use aes_gcm::aead::{Aead, Key, KeyInit, Nonce};
use aes_gcm::Aes256Gcm;
use vstd::prelude::*;

use crate::error::{outcome, CoreError, ErrorView};

verus! {

/// Length of a data encryption key and of the master key, set by AES-256.
pub const KEY_LENGTH: usize = 32;

/// Length of a GCM nonce. A fresh one is drawn for every sealed payload.
pub const NONCE_LENGTH: usize = 12;

/// Length of the authentication tag GCM appends to every ciphertext.
pub const TAG_LENGTH: usize = 16;

/// Longest plaintext AES-GCM seals, in bytes: 2^36 - 32.
pub const PLAINTEXT_MAX: u64 = 68719476704;

/// The ciphertext, tag appended, that AES-256-GCM produces for `plaintext`
/// under `key` and `nonce`, with no associated data.
pub uninterp spec fn gcm_sealed(key: Seq<u8>, nonce: Seq<u8>, plaintext: Seq<u8>) -> Seq<u8>;

/// The plaintext AES-256-GCM recovers from `ciphertext` under `key` and
/// `nonce`, with no associated data, or `None` when the tag does not
/// authenticate it.
pub uninterp spec fn gcm_opened(key: Seq<u8>, nonce: Seq<u8>, ciphertext: Seq<u8>) -> Option<
    Seq<u8>,
>;

/// `Aes256Gcm::encrypt` with a 12-byte nonce and no associated data. It fails
/// exactly when the plaintext is longer than `aes_gcm::P_MAX`; otherwise it
/// answers the ciphertext followed by the 16-byte tag, a function of key,
/// nonce and plaintext, which `decrypt` under the same key and nonce opens to
/// the plaintext.
#[verifier::external_body]
fn gcm_encrypt(key: &[u8; KEY_LENGTH], nonce: &[u8; NONCE_LENGTH], plaintext: &[u8]) -> (r: Option<Vec<u8>>)
    ensures
        r is None <==> plaintext@.len() > PLAINTEXT_MAX,
        r matches Some(c) ==> c@ == gcm_sealed(key@, nonce@, plaintext@) && c@.len()
            == plaintext@.len() + TAG_LENGTH,
        r matches Some(c) ==> gcm_opened(key@, nonce@, c@) == Some(plaintext@),
{
    let cipher = Aes256Gcm::new(&Key::<Aes256Gcm>::from(*key));
    cipher.encrypt(&Nonce::<Aes256Gcm>::from(*nonce), plaintext).ok()
}

/// `Aes256Gcm::decrypt` with a 12-byte nonce and no associated data. It
/// answers the plaintext when the trailing tag authenticates the rest, which
/// it always does for what `encrypt` produced under the same key and nonce,
/// and fails on anything shorter than a tag.
#[verifier::external_body]
fn gcm_decrypt(key: &[u8; KEY_LENGTH], nonce: &[u8; NONCE_LENGTH], ciphertext: &[u8]) -> (r: Option<Vec<u8>>)
    ensures
        r is Some <==> gcm_opened(key@, nonce@, ciphertext@) is Some,
        r matches Some(p) ==> gcm_opened(key@, nonce@, ciphertext@) == Some(p@) && p@.len()
            + TAG_LENGTH == ciphertext@.len(),
        ciphertext@.len() < TAG_LENGTH ==> r is None,
        r is None ==> forall|p: Seq<u8>|
            !(p.len() <= PLAINTEXT_MAX && ciphertext@ == #[trigger] gcm_sealed(key@, nonce@, p)),
        r matches Some(q) ==> forall|p: Seq<u8>|
            p.len() <= PLAINTEXT_MAX && ciphertext@ == #[trigger] gcm_sealed(key@, nonce@, p)
                ==> q@ == p,
{
    let cipher = Aes256Gcm::new(&Key::<Aes256Gcm>::from(*key));
    cipher.decrypt(&Nonce::<Aes256Gcm>::from(*nonce), ciphertext).ok()
}

/// `rand::random::<[u8; 32]>()`: 32 bytes from the thread-local generator,
/// seeded from the operating system. Nothing is promised of their value.
#[verifier::external_body]
fn random_key_bytes() -> (bytes: [u8; KEY_LENGTH]) {
    rand::random()
}

/// `rand::random::<[u8; 12]>()`: 12 bytes from the thread-local generator,
/// seeded from the operating system. Nothing is promised of their value.
#[verifier::external_body]
fn random_nonce_bytes() -> (bytes: [u8; NONCE_LENGTH]) {
    rand::random()
}

/// A sealed payload and the nonce needed to open it.
#[derive(Debug, Clone)]
pub struct Sealed {
    pub ciphertext: Vec<u8>,
    pub nonce: [u8; NONCE_LENGTH],
}

/// Draws a new data encryption key from the system random source.
pub fn generate_data_key() -> (key: [u8; KEY_LENGTH])
    ensures
        key@.len() == KEY_LENGTH,
{
    random_key_bytes()
}

/// Draws a nonce for a single sealing operation; with overwhelming
/// probability it has never been drawn before.
pub fn generate_nonce() -> (nonce: [u8; NONCE_LENGTH])
    ensures
        nonce@.len() == NONCE_LENGTH,
{
    random_nonce_bytes()
}

/// What sealing `plaintext` under `key` and `nonce` answers.
pub open spec fn sealing(key: Seq<u8>, nonce: Seq<u8>, plaintext: Seq<u8>) -> Result<
    Seq<u8>,
    ErrorView,
> {
    if plaintext.len() > PLAINTEXT_MAX {
        Err(ErrorView::Encryption)
    } else {
        Ok(gcm_sealed(key, nonce, plaintext))
    }
}

/// Seals `plaintext` under `key` with a caller-chosen nonce. Callers sealing
/// two payloads under one key use this to stay explicit that each payload gets
/// its own nonce.
pub fn seal_with_nonce(key: &[u8; KEY_LENGTH], nonce: &[u8; NONCE_LENGTH], plaintext: &[u8]) -> (r:
    Result<Vec<u8>, CoreError>)
    ensures
        match r {
            Ok(c) => sealing(key@, nonce@, plaintext@) == Ok::<_, ErrorView>(c@) && c@.len()
                == plaintext@.len() + TAG_LENGTH,
            Err(e) => sealing(key@, nonce@, plaintext@) == Err::<Seq<u8>, _>(e@),
        },
        r matches Ok(c) ==> opening(key@, nonce@, c@) == Ok::<_, ErrorView>(plaintext@),
{
    match gcm_encrypt(key, nonce, plaintext) {
        Some(c) => Ok(c),
        None => Err(CoreError::Encryption),
    }
}

/// Seals `plaintext` under `key` with a freshly drawn nonce.
pub fn seal(key: &[u8; KEY_LENGTH], plaintext: &[u8]) -> (r: Result<Sealed, CoreError>)
    ensures
        r is Ok <==> plaintext@.len() <= PLAINTEXT_MAX,
        r matches Ok(s) ==> s.ciphertext@ == gcm_sealed(key@, s.nonce@, plaintext@)
            && s.ciphertext@.len() == plaintext@.len() + TAG_LENGTH,
        r matches Err(e) ==> e@ == ErrorView::Encryption,
        r matches Ok(s) ==> opening(key@, s.nonce@, s.ciphertext@) == Ok::<_, ErrorView>(
            plaintext@,
        ),
{
    let nonce = generate_nonce();
    let ciphertext = seal_with_nonce(key, &nonce, plaintext)?;
    Ok(Sealed { ciphertext, nonce })
}

/// What opening `ciphertext` under `key` and `nonce` answers.
pub open spec fn opening(key: Seq<u8>, nonce: Seq<u8>, ciphertext: Seq<u8>) -> Result<
    Seq<u8>,
    ErrorView,
> {
    if nonce.len() != NONCE_LENGTH {
        Err(ErrorView::Encryption)
    } else {
        match gcm_opened(key, nonce, ciphertext) {
            Some(p) => Ok(p),
            None => Err(ErrorView::Encryption),
        }
    }
}

/// The view of a result holding bytes.
pub open spec fn bytes_outcome(r: Result<Vec<u8>, CoreError>) -> Result<Seq<u8>, ErrorView> {
    match r {
        Ok(v) => Ok(v@),
        Err(e) => Err(e@),
    }
}

fn nonce_array(nonce: &[u8]) -> (n: [u8; NONCE_LENGTH])
    requires
        nonce@.len() == NONCE_LENGTH,
    ensures
        n@ == nonce@,
{
    let mut n = [0u8; NONCE_LENGTH];
    let mut i: usize = 0;
    while i < NONCE_LENGTH
        invariant
            nonce@.len() == NONCE_LENGTH,
            i <= NONCE_LENGTH,
            forall|k: int| 0 <= k < i ==> n@[k] == nonce@[k],
        decreases NONCE_LENGTH - i,
    {
        n[i] = nonce[i];
        i = i + 1;
    }
    assert(n@ =~= nonce@);
    n
}

/// Opens `ciphertext` sealed under `key` and `nonce`.
///
/// Fails the same way on a wrong key, a wrong nonce, a nonce of the wrong
/// length and tampered bytes: GCM authenticates before it decrypts, and the
/// cases are not told apart. What [`seal`] or [`seal_with_nonce`] produced
/// under the same key and nonce always opens to the bytes that were sealed.
pub fn open(key: &[u8; KEY_LENGTH], nonce: &[u8], ciphertext: &[u8]) -> (r: Result<
    Vec<u8>,
    CoreError,
>)
    ensures
        bytes_outcome(r) == opening(key@, nonce@, ciphertext@),
        r matches Ok(p) ==> p@.len() + TAG_LENGTH == ciphertext@.len(),
        forall|p: Seq<u8>|
            nonce@.len() == NONCE_LENGTH && p.len() <= PLAINTEXT_MAX && ciphertext@
                == #[trigger] gcm_sealed(key@, nonce@, p) ==> (r matches Ok(q) && q@ == p),
{
    if nonce.len() != NONCE_LENGTH {
        return Err(CoreError::Encryption);
    }
    let n = nonce_array(nonce);
    match gcm_decrypt(key, &n, ciphertext) {
        Some(p) => Ok(p),
        None => Err(CoreError::Encryption),
    }
}

/// Seals a data encryption key under the master key, producing the
/// `encrypted_dek` / `dek_nonce` pair stored on the file row.
pub fn wrap_data_key(master_key: &[u8; KEY_LENGTH], data_key: &[u8; KEY_LENGTH]) -> (r: Result<
    Sealed,
    CoreError,
>)
    ensures
        r is Ok,
        r matches Ok(s) ==> s.ciphertext@ == gcm_sealed(master_key@, s.nonce@, data_key@)
            && s.ciphertext@.len() == KEY_LENGTH + TAG_LENGTH,
        r matches Ok(s) ==> unwrapping(master_key@, s.ciphertext@, s.nonce@) == Ok::<_, ErrorView>(
            data_key@,
        ),
{
    seal(master_key, data_key)
}

/// What recovering a data key from its stored pair answers.
pub open spec fn unwrapping(master_key: Seq<u8>, encrypted: Seq<u8>, nonce: Seq<u8>) -> Result<
    Seq<u8>,
    ErrorView,
> {
    match opening(master_key, nonce, encrypted) {
        Err(e) => Err(e),
        Ok(k) => if k.len() == KEY_LENGTH {
            Ok(k)
        } else {
            Err(ErrorView::Encryption)
        },
    }
}

/// Recovers a data encryption key from its stored `encrypted_dek` /
/// `dek_nonce` pair. What [`wrap_data_key`] produced under the same master key
/// always unwraps to the key that was wrapped.
pub fn unwrap_data_key(master_key: &[u8; KEY_LENGTH], encrypted_data_key: &[u8], nonce: &[u8]) -> (r:
    Result<[u8; KEY_LENGTH], CoreError>)
    ensures
        match r {
            Ok(k) => unwrapping(master_key@, encrypted_data_key@, nonce@) == Ok::<_, ErrorView>(
                k@,
            ),
            Err(e) => unwrapping(master_key@, encrypted_data_key@, nonce@) == Err::<Seq<u8>, _>(
                e@,
            ),
        },
        forall|k: Seq<u8>|
            nonce@.len() == NONCE_LENGTH && k.len() == KEY_LENGTH && encrypted_data_key@
                == #[trigger] gcm_sealed(master_key@, nonce@, k) ==> (r matches Ok(q) && q@ == k),
{
    let opened = open(master_key, nonce, encrypted_data_key)?;
    if opened.len() != KEY_LENGTH {
        return Err(CoreError::Encryption);
    }
    let mut key = [0u8; KEY_LENGTH];
    let mut i: usize = 0;
    while i < KEY_LENGTH
        invariant
            opened@.len() == KEY_LENGTH,
            i <= KEY_LENGTH,
            forall|j: int| 0 <= j < i ==> key@[j] == opened@[j],
        decreases KEY_LENGTH - i,
    {
        key[i] = opened[i];
        i = i + 1;
    }
    assert(key@ =~= opened@);
    Ok(key)
}

} // verus!
