//! Material for API keys: the raw key handed to its owner once, the hash the
//! database keeps in its place, and who may reach a stored key.

use sha2::{Digest, Sha256};
use vstd::prelude::*;
use vstd::string::*;

use crate::respond::ApiError;
use crate::text::{hex_digits, hex_of, to_hex, uuid_string, uuid_text};

verus! {

/// The SHA-256 digest of `data`.
pub uninterp spec fn sha256_of(data: Seq<u8>) -> Seq<u8>;

/// `Sha256::digest(data)`: the 32-byte SHA-256 digest, a function of the
/// bytes alone.
#[verifier::external_body]
fn sha256_digest(data: &[u8]) -> (digest: Vec<u8>)
    ensures
        digest@ == sha256_of(data@),
        digest@.len() == 32,
{
    Sha256::digest(data).to_vec()
}

/// `rand::random::<[u8; 32]>()`: 32 bytes from the thread-local generator,
/// seeded from the operating system. Nothing is promised of their value.
#[verifier::external_body]
fn random_bytes() -> (bytes: [u8; 32]) {
    rand::random()
}

/// The hexadecimal rendering of `n` bytes has `2 * n` digits.
pub proof fn lemma_hex_of_len(bytes: Seq<u8>)
    ensures
        hex_of(bytes).len() == 2 * bytes.len(),
    decreases bytes.len(),
{
    if bytes.len() > 0 {
        lemma_hex_of_len(bytes.drop_last());
        let b = bytes.last() as nat;
        assert(hex_digits(b / 16 / 16, 0).len() == 0);
        assert(hex_digits(b / 16, 1).len() == 1);
        assert(hex_digits(b, 2).len() == 2);
    }
}

/// A new raw API key: 32 random bytes in lowercase hexadecimal.
pub fn generate_random_key() -> (key: String)
    ensures
        exists|bytes: Seq<u8>| bytes.len() == 32 && key@ == hex_of(bytes),
        key@.len() == 64,
{
    let bytes = random_bytes();
    let key = to_hex(&bytes);
    proof {
        lemma_hex_of_len(bytes@);
    }
    key
}

/// The lowercase hexadecimal SHA-256 of the UTF-8 bytes of `input`, which is
/// what the database keeps of a key.
pub fn hex_sha256(input: &str) -> (hash: String)
    ensures
        hash@ == hex_of(sha256_of(input.spec_bytes())),
        hash@.len() == 64,
{
    let digest = sha256_digest(input.as_bytes());
    proof {
        lemma_hex_of_len(digest@);
    }
    to_hex(digest.as_slice())
}

/// What reading or deleting the API key `id` answers `user`, given the key's
/// owner (`None` when there is no such key): its owner proceeds, anyone else
/// is told the key does not exist.
pub open spec fn key_access(user: u128, id: u128, owner: Option<u128>) -> Result<(), Seq<char>> {
    if owner == Some(user) {
        Ok(())
    } else {
        Err(uuid_text(id))
    }
}

/// Holds a read or a deletion of an API key to its owner. A key owned by
/// someone else is answered `NotFound`, exactly as a key that does not exist.
pub fn require_key_owner(user_id: u128, id: u128, owner: Option<u128>) -> (r: Result<(), ApiError>)
    ensures
        match r {
            Ok(()) => key_access(user_id, id, owner) == Ok::<(), Seq<char>>(()),
            Err(ApiError::NotFound(m)) => key_access(user_id, id, owner) == Err::<(), _>(m@),
            Err(_) => false,
        },
{
    match owner {
        Some(o) if o == user_id => Ok(()),
        _ => Err(ApiError::NotFound(uuid_string(id))),
    }
}

/// Someone else's API key cannot be told from a missing one: whoever asks
/// about a key they do not own gets the answer a missing key gets.
pub proof fn law_someone_elses_key_looks_missing(user: u128, id: u128, owner: u128)
    requires
        owner != user,
    ensures
        key_access(user, id, Some(owner)) == key_access(user, id, None),
{
}

} // verus!
