//! The rows the database holds, as the domain layer reads them. Identifiers
//! are the 128-bit values of UUIDs and instants are Unix timestamps in
//! milliseconds.

use vstd::prelude::*;

verus! {

/// A directory of some user's tree.
#[derive(Debug, Clone)]
pub struct Directory {
    pub id: u128,
    pub name: String,
    pub owner: u128,
    /// `None` when the directory sits at the root of its owner's tree.
    pub parent_id: Option<u128>,
    pub created_at: i64,
    pub updated_at: i64,
}

/// A stored file: its metadata and what is needed to decrypt its content.
#[derive(Debug, Clone)]
pub struct File {
    pub id: u128,
    pub name: String,
    pub owner: u128,
    /// `None` when the file sits at the root of its owner's tree.
    pub parent_id: Option<u128>,
    /// Where the sealed content lives in the object store.
    pub storage_key: String,
    pub mime_type: String,
    /// Size of the original content, in bytes.
    pub size_bytes: i64,
    /// Size actually held by the object store, in bytes.
    pub stored_size_bytes: i64,
    /// Whether gzip was applied before sealing.
    pub is_compressed: bool,
    /// The file's data encryption key, sealed under the master key.
    pub encrypted_dek: Vec<u8>,
    pub dek_nonce: Vec<u8>,
    pub content_nonce: Vec<u8>,
    pub thumbnail_storage_key: Option<String>,
    pub thumbnail_nonce: Option<Vec<u8>>,
    pub created_at: i64,
    pub updated_at: i64,
}

/// The row recorded for a new upload.
#[derive(Debug, Clone)]
pub struct NewFile {
    pub id: u128,
    pub owner: u128,
    pub parent_id: Option<u128>,
    pub name: String,
    pub storage_key: String,
    pub mime_type: String,
    pub size_bytes: i64,
    pub stored_size_bytes: i64,
    pub is_compressed: bool,
    pub encrypted_dek: Vec<u8>,
    pub dek_nonce: Vec<u8>,
    pub content_nonce: Vec<u8>,
    pub thumbnail_storage_key: Option<String>,
    pub thumbnail_nonce: Option<Vec<u8>>,
}

/// One grant on a file.
#[derive(Debug, Clone)]
pub struct FilePermission {
    pub id: u128,
    pub file_id: u128,
    pub grantee: u128,
    /// The level as stored: `viewer`, `editor` or `manager`.
    pub permission_level: String,
    pub granted_by: u128,
    pub created_at: i64,
    pub updated_at: i64,
}

/// One grant on a directory, which reaches everything below it.
#[derive(Debug, Clone)]
pub struct DirectoryPermission {
    pub id: u128,
    pub directory_id: u128,
    pub grantee: u128,
    /// The level as stored: `viewer`, `editor` or `manager`.
    pub permission_level: String,
    pub granted_by: u128,
    pub created_at: i64,
    pub updated_at: i64,
}

/// A registered user.
#[derive(Debug, Clone)]
pub struct User {
    pub id: u128,
    pub username: String,
    pub first_name: String,
    pub last_name: String,
    pub email: String,
    /// First login.
    pub created_at: i64,
}

} // verus!
