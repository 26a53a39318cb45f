//! Verified core of a file-sharing backend: permission levels and access
//! rules over a directory tree, envelope encryption of stored files, the
//! compress-then-encrypt storage pipeline, name validation, and the small
//! pieces of request handling that decide what an HTTP caller is answered.

pub mod level;
pub mod error;
pub mod text;
pub mod models;
pub mod access;
pub mod directory;
pub mod sharing;
pub mod encryption;
pub mod file;
pub mod compression;
pub mod api_key;
pub mod parameters;
pub mod web;
pub mod respond;
pub mod session;
