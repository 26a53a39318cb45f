//! Stored files: the compress-then-encrypt pipeline and the operations around
//! it.
//!
//! Upload order matters. Compression runs first, because ciphertext is
//! incompressible; encryption runs second, so the object store only ever holds
//! opaque bytes under a key that names neither the file nor its type.
//!
//! ```txt
//! upload:   bytes -> image compression -> gzip -> AES-256-GCM -> storage
//! download: storage -> AES-256-GCM -> gunzip -> bytes
//! ```
//!
//! The functions here decide each step and do the cryptography; the caller
//! runs the compressor and the object store.

use vstd::prelude::*;
use vstd::string::*;

use crate::access::{access_of, required, require, AccessFacts, ResourceRef};
use crate::compression::{compress_for_storage, gunzip, gunzipped, stored_form};
use crate::directory::{
    check_move_destination, checked_name, move_check, optional_name, update_outcome, validate_name, EntryUpdate,
};
use crate::encryption::{
    gcm_sealed, generate_data_key, open, opening, seal, wrap_data_key, unwrap_data_key, unwrapping, bytes_outcome, Sealed, KEY_LENGTH,
    NONCE_LENGTH, PLAINTEXT_MAX,
};
use crate::error::{outcome, text_outcome, CoreError, ErrorView};
use crate::level::PermissionLevel;
use crate::models::{File, NewFile};
use crate::text::{
    has_prefix, lemma_uuid_text_injective, lemma_uuid_text_len, same_text, starts_with, uuid_string,
    uuid_text,
};

verus! {

/// Longest side, in pixels, of the thumbnail generated for an image.
pub const THUMBNAIL_WIDTH: u32 = 320;

/// The bytes and metadata of one incoming upload.
#[derive(Debug)]
pub struct Upload {
    pub name: String,
    pub mime_type: String,
    pub content: Vec<u8>,
}

/// Whether a MIME type names an image.
pub open spec fn image_type(mime_type: Seq<char>) -> bool {
    has_prefix(mime_type, "image/"@)
}

/// Formats whose bytes are already entropy-dense.
pub open spec fn dense_type(mime_type: Seq<char>) -> bool {
    ||| mime_type == "image/jpeg"@
    ||| mime_type == "image/png"@
    ||| mime_type == "image/webp"@
    ||| mime_type == "image/gif"@
    ||| mime_type == "application/zip"@
    ||| mime_type == "application/gzip"@
    ||| has_prefix(mime_type, "video/"@)
    ||| has_prefix(mime_type, "audio/"@)
}

/// Whether a MIME type names an image, which gets a lossy pass and a thumbnail.
pub fn is_image(mime_type: &str) -> (r: bool)
    ensures
        r == image_type(mime_type@),
{
    starts_with(mime_type, "image/")
}

/// Formats whose bytes are already entropy-dense. Gzipping them costs CPU on
/// both ends and gives back nothing, so the list stays to the containers that
/// actually turn up in an upload.
pub fn is_already_compressed(mime_type: &str) -> (r: bool)
    ensures
        r == dense_type(mime_type@),
{
    same_text(mime_type, "image/jpeg") || same_text(mime_type, "image/png") || same_text(
        mime_type,
        "image/webp",
    ) || same_text(mime_type, "image/gif") || same_text(mime_type, "application/zip")
        || same_text(mime_type, "application/gzip") || starts_with(mime_type, "video/")
        || starts_with(mime_type, "audio/")
}

/// What the compression half of the pipeline does to a payload of a given
/// type: a lossy pass for images, then gzip for everything that is not already
/// a compressed container.
#[derive(Debug, Clone, Copy, PartialEq, Eq, Structural)]
pub struct CompressionPlan {
    /// Whether the image compressor runs first, with [`lossy_image_parameters`].
    pub image_pass: bool,
    /// Whether gzip is applied, which the download path has to reverse.
    pub gzip: bool,
}

/// Decides how a payload of type `mime_type` is shrunk before it becomes
/// incompressible ciphertext.
pub fn compression_plan(mime_type: &str) -> (plan: CompressionPlan)
    ensures
        plan.image_pass == image_type(mime_type@),
        plan.gzip == !dense_type(mime_type@),
{
    CompressionPlan { image_pass: is_image(mime_type), gzip: !is_already_compressed(mime_type) }
}

/// The object-store key of a file's content.
pub open spec fn content_key_text(id: u128) -> Seq<char> {
    "files/"@ + uuid_text(id) + "/content"@
}

/// The object-store key of a file's thumbnail.
pub open spec fn thumbnail_key_text(id: u128) -> Seq<char> {
    "files/"@ + uuid_text(id) + "/thumbnail"@
}

/// Where a file's content is stored. Neither key carries the file name nor
/// its type: the object store is not trusted with metadata, only with opaque
/// bytes.
pub fn content_key(id: u128) -> (key: String)
    ensures
        key@ == content_key_text(id),
{
    let mut key = String::from_str("files/");
    let id_text = uuid_string(id);
    key.append(id_text.as_str());
    key.append("/content");
    key
}

/// Where a file's thumbnail is stored.
pub fn thumbnail_key(id: u128) -> (key: String)
    ensures
        key@ == thumbnail_key_text(id),
{
    let mut key = String::from_str("files/");
    let id_text = uuid_string(id);
    key.append(id_text.as_str());
    key.append("/thumbnail");
    key
}

/// Storage keys never collide: distinct files get distinct content keys and
/// distinct thumbnail keys, and no content key is ever a thumbnail key.
pub proof fn law_storage_keys_never_collide(a: u128, b: u128)
    ensures
        content_key_text(a) == content_key_text(b) ==> a == b,
        thumbnail_key_text(a) == thumbnail_key_text(b) ==> a == b,
        content_key_text(a) != thumbnail_key_text(b),
{
    reveal_strlit("files/");
    reveal_strlit("/content");
    reveal_strlit("/thumbnail");
    lemma_uuid_text_len(a);
    lemma_uuid_text_len(b);
    if content_key_text(a) == content_key_text(b) {
        assert(content_key_text(a).subrange(6, 42) =~= uuid_text(a));
        assert(content_key_text(b).subrange(6, 42) =~= uuid_text(b));
        lemma_uuid_text_injective(a, b);
    }
    if thumbnail_key_text(a) == thumbnail_key_text(b) {
        assert(thumbnail_key_text(a).subrange(6, 42) =~= uuid_text(a));
        assert(thumbnail_key_text(b).subrange(6, 42) =~= uuid_text(b));
        lemma_uuid_text_injective(a, b);
    }
    assert(content_key_text(a).len() != thumbnail_key_text(b).len());
}

/// The row recorded for an upload whose content was sealed into `content`
/// under a data key that `wrapped_key` holds sealed under the master key.
pub open spec fn recorded(
    row: NewFile,
    id: u128,
    owner: u128,
    parent_id: Option<u128>,
    name: Seq<char>,
    mime_type: Seq<char>,
    original_size: usize,
    content: Sealed,
    gzipped: bool,
    wrapped_key: Sealed,
    thumbnail_nonce: Option<[u8; NONCE_LENGTH]>,
) -> bool {
    &&& row.id == id
    &&& row.owner == owner
    &&& row.parent_id == parent_id
    &&& row.name@ == name
    &&& row.storage_key@ == content_key_text(id)
    &&& row.mime_type@ == mime_type
    &&& row.size_bytes == original_size as i64
    &&& row.stored_size_bytes == content.ciphertext@.len() as i64
    &&& row.is_compressed == gzipped
    &&& row.encrypted_dek@ == wrapped_key.ciphertext@
    &&& row.dek_nonce@ == wrapped_key.nonce@
    &&& row.content_nonce@ == content.nonce@
    &&& match thumbnail_nonce {
        None => row.thumbnail_storage_key is None && row.thumbnail_nonce is None,
        Some(n) => {
            &&& row.thumbnail_storage_key matches Some(k) && k@ == thumbnail_key_text(id)
            &&& row.thumbnail_nonce matches Some(v) && v@ == n@
        },
    }
}

fn bytes_of_array<const N: usize>(a: &[u8; N]) -> (v: Vec<u8>)
    ensures
        v@ == a@,
{
    let mut v: Vec<u8> = Vec::new();
    let mut i: usize = 0;
    while i < N
        invariant
            i <= N,
            a@.len() == N,
            v@ == a@.subrange(0, i as int),
        decreases N - i,
    {
        v.push(a[i]);
        i = i + 1;
    }
    v
}

/// The row to record for an upload: the content stored under its own key,
/// the wrapped data key and both nonces, the thumbnail key when a thumbnail
/// was stored, and the sizes before and after compression and encryption.
pub fn new_file_row(
    id: u128,
    owner: u128,
    parent_id: Option<u128>,
    name: String,
    mime_type: String,
    original_size: usize,
    content: &Sealed,
    gzipped: bool,
    wrapped_key: &Sealed,
    thumbnail_nonce: Option<[u8; NONCE_LENGTH]>,
) -> (row: NewFile)
    ensures
        recorded(
            row,
            id,
            owner,
            parent_id,
            name@,
            mime_type@,
            original_size,
            *content,
            gzipped,
            *wrapped_key,
            thumbnail_nonce,
        ),
{
    let (thumbnail_storage_key, thumbnail_nonce) = match thumbnail_nonce {
        None => (None, None),
        Some(n) => (Some(thumbnail_key(id)), Some(bytes_of_array(&n))),
    };
    let mut encrypted_dek: Vec<u8> = Vec::new();
    let mut i: usize = 0;
    while i < wrapped_key.ciphertext.len()
        invariant
            i <= wrapped_key.ciphertext@.len(),
            encrypted_dek@ == wrapped_key.ciphertext@.subrange(0, i as int),
        decreases wrapped_key.ciphertext@.len() - i,
    {
        encrypted_dek.push(wrapped_key.ciphertext[i]);
        i = i + 1;
    }
    assert(encrypted_dek@ =~= wrapped_key.ciphertext@);
    NewFile {
        id,
        owner,
        parent_id,
        name,
        storage_key: content_key(id),
        mime_type,
        size_bytes: original_size as i64,
        stored_size_bytes: content.ciphertext.len() as i64,
        is_compressed: gzipped,
        encrypted_dek,
        dek_nonce: bytes_of_array(&wrapped_key.nonce),
        content_nonce: bytes_of_array(&content.nonce),
        thumbnail_storage_key,
        thumbnail_nonce,
    }
}

/// What opening a file's stored content answers: the data key unwrapped from
/// the row, then the content opened under it with the row's content nonce.
pub open spec fn content_opening(master_key: Seq<u8>, file: File, stored: Seq<u8>) -> Result<
    Seq<u8>,
    ErrorView,
> {
    match unwrapping(master_key, file.encrypted_dek@, file.dek_nonce@) {
        Err(e) => Err(e),
        Ok(data_key) => opening(data_key, file.content_nonce@, stored),
    }
}

/// Decrypts a file's stored content: unwraps its data key under the master
/// key, then opens the content with it. The result is the content as it was
/// before encryption, still gzipped when `file.is_compressed`.
///
/// Content sealed under a data key, recorded with that data key wrapped under
/// the same master key, always comes back as the bytes that were sealed.
pub fn open_content(master_key: &[u8; KEY_LENGTH], file: &File, stored: &[u8]) -> (r: Result<
    Vec<u8>,
    CoreError,
>)
    ensures
        bytes_outcome(r) == content_opening(master_key@, *file, stored@),
        forall|data_key: Seq<u8>, p: Seq<u8>|
            file.dek_nonce@.len() == NONCE_LENGTH && data_key.len() == KEY_LENGTH
                && file.encrypted_dek@ == #[trigger] gcm_sealed(
                master_key@,
                file.dek_nonce@,
                data_key,
            ) && file.content_nonce@.len() == NONCE_LENGTH && p.len() <= PLAINTEXT_MAX && stored@
                == #[trigger] gcm_sealed(data_key, file.content_nonce@, p) ==> (r matches Ok(q)
                && q@ == p),
{
    let data_key = unwrap_data_key(
        master_key,
        file.encrypted_dek.as_slice(),
        file.dek_nonce.as_slice(),
    )?;
    open(&data_key, file.content_nonce.as_slice(), stored)
}

/// What restoring a file's stored content answers: the content opened, then
/// decoded when the row records that gzip was applied.
pub open spec fn content_restoring(master_key: Seq<u8>, file: File, stored: Seq<u8>) -> Result<
    Seq<u8>,
    ErrorView,
> {
    match content_opening(master_key, file, stored) {
        Err(e) => Err(e),
        Ok(opened) => if file.is_compressed {
            match gunzipped(opened) {
                Some(p) => Ok(p),
                None => Err(ErrorView::Compression),
            }
        } else {
            Ok(opened)
        },
    }
}

/// The original bytes of a file: decrypted, then decompressed when gzip was
/// applied on upload.
///
/// Content that went through the upload pipeline (gzipped or not, as the row
/// records, then sealed under a data key that the row holds wrapped under the
/// same master key) always comes back as the bytes that went in.
pub fn restore_content(master_key: &[u8; KEY_LENGTH], file: &File, stored: &[u8]) -> (r: Result<
    Vec<u8>,
    CoreError,
>)
    ensures
        bytes_outcome(r) == content_restoring(master_key@, *file, stored@),
        forall|data_key: Seq<u8>, p: Seq<u8>|
            file.dek_nonce@.len() == NONCE_LENGTH && data_key.len() == KEY_LENGTH
                && file.encrypted_dek@ == #[trigger] gcm_sealed(
                master_key@,
                file.dek_nonce@,
                data_key,
            ) && file.content_nonce@.len() == NONCE_LENGTH && stored_form(
                p,
                file.is_compressed,
            ).len() <= PLAINTEXT_MAX && stored@ == #[trigger] gcm_sealed(
                data_key,
                file.content_nonce@,
                stored_form(p, file.is_compressed),
            ) ==> (r matches Ok(q) && q@ == p),
{
    let opened = open_content(master_key, file, stored)?;
    if file.is_compressed {
        gunzip(opened.as_slice())
    } else {
        Ok(opened)
    }
}

/// The refusal for a file that has no thumbnail.
pub open spec fn no_thumbnail(id: u128) -> ErrorView {
    ErrorView::NotFound("thumbnail of "@ + uuid_text(id))
}

fn missing_thumbnail(id: u128) -> (e: CoreError)
    ensures
        e@ == no_thumbnail(id),
{
    let mut message = String::from_str("thumbnail of ");
    let id_text = uuid_string(id);
    message.append(id_text.as_str());
    CoreError::NotFound(message)
}

/// Where a file's thumbnail is stored, or `NotFound` for a file that has
/// none.
pub fn thumbnail_location(file: &File) -> (r: Result<String, CoreError>)
    ensures
        match (file.thumbnail_storage_key, file.thumbnail_nonce) {
            (Some(k), Some(_)) => text_outcome(r) == Ok::<_, ErrorView>(k@),
            _ => text_outcome(r) == Err::<Seq<char>, _>(no_thumbnail(file.id)),
        },
{
    match (&file.thumbnail_storage_key, &file.thumbnail_nonce) {
        (Some(k), Some(_)) => Ok(String::from_str(k.as_str())),
        _ => Err(missing_thumbnail(file.id)),
    }
}

/// What opening a file's stored thumbnail answers.
pub open spec fn thumbnail_opening(master_key: Seq<u8>, file: File, stored: Seq<u8>) -> Result<
    Seq<u8>,
    ErrorView,
> {
    match (file.thumbnail_storage_key, file.thumbnail_nonce) {
        (Some(_), Some(nonce)) => match unwrapping(
            master_key,
            file.encrypted_dek@,
            file.dek_nonce@,
        ) {
            Err(e) => Err(e),
            Ok(data_key) => opening(data_key, nonce@, stored),
        },
        _ => Err(no_thumbnail(file.id)),
    }
}

/// Decrypts a file's stored WebP thumbnail, sealed under the file's own data
/// key with its own nonce. Answers `NotFound` for a file that has none. A
/// thumbnail sealed under the data key the row holds wrapped opens to the
/// bytes that were sealed.
pub fn open_thumbnail(master_key: &[u8; KEY_LENGTH], file: &File, stored: &[u8]) -> (r: Result<
    Vec<u8>,
    CoreError,
>)
    ensures
        bytes_outcome(r) == thumbnail_opening(master_key@, *file, stored@),
        forall|data_key: Seq<u8>, nonce: Vec<u8>, p: Seq<u8>|
            file.thumbnail_storage_key is Some && file.thumbnail_nonce == Some(nonce)
                && file.dek_nonce@.len() == NONCE_LENGTH && data_key.len() == KEY_LENGTH
                && file.encrypted_dek@ == #[trigger] gcm_sealed(
                master_key@,
                file.dek_nonce@,
                data_key,
            ) && nonce@.len() == NONCE_LENGTH && p.len() <= PLAINTEXT_MAX && stored@
                == #[trigger] gcm_sealed(data_key, nonce@, p) ==> (r matches Ok(q) && q@ == p),
{
    let nonce = match (&file.thumbnail_storage_key, &file.thumbnail_nonce) {
        (Some(_), Some(nonce)) => nonce,
        _ => {
            return Err(missing_thumbnail(file.id));
        },
    };
    let data_key = unwrap_data_key(
        master_key,
        file.encrypted_dek.as_slice(),
        file.dek_nonce.as_slice(),
    )?;
    open(&data_key, nonce.as_slice(), stored)
}

/// The view of an optional text.
pub open spec fn optional_string(s: Option<String>) -> Option<Seq<char>> {
    match s {
        Some(t) => Some(t@),
        None => None,
    }
}

/// The view of optional bytes.
pub open spec fn optional_bytes(b: Option<Vec<u8>>) -> Option<Seq<u8>> {
    match b {
        Some(v) => Some(v@),
        None => None,
    }
}

/// Whether a file row read back from the database holds what `row` recorded.
pub open spec fn stored_as(file: File, row: NewFile) -> bool {
    &&& file.id == row.id
    &&& file.owner == row.owner
    &&& file.parent_id == row.parent_id
    &&& file.name@ == row.name@
    &&& file.storage_key@ == row.storage_key@
    &&& file.mime_type@ == row.mime_type@
    &&& file.size_bytes == row.size_bytes
    &&& file.stored_size_bytes == row.stored_size_bytes
    &&& file.is_compressed == row.is_compressed
    &&& file.encrypted_dek@ == row.encrypted_dek@
    &&& file.dek_nonce@ == row.dek_nonce@
    &&& file.content_nonce@ == row.content_nonce@
    &&& optional_string(file.thumbnail_storage_key) == optional_string(row.thumbnail_storage_key)
    &&& optional_bytes(file.thumbnail_nonce) == optional_bytes(row.thumbnail_nonce)
}

/// An upload ready to be stored: the sealed content, the sealed thumbnail of
/// an image, the data key sealed under the master key, and the row that
/// records them.
#[derive(Debug)]
pub struct PreparedUpload {
    pub content: Sealed,
    pub thumbnail: Option<Sealed>,
    pub wrapped_key: Sealed,
    pub row: NewFile,
}

/// The refusal for an image uploaded without its thumbnail.
pub open spec fn missing_thumbnail_refusal() -> ErrorView {
    ErrorView::InvalidRequest("an image upload needs its thumbnail"@)
}

/// Whether an upload can be sealed, gzip aside: an image comes with its
/// thumbnail, and what is sealed stays within what AES-GCM seals.
pub open spec fn upload_check(mime_type: Seq<char>, shrunk: Seq<u8>, thumbnail: Option<Seq<u8>>) -> Result<
    (),
    ErrorView,
> {
    if image_type(mime_type) && thumbnail is None {
        Err(missing_thumbnail_refusal())
    } else if stored_form(shrunk, !dense_type(mime_type)).len() > PLAINTEXT_MAX {
        Err(ErrorView::Encryption)
    } else if image_type(mime_type) && thumbnail->Some_0.len() > PLAINTEXT_MAX {
        Err(ErrorView::Encryption)
    } else {
        Ok(())
    }
}

/// Whether `p` is the prepared form of an upload: its row records the
/// content sealed into `p.content` (gzipped exactly when the type is not
/// already dense) under a data key held wrapped in `p.wrapped_key`, a
/// thumbnail exactly for an image, and whatever row is read back holding the
/// same restores to `shrunk` and, for an image, opens its thumbnail.
pub open spec fn prepared_as(
    p: PreparedUpload,
    master_key: Seq<u8>,
    owner: u128,
    id: u128,
    parent_id: Option<u128>,
    name: Seq<char>,
    mime_type: Seq<char>,
    original_size: usize,
    shrunk: Seq<u8>,
    thumbnail: Option<Seq<u8>>,
) -> bool {
    &&& recorded(
        p.row,
        id,
        owner,
        parent_id,
        name,
        mime_type,
        original_size,
        p.content,
        !dense_type(mime_type),
        p.wrapped_key,
        match p.thumbnail {
            Some(t) => Some(t.nonce),
            None => None,
        },
    )
    &&& p.row.is_compressed == !dense_type(mime_type)
    &&& (p.row.thumbnail_storage_key is Some <==> image_type(mime_type))
    &&& (p.thumbnail is Some <==> image_type(mime_type))
    &&& forall|f: File|
        stored_as(f, p.row) ==> #[trigger] content_restoring(master_key, f, p.content.ciphertext@)
            == Ok::<_, ErrorView>(shrunk)
    &&& p.thumbnail matches Some(t) ==> forall|f: File|
        stored_as(f, p.row) ==> #[trigger] thumbnail_opening(master_key, f, t.ciphertext@)
            == Ok::<_, ErrorView>(thumbnail->Some_0)
}

/// Runs the storage pipeline on one upload and builds the row that records
/// it: gzip unless the type is already dense, a fresh data key, the content
/// sealed under it, the data key sealed under the master key, and for an
/// image the thumbnail sealed under the same data key with a nonce of its own.
///
/// `shrunk` is the content after the lossy image pass, and `thumbnail` the
/// thumbnail the image compressor made; both passes belong to the image
/// compressor, which runs for images only. A thumbnail given for anything
/// that is not an image is not stored.
///
/// It succeeds exactly when [`upload_check`] holds. The stored content
/// restores to `shrunk`, and the stored thumbnail to `thumbnail`, through
/// [`restore_content`] and [`open_thumbnail`] on the row.
pub fn prepare_upload(
    owner: u128,
    id: u128,
    parent_id: Option<u128>,
    name: String,
    mime_type: String,
    original_size: usize,
    shrunk: Vec<u8>,
    thumbnail: Option<Vec<u8>>,
    master_key: &[u8; KEY_LENGTH],
) -> (r: Result<PreparedUpload, CoreError>)
    ensures
        match r {
            Ok(p) => upload_check(mime_type@, shrunk@, optional_bytes(thumbnail)) == Ok::<
                (),
                ErrorView,
            >(()) && prepared_as(
                p,
                master_key@,
                owner,
                id,
                parent_id,
                name@,
                mime_type@,
                original_size,
                shrunk@,
                optional_bytes(thumbnail),
            ),
            Err(e) => upload_check(mime_type@, shrunk@, optional_bytes(thumbnail)) == Err::<
                (),
                _,
            >(e@),
        },
{
    let image = is_image(mime_type.as_str());
    if image && thumbnail.is_none() {
        return Err(CoreError::InvalidRequest(String::from_str("an image upload needs its thumbnail")));
    }
    let ghost original = shrunk@;
    let compressed = compress_for_storage(shrunk, mime_type.as_str())?;
    let data_key = generate_data_key();
    let content = seal(&data_key, compressed.bytes.as_slice())?;
    let wrapped_key = wrap_data_key(master_key, &data_key)?;
    let sealed_thumbnail = if image {
        match thumbnail {
            Some(t) => Some(seal(&data_key, t.as_slice())?),
            None => None,
        }
    } else {
        None
    };
    let thumbnail_nonce = match &sealed_thumbnail {
        Some(t) => Some(t.nonce),
        None => None,
    };
    let row = new_file_row(
        id,
        owner,
        parent_id,
        name,
        mime_type,
        original_size,
        &content,
        compressed.gzipped,
        &wrapped_key,
        thumbnail_nonce,
    );
    assert forall|f: File| stored_as(f, row) implies #[trigger] content_restoring(
        master_key@,
        f,
        content.ciphertext@,
    ) == Ok::<_, ErrorView>(original) by {
        assert(unwrapping(master_key@, f.encrypted_dek@, f.dek_nonce@) == Ok::<_, ErrorView>(
            data_key@,
        ));
    }
    Ok(PreparedUpload { content, thumbnail: sealed_thumbnail, wrapped_key, row })
}

/// The blobs to remove when recording the row of upload `id` fails: its
/// content and its thumbnail, which nothing would point at. The thumbnail key
/// is listed for every upload; removing a blob that was never written does
/// nothing.
pub fn orphaned_blobs(id: u128) -> (keys: Vec<String>)
    ensures
        keys@.len() == 2,
        keys@[0]@ == content_key_text(id),
        keys@[1]@ == thumbnail_key_text(id),
{
    let mut keys: Vec<String> = Vec::new();
    keys.push(content_key(id));
    keys.push(thumbnail_key(id));
    keys
}

/// What an upload answers once the database has answered the write of its
/// row, and which blobs to remove: the database's answer itself, unchanged,
/// and, when the write failed, both blobs of upload `id`.
pub fn settle_record<T, E>(id: u128, recorded: Result<T, E>) -> (r: (Result<T, E>, Vec<String>))
    ensures
        r.0 == recorded,
        recorded is Ok ==> r.1@.len() == 0,
        recorded is Err ==> r.1@.len() == 2 && r.1@[0]@ == content_key_text(id) && r.1@[1]@
            == thumbnail_key_text(id),
{
    match recorded {
        Ok(row) => (Ok(row), Vec::new()),
        Err(e) => (Err(e), orphaned_blobs(id)),
    }
}

/// What the image compressor made of an image upload: the content after the
/// lossy pass, and the thumbnail.
#[derive(Debug)]
pub struct ImagePasses {
    pub shrunk: Vec<u8>,
    pub thumbnail: Vec<u8>,
}

/// The content and thumbnail an upload goes into the pipeline with: for an
/// image, what its image passes made (no thumbnail when they are missing);
/// for anything else, the content as it came and no thumbnail.
pub open spec fn pipeline_input(mime_type: Seq<char>, content: Seq<u8>, passes: Option<ImagePasses>) -> (
    Seq<u8>,
    Option<Seq<u8>>,
) {
    if image_type(mime_type) {
        match passes {
            Some(p) => (p.shrunk@, Some(p.thumbnail@)),
            None => (content, None),
        }
    } else {
        (content, None)
    }
}

/// The guard an upload passes before any work is spent on it: the validated
/// name, or why the upload is refused. [`upload_file`] holds uploads to the
/// same check.
pub fn check_upload(
    user_id: u128,
    name: String,
    parent_id: Option<u128>,
    parent_facts: &AccessFacts,
) -> (r: Result<String, CoreError>)
    ensures
        text_outcome(r) == crate::directory::creation_check(user_id, name@, parent_id, *parent_facts),
{
    crate::directory::create_directory(user_id, name, parent_id, parent_facts)
}

/// Accepts one upload into `parent_id`, or into the caller's root when it is
/// `None`, as file `id`, and prepares what is stored for it. Needs
/// [`PermissionLevel::Editor`] on the parent; the caller's own root needs no
/// check. `passes` is what the image compressor made of an image upload; it
/// is not used for anything else.
///
/// An accepted upload is prepared under its validated name, owned by the
/// caller, with the size of the content as it came; see [`prepared_as`] for
/// the row and what it restores to.
pub fn upload_file(
    user_id: u128,
    parent_id: Option<u128>,
    parent_facts: &AccessFacts,
    id: u128,
    upload: Upload,
    passes: Option<ImagePasses>,
    master_key: &[u8; KEY_LENGTH],
) -> (r: Result<PreparedUpload, CoreError>)
    ensures
        match crate::directory::creation_check(user_id, upload.name@, parent_id, *parent_facts) {
            Err(e) => r matches Err(f) && f@ == e,
            Ok(name) => {
                let (shrunk, thumbnail) = pipeline_input(upload.mime_type@, upload.content@, passes);
                match r {
                    Ok(p) => upload_check(upload.mime_type@, shrunk, thumbnail) == Ok::<
                        (),
                        ErrorView,
                    >(()) && prepared_as(
                        p,
                        master_key@,
                        user_id,
                        id,
                        parent_id,
                        name,
                        upload.mime_type@,
                        upload.content@.len() as usize,
                        shrunk,
                        thumbnail,
                    ),
                    Err(e) => upload_check(upload.mime_type@, shrunk, thumbnail) == Err::<(), _>(
                        e@,
                    ),
                }
            },
        },
{
    let name = crate::directory::create_directory(user_id, upload.name, parent_id, parent_facts)?;
    let original_size = upload.content.len();
    let (shrunk, thumbnail) = if is_image(upload.mime_type.as_str()) {
        match passes {
            Some(p) => (p.shrunk, Some(p.thumbnail)),
            None => (upload.content, None),
        }
    } else {
        (upload.content, None)
    };
    prepare_upload(
        user_id,
        id,
        parent_id,
        name,
        upload.mime_type,
        original_size,
        shrunk,
        thumbnail,
        master_key,
    )
}

/// Guards reading one file's metadata or content. Needs
/// [`PermissionLevel::Viewer`].
pub fn read_file(user_id: u128, id: u128, facts: &AccessFacts) -> (r: Result<(), CoreError>)
    ensures
        outcome(r) == required(user_id, ResourceRef::File(id), *facts, PermissionLevel::Viewer),
{
    require(user_id, ResourceRef::File(id), facts, PermissionLevel::Viewer)
}

/// What renaming and/or moving a file answers.
pub open spec fn file_update_check(
    user: u128,
    id: u128,
    facts: AccessFacts,
    owner: u128,
    name: Option<String>,
    parent_id: Option<Option<u128>>,
    destination_facts: AccessFacts,
) -> Result<(Option<Seq<char>>, Option<Option<u128>>), ErrorView> {
    match required(user, ResourceRef::File(id), facts, PermissionLevel::Editor) {
        Err(e) => Err(e),
        Ok(()) => match optional_name(name) {
            Err(e) => Err(e),
            Ok(n) => match parent_id {
                None => Ok((n, parent_id)),
                Some(destination) => match move_check(user, destination, destination_facts, None) {
                    Err(e) => Err(e),
                    Ok(()) => if destination is None && owner != user {
                        Err(ErrorView::InvalidRequest("only the owner may move a file to the root"@))
                    } else {
                        Ok((n, parent_id))
                    },
                },
            },
        },
    }
}

/// Decides a rename and/or move of a file. Needs [`PermissionLevel::Editor`]
/// on it, and on the destination directory when it moves; only the file's
/// owner may move it to the root.
pub fn update_file(
    user_id: u128,
    id: u128,
    facts: &AccessFacts,
    owner: u128,
    name: Option<String>,
    parent_id: Option<Option<u128>>,
    destination_facts: &AccessFacts,
) -> (r: Result<EntryUpdate, CoreError>)
    ensures
        update_outcome(r) == file_update_check(
            user_id,
            id,
            *facts,
            owner,
            name,
            parent_id,
            *destination_facts,
        ),
{
    require(user_id, ResourceRef::File(id), facts, PermissionLevel::Editor)?;
    let name = match name {
        None => None,
        Some(n) => Some(validate_name(n)?),
    };
    if let Some(destination) = parent_id {
        check_move_destination(user_id, destination, destination_facts, None)?;
        if destination.is_none() && owner != user_id {
            return Err(
                CoreError::InvalidRequest(
                    String::from_str("only the owner may move a file to the root"),
                ),
            );
        }
    }
    Ok(EntryUpdate { name, parent_id })
}

/// Guards the deletion of a file and its stored blobs. Needs
/// [`PermissionLevel::Manager`].
pub fn delete_file(user_id: u128, id: u128, facts: &AccessFacts) -> (r: Result<(), CoreError>)
    ensures
        outcome(r) == required(user_id, ResourceRef::File(id), *facts, PermissionLevel::Manager),
{
    require(user_id, ResourceRef::File(id), facts, PermissionLevel::Manager)
}

/// The owner of a file who can edit it may move it to its root, and the
/// update carries exactly that move.
pub proof fn law_an_owner_moves_its_file_to_the_root(
    user: u128,
    id: u128,
    facts: AccessFacts,
    destination_facts: AccessFacts,
)
    requires
        access_of(user, facts, PermissionLevel::Editor) == Ok::<bool, ErrorView>(true),
    ensures
        file_update_check(user, id, facts, user, None, Some(None), destination_facts) == Ok::<
            _,
            ErrorView,
        >((None::<Seq<char>>, Some(None::<u128>))),
{
}

/// Anyone else who can edit a file is refused a move of it to the root: a
/// root belongs to one user.
pub proof fn law_only_the_owner_moves_a_file_to_the_root(
    user: u128,
    id: u128,
    facts: AccessFacts,
    owner: u128,
    destination_facts: AccessFacts,
)
    requires
        access_of(user, facts, PermissionLevel::Editor) == Ok::<bool, ErrorView>(true),
        owner != user,
    ensures
        file_update_check(user, id, facts, owner, None, Some(None), destination_facts) == Err::<
            (Option<Seq<char>>, Option<Option<u128>>),
            _,
        >(ErrorView::InvalidRequest("only the owner may move a file to the root"@)),
{
}

/// Whoever can edit a file may rename it to any name validation accepts, and
/// the update carries the validated name.
pub proof fn law_an_editor_renames_a_file(
    user: u128,
    id: u128,
    facts: AccessFacts,
    owner: u128,
    name: String,
    destination_facts: AccessFacts,
)
    requires
        access_of(user, facts, PermissionLevel::Editor) == Ok::<bool, ErrorView>(true),
        checked_name(name@) is Ok,
    ensures
        file_update_check(user, id, facts, owner, Some(name), None, destination_facts) == Ok::<
            _,
            ErrorView,
        >((Some(checked_name(name@)->Ok_0), None::<Option<u128>>)),
{
}

/// A caller whose level on a file stays below Editor changes nothing about
/// it, and is told the file does not exist.
pub proof fn law_below_editor_a_file_is_not_found(
    user: u128,
    id: u128,
    facts: AccessFacts,
    owner: u128,
    name: Option<String>,
    parent_id: Option<Option<u128>>,
    destination_facts: AccessFacts,
)
    requires
        access_of(user, facts, PermissionLevel::Editor) == Ok::<bool, ErrorView>(false),
    ensures
        file_update_check(user, id, facts, owner, name, parent_id, destination_facts) == Err::<
            (Option<Seq<char>>, Option<Option<u128>>),
            _,
        >(ErrorView::NotFound(uuid_text(id))),
{
}

} // verus!
