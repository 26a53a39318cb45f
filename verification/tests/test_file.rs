use app_core::access::{AccessFacts, Lineage};
use app_core::compression::{compress_for_storage, gunzip};
use app_core::encryption::{generate_data_key, open, seal, unwrap_data_key, wrap_data_key};
use app_core::error::CoreError;
use app_core::file::{
    compression_plan, content_key, is_already_compressed, is_image, new_file_row, open_content,
    check_upload, open_thumbnail, orphaned_blobs, prepare_upload, restore_content, settle_record,
    thumbnail_key, upload_file, ImagePasses, Upload, thumbnail_location, update_file, CompressionPlan,
};
use app_core::models::{File, NewFile};
use uuid::Uuid;

/// Repetitive enough that gzip has something to work with.
fn text_payload() -> Vec<u8> {
    "the quick brown fox jumps over the lazy dog\n".repeat(200).into_bytes()
}

fn stored(row: NewFile) -> File {
    File {
        id: row.id,
        name: row.name,
        owner: row.owner,
        parent_id: row.parent_id,
        storage_key: row.storage_key,
        mime_type: row.mime_type,
        size_bytes: row.size_bytes,
        stored_size_bytes: row.stored_size_bytes,
        is_compressed: row.is_compressed,
        encrypted_dek: row.encrypted_dek,
        dek_nonce: row.dek_nonce,
        content_nonce: row.content_nonce,
        thumbnail_storage_key: row.thumbnail_storage_key,
        thumbnail_nonce: row.thumbnail_nonce,
        created_at: 0,
        updated_at: 0,
    }
}

#[test]
fn image_types_are_recognised() {
    for mime_type in ["image/png", "image/jpeg", "image/webp", "image/avif"] {
        assert!(is_image(mime_type), "{mime_type} must be treated as an image, got false");
    }
    for mime_type in ["text/plain", "application/pdf", "video/mp4"] {
        assert!(!is_image(mime_type), "{mime_type} must not be treated as an image, got true");
    }
}

#[test]
fn already_dense_formats_skip_gzip() {
    for mime_type in [
        "image/jpeg",
        "image/png",
        "image/webp",
        "application/zip",
        "application/gzip",
        "video/mp4",
        "audio/mpeg",
    ] {
        assert!(is_already_compressed(mime_type), "{mime_type} must skip gzip, got false");
    }
}

#[test]
fn compressible_formats_are_gzipped() {
    for mime_type in ["text/plain", "application/json", "application/pdf"] {
        assert!(!is_already_compressed(mime_type), "{mime_type} must be gzipped, got true");
    }
}

#[test]
fn the_plan_follows_the_type() {
    assert_eq!(compression_plan("text/plain"), CompressionPlan { image_pass: false, gzip: true });
    assert_eq!(compression_plan("application/zip"), CompressionPlan { image_pass: false, gzip: false });
    assert_eq!(compression_plan("image/png"), CompressionPlan { image_pass: true, gzip: false });
    assert_eq!(compression_plan("image/avif"), CompressionPlan { image_pass: true, gzip: true });
}

#[test]
fn storage_keys_leak_neither_name_nor_type() {
    let id = Uuid::now_v7();

    let content = content_key(id.as_u128());
    let thumbnail = thumbnail_key(id.as_u128());

    assert_eq!(content, format!("files/{id}/content"), "unexpected content key, got {content}");
    assert_eq!(
        thumbnail,
        format!("files/{id}/thumbnail"),
        "unexpected thumbnail key, got {thumbnail}"
    );
    assert_ne!(
        content, thumbnail,
        "the two blobs of one file must not share a key, both were {content}"
    );
}

#[test]
fn the_sealed_pipeline_round_trips() {
    let payload = text_payload();
    let master_key = generate_data_key();
    let data_key = generate_data_key();
    let content = seal(&data_key, &payload).expect("seal failed");
    let wrapped = wrap_data_key(&master_key, &data_key).expect("wrap failed");
    let id = Uuid::now_v7().as_u128();

    let row = new_file_row(
        id,
        Uuid::new_v4().as_u128(),
        None,
        "notes.txt".to_string(),
        "text/plain".to_string(),
        payload.len(),
        &content,
        true,
        &wrapped,
        None,
    );
    assert_eq!(row.storage_key, format!("files/{}/content", Uuid::from_u128(id)));
    assert_eq!(row.size_bytes, payload.len() as i64);
    assert_eq!(row.stored_size_bytes, (payload.len() + 16) as i64);
    assert!(row.thumbnail_storage_key.is_none());

    let file = stored(row);
    let opened = open_content(&master_key, &file, &content.ciphertext).expect("open failed");

    assert_eq!(opened, payload, "the pipeline must give back the original bytes");
}

#[test]
fn a_text_payload_is_gzipped_and_shrinks() {
    let payload = text_payload();

    let compressed = compress_for_storage(payload.clone(), "text/plain").expect("compression failed");

    assert!(compressed.gzipped, "text must be recorded as compressed, got false");
    assert!(
        compressed.bytes.len() < payload.len(),
        "gzip must shrink repetitive text, went from {} to {} bytes",
        payload.len(),
        compressed.bytes.len()
    );
}

#[test]
fn a_dense_payload_is_left_alone() {
    let payload = text_payload();

    let compressed =
        compress_for_storage(payload.clone(), "application/zip").expect("compression failed");

    assert!(!compressed.gzipped, "an already compressed type must not be gzipped, got true");
    assert_eq!(
        compressed.bytes,
        payload,
        "the bytes must pass through untouched, got {} bytes",
        compressed.bytes.len()
    );
}

#[test]
fn the_full_pipeline_round_trips() {
    let payload = text_payload();
    let master_key = generate_data_key();

    let compressed = compress_for_storage(payload.clone(), "text/plain").expect("compression failed");
    let data_key = generate_data_key();
    let sealed = seal(&data_key, &compressed.bytes).expect("seal failed");
    let wrapped = wrap_data_key(&master_key, &data_key).expect("wrap failed");

    let recovered_key =
        unwrap_data_key(&master_key, &wrapped.ciphertext, &wrapped.nonce).expect("unwrap failed");
    let opened = open(&recovered_key, &sealed.nonce, &sealed.ciphertext).expect("open failed");
    let restored = gunzip(&opened).expect("decompression failed");

    assert_eq!(
        restored,
        payload,
        "the pipeline must give back the original bytes, got {} of {} bytes",
        restored.len(),
        payload.len()
    );
}

#[test]
fn a_stored_file_restores_to_its_upload() {
    let master_key = generate_data_key();
    for (mime_type, gzipped) in [("text/plain", true), ("application/zip", false)] {
        let payload = text_payload();
        let compressed = compress_for_storage(payload.clone(), mime_type).expect("compression failed");
        assert_eq!(compressed.gzipped, gzipped);
        let data_key = generate_data_key();
        let content = seal(&data_key, &compressed.bytes).expect("seal failed");
        let wrapped = wrap_data_key(&master_key, &data_key).expect("wrap failed");
        let row = new_file_row(
            Uuid::now_v7().as_u128(),
            Uuid::new_v4().as_u128(),
            None,
            "payload".to_string(),
            mime_type.to_string(),
            payload.len(),
            &content,
            compressed.gzipped,
            &wrapped,
            None,
        );
        assert_eq!(row.is_compressed, gzipped);
        let file = stored(row);

        let restored =
            restore_content(&master_key, &file, &content.ciphertext).expect("restore failed");

        assert_eq!(restored, payload, "{mime_type} must read back as it was uploaded");
    }
}

#[test]
fn bytes_that_are_not_gzip_do_not_decode() {
    let r = gunzip(b"plainly not a gzip stream");
    assert!(matches!(r, Err(CoreError::Compression)), "got {r:?}");
}

#[test]
fn an_empty_payload_gzips_and_decodes_to_nothing() {
    let compressed = compress_for_storage(Vec::new(), "text/plain").expect("compression failed");
    assert!(compressed.gzipped);
    assert!(!compressed.bytes.is_empty(), "a gzip stream has a header even for no content");
    assert_eq!(gunzip(&compressed.bytes).expect("decode failed"), Vec::<u8>::new());
}

#[test]
fn stored_bytes_never_hold_the_plaintext() {
    let payload = text_payload();
    let compressed = compress_for_storage(payload.clone(), "text/plain").expect("compression failed");
    let data_key = generate_data_key();

    let sealed = seal(&data_key, &compressed.bytes).expect("seal failed");

    assert!(
        !sealed
            .ciphertext
            .windows(payload.len().min(32))
            .any(|window| window == &payload[..payload.len().min(32)]),
        "the ciphertext must not contain the start of the plaintext, {} bytes stored",
        sealed.ciphertext.len()
    );
}

#[test]
fn a_thumbnail_opens_with_its_own_nonce() {
    let master_key = generate_data_key();
    let data_key = generate_data_key();
    let content = seal(&data_key, b"an image").expect("seal failed");
    let thumbnail = seal(&data_key, b"a small image").expect("seal failed");
    let wrapped = wrap_data_key(&master_key, &data_key).expect("wrap failed");
    let id = Uuid::now_v7().as_u128();
    let row = new_file_row(
        id,
        Uuid::new_v4().as_u128(),
        None,
        "photo.png".to_string(),
        "image/png".to_string(),
        8,
        &content,
        false,
        &wrapped,
        Some(thumbnail.nonce),
    );
    let file = stored(row);

    let location = thumbnail_location(&file).expect("a thumbnail was stored");
    let opened = open_thumbnail(&master_key, &file, &thumbnail.ciphertext).expect("open failed");

    assert_eq!(location, format!("files/{}/thumbnail", Uuid::from_u128(id)));
    assert_eq!(opened, b"a small image");
}

#[test]
fn a_file_without_a_thumbnail_answers_not_found() {
    let master_key = generate_data_key();
    let data_key = generate_data_key();
    let content = seal(&data_key, b"text").expect("seal failed");
    let wrapped = wrap_data_key(&master_key, &data_key).expect("wrap failed");
    let id = Uuid::now_v7();
    let file = stored(new_file_row(
        id.as_u128(),
        Uuid::new_v4().as_u128(),
        None,
        "a.txt".to_string(),
        "text/plain".to_string(),
        4,
        &content,
        true,
        &wrapped,
        None,
    ));

    match open_thumbnail(&master_key, &file, b"anything") {
        Err(CoreError::NotFound(message)) => assert_eq!(message, format!("thumbnail of {id}")),
        other => panic!("expected NotFound, got {other:?}"),
    }
}

#[test]
fn only_the_owner_moves_a_file_to_the_root() {
    let owner = Uuid::new_v4().as_u128();
    let editor = Uuid::new_v4().as_u128();
    let file_id = Uuid::new_v4().as_u128();
    let facts = AccessFacts::File {
        file: Some(File {
            id: file_id,
            name: "a".to_string(),
            owner,
            parent_id: None,
            storage_key: String::new(),
            mime_type: "text/plain".to_string(),
            size_bytes: 0,
            stored_size_bytes: 0,
            is_compressed: false,
            encrypted_dek: vec![],
            dek_nonce: vec![],
            content_nonce: vec![],
            thumbnail_storage_key: None,
            thumbnail_nonce: None,
            created_at: 0,
            updated_at: 0,
        }),
        own_grant: Some(app_core::models::FilePermission {
            id: 1,
            file_id,
            grantee: editor,
            permission_level: "editor".to_string(),
            granted_by: owner,
            created_at: 0,
            updated_at: 0,
        }),
        lineage: Lineage { ancestors: vec![], grants: vec![] },
    };
    let none = AccessFacts::Directory(Lineage { ancestors: vec![], grants: vec![] });

    let refused = update_file(editor, file_id, &facts, owner, None, Some(None), &none);
    let renamed = update_file(editor, file_id, &facts, owner, Some("b ".to_string()), None, &none)
        .expect("an editor renames");

    assert!(matches!(refused, Err(CoreError::InvalidRequest(_))), "got {refused:?}");
    assert_eq!(renamed.name.as_deref(), Some("b"));
}

#[test]
fn a_prepared_text_upload_is_gzipped_and_restores() {
    let master_key = generate_data_key();
    let payload = text_payload();
    let id = Uuid::now_v7().as_u128();
    let owner = Uuid::new_v4().as_u128();

    let prepared = prepare_upload(
        owner,
        id,
        None,
        "notes.txt".to_string(),
        "text/plain".to_string(),
        payload.len(),
        payload.clone(),
        None,
        &master_key,
    )
    .expect("prepare failed");

    let row = prepared.row;
    assert!(row.is_compressed, "text must be gzipped");
    assert_eq!(row.storage_key, format!("files/{}/content", Uuid::from_u128(id)));
    assert_eq!((row.id, row.owner, row.parent_id), (id, owner, None));
    assert_eq!(row.name, "notes.txt");
    assert_eq!(row.size_bytes, payload.len() as i64);
    assert_eq!(row.stored_size_bytes, prepared.content.ciphertext.len() as i64);
    assert!(row.stored_size_bytes < payload.len() as i64, "gzip must shrink repetitive text");
    assert!(row.thumbnail_storage_key.is_none() && prepared.thumbnail.is_none());

    let file = stored(row);
    let restored = restore_content(&master_key, &file, &prepared.content.ciphertext).expect("restore failed");
    assert_eq!(restored, payload);
}

#[test]
fn a_prepared_image_carries_its_thumbnail_under_its_own_nonce() {
    let master_key = generate_data_key();
    let shrunk = vec![7u8; 300];
    let thumbnail = vec![9u8; 40];
    let id = Uuid::now_v7().as_u128();

    let prepared = prepare_upload(
        Uuid::new_v4().as_u128(),
        id,
        None,
        "photo.png".to_string(),
        "image/png".to_string(),
        1000,
        shrunk.clone(),
        Some(thumbnail.clone()),
        &master_key,
    )
    .expect("prepare failed");

    assert!(!prepared.row.is_compressed, "png is already dense");
    assert_eq!(
        prepared.row.thumbnail_storage_key,
        Some(format!("files/{}/thumbnail", Uuid::from_u128(id)))
    );
    let sealed_thumbnail = prepared.thumbnail.expect("an image must get a thumbnail");
    assert_ne!(sealed_thumbnail.nonce, prepared.content.nonce);

    let file = stored(prepared.row);
    assert_eq!(
        restore_content(&master_key, &file, &prepared.content.ciphertext).expect("restore failed"),
        shrunk
    );
    assert_eq!(
        open_thumbnail(&master_key, &file, &sealed_thumbnail.ciphertext).expect("thumbnail failed"),
        thumbnail
    );
}

#[test]
fn an_image_without_its_thumbnail_is_refused() {
    let master_key = generate_data_key();
    let r = prepare_upload(1, 2, None, "a.png".to_string(), "image/png".to_string(), 3, vec![1, 2, 3], None, &master_key);
    match r {
        Err(CoreError::InvalidRequest(m)) => assert_eq!(m, "an image upload needs its thumbnail"),
        other => panic!("expected a refusal, got {other:?}"),
    }
}

#[test]
fn a_thumbnail_given_for_a_document_is_not_stored() {
    let master_key = generate_data_key();
    let prepared = prepare_upload(
        1,
        2,
        None,
        "a.pdf".to_string(),
        "application/pdf".to_string(),
        3,
        vec![1, 2, 3],
        Some(vec![4, 5]),
        &master_key,
    )
    .expect("prepare failed");
    assert!(prepared.thumbnail.is_none() && prepared.row.thumbnail_storage_key.is_none());
}

#[test]
fn a_failed_record_removes_both_blobs_and_answers_the_database_error() {
    let id = Uuid::now_v7();
    let both = vec![format!("files/{id}/content"), format!("files/{id}/thumbnail")];
    assert_eq!(orphaned_blobs(id.as_u128()), both);

    let (r, orphans) = settle_record::<u8, String>(id.as_u128(), Err("disk full".to_string()));
    assert_eq!(r, Err("disk full".to_string()));
    assert_eq!(orphans, both);

    let (r, orphans) = settle_record::<u8, String>(id.as_u128(), Ok(7));
    assert_eq!(r, Ok(7));
    assert!(orphans.is_empty());
}

fn root_facts() -> AccessFacts {
    AccessFacts::Directory(Lineage { ancestors: Vec::new(), grants: Vec::new() })
}

#[test]
fn an_accepted_upload_is_prepared_with_its_row() {
    let master_key = generate_data_key();
    let user = Uuid::new_v4().as_u128();
    let id = Uuid::now_v7().as_u128();
    let payload = text_payload();
    let upload = Upload {
        name: "  notes.txt ".to_string(),
        mime_type: "text/plain".to_string(),
        content: payload.clone(),
    };

    let prepared = upload_file(user, None, &root_facts(), id, upload, None, &master_key)
        .expect("upload failed");

    let row = prepared.row;
    assert_eq!((row.id, row.owner, row.parent_id), (id, user, None));
    assert_eq!(row.name, "notes.txt");
    assert_eq!(row.mime_type, "text/plain");
    assert_eq!(row.size_bytes, payload.len() as i64);
    assert!(row.is_compressed);
    assert_eq!(row.storage_key, content_key(id));
    assert!(row.thumbnail_storage_key.is_none());
    let file = stored(row);
    assert_eq!(
        restore_content(&master_key, &file, &prepared.content.ciphertext).expect("restore failed"),
        payload
    );
}

#[test]
fn an_image_upload_stores_what_its_passes_made() {
    let master_key = generate_data_key();
    let id = Uuid::now_v7().as_u128();
    let upload = Upload {
        name: "photo.png".to_string(),
        mime_type: "image/png".to_string(),
        content: vec![1u8; 500],
    };
    let passes = ImagePasses { shrunk: vec![2u8; 200], thumbnail: vec![3u8; 20] };

    let prepared = upload_file(1, None, &root_facts(), id, upload, Some(passes), &master_key)
        .expect("upload failed");

    assert_eq!(prepared.row.size_bytes, 500);
    assert!(!prepared.row.is_compressed);
    assert_eq!(prepared.row.thumbnail_storage_key, Some(thumbnail_key(id)));
    let sealed_thumbnail = prepared.thumbnail.expect("an image gets a thumbnail");
    let file = stored(prepared.row);
    assert_eq!(
        restore_content(&master_key, &file, &prepared.content.ciphertext).expect("restore failed"),
        vec![2u8; 200]
    );
    assert_eq!(
        open_thumbnail(&master_key, &file, &sealed_thumbnail.ciphertext).expect("open failed"),
        vec![3u8; 20]
    );
}

#[test]
fn an_image_upload_without_its_passes_is_refused() {
    let master_key = generate_data_key();
    let upload = Upload { name: "a.png".to_string(), mime_type: "image/png".to_string(), content: vec![1] };
    match upload_file(1, None, &root_facts(), 2, upload, None, &master_key) {
        Err(CoreError::InvalidRequest(m)) => assert_eq!(m, "an image upload needs its thumbnail"),
        other => panic!("expected a refusal, got {other:?}"),
    }
}

#[test]
fn an_upload_with_an_empty_name_is_refused_before_any_work() {
    let master_key = generate_data_key();
    let upload = Upload { name: "   ".to_string(), mime_type: "text/plain".to_string(), content: vec![1] };
    assert!(matches!(
        check_upload(1, "   ".to_string(), None, &root_facts()),
        Err(CoreError::InvalidRequest(_))
    ));
    match upload_file(1, None, &root_facts(), 2, upload, None, &master_key) {
        Err(CoreError::InvalidRequest(m)) => assert_eq!(m, "the name is empty"),
        other => panic!("expected a refusal, got {other:?}"),
    }
}

#[test]
fn an_upload_into_a_directory_a_stranger_cannot_write_is_not_found() {
    let master_key = generate_data_key();
    let parent = Uuid::new_v4();
    let facts = AccessFacts::Directory(Lineage {
        ancestors: vec![app_core::models::Directory {
            id: parent.as_u128(),
            name: "shared".to_string(),
            owner: 99,
            parent_id: None,
            created_at: 0,
            updated_at: 0,
        }],
        grants: Vec::new(),
    });
    let upload = Upload { name: "a.txt".to_string(), mime_type: "text/plain".to_string(), content: vec![1] };
    match upload_file(1, Some(parent.as_u128()), &facts, 2, upload, None, &master_key) {
        Err(CoreError::NotFound(m)) => assert_eq!(m, parent.to_string()),
        other => panic!("expected NotFound, got {other:?}"),
    }
}
