use app_core::api_key::{generate_random_key, hex_sha256, require_key_owner};
use app_core::respond::ApiError;
use app_core::text::uuid_string;
use uuid::Uuid;
use app_core::level::{highest, parse_level, PermissionLevel};
use app_core::parameters::{
    Compression, ImageCompression, ImageConversion, ImageResize, PostUploadParams,
    StorageParameters,
};

#[test]
fn levels_parse_from_their_stored_names() {
    for level in [PermissionLevel::Viewer, PermissionLevel::Editor, PermissionLevel::Manager] {
        assert_eq!(parse_level(level.as_str()).ok(), Some(level));
    }
    assert!(parse_level("Manager").is_err());
}

#[test]
fn the_highest_of_two_levels_wins() {
    assert_eq!(highest(Some(PermissionLevel::Viewer), Some(PermissionLevel::Manager)), Some(PermissionLevel::Manager));
    assert_eq!(highest(None, Some(PermissionLevel::Editor)), Some(PermissionLevel::Editor));
    assert_eq!(highest(None, None), None);
    assert!(PermissionLevel::Editor.at_least(PermissionLevel::Viewer));
    assert!(!PermissionLevel::Editor.at_least(PermissionLevel::Manager));
}

#[test]
fn an_api_key_is_sixty_four_hex_digits() {
    let key = generate_random_key();
    assert_eq!(key.len(), 64);
    assert!(key.chars().all(|c| c.is_ascii_hexdigit() && !c.is_ascii_uppercase()));
    assert_ne!(key, generate_random_key());
}

#[test]
fn the_stored_hash_is_the_sha256_of_the_key() {
    assert_eq!(
        hex_sha256("abc"),
        "ba7816bf8f01cfea414140de5dae2223b00361a396177a9cb410ff61f20015ad"
    );
}

#[test]
fn default_upload_parameters_are_gzip_and_lossy() {
    let params = PostUploadParams {
        compression: None,
        image_compression: None,
        image_conversion: None,
        image_height: None,
        image_width: None,
    }
    .into_storage_parameters();

    assert_eq!(params, StorageParameters::compressed_lossy());
    assert_eq!(params.compression, Compression::Gzip);
    assert_eq!(params.image.compression, ImageCompression::Lossy);
}

#[test]
fn upload_parameters_follow_the_query() {
    let params = PostUploadParams {
        compression: Some(false),
        image_compression: Some("lossless".to_string()),
        image_conversion: Some("webp".to_string()),
        image_height: None,
        image_width: Some(640),
    }
    .into_storage_parameters();

    assert_eq!(params.compression, Compression::NoCompression);
    assert_eq!(params.image.compression, ImageCompression::Lossless);
    assert_eq!(params.image.conversion, ImageConversion::Webp);
    assert_eq!(params.image.resize, ImageResize { height: None, width: Some(640) });

    let unknown = PostUploadParams {
        compression: Some(true),
        image_compression: Some("best".to_string()),
        image_conversion: Some("gif".to_string()),
        image_height: None,
        image_width: None,
    }
    .into_storage_parameters();
    assert_eq!(unknown.compression, Compression::Gzip);
    assert_eq!(unknown.image.compression, ImageCompression::Lossy);
    assert_eq!(unknown.image.conversion, ImageConversion::NoConversion);
}

#[test]
fn only_its_owner_reaches_an_api_key() {
    let owner = Uuid::new_v4().as_u128();
    let stranger = Uuid::new_v4().as_u128();
    let id = Uuid::new_v4();

    assert!(require_key_owner(owner, id.as_u128(), Some(owner)).is_ok());

    let foreign = require_key_owner(stranger, id.as_u128(), Some(owner));
    let missing = require_key_owner(stranger, id.as_u128(), None);
    match (foreign, missing) {
        (Err(ApiError::NotFound(a)), Err(ApiError::NotFound(b))) => {
            assert_eq!(a, id.to_string());
            assert_eq!(a, b, "someone else's key must look missing");
        }
        other => panic!("expected two NotFound answers, got {other:?}"),
    }
}

#[test]
fn a_uuid_renders_as_the_uuid_crate_displays_it() {
    for value in [0u128, 1, u128::MAX, 0x0123_4567_89ab_cdef_fedc_ba98_7654_3210] {
        assert_eq!(uuid_string(value), Uuid::from_u128(value).to_string());
    }
    for _ in 0..20 {
        let id = Uuid::new_v4();
        assert_eq!(uuid_string(id.as_u128()), id.to_string());
    }
}
