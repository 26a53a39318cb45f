use app_core::access::{effective_level, has_access, require, AccessFacts, Lineage, ResourceRef};
use app_core::error::CoreError;
use app_core::level::PermissionLevel;
use app_core::models::{Directory, DirectoryPermission, File, FilePermission};
use uuid::Uuid;

fn id() -> u128 {
    Uuid::new_v4().as_u128()
}

fn directory(owner: u128, parent_id: Option<u128>) -> Directory {
    let id = id();
    Directory {
        id,
        name: format!("dir-{}", Uuid::from_u128(id)),
        owner,
        parent_id,
        created_at: 0,
        updated_at: 0,
    }
}

fn file(owner: u128, parent_id: Option<u128>) -> File {
    let id = Uuid::now_v7().as_u128();
    File {
        id,
        name: format!("file-{}", Uuid::from_u128(id)),
        owner,
        parent_id,
        storage_key: format!("files/{}/content", Uuid::from_u128(id)),
        mime_type: "text/plain".to_string(),
        size_bytes: 0,
        stored_size_bytes: 0,
        is_compressed: false,
        encrypted_dek: Vec::new(),
        dek_nonce: Vec::new(),
        content_nonce: Vec::new(),
        thumbnail_storage_key: None,
        thumbnail_nonce: None,
        created_at: 0,
        updated_at: 0,
    }
}

fn directory_grant(directory_id: u128, grantee: u128, level: &str, by: u128) -> DirectoryPermission {
    DirectoryPermission {
        id: id(),
        directory_id,
        grantee,
        permission_level: level.to_string(),
        granted_by: by,
        created_at: 0,
        updated_at: 0,
    }
}

fn file_grant(file_id: u128, grantee: u128, level: &str, by: u128) -> FilePermission {
    FilePermission {
        id: id(),
        file_id,
        grantee,
        permission_level: level.to_string(),
        granted_by: by,
        created_at: 0,
        updated_at: 0,
    }
}

fn on_directory(ancestors: Vec<Directory>, grants: Vec<DirectoryPermission>) -> AccessFacts {
    AccessFacts::Directory(Lineage { ancestors, grants })
}

fn on_file(
    file: Option<File>,
    own_grant: Option<FilePermission>,
    ancestors: Vec<Directory>,
    grants: Vec<DirectoryPermission>,
) -> AccessFacts {
    AccessFacts::File { file, own_grant, lineage: Lineage { ancestors, grants } }
}

#[test]
fn the_owner_of_a_directory_manages_it() {
    let owner = id();
    let dir = directory(owner, None);

    let level = effective_level(owner, &on_directory(vec![dir], vec![]))
        .expect("effective_level failed");

    assert_eq!(
        level,
        Some(PermissionLevel::Manager),
        "the owner must manage its own directory, got {level:?}"
    );
}

#[test]
fn the_owner_of_a_file_manages_it() {
    let owner = id();
    let f = file(owner, None);

    let level = effective_level(owner, &on_file(Some(f), None, vec![], vec![]))
        .expect("effective_level failed");

    assert_eq!(
        level,
        Some(PermissionLevel::Manager),
        "the owner must manage its own file, got {level:?}"
    );
}

#[test]
fn a_stranger_reaches_nothing() {
    let owner = id();
    let stranger = id();
    let dir = directory(owner, None);
    let f = file(owner, Some(dir.id));

    let on_dir = effective_level(stranger, &on_directory(vec![dir.clone()], vec![]))
        .expect("effective_level failed");
    let on_f = effective_level(stranger, &on_file(Some(f), None, vec![dir], vec![]))
        .expect("effective_level failed");

    assert_eq!(on_dir, None, "a stranger must hold no level on the directory, got {on_dir:?}");
    assert_eq!(on_f, None, "a stranger must hold no level on the file, got {on_f:?}");
}

#[test]
fn a_direct_grant_on_a_file_is_honoured() {
    let owner = id();
    let guest = id();
    let f = file(owner, None);
    let own = file_grant(f.id, guest, "editor", owner);

    let level = effective_level(guest, &on_file(Some(f), Some(own), vec![], vec![]))
        .expect("effective_level failed");

    assert_eq!(level, Some(PermissionLevel::Editor), "the direct grant must apply, got {level:?}");
}

#[test]
fn a_grant_on_an_ancestor_directory_reaches_a_nested_file() {
    let owner = id();
    let guest = id();
    let root = directory(owner, None);
    let middle = directory(owner, Some(root.id));
    let leaf = directory(owner, Some(middle.id));
    let f = file(owner, Some(leaf.id));
    let chain = vec![leaf.clone(), middle.clone(), root.clone()];
    let grants = vec![directory_grant(root.id, guest, "viewer", owner)];

    let on_leaf = effective_level(guest, &on_directory(chain.clone(), grants.clone()))
        .expect("effective_level failed");
    let on_f = effective_level(guest, &on_file(Some(f), None, chain, grants))
        .expect("effective_level failed");

    assert_eq!(
        on_leaf,
        Some(PermissionLevel::Viewer),
        "the grant on the root must reach the leaf directory, got {on_leaf:?}"
    );
    assert_eq!(
        on_f,
        Some(PermissionLevel::Viewer),
        "the grant on the root must reach the nested file, got {on_f:?}"
    );
}

#[test]
fn the_highest_applicable_level_wins() {
    let owner = id();
    let guest = id();
    let dir = directory(owner, None);
    let f = file(owner, Some(dir.id));
    let grants = vec![directory_grant(dir.id, guest, "viewer", owner)];
    let own = file_grant(f.id, guest, "manager", owner);

    let level = effective_level(guest, &on_file(Some(f), Some(own), vec![dir], grants))
        .expect("effective_level failed");

    assert_eq!(
        level,
        Some(PermissionLevel::Manager),
        "the file grant outranks the inherited one and must win, got {level:?}"
    );
}

#[test]
fn a_deeper_grant_does_not_lower_an_inherited_one() {
    let owner = id();
    let guest = id();
    let root = directory(owner, None);
    let child = directory(owner, Some(root.id));
    let grants = vec![
        directory_grant(root.id, guest, "manager", owner),
        directory_grant(child.id, guest, "viewer", owner),
    ];

    let level = effective_level(guest, &on_directory(vec![child, root], grants))
        .expect("effective_level failed");

    assert_eq!(
        level,
        Some(PermissionLevel::Manager),
        "the highest of the applicable levels must win, got {level:?}"
    );
}

#[test]
fn owning_an_ancestor_directory_reaches_someone_elses_file() {
    let owner = id();
    let contributor = id();
    let dir = directory(owner, None);
    let f = file(contributor, Some(dir.id));

    let level = effective_level(owner, &on_file(Some(f), None, vec![dir], vec![]))
        .expect("effective_level failed");

    assert_eq!(
        level,
        Some(PermissionLevel::Manager),
        "the owner of the containing directory must manage what it holds, got {level:?}"
    );
}

#[test]
fn a_missing_resource_yields_no_level_rather_than_an_error() {
    let on_dir = effective_level(id(), &on_directory(vec![], vec![]))
        .expect("effective_level failed");
    let on_f = effective_level(id(), &on_file(None, None, vec![], vec![]))
        .expect("effective_level failed");

    assert_eq!(on_dir, None, "an unknown directory must yield no level, got {on_dir:?}");
    assert_eq!(on_f, None, "an unknown file must yield no level, got {on_f:?}");
}

#[test]
fn has_access_compares_against_the_minimum() {
    let owner = id();
    let guest = id();
    let dir = directory(owner, None);
    let facts = on_directory(vec![dir.clone()], vec![directory_grant(dir.id, guest, "editor", owner)]);

    let as_viewer = has_access(guest, &facts, PermissionLevel::Viewer).expect("has_access failed");
    let as_editor = has_access(guest, &facts, PermissionLevel::Editor).expect("has_access failed");
    let as_manager = has_access(guest, &facts, PermissionLevel::Manager).expect("has_access failed");

    assert!(as_viewer, "an editor must satisfy a viewer minimum, got false");
    assert!(as_editor, "an editor must satisfy an editor minimum, got false");
    assert!(!as_manager, "an editor must not satisfy a manager minimum, got true");
}

#[test]
fn require_answers_not_found_when_the_level_is_too_low() {
    let owner = id();
    let guest = id();
    let dir = directory(owner, None);
    let facts = on_directory(vec![dir.clone()], vec![directory_grant(dir.id, guest, "viewer", owner)]);

    let refused = require(guest, ResourceRef::Directory(dir.id), &facts, PermissionLevel::Manager);

    match refused {
        Err(CoreError::NotFound(named)) => assert_eq!(
            named,
            Uuid::from_u128(dir.id).to_string(),
            "the error must name the resource, got {named}"
        ),
        other => panic!("expected NotFound so existence does not leak, got {other:?}"),
    }
}

#[test]
fn a_stored_level_that_does_not_parse_is_refused() {
    let owner = id();
    let guest = id();
    let dir = directory(owner, None);
    let facts = on_directory(vec![dir.clone()], vec![directory_grant(dir.id, guest, "admin", owner)]);

    let refused = effective_level(guest, &facts);

    match refused {
        Err(CoreError::InvalidRequest(message)) => {
            assert_eq!(message, "unknown permission level: admin")
        },
        other => panic!("expected InvalidRequest, got {other:?}"),
    }
}

#[test]
fn a_missing_resource_and_a_forbidden_one_are_refused_alike() {
    let owner = id();
    let stranger = id();
    let dir = directory(owner, None);
    let resource = ResourceRef::Directory(dir.id);

    let forbidden = require(stranger, resource, &on_directory(vec![dir.clone()], vec![]), PermissionLevel::Viewer);
    let missing = require(stranger, resource, &on_directory(vec![], vec![]), PermissionLevel::Viewer);

    assert_eq!(format!("{forbidden:?}"), format!("{missing:?}"));
}
