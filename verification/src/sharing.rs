//! Granting and revoking access to files and directories.
//!
//! Listing, granting and revoking all need [`PermissionLevel::Manager`] on the
//! resource. Two further rules apply to a grant:
//!
//! - nobody hands out more than they hold, so the level asked for is capped by
//!   the granter's own effective level;
//! - nobody grants to themselves, which would let a manager who inherited its
//!   level pin it down against the owner's wishes.
//!
//! The functions here decide from what the database answered; writing the
//! grant rows is the caller's part.

use vstd::prelude::*;
use vstd::string::*;

use crate::access::{
    access_of, effective_level, law_owning_a_directory_of_the_chain_gives_manager, level_of, owns_one,
    require, required, resource_id, AccessFacts, Lineage, ResourceRef,
};
use crate::error::{outcome, CoreError, ErrorView};
use crate::level::{level_name, rank, PermissionLevel};
use crate::text::{uuid_string, uuid_text};

verus! {

/// The refusal of a grant above the granter's own level.
pub open spec fn above_own_message(level: PermissionLevel, own: PermissionLevel) -> Seq<char> {
    "cannot grant "@ + level_name(level) + ", which is above the granter's own "@ + level_name(own)
}

/// What a grant of `level` to `grantee` on the resource answers.
pub open spec fn grant_check(
    user: u128,
    resource: ResourceRef,
    facts: AccessFacts,
    grantee: u128,
    grantee_exists: bool,
    level: PermissionLevel,
) -> Result<(), ErrorView> {
    match required(user, resource, facts, PermissionLevel::Manager) {
        Err(e) => Err(e),
        Ok(()) => if grantee == user {
            Err(ErrorView::InvalidRequest("a user cannot grant a permission to itself"@))
        } else if !grantee_exists {
            Err(ErrorView::NotFound(uuid_text(grantee)))
        } else {
            match level_of(user, facts) {
                Err(e) => Err(e),
                Ok(None) => Err(ErrorView::NotFound(uuid_text(grantee))),
                Ok(Some(own)) => if rank(level) > rank(own) {
                    Err(ErrorView::InvalidRequest(above_own_message(level, own)))
                } else {
                    Ok(())
                },
            }
        },
    }
}

/// The checks every grant passes: the granter manages the resource, the
/// grantee is someone else and exists (`grantee_exists` is whether its user
/// row could be read), and the level asked for does not exceed the granter's
/// own.
pub fn check_grant(
    user_id: u128,
    resource: ResourceRef,
    facts: &AccessFacts,
    grantee: u128,
    grantee_exists: bool,
    level: PermissionLevel,
) -> (r: Result<(), CoreError>)
    ensures
        outcome(r) == grant_check(user_id, resource, *facts, grantee, grantee_exists, level),
{
    require(user_id, resource, facts, PermissionLevel::Manager)?;
    if grantee == user_id {
        return Err(
            CoreError::InvalidRequest(String::from_str("a user cannot grant a permission to itself")),
        );
    }
    if !grantee_exists {
        return Err(CoreError::NotFound(uuid_string(grantee)));
    }
    let own = match effective_level(user_id, facts)? {
        None => {
            return Err(CoreError::NotFound(uuid_string(grantee)));
        },
        Some(own) => own,
    };
    if !own.at_least(level) {
        let mut message = String::from_str("cannot grant ");
        message.append(level.as_str());
        message.append(", which is above the granter's own ");
        message.append(own.as_str());
        return Err(CoreError::InvalidRequest(message));
    }
    Ok(())
}

/// Decides a grant of `level` to `grantee` on a file, or a change of the level
/// it already holds. Needs [`PermissionLevel::Manager`].
pub fn grant_file_permission(
    user_id: u128,
    file_id: u128,
    facts: &AccessFacts,
    grantee: u128,
    grantee_exists: bool,
    level: PermissionLevel,
) -> (r: Result<(), CoreError>)
    ensures
        outcome(r) == grant_check(
            user_id,
            ResourceRef::File(file_id),
            *facts,
            grantee,
            grantee_exists,
            level,
        ),
{
    check_grant(user_id, ResourceRef::File(file_id), facts, grantee, grantee_exists, level)
}

/// Decides a grant of `level` to `grantee` on a directory and, by
/// inheritance, on everything below it. Needs [`PermissionLevel::Manager`].
pub fn grant_directory_permission(
    user_id: u128,
    directory_id: u128,
    facts: &AccessFacts,
    grantee: u128,
    grantee_exists: bool,
    level: PermissionLevel,
) -> (r: Result<(), CoreError>)
    ensures
        outcome(r) == grant_check(
            user_id,
            ResourceRef::Directory(directory_id),
            *facts,
            grantee,
            grantee_exists,
            level,
        ),
{
    check_grant(
        user_id,
        ResourceRef::Directory(directory_id),
        facts,
        grantee,
        grantee_exists,
        level,
    )
}

/// Guards listing every grant on a file. Needs [`PermissionLevel::Manager`].
pub fn list_file_permissions(user_id: u128, file_id: u128, facts: &AccessFacts) -> (r: Result<
    (),
    CoreError,
>)
    ensures
        outcome(r) == required(user_id, ResourceRef::File(file_id), *facts, PermissionLevel::Manager),
{
    require(user_id, ResourceRef::File(file_id), facts, PermissionLevel::Manager)
}

/// Guards listing every grant on a directory. Needs
/// [`PermissionLevel::Manager`].
pub fn list_directory_permissions(user_id: u128, directory_id: u128, facts: &AccessFacts) -> (r:
    Result<(), CoreError>)
    ensures
        outcome(r) == required(
            user_id,
            ResourceRef::Directory(directory_id),
            *facts,
            PermissionLevel::Manager,
        ),
{
    require(user_id, ResourceRef::Directory(directory_id), facts, PermissionLevel::Manager)
}

/// The refusal of a revocation that found no grant.
pub open spec fn missing_grant_message(grantee: u128, resource: ResourceRef) -> Seq<char> {
    "permission of "@ + uuid_text(grantee) + " on "@ + uuid_text(resource_id(resource))
}

/// What revoking `grantee`'s grant answers, given whether a grant row was
/// removed.
pub open spec fn revoke_check(
    user: u128,
    resource: ResourceRef,
    facts: AccessFacts,
    grantee: u128,
    removed: bool,
) -> Result<(), ErrorView> {
    match required(user, resource, facts, PermissionLevel::Manager) {
        Err(e) => Err(e),
        Ok(()) => if removed {
            Ok(())
        } else {
            Err(ErrorView::NotFound(missing_grant_message(grantee, resource)))
        },
    }
}

/// Decides the revocation of whatever `grantee` was granted on the resource.
/// Needs [`PermissionLevel::Manager`]; `removed` is whether the store deleted
/// a grant row.
///
/// A grantee reaching a file through an ancestor directory keeps that access:
/// the inherited grant is a different row, revoked on the directory.
pub fn revoke_permission(
    user_id: u128,
    resource: ResourceRef,
    facts: &AccessFacts,
    grantee: u128,
    removed: bool,
) -> (r: Result<(), CoreError>)
    ensures
        outcome(r) == revoke_check(user_id, resource, *facts, grantee, removed),
{
    require(user_id, resource, facts, PermissionLevel::Manager)?;
    if !removed {
        let mut message = String::from_str("permission of ");
        let grantee_text = uuid_string(grantee);
        message.append(grantee_text.as_str());
        message.append(" on ");
        let resource_text = uuid_string(resource.id());
        message.append(resource_text.as_str());
        return Err(CoreError::NotFound(message));
    }
    Ok(())
}

/// Decides the revocation of `grantee`'s grant on a file.
pub fn revoke_file_permission(
    user_id: u128,
    file_id: u128,
    facts: &AccessFacts,
    grantee: u128,
    removed: bool,
) -> (r: Result<(), CoreError>)
    ensures
        outcome(r) == revoke_check(user_id, ResourceRef::File(file_id), *facts, grantee, removed),
{
    revoke_permission(user_id, ResourceRef::File(file_id), facts, grantee, removed)
}

/// Decides the revocation of `grantee`'s grant on a directory.
pub fn revoke_directory_permission(
    user_id: u128,
    directory_id: u128,
    facts: &AccessFacts,
    grantee: u128,
    removed: bool,
) -> (r: Result<(), CoreError>)
    ensures
        outcome(r) == revoke_check(
            user_id,
            ResourceRef::Directory(directory_id),
            *facts,
            grantee,
            removed,
        ),
{
    revoke_permission(user_id, ResourceRef::Directory(directory_id), facts, grantee, removed)
}

/// A grant that is let through comes from a manager of the resource, goes to
/// someone else, and never hands out more than the granter holds.
pub proof fn law_a_grant_never_exceeds_the_granter(
    user: u128,
    resource: ResourceRef,
    facts: AccessFacts,
    grantee: u128,
    grantee_exists: bool,
    level: PermissionLevel,
)
    requires
        grant_check(user, resource, facts, grantee, grantee_exists, level) is Ok,
    ensures
        access_of(user, facts, PermissionLevel::Manager) == Ok::<bool, ErrorView>(true),
        grantee != user,
        grantee_exists,
        level_of(user, facts) matches Ok(Some(own)) && rank(level) <= rank(own),
{
}

/// Nobody grants to themselves: a manager asking to grant itself a level is
/// refused.
pub proof fn law_nobody_grants_to_themselves(
    user: u128,
    resource: ResourceRef,
    facts: AccessFacts,
    grantee_exists: bool,
    level: PermissionLevel,
)
    requires
        access_of(user, facts, PermissionLevel::Manager) == Ok::<bool, ErrorView>(true),
    ensures
        grant_check(user, resource, facts, user, grantee_exists, level) == Err::<(), ErrorView>(
            ErrorView::InvalidRequest("a user cannot grant a permission to itself"@),
        ),
{
}

/// A grant is refused for its level only when that level is strictly above
/// the granter's own: a manager of the resource granting someone else who
/// exists any level up to its own, its own level included, is let through.
pub proof fn law_a_grant_up_to_the_granters_own_level_goes_through(
    user: u128,
    resource: ResourceRef,
    facts: AccessFacts,
    grantee: u128,
    level: PermissionLevel,
    own: PermissionLevel,
)
    requires
        access_of(user, facts, PermissionLevel::Manager) == Ok::<bool, ErrorView>(true),
        grantee != user,
        level_of(user, facts) == Ok::<_, ErrorView>(Some(own)),
        rank(level) <= rank(own),
    ensures
        grant_check(user, resource, facts, grantee, true, level) == Ok::<(), ErrorView>(()),
{
}

/// A manager of a resource may grant every level, Manager included, to any
/// other user that exists: its own level is Manager, so no level is above it.
pub proof fn law_a_manager_may_grant_every_level(
    user: u128,
    resource: ResourceRef,
    facts: AccessFacts,
    grantee: u128,
    level: PermissionLevel,
)
    requires
        access_of(user, facts, PermissionLevel::Manager) == Ok::<bool, ErrorView>(true),
        grantee != user,
    ensures
        grant_check(user, resource, facts, grantee, true, level) == Ok::<(), ErrorView>(()),
{
    let own = level_of(user, facts)->Ok_0->Some_0;
    assert(rank(own) == 2);
    law_a_grant_up_to_the_granters_own_level_goes_through(user, resource, facts, grantee, level, own);
}

/// The owner of a directory may share it at any level, Manager included, with
/// any other user that exists.
pub proof fn law_an_owner_may_share_its_directory_at_any_level(
    user: u128,
    id: u128,
    lineage: Lineage,
    grantee: u128,
    level: PermissionLevel,
)
    requires
        lineage.ancestors@.len() > 0,
        lineage.ancestors@[0].owner == user,
        grantee != user,
    ensures
        grant_check(
            user,
            ResourceRef::Directory(id),
            AccessFacts::Directory(lineage),
            grantee,
            true,
            level,
        ) == Ok::<(), ErrorView>(()),
{
    let facts = AccessFacts::Directory(lineage);
    assert(owns_one(user, lineage.ancestors@)) by {
        assert(lineage.ancestors@[0].owner == user);
    }
    law_owning_a_directory_of_the_chain_gives_manager(user, lineage);
    assert(access_of(user, facts, PermissionLevel::Manager) == Ok::<bool, ErrorView>(true));
    law_a_manager_may_grant_every_level(user, ResourceRef::Directory(id), facts, grantee, level);
}

} // verus!
