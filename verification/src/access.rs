//! Who may do what to a directory or a file.
//!
//! Three rules, applied together:
//!
//! 1. The owner of a resource always holds [`PermissionLevel::Manager`] and
//!    never needs a row in the permission tables.
//! 2. An explicit grant on the resource itself applies.
//! 3. A grant on **any ancestor directory** applies too, and so does owning
//!    one: sharing a directory shares everything below it.
//!
//! The effective level is the highest of whatever applies. Callers ask for a
//! minimum through [`require`], which answers [`CoreError::NotFound`] rather
//! than a distinct "forbidden", so that a caller cannot probe for the
//! existence of a resource it may not see.
//!
//! The functions here decide from what the database answered about the
//! resource ([`AccessFacts`]); fetching those answers is the caller's part.

use vstd::prelude::*;

use crate::error::{outcome, CoreError, ErrorView};
use crate::level::{highest, level_named, parse_level, parsed_level, rank, higher, PermissionLevel};
use crate::models::{Directory, DirectoryPermission, File, FilePermission};
use crate::text::{uuid_string, uuid_text};

verus! {

/// The resource an access question is about.
#[derive(Debug, Clone, Copy, PartialEq, Eq, Structural)]
pub enum ResourceRef {
    Directory(u128),
    File(u128),
}

/// The identifier of a resource.
pub open spec fn resource_id(resource: ResourceRef) -> u128 {
    match resource {
        ResourceRef::Directory(id) => id,
        ResourceRef::File(id) => id,
    }
}

impl ResourceRef {
    /// The identifier of the resource.
    pub fn id(&self) -> (id: u128)
        ensures
            id == resource_id(*self),
    {
        match self {
            ResourceRef::Directory(id) => *id,
            ResourceRef::File(id) => *id,
        }
    }
}

/// What the database answers about a chain of directories for one user: the
/// chain from a directory up to its root, nearest first, and the grants the
/// user holds on any directory of that chain.
#[derive(Debug)]
pub struct Lineage {
    pub ancestors: Vec<Directory>,
    pub grants: Vec<DirectoryPermission>,
}

/// What the database answers about one resource for one user.
#[derive(Debug)]
pub enum AccessFacts {
    /// The directory's lineage; its chain is empty when the directory does not
    /// exist.
    Directory(Lineage),
    /// The file row (`None` when it cannot be read), the user's own grant on
    /// it, and the lineage of its parent directory.
    File { file: Option<File>, own_grant: Option<FilePermission>, lineage: Lineage },
}

/// Whether `user` owns one of the directories of `ancestors`.
pub open spec fn owns_one(user: u128, ancestors: Seq<Directory>) -> bool {
    exists|i: int| 0 <= i < ancestors.len() && (#[trigger] ancestors[i]).owner == user
}

/// The highest of the stored levels of `grants`, read in order; the first one
/// that does not parse is the refusal.
pub open spec fn grants_level(grants: Seq<DirectoryPermission>) -> Result<
    Option<PermissionLevel>,
    ErrorView,
>
    decreases grants.len(),
{
    if grants.len() == 0 {
        Ok(None)
    } else {
        match grants_level(grants.drop_last()) {
            Err(e) => Err(e),
            Ok(best) => match parsed_level(grants.last().permission_level@) {
                Err(e) => Err(e),
                Ok(level) => Ok(higher(best, Some(level))),
            },
        }
    }
}

/// The level a user draws from a chain of directories: `Manager` as soon as
/// it owns one of them, otherwise the highest grant it holds among them.
pub open spec fn lineage_level(user: u128, lineage: Lineage) -> Result<
    Option<PermissionLevel>,
    ErrorView,
> {
    if owns_one(user, lineage.ancestors@) {
        Ok(Some(PermissionLevel::Manager))
    } else {
        grants_level(lineage.grants@)
    }
}

/// The level a user holds on a file from its own grant, if it has one.
pub open spec fn own_grant_level(own_grant: Option<FilePermission>) -> Result<
    Option<PermissionLevel>,
    ErrorView,
> {
    match own_grant {
        None => Ok(None),
        Some(g) => match parsed_level(g.permission_level@) {
            Ok(level) => Ok(Some(level)),
            Err(e) => Err(e),
        },
    }
}

/// The highest level `user` holds on the resource the facts describe, or
/// `None` when it holds none at all, including when the resource does not
/// exist.
pub open spec fn level_of(user: u128, facts: AccessFacts) -> Result<
    Option<PermissionLevel>,
    ErrorView,
> {
    match facts {
        AccessFacts::Directory(lineage) => if lineage.ancestors@.len() == 0 {
            Ok(None)
        } else {
            lineage_level(user, lineage)
        },
        AccessFacts::File { file, own_grant, lineage } => match file {
            None => Ok(None),
            Some(f) => if f.owner == user {
                Ok(Some(PermissionLevel::Manager))
            } else {
                match own_grant_level(own_grant) {
                    Err(e) => Err(e),
                    Ok(own) => {
                        let tree = if f.parent_id is None {
                            Ok(None)
                        } else {
                            lineage_level(user, lineage)
                        };
                        match tree {
                            Err(e) => Err(e),
                            Ok(inherited) => Ok(higher(own, inherited)),
                        }
                    },
                }
            },
        },
    }
}

/// Whether the level the facts give reaches `minimum`.
pub open spec fn access_of(user: u128, facts: AccessFacts, minimum: PermissionLevel) -> Result<
    bool,
    ErrorView,
> {
    match level_of(user, facts) {
        Err(e) => Err(e),
        Ok(None) => Ok(false),
        Ok(Some(level)) => Ok(rank(level) >= rank(minimum)),
    }
}

/// What the guard at the top of an operation answers.
pub open spec fn required(
    user: u128,
    resource: ResourceRef,
    facts: AccessFacts,
    minimum: PermissionLevel,
) -> Result<(), ErrorView> {
    match access_of(user, facts, minimum) {
        Err(e) => Err(e),
        Ok(true) => Ok(()),
        Ok(false) => Err(ErrorView::NotFound(uuid_text(resource_id(resource)))),
    }
}

proof fn lemma_grants_error_persists(grants: Seq<DirectoryPermission>, k: int)
    requires
        0 <= k <= grants.len(),
        grants_level(grants.subrange(0, k)) is Err,
    ensures
        grants_level(grants) == grants_level(grants.subrange(0, k)),
    decreases grants.len() - k,
{
    if k < grants.len() {
        let next = grants.subrange(0, k + 1);
        assert(next.drop_last() =~= grants.subrange(0, k));
        lemma_grants_error_persists(grants, k + 1);
    } else {
        assert(grants.subrange(0, k) =~= grants);
    }
}

fn owns_any(user: u128, ancestors: &Vec<Directory>) -> (r: bool)
    ensures
        r == owns_one(user, ancestors@),
{
    let mut i: usize = 0;
    while i < ancestors.len()
        invariant
            i <= ancestors@.len(),
            forall|k: int| 0 <= k < i ==> (#[trigger] ancestors@[k]).owner != user,
        decreases ancestors@.len() - i,
    {
        if ancestors[i].owner == user {
            assert(ancestors@[i as int].owner == user);
            return true;
        }
        i = i + 1;
    }
    false
}

/// The level `user` draws from a chain of directories.
fn inherited_level(user: u128, lineage: &Lineage) -> (r: Result<Option<PermissionLevel>, CoreError>)
    ensures
        outcome(r) == lineage_level(user, *lineage),
{
    if owns_any(user, &lineage.ancestors) {
        return Ok(Some(PermissionLevel::Manager));
    }
    let grants = &lineage.grants;
    let mut best: Option<PermissionLevel> = None;
    let mut i: usize = 0;
    assert(grants@.subrange(0, 0) =~= Seq::<DirectoryPermission>::empty());
    while i < grants.len()
        invariant
            i <= grants@.len(),
            grants@ == lineage.grants@,
            !owns_one(user, lineage.ancestors@),
            grants_level(grants@.subrange(0, i as int)) == Ok::<_, ErrorView>(best),
        decreases grants@.len() - i,
    {
        let prefix = Ghost(grants@.subrange(0, i + 1));
        assert(prefix@.drop_last() =~= grants@.subrange(0, i as int));
        match parse_level(grants[i].permission_level.as_str()) {
            Ok(level) => {
                assert(prefix@.last() == grants@[i as int]);
                best = highest(best, Some(level));
            },
            Err(e) => {
                proof {
                    assert(prefix@.last() == grants@[i as int]);
                    assert(grants_level(prefix@) == Err::<Option<PermissionLevel>, ErrorView>(e@));
                    lemma_grants_error_persists(grants@, i + 1);
                }
                return Err(e);
            },
        }
        i = i + 1;
    }
    assert(grants@.subrange(0, grants@.len() as int) =~= grants@);
    Ok(best)
}

/// The highest level `user` holds on the resource described by `facts`, or
/// `None` when it holds none at all.
///
/// Answers `None`, not an error, when the resource does not exist, so that a
/// caller cannot tell "gone" from "not mine".
pub fn effective_level(user_id: u128, facts: &AccessFacts) -> (r: Result<
    Option<PermissionLevel>,
    CoreError,
>)
    ensures
        outcome(r) == level_of(user_id, *facts),
{
    match facts {
        AccessFacts::Directory(lineage) => {
            if lineage.ancestors.len() == 0 {
                return Ok(None);
            }
            inherited_level(user_id, lineage)
        },
        AccessFacts::File { file, own_grant, lineage } => {
            let file = match file {
                None => {
                    return Ok(None);
                },
                Some(f) => f,
            };
            if file.owner == user_id {
                return Ok(Some(PermissionLevel::Manager));
            }
            let own = match own_grant {
                None => None,
                Some(g) => match parse_level(g.permission_level.as_str()) {
                    Ok(level) => Some(level),
                    Err(e) => {
                        return Err(e);
                    },
                },
            };
            let from_tree = match file.parent_id {
                None => None,
                Some(_) => match inherited_level(user_id, lineage) {
                    Ok(level) => level,
                    Err(e) => {
                        return Err(e);
                    },
                },
            };
            Ok(highest(own, from_tree))
        },
    }
}

/// Answers whether `user_id` holds at least `minimum` on the resource.
pub fn has_access(user_id: u128, facts: &AccessFacts, minimum: PermissionLevel) -> (r: Result<
    bool,
    CoreError,
>)
    ensures
        outcome(r) == access_of(user_id, *facts, minimum),
{
    match effective_level(user_id, facts) {
        Err(e) => Err(e),
        Ok(None) => Ok(false),
        Ok(Some(level)) => Ok(level.at_least(minimum)),
    }
}

/// Guard for the top of every operation on an existing resource.
///
/// Answers [`CoreError::NotFound`] naming the resource both when it does not
/// exist and when the caller may not reach it at that level, so a rejected
/// caller learns nothing about what exists.
pub fn require(
    user_id: u128,
    resource: ResourceRef,
    facts: &AccessFacts,
    minimum: PermissionLevel,
) -> (r: Result<(), CoreError>)
    ensures
        outcome(r) == required(user_id, resource, *facts, minimum),
{
    match has_access(user_id, facts, minimum) {
        Err(e) => Err(e),
        Ok(true) => Ok(()),
        Ok(false) => Err(CoreError::NotFound(uuid_string(resource.id()))),
    }
}

/// Whether every stored level of `grants` parses.
pub open spec fn all_parse(grants: Seq<DirectoryPermission>) -> bool {
    forall|i: int| 0 <= i < grants.len() ==> (#[trigger] level_named(grants[i].permission_level@)) is Some
}

/// The level a grant gives, for a grant whose stored level parses.
pub open spec fn grant_level(grant: DirectoryPermission) -> PermissionLevel {
    level_named(grant.permission_level@)->Some_0
}

proof fn lemma_grants_level_is_max(grants: Seq<DirectoryPermission>)
    requires
        all_parse(grants),
    ensures
        grants_level(grants) is Ok,
        grants.len() == 0 ==> grants_level(grants) == Ok::<Option<PermissionLevel>, ErrorView>(None),
        grants.len() > 0 ==> grants_level(grants)->Ok_0 is Some,
        forall|i: int|
            0 <= i < grants.len() ==> rank(grant_level(#[trigger] grants[i])) <= rank(
                grants_level(grants)->Ok_0->Some_0,
            ),
        grants.len() > 0 ==> exists|i: int|
            0 <= i < grants.len() && grant_level(#[trigger] grants[i]) == grants_level(
                grants,
            )->Ok_0->Some_0,
    decreases grants.len(),
{
    if grants.len() > 0 {
        let rest = grants.drop_last();
        assert forall|i: int| 0 <= i < rest.len() implies (#[trigger] level_named(
            rest[i].permission_level@,
        )) is Some by {
            assert(rest[i] == grants[i]);
        }
        lemma_grants_level_is_max(rest);
        let last = grants.last();
        assert(level_named(grants[grants.len() - 1].permission_level@) is Some);
        let best = grants_level(grants)->Ok_0->Some_0;
        assert forall|i: int| 0 <= i < grants.len() implies rank(
            grant_level(#[trigger] grants[i]),
        ) <= rank(best) by {
            if i < grants.len() - 1 {
                assert(rest[i] == grants[i]);
            }
        }
        if rest.len() == 0 || best == grant_level(last) {
            assert(grant_level(grants[grants.len() - 1]) == best);
        } else {
            let j = choose|j: int|
                0 <= j < rest.len() && grant_level(#[trigger] rest[j]) == grants_level(
                    rest,
                )->Ok_0->Some_0;
            assert(grants[j] == rest[j]);
        }
    }
}

/// The owner of a directory manages it, and so does the owner of any
/// directory above it.
pub proof fn law_owning_a_directory_of_the_chain_gives_manager(user: u128, lineage: Lineage)
    requires
        owns_one(user, lineage.ancestors@),
    ensures
        level_of(user, AccessFacts::Directory(lineage)) == Ok::<_, ErrorView>(
            Some(PermissionLevel::Manager),
        ),
{
}

/// The owner of a file manages it.
pub proof fn law_the_owner_of_a_file_manages_it(
    user: u128,
    file: File,
    own_grant: Option<FilePermission>,
    lineage: Lineage,
)
    requires
        file.owner == user,
    ensures
        level_of(user, AccessFacts::File { file: Some(file), own_grant, lineage })
            == Ok::<_, ErrorView>(Some(PermissionLevel::Manager)),
{
}

/// Owning a directory above a file manages the file, whoever owns it, unless
/// the user's own grant on the file holds a level that does not parse.
pub proof fn law_owning_an_ancestor_reaches_a_file(
    user: u128,
    file: File,
    own_grant: Option<FilePermission>,
    lineage: Lineage,
)
    requires
        file.parent_id is Some,
        owns_one(user, lineage.ancestors@),
        own_grant_level(own_grant) is Ok,
    ensures
        level_of(user, AccessFacts::File { file: Some(file), own_grant, lineage })
            == Ok::<_, ErrorView>(Some(PermissionLevel::Manager)),
{
}

/// A resource that does not exist gives no level, rather than an error.
pub proof fn law_a_missing_resource_gives_no_level(
    user: u128,
    lineage: Lineage,
    own_grant: Option<FilePermission>,
)
    requires
        lineage.ancestors@.len() == 0,
    ensures
        level_of(user, AccessFacts::Directory(lineage)) == Ok::<Option<PermissionLevel>, ErrorView>(None),
        level_of(user, AccessFacts::File { file: None, own_grant, lineage }) == Ok::<Option<PermissionLevel>, ErrorView>(None),
{
}

/// A grant on any directory of the chain reaches the directory at its foot,
/// and the level held is the highest that applies: every grant is reached,
/// and nothing above the best grant is given to a user who owns none of the
/// chain.
pub proof fn law_grants_on_the_chain_reach_the_directory(user: u128, lineage: Lineage)
    requires
        lineage.ancestors@.len() > 0,
        all_parse(lineage.grants@),
    ensures
        level_of(user, AccessFacts::Directory(lineage)) is Ok,
        forall|i: int|
            0 <= i < lineage.grants@.len() ==> level_of(
                user,
                AccessFacts::Directory(lineage),
            )->Ok_0 is Some && rank(grant_level(#[trigger] lineage.grants@[i])) <= rank(
                level_of(user, AccessFacts::Directory(lineage))->Ok_0->Some_0,
            ),
        !owns_one(user, lineage.ancestors@) ==> (level_of(user, AccessFacts::Directory(lineage))
            == Ok::<Option<PermissionLevel>, ErrorView>(None) <==> lineage.grants@.len() == 0),
        !owns_one(user, lineage.ancestors@) && lineage.grants@.len() > 0 ==> exists|i: int|
            0 <= i < lineage.grants@.len() && grant_level(#[trigger] lineage.grants@[i])
                == level_of(user, AccessFacts::Directory(lineage))->Ok_0->Some_0,
{
    lemma_grants_level_is_max(lineage.grants@);
}

/// A file's level is the higher of its own grant and what its parent's chain
/// gives: a grant on an ancestor directory reaches a nested file, and a file
/// grant above the inherited level wins.
pub proof fn law_a_file_takes_the_higher_of_its_grant_and_its_chain(
    user: u128,
    file: File,
    own_grant: Option<FilePermission>,
    lineage: Lineage,
)
    requires
        file.owner != user,
        file.parent_id is Some,
        own_grant_level(own_grant) is Ok,
        lineage_level(user, lineage) is Ok,
    ensures
        level_of(user, AccessFacts::File { file: Some(file), own_grant, lineage })
            == Ok::<_, ErrorView>(
            higher(own_grant_level(own_grant)->Ok_0, lineage_level(user, lineage)->Ok_0),
        ),
{
}

/// Holding a level satisfies every lower minimum.
pub proof fn law_access_is_monotone_in_the_minimum(
    user: u128,
    facts: AccessFacts,
    minimum: PermissionLevel,
    lower: PermissionLevel,
)
    requires
        rank(lower) <= rank(minimum),
        access_of(user, facts, minimum) == Ok::<_, ErrorView>(true),
    ensures
        access_of(user, facts, lower) == Ok::<_, ErrorView>(true),
{
}

/// The guard lets through exactly the callers that hold the minimum, and
/// answers every other caller `NotFound` naming the resource, whether it
/// exists or not.
pub proof fn law_require_answers_not_found_below_the_minimum(
    user: u128,
    resource: ResourceRef,
    facts: AccessFacts,
    minimum: PermissionLevel,
)
    requires
        level_of(user, facts) is Ok,
    ensures
        required(user, resource, facts, minimum) is Ok <==> access_of(user, facts, minimum)
            == Ok::<_, ErrorView>(true),
        required(user, resource, facts, minimum) is Err ==> required(
            user,
            resource,
            facts,
            minimum,
        ) == Err::<(), _>(ErrorView::NotFound(uuid_text(resource_id(resource)))),
{
}

} // verus!
