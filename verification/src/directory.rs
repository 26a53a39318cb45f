//! Directory tree operations: browsing, creating, renaming, moving, deleting.
//!
//! Every operation that touches an existing resource goes through
//! [`require`] first, so an unauthorised caller is answered
//! [`CoreError::NotFound`] before any work happens. The functions here decide
//! each operation from what the database answered; reading and writing the
//! rows is the caller's part.

use vstd::prelude::*;
use vstd::string::*;

use crate::access::{access_of, level_of, required, require, AccessFacts, ResourceRef};
use crate::error::{outcome, text_outcome, CoreError, ErrorView};
use crate::level::PermissionLevel;
use crate::models::{Directory, File};
use crate::text::{chars_of, contains_char, lemma_trimmed_idempotent, lemma_trimmed_shape, trim, trimmed, uuid_string, uuid_text};

verus! {

/// Longest name the `directories.name` and `files.name` columns hold.
pub const MAX_NAME_LENGTH: usize = 255;

/// One level of the tree: the directory being looked at, if it is not the
/// caller's root, and its direct children.
#[derive(Debug)]
pub struct DirectoryListing {
    /// `None` when listing the caller's root, which is not a row of its own.
    pub directory: Option<Directory>,
    pub directories: Vec<Directory>,
    pub files: Vec<File>,
}

/// What name validation answers for `name`: the trimmed name, or why it is
/// refused.
pub open spec fn checked_name(name: Seq<char>) -> Result<Seq<char>, ErrorView> {
    let t = trimmed(name);
    if t.len() == 0 {
        Err(ErrorView::InvalidRequest("the name is empty"@))
    } else if t.len() > MAX_NAME_LENGTH {
        Err(ErrorView::InvalidRequest("the name is longer than 255 characters"@))
    } else if t.contains('/') || t.contains('\\') {
        Err(ErrorView::InvalidRequest("the name cannot contain a path separator"@))
    } else {
        Ok(t)
    }
}

/// Trims the name and holds it to what the column accepts, so a rejected name
/// fails here rather than as an opaque database error.
pub fn validate_name(name: String) -> (r: Result<String, CoreError>)
    ensures
        text_outcome(r) == checked_name(name@),
{
    let t = trim(name.as_str());
    let chars = chars_of(t.as_str());
    if chars.len() == 0 {
        return Err(CoreError::InvalidRequest(String::from_str("the name is empty")));
    }
    if chars.len() > MAX_NAME_LENGTH {
        return Err(
            CoreError::InvalidRequest(String::from_str("the name is longer than 255 characters")),
        );
    }
    if contains_char(&chars, '/') || contains_char(&chars, '\\') {
        return Err(
            CoreError::InvalidRequest(String::from_str("the name cannot contain a path separator")),
        );
    }
    Ok(t)
}

/// An accepted name is accepted again as it is: validation is idempotent.
pub proof fn law_an_accepted_name_validates_to_itself(name: Seq<char>)
    requires
        checked_name(name) is Ok,
    ensures
        checked_name(checked_name(name)->Ok_0) == checked_name(name),
        checked_name(name)->Ok_0 == trimmed(name),
        1 <= checked_name(name)->Ok_0.len() <= MAX_NAME_LENGTH,
        !checked_name(name)->Ok_0.contains('/'),
        !checked_name(name)->Ok_0.contains('\\'),
{
    lemma_trimmed_idempotent(name);
    lemma_trimmed_shape(name);
}

/// The directories of a directory's lineage, nearest first.
pub open spec fn chain_of(facts: AccessFacts) -> Seq<Directory> {
    match facts {
        AccessFacts::Directory(lineage) => lineage.ancestors@,
        AccessFacts::File { lineage, .. } => lineage.ancestors@,
    }
}

/// What a move to `destination` answers.
pub open spec fn move_check(
    user: u128,
    destination: Option<u128>,
    destination_facts: AccessFacts,
    moved_directory: Option<u128>,
) -> Result<(), ErrorView> {
    match destination {
        None => Ok(()),
        Some(d) => match required(
            user,
            ResourceRef::Directory(d),
            destination_facts,
            PermissionLevel::Editor,
        ) {
            Err(e) => Err(e),
            Ok(()) => match moved_directory {
                None => Ok(()),
                Some(m) => if exists|i: int|
                    0 <= i < chain_of(destination_facts).len() && (#[trigger] chain_of(
                        destination_facts,
                    )[i]).id == m {
                    Err(ErrorView::InvalidRequest("a directory cannot be moved inside itself"@))
                } else {
                    Ok(())
                },
            },
        },
    }
}

fn chain_holds(ancestors: &Vec<Directory>, id: u128) -> (r: bool)
    ensures
        r == exists|i: int| 0 <= i < ancestors@.len() && (#[trigger] ancestors@[i]).id == id,
{
    let mut i: usize = 0;
    while i < ancestors.len()
        invariant
            i <= ancestors@.len(),
            forall|k: int| 0 <= k < i ==> (#[trigger] ancestors@[k]).id != id,
        decreases ancestors@.len() - i,
    {
        if ancestors[i].id == id {
            assert(ancestors@[i as int].id == id);
            return true;
        }
        i = i + 1;
    }
    false
}

/// Holds a move to a destination the caller may write into (`None` is the
/// caller's own root), and, when a directory is being moved, refuses to place
/// it inside its own subtree, which would detach that subtree from every root.
///
/// `destination_facts` describe the destination directory: its chain up to
/// the root, nearest first.
pub fn check_move_destination(
    user_id: u128,
    destination: Option<u128>,
    destination_facts: &AccessFacts,
    moved_directory: Option<u128>,
) -> (r: Result<(), CoreError>)
    ensures
        outcome(r) == move_check(user_id, destination, *destination_facts, moved_directory),
{
    let destination = match destination {
        None => {
            return Ok(());
        },
        Some(d) => d,
    };
    match require(
        user_id,
        ResourceRef::Directory(destination),
        destination_facts,
        PermissionLevel::Editor,
    ) {
        Err(e) => {
            return Err(e);
        },
        Ok(()) => {},
    }
    let moved = match moved_directory {
        None => {
            return Ok(());
        },
        Some(m) => m,
    };
    let ancestors = match destination_facts {
        AccessFacts::Directory(lineage) => &lineage.ancestors,
        AccessFacts::File { lineage, .. } => &lineage.ancestors,
    };
    assert(ancestors@ == chain_of(*destination_facts));
    if chain_holds(ancestors, moved) {
        proof {
            let i = choose|i: int| 0 <= i < ancestors@.len() && (#[trigger] ancestors@[i]).id == moved;
            assert(chain_of(*destination_facts)[i].id == moved);
        }
        return Err(
            CoreError::InvalidRequest(String::from_str("a directory cannot be moved inside itself")),
        );
    }
    Ok(())
}

/// A move that is let through never places a directory inside its own
/// subtree: the moved directory is nowhere on the destination's chain, the
/// destination itself included, so the tree stays free of cycles.
pub proof fn law_a_permitted_move_keeps_the_tree_acyclic(
    user: u128,
    destination: u128,
    destination_facts: AccessFacts,
    moved: u128,
)
    requires
        move_check(user, Some(destination), destination_facts, Some(moved)) is Ok,
    ensures
        forall|i: int|
            0 <= i < chain_of(destination_facts).len() ==> (#[trigger] chain_of(
                destination_facts,
            )[i]).id != moved,
        required(user, ResourceRef::Directory(destination), destination_facts, PermissionLevel::Editor) is Ok,
{
}

/// A directory cannot be moved into itself: when the destination is the
/// directory being moved and the caller may write into it, the move is
/// refused.
pub proof fn law_a_directory_cannot_be_moved_into_itself(
    user: u128,
    directory: u128,
    facts: AccessFacts,
)
    requires
        chain_of(facts).len() > 0,
        chain_of(facts)[0].id == directory,
        required(user, ResourceRef::Directory(directory), facts, PermissionLevel::Editor) is Ok,
    ensures
        move_check(user, Some(directory), facts, Some(directory)) == Err::<(), ErrorView>(
            ErrorView::InvalidRequest("a directory cannot be moved inside itself"@),
        ),
{
    assert(chain_of(facts)[0].id == directory);
}

/// Whether a listing of `parent_id` (the caller's root when `None`) is let
/// through: the root always, a directory to a viewer of it.
pub open spec fn listing_check(user: u128, parent_id: Option<u128>, parent_facts: AccessFacts) -> Result<
    (),
    ErrorView,
> {
    match parent_id {
        None => Ok(()),
        Some(p) => required(user, ResourceRef::Directory(p), parent_facts, PermissionLevel::Viewer),
    }
}

/// Guards a listing of the direct children of `parent_id`, or of the caller's
/// root when it is `None`. Needs [`PermissionLevel::Viewer`] on the directory;
/// the root needs no check, since it only ever shows the caller's own entries.
pub fn list_entries(user_id: u128, parent_id: Option<u128>, parent_facts: &AccessFacts) -> (r:
    Result<(), CoreError>)
    ensures
        outcome(r) == listing_check(user_id, parent_id, *parent_facts),
{
    match parent_id {
        None => Ok(()),
        Some(p) => require(user_id, ResourceRef::Directory(p), parent_facts, PermissionLevel::Viewer),
    }
}

/// Guards reading one directory's metadata. Needs [`PermissionLevel::Viewer`].
pub fn read_directory(user_id: u128, id: u128, facts: &AccessFacts) -> (r: Result<(), CoreError>)
    ensures
        outcome(r) == required(user_id, ResourceRef::Directory(id), *facts, PermissionLevel::Viewer),
{
    require(user_id, ResourceRef::Directory(id), facts, PermissionLevel::Viewer)
}

/// What creating a directory named `name` under `parent_id` answers: the
/// name to record, or the refusal.
pub open spec fn creation_check(
    user: u128,
    name: Seq<char>,
    parent_id: Option<u128>,
    parent_facts: AccessFacts,
) -> Result<Seq<char>, ErrorView> {
    match checked_name(name) {
        Err(e) => Err(e),
        Ok(t) => match parent_id {
            None => Ok(t),
            Some(p) => match required(
                user,
                ResourceRef::Directory(p),
                parent_facts,
                PermissionLevel::Editor,
            ) {
                Err(e) => Err(e),
                Ok(()) => Ok(t),
            },
        },
    }
}

/// Decides the creation of a directory under `parent_id`, or at the caller's
/// root when it is `None`, and answers the name to record. Needs
/// [`PermissionLevel::Editor`] on the parent.
pub fn create_directory(
    user_id: u128,
    name: String,
    parent_id: Option<u128>,
    parent_facts: &AccessFacts,
) -> (r: Result<String, CoreError>)
    ensures
        text_outcome(r) == creation_check(user_id, name@, parent_id, *parent_facts),
{
    let name = validate_name(name)?;
    if let Some(p) = parent_id {
        require(user_id, ResourceRef::Directory(p), parent_facts, PermissionLevel::Editor)?;
    }
    Ok(name)
}

/// What a rename and/or move of an entry changes.
#[derive(Debug)]
pub struct EntryUpdate {
    /// The new name, already validated; `None` leaves the name alone.
    pub name: Option<String>,
    /// The new parent; `Some(None)` moves the entry to the root, `None` leaves
    /// it where it is.
    pub parent_id: Option<Option<u128>>,
}

/// The view of an update: the name as text.
pub open spec fn update_view(u: EntryUpdate) -> (Option<Seq<char>>, Option<Option<u128>>) {
    (
        match u.name {
            Some(n) => Some(n@),
            None => None,
        },
        u.parent_id,
    )
}

/// The view of a decided update.
pub open spec fn update_outcome(r: Result<EntryUpdate, CoreError>) -> Result<
    (Option<Seq<char>>, Option<Option<u128>>),
    ErrorView,
> {
    match r {
        Ok(u) => Ok(update_view(u)),
        Err(e) => Err(e@),
    }
}

/// The name part of an update: validated when given.
pub open spec fn optional_name(name: Option<String>) -> Result<Option<Seq<char>>, ErrorView> {
    match name {
        None => Ok(None),
        Some(n) => match checked_name(n@) {
            Ok(t) => Ok(Some(t)),
            Err(e) => Err(e),
        },
    }
}

/// What renaming and/or moving a directory answers.
pub open spec fn directory_update_check(
    user: u128,
    id: u128,
    facts: AccessFacts,
    owner: u128,
    name: Option<String>,
    parent_id: Option<Option<u128>>,
    destination_facts: AccessFacts,
) -> Result<(Option<Seq<char>>, Option<Option<u128>>), ErrorView> {
    match required(user, ResourceRef::Directory(id), facts, PermissionLevel::Editor) {
        Err(e) => Err(e),
        Ok(()) => match optional_name(name) {
            Err(e) => Err(e),
            Ok(n) => match parent_id {
                None => Ok((n, parent_id)),
                Some(destination) => match move_check(
                    user,
                    destination,
                    destination_facts,
                    Some(id),
                ) {
                    Err(e) => Err(e),
                    Ok(()) => if owner != user && destination is None {
                        Err(
                            ErrorView::InvalidRequest(
                                "only the owner may move a directory to the root"@,
                            ),
                        )
                    } else {
                        Ok((n, parent_id))
                    },
                },
            },
        },
    }
}

fn checked_optional_name(name: Option<String>) -> (r: Result<Option<String>, CoreError>)
    ensures
        match r {
            Ok(Some(n)) => optional_name(name) == Ok::<_, ErrorView>(Some(n@)),
            Ok(None) => optional_name(name) == Ok::<Option<Seq<char>>, ErrorView>(None),
            Err(e) => optional_name(name) == Err::<Option<Seq<char>>, _>(e@),
        },
{
    match name {
        None => Ok(None),
        Some(n) => match validate_name(n) {
            Ok(t) => Ok(Some(t)),
            Err(e) => Err(e),
        },
    }
}

/// Decides a rename and/or move of a directory. Needs
/// [`PermissionLevel::Editor`] on it, and on the destination when it moves.
///
/// Passing `parent_id` as `Some(None)` moves the directory to the caller's
/// root, which only its owner may do: a root belongs to one user, so nobody
/// else can place anything in it. `owner` is the directory's owner;
/// `destination_facts` describe the destination when there is one.
pub fn update_directory(
    user_id: u128,
    id: u128,
    facts: &AccessFacts,
    owner: u128,
    name: Option<String>,
    parent_id: Option<Option<u128>>,
    destination_facts: &AccessFacts,
) -> (r: Result<EntryUpdate, CoreError>)
    ensures
        update_outcome(r) == directory_update_check(
            user_id,
            id,
            *facts,
            owner,
            name,
            parent_id,
            *destination_facts,
        ),
{
    require(user_id, ResourceRef::Directory(id), facts, PermissionLevel::Editor)?;
    let name = checked_optional_name(name)?;
    if let Some(destination) = parent_id {
        check_move_destination(user_id, destination, destination_facts, Some(id))?;
        if owner != user_id && destination.is_none() {
            return Err(
                CoreError::InvalidRequest(
                    String::from_str("only the owner may move a directory to the root"),
                ),
            );
        }
    }
    Ok(EntryUpdate { name, parent_id })
}

/// Guards the deletion of a directory and everything below it. Needs
/// [`PermissionLevel::Manager`].
///
/// The blobs of the files it held are not removed: the tree goes in one
/// statement that never learns which storage keys went with it.
pub fn delete_directory(user_id: u128, id: u128, facts: &AccessFacts) -> (r: Result<(), CoreError>)
    ensures
        outcome(r) == required(user_id, ResourceRef::Directory(id), *facts, PermissionLevel::Manager),
{
    require(user_id, ResourceRef::Directory(id), facts, PermissionLevel::Manager)
}

/// What a deletion answers once the store has reported whether a row went:
/// `NotFound` naming the resource when nothing was there.
pub fn confirm_removal(id: u128, removed: bool) -> (r: Result<(), CoreError>)
    ensures
        removed ==> r is Ok,
        !removed ==> outcome(r) == Err::<(), _>(ErrorView::NotFound(uuid_text(id))),
{
    if removed {
        Ok(())
    } else {
        Err(CoreError::NotFound(uuid_string(id)))
    }
}

/// Creating under a parent needs Editor there: a creation under `parent` is
/// let through only for a caller whose level on it reaches Editor, and, for a
/// name validation accepts, always for such a caller, under the validated
/// name. Any other caller, a viewer included, is told the parent does not
/// exist.
pub proof fn law_creating_under_a_parent_needs_editor(
    user: u128,
    name: Seq<char>,
    parent: u128,
    facts: AccessFacts,
)
    ensures
        creation_check(user, name, Some(parent), facts) is Ok ==> access_of(
            user,
            facts,
            PermissionLevel::Editor,
        ) == Ok::<bool, ErrorView>(true),
        checked_name(name) is Ok && access_of(user, facts, PermissionLevel::Editor) == Ok::<
            bool,
            ErrorView,
        >(true) ==> creation_check(user, name, Some(parent), facts) == Ok::<_, ErrorView>(
            checked_name(name)->Ok_0,
        ),
        checked_name(name) is Ok && access_of(user, facts, PermissionLevel::Editor) == Ok::<
            bool,
            ErrorView,
        >(false) ==> creation_check(user, name, Some(parent), facts) == Err::<Seq<char>, _>(
            ErrorView::NotFound(uuid_text(parent)),
        ),
{
}

/// A viewer of a directory creates nothing in it: it is told the directory
/// does not exist.
pub proof fn law_a_viewer_creates_nothing(user: u128, name: Seq<char>, parent: u128, facts: AccessFacts)
    requires
        level_of(user, facts) == Ok::<_, ErrorView>(Some(PermissionLevel::Viewer)),
        checked_name(name) is Ok,
    ensures
        creation_check(user, name, Some(parent), facts) == Err::<Seq<char>, _>(
            ErrorView::NotFound(uuid_text(parent)),
        ),
{
    law_creating_under_a_parent_needs_editor(user, name, parent, facts);
}

/// Whoever can edit a directory may rename it to any name validation accepts,
/// and the update carries the validated name.
pub proof fn law_an_editor_renames_a_directory(
    user: u128,
    id: u128,
    facts: AccessFacts,
    owner: u128,
    name: String,
    destination_facts: AccessFacts,
)
    requires
        access_of(user, facts, PermissionLevel::Editor) == Ok::<bool, ErrorView>(true),
        checked_name(name@) is Ok,
    ensures
        directory_update_check(user, id, facts, owner, Some(name), None, destination_facts) == Ok::<
            _,
            ErrorView,
        >((Some(checked_name(name@)->Ok_0), None::<Option<u128>>)),
{
}

/// A caller whose level on a directory stays below Editor changes nothing
/// about it, and is told the directory does not exist.
pub proof fn law_below_editor_a_directory_is_not_found(
    user: u128,
    id: u128,
    facts: AccessFacts,
    owner: u128,
    name: Option<String>,
    parent_id: Option<Option<u128>>,
    destination_facts: AccessFacts,
)
    requires
        access_of(user, facts, PermissionLevel::Editor) == Ok::<bool, ErrorView>(false),
    ensures
        directory_update_check(user, id, facts, owner, name, parent_id, destination_facts) == Err::<
            (Option<Seq<char>>, Option<Option<u128>>),
            _,
        >(ErrorView::NotFound(uuid_text(id))),
{
}

/// The owner of a directory who can edit it may move it to its root.
pub proof fn law_an_owner_moves_its_directory_to_the_root(
    user: u128,
    id: u128,
    facts: AccessFacts,
    destination_facts: AccessFacts,
)
    requires
        access_of(user, facts, PermissionLevel::Editor) == Ok::<bool, ErrorView>(true),
    ensures
        directory_update_check(user, id, facts, user, None, Some(None), destination_facts) == Ok::<
            _,
            ErrorView,
        >((None::<Seq<char>>, Some(None::<u128>))),
{
}

/// Anyone else who can edit a directory is refused a move of it to the root:
/// a root belongs to one user.
pub proof fn law_only_the_owner_moves_a_directory_to_the_root(
    user: u128,
    id: u128,
    facts: AccessFacts,
    owner: u128,
    destination_facts: AccessFacts,
)
    requires
        access_of(user, facts, PermissionLevel::Editor) == Ok::<bool, ErrorView>(true),
        owner != user,
    ensures
        directory_update_check(user, id, facts, owner, None, Some(None), destination_facts) == Err::<
            (Option<Seq<char>>, Option<Option<u128>>),
            _,
        >(ErrorView::InvalidRequest("only the owner may move a directory to the root"@)),
{
}

} // verus!
