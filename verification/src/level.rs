//! Permission levels a user may hold on a file or a directory.

use vstd::prelude::*;
use vstd::string::*;

use crate::error::{CoreError, ErrorView};
use crate::text::same_text;

verus! {

/// How much a user may do with a shared file or directory, from the least to
/// the most privileged.
#[derive(Debug, Clone, Copy, PartialEq, Eq, Structural)]
pub enum PermissionLevel {
    /// List, download and preview.
    Viewer,
    /// Everything a viewer may do, plus uploading, renaming and creating children.
    Editor,
    /// Everything an editor may do, plus sharing, moving and deleting.
    Manager,
}

/// The position of a level in the privilege order.
pub open spec fn rank(level: PermissionLevel) -> int {
    match level {
        PermissionLevel::Viewer => 0,
        PermissionLevel::Editor => 1,
        PermissionLevel::Manager => 2,
    }
}

impl PermissionLevel {
    /// Whether `self` grants at least as much as `minimum`.
    pub fn at_least(self, minimum: PermissionLevel) -> (r: bool)
        ensures
            r == (rank(self) >= rank(minimum)),
    {
        match (self, minimum) {
            (_, PermissionLevel::Viewer) => true,
            (PermissionLevel::Viewer, _) => false,
            (_, PermissionLevel::Editor) => true,
            (PermissionLevel::Editor, PermissionLevel::Manager) => false,
            (PermissionLevel::Manager, PermissionLevel::Manager) => true,
        }
    }
}

/// The name a level is stored and shown under.
pub open spec fn level_name(level: PermissionLevel) -> Seq<char> {
    match level {
        PermissionLevel::Viewer => "viewer"@,
        PermissionLevel::Editor => "editor"@,
        PermissionLevel::Manager => "manager"@,
    }
}

/// The level a stored name stands for, if any.
pub open spec fn level_named(name: Seq<char>) -> Option<PermissionLevel> {
    if name == "viewer"@ {
        Some(PermissionLevel::Viewer)
    } else if name == "editor"@ {
        Some(PermissionLevel::Editor)
    } else if name == "manager"@ {
        Some(PermissionLevel::Manager)
    } else {
        None
    }
}

/// What reading a stored level gives: the level, or the refusal naming the
/// text that did not parse.
pub open spec fn parsed_level(stored: Seq<char>) -> Result<PermissionLevel, ErrorView> {
    match level_named(stored) {
        Some(level) => Ok(level),
        None => Err(ErrorView::InvalidRequest("unknown permission level: "@ + stored)),
    }
}

/// The higher of two optional levels; an absent level gives way to a present one.
pub open spec fn higher(left: Option<PermissionLevel>, right: Option<PermissionLevel>) -> Option<
    PermissionLevel,
> {
    match (left, right) {
        (Some(l), Some(r)) => if rank(l) >= rank(r) {
            Some(l)
        } else {
            Some(r)
        },
        (Some(l), None) => Some(l),
        (None, found) => found,
    }
}

impl PermissionLevel {
    /// The name the level is stored under.
    pub fn as_str(self) -> (name: &'static str)
        ensures
            name@ == level_name(self),
    {
        match self {
            PermissionLevel::Viewer => "viewer",
            PermissionLevel::Editor => "editor",
            PermissionLevel::Manager => "manager",
        }
    }
}

/// Reads a stored level.
///
/// A stored level that no longer parses means the column and this enum
/// drifted apart; that is a server fault, not a caller mistake.
pub fn parse_level(stored: &str) -> (r: Result<PermissionLevel, CoreError>)
    ensures
        crate::error::outcome(r) == parsed_level(stored@),
{
    if same_text(stored, "viewer") {
        Ok(PermissionLevel::Viewer)
    } else if same_text(stored, "editor") {
        Ok(PermissionLevel::Editor)
    } else if same_text(stored, "manager") {
        Ok(PermissionLevel::Manager)
    } else {
        let mut message = String::from_str("unknown permission level: ");
        message.append(stored);
        Err(CoreError::InvalidRequest(message))
    }
}

/// The higher of two optional levels.
pub fn highest(left: Option<PermissionLevel>, right: Option<PermissionLevel>) -> (r: Option<
    PermissionLevel,
>)
    ensures
        r == higher(left, right),
{
    match (left, right) {
        (Some(l), Some(r)) => if l.at_least(r) {
            Some(l)
        } else {
            Some(r)
        },
        (Some(l), None) => Some(l),
        (None, found) => found,
    }
}

} // verus!
