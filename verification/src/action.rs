//! What is done with a file once its target path is known, and the
//! decisions around it. The file system itself is the caller's business:
//! the functions here take what the caller found and say what to do next.

use vstd::prelude::*;
use vstd::string::StringExecFns;
use crate::text::{is_word, lowercase_text, to_chars, to_lowercase};

verus! {

/// The ways a file can be brought to its target path.
#[derive(Debug, Copy, Clone, PartialEq, Eq, Structural)]
pub enum ActualAction {
    Move,
    Copy,
    Hardlink,
    RelativeSymlink,
    AbsoluteSymlink,
}

/// Whether an action is carried out or only announced.
#[derive(Debug, Copy, Clone, PartialEq, Eq, Structural)]
pub enum ActionMode {
    Execute(ActualAction),
    DryRun(ActualAction),
}

/// What can go wrong around a file action.
#[derive(Debug, Copy, Clone, PartialEq, Eq, Structural)]
pub enum ActionError {
    /// The text names no action.
    InvalidActionMode,
    /// Something already stands at the target path.
    TargetExists,
    /// The target's folder is missing and may not be created.
    MissingTargetFolder,
    /// The copy does not have the length of the source.
    IncompleteCopy,
}

/// The action that a lower-case word names.
pub open spec fn action_named(word: Seq<char>) -> Option<ActualAction> {
    if word == "move"@ {
        Some(ActualAction::Move)
    } else if word == "copy"@ {
        Some(ActualAction::Copy)
    } else if word == "hardlink"@ || word == "hard"@ {
        Some(ActualAction::Hardlink)
    } else if word == "relative_symlink"@ || word == "relsym"@ {
        Some(ActualAction::RelativeSymlink)
    } else if word == "absolute_symlink"@ || word == "abssym"@ {
        Some(ActualAction::AbsoluteSymlink)
    } else {
        None
    }
}

/// The label of an action, as it is shown in announcements.
pub open spec fn action_label(action: ActualAction) -> Seq<char> {
    match action {
        ActualAction::Move => "Move"@,
        ActualAction::Copy => "Copy"@,
        ActualAction::Hardlink => "Hardlink"@,
        ActualAction::RelativeSymlink => "RelSymlink"@,
        ActualAction::AbsoluteSymlink => "AbsSymlink"@,
    }
}

/// The line that announces an action in a dry run.
pub open spec fn announcement(label: Seq<char>, source: Seq<char>, target: Seq<char>) -> Seq<
    char,
> {
    "["@ + label + "] "@ + source + " -> "@ + target
}

impl ActualAction {
    /// The action that a word in lower case names.
    pub fn from_lowercase(word: &str) -> (action: Option<ActualAction>)
        ensures
            action == action_named(word@),
    {
        let w = to_chars(word);
        let w = w.as_slice();
        if is_word(w, "move") {
            Some(ActualAction::Move)
        } else if is_word(w, "copy") {
            Some(ActualAction::Copy)
        } else if is_word(w, "hardlink") || is_word(w, "hard") {
            Some(ActualAction::Hardlink)
        } else if is_word(w, "relative_symlink") || is_word(w, "relsym") {
            Some(ActualAction::RelativeSymlink)
        } else if is_word(w, "absolute_symlink") || is_word(w, "abssym") {
            Some(ActualAction::AbsoluteSymlink)
        } else {
            None
        }
    }

    /// Reads an action from its name, in any case.
    pub fn from_str(s: &str) -> (action: Result<ActualAction, ActionError>)
        ensures
            action == match action_named(lowercase_text(s@)) {
                Some(a) => Ok::<ActualAction, ActionError>(a),
                None => Err(ActionError::InvalidActionMode),
            },
    {
        let lower = to_lowercase(s);
        match ActualAction::from_lowercase(lower.as_str()) {
            Some(a) => Ok(a),
            None => Err(ActionError::InvalidActionMode),
        }
    }

    /// The label of the action.
    pub fn to_string(&self) -> (label: String)
        ensures
            label@ == action_label(*self),
    {
        match self {
            ActualAction::Move => "Move".to_owned(),
            ActualAction::Copy => "Copy".to_owned(),
            ActualAction::Hardlink => "Hardlink".to_owned(),
            ActualAction::RelativeSymlink => "RelSymlink".to_owned(),
            ActualAction::AbsoluteSymlink => "AbsSymlink".to_owned(),
        }
    }
}

/// The line that a dry run shows in place of doing the action.
pub fn dry_run(source: &str, target: &str, action: ActualAction) -> (line: String)
    ensures
        line@ == announcement(action_label(action), source@, target@),
{
    let mut line = "[".to_owned();
    let label = action.to_string();
    line.append(label.as_str());
    line.append("] ");
    line.append(source);
    line.append(" -> ");
    line.append(target);
    line
}

/// The line that a dry run shows in place of creating a folder.
pub fn dry_run_mkdir(folder: &str) -> (line: String)
    ensures
        line@ == "[Mkdir] "@ + folder@,
{
    let mut line = "[Mkdir] ".to_owned();
    line.append(folder);
    line
}

/// Refuses a target path at which something already stands.
pub fn error_file_exists(target_exists: bool) -> (r: Result<(), ActionError>)
    ensures
        r == if target_exists {
            Err::<(), ActionError>(ActionError::TargetExists)
        } else {
            Ok(())
        },
{
    if target_exists {
        Err(ActionError::TargetExists)
    } else {
        Ok(())
    }
}

/// What is done about the folder that the target lies in.
#[derive(Debug, Copy, Clone, PartialEq, Eq, Structural)]
pub enum FolderStep {
    /// The folder is there, or the target has none: nothing to do.
    Keep,
    /// The folder is created, with the folders above it.
    Create,
    /// The creation is announced and not done.
    Announce,
}

/// The steps of one file action, in the order they are taken.
#[derive(Debug, Copy, Clone, PartialEq, Eq, Structural)]
pub struct ActionPlan {
    pub folder: FolderStep,
    pub action: ActionMode,
}

/// The plan for one file action, as a function of what was found.
pub open spec fn planned(action: ActionMode, mkdir: bool, target_exists: bool, folder_missing: bool)
    -> Result<ActionPlan, ActionError> {
    if target_exists {
        Err(ActionError::TargetExists)
    } else if folder_missing && !mkdir {
        Err(ActionError::MissingTargetFolder)
    } else {
        Ok(
            ActionPlan {
                folder: if !folder_missing {
                    FolderStep::Keep
                } else if action is DryRun {
                    FolderStep::Announce
                } else {
                    FolderStep::Create
                },
                action,
            },
        )
    }
}

/// Plans the action on one file. A target that exists is refused. A missing
/// folder is refused unless `mkdir` allows creating it; a dry run announces
/// the creation instead.
pub fn file_action(action: &ActionMode, mkdir: bool, target_exists: bool, folder_missing: bool)
    -> (plan: Result<ActionPlan, ActionError>)
    ensures
        plan == planned(*action, mkdir, target_exists, folder_missing),
{
    error_file_exists(target_exists)?;
    let folder = if !folder_missing {
        FolderStep::Keep
    } else if !mkdir {
        return Err(ActionError::MissingTargetFolder);
    } else {
        match action {
            ActionMode::DryRun(_) => FolderStep::Announce,
            ActionMode::Execute(_) => FolderStep::Create,
        }
    };
    Ok(ActionPlan { folder, action: *action })
}

/// What is tried when the first attempt at an action fails.
#[derive(Debug, Copy, Clone, PartialEq, Eq, Structural)]
pub enum Fallback {
    /// Copy the file to the target and keep the source.
    CopyFile,
    /// Copy the file to the target, then remove the source.
    CopyThenRemove,
}

/// The second attempt of an action: a move that cannot rename copies and
/// removes, a hard link that cannot be made becomes a copy. The others have
/// none.
pub fn fallback(action: ActualAction) -> (second: Option<Fallback>)
    ensures
        second == match action {
            ActualAction::Move => Some(Fallback::CopyThenRemove),
            ActualAction::Hardlink => Some(Fallback::CopyFile),
            _ => None::<Fallback>,
        },
{
    match action {
        ActualAction::Move => Some(Fallback::CopyThenRemove),
        ActualAction::Hardlink => Some(Fallback::CopyFile),
        _ => None,
    }
}

/// Accepts a copy that has the length of its source.
pub fn copy_file(source_length: u64, copied_length: u64) -> (r: Result<(), ActionError>)
    ensures
        r == if source_length == copied_length {
            Ok::<(), ActionError>(())
        } else {
            Err(ActionError::IncompleteCopy)
        },
{
    if source_length != copied_length {
        Err(ActionError::IncompleteCopy)
    } else {
        Ok(())
    }
}

} // verus!
