use photo_sort::action::{
    copy_file, dry_run, dry_run_mkdir, error_file_exists, fallback, file_action, ActionError,
    ActionMode, ActionPlan, ActualAction, Fallback, FolderStep,
};

#[test]
fn action_names_are_read_in_any_case() {
    assert_eq!(ActualAction::from_str("move"), Ok(ActualAction::Move));
    assert_eq!(ActualAction::from_str("MOVE"), Ok(ActualAction::Move));
    assert_eq!(ActualAction::from_str("Copy"), Ok(ActualAction::Copy));
    assert_eq!(ActualAction::from_str("hardlink"), Ok(ActualAction::Hardlink));
    assert_eq!(ActualAction::from_str("Hard"), Ok(ActualAction::Hardlink));
    assert_eq!(ActualAction::from_str("relative_symlink"), Ok(ActualAction::RelativeSymlink));
    assert_eq!(ActualAction::from_str("RelSym"), Ok(ActualAction::RelativeSymlink));
    assert_eq!(ActualAction::from_str("absolute_symlink"), Ok(ActualAction::AbsoluteSymlink));
    assert_eq!(ActualAction::from_str("abssym"), Ok(ActualAction::AbsoluteSymlink));
    assert_eq!(ActualAction::from_str("symlink"), Err(ActionError::InvalidActionMode));
    assert_eq!(ActualAction::from_str(""), Err(ActionError::InvalidActionMode));
}

#[test]
fn lower_case_names_are_exact() {
    assert_eq!(ActualAction::from_lowercase("move"), Some(ActualAction::Move));
    assert_eq!(ActualAction::from_lowercase("Move"), None);
    assert_eq!(ActualAction::from_lowercase("move "), None);
}

#[test]
fn action_labels() {
    assert_eq!(ActualAction::Move.to_string(), "Move");
    assert_eq!(ActualAction::Copy.to_string(), "Copy");
    assert_eq!(ActualAction::Hardlink.to_string(), "Hardlink");
    assert_eq!(ActualAction::RelativeSymlink.to_string(), "RelSymlink");
    assert_eq!(ActualAction::AbsoluteSymlink.to_string(), "AbsSymlink");
}

#[test]
fn dry_run_lines() {
    assert_eq!(dry_run("a.jpg", "out/b.jpg", ActualAction::Copy), "[Copy] a.jpg -> out/b.jpg");
    assert_eq!(dry_run("", "", ActualAction::AbsoluteSymlink), "[AbsSymlink]  -> ");
    assert_eq!(dry_run_mkdir("out/sub"), "[Mkdir] out/sub");
}

#[test]
fn existing_target_is_refused() {
    assert_eq!(error_file_exists(true), Err(ActionError::TargetExists));
    assert_eq!(error_file_exists(false), Ok(()));
}

#[test]
fn file_action_plans() {
    let run = ActionMode::Execute(ActualAction::Move);
    let dry = ActionMode::DryRun(ActualAction::Move);
    assert_eq!(file_action(&run, true, true, true), Err(ActionError::TargetExists));
    assert_eq!(file_action(&dry, false, true, false), Err(ActionError::TargetExists));
    assert_eq!(file_action(&run, false, false, true), Err(ActionError::MissingTargetFolder));
    assert_eq!(file_action(&dry, false, false, true), Err(ActionError::MissingTargetFolder));
    assert_eq!(
        file_action(&run, false, false, false),
        Ok(ActionPlan { folder: FolderStep::Keep, action: run })
    );
    assert_eq!(
        file_action(&run, true, false, true),
        Ok(ActionPlan { folder: FolderStep::Create, action: run })
    );
    assert_eq!(
        file_action(&dry, true, false, true),
        Ok(ActionPlan { folder: FolderStep::Announce, action: dry })
    );
    assert_eq!(
        file_action(&dry, true, false, false),
        Ok(ActionPlan { folder: FolderStep::Keep, action: dry })
    );
}

#[test]
fn fallbacks() {
    assert_eq!(fallback(ActualAction::Move), Some(Fallback::CopyThenRemove));
    assert_eq!(fallback(ActualAction::Hardlink), Some(Fallback::CopyFile));
    assert_eq!(fallback(ActualAction::Copy), None);
    assert_eq!(fallback(ActualAction::RelativeSymlink), None);
    assert_eq!(fallback(ActualAction::AbsoluteSymlink), None);
}

#[test]
fn copy_must_have_the_length_of_the_source() {
    assert_eq!(copy_file(10, 10), Ok(()));
    assert_eq!(copy_file(0, 0), Ok(()));
    assert_eq!(copy_file(10, 9), Err(ActionError::IncompleteCopy));
}
