use launcher_core::update::{
    UpdateAction, UpdateCheckOutcome, UpdateInfo, UpdateTask, UpdateTaskState,
};

// No update available: no install is asked for and nothing is logged.
#[test]
fn no_update_means_no_action_and_no_log() {
    let mut task = UpdateTask::new();
    let action = task.on_check_outcome(UpdateCheckOutcome::NoUpdate);
    assert!(matches!(action, UpdateAction::Nothing));
    assert_eq!(task.state, UpdateTaskState::Done);
}

// An available update: the download-and-install path is asked for exactly
// once, announced with the version transition.
#[test]
fn available_update_is_installed_once() {
    let mut task = UpdateTask::new();
    let info = UpdateInfo {
        current_version: "1.0.0".to_string(),
        version: "1.1.0".to_string(),
    };
    let action = task.on_check_outcome(UpdateCheckOutcome::Available(info));
    assert_eq!(task.state, UpdateTaskState::Installing);
    match action {
        UpdateAction::DownloadAndInstall { announcement } => {
            assert_eq!(announcement, "Update available: 1.0.0 -> 1.1.0");
        }
        _ => panic!("an available update must be downloaded and installed"),
    }
    let action = task.on_install_result(Ok(()));
    assert!(matches!(action, UpdateAction::Nothing));
    // The task is over: the install path cannot be entered a second time.
    assert_eq!(task.state, UpdateTaskState::Done);
}

#[test]
fn failed_install_is_logged_and_not_retried() {
    let mut task = UpdateTask::new();
    let info = UpdateInfo {
        current_version: "2.3.4".to_string(),
        version: "2.4.0".to_string(),
    };
    task.on_check_outcome(UpdateCheckOutcome::Available(info));
    let action = task.on_install_result(Err("disk full".to_string()));
    assert_eq!(task.state, UpdateTaskState::Done);
    match action {
        UpdateAction::LogError { message } => {
            assert_eq!(message, "Failed to install update: disk full");
        }
        _ => panic!("a failed install must be logged"),
    }
}

#[test]
fn failed_check_is_logged_and_nothing_installed() {
    let mut task = UpdateTask::new();
    let action = task.on_check_outcome(UpdateCheckOutcome::CheckFailed(
        "network unreachable".to_string(),
    ));
    assert_eq!(task.state, UpdateTaskState::Done);
    match action {
        UpdateAction::LogError { message } => {
            assert_eq!(message, "Update check failed: network unreachable");
        }
        _ => panic!("a failed check must be logged"),
    }
}
