//! The background self-update check.
//!
//! An independent task asks the update service whether a newer version is
//! available and, if so, has it downloaded and installed. The service calls
//! themselves (network, installer) happen outside the library; the task
//! below decides what each reported outcome requires: nothing, one
//! download-and-install, or a log line. Its failures are logged and
//! swallowed — they never affect server startup or shutdown.

use vstd::prelude::*;

verus! {

/// What the update service reported when an update is available.
pub struct UpdateInfo {
    /// The version currently running.
    pub current_version: String,
    /// The version available for download.
    pub version: String,
}

/// The three outcomes of asking the update service for the latest version.
pub enum UpdateCheckOutcome {
    /// No newer version exists.
    NoUpdate,
    /// A newer version exists.
    Available(UpdateInfo),
    /// The check itself failed (for example, a network error), with the
    /// service's error text.
    CheckFailed(String),
}

/// What the update task asks its driver to do next.
pub enum UpdateAction {
    /// Nothing: no update, or the install succeeded.
    Nothing,
    /// Download and install the available update, logging the announced
    /// version transition; progress reports are ignored.
    DownloadAndInstall {
        /// The log line announcing the version transition.
        announcement: String,
    },
    /// Log this message; nothing is retried and nothing is surfaced to the
    /// user.
    LogError {
        /// The log line describing the failure.
        message: String,
    },
}

/// The log line announcing an available update.
pub open spec fn spec_update_announcement(current: Seq<char>, version: Seq<char>) -> Seq<char> {
    "Update available: "@ + current + " -> "@ + version
}

/// The log line for a failed update check.
pub open spec fn spec_check_failure_message(error: Seq<char>) -> Seq<char> {
    "Update check failed: "@ + error
}

/// The log line for a failed download or install.
pub open spec fn spec_install_failure_message(error: Seq<char>) -> Seq<char> {
    "Failed to install update: "@ + error
}

/// Where the update task stands.
#[derive(Clone, Copy, PartialEq, Eq, Structural, Debug)]
pub enum UpdateTaskState {
    /// The check has been asked for but its outcome has not arrived.
    AwaitingCheck,
    /// An update was found and exactly one download-and-install is in
    /// flight.
    Installing,
    /// The task is over; it never acts again.
    Done,
}

/// The fire-and-forget update task. It consumes the check outcome once,
/// so the download-and-install path is entered at most once per task.
pub struct UpdateTask {
    /// Where the task stands.
    pub state: UpdateTaskState,
}

impl UpdateTask {
    /// A task that has just asked the update service for the latest
    /// version.
    pub fn new() -> (t: UpdateTask)
        ensures
            t.state is AwaitingCheck,
    {
        UpdateTask { state: UpdateTaskState::AwaitingCheck }
    }

    /// Decides what the check's outcome requires: no update means no
    /// action and no log line; an available update means exactly one
    /// download-and-install, announced in the log; a failed check means a
    /// log line and nothing else.
    pub fn on_check_outcome(&mut self, outcome: UpdateCheckOutcome) -> (action: UpdateAction)
        requires
            old(self).state is AwaitingCheck,
        ensures
            outcome is NoUpdate ==> final(self).state is Done && action is Nothing,
            outcome matches UpdateCheckOutcome::Available(info) ==> final(self).state
                is Installing && (action matches UpdateAction::DownloadAndInstall { announcement }
                && announcement@ == spec_update_announcement(
                info.current_version@,
                info.version@,
            )),
            outcome matches UpdateCheckOutcome::CheckFailed(error) ==> final(self).state is Done
                && (action matches UpdateAction::LogError { message } && message@
                == spec_check_failure_message(error@)),
    {
        match outcome {
            UpdateCheckOutcome::NoUpdate => {
                self.state = UpdateTaskState::Done;
                UpdateAction::Nothing
            },
            UpdateCheckOutcome::Available(info) => {
                self.state = UpdateTaskState::Installing;
                let mut announcement = "Update available: ".to_owned();
                announcement.append(info.current_version.as_str());
                announcement.append(" -> ");
                announcement.append(info.version.as_str());
                UpdateAction::DownloadAndInstall { announcement }
            },
            UpdateCheckOutcome::CheckFailed(error) => {
                self.state = UpdateTaskState::Done;
                let mut message = "Update check failed: ".to_owned();
                message.append(error.as_str());
                UpdateAction::LogError { message }
            },
        }
    }

    /// Decides what the install's outcome requires: success needs nothing,
    /// failure is logged and not retried.
    pub fn on_install_result(&mut self, result: Result<(), String>) -> (action: UpdateAction)
        requires
            old(self).state is Installing,
        ensures
            final(self).state is Done,
            result is Ok ==> action is Nothing,
            result matches Err(error) ==> action matches UpdateAction::LogError { message }
                && message@ == spec_install_failure_message(error@),
    {
        self.state = UpdateTaskState::Done;
        match result {
            Ok(()) => UpdateAction::Nothing,
            Err(error) => {
                let mut message = "Failed to install update: ".to_owned();
                message.append(error.as_str());
                UpdateAction::LogError { message }
            },
        }
    }
}

} // verus!
