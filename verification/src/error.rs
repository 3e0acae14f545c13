//! What can go wrong while a run is launched or terminated.

use vstd::prelude::*;

verus! {

/// The failures the supervisor reports to its caller.
#[derive(Debug, PartialEq, Eq)]
pub enum SupervisorError {
    /// The host is neither Windows nor POSIX-like: no shell dialect is known.
    UnsupportedPlatform,
    /// The operating system refused to start the process.
    SpawnFailed { name: String, cause: String },
    /// The process started, but one of its output pipes could not be had.
    /// The caller must not keep the child.
    StreamCaptureUnavailable { is_stderr: bool },
    /// The termination request failed; the handle may still be running.
    KillFailed { name: String, cause: String },
}

/// What a [`SupervisorError`] holds, as mathematical values.
pub enum ErrorView {
    UnsupportedPlatform,
    SpawnFailed { name: Seq<char>, cause: Seq<char> },
    StreamCaptureUnavailable { is_stderr: bool },
    KillFailed { name: Seq<char>, cause: Seq<char> },
}

impl View for SupervisorError {
    type V = ErrorView;

    open spec fn view(&self) -> ErrorView {
        match self {
            SupervisorError::UnsupportedPlatform => ErrorView::UnsupportedPlatform,
            SupervisorError::SpawnFailed { name, cause } => ErrorView::SpawnFailed {
                name: name@,
                cause: cause@,
            },
            SupervisorError::StreamCaptureUnavailable { is_stderr } => {
                ErrorView::StreamCaptureUnavailable { is_stderr: *is_stderr }
            },
            SupervisorError::KillFailed { name, cause } => ErrorView::KillFailed {
                name: name@,
                cause: cause@,
            },
        }
    }
}

/// The text an error is reported with.
pub open spec fn error_text(error: ErrorView) -> Seq<char> {
    match error {
        ErrorView::UnsupportedPlatform => "Unsupported OS"@,
        ErrorView::SpawnFailed { name, cause } => "Failed to spawn server "@ + name + ": "@ + cause,
        ErrorView::StreamCaptureUnavailable { is_stderr } => if is_stderr {
            "Could not capture stderr"@
        } else {
            "Could not capture stdout"@
        },
        ErrorView::KillFailed { name, cause } => "failed to kill "@ + name + ": "@ + cause,
    }
}

impl SupervisorError {
    /// The text this error is reported with.
    pub fn message(&self) -> (text: String)
        ensures
            text@ == error_text(self@),
    {
        match self {
            SupervisorError::UnsupportedPlatform => String::from_str("Unsupported OS"),
            SupervisorError::SpawnFailed { name, cause } => {
                let mut text = String::from_str("Failed to spawn server ");
                text.append(name.as_str());
                text.append(": ");
                text.append(cause.as_str());
                text
            },
            SupervisorError::StreamCaptureUnavailable { is_stderr } => {
                if *is_stderr {
                    String::from_str("Could not capture stderr")
                } else {
                    String::from_str("Could not capture stdout")
                }
            },
            SupervisorError::KillFailed { name, cause } => {
                let mut text = String::from_str("failed to kill ");
                text.append(name.as_str());
                text.append(": ");
                text.append(cause.as_str());
                text
            },
        }
    }
}

} // verus!
