//! What a transfer ends with, and the notifications sent to the caller.

use vstd::prelude::*;
use vstd::string::StringExecFns;
use crate::format::{bytes_text, format_bytes};
use crate::percent::Percent;

verus! {

/// How the transfer to one destination ended.
#[derive(Clone, Debug)]
pub enum TransferOutcome {
    /// The tool exited with success.
    Success { files_copied: u32, bytes_transferred: u64 },
    /// The tool could not be started, or exited with a failure.
    ToolFailure { message: String },
    /// The destination could not be used; the tool was not started.
    DestinationUnreachable { reason: String },
    /// The transfer was stopped on request.
    Cancelled,
}

/// The mathematical content of a [`TransferOutcome`].
pub enum TransferOutcomeModel {
    Success { files_copied: u32, bytes_transferred: u64 },
    ToolFailure { message: Seq<char> },
    DestinationUnreachable { reason: Seq<char> },
    Cancelled,
}

impl DeepView for TransferOutcome {
    type V = TransferOutcomeModel;

    open spec fn deep_view(&self) -> TransferOutcomeModel {
        match self {
            TransferOutcome::Success {
                files_copied,
                bytes_transferred,
            } => TransferOutcomeModel::Success {
                files_copied: *files_copied,
                bytes_transferred: *bytes_transferred,
            },
            TransferOutcome::ToolFailure { message } => TransferOutcomeModel::ToolFailure {
                message: message@,
            },
            TransferOutcome::DestinationUnreachable {
                reason,
            } => TransferOutcomeModel::DestinationUnreachable { reason: reason@ },
            TransferOutcome::Cancelled => TransferOutcomeModel::Cancelled,
        }
    }
}

impl TransferOutcome {
    /// A copy of the outcome.
    pub fn duplicate(&self) -> (copy: TransferOutcome)
        ensures
            copy.deep_view() == self.deep_view(),
    {
        match self {
            TransferOutcome::Success {
                files_copied,
                bytes_transferred,
            } => TransferOutcome::Success {
                files_copied: *files_copied,
                bytes_transferred: *bytes_transferred,
            },
            TransferOutcome::ToolFailure { message } => TransferOutcome::ToolFailure {
                message: message.clone(),
            },
            TransferOutcome::DestinationUnreachable {
                reason,
            } => TransferOutcome::DestinationUnreachable { reason: reason.clone() },
            TransferOutcome::Cancelled => TransferOutcome::Cancelled,
        }
    }

    /// Whether the outcome is a cancellation.
    pub fn is_cancelled(&self) -> (cancelled: bool)
        ensures
            cancelled == (self.deep_view() is Cancelled),
    {
        match self {
            TransferOutcome::Cancelled => true,
            _ => false,
        }
    }
}

/// The progress of the transfer to one destination, as sent to the caller.
#[derive(Clone, Debug)]
pub struct BackupProgress {
    pub destination_id: u64,
    pub percent: Percent,
    pub current_file: String,
    pub transfer_rate: String,
    pub files_transferred: u32,
    pub total_files: u32,
}

/// The mathematical content of a [`BackupProgress`]; the percentage is in
/// hundredths of a percentage point.
pub struct BackupProgressModel {
    pub destination_id: u64,
    pub percent: nat,
    pub current_file: Seq<char>,
    pub transfer_rate: Seq<char>,
    pub files_transferred: u32,
    pub total_files: u32,
}

impl DeepView for BackupProgress {
    type V = BackupProgressModel;

    open spec fn deep_view(&self) -> BackupProgressModel {
        BackupProgressModel {
            destination_id: self.destination_id,
            percent: self.percent@,
            current_file: self.current_file@,
            transfer_rate: self.transfer_rate@,
            files_transferred: self.files_transferred,
            total_files: self.total_files,
        }
    }
}

/// The terminal notification of one destination, as sent to the caller.
#[derive(Clone, Debug)]
pub struct BackupComplete {
    pub destination_id: u64,
    pub success: bool,
    pub files_copied: u32,
    pub size_transferred: String,
    pub error: Option<String>,
}

/// The mathematical content of a [`BackupComplete`].
pub struct BackupCompleteModel {
    pub destination_id: u64,
    pub success: bool,
    pub files_copied: u32,
    pub size_transferred: Seq<char>,
    pub error: Option<Seq<char>>,
}

impl DeepView for BackupComplete {
    type V = BackupCompleteModel;

    open spec fn deep_view(&self) -> BackupCompleteModel {
        BackupCompleteModel {
            destination_id: self.destination_id,
            success: self.success,
            files_copied: self.files_copied,
            size_transferred: self.size_transferred@,
            error: self.error.deep_view(),
        }
    }
}

/// What a run reports for a transfer that was stopped on request.
pub const CANCELLED_MESSAGE: &'static str = "Backup cancelled";

/// The size reported for a transfer that failed.
pub const NO_SIZE: &'static str = "0";

/// The terminal notification for destination `destination_id` whose
/// transfer ended with `outcome`: a success carries the files copied and the
/// size as text; every other outcome carries its reason as the error.
pub open spec fn completion_of(
    destination_id: u64,
    outcome: TransferOutcomeModel,
) -> BackupCompleteModel {
    match outcome {
        TransferOutcomeModel::Success { files_copied, bytes_transferred } => BackupCompleteModel {
            destination_id,
            success: true,
            files_copied,
            size_transferred: bytes_text(bytes_transferred as nat),
            error: None,
        },
        TransferOutcomeModel::ToolFailure { message } => BackupCompleteModel {
            destination_id,
            success: false,
            files_copied: 0,
            size_transferred: NO_SIZE@,
            error: Some(message),
        },
        TransferOutcomeModel::DestinationUnreachable { reason } => BackupCompleteModel {
            destination_id,
            success: false,
            files_copied: 0,
            size_transferred: NO_SIZE@,
            error: Some(reason),
        },
        TransferOutcomeModel::Cancelled => BackupCompleteModel {
            destination_id,
            success: false,
            files_copied: 0,
            size_transferred: NO_SIZE@,
            error: Some(CANCELLED_MESSAGE@),
        },
    }
}

/// The terminal notification of a destination.
pub fn completion_event(destination_id: u64, outcome: TransferOutcome) -> (event: BackupComplete)
    ensures
        event.deep_view() == completion_of(destination_id, outcome.deep_view()),
{
    match outcome {
        TransferOutcome::Success { files_copied, bytes_transferred } => BackupComplete {
            destination_id,
            success: true,
            files_copied,
            size_transferred: format_bytes(bytes_transferred),
            error: None,
        },
        TransferOutcome::ToolFailure { message } => BackupComplete {
            destination_id,
            success: false,
            files_copied: 0,
            size_transferred: String::from_str(NO_SIZE),
            error: Some(message),
        },
        TransferOutcome::DestinationUnreachable { reason } => BackupComplete {
            destination_id,
            success: false,
            files_copied: 0,
            size_transferred: String::from_str(NO_SIZE),
            error: Some(reason),
        },
        TransferOutcome::Cancelled => BackupComplete {
            destination_id,
            success: false,
            files_copied: 0,
            size_transferred: String::from_str(NO_SIZE),
            error: Some(String::from_str(CANCELLED_MESSAGE)),
        },
    }
}

} // verus!
