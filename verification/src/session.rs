//! The transfer to one destination, as a state machine that the caller
//! drives: the caller performs what [`TransferSession::pending`] asks, and
//! hands what happened to [`TransferSession::step`].

use vstd::prelude::*;
use vstd::string::StringExecFns;
use crate::events::{BackupProgress, BackupProgressModel, TransferOutcome, TransferOutcomeModel};
use crate::filter::{
    last_after, publishes, variant_threshold, EmissionFilter, EmissionFilterModel,
};
use crate::invocation::{build_invocation, invocation, session_folder, session_folder_of};
use crate::parser::{line_sample, parse_line, progress_stream, stream_of, OutputLine};
use crate::progress::{FileCounts, ParserVariant, ProgressSample, ProgressSampleModel, Stream};
use crate::signal::CancellationSignal;

verus! {

/// The start of the reason given for a destination that is not there.
pub const NOT_ACCESSIBLE: &'static str = "Destination not accessible: ";

/// The start of the reason given for a session folder that cannot be made.
pub const CREATE_FAILED: &'static str = "Failed to create destination: ";

/// The start of the message given for a tool that cannot be started.
pub const SPAWN_FAILED: &'static str = "Failed to spawn rclone: ";

/// The start of the message given for an exit status that cannot be had.
pub const WAIT_FAILED: &'static str = "rclone wait error: ";

/// The start of the message given for a tool that exited with a failure.
pub const EXIT_FAILED: &'static str = "rclone failed with status: ";

/// What happened since the caller was last told what to do.
#[derive(Clone, Debug)]
pub enum SessionEvent {
    /// The session is to start.
    Begin,
    /// The destination was looked for.
    DestinationChecked { exists: bool },
    /// The session folder is there.
    SubfolderReady,
    /// The session folder could not be made.
    SubfolderFailed { reason: String },
    /// The tool runs.
    Spawned,
    /// The tool could not be started.
    SpawnFailed { reason: String },
    /// A line was read from a stream.
    Output { stream: Stream, line: OutputLine },
    /// A stream has ended.
    EndOfStream { stream: Stream },
    /// Reading from a stream failed.
    ReadFailed { stream: Stream },
    /// The timer went off before any stream had a line.
    Tick,
    /// The tool was sent the signal that ends it.
    Terminated,
    /// The tool has exited.
    Exited { success: bool, status: String },
    /// The exit status could not be had.
    WaitFailed { reason: String },
}

/// What the caller is to do next.
#[derive(Clone, Debug)]
pub enum SessionAction {
    /// Hand in [`SessionEvent::Begin`].
    Begin,
    /// Look whether `path` exists, and hand in the answer.
    CheckDestination { path: String },
    /// Make the folder `path` and all above it, and hand in how it went.
    CreateSubfolder { path: String },
    /// Start the tool with `arguments`, both streams captured.
    Spawn { arguments: Vec<String> },
    /// Wait for a line from a stream that is still open, or for the timer.
    AwaitOutput { standard: bool, error: bool },
    /// End the tool.
    Terminate,
    /// Wait until the tool has exited, and hand in its status.
    Wait,
    /// Nothing: the session has ended with `outcome`.
    Complete { outcome: TransferOutcome },
}

/// The mathematical content of a [`SessionAction`].
pub enum SessionActionModel {
    Begin,
    CheckDestination { path: Seq<char> },
    CreateSubfolder { path: Seq<char> },
    Spawn { arguments: Seq<Seq<char>> },
    AwaitOutput { standard: bool, error: bool },
    Terminate,
    Wait,
    Complete { outcome: TransferOutcomeModel },
}

impl DeepView for SessionAction {
    type V = SessionActionModel;

    open spec fn deep_view(&self) -> SessionActionModel {
        match self {
            SessionAction::Begin => SessionActionModel::Begin,
            SessionAction::CheckDestination { path } => SessionActionModel::CheckDestination {
                path: path@,
            },
            SessionAction::CreateSubfolder { path } => SessionActionModel::CreateSubfolder {
                path: path@,
            },
            SessionAction::Spawn { arguments } => SessionActionModel::Spawn {
                arguments: arguments.deep_view(),
            },
            SessionAction::AwaitOutput { standard, error } => SessionActionModel::AwaitOutput {
                standard: *standard,
                error: *error,
            },
            SessionAction::Terminate => SessionActionModel::Terminate,
            SessionAction::Wait => SessionActionModel::Wait,
            SessionAction::Complete { outcome } => SessionActionModel::Complete {
                outcome: outcome.deep_view(),
            },
        }
    }
}

/// Where a session stands.
pub enum PhaseModel {
    /// Not started.
    Idle,
    /// The destination is being looked for.
    DestinationCheck,
    /// The session folder is being made.
    CreatingSubfolder,
    /// The tool is being started.
    Spawning,
    /// The tool runs, and its output is read.
    Pumping,
    /// A cancel request was seen, and the tool is being ended.
    Terminating,
    /// The tool's exit is awaited, after its streams ended or after it was
    /// ended on request.
    Reaping { cancelled: bool },
    /// The session has ended.
    Finished { outcome: TransferOutcomeModel },
}

/// The states of a session as its users see them.
#[derive(Clone, Copy, Debug, PartialEq, Eq, Structural)]
pub enum SessionState {
    Idle,
    DestinationCheck,
    Running,
    Succeeded,
    ToolFailed,
    Unreachable,
    Cancelled,
}

/// The mathematical content of a [`TransferSession`].
pub struct SessionModel {
    pub destination_id: u64,
    pub source: Seq<char>,
    pub destination: Seq<char>,
    pub folder: Seq<char>,
    pub variant: ParserVariant,
    pub phase: PhaseModel,
    pub standard_open: bool,
    pub error_open: bool,
    pub filter: EmissionFilterModel,
    pub files: FileCounts,
    pub bytes: u64,
}

impl SessionModel {
    /// The session for the transfer of `source` to the folder of
    /// `session_name` below `destination`, before it starts.
    pub open spec fn idle(
        destination_id: u64,
        source: Seq<char>,
        destination: Seq<char>,
        session_name: Seq<char>,
        variant: ParserVariant,
    ) -> SessionModel {
        SessionModel {
            destination_id,
            source,
            destination,
            folder: session_folder(destination, session_name),
            variant,
            phase: PhaseModel::Idle,
            standard_open: true,
            error_open: true,
            filter: EmissionFilterModel { last: 0, threshold: variant_threshold(variant) },
            files: FileCounts { transferred: 0, total: 0 },
            bytes: 0,
        }
    }

    /// The state that the phase belongs to.
    pub open spec fn state(self) -> SessionState {
        match self.phase {
            PhaseModel::Idle => SessionState::Idle,
            PhaseModel::DestinationCheck => SessionState::DestinationCheck,
            PhaseModel::Finished { outcome } => match outcome {
                TransferOutcomeModel::Success { .. } => SessionState::Succeeded,
                TransferOutcomeModel::ToolFailure { .. } => SessionState::ToolFailed,
                TransferOutcomeModel::DestinationUnreachable { .. } => SessionState::Unreachable,
                TransferOutcomeModel::Cancelled => SessionState::Cancelled,
            },
            _ => SessionState::Running,
        }
    }

    /// Whether the session has ended.
    pub open spec fn is_finished(self) -> bool {
        self.phase is Finished
    }

    /// The session in another phase.
    pub open spec fn in_phase(self, phase: PhaseModel) -> SessionModel {
        SessionModel { phase, ..self }
    }

    /// The session ended with `outcome`.
    pub open spec fn ended(self, outcome: TransferOutcomeModel) -> SessionModel {
        self.in_phase(PhaseModel::Finished { outcome })
    }

    /// The session after `stream` has ended: once both streams have ended,
    /// the tool's exit is awaited.
    pub open spec fn closed_stream(self, stream: Stream) -> SessionModel {
        let standard_open = self.standard_open && stream != Stream::Standard;
        let error_open = self.error_open && stream != Stream::Error;
        SessionModel {
            standard_open,
            error_open,
            phase: if !standard_open && !error_open {
                PhaseModel::Reaping { cancelled: false }
            } else {
                self.phase
            },
            ..self
        }
    }

    /// The session after `sample` was read, and the event that is published
    /// for it. The counts and bytes of the sample replace those known; a
    /// percentage is published, with the counts then known, if the
    /// suppression lets it pass.
    pub open spec fn sampled(self, sample: ProgressSampleModel) -> (
        SessionModel,
        Option<BackupProgressModel>,
    ) {
        let files = match sample.files {
            Some(counts) => counts,
            None => self.files,
        };
        let bytes = match sample.bytes {
            Some(done) => done,
            None => self.bytes,
        };
        match sample.percent {
            Some(percent) => (
                SessionModel {
                    files,
                    bytes,
                    filter: EmissionFilterModel {
                        last: last_after(self.filter.last, self.filter.threshold, percent),
                        threshold: self.filter.threshold,
                    },
                    ..self
                },
                if publishes(self.filter.last, self.filter.threshold, percent) {
                    Some(
                        BackupProgressModel {
                            destination_id: self.destination_id,
                            percent,
                            current_file: sample.current_file,
                            transfer_rate: sample.transfer_rate,
                            files_transferred: files.transferred,
                            total_files: files.total,
                        },
                    )
                } else {
                    None
                },
            ),
            None => (SessionModel { files, bytes, ..self }, None),
        }
    }

    /// The session after `event` came in while the tool ran and no cancel
    /// request was pending. A line counts if it came on the stream on which
    /// the variant reports; a failed read and a tick change nothing.
    pub open spec fn pumped(self, event: SessionEvent) -> (
        SessionModel,
        Option<BackupProgressModel>,
    ) {
        match event {
            SessionEvent::Output { stream, line } => {
                if stream == progress_stream(self.variant) {
                    match line_sample(self.variant, line) {
                        Some(sample) => self.sampled(sample),
                        None => (self, None),
                    }
                } else {
                    (self, None)
                }
            },
            SessionEvent::EndOfStream { stream } => (self.closed_stream(stream), None),
            _ => (self, None),
        }
    }

    /// The session after `event`, and the progress event that is published
    /// with the step. `cancel_requested` is the cancellation signal as read
    /// when the event is handed in; it counts while the tool runs, where it
    /// goes before the event. An event that the phase does not wait for
    /// changes nothing.
    pub open spec fn step(self, cancel_requested: bool, event: SessionEvent) -> (
        SessionModel,
        Option<BackupProgressModel>,
    ) {
        match self.phase {
            PhaseModel::Idle => match event {
                SessionEvent::Begin => (self.in_phase(PhaseModel::DestinationCheck), None),
                _ => (self, None),
            },
            PhaseModel::DestinationCheck => match event {
                SessionEvent::DestinationChecked { exists } => if exists {
                    (self.in_phase(PhaseModel::CreatingSubfolder), None)
                } else {
                    (
                        self.ended(
                            TransferOutcomeModel::DestinationUnreachable {
                                reason: NOT_ACCESSIBLE@ + self.destination,
                            },
                        ),
                        None,
                    )
                },
                _ => (self, None),
            },
            PhaseModel::CreatingSubfolder => match event {
                SessionEvent::SubfolderReady => (self.in_phase(PhaseModel::Spawning), None),
                SessionEvent::SubfolderFailed { reason } => (
                    self.ended(
                        TransferOutcomeModel::DestinationUnreachable {
                            reason: CREATE_FAILED@ + reason@,
                        },
                    ),
                    None,
                ),
                _ => (self, None),
            },
            PhaseModel::Spawning => match event {
                SessionEvent::Spawned => if cancel_requested {
                    (self.in_phase(PhaseModel::Terminating), None)
                } else {
                    (self.in_phase(PhaseModel::Pumping), None)
                },
                SessionEvent::SpawnFailed { reason } => (
                    self.ended(
                        TransferOutcomeModel::ToolFailure { message: SPAWN_FAILED@ + reason@ },
                    ),
                    None,
                ),
                _ => (self, None),
            },
            PhaseModel::Pumping => if cancel_requested {
                (self.in_phase(PhaseModel::Terminating), None)
            } else {
                self.pumped(event)
            },
            PhaseModel::Terminating => match event {
                SessionEvent::Terminated => (
                    self.in_phase(PhaseModel::Reaping { cancelled: true }),
                    None,
                ),
                _ => (self, None),
            },
            PhaseModel::Reaping { cancelled } => match event {
                SessionEvent::Exited { success, status } => if cancelled {
                    (self.ended(TransferOutcomeModel::Cancelled), None)
                } else if success {
                    (
                        self.ended(
                            TransferOutcomeModel::Success {
                                files_copied: self.files.total,
                                bytes_transferred: self.bytes,
                            },
                        ),
                        None,
                    )
                } else {
                    (
                        self.ended(
                            TransferOutcomeModel::ToolFailure { message: EXIT_FAILED@ + status@ },
                        ),
                        None,
                    )
                },
                SessionEvent::WaitFailed { reason } => if cancelled {
                    (self.ended(TransferOutcomeModel::Cancelled), None)
                } else {
                    (
                        self.ended(
                            TransferOutcomeModel::ToolFailure { message: WAIT_FAILED@ + reason@ },
                        ),
                        None,
                    )
                },
                _ => (self, None),
            },
            PhaseModel::Finished { .. } => (self, None),
        }
    }

    /// What the caller is to do in this phase.
    pub open spec fn pending(self) -> SessionActionModel {
        match self.phase {
            PhaseModel::Idle => SessionActionModel::Begin,
            PhaseModel::DestinationCheck => SessionActionModel::CheckDestination {
                path: self.destination,
            },
            PhaseModel::CreatingSubfolder => SessionActionModel::CreateSubfolder {
                path: self.folder,
            },
            PhaseModel::Spawning => SessionActionModel::Spawn {
                arguments: invocation(self.source, self.folder, self.variant),
            },
            PhaseModel::Pumping => SessionActionModel::AwaitOutput {
                standard: self.standard_open,
                error: self.error_open,
            },
            PhaseModel::Terminating => SessionActionModel::Terminate,
            PhaseModel::Reaping { .. } => SessionActionModel::Wait,
            PhaseModel::Finished { outcome } => SessionActionModel::Complete { outcome },
        }
    }

    /// The session after the steps `inputs`, each a reading of the
    /// cancellation signal and an event, in order.
    pub open spec fn after(self, inputs: Seq<(bool, SessionEvent)>) -> SessionModel
        decreases inputs.len(),
    {
        if inputs.len() == 0 {
            self
        } else {
            self.after(inputs.drop_last()).step(inputs.last().0, inputs.last().1).0
        }
    }

    /// The progress events that the session publishes over the steps
    /// `inputs`, in order.
    pub open spec fn published_over(self, inputs: Seq<(bool, SessionEvent)>) -> Seq<
        BackupProgressModel,
    >
        decreases inputs.len(),
    {
        if inputs.len() == 0 {
            Seq::empty()
        } else {
            let before = self.published_over(inputs.drop_last());
            match self.after(inputs.drop_last()).step(inputs.last().0, inputs.last().1).1 {
                Some(progress) => before.push(progress),
                None => before,
            }
        }
    }
}

/// Where a session stands, with what it ended with.
#[derive(Clone, Debug)]
enum Phase {
    Idle,
    DestinationCheck,
    CreatingSubfolder,
    Spawning,
    Pumping,
    Terminating,
    Reaping { cancelled: bool },
    Finished { outcome: TransferOutcome },
}

impl Phase {
    spec fn model(&self) -> PhaseModel {
        match self {
            Phase::Idle => PhaseModel::Idle,
            Phase::DestinationCheck => PhaseModel::DestinationCheck,
            Phase::CreatingSubfolder => PhaseModel::CreatingSubfolder,
            Phase::Spawning => PhaseModel::Spawning,
            Phase::Pumping => PhaseModel::Pumping,
            Phase::Terminating => PhaseModel::Terminating,
            Phase::Reaping { cancelled } => PhaseModel::Reaping { cancelled: *cancelled },
            Phase::Finished { outcome } => PhaseModel::Finished { outcome: outcome.deep_view() },
        }
    }
}

/// The transfer to one destination.
#[derive(Debug)]
pub struct TransferSession {
    destination_id: u64,
    source: String,
    destination: String,
    folder: String,
    variant: ParserVariant,
    phase: Phase,
    standard_open: bool,
    error_open: bool,
    filter: EmissionFilter,
    files: FileCounts,
    bytes: u64,
}

impl View for TransferSession {
    type V = SessionModel;

    closed spec fn view(&self) -> SessionModel {
        SessionModel {
            destination_id: self.destination_id,
            source: self.source@,
            destination: self.destination@,
            folder: self.folder@,
            variant: self.variant,
            phase: self.phase.model(),
            standard_open: self.standard_open,
            error_open: self.error_open,
            filter: self.filter@,
            files: self.files,
            bytes: self.bytes,
        }
    }
}

/// `start` followed by `rest`.
fn joined(start: &str, rest: &str) -> (text: String)
    ensures
        text@ == start@ + rest@,
{
    let mut text = String::from_str(start);
    text.append(rest);
    text
}

impl TransferSession {
    /// A session that has not started, for the transfer of `source` to the
    /// folder of `session_name` below `destination`.
    pub fn new(
        destination_id: u64,
        source: &str,
        destination: &str,
        session_name: &str,
        variant: ParserVariant,
    ) -> (session: TransferSession)
        ensures
            session@ == SessionModel::idle(
                destination_id,
                source@,
                destination@,
                session_name@,
                variant,
            ),
    {
        TransferSession {
            destination_id,
            source: String::from_str(source),
            destination: String::from_str(destination),
            folder: session_folder_of(destination, session_name),
            variant,
            phase: Phase::Idle,
            standard_open: true,
            error_open: true,
            filter: EmissionFilter::for_variant(variant),
            files: FileCounts { transferred: 0, total: 0 },
            bytes: 0,
        }
    }

    /// The destination that the session transfers to.
    pub fn destination_id(&self) -> (id: u64)
        ensures
            id == self@.destination_id,
    {
        self.destination_id
    }

    /// The state that the session is in.
    pub fn state(&self) -> (state: SessionState)
        ensures
            state == self@.state(),
    {
        match &self.phase {
            Phase::Idle => SessionState::Idle,
            Phase::DestinationCheck => SessionState::DestinationCheck,
            Phase::Finished { outcome } => match outcome {
                TransferOutcome::Success { .. } => SessionState::Succeeded,
                TransferOutcome::ToolFailure { .. } => SessionState::ToolFailed,
                TransferOutcome::DestinationUnreachable { .. } => SessionState::Unreachable,
                TransferOutcome::Cancelled => SessionState::Cancelled,
            },
            _ => SessionState::Running,
        }
    }

    /// What the session ended with, once it has ended.
    pub fn outcome(&self) -> (outcome: Option<TransferOutcome>)
        ensures
            outcome.deep_view() == match self@.phase {
                PhaseModel::Finished { outcome } => Some(outcome),
                _ => None,
            },
    {
        match &self.phase {
            Phase::Finished { outcome } => Some(outcome.duplicate()),
            _ => None,
        }
    }

    /// What the caller is to do now.
    pub fn pending(&self) -> (action: SessionAction)
        ensures
            action.deep_view() == self@.pending(),
    {
        match &self.phase {
            Phase::Idle => SessionAction::Begin,
            Phase::DestinationCheck => SessionAction::CheckDestination {
                path: self.destination.clone(),
            },
            Phase::CreatingSubfolder => SessionAction::CreateSubfolder {
                path: self.folder.clone(),
            },
            Phase::Spawning => SessionAction::Spawn {
                arguments: build_invocation(
                    self.source.as_str(),
                    self.folder.as_str(),
                    self.variant,
                ),
            },
            Phase::Pumping => SessionAction::AwaitOutput {
                standard: self.standard_open,
                error: self.error_open,
            },
            Phase::Terminating => SessionAction::Terminate,
            Phase::Reaping { .. } => SessionAction::Wait,
            Phase::Finished { outcome } => SessionAction::Complete { outcome: outcome.duplicate() },
        }
    }

    /// Takes in a sample.
    fn take_sample(&mut self, sample: ProgressSample) -> (progress: Option<BackupProgress>)
        ensures
            (final(self)@, progress.deep_view()) == old(self)@.sampled(sample.deep_view()),
    {
        if let Some(counts) = sample.files {
            self.files = counts;
        }
        if let Some(done) = sample.bytes {
            self.bytes = done;
        }
        match sample.percent {
            Some(percent) => {
                if self.filter.offer(percent) {
                    Some(
                        BackupProgress {
                            destination_id: self.destination_id,
                            percent,
                            current_file: sample.current_file,
                            transfer_rate: sample.transfer_rate,
                            files_transferred: self.files.transferred,
                            total_files: self.files.total,
                        },
                    )
                } else {
                    None
                }
            },
            None => None,
        }
    }

    /// Takes in an event while the tool runs and no cancel request is
    /// pending.
    fn pump(&mut self, event: SessionEvent) -> (progress: Option<BackupProgress>)
        requires
            old(self)@.phase is Pumping,
        ensures
            (final(self)@, progress.deep_view()) == old(self)@.pumped(event),
    {
        match event {
            SessionEvent::Output { stream, line } => {
                if stream == stream_of(self.variant) {
                    match parse_line(self.variant, &line) {
                        Some(sample) => self.take_sample(sample),
                        None => None,
                    }
                } else {
                    None
                }
            },
            SessionEvent::EndOfStream { stream } => {
                match stream {
                    Stream::Standard => {
                        self.standard_open = false;
                    },
                    Stream::Error => {
                        self.error_open = false;
                    },
                }
                if !self.standard_open && !self.error_open {
                    self.phase = Phase::Reaping { cancelled: false };
                }
                None
            },
            _ => None,
        }
    }

    /// Takes in what happened, reads the cancellation signal, and gives the
    /// progress event to publish, if there is one. What to do next is then
    /// told by [`TransferSession::pending`].
    pub fn step(&mut self, signal: &CancellationSignal, event: SessionEvent) -> (progress: Option<
        BackupProgress,
    >)
        ensures
            (final(self)@, progress.deep_view()) == old(self)@.step(signal.is_set(), event),
    {
        let cancel_requested = signal.is_requested();
        match &self.phase {
            Phase::Idle => {
                if let SessionEvent::Begin = event {
                    self.phase = Phase::DestinationCheck;
                }
                None
            },
            Phase::DestinationCheck => {
                if let SessionEvent::DestinationChecked { exists } = event {
                    if exists {
                        self.phase = Phase::CreatingSubfolder;
                    } else {
                        self.phase = Phase::Finished {
                            outcome: TransferOutcome::DestinationUnreachable {
                                reason: joined(NOT_ACCESSIBLE, self.destination.as_str()),
                            },
                        };
                    }
                }
                None
            },
            Phase::CreatingSubfolder => {
                match event {
                    SessionEvent::SubfolderReady => {
                        self.phase = Phase::Spawning;
                    },
                    SessionEvent::SubfolderFailed { reason } => {
                        self.phase = Phase::Finished {
                            outcome: TransferOutcome::DestinationUnreachable {
                                reason: joined(CREATE_FAILED, reason.as_str()),
                            },
                        };
                    },
                    _ => {},
                }
                None
            },
            Phase::Spawning => {
                match event {
                    SessionEvent::Spawned => {
                        if cancel_requested {
                            self.phase = Phase::Terminating;
                        } else {
                            self.phase = Phase::Pumping;
                        }
                    },
                    SessionEvent::SpawnFailed { reason } => {
                        self.phase = Phase::Finished {
                            outcome: TransferOutcome::ToolFailure {
                                message: joined(SPAWN_FAILED, reason.as_str()),
                            },
                        };
                    },
                    _ => {},
                }
                None
            },
            Phase::Pumping => {
                if cancel_requested {
                    self.phase = Phase::Terminating;
                    None
                } else {
                    self.pump(event)
                }
            },
            Phase::Terminating => {
                if let SessionEvent::Terminated = event {
                    self.phase = Phase::Reaping { cancelled: true };
                }
                None
            },
            Phase::Reaping { cancelled } => {
                let cancelled: bool = *cancelled;
                match event {
                    SessionEvent::Exited { success, status } => {
                        if cancelled {
                            self.phase = Phase::Finished { outcome: TransferOutcome::Cancelled };
                        } else if success {
                            self.phase = Phase::Finished {
                                outcome: TransferOutcome::Success {
                                    files_copied: self.files.total,
                                    bytes_transferred: self.bytes,
                                },
                            };
                        } else {
                            self.phase = Phase::Finished {
                                outcome: TransferOutcome::ToolFailure {
                                    message: joined(EXIT_FAILED, status.as_str()),
                                },
                            };
                        }
                    },
                    SessionEvent::WaitFailed { reason } => {
                        if cancelled {
                            self.phase = Phase::Finished { outcome: TransferOutcome::Cancelled };
                        } else {
                            self.phase = Phase::Finished {
                                outcome: TransferOutcome::ToolFailure {
                                    message: joined(WAIT_FAILED, reason.as_str()),
                                },
                            };
                        }
                    },
                    _ => {},
                }
                None
            },
            Phase::Finished { .. } => None,
        }
    }
}

} // verus!
