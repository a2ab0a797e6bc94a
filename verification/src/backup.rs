//! A backup run: the enabled destinations of a request, one transfer at a
//! time and in the order given.
//!
//! The caller drives the run. It asks [`RunController::next_session`] for the
//! next transfer, drives the session it gets to its end, and hands the ended
//! session to [`RunController::settle`], which gives the terminal
//! notification to send.

use vstd::prelude::*;
use vstd::string::StringExecFns;
use crate::events::{completion_event, completion_of, BackupComplete, BackupCompleteModel};
use crate::progress::ParserVariant;
use crate::session::{SessionModel, TransferSession};
use crate::signal::CancellationSignal;

verus! {

/// One place that a session is backed up to.
#[derive(Clone, Debug)]
pub struct BackupDestination {
    /// The caller's number for the destination.
    pub id: u64,
    /// The folder of the destination.
    pub path: String,
    /// Whether the run transfers to it.
    pub enabled: bool,
}

/// The mathematical content of a [`BackupDestination`].
pub struct BackupDestinationModel {
    pub id: u64,
    pub path: Seq<char>,
    pub enabled: bool,
}

impl DeepView for BackupDestination {
    type V = BackupDestinationModel;

    open spec fn deep_view(&self) -> BackupDestinationModel {
        BackupDestinationModel { id: self.id, path: self.path@, enabled: self.enabled }
    }
}

/// What is to be backed up, and where to.
#[derive(Clone, Debug)]
pub struct BackupRequest {
    /// The folder that is backed up.
    pub session_path: String,
    /// The name of the folder that the backup gets below each destination.
    pub session_name: String,
    /// The destinations, in the order in which they are served.
    pub destinations: Vec<BackupDestination>,
    /// The paths picked by the user; the run transfers the whole folder.
    pub selected_paths: Vec<String>,
}

/// The mathematical content of a [`BackupRequest`].
pub struct BackupRequestModel {
    pub session_path: Seq<char>,
    pub session_name: Seq<char>,
    pub destinations: Seq<BackupDestinationModel>,
    pub selected_paths: Seq<Seq<char>>,
}

impl DeepView for BackupRequest {
    type V = BackupRequestModel;

    open spec fn deep_view(&self) -> BackupRequestModel {
        BackupRequestModel {
            session_path: self.session_path@,
            session_name: self.session_name@,
            destinations: self.destinations.deep_view(),
            selected_paths: self.selected_paths.deep_view(),
        }
    }
}

/// Why a run ended early.
#[derive(Clone, Copy, Debug, PartialEq, Eq, Structural)]
pub enum RunError {
    /// The request names no enabled destination.
    NoDestinations,
    /// The run was stopped on request.
    Cancelled,
}

/// What a run reports when no destination is enabled.
pub const NO_DESTINATIONS_MESSAGE: &'static str = "No destinations enabled";

impl RunError {
    /// The error in words.
    pub fn message(&self) -> (text: String)
        ensures
            text@ == match *self {
                RunError::NoDestinations => NO_DESTINATIONS_MESSAGE@,
                RunError::Cancelled => crate::events::CANCELLED_MESSAGE@,
            },
    {
        match self {
            RunError::NoDestinations => String::from_str(NO_DESTINATIONS_MESSAGE),
            RunError::Cancelled => String::from_str(crate::events::CANCELLED_MESSAGE),
        }
    }
}

/// Whether any of `destinations` is enabled.
pub open spec fn has_enabled(destinations: Seq<BackupDestinationModel>) -> bool {
    exists|i: int| 0 <= i < destinations.len() && (#[trigger] destinations[i]).enabled
}

/// The ids of the enabled ones among `destinations`, in order.
pub open spec fn enabled_ids(destinations: Seq<BackupDestinationModel>) -> Seq<u64>
    decreases destinations.len(),
{
    if destinations.len() == 0 {
        Seq::empty()
    } else if destinations.last().enabled {
        enabled_ids(destinations.drop_last()).push(destinations.last().id)
    } else {
        enabled_ids(destinations.drop_last())
    }
}

/// The position of the first enabled destination at or after `from`; the
/// number of destinations if there is none.
pub open spec fn next_enabled(destinations: Seq<BackupDestinationModel>, from: nat) -> nat
    decreases destinations.len() - from,
{
    if from >= destinations.len() {
        destinations.len()
    } else if destinations[from as int].enabled {
        from
    } else {
        next_enabled(destinations, from + 1)
    }
}

/// Whether no two enabled destinations share an id.
pub open spec fn distinct_enabled_ids(destinations: Seq<BackupDestinationModel>) -> bool {
    forall|i: int, j: int|
        0 <= i < j < destinations.len() && (#[trigger] destinations[i]).enabled && (
        #[trigger] destinations[j]).enabled ==> destinations[i].id != destinations[j].id
}

/// What the controller hands to the caller.
#[derive(Debug)]
pub enum RunAction {
    /// Drive this session to its end, then settle it.
    Start(TransferSession),
    /// A session is in flight; it is to be settled before the next starts.
    AwaitOutcome,
    /// The run has ended with this result.
    Finish(Result<(), RunError>),
}

/// The mathematical content of a [`RunAction`].
pub enum RunActionModel {
    Start(SessionModel),
    AwaitOutcome,
    Finish(Result<(), RunError>),
}

impl DeepView for RunAction {
    type V = RunActionModel;

    open spec fn deep_view(&self) -> RunActionModel {
        match self {
            RunAction::Start(session) => RunActionModel::Start(session@),
            RunAction::AwaitOutcome => RunActionModel::AwaitOutcome,
            RunAction::Finish(result) => RunActionModel::Finish(*result),
        }
    }
}

/// One call made to the controller of a run, as the laws of a run see it.
pub enum RunInput {
    /// A call of `next_session`, with the cancellation signal as read.
    Next { cancel_requested: bool },
    /// A call of `settle`, with the session handed in.
    Settle { session: SessionModel },
}

/// The mathematical content of a [`RunController`].
pub struct RunModel {
    /// The folder that is backed up.
    pub source: Seq<char>,
    /// The name of the session's folder below each destination.
    pub session_name: Seq<char>,
    /// The layout in which the tool reports.
    pub variant: ParserVariant,
    /// All destinations of the request.
    pub destinations: Seq<BackupDestinationModel>,
    /// The destinations before this position are dealt with.
    pub cursor: nat,
    /// Whether the session of the destination at `cursor` is in flight.
    pub in_flight: bool,
    /// How the run ended, once it has.
    pub result: Option<Result<(), RunError>>,
}

impl RunModel {
    /// A run of `request` before its first session.
    pub open spec fn initial(request: BackupRequestModel, variant: ParserVariant) -> RunModel {
        RunModel {
            source: request.session_path,
            session_name: request.session_name,
            variant,
            destinations: request.destinations,
            cursor: 0,
            in_flight: false,
            result: None,
        }
    }

    /// What holds of every run: the session in flight is that of an enabled
    /// destination, a run that has ended has no session in flight, and one
    /// that ended well has dealt with every destination.
    pub open spec fn wf(self) -> bool {
        &&& self.cursor <= self.destinations.len()
        &&& self.in_flight ==> self.cursor < self.destinations.len()
            && self.destinations[self.cursor as int].enabled && self.result is None
        &&& self.result == Some(Ok::<(), RunError>(())) ==> self.cursor == self.destinations.len()
    }

    /// The session of the destination at `position`.
    pub open spec fn session_at(self, position: nat) -> SessionModel {
        SessionModel::idle(
            self.destinations[position as int].id,
            self.source,
            self.destinations[position as int].path,
            self.session_name,
            self.variant,
        )
    }

    /// What `next_session` hands out: the result of a run that has ended;
    /// else, with every enabled destination dealt with, success; else, with
    /// the cancellation signal set, the cancellation of the run; else the
    /// session of the next enabled destination.
    pub open spec fn next_action(self, cancel_requested: bool) -> RunActionModel {
        if self.result is Some {
            RunActionModel::Finish(self.result->0)
        } else if self.in_flight {
            RunActionModel::AwaitOutcome
        } else {
            let position = next_enabled(self.destinations, self.cursor);
            if position >= self.destinations.len() {
                RunActionModel::Finish(Ok(()))
            } else if cancel_requested {
                RunActionModel::Finish(Err(RunError::Cancelled))
            } else {
                RunActionModel::Start(self.session_at(position))
            }
        }
    }

    /// The run after `next_session`.
    pub open spec fn after_next(self, cancel_requested: bool) -> RunModel {
        if self.result is Some || self.in_flight {
            self
        } else {
            let position = next_enabled(self.destinations, self.cursor);
            if position >= self.destinations.len() {
                RunModel { cursor: position, result: Some(Ok(())), ..self }
            } else if cancel_requested {
                RunModel { cursor: position, result: Some(Err(RunError::Cancelled)), ..self }
            } else {
                RunModel { cursor: position, in_flight: true, ..self }
            }
        }
    }

    /// Whether `session` is the ended session of the destination in flight.
    pub open spec fn settles(self, session: SessionModel) -> bool {
        &&& self.in_flight
        &&& self.cursor < self.destinations.len()
        &&& session.phase is Finished
        &&& session.destination_id == self.destinations[self.cursor as int].id
    }

    /// The notification that `settle` gives for `session`.
    pub open spec fn settle_event(self, session: SessionModel) -> Option<BackupCompleteModel> {
        if self.settles(session) {
            Some(completion_of(session.destination_id, session.phase->outcome))
        } else {
            None
        }
    }

    /// The run after `settle`: the destination in flight has its
    /// notification and is dealt with; a cancelled session ends the run.
    pub open spec fn after_settle(self, session: SessionModel) -> RunModel {
        if self.settles(session) {
            RunModel {
                cursor: self.cursor + 1,
                in_flight: false,
                result: if session.phase->outcome is Cancelled {
                    Some(Err(RunError::Cancelled))
                } else {
                    None
                },
                ..self
            }
        } else {
            self
        }
    }

    /// The run after one call.
    pub open spec fn after_input(self, input: RunInput) -> RunModel {
        match input {
            RunInput::Next { cancel_requested } => self.after_next(cancel_requested),
            RunInput::Settle { session } => self.after_settle(session),
        }
    }

    /// The run after the calls `inputs`, in order.
    pub open spec fn after(self, inputs: Seq<RunInput>) -> RunModel
        decreases inputs.len(),
    {
        if inputs.len() == 0 {
            self
        } else {
            self.after(inputs.drop_last()).after_input(inputs.last())
        }
    }

    /// The ids of the terminal notifications that the run gives over the
    /// calls `inputs`, in order.
    pub open spec fn notified_over(self, inputs: Seq<RunInput>) -> Seq<u64>
        decreases inputs.len(),
    {
        if inputs.len() == 0 {
            Seq::empty()
        } else {
            let before = self.notified_over(inputs.drop_last());
            match inputs.last() {
                RunInput::Settle { session } => match self.after(inputs.drop_last()).settle_event(
                    session,
                ) {
                    Some(event) => before.push(event.destination_id),
                    None => before,
                },
                RunInput::Next { .. } => before,
            }
        }
    }

    /// Whether `input` makes the run hand out a session.
    pub open spec fn starts_session(self, input: RunInput) -> bool {
        input matches RunInput::Next { cancel_requested } && self.next_action(cancel_requested)
            is Start
    }

    /// How many sessions the run hands out over the calls `inputs`.
    pub open spec fn sessions_started(self, inputs: Seq<RunInput>) -> nat
        decreases inputs.len(),
    {
        if inputs.len() == 0 {
            0
        } else {
            let before = self.sessions_started(inputs.drop_last());
            if self.after(inputs.drop_last()).starts_session(inputs.last()) {
                before + 1
            } else {
                before
            }
        }
    }
}

/// The state of a run.
#[derive(Debug)]
pub struct RunController {
    source: String,
    session_name: String,
    variant: ParserVariant,
    destinations: Vec<BackupDestination>,
    cursor: usize,
    in_flight: bool,
    result: Option<Result<(), RunError>>,
}

impl View for RunController {
    type V = RunModel;

    closed spec fn view(&self) -> RunModel {
        RunModel {
            source: self.source@,
            session_name: self.session_name@,
            variant: self.variant,
            destinations: self.destinations.deep_view(),
            cursor: self.cursor as nat,
            in_flight: self.in_flight,
            result: self.result,
        }
    }
}

/// Whether any of `destinations` is enabled.
fn any_enabled(destinations: &Vec<BackupDestination>) -> (found: bool)
    ensures
        found == has_enabled(destinations.deep_view()),
{
    let mut i: usize = 0;
    while i < destinations.len()
        invariant
            i <= destinations.len(),
            forall|j: int| 0 <= j < i ==> !(#[trigger] destinations.deep_view()[j]).enabled,
        decreases destinations.len() - i,
    {
        assert(destinations.deep_view()[i as int] == destinations@[i as int].deep_view());
        if destinations[i].enabled {
            return true;
        }
        i = i + 1;
    }
    false
}

/// Begins a run of `request`: clears the cancellation signal, and fails with
/// [`RunError::NoDestinations`] if and only if no destination of the
/// request is enabled. Nothing is touched and no session exists before the
/// caller asks the controller for one.
pub fn start_backup(
    request: BackupRequest,
    variant: ParserVariant,
    signal: &mut CancellationSignal,
) -> (run: Result<RunController, RunError>)
    ensures
        !final(signal).is_set(),
        has_enabled(request.deep_view().destinations) ==> run is Ok,
        !has_enabled(request.deep_view().destinations) ==> run == Err::<RunController, RunError>(
            RunError::NoDestinations,
        ),
        run matches Ok(controller) ==> controller@ == RunModel::initial(
            request.deep_view(),
            variant,
        ) && controller@.wf(),
{
    signal.reset();
    if !any_enabled(&request.destinations) {
        return Err(RunError::NoDestinations);
    }
    let controller = RunController {
        source: request.session_path,
        session_name: request.session_name,
        variant,
        destinations: request.destinations,
        cursor: 0,
        in_flight: false,
        result: None,
    };
    Ok(controller)
}

/// Asks the run in progress to stop. With no run in progress the request
/// has no effect: the next run clears the signal when it begins.
pub fn cancel_backup(signal: &mut CancellationSignal)
    ensures
        final(signal).is_set(),
{
    signal.request();
}

impl RunController {
    #[verifier::type_invariant]
    closed spec fn well_formed(self) -> bool {
        self@.wf()
    }

    /// How the run ended, once it has.
    pub fn result(&self) -> (result: Option<Result<(), RunError>>)
        ensures
            result == self@.result,
    {
        self.result
    }

    /// Whether a session is in flight.
    pub fn in_flight(&self) -> (in_flight: bool)
        ensures
            in_flight == self@.in_flight,
    {
        self.in_flight
    }

    /// The position of the first enabled destination at or after the cursor.
    fn find_next(&self) -> (position: usize)
        ensures
            position == next_enabled(self@.destinations, self@.cursor),
            self@.cursor <= position <= self@.destinations.len(),
            position < self@.destinations.len() ==> self@.destinations[position as int].enabled,
    {
        proof {
            use_type_invariant(self);
        }
        let mut position: usize = self.cursor;
        while position < self.destinations.len() && !self.destinations[position].enabled
            invariant
                self.cursor <= position <= self.destinations.len(),
                next_enabled(self@.destinations, position as nat) == next_enabled(
                    self@.destinations,
                    self@.cursor,
                ),
                forall|j: int|
                    0 <= j < self.destinations.len() ==> (
                    #[trigger] self.destinations.deep_view()[j]) == self.destinations@[j].deep_view(),
            decreases self.destinations.len() - position,
        {
            position = position + 1;
        }
        position
    }

    /// Gives what comes next in the run. The cancellation signal is read
    /// before a session is handed out, and not once every enabled
    /// destination is dealt with.
    pub fn next_session(&mut self, signal: &CancellationSignal) -> (action: RunAction)
        ensures
            final(self)@ == old(self)@.after_next(signal.is_set()),
            action.deep_view() == old(self)@.next_action(signal.is_set()),
            final(self)@.wf(),
    {
        proof {
            use_type_invariant(&*self);
        }
        if let Some(result) = self.result {
            return RunAction::Finish(result);
        }
        if self.in_flight {
            return RunAction::AwaitOutcome;
        }
        let position = self.find_next();
        if position >= self.destinations.len() {
            self.cursor = position;
            self.result = Some(Ok(()));
            RunAction::Finish(Ok(()))
        } else if signal.is_requested() {
            self.cursor = position;
            self.result = Some(Err(RunError::Cancelled));
            RunAction::Finish(Err(RunError::Cancelled))
        } else {
            self.cursor = position;
            self.in_flight = true;
            let destination = &self.destinations[position];
            RunAction::Start(
                TransferSession::new(
                    destination.id,
                    self.source.as_str(),
                    destination.path.as_str(),
                    self.session_name.as_str(),
                    self.variant,
                ),
            )
        }
    }

    /// Takes back the ended session of the destination in flight and gives
    /// its terminal notification. A session that has not ended, or that is
    /// not the one in flight, changes nothing and gets no notification.
    pub fn settle(&mut self, session: TransferSession) -> (event: Option<BackupComplete>)
        ensures
            final(self)@ == old(self)@.after_settle(session@),
            event.deep_view() == old(self)@.settle_event(session@),
            final(self)@.wf(),
    {
        proof {
            use_type_invariant(&*self);
        }
        if !self.in_flight {
            return None;
        }
        if session.destination_id() != self.destinations[self.cursor].id {
            return None;
        }
        match session.outcome() {
            Some(outcome) => {
                assert(self.cursor < self.destinations.len());
                let next: usize = self.cursor + 1;
                self.in_flight = false;
                self.cursor = next;
                if outcome.is_cancelled() {
                    self.result = Some(Err(RunError::Cancelled));
                }
                Some(completion_event(session.destination_id(), outcome))
            },
            None => None,
        }
    }
}

} // verus!
