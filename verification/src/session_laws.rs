//! What holds of every transfer session, whatever events come in.

use vstd::prelude::*;
use crate::events::{BackupProgressModel, TransferOutcomeModel};
use crate::parser::progress_stream;
use crate::session::{
    PhaseModel, SessionActionModel, SessionEvent, SessionModel, SessionState, EXIT_FAILED,
    NOT_ACCESSIBLE,
};

verus! {

/// Whether a session may go from the state `from` to the state `to` in one
/// step: forward from idle to the check of the destination, from there to
/// running or, with the destination missing, to unreachable, and from
/// running to any of the four ends; or not at all.
pub open spec fn may_follow(from: SessionState, to: SessionState) -> bool {
    from == to || match from {
        SessionState::Idle => to == SessionState::DestinationCheck,
        SessionState::DestinationCheck => to == SessionState::Running || to
            == SessionState::Unreachable,
        SessionState::Running => to == SessionState::Succeeded || to == SessionState::ToolFailed
            || to == SessionState::Unreachable || to == SessionState::Cancelled,
        _ => false,
    }
}

/// A step takes a session only along the arrows of its state chart, and
/// changes nothing of what the session transfers and where to.
pub proof fn lemma_step_follows_chart(
    session: SessionModel,
    cancel_requested: bool,
    event: SessionEvent,
)
    ensures
        ({
            let next = session.step(cancel_requested, event).0;
            &&& may_follow(session.state(), next.state())
            &&& next.destination_id == session.destination_id
            &&& next.source == session.source
            &&& next.destination == session.destination
            &&& next.folder == session.folder
            &&& next.variant == session.variant
        }),
{
}

/// A session that has ended stays as it is: no event changes it or makes it
/// publish anything, and all it asks of the caller is to take the outcome.
pub proof fn lemma_ended_session_is_final(
    session: SessionModel,
    inputs: Seq<(bool, SessionEvent)>,
)
    requires
        session.is_finished(),
    ensures
        session.after(inputs) == session,
        forall|cancel_requested: bool, event: SessionEvent| #[trigger]
            session.step(cancel_requested, event) == (session, None::<BackupProgressModel>),
        session.pending() == (SessionActionModel::Complete { outcome: session.phase->outcome }),
    decreases inputs.len(),
{
    if inputs.len() > 0 {
        lemma_ended_session_is_final(session, inputs.drop_last());
    }
}

/// While the tool runs, a cancellation signal that is set goes before
/// whatever came in, a line of output as well as a tick of the timer: the
/// event is dropped, nothing is published, and the tool is ended.
pub proof fn lemma_cancel_goes_first(session: SessionModel, event: SessionEvent)
    requires
        session.phase is Pumping,
    ensures
        session.step(true, event) == (
            session.in_phase(PhaseModel::Terminating),
            None::<BackupProgressModel>,
        ),
        session.in_phase(PhaseModel::Terminating).pending() == SessionActionModel::Terminate,
{
}

/// A session that was ended on request ends as cancelled, whatever the tool
/// exits with.
pub proof fn lemma_terminated_session_is_cancelled(
    session: SessionModel,
    cancel_requested: bool,
    event: SessionEvent,
)
    requires
        session.phase == (PhaseModel::Reaping { cancelled: true }),
        event is Exited || event is WaitFailed,
    ensures
        session.step(cancel_requested, event).0.state() == SessionState::Cancelled,
{
}

/// A destination that is not there ends the session as unreachable, with
/// the cancellation signal set or not; the tool is not started then or
/// later, whatever events follow.
pub proof fn lemma_missing_destination_is_unreachable(
    session: SessionModel,
    cancel_requested: bool,
    inputs: Seq<(bool, SessionEvent)>,
)
    requires
        session.phase is DestinationCheck,
    ensures
        ({
            let ended = session.step(
                cancel_requested,
                SessionEvent::DestinationChecked { exists: false },
            ).0;
            &&& ended.phase == (PhaseModel::Finished {
                outcome: TransferOutcomeModel::DestinationUnreachable {
                    reason: NOT_ACCESSIBLE@ + session.destination,
                },
            })
            &&& ended.after(inputs) == ended
            &&& !(ended.after(inputs).pending() is Spawn)
        }),
{
    let ended = session.step(cancel_requested, SessionEvent::DestinationChecked { exists: false }).0;
    lemma_ended_session_is_final(ended, inputs);
}

/// The tool is started only from the phase that follows a destination found
/// and a session folder made.
pub proof fn lemma_spawn_needs_destination(
    session: SessionModel,
    cancel_requested: bool,
    event: SessionEvent,
)
    requires
        session.step(cancel_requested, event).0.pending() is Spawn,
    ensures
        session.phase is Spawning || (session.phase is CreatingSubfolder && event
            is SubfolderReady),
{
}

/// A tool that exits with a failure ends the session as failed, with the
/// status in the message, whatever progress was published before.
pub proof fn lemma_failed_exit_is_tool_failure(
    session: SessionModel,
    cancel_requested: bool,
    status: String,
)
    requires
        session.phase == (PhaseModel::Reaping { cancelled: false }),
    ensures
        session.step(
            cancel_requested,
            SessionEvent::Exited { success: false, status },
        ).0.phase == (PhaseModel::Finished {
            outcome: TransferOutcomeModel::ToolFailure { message: EXIT_FAILED@ + status@ },
        }),
{
}

/// A tool that exits with success ends the session as succeeded, with the
/// file total last known as the files copied.
pub proof fn lemma_clean_exit_is_success(
    session: SessionModel,
    cancel_requested: bool,
    status: String,
)
    requires
        session.phase == (PhaseModel::Reaping { cancelled: false }),
    ensures
        session.step(
            cancel_requested,
            SessionEvent::Exited { success: true, status },
        ).0.phase == (PhaseModel::Finished {
            outcome: TransferOutcomeModel::Success {
                files_copied: session.files.total,
                bytes_transferred: session.bytes,
            },
        }),
{
}

/// Progress is published only for a line on the stream on which the tool
/// reports, while the tool runs and the cancellation signal is not set; the
/// event bears the session's destination, and its percentage passes the
/// suppression and becomes the one last published.
pub proof fn lemma_progress_comes_from_output(
    session: SessionModel,
    cancel_requested: bool,
    event: SessionEvent,
)
    requires
        session.step(cancel_requested, event).1 is Some,
    ensures
        session.phase is Pumping,
        !cancel_requested,
        event matches SessionEvent::Output { stream, .. } && stream == progress_stream(
            session.variant,
        ),
        ({
            let (next, progress) = session.step(cancel_requested, event);
            &&& progress->0.destination_id == session.destination_id
            &&& crate::filter::publishes(
                session.filter.last,
                session.filter.threshold,
                progress->0.percent,
            )
            &&& next.filter.last == progress->0.percent
            &&& next.phase is Pumping
        }),
{
}

/// What a session has published stays published: the events of the first
/// steps are the start of the events of all steps, whatever the later steps
/// bring and whatever the session ends with.
pub proof fn lemma_published_progress_is_kept(
    session: SessionModel,
    first: Seq<(bool, SessionEvent)>,
    later: Seq<(bool, SessionEvent)>,
)
    ensures
        session.after(first + later) == session.after(first).after(later),
        session.published_over(first + later) == session.published_over(first) + session.after(
            first,
        ).published_over(later),
    decreases later.len(),
{
    if later.len() > 0 {
        lemma_published_progress_is_kept(session, first, later.drop_last());
        assert((first + later).drop_last() =~= first + later.drop_last());
    }
}

/// A session that has ended publishes nothing more.
pub proof fn lemma_ended_session_is_silent(
    session: SessionModel,
    inputs: Seq<(bool, SessionEvent)>,
)
    requires
        session.is_finished(),
    ensures
        session.published_over(inputs) == Seq::<BackupProgressModel>::empty(),
    decreases inputs.len(),
{
    if inputs.len() > 0 {
        lemma_ended_session_is_silent(session, inputs.drop_last());
        lemma_ended_session_is_final(session, inputs.drop_last());
    }
}

/// The tool's exit is awaited only once both of its streams have ended, or
/// after it was ended on request.
pub proof fn lemma_wait_follows_end_of_streams(
    session: SessionModel,
    cancel_requested: bool,
    event: SessionEvent,
)
    requires
        !(session.phase is Reaping),
        session.step(cancel_requested, event).0.phase is Reaping,
    ensures
        ({
            let next = session.step(cancel_requested, event).0;
            if next.phase->cancelled {
                session.phase is Terminating
            } else {
                session.phase is Pumping && !next.standard_open && !next.error_open
            }
        }),
{
}

} // verus!
