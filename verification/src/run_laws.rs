//! What holds of every backup run, whatever the caller does and whatever
//! the sessions end with.

use vstd::prelude::*;
use crate::backup::{
    distinct_enabled_ids, enabled_ids, has_enabled, next_enabled, BackupDestinationModel,
    BackupRequestModel, RunActionModel, RunError, RunInput, RunModel,
};
use crate::progress::ParserVariant;
use crate::session::SessionModel;

verus! {

/// The first enabled destination at or after `from` lies between `from` and
/// the end, is enabled if it is not the end, and has only disabled
/// destinations between `from` and itself.
pub proof fn lemma_next_enabled(destinations: Seq<BackupDestinationModel>, from: nat)
    requires
        from <= destinations.len(),
    ensures
        from <= next_enabled(destinations, from) <= destinations.len(),
        next_enabled(destinations, from) < destinations.len() ==> destinations[next_enabled(
            destinations,
            from,
        ) as int].enabled,
        forall|j: int|
            from <= j < next_enabled(destinations, from) ==> !(#[trigger] destinations[j]).enabled,
        enabled_ids(destinations.take(next_enabled(destinations, from) as int)) == enabled_ids(
            destinations.take(from as int),
        ),
    decreases destinations.len() - from,
{
    if from < destinations.len() && !destinations[from as int].enabled {
        lemma_next_enabled(destinations, from + 1);
        assert(destinations.take(from as int + 1).drop_last() =~= destinations.take(from as int));
    }
}

/// Whether `id` is the id of an enabled destination before `count`.
pub open spec fn enabled_before(
    destinations: Seq<BackupDestinationModel>,
    count: nat,
    id: u64,
) -> bool {
    exists|i: int| 0 <= i < count && (#[trigger] destinations[i]).enabled && destinations[i].id == id
}

/// Every id among the enabled ids of the first `count` destinations is the
/// id of an enabled destination before `count`.
pub proof fn lemma_enabled_ids_come_from(destinations: Seq<BackupDestinationModel>, count: nat)
    requires
        count <= destinations.len(),
    ensures
        forall|k: int|
            0 <= k < enabled_ids(destinations.take(count as int)).len() ==> enabled_before(
                destinations,
                count,
                #[trigger] enabled_ids(destinations.take(count as int))[k],
            ),
    decreases count,
{
    if count > 0 {
        let shorter = destinations.take(count - 1);
        let longer = destinations.take(count as int);
        assert(longer.drop_last() =~= shorter);
        lemma_enabled_ids_come_from(destinations, (count - 1) as nat);
        assert forall|k: int| 0 <= k < enabled_ids(longer).len() implies enabled_before(
            destinations,
            count,
            #[trigger] enabled_ids(longer)[k],
        ) by {
            if k < enabled_ids(shorter).len() {
                assert(enabled_before(destinations, (count - 1) as nat, enabled_ids(shorter)[k]));
            } else {
                assert(destinations[count - 1].enabled);
            }
        }
    }
}

/// Where no two enabled destinations share an id, no id occurs twice among
/// the enabled ids of the first `count` destinations.
pub proof fn lemma_enabled_ids_distinct(destinations: Seq<BackupDestinationModel>, count: nat)
    requires
        count <= destinations.len(),
        distinct_enabled_ids(destinations),
    ensures
        enabled_ids(destinations.take(count as int)).no_duplicates(),
    decreases count,
{
    if count > 0 {
        let shorter = destinations.take(count - 1);
        let longer = destinations.take(count as int);
        assert(longer.drop_last() =~= shorter);
        lemma_enabled_ids_distinct(destinations, (count - 1) as nat);
        lemma_enabled_ids_come_from(destinations, (count - 1) as nat);
        if longer.last().enabled {
            let ids = enabled_ids(longer);
            let last = ids.len() - 1;
            assert forall|k: int| 0 <= k < last implies ids[k] != ids[last] by {
                assert(enabled_before(destinations, (count - 1) as nat, enabled_ids(shorter)[k]));
                assert(destinations[count - 1].enabled);
            }
        }
    }
}

/// A call leaves the destinations of a run as they are, and a well-formed
/// run well-formed.
pub proof fn lemma_call_keeps_wf(run: RunModel, input: RunInput)
    requires
        run.wf(),
    ensures
        run.after_input(input).wf(),
        run.after_input(input).destinations == run.destinations,
        run.after_input(input).cursor >= run.cursor,
{
    lemma_next_enabled(run.destinations, run.cursor);
}

/// Whatever calls are made, a well-formed run stays well-formed and keeps
/// its destinations.
pub proof fn lemma_run_keeps_wf(run: RunModel, inputs: Seq<RunInput>)
    requires
        run.wf(),
    ensures
        run.after(inputs).wf(),
        run.after(inputs).destinations == run.destinations,
        run.after(inputs).cursor >= run.cursor,
    decreases inputs.len(),
{
    if inputs.len() > 0 {
        lemma_run_keeps_wf(run, inputs.drop_last());
        lemma_call_keeps_wf(run.after(inputs.drop_last()), inputs.last());
    }
}

/// A run that has ended stays as it is: no call changes it, hands out a
/// session or gives a notification.
pub proof fn lemma_ended_run_is_final(run: RunModel, inputs: Seq<RunInput>)
    requires
        run.wf(),
        run.result is Some,
    ensures
        run.after(inputs) == run,
        run.notified_over(inputs) == Seq::<u64>::empty(),
        run.sessions_started(inputs) == 0,
    decreases inputs.len(),
{
    if inputs.len() > 0 {
        lemma_ended_run_is_final(run, inputs.drop_last());
    }
}

/// Over any calls made to a well-formed run, the notifications given are
/// those of the enabled destinations that the cursor passed, in order, and
/// there is one for each session handed out but the one in flight.
pub proof fn lemma_notifications_follow_sessions(run: RunModel, inputs: Seq<RunInput>)
    requires
        run.wf(),
    ensures
        enabled_ids(run.destinations.take(run.cursor as int)) + run.notified_over(inputs)
            == enabled_ids(run.destinations.take(run.after(inputs).cursor as int)),
        run.notified_over(inputs).len() + (if run.after(inputs).in_flight {
            1nat
        } else {
            0nat
        }) == run.sessions_started(inputs) + (if run.in_flight {
            1nat
        } else {
            0nat
        }),
    decreases inputs.len(),
{
    if inputs.len() > 0 {
        let all = run.destinations;
        let earlier = inputs.drop_last();
        let position = run.after(earlier).cursor;
        lemma_notifications_follow_sessions(run, earlier);
        lemma_run_keeps_wf(run, earlier);
        lemma_next_enabled(all, position);
        if position < all.len() {
            assert(all.take(position as int + 1).drop_last() =~= all.take(position as int));
        }
    }
}

/// Every destination that a run attempts gets exactly one terminal
/// notification. Over any calls made to the run of a request, the
/// notifications given are those of the enabled destinations before the
/// cursor, in the order of the request; their number is that of the
/// sessions handed out, less the one still in flight; and once the run has
/// ended the two numbers are the same.
pub proof fn lemma_one_notification_per_attempt(
    request: BackupRequestModel,
    variant: ParserVariant,
    inputs: Seq<RunInput>,
)
    ensures
        ({
            let run = RunModel::initial(request, variant);
            let end = run.after(inputs);
            &&& end.cursor <= request.destinations.len()
            &&& run.notified_over(inputs) == enabled_ids(
                request.destinations.take(end.cursor as int),
            )
            &&& run.notified_over(inputs).len() + (if end.in_flight {
                1nat
            } else {
                0nat
            }) == run.sessions_started(inputs)
            &&& end.result is Some ==> run.notified_over(inputs).len() == run.sessions_started(
                inputs,
            )
        }),
{
    let run = RunModel::initial(request, variant);
    lemma_run_keeps_wf(run, inputs);
    lemma_notifications_follow_sessions(run, inputs);
}

/// A run that ends well has given every enabled destination of the request
/// its notification, in the order of the request.
pub proof fn lemma_complete_run_notifies_all(
    request: BackupRequestModel,
    variant: ParserVariant,
    inputs: Seq<RunInput>,
)
    requires
        RunModel::initial(request, variant).after(inputs).result == Some(
            Ok::<(), RunError>(()),
        ),
    ensures
        RunModel::initial(request, variant).notified_over(inputs) == enabled_ids(
            request.destinations,
        ),
{
    let run = RunModel::initial(request, variant);
    lemma_run_keeps_wf(run, inputs);
    lemma_one_notification_per_attempt(request, variant, inputs);
    assert(request.destinations.take(request.destinations.len() as int)
        =~= request.destinations);
}

/// Where no two enabled destinations of a request share an id, no id is
/// notified twice, whatever calls are made to the run.
pub proof fn lemma_each_id_notified_once(
    request: BackupRequestModel,
    variant: ParserVariant,
    inputs: Seq<RunInput>,
)
    requires
        distinct_enabled_ids(request.destinations),
    ensures
        RunModel::initial(request, variant).notified_over(inputs).no_duplicates(),
{
    let run = RunModel::initial(request, variant);
    lemma_one_notification_per_attempt(request, variant, inputs);
    lemma_enabled_ids_distinct(request.destinations, run.after(inputs).cursor);
}

/// A cancellation signal that is set when a destination's session would
/// start ends the run as cancelled: the cursor stays at that destination,
/// and whatever calls follow, neither it nor any destination after it gets a
/// session or a notification.
pub proof fn lemma_cancel_before_session(run: RunModel, inputs: Seq<RunInput>)
    requires
        run.wf(),
        run.next_action(false) is Start,
    ensures
        ({
            let stopped = run.after_next(true);
            &&& run.next_action(true) == RunActionModel::Finish(Err(RunError::Cancelled))
            &&& stopped.result == Some(Err::<(), RunError>(RunError::Cancelled))
            &&& stopped.cursor == next_enabled(run.destinations, run.cursor)
            &&& stopped.after(inputs) == stopped
            &&& stopped.notified_over(inputs) == Seq::<u64>::empty()
            &&& stopped.sessions_started(inputs) == 0
        }),
{
    lemma_next_enabled(run.destinations, run.cursor);
    lemma_call_keeps_wf(run, RunInput::Next { cancel_requested: true });
    lemma_ended_run_is_final(run.after_next(true), inputs);
}

/// A session that ended in any way but cancelled leaves the run going: its
/// destination has its notification, and the next call hands out the session
/// of the next enabled destination, or ends the run well if none is left.
pub proof fn lemma_failure_is_local(run: RunModel, session: SessionModel)
    requires
        run.wf(),
        run.settles(session),
        !(session.phase->outcome is Cancelled),
    ensures
        ({
            let settled = run.after_settle(session);
            let position = next_enabled(run.destinations, run.cursor + 1);
            &&& run.settle_event(session) is Some
            &&& settled.result is None
            &&& !settled.in_flight
            &&& settled.next_action(false) == if position < run.destinations.len() {
                RunActionModel::Start(settled.session_at(position))
            } else {
                RunActionModel::Finish(Ok(()))
            }
        }),
{
}

/// A session that ended as cancelled ends the run as cancelled: its
/// destination has its notification, and no destination after it gets a
/// session or a notification, whatever calls follow.
pub proof fn lemma_cancelled_session_ends_run(
    run: RunModel,
    session: SessionModel,
    inputs: Seq<RunInput>,
)
    requires
        run.wf(),
        run.settles(session),
        session.phase->outcome is Cancelled,
    ensures
        ({
            let settled = run.after_settle(session);
            &&& run.settle_event(session) is Some
            &&& settled.result == Some(Err::<(), RunError>(RunError::Cancelled))
            &&& settled.after(inputs) == settled
            &&& settled.notified_over(inputs) == Seq::<u64>::empty()
            &&& settled.sessions_started(inputs) == 0
        }),
{
    lemma_call_keeps_wf(run, RunInput::Settle { session });
    lemma_ended_run_is_final(run.after_settle(session), inputs);
}

/// A run over destinations of which none is enabled hands out no session,
/// whatever calls are made.
pub proof fn lemma_nothing_enabled_nothing_started(run: RunModel, inputs: Seq<RunInput>)
    requires
        run.wf(),
        !run.in_flight,
        !has_enabled(run.destinations),
    ensures
        run.sessions_started(inputs) == 0,
        !run.after(inputs).in_flight,
    decreases inputs.len(),
{
    if inputs.len() > 0 {
        let before = run.after(inputs.drop_last());
        lemma_nothing_enabled_nothing_started(run, inputs.drop_last());
        lemma_run_keeps_wf(run, inputs.drop_last());
        lemma_next_enabled(run.destinations, before.cursor);
        let position = next_enabled(run.destinations, before.cursor);
        if position < run.destinations.len() {
        }
    }
}

} // verus!
