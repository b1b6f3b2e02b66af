//! What holds of the coordination loop whatever it is fed.

use crate::adu::ReportedPatchView;
use crate::json::json_keys;
use crate::twin::{
    ActionView, AuthenticationStatus, DesiredError, Event, MethodResponse, Phase, TwinError,
    TwinUpdateState, TwinView, UnauthenticatedReason, actions_of, after_enqueue, initial_report,
    method_response, next_action, next_state, state_after,
};
use vstd::prelude::*;

verus! {

/// The state after a sequence of patches was offered to the queue, one by one.
pub open spec fn after_enqueue_all(s: TwinView, patches: Seq<ReportedPatchView>) -> TwinView
    decreases patches.len(),
{
    if patches.len() == 0 {
        s
    } else {
        after_enqueue(after_enqueue_all(s, patches.drop_last()), patches.last())
    }
}

/// `count` times the event that the hub client is free to take a patch.
pub open spec fn ready_events(count: nat) -> Seq<Event> {
    Seq::new(count, |i: int| Event::ReportedReady)
}

/// The actions that hand these patches to the hub client, in their order.
pub open spec fn reports_of(patches: Seq<ReportedPatchView>) -> Seq<ActionView> {
    Seq::new(patches.len(), |i: int| ActionView::Report(patches[i]))
}

/// How many of these actions shut the hub client down.
pub open spec fn shutdowns_in(actions: Seq<ActionView>) -> nat
    decreases actions.len(),
{
    if actions.len() == 0 {
        0
    } else {
        shutdowns_in(actions.drop_last()) + if actions.last() is Shutdown {
            1nat
        } else {
            0nat
        }
    }
}

/// Patches that find room are appended to the queue in the order in which they
/// were offered.
pub proof fn law_enqueue_appends(s: TwinView, patches: Seq<ReportedPatchView>)
    requires
        s.queue.len() + patches.len() <= s.limit(),
    ensures
        after_enqueue_all(s, patches) == (TwinView { queue: s.queue + patches, ..s }),
    decreases patches.len(),
{
    if patches.len() == 0 {
        assert(s.queue + patches =~= s.queue);
    } else {
        law_enqueue_appends(s, patches.drop_last());
        assert((s.queue + patches.drop_last()).push(patches.last()) =~= s.queue + patches);
    }
}

/// While the agent runs, the patches leave the queue from its front: the first
/// `count` times the hub client is free, it is handed the first `count` patches
/// of the queue in their order, and the rest stays queued.
pub proof fn law_queue_drains_in_order(s: TwinView, count: nat)
    requires
        s.phase == Phase::Running,
        count <= s.queue.len(),
    ensures
        actions_of(s, ready_events(count)) == reports_of(s.queue.take(count as int)),
        state_after(s, ready_events(count)) == (TwinView {
            queue: s.queue.skip(count as int),
            ..s
        }),
    decreases count,
{
    if count == 0 {
        assert(s.queue.skip(0) =~= s.queue);
        assert(reports_of(s.queue.take(0)) =~= Seq::<ActionView>::empty());
    } else {
        let shorter = (count - 1) as nat;
        law_queue_drains_in_order(s, shorter);
        assert(ready_events(count).drop_last() =~= ready_events(shorter));
        assert(ready_events(count).last() == Event::ReportedReady);
        assert(s.queue.skip(shorter as int).drop_first() =~= s.queue.skip(count as int));
        assert(s.queue.skip(shorter as int)[0] == s.queue[shorter as int]);
        assert(reports_of(s.queue.take(shorter as int)).push(
            ActionView::Report(s.queue[shorter as int]),
        ) =~= reports_of(s.queue.take(count as int)));
    }
}

/// First in, first out: whatever patches are offered to a running agent with
/// room for them, the hub client is handed what was queued before and then these
/// patches, each once and in the order in which they were offered, and the queue
/// is empty afterwards.
pub proof fn law_reported_in_enqueue_order(s: TwinView, patches: Seq<ReportedPatchView>)
    requires
        s.phase == Phase::Running,
        s.queue.len() + patches.len() <= s.limit(),
    ensures
        actions_of(
            after_enqueue_all(s, patches),
            ready_events(s.queue.len() + patches.len()),
        ) == reports_of(s.queue + patches),
        state_after(
            after_enqueue_all(s, patches),
            ready_events(s.queue.len() + patches.len()),
        ).queue == Seq::<ReportedPatchView>::empty(),
{
    law_enqueue_appends(s, patches);
    let filled = after_enqueue_all(s, patches);
    let count = s.queue.len() + patches.len();
    law_queue_drains_in_order(filled, count);
    assert(filled.queue.take(count as int) =~= s.queue + patches);
    assert(filled.queue.skip(count as int) =~= Seq::<ReportedPatchView>::empty());
}

/// No event takes the queue over its limit.
pub proof fn law_queue_stays_within_limit(s: TwinView, events: Seq<Event>)
    requires
        s.wf(),
    ensures
        state_after(s, events).wf(),
    decreases events.len(),
{
    if events.len() > 0 {
        law_queue_stays_within_limit(s, events.drop_last());
    }
}

/// The first authentication of a running agent enqueues the three patches of the
/// initial report behind what is queued, and no later authentication enqueues
/// anything.
pub proof fn law_initial_report_once(s: TwinView)
    requires
        s.phase == Phase::Running,
        !s.authenticated_once,
    ensures
        initial_report(s).len() == 3,
        ({
            let authenticated = Event::ConnectionStatus(AuthenticationStatus::Authenticated);
            let first = next_state(s, authenticated);
            &&& first.queue == s.queue + initial_report(s)
            &&& first.authenticated_once
            &&& first.phase == Phase::Running
            &&& next_state(first, authenticated) == first
            &&& next_action(s, authenticated) == ActionView::Wait
            &&& next_action(first, authenticated) == ActionView::Wait
        }),
{
}

/// That the agent was authenticated once is never forgotten, and from then on
/// no event adds a patch to the queue.
pub proof fn law_authentication_is_remembered(s: TwinView, events: Seq<Event>)
    requires
        s.authenticated_once,
    ensures
        state_after(s, events).authenticated_once,
        state_after(s, events).queue.len() <= s.queue.len(),
    decreases events.len(),
{
    if events.len() > 0 {
        law_authentication_is_remembered(s, events.drop_last());
    }
}

/// A running agent goes on when the connection is lost to an expired token, with
/// nothing changed, and fails when it is lost for any other reason.
pub proof fn law_only_expired_token_is_tolerated(s: TwinView, reason: UnauthenticatedReason)
    requires
        s.phase == Phase::Running,
    ensures
        ({
            let lost = Event::ConnectionStatus(AuthenticationStatus::Unauthenticated(reason));
            if reason == UnauthenticatedReason::ExpiredSasToken {
                &&& next_state(s, lost) == s
                &&& next_action(s, lost) == ActionView::Wait
            } else {
                &&& next_state(s, lost).phase == Phase::Failed
                &&& next_action(s, lost) == ActionView::Fail(TwinError::NoConnection(reason))
            }
        }),
{
}

/// A complete update of the desired properties without the root key is logged
/// and changes nothing: the agent runs on. With the root key it is taken, and
/// changes nothing either.
pub proof fn law_update_without_root_is_logged(s: TwinView, payload: serde_json::Value)
    requires
        s.phase == Phase::Running,
    ensures
        next_state(s, Event::DesiredProperties(TwinUpdateState::Complete, payload)) == s,
        next_action(s, Event::DesiredProperties(TwinUpdateState::Complete, payload)) == if json_keys(
            payload,
        ).contains("desired"@) {
            ActionView::Wait
        } else {
            ActionView::LogDesiredError(DesiredError::RootMissing)
        },
{
}

/// A partial update of the desired properties changes nothing, whatever it
/// holds: nothing is enqueued and nothing is logged.
pub proof fn law_partial_update_is_no_op(s: TwinView, payload: serde_json::Value)
    requires
        s.phase == Phase::Running,
    ensures
        next_state(s, Event::DesiredProperties(TwinUpdateState::Partial, payload)) == s,
        next_action(s, Event::DesiredProperties(TwinUpdateState::Partial, payload))
            == ActionView::Wait,
{
}

/// A running agent answers the termination signal with the shutdown of the hub
/// client, and the end of that shutdown with a return without an error.
pub proof fn law_termination_stops(s: TwinView)
    requires
        s.phase == Phase::Running,
    ensures
        next_action(s, Event::TerminationSignal) == ActionView::Shutdown,
        next_state(s, Event::TerminationSignal).phase == Phase::ShuttingDown,
        next_action(next_state(s, Event::TerminationSignal), Event::ShutdownComplete)
            == ActionView::Exit,
        next_state(next_state(s, Event::TerminationSignal), Event::ShutdownComplete).phase
            == Phase::Stopped,
{
}

/// Whatever events arrive, in whatever order, the hub client is shut down at
/// most once, and not at all unless the agent has left its running phase for the
/// shutdown.
pub proof fn law_single_shutdown(s: TwinView, events: Seq<Event>)
    ensures
        shutdowns_in(actions_of(s, events)) <= 1,
        shutdowns_in(actions_of(s, events)) == 0 || state_after(s, events).phase
            == Phase::ShuttingDown || state_after(s, events).phase == Phase::Stopped,
    decreases events.len(),
{
    if events.len() > 0 {
        let front = events.drop_last();
        law_single_shutdown(s, front);
        let action = next_action(state_after(s, front), events.last());
        assert(actions_of(s, events).drop_last() =~= actions_of(s, front));
        assert(actions_of(s, events).last() == action);
    }
}

/// A termination signal that reaches a running agent is answered by exactly one
/// shutdown, whatever events came before it and whatever events follow.
pub proof fn law_signal_shuts_down_once(s: TwinView, before: Seq<Event>, after: Seq<Event>)
    requires
        state_after(s, before).phase == Phase::Running,
    ensures
        shutdowns_in(actions_of(s, before + seq![Event::TerminationSignal] + after)) == 1,
    decreases after.len(),
{
    let signalled = before + seq![Event::TerminationSignal];
    if after.len() == 0 {
        assert(signalled + after =~= signalled);
        assert(signalled.drop_last() =~= before);
        law_single_shutdown(s, before);
        assert(actions_of(s, signalled).drop_last() =~= actions_of(s, before));
    } else {
        let all = signalled + after;
        law_signal_shuts_down_once(s, before, after.drop_last());
        assert(all.drop_last() =~= signalled + after.drop_last());
        law_single_shutdown(s, all);
        assert(actions_of(s, all).drop_last() =~= actions_of(s, all.drop_last()));
    }
}

/// Every invocation of a direct method is answered by exactly one response, in
/// every phase and for every name, and nothing but an invocation is answered by
/// a response.
pub proof fn law_every_invocation_answered(s: TwinView, e: Event)
    ensures
        match e {
            Event::DirectMethod { name, payload } => {
                &&& next_action(s, e) == ActionView::Respond(method_response(name@))
                &&& next_state(s, e) == s
            },
            _ => !(next_action(s, e) is Respond),
        },
{
}

/// The response to an invocation is a success for `factory_reset` and the
/// failure of an unknown method for every other name.
pub proof fn law_registry_is_closed(name: Seq<char>)
    ensures
        method_response(name) == MethodResponse::Success <==> name == "factory_reset"@,
        method_response(name) == MethodResponse::UnknownMethod <==> name != "factory_reset"@,
{
}

} // verus!
