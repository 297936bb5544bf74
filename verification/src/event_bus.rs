//! The dispatcher: it feeds each event to the state machine and says what
//! the caller, who owns the screen and the transport, is to do.

use crate::app::{App, AppState};
use crate::event::{Event, EventView};
use crate::time::{utc_now, Timestamp};
use crate::update::{
    after_transmit, envelope, transmit, transmit_action, update, update_action, updated, Action,
    ActionView,
};
use crate::wire::{ClientMsg, ClientMsgBody};
use vstd::prelude::*;

verus! {

/// The state after `event` has been dispatched at the time `now`.
///
/// Drawing changes nothing. An event that asks for a message to go out
/// changes nothing either, but for the entry that is logged where there is
/// no key to encrypt under. Every other event is applied to the state.
pub open spec fn dispatched(state: AppState, event: EventView, now: Timestamp) -> AppState {
    match event {
        EventView::Render => state,
        EventView::Send { .. } | EventView::ServerCommand { .. } => after_transmit(state, now),
        _ => updated(state, event, now),
    }
}

/// What dispatching `event` at the time `now` asks of the caller: to draw,
/// to send the message that the event describes, or what applying the event
/// asks.
pub open spec fn dispatch_action(state: AppState, event: EventView, now: Timestamp) -> ActionView {
    match event {
        EventView::Render => ActionView::Draw,
        EventView::Send { .. } | EventView::ServerCommand { .. } => transmit_action(
            state,
            envelope(event)->0,
        ),
        _ => update_action(state, event, now),
    }
}

/// Dispatches `event` at the time `now`.
pub fn dispatch_at(app: &mut App, event: Event, now: Timestamp) -> (out: Action)
    ensures
        final(app)@ == dispatched(old(app)@, event@, now),
        out@ == dispatch_action(old(app)@, event@, now),
{
    match event {
        Event::Render => Action::Draw,
        Event::Send { token, username, timestamp, contents } => {
            let msg = ClientMsg {
                token: Some(token),
                body: ClientMsgBody::SendToRoom { contents },
                timestamp,
            };
            transmit(app, msg, now)
        },
        Event::ServerCommand { token, username, timestamp, message_body } => {
            let msg = ClientMsg { token: Some(token), body: message_body, timestamp };
            transmit(app, msg, now)
        },
        other => update(app, other, now),
    }
}

/// Dispatches `event` at the current time: whatever the clock says, state
/// and action are those of dispatching at that time.
pub fn dispatch(app: &mut App, event: Event) -> (out: Action)
    ensures
        exists|now: Timestamp|
            final(app)@ == #[trigger] dispatched(old(app)@, event@, now) && out@
                == dispatch_action(old(app)@, event@, now),
{
    let now = utc_now();
    dispatch_at(app, event, now)
}

/// Whatever the event, the state meets the invariants after it has been
/// dispatched: the buffer has a line and the caret is in bounds, the ring
/// is within its capacity, and a command is staged exactly while its
/// parameter is typed.
pub proof fn law_dispatch_keeps_invariants(state: AppState, event: EventView, now: Timestamp)
    requires
        state.wf(),
    ensures
        dispatched(state, event, now).wf(),
{
    crate::update::law_update_keeps_invariants(state, event, now);
    crate::update::lemma_logged_keeps_invariants(
        state,
        crate::update::client_entry("No key for encryption of outgoing message."@, now),
    );
}

/// The states that a sequence of events leads through, each dispatched at
/// its time, end in this one.
pub open spec fn run(start: AppState, events: Seq<(EventView, Timestamp)>) -> AppState
    decreases events.len(),
{
    if events.len() == 0 {
        start
    } else {
        dispatched(run(start, events.drop_last()), events.last().0, events.last().1)
    }
}

/// After every step of every sequence of events the state meets the
/// invariants.
pub proof fn law_run_keeps_invariants(
    start: AppState,
    events: Seq<(EventView, Timestamp)>,
    steps: int,
)
    requires
        start.wf(),
        0 <= steps <= events.len(),
    ensures
        run(start, events.take(steps)).wf(),
    decreases steps,
{
    if steps > 0 {
        law_run_keeps_invariants(start, events, steps - 1);
        assert(events.take(steps).drop_last() =~= events.take(steps - 1));
        law_dispatch_keeps_invariants(
            run(start, events.take(steps - 1)),
            events[steps - 1].0,
            events[steps - 1].1,
        );
    }
}

} // verus!
