//! What holds of the state machine over whole runs of events.

use crate::paint3d::{
    applied, next, shown, Action, Button, InteractionSession, Mode, Outcome,
};
use crate::view::{fits, Held, ViewState, WHEEL_CENTER, WHEEL_DEPTH, WHEEL_SPIN};
use crate::xcbshow::{Event, InteractKind, Pos};
use vstd::prelude::*;

verus! {

/// View and session after a run of events, taken one after the other.
pub open spec fn run(state: ViewState, session: InteractionSession, events: Seq<Event>) -> (
    ViewState,
    InteractionSession,
)
    decreases events.len(),
{
    if events.len() == 0 {
        (state, session)
    } else {
        let before = run(state, session, events.drop_last());
        let out = next(before.0, before.1, events.last());
        (out.state, out.session)
    }
}

/// Whether `event` says that `button` went down at `pos`.
pub open spec fn is_press(event: Event, button: Button, pos: Pos) -> bool {
    match button {
        Button::Left => event matches Event::Interact(InteractKind::LeftPress { pos: at, .. })
            && at == pos,
        Button::Right => event matches Event::Interact(InteractKind::RightPress { pos: at, .. })
            && at == pos,
    }
}

/// Whether `event` says that `button` came up at `pos`.
pub open spec fn is_release(event: Event, button: Button, pos: Pos) -> bool {
    match button {
        Button::Left => event matches Event::Interact(InteractKind::LeftRelease { pos: at, .. })
            && at == pos,
        Button::Right => event matches Event::Interact(InteractKind::RightRelease { pos: at, .. })
            && at == pos,
    }
}

/// Whether `event` says that the pointer moved.
pub open spec fn is_move(event: Event) -> bool {
    event matches Event::Interact(InteractKind::Move { .. })
}

/// Whether `events` is the start of one drag with `button` from `from`: the
/// button goes down there, and then the pointer only moves.
pub open spec fn is_drag_start(events: Seq<Event>, button: Button, from: Pos) -> bool {
    &&& events.len() >= 1
    &&& is_press(events[0], button, from)
    &&& forall|i: int| 1 <= i < events.len() ==> is_move(#[trigger] events[i])
}

/// Whether the wheel can turn `step` notches without the component it acts
/// on reaching the edge of its range.
pub open spec fn wheel_has_room(state: ViewState, what: Held, step: int) -> bool {
    match what {
        Held::Nothing => fits(state.camera_center.0 + WHEEL_CENTER * step),
        Held::Left => fits(state.translation.2 + WHEEL_DEPTH * step),
        Held::Right => fits(state.rotation.1 + WHEEL_SPIN * step),
        Held::Other => true,
    }
}

/// A movement of the pointer never changes the view, whatever the session:
/// what a drag previews is not committed before the button comes up.
pub proof fn lemma_move_keeps_view(state: ViewState, session: InteractionSession, event: Event)
    requires
        is_move(event),
    ensures
        next(state, session, event).state == state,
        next(state, session, event).session.mode == session.mode,
        next(state, session, event).session.anchor == session.anchor,
{
}

/// While a drag lasts, each movement has the picture drawn as the drag up to
/// the pointer would leave it.
pub proof fn lemma_move_previews_drag(
    state: ViewState,
    session: InteractionSession,
    pos: Pos,
    event: Event,
)
    requires
        session.mode is Dragging,
        event matches Event::Interact(InteractKind::Move { pos: at, .. }) && at == pos,
    ensures
        next(state, session, event).action matches Action::Redraw(reason) && shown(state, reason)
            == applied(state, session.at(pos)),
{
}

/// From the start of a drag up to its last movement the view is the one
/// before the drag, and the session still holds the button and the anchor.
pub proof fn lemma_drag_start_keeps_view(
    state: ViewState,
    events: Seq<Event>,
    button: Button,
    from: Pos,
)
    requires
        is_drag_start(events, button, from),
    ensures
        run(state, InteractionSession::idle(), events).0 == state,
        run(state, InteractionSession::idle(), events).1.mode == Mode::Dragging(button),
        run(state, InteractionSession::idle(), events).1.anchor == from,
    decreases events.len(),
{
    let idle = InteractionSession::idle();
    let before = events.drop_last();
    if events.len() == 1 {
        assert(run(state, idle, before) == (state, idle));
    } else {
        assert forall|i: int| 1 <= i < before.len() implies is_move(#[trigger] before[i]) by {
            assert(before[i] == events[i]);
        }
        lemma_drag_start_keeps_view(state, before, button, from);
        assert(is_move(events[events.len() - 1]));
    }
}

/// A whole drag, from the button going down at `from` over any movements to
/// its coming up at `to`, commits the offset from `from` to `to` and nothing
/// else: where the pointer went in between does not matter. The session is
/// idle again, and the picture is drawn as committed.
pub proof fn lemma_drag_commits_offset(
    state: ViewState,
    events: Seq<Event>,
    button: Button,
    from: Pos,
    to: Pos,
    release: Event,
)
    requires
        is_drag_start(events, button, from),
        is_release(release, button, to),
    ensures
        run(state, InteractionSession::idle(), events.push(release)).0 == applied(
            state,
            InteractionSession::begun(button, from).at(to),
        ),
        run(state, InteractionSession::idle(), events.push(release)).1
            == InteractionSession::idle(),
        ({
            let before = run(state, InteractionSession::idle(), events);
            let out = next(before.0, before.1, release);
            out.action matches Action::Redraw(reason) && shown(out.state, reason) == out.state
        }),
{
    lemma_drag_start_keeps_view(state, events, button, from);
    assert(events.push(release).drop_last() =~= events);
    assert(events.push(release).last() == release);
}

/// A drag with the left button commits twice the offset in pixels, as half
/// pixels, to the translation along x and y, and leaves the rest alone.
pub proof fn lemma_left_drag_translates(state: ViewState, from: Pos, to: Pos)
    requires
        fits(state.translation.0 + 2 * (to.0 - from.0)),
        fits(state.translation.1 + 2 * (to.1 - from.1)),
    ensures
        applied(state, InteractionSession::begun(Button::Left, from).at(to)) == (ViewState {
            translation: (
                (state.translation.0 + 2 * (to.0 - from.0)) as i64,
                (state.translation.1 + 2 * (to.1 - from.1)) as i64,
                state.translation.2,
            ),
            ..state
        }),
{
}

/// A drag with the right button commits the offset in pixels as degrees: the
/// vertical part to the angle about x, the horizontal part to the angle
/// about z.
pub proof fn lemma_right_drag_rotates(state: ViewState, from: Pos, to: Pos)
    requires
        fits(state.rotation.0 + 2 * (to.1 - from.1)),
        fits(state.rotation.2 + 2 * (to.0 - from.0)),
    ensures
        applied(state, InteractionSession::begun(Button::Right, from).at(to)) == (ViewState {
            rotation: (
                (state.rotation.0 + 2 * (to.1 - from.1)) as i64,
                state.rotation.1,
                (state.rotation.2 + 2 * (to.0 - from.0)) as i64,
            ),
            ..state
        }),
{
}

/// Turning the wheel by `step` notches and back by as many restores the view,
/// as long as the first turn stays inside the range.
pub proof fn lemma_wheel_round_trip(state: ViewState, what: Held, step: int)
    requires
        state.in_range(),
        wheel_has_room(state, what, step),
    ensures
        state.wheeled(what, step).wheeled(what, -step) == state,
{
}

/// The same of the two events: a wheel event and the one with the opposite
/// step, whatever is held the same in both, leave the view as it was.
pub proof fn lemma_wheel_events_round_trip(
    state: ViewState,
    session: InteractionSession,
    there: Event,
    back: Event,
)
    requires
        state.in_range(),
        there matches Event::Interact(InteractKind::Wheel { state: held_there, step: up })
            && back matches Event::Interact(InteractKind::Wheel { state: held_back, step: down })
            && held_there == held_back && down == -up && wheel_has_room(
            state,
            crate::paint3d::held(held_there),
            up as int,
        ),
    ensures
        ({
            let first = next(state, session, there);
            next(first.state, first.session, back).state == state
        }),
{
}

/// A new size of the canvas changes the viewport and nothing else, in any
/// session, and has the picture drawn from the committed view.
pub proof fn lemma_expose_changes_viewport_only(
    state: ViewState,
    session: InteractionSession,
    width: u16,
    height: u16,
)
    ensures
        next(state, session, Event::Expose { width, height }) == (Outcome {
            state: ViewState { viewport: (width, height), ..state },
            session,
            action: Action::Redraw(crate::paint3d::InteractionEvent::Expose),
        }),
        shown(
            next(state, session, Event::Expose { width, height }).state,
            crate::paint3d::InteractionEvent::Expose,
        ) == next(state, session, Event::Expose { width, height }).state,
{
}

/// The same size twice changes nothing the second time, and both times the
/// same view is drawn.
pub proof fn lemma_expose_twice_draws_the_same(
    state: ViewState,
    session: InteractionSession,
    width: u16,
    height: u16,
)
    ensures
        ({
            let once = next(state, session, Event::Expose { width, height });
            let twice = next(once.state, once.session, Event::Expose { width, height });
            twice == once
        }),
{
}

/// Whatever is to be drawn after an event other than a movement shows the
/// view as it is committed after that event.
pub proof fn lemma_redraw_shows_committed(
    state: ViewState,
    session: InteractionSession,
    event: Event,
)
    requires
        !is_move(event),
    ensures
        next(state, session, event).action matches Action::Redraw(reason) ==> shown(
            next(state, session, event).state,
            reason,
        ) == next(state, session, event).state,
{
}

/// Closing the window ends the session from any state, and changes nothing.
pub proof fn lemma_close_quits(state: ViewState, session: InteractionSession)
    ensures
        next(state, session, Event::Close) == (Outcome { state, session, action: Action::Quit }),
{
}

} // verus!
