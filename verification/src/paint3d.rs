//! The interaction state machine: which window event changes what of the
//! view, and what is to be drawn after it.

use crate::view::{Held, Triple, ViewState};
use crate::xcbshow::{
    wheel_step, Event, InteractDevice, InteractKind, Mouse, Pos, RawEvent, HELD_LEFT, HELD_RIGHT,
    KIND_BUTTON_PRESS, KIND_BUTTON_RELEASE,
};
use vstd::prelude::*;

verus! {

/// The key that ends the session: `Q` on a keyboard laid out for English.
pub const KEY_QUIT: u8 = 0x18;

/// A button that drags.
#[derive(Clone, Copy, Debug, PartialEq, Eq)]
pub enum Button {
    Left,
    Right,
}

/// Whether a drag is under way, and with which button.
#[derive(Clone, Copy, Debug, PartialEq, Eq)]
pub enum Mode {
    Idle,
    Dragging(Button),
}

/// What is known of a drag while it lasts. None of it is part of the view
/// until the button comes up.
#[derive(Clone, Copy, Debug, PartialEq, Eq)]
pub struct InteractionSession {
    /// Whether a drag is under way.
    pub mode: Mode,
    /// Where the button went down.
    pub anchor: Pos,
    /// How far the pointer was from the anchor when it last moved, in pixels.
    pub delta: (i32, i32),
}

/// What the pointer did to the view.
#[derive(Debug, PartialEq, Eq)]
pub enum MouseEvent<Move = Triple> {
    /// The object is to be shown moved to `(dx, dy, dz)`.
    LeftDrag(Move),
    /// The object is to be shown turned to `(rx, ry, rz)`.
    RightDrag(Move),
    /// The camera moved; the view says where to.
    Scroll,
}

/// Why the picture must be drawn again.
#[derive(Debug, PartialEq, Eq)]
pub enum InteractionEvent {
    Expose,
    Mouse(MouseEvent),
}

/// What the host must do after an event.
#[derive(Debug, PartialEq, Eq)]
pub enum Action {
    /// Nothing: wait for the next event.
    Ignore,
    /// Project the segments again and draw them.
    Redraw(InteractionEvent),
    /// Leave the event loop.
    Quit,
}

/// View, session and action after one event.
#[derive(Debug, PartialEq, Eq)]
pub struct Outcome {
    pub state: ViewState,
    pub session: InteractionSession,
    pub action: Action,
}

/// Why the window could hand over no event.
#[derive(Clone, Copy, Debug, PartialEq, Eq)]
pub enum Fault {
    /// The stream to the display broke, as it does when the other end
    /// closes it.
    Connection,
    /// The display closed the connection over an extension it lacks.
    ClosedExtNotSupported,
    /// The connection closed for want of memory.
    ClosedMemInsufficient,
    /// The connection closed over a request longer than the display takes.
    ClosedReqLenExceed,
    /// The name of the display could not be read.
    ClosedParseErr,
    /// The display has no such screen.
    ClosedInvalidScreen,
    /// A file descriptor could not be passed.
    ClosedFdPassingFailed,
    /// The display refused a request.
    Protocol,
}

/// Whether the session ends in good order on `fault`: it does when the
/// stream broke, which is how a window closed by its title bar shows, and on
/// no other fault.
pub open spec fn graceful(fault: Fault) -> bool {
    fault is Connection
}

/// How far `to` lies from `from`, in pixels along x and y.
pub open spec fn offset(from: Pos, to: Pos) -> (i32, i32) {
    ((to.0 - from.0) as i32, (to.1 - from.1) as i32)
}

/// What the wheel acts on, given what the event says was held: a modifier
/// mask counts when it is empty or names one dragging button alone.
pub open spec fn held(device: InteractDevice) -> Held {
    match device {
        InteractDevice::KeyBoard(mask) => if mask == 0 {
            Held::Nothing
        } else if mask == HELD_LEFT {
            Held::Left
        } else if mask == HELD_RIGHT {
            Held::Right
        } else {
            Held::Other
        },
        InteractDevice::Mouse(Mouse::Left) => Held::Left,
        InteractDevice::Mouse(Mouse::Right) => Held::Right,
        InteractDevice::Mouse(Mouse::Wheel) => Held::Other,
    }
}

impl InteractionSession {
    /// No drag is under way, and nothing is left of the last one.
    pub open spec fn idle() -> InteractionSession {
        InteractionSession { mode: Mode::Idle, anchor: (0, 0), delta: (0, 0) }
    }

    /// A drag with `button` has begun at `pos`.
    pub open spec fn begun(button: Button, pos: Pos) -> InteractionSession {
        InteractionSession { mode: Mode::Dragging(button), anchor: pos, delta: (0, 0) }
    }

    /// The same drag, the pointer now at `pos`.
    pub open spec fn at(self, pos: Pos) -> InteractionSession {
        InteractionSession { delta: offset(self.anchor, pos), ..self }
    }

    /// What holds of the session at all times: outside a drag it is blank.
    pub open spec fn wf(self) -> bool {
        self.mode is Idle ==> self == InteractionSession::idle()
    }
}

/// The view with the drag of `session` applied to it, as if the button came
/// up now.
pub open spec fn applied(state: ViewState, session: InteractionSession) -> ViewState {
    match session.mode {
        Mode::Idle => state,
        Mode::Dragging(Button::Left) => state.slid(session.delta.0 as int, session.delta.1 as int),
        Mode::Dragging(Button::Right) => state.turned(
            session.delta.0 as int,
            session.delta.1 as int,
        ),
    }
}

/// The reason to draw again that makes the host show `view`, where `view`
/// differs from the committed view at most in what `mode` drags.
pub open spec fn showing(view: ViewState, mode: Mode) -> InteractionEvent {
    match mode {
        Mode::Idle => InteractionEvent::Expose,
        Mode::Dragging(Button::Left) => InteractionEvent::Mouse(
            MouseEvent::LeftDrag(view.translation),
        ),
        Mode::Dragging(Button::Right) => InteractionEvent::Mouse(
            MouseEvent::RightDrag(view.rotation),
        ),
    }
}

/// The view that is drawn for `reason` when `state` is committed: a drag
/// event shows its own translation or rotation in place of the committed
/// one, every other reason shows what is committed.
pub open spec fn shown(state: ViewState, reason: InteractionEvent) -> ViewState {
    match reason {
        InteractionEvent::Expose => state,
        InteractionEvent::Mouse(MouseEvent::Scroll) => state,
        InteractionEvent::Mouse(MouseEvent::LeftDrag(translation)) => ViewState {
            translation,
            ..state
        },
        InteractionEvent::Mouse(MouseEvent::RightDrag(rotation)) => ViewState { rotation, ..state },
    }
}

/// Nothing changes and nothing is to be done.
pub open spec fn ignored(state: ViewState, session: InteractionSession) -> Outcome {
    Outcome { state, session, action: Action::Ignore }
}

/// A button goes down at `pos`. From idle this starts a drag; during a drag
/// it is ignored.
pub open spec fn pressed(
    state: ViewState,
    session: InteractionSession,
    button: Button,
    pos: Pos,
) -> Outcome {
    if session.mode is Idle {
        Outcome { state, session: InteractionSession::begun(button, pos), action: Action::Ignore }
    } else {
        ignored(state, session)
    }
}

/// The pointer moves to `pos`. During a drag the session follows it and the
/// picture is drawn as the drag would leave it; the view itself stays.
pub open spec fn moved(state: ViewState, session: InteractionSession, pos: Pos) -> Outcome {
    if session.mode is Dragging {
        let session = session.at(pos);
        Outcome {
            state,
            session,
            action: Action::Redraw(showing(applied(state, session), session.mode)),
        }
    } else {
        ignored(state, session)
    }
}

/// A button comes up at `pos`. If it is the one that drags, the drag up to
/// `pos` becomes part of the view and the session ends; else it is ignored.
pub open spec fn released(
    state: ViewState,
    session: InteractionSession,
    button: Button,
    pos: Pos,
) -> Outcome {
    if session.mode == Mode::Dragging(button) {
        let state = applied(state, session.at(pos));
        Outcome {
            state,
            session: InteractionSession::idle(),
            action: Action::Redraw(showing(state, session.mode)),
        }
    } else {
        ignored(state, session)
    }
}

/// The wheel turns by `step` notches. The view changes at once, by what is
/// held, and any drag ends without effect; with something else held the
/// event is ignored.
pub open spec fn scrolled(
    state: ViewState,
    session: InteractionSession,
    what: Held,
    step: int,
) -> Outcome {
    let after = state.wheeled(what, step);
    let idle = InteractionSession::idle();
    match what {
        Held::Nothing => Outcome {
            state: after,
            session: idle,
            action: Action::Redraw(InteractionEvent::Mouse(MouseEvent::Scroll)),
        },
        Held::Left => Outcome {
            state: after,
            session: idle,
            action: Action::Redraw(showing(after, Mode::Dragging(Button::Left))),
        },
        Held::Right => Outcome {
            state: after,
            session: idle,
            action: Action::Redraw(showing(after, Mode::Dragging(Button::Right))),
        },
        Held::Other => ignored(state, session),
    }
}

/// The transition of the state machine: view, session and action after
/// `event`, given view and session before it.
pub open spec fn next(state: ViewState, session: InteractionSession, event: Event) -> Outcome {
    match event {
        Event::Noop => ignored(state, session),
        Event::Close => Outcome { state, session, action: Action::Quit },
        Event::Expose { width, height } => Outcome {
            state: state.resized(width, height),
            session,
            action: Action::Redraw(InteractionEvent::Expose),
        },
        Event::Interact(InteractKind::KeyPress { key, .. }) => if key == KEY_QUIT {
            Outcome { state, session, action: Action::Quit }
        } else {
            ignored(state, session)
        },
        Event::Interact(InteractKind::LeftPress { pos, .. }) => pressed(
            state,
            session,
            Button::Left,
            pos,
        ),
        Event::Interact(InteractKind::RightPress { pos, .. }) => pressed(
            state,
            session,
            Button::Right,
            pos,
        ),
        Event::Interact(InteractKind::Move { pos, .. }) => moved(state, session, pos),
        Event::Interact(InteractKind::LeftRelease { pos, .. }) => released(
            state,
            session,
            Button::Left,
            pos,
        ),
        Event::Interact(InteractKind::RightRelease { pos, .. }) => released(
            state,
            session,
            Button::Right,
            pos,
        ),
        Event::Interact(InteractKind::Wheel { state: device, step }) => scrolled(
            state,
            session,
            held(device),
            step as int,
        ),
    }
}

/// The event that the viewer takes a record of the window for. The window
/// reports a notch of the wheel twice, as a button going down and coming up,
/// and a push on the wheel as a notch of no length; the viewer counts a notch
/// once, when it goes down, and a push not at all. Every other record is
/// taken for what it stands for.
pub open spec fn heard(raw: RawEvent) -> Event {
    if (raw.kind == KIND_BUTTON_PRESS || raw.kind == KIND_BUTTON_RELEASE) && wheel_step(raw.detail)
        is Some {
        if raw.kind == KIND_BUTTON_PRESS && wheel_step(raw.detail) != Some(0i16) {
            raw.decoded()
        } else {
            Event::Noop
        }
    } else {
        raw.decoded()
    }
}

/// Reads a record of the window as the viewer takes it.
pub fn hear(raw: &RawEvent) -> (event: Event)
    ensures
        event == heard(*raw),
{
    match raw.decode() {
        Event::Interact(InteractKind::Wheel { state, step }) => {
            if raw.kind == KIND_BUTTON_PRESS && step != 0 {
                Event::Interact(InteractKind::Wheel { state, step })
            } else {
                Event::Noop
            }
        },
        event => event,
    }
}

/// Ends the session on a fault of the window: in good order if the fault is
/// a graceful one, else with the fault for the host to see.
pub fn on_fault(fault: Fault) -> (end: Result<(), Fault>)
    ensures
        end == if graceful(fault) {
            Ok::<(), Fault>(())
        } else {
            Err::<(), Fault>(fault)
        },
{
    match fault {
        Fault::Connection => Ok(()),
        _ => Err(fault),
    }
}

/// Reads what the wheel acts on from what the event says was held.
pub fn held_of(device: InteractDevice) -> (what: Held)
    ensures
        what == held(device),
{
    match device {
        InteractDevice::KeyBoard(mask) => {
            if mask == 0 {
                Held::Nothing
            } else if mask == HELD_LEFT {
                Held::Left
            } else if mask == HELD_RIGHT {
                Held::Right
            } else {
                Held::Other
            }
        },
        InteractDevice::Mouse(Mouse::Left) => Held::Left,
        InteractDevice::Mouse(Mouse::Right) => Held::Right,
        InteractDevice::Mouse(Mouse::Wheel) => Held::Other,
    }
}

impl InteractionSession {
    /// The session in which no drag is under way.
    pub fn new() -> (session: InteractionSession)
        ensures
            session == InteractionSession::idle(),
    {
        InteractionSession { mode: Mode::Idle, anchor: (0, 0), delta: (0, 0) }
    }

    /// Follows the pointer to `pos`.
    pub fn follow(&self, pos: Pos) -> (session: InteractionSession)
        ensures
            session == self.at(pos),
    {
        let dx: i32 = pos.0 as i32 - self.anchor.0 as i32;
        let dy: i32 = pos.1 as i32 - self.anchor.1 as i32;
        InteractionSession { delta: (dx, dy), ..*self }
    }

    /// The view as the drag would leave it if the button came up now.
    pub fn apply(&self, state: &ViewState) -> (view: ViewState)
        ensures
            view == applied(*state, *self),
    {
        match self.mode {
            Mode::Idle => *state,
            Mode::Dragging(Button::Left) => state.slide(self.delta.0, self.delta.1),
            Mode::Dragging(Button::Right) => state.turn(self.delta.0, self.delta.1),
        }
    }
}

/// The reason to draw again that shows `view`.
fn show(view: &ViewState, mode: Mode) -> (reason: InteractionEvent)
    ensures
        reason == showing(*view, mode),
{
    match mode {
        Mode::Idle => InteractionEvent::Expose,
        Mode::Dragging(Button::Left) => InteractionEvent::Mouse(
            MouseEvent::LeftDrag(view.translation),
        ),
        Mode::Dragging(Button::Right) => InteractionEvent::Mouse(
            MouseEvent::RightDrag(view.rotation),
        ),
    }
}

/// Whether `mode` is a drag with `button`.
fn drags(mode: Mode, button: Button) -> (yes: bool)
    ensures
        yes == (mode == Mode::Dragging(button)),
{
    match (mode, button) {
        (Mode::Dragging(Button::Left), Button::Left) => true,
        (Mode::Dragging(Button::Right), Button::Right) => true,
        _ => false,
    }
}

/// One transition of the state machine.
pub fn step(state: ViewState, session: InteractionSession, event: Event) -> (out: Outcome)
    ensures
        out == next(state, session, event),
{
    let stay = Outcome { state, session, action: Action::Ignore };
    let quit = Outcome { state, session, action: Action::Quit };
    match event {
        Event::Noop => stay,
        Event::Close => quit,
        Event::Expose { width, height } => Outcome {
            state: state.resize(width, height),
            session,
            action: Action::Redraw(InteractionEvent::Expose),
        },
        Event::Interact(kind) => match kind {
            InteractKind::KeyPress { state: _, key } => if key == KEY_QUIT {
                quit
            } else {
                stay
            },
            InteractKind::LeftPress { state: _, pos } | InteractKind::RightPress {
                state: _,
                pos,
            } => {
                let button = match kind {
                    InteractKind::LeftPress { .. } => Button::Left,
                    _ => Button::Right,
                };
                match session.mode {
                    Mode::Idle => Outcome {
                        state,
                        session: InteractionSession {
                            mode: Mode::Dragging(button),
                            anchor: pos,
                            delta: (0, 0),
                        },
                        action: Action::Ignore,
                    },
                    Mode::Dragging(_) => stay,
                }
            },
            InteractKind::Move { state: _, pos } => match session.mode {
                Mode::Idle => stay,
                Mode::Dragging(_) => {
                    let session = session.follow(pos);
                    let preview = session.apply(&state);
                    let reason = show(&preview, session.mode);
                    Outcome { state, session, action: Action::Redraw(reason) }
                },
            },
            InteractKind::LeftRelease { state: _, pos } | InteractKind::RightRelease {
                state: _,
                pos,
            } => {
                let button = match kind {
                    InteractKind::LeftRelease { .. } => Button::Left,
                    _ => Button::Right,
                };
                if drags(session.mode, button) {
                    let state = session.follow(pos).apply(&state);
                    Outcome {
                        state,
                        session: InteractionSession::new(),
                        action: Action::Redraw(show(&state, session.mode)),
                    }
                } else {
                    stay
                }
            },
            InteractKind::Wheel { state: device, step } => {
                let what = held_of(device);
                let state = state.wheel(what, step);
                let reason = match what {
                    Held::Nothing => InteractionEvent::Mouse(MouseEvent::Scroll),
                    Held::Left => show(&state, Mode::Dragging(Button::Left)),
                    Held::Right => show(&state, Mode::Dragging(Button::Right)),
                    Held::Other => {
                        return stay;
                    },
                };
                Outcome {
                    state,
                    session: InteractionSession::new(),
                    action: Action::Redraw(reason),
                }
            },
        },
    }
}

/// A wireframe viewer without its window: the segments to draw, the view
/// they are drawn in, and the drag that may be under way.
pub struct Paint3d<Segment> {
    state: ViewState,
    session: InteractionSession,
    segments: Vec<Segment>,
}

impl<Segment> Paint3d<Segment> {
    #[verifier::type_invariant]
    spec fn well_formed(&self) -> bool {
        self.state.wf() && self.session.wf()
    }

    /// The committed view.
    pub closed spec fn committed(&self) -> ViewState {
        self.state
    }

    /// The drag under way, if any.
    pub closed spec fn pending(&self) -> InteractionSession {
        self.session
    }

    /// The segments to draw, in the order they were given.
    pub closed spec fn scene(&self) -> Seq<Segment> {
        self.segments@
    }

    /// A viewer for a canvas of the given size, idle, with nothing to draw.
    /// A canvas without width and height has no view.
    pub fn new(width: u16, height: u16) -> (paint: Self)
        requires
            width > 0 || height > 0,
        ensures
            paint.committed() == ViewState::initial(width, height),
            paint.pending() == InteractionSession::idle(),
            paint.scene() == Seq::<Segment>::empty(),
    {
        Paint3d {
            state: ViewState::new(width, height),
            session: InteractionSession::new(),
            segments: Vec::new(),
        }
    }

    /// Replaces the segments to draw.
    pub fn segments(&mut self, segments: Vec<Segment>)
        ensures
            final(self).scene() == segments@,
            final(self).committed() == old(self).committed(),
            final(self).pending() == old(self).pending(),
    {
        proof {
            use_type_invariant(&*self);
        }
        self.segments = segments;
    }

    /// Takes one event of the window: view and session become what the
    /// transition says, and the action it says is returned. The segments stay.
    pub fn on_event(&mut self, event: Event) -> (action: Action)
        ensures
            final(self).committed() == next(
                old(self).committed(),
                old(self).pending(),
                event,
            ).state,
            final(self).pending() == next(
                old(self).committed(),
                old(self).pending(),
                event,
            ).session,
            action == next(old(self).committed(), old(self).pending(), event).action,
            final(self).scene() == old(self).scene(),
    {
        proof {
            use_type_invariant(&*self);
            lemma_next_keeps_wf(self.state, self.session, event);
        }
        let out = step(self.state, self.session, event);
        self.state = out.state;
        self.session = out.session;
        out.action
    }

    /// Takes one record of the window, read as `heard` says.
    pub fn on_raw(&mut self, raw: &RawEvent) -> (action: Action)
        ensures
            final(self).committed() == next(
                old(self).committed(),
                old(self).pending(),
                heard(*raw),
            ).state,
            final(self).pending() == next(
                old(self).committed(),
                old(self).pending(),
                heard(*raw),
            ).session,
            action == next(old(self).committed(), old(self).pending(), heard(*raw)).action,
            final(self).scene() == old(self).scene(),
    {
        self.on_event(hear(raw))
    }

    /// The view to draw for `reason`.
    pub fn event_handler(&self, reason: InteractionEvent) -> (view: ViewState)
        ensures
            view == shown(self.committed(), reason),
    {
        match reason {
            InteractionEvent::Expose => self.state,
            InteractionEvent::Mouse(MouseEvent::Scroll) => self.state,
            InteractionEvent::Mouse(MouseEvent::LeftDrag(translation)) => ViewState {
                translation,
                ..self.state
            },
            InteractionEvent::Mouse(MouseEvent::RightDrag(rotation)) => ViewState {
                rotation,
                ..self.state
            },
        }
    }

    /// The committed view. It is always well formed.
    pub fn state(&self) -> (state: ViewState)
        ensures
            state == self.committed(),
            state.wf(),
    {
        proof {
            use_type_invariant(self);
        }
        self.state
    }

    /// The drag under way, if any.
    pub fn session(&self) -> (session: InteractionSession)
        ensures
            session == self.pending(),
            session.wf(),
    {
        proof {
            use_type_invariant(self);
        }
        self.session
    }

    /// The segments to draw.
    pub fn stored(&self) -> (segments: &[Segment])
        ensures
            segments@ == self.scene(),
    {
        self.segments.as_slice()
    }
}

/// The transition keeps view and session well formed.
pub proof fn lemma_next_keeps_wf(state: ViewState, session: InteractionSession, event: Event)
    requires
        state.wf(),
        session.wf(),
    ensures
        next(state, session, event).state.wf(),
        next(state, session, event).session.wf(),
{
}

} // verus!
