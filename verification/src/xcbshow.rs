//! What a window reports, and how the raw record of the windowing backend is
//! read into it.

use vstd::prelude::*;

verus! {

/// A signed count of pixels or of wheel notches.
pub type Step = i16;

/// A pointer position inside the window, `(x, y)`.
pub type Pos = (Step, Step);

/// Record kind: the window is to be closed.
pub const KIND_CLOSE: u8 = 1;

/// Record kind: part of the window must be drawn again.
pub const KIND_EXPOSE: u8 = 2;

/// Record kind: the pointer moved.
pub const KIND_MOTION: u8 = 3;

/// Record kind: a pointer button went down.
pub const KIND_BUTTON_PRESS: u8 = 4;

/// Record kind: a pointer button came up.
pub const KIND_BUTTON_RELEASE: u8 = 5;

/// Record kind: a key went down.
pub const KIND_KEY_PRESS: u8 = 6;

/// Button number of the left button.
pub const BUTTON_LEFT: u8 = 1;

/// Button number of the wheel when it is pushed like a button.
pub const BUTTON_WHEEL: u8 = 2;

/// Button number of the right button.
pub const BUTTON_RIGHT: u8 = 3;

/// Button number that a notch of the wheel away from the user reports.
pub const BUTTON_WHEEL_FORWARD: u8 = 4;

/// Button number that a notch of the wheel towards the user reports.
pub const BUTTON_WHEEL_BACKWARD: u8 = 5;

/// Modifier mask: the left button alone is held.
pub const HELD_LEFT: u16 = 256;

/// Modifier mask: the wheel alone is held.
pub const HELD_WHEEL: u16 = 512;

/// Modifier mask: the right button alone is held.
pub const HELD_RIGHT: u16 = 1024;

/// One event of the window.
#[derive(Clone, Copy, Debug, PartialEq, Eq)]
pub enum Event {
    /// Nothing that concerns the viewer.
    Noop,
    /// The window is to be closed.
    Close,
    /// The window must be drawn again, at this size.
    Expose { width: u16, height: u16 },
    /// The user did something with pointer or keyboard.
    Interact(InteractKind),
}

/// What the user did.
#[derive(Clone, Copy, Debug, PartialEq, Eq)]
pub enum InteractKind {
    KeyPress { state: InteractDevice, key: u8 },
    LeftPress { state: InteractDevice, pos: Pos },
    LeftRelease { state: InteractDevice, pos: Pos },
    Wheel { state: InteractDevice, step: Step },
    RightPress { state: InteractDevice, pos: Pos },
    RightRelease { state: InteractDevice, pos: Pos },
    Move { state: InteractDevice, pos: Pos },
}

/// What was held while the user did it.
#[derive(Clone, Copy, Debug, PartialEq, Eq)]
pub enum InteractDevice {
    /// This pointer button, and it alone.
    Mouse(Mouse),
    /// The backend's modifier mask, as it came.
    KeyBoard(u16),
}

/// A pointer button.
#[derive(Clone, Copy, Debug, PartialEq, Eq)]
pub enum Mouse {
    Left,
    Right,
    Wheel,
}

/// An event as the windowing backend hands it over: plain numbers, of which
/// `kind` says which of the others mean anything.
#[derive(Clone, Copy, Debug, PartialEq, Eq)]
pub struct RawEvent {
    pub width: u16,
    pub height: u16,
    pub x: i16,
    pub y: i16,
    pub state: u16,
    pub detail: u8,
    pub kind: u8,
}

/// The one button that a modifier mask says is held, if it says exactly that.
pub open spec fn held_button(state: u16) -> Option<Mouse> {
    if state == HELD_LEFT {
        Some(Mouse::Left)
    } else if state == HELD_WHEEL {
        Some(Mouse::Wheel)
    } else if state == HELD_RIGHT {
        Some(Mouse::Right)
    } else {
        None
    }
}

/// The notches that a button number stands for, if it is one of the wheel's:
/// none when the wheel is pushed, one forward, one backward.
pub open spec fn wheel_step(detail: u8) -> Option<Step> {
    if detail == BUTTON_WHEEL {
        Some(0i16)
    } else if detail == BUTTON_WHEEL_FORWARD {
        Some(1i16)
    } else if detail == BUTTON_WHEEL_BACKWARD {
        Some(-1i16)
    } else {
        None
    }
}

impl RawEvent {
    /// Where the pointer was.
    pub open spec fn pos(self) -> Pos {
        (self.x, self.y)
    }

    /// The modifier mask, carried along unread.
    pub open spec fn modifiers(self) -> InteractDevice {
        InteractDevice::KeyBoard(self.state)
    }

    /// What an expose record means: a redraw at the new size, unless the
    /// window has shrunk to a line or a point.
    pub open spec fn exposed(self) -> Event {
        if self.width > 1 && self.height > 1 {
            Event::Expose { width: self.width, height: self.height }
        } else {
            Event::Noop
        }
    }

    /// What a motion record means: a move with the one button that is held.
    /// Motion with no button, or with several, is of no interest.
    pub open spec fn moved(self) -> Event {
        match held_button(self.state) {
            Some(button) => Event::Interact(
                InteractKind::Move { state: InteractDevice::Mouse(button), pos: self.pos() },
            ),
            None => Event::Noop,
        }
    }

    /// What a button record means. The wheel reports its notches as buttons,
    /// going down and coming up alike; left and right are told apart by
    /// `pressed`. Any other button is of no interest.
    pub open spec fn clicked(self, pressed: bool) -> Event {
        if let Some(step) = wheel_step(self.detail) {
            Event::Interact(InteractKind::Wheel { state: self.modifiers(), step })
        } else if self.detail == BUTTON_LEFT {
            Event::Interact(
                if pressed {
                    InteractKind::LeftPress { state: self.modifiers(), pos: self.pos() }
                } else {
                    InteractKind::LeftRelease { state: self.modifiers(), pos: self.pos() }
                },
            )
        } else if self.detail == BUTTON_RIGHT {
            Event::Interact(
                if pressed {
                    InteractKind::RightPress { state: self.modifiers(), pos: self.pos() }
                } else {
                    InteractKind::RightRelease { state: self.modifiers(), pos: self.pos() }
                },
            )
        } else {
            Event::Noop
        }
    }

    /// The event that this record stands for.
    pub open spec fn decoded(self) -> Event {
        if self.kind == KIND_CLOSE {
            Event::Close
        } else if self.kind == KIND_EXPOSE {
            self.exposed()
        } else if self.kind == KIND_MOTION {
            self.moved()
        } else if self.kind == KIND_BUTTON_PRESS {
            self.clicked(true)
        } else if self.kind == KIND_BUTTON_RELEASE {
            self.clicked(false)
        } else if self.kind == KIND_KEY_PRESS {
            Event::Interact(InteractKind::KeyPress { state: self.modifiers(), key: self.detail })
        } else {
            Event::Noop
        }
    }

    /// Reads the record into the event it stands for.
    pub fn decode(&self) -> (event: Event)
        ensures
            event == self.decoded(),
    {
        let pos = (self.x, self.y);
        let state = InteractDevice::KeyBoard(self.state);
        match self.kind {
            1 => Event::Close,
            2 => if self.width > 1 && self.height > 1 {
                Event::Expose { width: self.width, height: self.height }
            } else {
                Event::Noop
            },
            3 => match self.state {
                256 => Event::Interact(
                    InteractKind::Move { state: InteractDevice::Mouse(Mouse::Left), pos },
                ),
                512 => Event::Interact(
                    InteractKind::Move { state: InteractDevice::Mouse(Mouse::Wheel), pos },
                ),
                1024 => Event::Interact(
                    InteractKind::Move { state: InteractDevice::Mouse(Mouse::Right), pos },
                ),
                _ => Event::Noop,
            },
            4 => match self.detail {
                1 => Event::Interact(InteractKind::LeftPress { state, pos }),
                2 => Event::Interact(InteractKind::Wheel { state, step: 0 }),
                3 => Event::Interact(InteractKind::RightPress { state, pos }),
                4 => Event::Interact(InteractKind::Wheel { state, step: 1 }),
                5 => Event::Interact(InteractKind::Wheel { state, step: -1 }),
                _ => Event::Noop,
            },
            5 => match self.detail {
                1 => Event::Interact(InteractKind::LeftRelease { state, pos }),
                2 => Event::Interact(InteractKind::Wheel { state, step: 0 }),
                3 => Event::Interact(InteractKind::RightRelease { state, pos }),
                4 => Event::Interact(InteractKind::Wheel { state, step: 1 }),
                5 => Event::Interact(InteractKind::Wheel { state, step: -1 }),
                _ => Event::Noop,
            },
            6 => Event::Interact(InteractKind::KeyPress { key: self.detail, state }),
            _ => Event::Noop,
        }
    }
}

} // verus!
