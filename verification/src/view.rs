//! The pose of object and camera, in whole numbers.
//!
//! Every quantity is counted in halves: lengths in half pixels, angles in
//! half degrees, the perspective factor in halves of one. Half a unit is the
//! smallest step that any event makes, so each update is exact; whoever
//! projects divides by two.

use vstd::prelude::*;

verus! {

/// A count of halves: of half pixels, of half degrees, or of halves of one.
pub type Halves = i64;

/// Three components, `(x, y, z)`, each a count of halves.
pub type Triple = (Halves, Halves, Halves);

/// The largest magnitude a component may reach, `2^53`: up to it a
/// floating-point number of double precision holds every whole number.
pub const LIMIT: i64 = 0x20_0000_0000_0000;

/// The perspective factor, in halves, at which the eye lies in the view
/// plane itself and nothing can be projected.
pub const K_SINGULAR: i64 = 2;

/// The perspective factor, in halves, that a new view starts with.
pub const K_DEFAULT: i64 = 4;

/// Halves by which one notch of the wheel moves the camera centre along x:
/// fifty pixels.
pub const WHEEL_CENTER: i64 = 100;

/// Halves by which one notch of the wheel, the left button held, moves the
/// object along z: twenty-five pixels.
pub const WHEEL_DEPTH: i64 = 50;

/// Halves by which one notch of the wheel, the right button held, turns the
/// object about y: half a degree.
pub const WHEEL_SPIN: i64 = 1;

/// Halves that one pixel of a drag is worth: a pixel when the object is
/// moved, a degree when it is turned.
pub const DRAG: i64 = 2;

/// `v`, held back at the edge of the range of a component.
pub open spec fn clamp(v: int) -> int {
    if v < -LIMIT {
        -LIMIT as int
    } else if v > LIMIT {
        LIMIT as int
    } else {
        v
    }
}

/// Whether `v` lies in the range of a component.
pub open spec fn fits(v: int) -> bool {
    -LIMIT <= v <= LIMIT
}

/// Whether each of the three components lies in range.
pub open spec fn fits3(t: Triple) -> bool {
    fits(t.0 as int) && fits(t.1 as int) && fits(t.2 as int)
}

/// `v + unit * count`, held back at the edge of the range.
fn shift(v: i64, unit: i64, count: i32) -> (moved: i64)
    requires
        0 <= unit <= WHEEL_CENTER,
    ensures
        moved == clamp(v + unit * count),
        fits(moved as int),
{
    assert(-0x1_0000_0000_0000 <= unit * count <= 0x1_0000_0000_0000) by (nonlinear_arith)
        requires
            0 <= unit <= 100,
            -0x8000_0000 <= count <= 0x8000_0000,
    ;
    let sum: i128 = v as i128 + (unit * (count as i64)) as i128;
    if sum < -LIMIT as i128 {
        -LIMIT
    } else if sum > LIMIT as i128 {
        LIMIT
    } else {
        sum as i64
    }
}

/// What the wheel acts on, which depends on what is held while it turns.
#[derive(Clone, Copy, Debug, PartialEq, Eq)]
pub enum Held {
    /// Nothing is held: the camera centre moves.
    Nothing,
    /// The left button: the object moves in depth.
    Left,
    /// The right button: the object spins.
    Right,
    /// Anything else: the wheel does nothing.
    Other,
}

/// The pose of the object and of the camera, and the size of the canvas.
#[derive(Clone, Copy, Debug, PartialEq, Eq)]
pub struct ViewState {
    /// How far the object is moved from where its points say, in half pixels.
    pub translation: Triple,
    /// The angles by which the object is turned about x, y and z, in half
    /// degrees.
    pub rotation: Triple,
    /// The point through which the view plane passes and to which it is
    /// normal, in half pixels.
    pub camera_center: Triple,
    /// The distance of the eye from the origin, as a multiple of that of the
    /// camera centre, in halves.
    pub k: Halves,
    /// Width and height of the canvas, in pixels.
    pub viewport: (u16, u16),
}

impl ViewState {
    /// Whether every component lies in range.
    pub open spec fn in_range(self) -> bool {
        &&& fits3(self.translation)
        &&& fits3(self.rotation)
        &&& fits3(self.camera_center)
        &&& fits(self.k as int)
    }

    /// Whether the view can be projected: the eye is off the view plane, and
    /// the camera centre is off the x axis in y. The second keeps the centre
    /// away from the origin and from the z axis, however far along x the
    /// wheel moves it, so the view plane and the directions in it are
    /// defined.
    pub open spec fn projectable(self) -> bool {
        &&& self.k != K_SINGULAR
        &&& self.camera_center.1 != 0
    }

    /// What holds of the view at all times.
    pub open spec fn wf(self) -> bool {
        self.in_range() && self.projectable()
    }

    /// The view that a canvas of the given size starts with: the object
    /// unmoved and unturned, the camera centre at half the sum of width and
    /// height on each axis.
    pub open spec fn initial(width: u16, height: u16) -> ViewState {
        ViewState {
            translation: (0, 0, 0),
            rotation: (0, 0, 0),
            camera_center: (
                (width + height) as i64,
                (width + height) as i64,
                (width + height) as i64,
            ),
            k: K_DEFAULT,
            viewport: (width, height),
        }
    }

    /// The view after the object was dragged `dx` pixels to the right and
    /// `dy` pixels down: it has moved by as much along x and y.
    pub open spec fn slid(self, dx: int, dy: int) -> ViewState {
        ViewState {
            translation: (
                clamp(self.translation.0 + DRAG * dx) as i64,
                clamp(self.translation.1 + DRAG * dy) as i64,
                self.translation.2,
            ),
            ..self
        }
    }

    /// The view after a drag of `dx` pixels to the right and `dy` pixels
    /// down turned the object: by `dy` degrees about x, by `dx` about z.
    pub open spec fn turned(self, dx: int, dy: int) -> ViewState {
        ViewState {
            rotation: (
                clamp(self.rotation.0 + DRAG * dy) as i64,
                self.rotation.1,
                clamp(self.rotation.2 + DRAG * dx) as i64,
            ),
            ..self
        }
    }

    /// The view after `step` notches of the wheel.
    pub open spec fn wheeled(self, held: Held, step: int) -> ViewState {
        match held {
            Held::Nothing => ViewState {
                camera_center: (
                    clamp(self.camera_center.0 + WHEEL_CENTER * step) as i64,
                    self.camera_center.1,
                    self.camera_center.2,
                ),
                ..self
            },
            Held::Left => ViewState {
                translation: (
                    self.translation.0,
                    self.translation.1,
                    clamp(self.translation.2 + WHEEL_DEPTH * step) as i64,
                ),
                ..self
            },
            Held::Right => ViewState {
                rotation: (
                    self.rotation.0,
                    clamp(self.rotation.1 + WHEEL_SPIN * step) as i64,
                    self.rotation.2,
                ),
                ..self
            },
            Held::Other => self,
        }
    }

    /// The view on a canvas of another size: nothing else changes.
    pub open spec fn resized(self, width: u16, height: u16) -> ViewState {
        ViewState { viewport: (width, height), ..self }
    }

    /// The view that a canvas of the given size starts with.
    pub fn new(width: u16, height: u16) -> (view: ViewState)
        ensures
            view == ViewState::initial(width, height),
            view.in_range(),
            view.projectable() <==> width > 0 || height > 0,
    {
        let half_sum: i64 = width as i64 + height as i64;
        ViewState {
            translation: (0, 0, 0),
            rotation: (0, 0, 0),
            camera_center: (half_sum, half_sum, half_sum),
            k: K_DEFAULT,
            viewport: (width, height),
        }
    }

    /// Moves the object by a drag of `dx` by `dy` pixels.
    pub fn slide(&self, dx: i32, dy: i32) -> (view: ViewState)
        ensures
            view == self.slid(dx as int, dy as int),
    {
        ViewState {
            translation: (
                shift(self.translation.0, DRAG, dx),
                shift(self.translation.1, DRAG, dy),
                self.translation.2,
            ),
            ..*self
        }
    }

    /// Turns the object by a drag of `dx` by `dy` pixels.
    pub fn turn(&self, dx: i32, dy: i32) -> (view: ViewState)
        ensures
            view == self.turned(dx as int, dy as int),
    {
        ViewState {
            rotation: (
                shift(self.rotation.0, DRAG, dy),
                self.rotation.1,
                shift(self.rotation.2, DRAG, dx),
            ),
            ..*self
        }
    }

    /// Applies `step` notches of the wheel.
    pub fn wheel(&self, held: Held, step: i16) -> (view: ViewState)
        ensures
            view == self.wheeled(held, step as int),
    {
        let notches: i32 = step as i32;
        match held {
            Held::Nothing => ViewState {
                camera_center: (
                    shift(self.camera_center.0, WHEEL_CENTER, notches),
                    self.camera_center.1,
                    self.camera_center.2,
                ),
                ..*self
            },
            Held::Left => ViewState {
                translation: (
                    self.translation.0,
                    self.translation.1,
                    shift(self.translation.2, WHEEL_DEPTH, notches),
                ),
                ..*self
            },
            Held::Right => ViewState {
                rotation: (
                    self.rotation.0,
                    shift(self.rotation.1, WHEEL_SPIN, notches),
                    self.rotation.2,
                ),
                ..*self
            },
            Held::Other => *self,
        }
    }

    /// Takes over the size of the canvas.
    pub fn resize(&self, width: u16, height: u16) -> (view: ViewState)
        ensures
            view == self.resized(width, height),
    {
        ViewState { viewport: (width, height), ..*self }
    }
}

} // verus!
