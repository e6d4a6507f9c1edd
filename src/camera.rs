//! The orientation and zoom of a first-person camera, and how input moves it.
//!
//! Mouse deltas are whole pixels and the look sensitivity is a tenth of a
//! degree per pixel, so yaw and pitch are kept exactly, in tenths of a
//! degree. The field of view moves by whole degrees with the wheel.
use vstd::prelude::*;

verus! {

/// Tenths of a degree of yaw or pitch per pixel of mouse motion.
pub const LOOK_TENTHS_PER_PIXEL: i64 = 1;

/// The largest pitch, up or down, in tenths of a degree.
pub const PITCH_LIMIT_TENTHS: i64 = 890;

/// The narrowest field of view, in degrees.
pub const FOV_MIN_DEGREES: i64 = 1;

/// The widest field of view, in degrees.
pub const FOV_MAX_DEGREES: i64 = 45;

/// `x` held to `[lo, hi]`.
pub open spec fn clamp(x: int, lo: int, hi: int) -> int {
    if x < lo {
        lo
    } else if x > hi {
        hi
    } else {
        x
    }
}

/// The angles of a camera: yaw and pitch in tenths of a degree, field of
/// view in degrees.
pub struct Angles {
    pub yaw: int,
    pub pitch: int,
    pub fov: int,
}

/// A camera's angles are in range.
pub open spec fn angles_valid(a: Angles) -> bool {
    &&& -PITCH_LIMIT_TENTHS <= a.pitch <= PITCH_LIMIT_TENTHS
    &&& FOV_MIN_DEGREES <= a.fov <= FOV_MAX_DEGREES
}

/// The angles after a mouse motion of `(dx, dy)` pixels: the yaw turns with
/// `dx`, the pitch against `dy`, held to 89 degrees either way.
pub open spec fn look(a: Angles, dx: int, dy: int) -> Angles {
    Angles {
        yaw: a.yaw + dx * LOOK_TENTHS_PER_PIXEL,
        pitch: clamp(
            a.pitch - dy * LOOK_TENTHS_PER_PIXEL,
            -PITCH_LIMIT_TENTHS as int,
            PITCH_LIMIT_TENTHS as int,
        ),
        fov: a.fov,
    }
}

/// The angles after a wheel motion of `dy`: the field of view narrows by
/// `dy` degrees, held to `[1, 45]`.
pub open spec fn zoom(a: Angles, dy: int) -> Angles {
    Angles { yaw: a.yaw, pitch: a.pitch, fov: clamp(a.fov - dy, FOV_MIN_DEGREES as int, FOV_MAX_DEGREES as int) }
}

/// The angles after each mouse motion of `motions`, in order.
pub open spec fn look_all(a: Angles, motions: Seq<(int, int)>) -> Angles
    decreases motions.len(),
{
    if motions.len() == 0 {
        a
    } else {
        let last = motions.last();
        look(look_all(a, motions.drop_last()), last.0, last.1)
    }
}

/// The angles after each wheel motion of `wheels`, in order.
pub open spec fn zoom_all(a: Angles, wheels: Seq<int>) -> Angles
    decreases wheels.len(),
{
    if wheels.len() == 0 {
        a
    } else {
        zoom(zoom_all(a, wheels.drop_last()), wheels.last())
    }
}

/// A key that the camera reads.
#[derive(Clone, Copy, Debug, PartialEq, Eq, Structural)]
pub enum Key {
    W,
    A,
    S,
    D,
    Other,
}

/// A window event, as far as the camera and the frame loop read it.
#[derive(Clone, Copy, Debug, PartialEq, Eq, Structural)]
pub enum InputEvent {
    /// The window is closing.
    Quit,
    /// A key went down or up.
    Key { pressed: bool, key: Key },
    /// The mouse moved by `(dx, dy)` pixels.
    MouseMotion { dx: i32, dy: i32 },
    /// The wheel turned by `dy`.
    MouseWheel { dy: i32 },
    /// Anything else.
    Other,
}

/// A step of the camera's position, along the front or the right vector.
#[derive(Clone, Copy, Debug, PartialEq, Eq, Structural)]
pub enum Movement {
    /// Along the front vector (W).
    Forward,
    /// Against the front vector (S).
    Backward,
    /// Against the right vector (A).
    Left,
    /// Along the right vector (D).
    Right,
}

/// What the frame loop does with an event once the camera has read it.
#[derive(Clone, Copy, Debug, PartialEq, Eq, Structural)]
pub enum Dispatch {
    /// Leave the loop.
    Quit,
    /// Step the position, scaled by speed and the frame's delta.
    Move(Movement),
    /// The angles changed: recompute the front vector.
    Look,
    /// The field of view changed.
    Zoom,
    /// Nothing to do.
    Ignore,
}

/// The movement that a pressed key asks for.
pub open spec fn key_movement(key: Key) -> Option<Movement> {
    match key {
        Key::W => Some(Movement::Forward),
        Key::S => Some(Movement::Backward),
        Key::A => Some(Movement::Left),
        Key::D => Some(Movement::Right),
        Key::Other => None,
    }
}

/// How the frame loop answers `event`.
pub open spec fn dispatch_of(event: InputEvent) -> Dispatch {
    match event {
        InputEvent::Quit => Dispatch::Quit,
        InputEvent::Key { pressed, key } => if pressed && key_movement(key) is Some {
            Dispatch::Move(key_movement(key)->Some_0)
        } else {
            Dispatch::Ignore
        },
        InputEvent::MouseMotion { .. } => Dispatch::Look,
        InputEvent::MouseWheel { .. } => Dispatch::Zoom,
        InputEvent::Other => Dispatch::Ignore,
    }
}

/// The angles after `event`.
pub open spec fn angles_after(a: Angles, event: InputEvent) -> Angles {
    match event {
        InputEvent::MouseMotion { dx, dy } => look(a, dx as int, dy as int),
        InputEvent::MouseWheel { dy } => zoom(a, dy as int),
        _ => a,
    }
}

/// A first-person camera's yaw, pitch and field of view.
pub struct Camera {
    yaw: i64,
    pitch: i64,
    fov: i64,
}

impl View for Camera {
    type V = Angles;

    closed spec fn view(&self) -> Angles {
        Angles { yaw: self.yaw as int, pitch: self.pitch as int, fov: self.fov as int }
    }
}

impl Camera {
    #[verifier::type_invariant]
    spec fn in_range(&self) -> bool {
        angles_valid(self@)
    }

    /// A camera looking along yaw 0 and pitch 0, with a 45 degree field of view.
    pub fn new() -> (r: Camera)
        ensures
            r@ == (Angles { yaw: 0, pitch: 0, fov: 45 }),
    {
        Camera { yaw: 0, pitch: 0, fov: FOV_MAX_DEGREES }
    }

    /// The yaw, in tenths of a degree.
    pub fn yaw_tenths(&self) -> (r: i64)
        ensures
            r == self@.yaw,
    {
        self.yaw
    }

    /// The pitch, in tenths of a degree; never past 89 degrees either way.
    pub fn pitch_tenths(&self) -> (r: i64)
        ensures
            r == self@.pitch,
            -890 <= r <= 890,
    {
        proof {
            use_type_invariant(self);
        }
        self.pitch
    }

    /// The field of view, in degrees; always in `[1, 45]`.
    pub fn fov_degrees(&self) -> (r: i64)
        ensures
            r == self@.fov,
            1 <= r <= 45,
    {
        proof {
            use_type_invariant(self);
        }
        self.fov
    }

    /// Turns the camera by a mouse motion of `(dx, dy)` pixels.
    pub fn mouse_motion(&mut self, dx: i32, dy: i32)
        requires
            i64::MIN <= old(self)@.yaw + dx <= i64::MAX,
        ensures
            final(self)@ == look(old(self)@, dx as int, dy as int),
    {
        proof {
            use_type_invariant(&*self);
        }
        self.yaw = self.yaw + dx as i64 * LOOK_TENTHS_PER_PIXEL;
        let pitch = self.pitch - dy as i64 * LOOK_TENTHS_PER_PIXEL;
        self.pitch = if pitch < -PITCH_LIMIT_TENTHS {
            -PITCH_LIMIT_TENTHS
        } else if pitch > PITCH_LIMIT_TENTHS {
            PITCH_LIMIT_TENTHS
        } else {
            pitch
        };
    }

    /// Zooms the camera by a wheel motion of `dy`.
    pub fn mouse_wheel(&mut self, dy: i32)
        ensures
            final(self)@ == zoom(old(self)@, dy as int),
    {
        proof {
            use_type_invariant(&*self);
        }
        let fov = self.fov - dy as i64;
        self.fov = if fov < FOV_MIN_DEGREES {
            FOV_MIN_DEGREES
        } else if fov > FOV_MAX_DEGREES {
            FOV_MAX_DEGREES
        } else {
            fov
        };
    }

    /// Reads one window event: mouse motion turns the camera, the wheel
    /// zooms it, and the result says what the frame loop does next.
    pub fn handle(&mut self, event: InputEvent) -> (r: Dispatch)
        requires
            event matches InputEvent::MouseMotion { dx, dy: _ } ==> i64::MIN <= old(self)@.yaw
                + dx <= i64::MAX,
        ensures
            r == dispatch_of(event),
            final(self)@ == angles_after(old(self)@, event),
    {
        match event {
            InputEvent::Quit => Dispatch::Quit,
            InputEvent::Key { pressed, key } => {
                if !pressed {
                    Dispatch::Ignore
                } else {
                    match key {
                        Key::W => Dispatch::Move(Movement::Forward),
                        Key::S => Dispatch::Move(Movement::Backward),
                        Key::A => Dispatch::Move(Movement::Left),
                        Key::D => Dispatch::Move(Movement::Right),
                        Key::Other => Dispatch::Ignore,
                    }
                }
            },
            InputEvent::MouseMotion { dx, dy } => {
                self.mouse_motion(dx, dy);
                Dispatch::Look
            },
            InputEvent::MouseWheel { dy } => {
                self.mouse_wheel(dy);
                Dispatch::Zoom
            },
            InputEvent::Other => Dispatch::Ignore,
        }
    }
}

/// However the mouse moves, over any sequence of motions, the pitch stays
/// within 89 degrees up or down (and the field of view is untouched).
pub proof fn lemma_look_keeps_pitch(a: Angles, motions: Seq<(int, int)>)
    requires
        angles_valid(a),
    ensures
        angles_valid(look_all(a, motions)),
        -890 <= look_all(a, motions).pitch <= 890,
        look_all(a, motions).fov == a.fov,
    decreases motions.len(),
{
    if motions.len() > 0 {
        lemma_look_keeps_pitch(a, motions.drop_last());
    }
}

/// However the wheel turns, over any sequence of wheel motions, the field
/// of view stays within `[1, 45]` degrees (and yaw and pitch are untouched).
pub proof fn lemma_zoom_keeps_fov(a: Angles, wheels: Seq<int>)
    requires
        angles_valid(a),
    ensures
        angles_valid(zoom_all(a, wheels)),
        1 <= zoom_all(a, wheels).fov <= 45,
        zoom_all(a, wheels).yaw == a.yaw,
        zoom_all(a, wheels).pitch == a.pitch,
    decreases wheels.len(),
{
    if wheels.len() > 0 {
        lemma_zoom_keeps_fov(a, wheels.drop_last());
    }
}

} // verus!
