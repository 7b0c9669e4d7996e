use vstd::prelude::*;
use crate::geometry::{Vec2I, clamp_i, in_range};

verus! {

/// A pointer button the camera responds to.
#[derive(Clone, Copy, PartialEq, Eq, Structural, Debug)]
pub enum MouseButton {
    Left,
    Right,
}

/// A relative pointer motion, in device units.
#[derive(Clone, Copy, PartialEq, Eq, Structural, Debug)]
pub struct MouseMotion {
    pub delta: Vec2I,
}

/// A wheel turn; `x` and `y` are the amounts turned along each axis.
#[derive(Clone, Copy, PartialEq, Eq, Structural, Debug)]
pub struct MouseWheel {
    pub x: i64,
    pub y: i64,
}

/// Mathematical view of `MouseMotion`.
pub ghost struct MotionView {
    pub dx: int,
    pub dy: int,
}

/// Mathematical view of `MouseWheel`.
pub ghost struct WheelView {
    pub x: int,
    pub y: int,
}

impl View for MouseMotion {
    type V = MotionView;

    open spec fn view(&self) -> MotionView {
        MotionView { dx: self.delta.x as int, dy: self.delta.y as int }
    }
}

impl View for MouseWheel {
    type V = WheelView;

    open spec fn view(&self) -> WheelView {
        WheelView { x: self.x as int, y: self.y as int }
    }
}

/// Whether a queued motion lies inside the representable range.
pub open spec fn motion_ok(m: MotionView) -> bool {
    in_range(m.dx) && in_range(m.dy)
}

/// Whether a queued wheel turn lies inside the representable range.
pub open spec fn wheel_ok(w: WheelView) -> bool {
    in_range(w.x) && in_range(w.y)
}

/// A motion with both components clamped into the representable range.
pub open spec fn clamp_motion(m: MotionView) -> MotionView {
    MotionView { dx: clamp_i(m.dx), dy: clamp_i(m.dy) }
}

/// A wheel turn with both amounts clamped into the representable range.
pub open spec fn clamp_wheel(w: WheelView) -> WheelView {
    WheelView { x: clamp_i(w.x), y: clamp_i(w.y) }
}

} // verus!
