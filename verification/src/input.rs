//! What the input devices report during one tick.

use vstd::prelude::*;
use crate::fixed::{Fixed, sum};
use crate::vector::{Pair, Vector2};

verus! {

/// The motion that one tick's input asks for.
#[derive(Clone, Copy, Debug, PartialEq, Eq, Structural)]
pub enum Gesture {
    Orbit,
    Pan,
    Zoom,
    Idle,
}

/// Everything the input devices reported since the previous tick.
#[derive(Clone, Copy, Debug, PartialEq, Eq, Structural)]
pub struct InputSnapshot {
    /// The orbit button is down.
    pub orbit_button_held: bool,
    /// The orbit button went down or came up during this tick.
    pub orbit_edge: bool,
    /// The pan button is down.
    pub pan_button_held: bool,
    /// Pointer travel in pixels.
    pub pointer_delta: Vector2,
    /// Scroll wheel travel.
    pub scroll_delta: Fixed,
}

/// The pointer travel of a run of motion events: their fixed-point sum,
/// taken from the first event on.
pub open spec fn travel(motions: Seq<Vector2>) -> Pair
    decreases motions.len(),
{
    if motions.len() == 0 {
        Pair { x: 0, y: 0 }
    } else {
        let before = travel(motions.drop_last());
        Pair { x: sum(before.x, motions.last().x@), y: sum(before.y, motions.last().y@) }
    }
}

/// The scroll of a run of wheel events: their fixed-point sum, taken from the
/// first event on.
pub open spec fn scrolled(scrolls: Seq<Fixed>) -> int
    decreases scrolls.len(),
{
    if scrolls.len() == 0 {
        0
    } else {
        sum(scrolled(scrolls.drop_last()), scrolls.last()@)
    }
}

impl InputSnapshot {
    /// The pointer travelled at all.
    pub open spec fn pointer_moved(&self) -> bool {
        self.pointer_delta.x@ != 0 || self.pointer_delta.y@ != 0
    }

    /// The gesture of this tick: orbit wins over pan, pan over zoom.
    pub open spec fn gesture_spec(&self) -> Gesture {
        if self.orbit_button_held && self.pointer_moved() {
            Gesture::Orbit
        } else if self.pan_button_held && self.pointer_moved() {
            Gesture::Pan
        } else if self.scroll_delta@ != 0 {
            Gesture::Zoom
        } else {
            Gesture::Idle
        }
    }

    /// The gesture of this tick: orbit wins over pan, pan over zoom.
    #[verifier::when_used_as_spec(gesture_spec)]
    pub fn gesture(&self) -> (g: Gesture)
        ensures
            g == self.gesture_spec(),
    {
        let moved = !self.pointer_delta.x.is_zero() || !self.pointer_delta.y.is_zero();
        if self.orbit_button_held && moved {
            Gesture::Orbit
        } else if self.pan_button_held && moved {
            Gesture::Pan
        } else if !self.scroll_delta.is_zero() {
            Gesture::Zoom
        } else {
            Gesture::Idle
        }
    }

    /// Sums up what the input devices reported since the previous tick: the
    /// states of the two buttons, whether the orbit button went down or came
    /// up, every pointer motion and every turn of the wheel.
    pub fn gather(
        orbit_button_held: bool,
        orbit_pressed: bool,
        orbit_released: bool,
        pan_button_held: bool,
        motions: &Vec<Vector2>,
        scrolls: &Vec<Fixed>,
    ) -> (input: InputSnapshot)
        ensures
            input.orbit_button_held == orbit_button_held,
            input.orbit_edge == (orbit_pressed || orbit_released),
            input.pan_button_held == pan_button_held,
            input.pointer_delta@ == travel(motions@),
            input.scroll_delta@ == scrolled(scrolls@),
    {
        let mut pointer_delta = Vector2 { x: Fixed::zero(), y: Fixed::zero() };
        let mut i: usize = 0;
        while i < motions.len()
            invariant
                i <= motions.len(),
                pointer_delta@ == travel(motions@.take(i as int)),
            decreases motions.len() - i,
        {
            assert(motions@.take(i + 1).drop_last() == motions@.take(i as int));
            pointer_delta = Vector2 {
                x: pointer_delta.x.plus(motions[i].x),
                y: pointer_delta.y.plus(motions[i].y),
            };
            i += 1;
        }
        assert(motions@.take(i as int) == motions@);
        let mut scroll_delta = Fixed::zero();
        let mut j: usize = 0;
        while j < scrolls.len()
            invariant
                j <= scrolls.len(),
                scroll_delta@ == scrolled(scrolls@.take(j as int)),
            decreases scrolls.len() - j,
        {
            assert(scrolls@.take(j + 1).drop_last() == scrolls@.take(j as int));
            scroll_delta = scroll_delta.plus(scrolls[j]);
            j += 1;
        }
        assert(scrolls@.take(j as int) == scrolls@);
        InputSnapshot {
            orbit_button_held,
            orbit_edge: orbit_pressed || orbit_released,
            pan_button_held,
            pointer_delta,
            scroll_delta,
        }
    }
}

} // verus!
