//! Orbital camera controller.
//!
//! Once per tick the controller turns pointer and scroll travel into one of
//! three camera motions. Orbit is handed back as a pair of angles for the
//! renderer to compose with the camera's orientation; pan moves the focal
//! point along the camera's own right and up axes; zoom changes the distance
//! to the focal point. The orientation itself stays with the renderer, which
//! hands in, as [`CameraAxes`], where it sends the three axes of the world.

use vstd::prelude::*;
use crate::fixed::{Fixed, sum, difference, negation, product, ratio, larger};
use crate::input::{Gesture, InputSnapshot};
use crate::vector::{Triple, Vector3, added, scaled, length};

verus! {

/// Smallest distance allowed between the camera and its focal point (0.05).
pub const MIN_RADIUS: i64 = 50_000;

/// Share of the current radius that one unit of scroll removes (0.2).
pub const ZOOM_RATE: i64 = 200_000;

/// Radius of a freshly made rig (5.0).
pub const DEFAULT_RADIUS: i64 = 5_000_000;

/// The radius after a zoom by `scroll`: the radius shrinks by `scroll` times
/// [`ZOOM_RATE`] of itself and never falls below [`MIN_RADIUS`].
pub open spec fn zoomed_radius(radius: int, scroll: int) -> int {
    larger(
        difference(radius, product(product(scroll, radius), ZOOM_RATE as int)),
        MIN_RADIUS as int,
    )
}

/// Computes [`zoomed_radius`].
pub fn zoom_radius(radius: Fixed, scroll: Fixed) -> (r: Fixed)
    ensures
        r@ == zoomed_radius(radius@, scroll@),
        r@ >= MIN_RADIUS,
{
    let shrink = scroll.times(radius).times(Fixed::from_micro(ZOOM_RATE));
    radius.minus(shrink).at_least(Fixed::from_micro(MIN_RADIUS))
}

/// The radius after the zooms `scrolls`, applied in order.
pub open spec fn zoomed_through(radius: int, scrolls: Seq<int>) -> int
    decreases scrolls.len(),
{
    if scrolls.len() == 0 {
        radius
    } else {
        zoomed_radius(zoomed_through(radius, scrolls.drop_last()), scrolls.last())
    }
}

/// However often and however far the wheel is turned, in either direction,
/// a radius that starts at or above [`MIN_RADIUS`] stays there.
pub proof fn lemma_zoom_keeps_minimum(radius: int, scrolls: Seq<int>)
    requires
        radius >= MIN_RADIUS,
    ensures
        zoomed_through(radius, scrolls) >= MIN_RADIUS,
    decreases scrolls.len(),
{
    if scrolls.len() > 0 {
        lemma_zoom_keeps_minimum(radius, scrolls.drop_last());
    }
}

/// Size of the drawing surface in pixels; both sides are positive.
#[derive(Clone, Copy, Debug)]
pub struct Viewport {
    width: Fixed,
    height: Fixed,
}

impl Viewport {
    #[verifier::type_invariant]
    spec fn positive(self) -> bool {
        self.width@ > 0 && self.height@ > 0
    }

    /// Raw width.
    pub closed spec fn width_spec(&self) -> int {
        self.width@
    }

    /// Raw height.
    pub closed spec fn height_spec(&self) -> int {
        self.height@
    }

    /// A viewport of the given size, if both sides are positive.
    pub fn new(width: Fixed, height: Fixed) -> (v: Option<Viewport>)
        ensures
            v is Some <==> width@ > 0 && height@ > 0,
            v is Some ==> v->0.width_spec() == width@ && v->0.height_spec() == height@,
    {
        if width.micro() > 0 && height.micro() > 0 {
            Some(Viewport { width, height })
        } else {
            None
        }
    }

    /// Width in pixels.
    pub fn width(&self) -> (w: Fixed)
        ensures
            w@ == self.width_spec(),
            w@ > 0,
    {
        proof {
            use_type_invariant(self);
        }
        self.width
    }

    /// Height in pixels.
    pub fn height(&self) -> (h: Fixed)
        ensures
            h@ == self.height_spec(),
            h@ > 0,
    {
        proof {
            use_type_invariant(self);
        }
        self.height
    }
}

/// How the camera maps the scene onto the viewport.
#[derive(Clone, Copy, Debug, PartialEq, Eq, Structural)]
pub enum Projection {
    /// Vertical field of view in radians, and width over height.
    Perspective { fov: Fixed, aspect_ratio: Fixed },
    Orthographic,
}

/// The camera's orientation as the logic reads it: where the orientation
/// sends the world's X, Y and Z axes.
#[derive(Clone, Copy, Debug, PartialEq, Eq, Structural)]
pub struct CameraAxes {
    /// Image of the X axis: the camera's right.
    pub right: Vector3,
    /// Image of the Y axis: the camera's up.
    pub up: Vector3,
    /// Image of the Z axis: from the focal point toward the camera.
    pub back: Vector3,
}

/// What a [`CameraRig`] stands for.
pub struct RigState {
    pub focal_point: Triple,
    pub radius: int,
    pub upside_down: bool,
}

/// What [`CameraRig::advance`] asks the renderer to do with the orientation.
#[derive(Clone, Copy, Debug, PartialEq, Eq, Structural)]
pub enum Motion {
    /// Nothing changed; the pose stays as it is.
    Still,
    /// Rotate about the world's Y axis by `yaw`, then about the camera's own
    /// X axis by `pitch`. Both are in half turns: one unit is pi radians.
    Orbit { yaw: Fixed, pitch: Fixed },
    /// The focal point moved.
    Pan,
    /// The radius changed.
    Zoom,
}

impl Motion {
    /// Whether the camera's position is to be taken anew.
    pub fn changes_pose(&self) -> (changed: bool)
        ensures
            changed == !(self is Still),
    {
        match self {
            Motion::Still => false,
            _ => true,
        }
    }
}

/// Yaw of an orbit in half turns: minus twice the share of the viewport's
/// width that the pointer travelled.
pub open spec fn orbit_yaw(dx: int, width: int) -> int {
    negation(sum(ratio(dx, width), ratio(dx, width)))
}

/// Pitch of an orbit in half turns: minus the share of the viewport's height
/// that the pointer travelled.
pub open spec fn orbit_pitch(dy: int, height: int) -> int {
    negation(ratio(dy, height))
}

/// Distance that a pan moves the focal point along one camera axis:
/// pointer travel times the angle that one pixel covers, times the radius.
pub open spec fn pan_amount(travel: int, angle: int, extent: int, radius: int) -> int {
    ratio(product(product(travel, angle), radius), extent)
}

/// The focal point after a pan.
pub open spec fn panned_focal(
    focal: Triple,
    radius: int,
    input: InputSnapshot,
    viewport: Viewport,
    projection: Projection,
    axes: CameraAxes,
) -> Triple {
    let (along_right, along_up) = match projection {
        Projection::Perspective { fov, aspect_ratio } => (
            negation(
                pan_amount(
                    input.pointer_delta.x@,
                    product(fov@, aspect_ratio@),
                    viewport.width_spec(),
                    radius,
                ),
            ),
            pan_amount(input.pointer_delta.y@, fov@, viewport.height_spec(), radius),
        ),
        Projection::Orthographic => (
            negation(product(input.pointer_delta.x@, radius)),
            product(input.pointer_delta.y@, radius),
        ),
    };
    added(focal, added(scaled(axes.right@, along_right), scaled(axes.up@, along_up)))
}

/// The rig after one tick.
pub open spec fn advanced(
    rig: RigState,
    input: InputSnapshot,
    viewport: Viewport,
    projection: Projection,
    axes: CameraAxes,
) -> RigState {
    let upside_down = if input.orbit_edge {
        axes.up.y@ <= 0
    } else {
        rig.upside_down
    };
    match input.gesture_spec() {
        Gesture::Orbit | Gesture::Idle => RigState { upside_down, ..rig },
        Gesture::Pan => RigState {
            focal_point: panned_focal(
                rig.focal_point,
                rig.radius,
                input,
                viewport,
                projection,
                axes,
            ),
            upside_down,
            ..rig
        },
        Gesture::Zoom => RigState {
            radius: zoomed_radius(rig.radius, input.scroll_delta@),
            upside_down,
            ..rig
        },
    }
}

/// Whether `motion` is what the renderer is to be asked after one tick.
pub open spec fn motion_matches(motion: Motion, input: InputSnapshot, viewport: Viewport) -> bool {
    match input.gesture_spec() {
        Gesture::Orbit => {
            &&& motion matches Motion::Orbit { yaw, pitch }
            &&& yaw@ == orbit_yaw(input.pointer_delta.x@, viewport.width_spec())
            &&& pitch@ == orbit_pitch(input.pointer_delta.y@, viewport.height_spec())
        },
        Gesture::Pan => motion == Motion::Pan,
        Gesture::Zoom => motion == Motion::Zoom,
        Gesture::Idle => motion == Motion::Still,
    }
}

/// Where the camera stands: `radius` away from the focal point along `back`.
pub open spec fn camera_position(rig: RigState, back: Triple) -> Triple {
    added(rig.focal_point, scaled(back, rig.radius))
}

/// While the orbit button is held, any pointer travel turns the camera by
/// exactly [`orbit_yaw`] and [`orbit_pitch`], whatever else the tick brings;
/// the focal point and the radius stay, so that the camera's new position
/// is the old focal point plus the old radius along the new back axis.
pub proof fn lemma_orbit_follows_pointer(
    rig: RigState,
    input: InputSnapshot,
    viewport: Viewport,
    projection: Projection,
    axes: CameraAxes,
    motion: Motion,
    back: Triple,
)
    requires
        input.orbit_button_held,
        input.pointer_moved(),
        motion_matches(motion, input, viewport),
    ensures
        motion matches Motion::Orbit { yaw, pitch } && yaw@ == orbit_yaw(
            input.pointer_delta.x@,
            viewport.width_spec(),
        ) && pitch@ == orbit_pitch(input.pointer_delta.y@, viewport.height_spec()),
        advanced(rig, input, viewport, projection, axes).focal_point == rig.focal_point,
        advanced(rig, input, viewport, projection, axes).radius == rig.radius,
        camera_position(advanced(rig, input, viewport, projection, axes), back) == added(
            rig.focal_point,
            scaled(back, rig.radius),
        ),
{
}

/// The state of one orbital camera.
#[derive(Clone, Copy, Debug)]
pub struct CameraRig {
    focal_point: Vector3,
    radius: Fixed,
    upside_down: bool,
}

impl View for CameraRig {
    type V = RigState;

    closed spec fn view(&self) -> RigState {
        RigState {
            focal_point: self.focal_point@,
            radius: self.radius@,
            upside_down: self.upside_down,
        }
    }
}

impl CameraRig {
    #[verifier::type_invariant]
    spec fn radius_kept(self) -> bool {
        self.radius@ >= MIN_RADIUS
    }

    /// A rig that looks at `focal_point` from `radius` away; a radius under
    /// [`MIN_RADIUS`] is raised to it.
    pub fn new(focal_point: Vector3, radius: Fixed) -> (rig: CameraRig)
        ensures
            rig@ == (RigState {
                focal_point: focal_point@,
                radius: larger(radius@, MIN_RADIUS as int),
                upside_down: false,
            }),
    {
        CameraRig {
            focal_point,
            radius: radius.at_least(Fixed::from_micro(MIN_RADIUS)),
            upside_down: false,
        }
    }

    /// A rig that looks at the origin from `translation`: its radius is the
    /// length of `translation`, raised to [`MIN_RADIUS`] where it is less.
    pub fn from_translation(translation: Vector3) -> (rig: CameraRig)
        ensures
            rig@ == (RigState {
                focal_point: Triple { x: 0, y: 0, z: 0 },
                radius: larger(length(translation@), MIN_RADIUS as int),
                upside_down: false,
            }),
    {
        CameraRig::new(Vector3::zero(), translation.length())
    }

    /// The look-at anchor.
    pub fn focal_point(&self) -> (p: Vector3)
        ensures
            p@ == self@.focal_point,
    {
        self.focal_point
    }

    /// Distance from the focal point to the camera; never under [`MIN_RADIUS`].
    pub fn radius(&self) -> (r: Fixed)
        ensures
            r@ == self@.radius,
            r@ >= MIN_RADIUS,
    {
        proof {
            use_type_invariant(self);
        }
        self.radius
    }

    /// Whether the camera's up axis pointed down at the last orbit edge.
    pub fn upside_down(&self) -> (u: bool)
        ensures
            u == self@.upside_down,
    {
        self.upside_down
    }

    /// Where the camera stands, given where its orientation sends the Z axis.
    pub fn position(&self, back: Vector3) -> (p: Vector3)
        ensures
            p@ == camera_position(self@, back@),
    {
        self.focal_point.plus(back.times(self.radius))
    }

    /// Applies one tick of input. Orbit wins over pan and pan over zoom; a tick
    /// without pointer travel or scroll changes nothing. The flag
    /// `upside_down` is taken afresh from `axes` on an orbit edge and only then.
    /// Unless the result is [`Motion::Still`] the camera's position is to be
    /// taken anew from [`CameraRig::position`], after the orientation has
    /// been turned as the result says.
    pub fn advance(
        &mut self,
        input: &InputSnapshot,
        viewport: &Viewport,
        projection: &Projection,
        axes: &CameraAxes,
    ) -> (motion: Motion)
        ensures
            final(self)@ == advanced(old(self)@, *input, *viewport, *projection, *axes),
            motion_matches(motion, *input, *viewport),
            final(self)@.radius >= MIN_RADIUS,
    {
        proof {
            use_type_invariant(&*self);
        }
        if input.orbit_edge {
            self.upside_down = axes.up.y.micro() <= 0;
        }
        match input.gesture() {
            Gesture::Orbit => {
                let across = input.pointer_delta.x.over(viewport.width());
                let yaw = across.plus(across).negated();
                let pitch = input.pointer_delta.y.over(viewport.height()).negated();
                Motion::Orbit { yaw, pitch }
            },
            Gesture::Pan => {
                let (along_right, along_up) = match projection {
                    Projection::Perspective { fov, aspect_ratio } => (
                        input.pointer_delta.x.times(fov.times(*aspect_ratio)).times(self.radius).over(
                            viewport.width(),
                        ).negated(),
                        input.pointer_delta.y.times(*fov).times(self.radius).over(viewport.height()),
                    ),
                    Projection::Orthographic => (
                        input.pointer_delta.x.times(self.radius).negated(),
                        input.pointer_delta.y.times(self.radius),
                    ),
                };
                let shift = axes.right.times(along_right).plus(axes.up.times(along_up));
                self.focal_point = self.focal_point.plus(shift);
                Motion::Pan
            },
            Gesture::Zoom => {
                self.radius = zoom_radius(self.radius, input.scroll_delta);
                Motion::Zoom
            },
            Gesture::Idle => Motion::Still,
        }
    }
}

impl Default for CameraRig {
    /// A rig at the origin with radius [`DEFAULT_RADIUS`].
    fn default() -> (rig: CameraRig)
        ensures
            rig@ == (RigState {
                focal_point: Triple { x: 0, y: 0, z: 0 },
                radius: DEFAULT_RADIUS as int,
                upside_down: false,
            }),
    {
        CameraRig {
            focal_point: Vector3::zero(),
            radius: Fixed::from_micro(DEFAULT_RADIUS),
            upside_down: false,
        }
    }
}

} // verus!
