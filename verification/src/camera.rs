//! The camera transform builder.
//!
//! A player's camera is determined by a pose — ground position, height and
//! heading — together with session-wide projection constants. The library
//! fixes every parameter that determines the projection and view matrices;
//! expanding them into 4x4 floating-point matrices (the cosine, sine and
//! tangent evaluations) is the backend interpreter's job, so two expansions
//! of equal parameter sets are bit-identical by construction.

use vstd::prelude::*;

use crate::geometry::{Vec2, Vec3};

verus! {

/// Vertical field of view, in degrees. The degrees-to-radians conversion is
/// applied once, by the backend, at the point this constant is consumed.
pub const CAMERA_FOVY_DEG: u32 = 70;

/// Near clip plane in world ticks: the backend's default near cull distance.
pub const NEAR_CLIP: i32 = 10;

/// Far clip plane in world ticks: the backend's default far cull distance.
pub const FAR_CLIP: i32 = 1000000;

/// A read-only snapshot of one player's pose, taken once per frame from the
/// simulation. The render core never writes it back.
#[derive(Clone, Copy, PartialEq, Eq, Structural, Debug)]
pub struct PlayerCameraState {
    /// The player identity; `0` and `1` are the two live players.
    pub id: u32,
    /// Ground-plane position, in world ticks.
    pub position: Vec2,
    /// Eye height above the ground plane, in world ticks.
    pub height: i32,
    /// Rotation about the vertical axis, in milliradians.
    pub heading: i32,
}

/// The parameters of a standard perspective projection matrix.
#[derive(Clone, Copy, PartialEq, Eq, Structural, Debug)]
pub struct ProjectionMatrix {
    /// Vertical field of view, degrees.
    pub fovy_deg: u32,
    /// Aspect ratio numerator: one viewport's width in pixels.
    pub aspect_w: u32,
    /// Aspect ratio denominator: the viewport height in pixels.
    pub aspect_h: u32,
    /// Near clip plane, world ticks.
    pub near: i32,
    /// Far clip plane, world ticks.
    pub far: i32,
}

/// The parameters of a view matrix: the camera first rotates to face
/// `heading`, then is positioned at `translation` — the matrix maps world
/// space into the rotated, translated camera frame.
#[derive(Clone, Copy, PartialEq, Eq, Structural, Debug)]
pub struct ViewMatrix {
    /// Rotation about the vertical axis, milliradians.
    pub heading: i32,
    /// Camera position `(ground x, height, ground y)`, world ticks.
    pub translation: Vec3,
}

/// One player's full camera transform for one pass.
#[derive(Clone, Copy, PartialEq, Eq, Structural, Debug)]
pub struct CameraTransform {
    pub projection: ProjectionMatrix,
    pub view: ViewMatrix,
}

/// Builds camera transforms for one session's fixed viewport size.
#[derive(Clone, Copy, PartialEq, Eq, Structural, Debug)]
pub struct CameraTransformBuilder {
    /// One viewport's width: half the screen width, in pixels.
    pub viewport_width: u32,
    /// The viewport height: the full screen height, in pixels.
    pub viewport_height: u32,
}

/// The view matrix parameters determined by a pose: rotate by the heading,
/// translate to `(position.x, height, position.y)`.
pub open spec fn spec_view_matrix(state: PlayerCameraState) -> ViewMatrix {
    ViewMatrix {
        heading: state.heading,
        translation: Vec3 { x: state.position.x, y: state.height, z: state.position.y },
    }
}

impl CameraTransformBuilder {
    /// The session's fixed perspective projection: 70 degree vertical field
    /// of view, aspect ratio of one half-screen viewport, default clip
    /// planes.
    pub open spec fn spec_projection(self) -> ProjectionMatrix {
        ProjectionMatrix {
            fovy_deg: CAMERA_FOVY_DEG,
            aspect_w: self.viewport_width,
            aspect_h: self.viewport_height,
            near: NEAR_CLIP,
            far: FAR_CLIP,
        }
    }

    /// The camera transform determined by a pose under this session's
    /// projection constants.
    pub open spec fn spec_transform(self, state: PlayerCameraState) -> CameraTransform {
        CameraTransform { projection: self.spec_projection(), view: spec_view_matrix(state) }
    }

    /// Creates the builder for a session with the given screen size; each of
    /// the two viewports is half the screen wide and full screen high.
    pub fn new(screen_width: u32, screen_height: u32) -> (r: Self)
        ensures
            r.viewport_width == screen_width / 2,
            r.viewport_height == screen_height,
    {
        CameraTransformBuilder {
            viewport_width: screen_width / 2,
            viewport_height: screen_height,
        }
    }

    /// Builds the projection and view matrix parameters for one pose.
    pub fn build(&self, state: &PlayerCameraState) -> (r: CameraTransform)
        ensures
            r == self.spec_transform(*state),
    {
        CameraTransform {
            projection: ProjectionMatrix {
                fovy_deg: CAMERA_FOVY_DEG,
                aspect_w: self.viewport_width,
                aspect_h: self.viewport_height,
                near: NEAR_CLIP,
                far: FAR_CLIP,
            },
            view: ViewMatrix {
                heading: state.heading,
                translation: Vec3 {
                    x: state.position.x,
                    y: state.height,
                    z: state.position.y,
                },
            },
        }
    }
}

/// Law: the camera transform is a function of the pose alone — building
/// twice from equal poses yields identical matrix parameter sets, so the
/// backend's expansions of them are bit-identical.
pub proof fn lemma_build_deterministic(
    builder: CameraTransformBuilder,
    s1: PlayerCameraState,
    s2: PlayerCameraState,
)
    requires
        s1 == s2,
    ensures
        builder.spec_transform(s1) == builder.spec_transform(s2),
{
}

} // verus!
