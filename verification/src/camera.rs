//! The camera configuration and the per-frame uniform input.
//!
//! The camera holds a fixed eye/target/up configuration together with
//! the projection parameters; only the aspect ratio ever changes after
//! construction, and only on a window resize with non-zero dimensions.
//! All quantities are exact integers: distances in thousandths of a
//! world unit, angles in microradians, and the aspect ratio as the
//! width/height pair itself. Turning them into floating-point matrices
//! is left to the unverified GPU layer.

use vstd::prelude::*;

verus! {

/// A point or direction in world space, in whole world units.
#[derive(Clone, Copy, Debug, PartialEq, Eq, Structural)]
pub struct Vec3i {
    pub x: i32,
    pub y: i32,
    pub z: i32,
}

/// The camera configuration.
///
/// The aspect ratio is kept as the exact `width / height` pair rather
/// than as a quotient, so a resize changes it without rounding.
/// `znear_milli` and `zfar_milli` are the clip-plane distances in
/// thousandths of a world unit.
#[derive(Clone, Copy, Debug, PartialEq, Eq, Structural)]
pub struct Camera {
    pub eye: Vec3i,
    pub target: Vec3i,
    pub up: Vec3i,
    pub aspect_width: u32,
    pub aspect_height: u32,
    pub fovy_degrees: u32,
    pub znear_milli: u32,
    pub zfar_milli: u32,
}

impl Camera {
    /// A camera is well formed when its aspect ratio is a quotient of
    /// non-zero dimensions, its field of view is a proper angle, and
    /// its near plane lies strictly before its far plane.
    pub open spec fn wf(self) -> bool {
        &&& self.aspect_width > 0
        &&& self.aspect_height > 0
        &&& 0 < self.fovy_degrees < 180
        &&& 0 < self.znear_milli < self.zfar_milli
    }

    /// Builds the fixed camera of the renderer: eye three units in
    /// front of the origin, looking at the origin with +Y up, a 45
    /// degree vertical field of view, and clip planes at 0.1 and 100
    /// world units.
    pub fn new(width: u32, height: u32) -> (camera: Camera)
        requires
            width > 0,
            height > 0,
        ensures
            camera.wf(),
            camera.eye == (Vec3i { x: 0, y: 0, z: 3 }),
            camera.target == (Vec3i { x: 0, y: 0, z: 0 }),
            camera.up == (Vec3i { x: 0, y: 1, z: 0 }),
            camera.aspect_width == width,
            camera.aspect_height == height,
            camera.fovy_degrees == 45,
            camera.znear_milli == 100,
            camera.zfar_milli == 100000,
    {
        Camera {
            eye: Vec3i { x: 0, y: 0, z: 3 },
            target: Vec3i { x: 0, y: 0, z: 0 },
            up: Vec3i { x: 0, y: 1, z: 0 },
            aspect_width: width,
            aspect_height: height,
            fovy_degrees: 45,
            znear_milli: 100,
            zfar_milli: 100000,
        }
    }

    /// Applies a window resize. Dimensions with a zero in either axis
    /// are ignored, so the aspect ratio never divides by zero; any
    /// other pair replaces the aspect ratio exactly and leaves every
    /// other field unchanged.
    pub fn resize(&mut self, width: u32, height: u32)
        ensures
            width > 0 && height > 0 ==> *final(self) == (Camera {
                aspect_width: width,
                aspect_height: height,
                ..*old(self)
            }),
            !(width > 0 && height > 0) ==> *final(self) == *old(self),
            old(self).wf() ==> final(self).wf(),
    {
        if width > 0 && height > 0 {
            self.aspect_width = width;
            self.aspect_height = height;
        }
    }
}

/// The cube's rotation about the Y axis at `t_millis` milliseconds,
/// in microradians: the rotation rate is 0.5 radians per second, and
/// 0.5 rad/s times t/1000 s is exactly 500 * t microradians.
pub open spec fn rotation_y_microrad(t_millis: u64) -> int {
    500 * t_millis
}

/// The cube's rotation about the X axis at `t_millis` milliseconds,
/// in microradians: the rotation rate is 0.3 radians per second, and
/// 0.3 rad/s times t/1000 s is exactly 300 * t microradians.
pub open spec fn rotation_x_microrad(t_millis: u64) -> int {
    300 * t_millis
}

/// Everything the shader's uniform depends on for one frame: the
/// camera configuration and the two rotation angles derived from the
/// frame's timestamp. The GPU layer turns this into the single
/// view-projection-rotation matrix; two equal inputs yield the same
/// matrix bit for bit.
#[derive(Clone, Copy, Debug, PartialEq, Eq, Structural)]
pub struct UniformInput {
    pub camera: Camera,
    pub angle_y_microrad: u128,
    pub angle_x_microrad: u128,
}

/// The uniform input determined by a camera configuration and a
/// timestamp, with no other state.
pub open spec fn spec_uniform_input(camera: Camera, t_millis: u64) -> UniformInput {
    UniformInput {
        camera,
        angle_y_microrad: rotation_y_microrad(t_millis) as u128,
        angle_x_microrad: rotation_x_microrad(t_millis) as u128,
    }
}

/// Computes the per-frame uniform input for the given timestamp in
/// milliseconds. The result is a pure function of the camera and the
/// timestamp: the Y rotation is exactly 500 * t and the X rotation
/// exactly 300 * t microradians, that is 0.5 and 0.3 radians per
/// second of elapsed time.
pub fn uniform_input(camera: &Camera, t_millis: u64) -> (input: UniformInput)
    ensures
        input == spec_uniform_input(*camera, t_millis),
        input.angle_y_microrad == 500 * t_millis,
        input.angle_x_microrad == 300 * t_millis,
        input.camera == *camera,
{
    UniformInput {
        camera: *camera,
        angle_y_microrad: 500u128 * (t_millis as u128),
        angle_x_microrad: 300u128 * (t_millis as u128),
    }
}

/// Uniform determinism: the per-frame uniform input is a function of
/// the timestamp and the camera configuration alone, so two inputs
/// computed from the same timestamp and camera are equal.
pub proof fn lemma_uniform_input_deterministic(
    camera: Camera,
    t_millis: u64,
    first: UniformInput,
    second: UniformInput,
)
    requires
        first == spec_uniform_input(camera, t_millis),
        second == spec_uniform_input(camera, t_millis),
    ensures
        first == second,
{
}

} // verus!
