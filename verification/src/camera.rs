//! Camera state, projection state, and the camera controller.
//!
//! The continuous camera motion — the lerp toward the orbiting target, the
//! trigonometry of the target point, the view and perspective matrices — is
//! floating-point work the host's kernel performs on the fields below, which
//! are `f32` bit patterns. This module owns the state itself and the discrete
//! decisions around it: construction with the documented initial values,
//! which surface sizes a projection accepts, which keys the controller
//! consumes and what zoom step each key asks for, and how scroll input is
//! classified.

use vstd::prelude::*;
use crate::bits::{Vec3Bits, Vec4Bits, Mat4Bits, F32_ZERO, F32_ONE, F32_THREE, F32_FOUR};

verus! {

/// The camera: its position and orientation, as `f32` bit patterns.
#[derive(Clone, Copy, PartialEq, Eq, Structural, Debug)]
pub struct Camera {
    pub position: Vec3Bits,
    pub yaw: u32,
    pub pitch: u32,
}

impl Camera {
    pub fn new(position: Vec3Bits, yaw: u32, pitch: u32) -> (r: Camera)
        ensures
            r == (Camera { position, yaw, pitch }),
    {
        Camera { position, yaw, pitch }
    }
}

/// The perspective projection: the current surface size and the fixed
/// vertical field of view and near and far planes (`f32` bit patterns).
/// The aspect ratio the host feeds the perspective matrix is
/// `width / height`.
#[derive(Clone, Copy, PartialEq, Eq, Structural, Debug)]
pub struct Projection {
    pub width: u32,
    pub height: u32,
    pub fovy: u32,
    pub znear: u32,
    pub zfar: u32,
}

impl Projection {
    pub fn new(width: u32, height: u32, fovy: u32, znear: u32, zfar: u32) -> (r: Projection)
        ensures
            r == (Projection { width, height, fovy, znear, zfar }),
    {
        Projection { width, height, fovy, znear, zfar }
    }

    /// Adopts the new surface size; the field of view and planes are kept.
    pub fn resize(&mut self, width: u32, height: u32)
        ensures
            *final(self) == (Projection { width, height, ..*old(self) }),
    {
        self.width = width;
        self.height = height;
    }
}

/// The camera uniform as uploaded to the GPU each frame: the combined
/// view-projection matrix and the camera position, homogeneous.
#[derive(Clone, Copy, PartialEq, Eq, Structural, Debug)]
pub struct CameraUniform {
    pub view_proj: Mat4Bits,
    pub view_position: Vec4Bits,
}

/// The identity matrix the camera uniform starts from.
pub open spec fn identity_matrix() -> Mat4Bits {
    Mat4Bits {
        c0: Vec4Bits { x: F32_ONE, y: F32_ZERO, z: F32_ZERO, w: F32_ZERO },
        c1: Vec4Bits { x: F32_ZERO, y: F32_ONE, z: F32_ZERO, w: F32_ZERO },
        c2: Vec4Bits { x: F32_ZERO, y: F32_ZERO, z: F32_ONE, w: F32_ZERO },
        c3: Vec4Bits { x: F32_ZERO, y: F32_ZERO, z: F32_ZERO, w: F32_ONE },
    }
}

impl CameraUniform {
    /// The uniform before the first frame: the identity matrix and the
    /// origin.
    pub fn new() -> (r: CameraUniform)
        ensures
            r.view_proj == identity_matrix(),
            r.view_position == (Vec4Bits { x: F32_ZERO, y: F32_ZERO, z: F32_ZERO, w: F32_ZERO }),
    {
        CameraUniform {
            view_proj: Mat4Bits {
                c0: Vec4Bits { x: F32_ONE, y: F32_ZERO, z: F32_ZERO, w: F32_ZERO },
                c1: Vec4Bits { x: F32_ZERO, y: F32_ONE, z: F32_ZERO, w: F32_ZERO },
                c2: Vec4Bits { x: F32_ZERO, y: F32_ZERO, z: F32_ONE, w: F32_ZERO },
                c3: Vec4Bits { x: F32_ZERO, y: F32_ZERO, z: F32_ZERO, w: F32_ONE },
            },
            view_position: Vec4Bits { x: F32_ZERO, y: F32_ZERO, z: F32_ZERO, w: F32_ZERO },
        }
    }

    /// Adopts the view-projection matrix and homogeneous camera position the
    /// host recomputed for this frame.
    pub fn update_view_proj(&mut self, view_proj: Mat4Bits, view_position: Vec4Bits)
        ensures
            *final(self) == (CameraUniform { view_proj, view_position }),
    {
        self.view_proj = view_proj;
        self.view_position = view_position;
    }
}

/// The camera controller: the orbit target, radius and clock the host's
/// kernel advances each frame, and the configured speed, sensitivity and
/// auto-rotation flag.
#[derive(Clone, Copy, PartialEq, Eq, Structural, Debug)]
pub struct CameraController {
    pub camera_target: Vec3Bits,
    pub radius: u32,
    pub total_time: u32,
    pub speed: u32,
    pub sensitivity: u32,
    pub camera_rotation: bool,
}

/// The keys the controller reacts to, as the host classified them.
#[derive(Clone, Copy, PartialEq, Eq, Structural, Debug)]
pub enum CameraKey {
    W,
    S,
    A,
    D,
    Up,
    Down,
    Left,
    Right,
    Space,
    LShift,
    Other,
}

/// What a consumed key asks of the orbit radius.
#[derive(Clone, Copy, PartialEq, Eq, Structural, Debug)]
pub enum ZoomStep {
    /// Shrink the radius by the configured speed.
    Closer,
    /// Grow the radius by the configured speed.
    Farther,
    /// Leave the radius alone.
    Hold,
}

/// Scroll input, as the host classified it: a line delta carries its x and y
/// amounts as `f32` bit patterns.
#[derive(Clone, Copy, PartialEq, Eq, Structural, Debug)]
pub enum MouseScrollDelta {
    LineDelta(u32, u32),
    PixelDelta,
}

impl CameraController {
    /// A fresh controller: the documented initial target `(1, 1, 1)`, orbit
    /// radius 4, clock at zero, and the configured speed, sensitivity and
    /// auto-rotation flag.
    pub fn new(speed: u32, sensitivity: u32, camera_rotation: bool) -> (r: CameraController)
        ensures
            r == (CameraController {
                camera_target: Vec3Bits { x: F32_ONE, y: F32_ONE, z: F32_ONE },
                radius: F32_FOUR,
                total_time: F32_ZERO,
                speed,
                sensitivity,
                camera_rotation,
            }),
    {
        CameraController {
            camera_target: Vec3Bits { x: F32_ONE, y: F32_ONE, z: F32_ONE },
            radius: F32_FOUR,
            total_time: F32_ZERO,
            speed,
            sensitivity,
            camera_rotation,
        }
    }

    /// Classifies a key: whether the controller consumes it, and the zoom
    /// step it asks for — `W` and `Up` zoom in, `S` and `Down` zoom out, the
    /// other movement keys are consumed without effect. The press state does
    /// not change the decision. The host applies the step to the radius.
    pub fn process_keyboard(&self, key: CameraKey, pressed: bool) -> (r: (bool, ZoomStep))
        ensures
            r.0 <==> !(key is Other),
            r.1 is Closer <==> (key is W || key is Up),
            r.1 is Farther <==> (key is S || key is Down),
    {
        match key {
            CameraKey::W | CameraKey::Up => (true, ZoomStep::Closer),
            CameraKey::S | CameraKey::Down => (true, ZoomStep::Farther),
            CameraKey::A | CameraKey::Left => (true, ZoomStep::Hold),
            CameraKey::D | CameraKey::Right => (true, ZoomStep::Hold),
            CameraKey::Space => (true, ZoomStep::Hold),
            CameraKey::LShift => (true, ZoomStep::Hold),
            CameraKey::Other => (false, ZoomStep::Hold),
        }
    }

    /// The controller clock for the next frame: the advanced value when the
    /// camera auto-rotates, the fixed phase when it does not. The host
    /// prepares the advanced value (the clock moved forward by the frame
    /// time, wrapped at two turns); the frozen phase is the constant 3.0.
    pub fn next_total_time(&self, advanced: u32) -> (r: u32)
        ensures
            self.camera_rotation ==> r == advanced,
            !self.camera_rotation ==> r == F32_THREE,
    {
        if self.camera_rotation {
            advanced
        } else {
            F32_THREE
        }
    }

    /// Mouse motion is ignored.
    pub fn process_mouse(&mut self, mouse_dx: u64, mouse_dy: u64)
        ensures
            *final(self) == *old(self),
    {
    }

    /// Classifies scroll input: a line delta hands back its x and y amounts
    /// for the host to add to the radius; pixel deltas are ignored.
    pub fn process_scroll(&self, delta: &MouseScrollDelta) -> (r: Option<(u32, u32)>)
        ensures
            delta is LineDelta ==> r == Some((delta->0, delta->1)),
            delta is PixelDelta ==> r is None,
    {
        match delta {
            MouseScrollDelta::LineDelta(x, y) => Some((*x, *y)),
            MouseScrollDelta::PixelDelta => None,
        }
    }
}

} // verus!
