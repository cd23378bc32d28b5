//! The shared per-frame state: camera, projection, time and audio uniforms.
//!
//! One object owns everything every draw call shares, and exactly one update
//! runs per frame, before any draw: the host's kernel recomputes the
//! floating-point values (camera motion, view-projection matrix, the time
//! scalar advanced by its fixed step) and this state adopts them in one
//! place — the camera uniform, the time uniform, and the audio envelope
//! copied from the audio producer's latest value, last value wins. Resizing
//! is handled before the next frame draws: a size with a zero side is
//! rejected, any other size replaces the stored size and the projection's.

use vstd::prelude::*;
use crate::bits::{Vec3Bits, Vec4Bits, Mat4Bits, F32_ZERO, F32_ONE, F32_FOUR};
use crate::camera::{Camera, CameraController, CameraUniform, Projection};

verus! {

/// The state shared by every draw call of a frame.
#[derive(Clone, Copy, PartialEq, Eq, Structural, Debug)]
pub struct SharedFrameState {
    pub camera: Camera,
    pub projection: Projection,
    pub camera_controller: CameraController,
    pub camera_uniform: CameraUniform,
    /// The time scalar fed to shaders, an `f32` bit pattern.
    pub time: u32,
    /// The audio envelope fed to shaders, an `f32` bit pattern.
    pub audio_envelope: u32,
    /// The current surface size.
    pub width: u32,
    pub height: u32,
}

impl SharedFrameState {
    /// Assembles the initial frame state around the given camera, projection
    /// and controller: time and audio start at zero, and the stored surface
    /// size is the projection's.
    pub fn new(
        camera: Camera,
        projection: Projection,
        camera_controller: CameraController,
        camera_uniform: CameraUniform,
    ) -> (r: SharedFrameState)
        ensures
            r == (SharedFrameState {
                camera,
                projection,
                camera_controller,
                camera_uniform,
                time: F32_ZERO,
                audio_envelope: F32_ZERO,
                width: projection.width,
                height: projection.height,
            }),
    {
        let width = projection.width;
        let height = projection.height;
        SharedFrameState {
            camera,
            projection,
            camera_controller,
            camera_uniform,
            time: F32_ZERO,
            audio_envelope: F32_ZERO,
            width,
            height,
        }
    }

    /// Adopts a new surface size, unless one side is zero: then nothing
    /// changes and no frame is drawn against the rejected size.
    pub fn resize(&mut self, width: u32, height: u32)
        ensures
            (width > 0 && height > 0) ==> *final(self) == (SharedFrameState {
                projection: Projection { width, height, ..old(self).projection },
                width,
                height,
                ..*old(self)
            }),
            !(width > 0 && height > 0) ==> *final(self) == *old(self),
    {
        if width > 0 && height > 0 {
            self.projection.resize(width, height);
            self.width = width;
            self.height = height;
        }
    }

    /// The once-per-frame update: adopts the camera state, the camera
    /// uniform and the advanced time scalar the host's kernel recomputed,
    /// and copies the audio producer's latest envelope — no buffering, last
    /// value wins. The projection and the stored size are untouched.
    pub fn update(
        &mut self,
        camera: Camera,
        camera_controller: CameraController,
        camera_uniform: CameraUniform,
        time: u32,
        audio_in: u32,
    )
        ensures
            *final(self) == (SharedFrameState {
                camera,
                camera_controller,
                camera_uniform,
                time,
                audio_envelope: audio_in,
                ..*old(self)
            }),
    {
        self.camera = camera;
        self.camera_controller = camera_controller;
        self.camera_uniform = camera_uniform;
        self.time = time;
        self.audio_envelope = audio_in;
    }
}

/// The host-shell settings, as plain values: window and audio fields the
/// host consumes, and the camera fields the frame state is configured from.
/// Scalars are `f32` bit patterns.
pub struct Settings {
    pub audio_defuse: u32,
    pub transparent_background: bool,
    pub background_color: Vec<u32>,
    pub resizable: bool,
    pub default_width: i32,
    pub default_height: i32,
    pub always_on_top: bool,
    pub title: String,
    pub camera_rotation: bool,
    pub camera_speed: u32,
    pub camera_sensitivity: u32,
}

/// The camera controller the settings configure: speed, sensitivity and the
/// auto-rotation flag from the settings, everything else at its documented
/// initial value.
pub fn controller_from_settings(settings: &Settings) -> (r: CameraController)
    ensures
        r == (CameraController {
            camera_target: Vec3Bits { x: F32_ONE, y: F32_ONE, z: F32_ONE },
            radius: F32_FOUR,
            total_time: F32_ZERO,
            speed: settings.camera_speed,
            sensitivity: settings.camera_sensitivity,
            camera_rotation: settings.camera_rotation,
        }),
{
    CameraController::new(
        settings.camera_speed,
        settings.camera_sensitivity,
        settings.camera_rotation,
    )
}

} // verus!
