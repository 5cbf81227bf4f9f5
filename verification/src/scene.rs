//! What the plugin reads of the scene: which cameras are active, and the
//! background each asks for.

use vstd::prelude::*;
use crate::values::Rgba;

verus! {

/// A camera, as far as clearing the frame is concerned.
#[derive(Clone, Copy, Debug, PartialEq, Eq)]
pub struct Camera {
    pub background: Rgba,
}

/// The cameras of one kind in a scene; at most one of them is active.
#[derive(Clone, Copy, Debug, PartialEq, Eq)]
pub struct CameraManager {
    pub active_camera: Option<Camera>,
}

/// The camera managers of a scene. A scene without cameras of a kind has no
/// manager for that kind.
#[derive(Clone, Copy, Debug, PartialEq, Eq)]
pub struct Scene {
    pub camera3d_manager: Option<CameraManager>,
    pub camera2d_manager: Option<CameraManager>,
}

/// The host renderer's view of the scene it draws.
#[derive(Clone, Copy, Debug, PartialEq, Eq)]
pub struct SceneRenderer {
    pub scene: Scene,
}

/// The camera that a manager, if there is one, reports as active.
pub open spec fn active_camera(manager: Option<CameraManager>) -> Option<Camera> {
    match manager {
        Some(manager) => manager.active_camera,
        None => None,
    }
}

impl Scene {
    /// The camera that governs the frame: the active 3D camera; failing
    /// that, the active 2D camera; failing that, none.
    pub open spec fn spec_governing_camera(&self) -> Option<Camera> {
        if active_camera(self.camera3d_manager) is Some {
            active_camera(self.camera3d_manager)
        } else {
            active_camera(self.camera2d_manager)
        }
    }

    /// The colour the frame is cleared to: the background of the governing
    /// camera, or opaque black without one.
    pub open spec fn spec_background(&self) -> Rgba {
        match self.spec_governing_camera() {
            Some(camera) => camera.background,
            None => Rgba::spec_opaque_black(),
        }
    }

    /// The camera that governs the frame: the active 3D camera; failing
    /// that, the active 2D camera; failing that, none.
    #[verifier::when_used_as_spec(spec_governing_camera)]
    pub fn governing_camera(&self) -> (camera: Option<Camera>)
        ensures
            camera == self.spec_governing_camera(),
    {
        let camera3d = match self.camera3d_manager {
            Some(manager) => manager.active_camera,
            None => None,
        };
        match camera3d {
            Some(camera) => Some(camera),
            None => match self.camera2d_manager {
                Some(manager) => manager.active_camera,
                None => None,
            },
        }
    }

    /// The colour the frame is cleared to.
    #[verifier::when_used_as_spec(spec_background)]
    pub fn background(&self) -> (color: Rgba)
        ensures
            color == self.spec_background(),
    {
        match self.governing_camera() {
            Some(camera) => camera.background,
            None => Rgba::opaque_black(),
        }
    }
}

} // verus!
