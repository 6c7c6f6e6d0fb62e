use vstd::prelude::*;

verus! {

/// A viewpoint entity. The scene manager keeps cameras in an ordered
/// list; the camera itself carries only an identifying tag, since no
/// projection or motion state exists at this stage.
#[derive(Clone, Copy, PartialEq, Eq, Structural, Debug)]
pub struct Camera {
    /// Tag that tells cameras apart; the default camera carries 0.
    pub id: u64,
}

/// A window or device event, handed to a camera untouched. Cameras do
/// not interpret events yet, so only an opaque code is carried.
#[derive(Clone, Copy, PartialEq, Eq, Structural, Debug)]
pub struct InputEvent {
    /// Opaque event code; nothing reads it yet.
    pub code: u64,
}

/// The camera that `init` installs: the one with tag 0.
pub open spec fn default_camera() -> Camera {
    Camera { id: 0 }
}

impl Camera {
    /// A fresh camera, equal to the default camera.
    pub fn new() -> (c: Camera)
        ensures
            c == default_camera(),
    {
        Camera { id: 0 }
    }

    /// Per-frame update hook. The scene manager delegates here; the
    /// camera has no per-frame state to evolve yet.
    pub fn update(&self) {
    }

    /// Input-event hook. The event is accepted and ignored: the camera
    /// carries no state an event could move yet.
    pub fn process_input(&self, _event: &InputEvent) {
    }
}

impl Default for Camera {
    /// The default camera, as `init` installs it.
    fn default() -> (c: Camera)
        ensures
            c == default_camera(),
    {
        Camera { id: 0 }
    }
}

} // verus!
