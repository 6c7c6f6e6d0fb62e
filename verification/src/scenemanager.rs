use vstd::prelude::*;

use crate::camera::{default_camera, Camera, InputEvent};

verus! {

/// Why a camera lookup failed.
#[derive(Clone, Copy, PartialEq, Eq, Structural, Debug)]
pub enum SceneError {
    /// The requested index is not below the number of stored cameras.
    OutOfRange,
}

/// What looking up `index` in the camera list `cams` yields: the camera
/// at that index, or an out-of-range error exactly when the index is
/// not below the list's length.
pub open spec fn camera_at(cams: Seq<Camera>, index: int) -> Result<Camera, SceneError> {
    if 0 <= index < cams.len() {
        Ok(cams[index])
    } else {
        Err(SceneError::OutOfRange)
    }
}

/// The scene manager's capability surface: an ordered, append-only list
/// of cameras, with per-frame update and input delegation to the first
/// camera.
pub trait SMInterface {
    /// The ordered camera list under management.
    spec fn camera_seq(&self) -> Seq<Camera>;

    /// Appends the default camera to the list.
    fn init(&mut self)
        ensures
            final(self).camera_seq() == old(self).camera_seq().push(default_camera()),
    ;

    /// Appends `camera`. The list grows by exactly one, and every
    /// camera already stored keeps its index.
    fn add_camera(&mut self, camera: Camera)
        ensures
            final(self).camera_seq() == old(self).camera_seq().push(camera),
            final(self).camera_seq().len() == old(self).camera_seq().len() + 1,
            forall|i: int|
                0 <= i < old(self).camera_seq().len()
                    ==> final(self).camera_seq()[i] == old(self).camera_seq()[i],
    ;

    /// A copy of the camera at `index`, or an out-of-range error
    /// exactly when `index` is not below the list's length.
    fn get_camera(&self, index: usize) -> (r: Result<Camera, SceneError>)
        ensures
            r == camera_at(self.camera_seq(), index as int),
    ;

    /// Delegates the per-frame update to the camera at index 0, which
    /// must exist.
    fn update(&self)
        requires
            self.camera_seq().len() >= 1,
    ;

    /// Delegates an input event to the camera at index 0, which must
    /// exist.
    fn process_input(&self, event: &InputEvent)
        requires
            self.camera_seq().len() >= 1,
    ;
}

/// The scene manager's state: a placeholder byte and the ordered camera
/// list. The process-wide accessor that shares one `SceneManager`
/// across threads is provided by the embedding application; this type
/// is the value it guards.
#[derive(Clone, Debug)]
pub struct SceneManager {
    /// Placeholder state byte; nothing reads it yet.
    pub inner: u8,
    cameras: Vec<Camera>,
}

impl SceneManager {
    /// The placeholder state byte, as contracts see it.
    pub closed spec fn state_byte(&self) -> u8 {
        self.inner
    }

    /// A fresh scene manager with no cameras and a cleared state byte.
    pub fn new() -> (sm: SceneManager)
        ensures
            sm.camera_seq() == Seq::<Camera>::empty(),
            sm.state_byte() == 0,
    {
        SceneManager { inner: 0, cameras: Vec::new() }
    }

    /// How many cameras are stored.
    pub fn camera_count(&self) -> (n: usize)
        ensures
            n == self.camera_seq().len(),
    {
        self.cameras.len()
    }
}

impl SMInterface for SceneManager {
    closed spec fn camera_seq(&self) -> Seq<Camera> {
        self.cameras@
    }

    fn init(&mut self)
        ensures
            final(self).state_byte() == old(self).state_byte(),
    {
        self.add_camera(Camera::new());
    }

    fn add_camera(&mut self, camera: Camera)
        ensures
            final(self).state_byte() == old(self).state_byte(),
    {
        self.cameras.push(camera);
    }

    fn get_camera(&self, index: usize) -> (r: Result<Camera, SceneError>) {
        if index < self.cameras.len() {
            Ok(self.cameras[index])
        } else {
            Err(SceneError::OutOfRange)
        }
    }

    fn update(&self) {
        self.cameras[0].update();
    }

    fn process_input(&self, event: &InputEvent) {
        self.cameras[0].process_input(event);
    }
}

/// After `init` runs on a scene manager with no cameras, looking up
/// index 0 succeeds and yields the default camera.
pub proof fn lemma_init_yields_default_camera(pre: Seq<Camera>, post: Seq<Camera>)
    requires
        pre.len() == 0,
        post == pre.push(default_camera()),
    ensures
        camera_at(post, 0) == Ok::<Camera, SceneError>(default_camera()),
{
}

} // verus!
