use scene_manager::camera::{Camera, InputEvent};
use scene_manager::mainwnd::MainWnd;
use scene_manager::scenemanager::{SMInterface, SceneError, SceneManager};

#[test]
fn init_installs_default_camera() {
    let mut sm = SceneManager::new();
    sm.init();
    assert_eq!(sm.camera_count(), 1);
    assert_eq!(sm.get_camera(0), Ok(Camera::default()));
}

#[test]
fn init_appends_to_existing_cameras() {
    let mut sm = SceneManager::new();
    sm.add_camera(Camera { id: 9 });
    sm.init();
    assert_eq!(sm.camera_count(), 2);
    assert_eq!(sm.get_camera(0), Ok(Camera { id: 9 }));
    assert_eq!(sm.get_camera(1), Ok(Camera::default()));
}

#[test]
fn get_camera_out_of_range() {
    let sm = SceneManager::new();
    assert_eq!(sm.get_camera(0), Err(SceneError::OutOfRange));

    let mut one = SceneManager::new();
    one.add_camera(Camera { id: 7 });
    assert_eq!(one.get_camera(0), Ok(Camera { id: 7 }));
    assert_eq!(one.get_camera(1), Err(SceneError::OutOfRange));
    assert_eq!(one.get_camera(usize::MAX), Err(SceneError::OutOfRange));
}

#[test]
fn add_camera_appends_in_order() {
    let mut sm = SceneManager::new();
    assert_eq!(sm.camera_count(), 0);
    sm.add_camera(Camera { id: 1 });
    assert_eq!(sm.camera_count(), 1);
    sm.add_camera(Camera { id: 2 });
    assert_eq!(sm.camera_count(), 2);
    sm.add_camera(Camera { id: 3 });
    assert_eq!(sm.camera_count(), 3);
    assert_eq!(sm.get_camera(0), Ok(Camera { id: 1 }));
    assert_eq!(sm.get_camera(1), Ok(Camera { id: 2 }));
    assert_eq!(sm.get_camera(2), Ok(Camera { id: 3 }));
}

#[test]
fn update_and_input_leave_cameras_in_place() {
    let mut sm = SceneManager::new();
    sm.init();
    sm.update();
    sm.process_input(&InputEvent { code: 42 });
    assert_eq!(sm.camera_count(), 1);
    assert_eq!(sm.get_camera(0), Ok(Camera::default()));
}

#[test]
fn camera_new_is_default() {
    assert_eq!(Camera::new(), Camera::default());
    assert_eq!(Camera::new().id, 0);
}

#[test]
fn main_wnd_starts_cleared() {
    let w = MainWnd::new();
    assert_eq!(w.inner, 0);
    w.init();
    assert_eq!(w.inner, 0);
}
