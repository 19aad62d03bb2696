use voxel_world::camera::{CameraController, Key};
use voxel_world::render::{
    fault_action, is_exit_key, rendering_mode_for_key, FaultAction, RenderingMode, SurfaceFault,
    SurfaceSize,
};

#[test]
fn controller_starts_released() {
    let c = CameraController::new();
    assert!(!c.is_forward_pressed && !c.is_backward_pressed && !c.is_left_pressed);
    assert!(!c.is_right_pressed && !c.is_up_pressed && !c.is_down_pressed);
    assert!(!c.is_q_pressed && !c.is_e_pressed);
    assert!(!c.is_up_arrow_pressed && !c.is_down_arrow_pressed);
}

#[test]
fn keys_set_and_clear_flags() {
    let mut c = CameraController::new();
    assert!(c.process_events(Key::W, true));
    assert!(c.is_forward_pressed);
    assert!(c.process_events(Key::D, true));
    assert!(c.is_right_pressed && c.is_forward_pressed);
    assert!(c.process_events(Key::W, false));
    assert!(!c.is_forward_pressed && c.is_right_pressed);
    assert!(c.process_events(Key::LControl, true));
    assert!(c.is_down_pressed);
    assert!(c.process_events(Key::E, true));
    assert!(c.is_e_pressed);
    assert!(c.process_events(Key::Up, true));
    assert!(c.is_up_arrow_pressed);
}

#[test]
fn other_keys_are_ignored() {
    let mut c = CameraController::new();
    let before = c;
    assert!(!c.process_events(Key::Other, true));
    assert!(!c.process_events(Key::Key1, true));
    assert!(!c.process_events(Key::Escape, true));
    assert_eq!(c, before);
}

#[test]
fn digit_keys_pick_drawing_mode() {
    assert_eq!(rendering_mode_for_key(Key::Key1), Some(RenderingMode::Fill));
    assert_eq!(rendering_mode_for_key(Key::Key2), Some(RenderingMode::Wireframe));
    assert_eq!(rendering_mode_for_key(Key::W), None);
}

#[test]
fn escape_down_exits() {
    assert!(is_exit_key(Key::Escape, true));
    assert!(!is_exit_key(Key::Escape, false));
    assert!(!is_exit_key(Key::Q, true));
}

#[test]
fn resize_to_positive_size() {
    let mut s = SurfaceSize::new(800, 600);
    assert!(s.resize(SurfaceSize::new(1024, 768)));
    assert_eq!(s, SurfaceSize::new(1024, 768));
    let aspect = s.width as f32 / s.height as f32;
    assert!((aspect - 1024.0 / 768.0).abs() < 1e-6);
}

#[test]
fn resize_to_zero_is_ignored() {
    let mut s = SurfaceSize::new(800, 600);
    assert!(!s.resize(SurfaceSize::new(0, 600)));
    assert_eq!(s, SurfaceSize::new(800, 600));
    assert!(!s.resize(SurfaceSize::new(800, 0)));
    assert_eq!(s, SurfaceSize::new(800, 600));
}

#[test]
fn surface_faults() {
    assert_eq!(fault_action(SurfaceFault::Lost), FaultAction::Reconfigure);
    assert_eq!(fault_action(SurfaceFault::Outdated), FaultAction::Reconfigure);
    assert_eq!(fault_action(SurfaceFault::OutOfMemory), FaultAction::Exit);
    assert_eq!(fault_action(SurfaceFault::Timeout), FaultAction::SkipFrame);
}
