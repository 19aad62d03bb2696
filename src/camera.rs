use vstd::prelude::*;

verus! {

/// The keys the program reacts to; every other key is `Other`.
#[derive(Clone, Copy, Debug, PartialEq, Eq, Hash, Structural)]
pub enum Key {
    W,
    A,
    S,
    D,
    Space,
    LControl,
    Q,
    E,
    Up,
    Down,
    Key1,
    Key2,
    Escape,
    Other,
}

/// Which camera controls are held down right now.
#[derive(Clone, Copy, Debug, PartialEq, Eq, Hash, Structural)]
pub struct CameraController {
    pub is_forward_pressed: bool,
    pub is_backward_pressed: bool,
    pub is_right_pressed: bool,
    pub is_left_pressed: bool,
    pub is_up_pressed: bool,
    pub is_down_pressed: bool,
    pub is_q_pressed: bool,
    pub is_e_pressed: bool,
    pub is_up_arrow_pressed: bool,
    pub is_down_arrow_pressed: bool,
}

/// Whether `key` drives the camera.
pub open spec fn is_camera_key(key: Key) -> bool {
    !(key is Key1 || key is Key2 || key is Escape || key is Other)
}

/// The controller after `key` went down (`pressed`) or up.
pub open spec fn controller_after(c: CameraController, key: Key, pressed: bool) -> CameraController {
    match key {
        Key::W => CameraController { is_forward_pressed: pressed, ..c },
        Key::A => CameraController { is_left_pressed: pressed, ..c },
        Key::S => CameraController { is_backward_pressed: pressed, ..c },
        Key::D => CameraController { is_right_pressed: pressed, ..c },
        Key::Space => CameraController { is_up_pressed: pressed, ..c },
        Key::LControl => CameraController { is_down_pressed: pressed, ..c },
        Key::Q => CameraController { is_q_pressed: pressed, ..c },
        Key::E => CameraController { is_e_pressed: pressed, ..c },
        Key::Up => CameraController { is_up_arrow_pressed: pressed, ..c },
        Key::Down => CameraController { is_down_arrow_pressed: pressed, ..c },
        _ => c,
    }
}

impl CameraController {
    /// A controller with nothing held down.
    pub fn new() -> (r: CameraController)
        ensures
            !r.is_forward_pressed && !r.is_backward_pressed && !r.is_right_pressed
                && !r.is_left_pressed,
            !r.is_up_pressed && !r.is_down_pressed && !r.is_q_pressed && !r.is_e_pressed,
            !r.is_up_arrow_pressed && !r.is_down_arrow_pressed,
    {
        CameraController {
            is_forward_pressed: false,
            is_backward_pressed: false,
            is_right_pressed: false,
            is_left_pressed: false,
            is_up_pressed: false,
            is_down_pressed: false,
            is_q_pressed: false,
            is_e_pressed: false,
            is_up_arrow_pressed: false,
            is_down_arrow_pressed: false,
        }
    }

    /// Records that `key` went down (`is_pressed`) or up. Returns whether the
    /// key is one of the camera's; other keys leave the controller unchanged.
    pub fn process_events(&mut self, key: Key, is_pressed: bool) -> (r: bool)
        ensures
            r == is_camera_key(key),
            *final(self) == controller_after(*old(self), key, is_pressed),
    {
        match key {
            Key::W => {
                self.is_forward_pressed = is_pressed;
                true
            },
            Key::A => {
                self.is_left_pressed = is_pressed;
                true
            },
            Key::S => {
                self.is_backward_pressed = is_pressed;
                true
            },
            Key::D => {
                self.is_right_pressed = is_pressed;
                true
            },
            Key::Space => {
                self.is_up_pressed = is_pressed;
                true
            },
            Key::LControl => {
                self.is_down_pressed = is_pressed;
                true
            },
            Key::Q => {
                self.is_q_pressed = is_pressed;
                true
            },
            Key::E => {
                self.is_e_pressed = is_pressed;
                true
            },
            Key::Up => {
                self.is_up_arrow_pressed = is_pressed;
                true
            },
            Key::Down => {
                self.is_down_arrow_pressed = is_pressed;
                true
            },
            _ => false,
        }
    }
}

} // verus!
