use vstd::prelude::*;
use crate::camera::Key;

verus! {

/// How triangles are drawn.
#[derive(Clone, Copy, Debug, PartialEq, Eq, Hash, Structural)]
pub enum RenderingMode {
    Fill,
    Wireframe,
}

/// The drawing mode that `key` selects, if any: 1 fills, 2 draws wireframes.
pub fn rendering_mode_for_key(key: Key) -> (r: Option<RenderingMode>)
    ensures
        r == (if key is Key1 {
            Some(RenderingMode::Fill)
        } else if key is Key2 {
            Some(RenderingMode::Wireframe)
        } else {
            None::<RenderingMode>
        }),
{
    match key {
        Key::Key1 => Some(RenderingMode::Fill),
        Key::Key2 => Some(RenderingMode::Wireframe),
        _ => None,
    }
}

/// Whether a key event ends the program: Escape going down.
pub fn is_exit_key(key: Key, is_pressed: bool) -> (r: bool)
    ensures
        r == (key is Escape && is_pressed),
{
    match key {
        Key::Escape => is_pressed,
        _ => false,
    }
}

/// The size in pixels of the surface that is drawn on.
#[derive(Clone, Copy, Debug, PartialEq, Eq, Hash, Structural)]
pub struct SurfaceSize {
    pub width: u32,
    pub height: u32,
}

impl SurfaceSize {
    pub fn new(width: u32, height: u32) -> (r: SurfaceSize)
        ensures
            r == (SurfaceSize { width, height }),
    {
        SurfaceSize { width, height }
    }

    /// Takes `new_size` if both its sides are positive and returns `true`;
    /// otherwise keeps the current size and returns `false`.
    pub fn resize(&mut self, new_size: SurfaceSize) -> (r: bool)
        ensures
            r == (new_size.width > 0 && new_size.height > 0),
            *final(self) == if r {
                new_size
            } else {
                *old(self)
            },
    {
        if new_size.width > 0 && new_size.height > 0 {
            *self = new_size;
            true
        } else {
            false
        }
    }
}

/// Why a frame could not be drawn.
#[derive(Clone, Copy, Debug, PartialEq, Eq, Hash, Structural)]
pub enum SurfaceFault {
    Lost,
    Outdated,
    OutOfMemory,
    Timeout,
}

/// What the frame loop does about a `SurfaceFault`.
#[derive(Clone, Copy, Debug, PartialEq, Eq, Hash, Structural)]
pub enum FaultAction {
    /// Configure the surface again at its current size and go on.
    Reconfigure,
    /// Stop the program.
    Exit,
    /// Drop this frame and go on.
    SkipFrame,
}

/// A lost or outdated surface is configured again, running out of memory ends
/// the program, and a timeout drops the frame.
pub fn fault_action(fault: SurfaceFault) -> (r: FaultAction)
    ensures
        r == match fault {
            SurfaceFault::Lost | SurfaceFault::Outdated => FaultAction::Reconfigure,
            SurfaceFault::OutOfMemory => FaultAction::Exit,
            SurfaceFault::Timeout => FaultAction::SkipFrame,
        },
{
    match fault {
        SurfaceFault::Lost | SurfaceFault::Outdated => FaultAction::Reconfigure,
        SurfaceFault::OutOfMemory => FaultAction::Exit,
        SurfaceFault::Timeout => FaultAction::SkipFrame,
    }
}

} // verus!
