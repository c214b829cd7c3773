//! The input events that the objects of the canvas react to.

use vstd::prelude::*;
use crate::gl_vertices::GpuUpdate;
use crate::util::P2;

verus! {

/// The keys that mean something to the canvas.
#[derive(Clone, Copy, Debug, PartialEq, Eq, Structural)]
pub enum Keycode {
    Return,
    Escape,
    T,
    E,
    Q,
    Z,
    Other,
}

#[derive(Clone, Copy, Debug, PartialEq, Eq, Structural)]
pub enum MouseButton {
    Left,
    Middle,
    Right,
    Other,
}

/// One event of the window system, reduced to what the canvas reads of it.
#[derive(Debug)]
pub enum Event {
    Quit,
    KeyDown { keycode: Option<Keycode> },
    TextInput { text: String },
    /// The pointer moved to `(x, y)`, by `(xrel, yrel)`.
    MouseMotion { x: i32, y: i32, xrel: i32, yrel: i32 },
    MouseButtonDown { mouse_btn: MouseButton },
    MouseButtonUp { mouse_btn: MouseButton },
    /// The wheel turned by `y` steps.
    MouseWheel { y: i32 },
    /// The window now is `width` by `height` pixels.
    WindowResized { width: i32, height: i32 },
    Other,
}

/// What an object made of an event.
#[derive(Debug)]
pub struct Handled {
    /// The event is used up: nothing else should react to it.
    pub consumed: bool,
    /// The upload that the event has made due, if it changed the mesh.
    pub update: Option<GpuUpdate>,
}

impl Event {
    /// Where the pointer moved to, if the event is a pointer motion.
    pub open spec fn motion(&self) -> Option<P2> {
        match *self {
            Event::MouseMotion { x, y, .. } => Some(P2 { x, y }),
            _ => None,
        }
    }
}

/// What the canvas does about an event that the object in the making did
/// not consume.
#[derive(Clone, Copy, Debug, PartialEq, Eq, Structural)]
pub enum Action {
    /// Leave the program.
    Quit,
    /// Commit the object in the making, if there is one, and start a stroke.
    StartLine,
    /// Commit the object in the making, if there is one, and start a label
    /// where the pointer is.
    StartText,
    /// Commit the object in the making, if there is one.
    Commit,
    /// Zoom around the pointer, by as many wheel steps as `y` says.
    Zoom { y: i32 },
    /// Zoom out far, around a fixed point.
    ZoomOutFar,
    /// Zoom in far, around a fixed point.
    ZoomInFar,
    /// Move the camera against the pointer's motion.
    Pan { xrel: i32, yrel: i32 },
    /// Switch between filled and wireframe drawing.
    ToggleWireframe,
    /// Fit the drawing area to the window.
    Resize { width: i32, height: i32 },
    Nothing,
}

/// The action that an event asks for. `middle_down` says whether the middle
/// button of the pointer is held.
pub open spec fn action_for(e: Event, middle_down: bool) -> Action {
    match e {
        Event::Quit => Action::Quit,
        Event::KeyDown { keycode: Some(Keycode::Escape) } => Action::Quit,
        Event::MouseButtonDown { mouse_btn: MouseButton::Left } => Action::StartLine,
        Event::MouseButtonUp { mouse_btn: MouseButton::Left } => Action::Commit,
        Event::KeyDown { keycode: Some(Keycode::T) } => Action::StartText,
        Event::KeyDown { keycode: Some(Keycode::Return) } => Action::Commit,
        Event::MouseWheel { y } => Action::Zoom { y },
        Event::KeyDown { keycode: Some(Keycode::E) } => Action::ZoomOutFar,
        Event::KeyDown { keycode: Some(Keycode::Q) } => Action::ZoomInFar,
        Event::MouseMotion { xrel, yrel, .. } => if middle_down {
            Action::Pan { xrel, yrel }
        } else {
            Action::Nothing
        },
        Event::KeyDown { keycode: Some(Keycode::Z) } => Action::ToggleWireframe,
        Event::WindowResized { width, height } => Action::Resize { width, height },
        _ => Action::Nothing,
    }
}

/// The action that an event asks for, once the object in the making has
/// left the event alone.
pub fn react(e: &Event, middle_down: bool) -> (a: Action)
    ensures
        a == action_for(*e, middle_down),
{
    match e {
        Event::Quit => Action::Quit,
        Event::KeyDown { keycode: Some(Keycode::Escape) } => Action::Quit,
        Event::MouseButtonDown { mouse_btn: MouseButton::Left } => Action::StartLine,
        Event::MouseButtonUp { mouse_btn: MouseButton::Left } => Action::Commit,
        Event::KeyDown { keycode: Some(Keycode::T) } => Action::StartText,
        Event::KeyDown { keycode: Some(Keycode::Return) } => Action::Commit,
        Event::MouseWheel { y } => Action::Zoom { y: *y },
        Event::KeyDown { keycode: Some(Keycode::E) } => Action::ZoomOutFar,
        Event::KeyDown { keycode: Some(Keycode::Q) } => Action::ZoomInFar,
        Event::MouseMotion { xrel, yrel, .. } => {
            if middle_down {
                Action::Pan { xrel: *xrel, yrel: *yrel }
            } else {
                Action::Nothing
            }
        },
        Event::KeyDown { keycode: Some(Keycode::Z) } => Action::ToggleWireframe,
        Event::WindowResized { width, height } => Action::Resize {
            width: *width,
            height: *height,
        },
        _ => Action::Nothing,
    }
}

} // verus!
