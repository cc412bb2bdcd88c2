//! An event-driven windowing layer, written as a core without I/O.
//!
//! The crate decodes raw display-server event records into a typed event
//! model, keeps the registry of live windows, dispatches events to listeners
//! in registration order and turns window and drawing operations into an
//! ordered queue of requests. Whoever owns the connection to the display
//! server reads records from it, hands them to [`X11Application::step`] and
//! sends what [`X11Application::take_requests`] returns.

use vstd::prelude::*;

pub mod codegen;
pub mod decode;
pub mod dispatch;
pub mod request;
pub mod screen;
pub mod ucore;
pub mod window;
pub mod x11;

pub use codegen::{match_arm, match_event};
pub use decode::{decode_event, Decoded, RawEvent};
pub use dispatch::{ListenerRegistry, LoopState, Step};
pub use request::{Atoms, DrawCommand, Request, TextLayout, Weight};
pub use screen::{Depth, Screen, Setup, VisualRef, WindowTarget};
pub use ucore::{UCore, UCoreState};
pub use window::DrawError;
pub use x11::{ApplicationView, RegistryChange, X11Application, X11Window};

verus! {

/// A point in window-relative pixel coordinates.
#[derive(Copy, Clone, Debug, PartialEq, Eq)]
pub struct Position {
    pub x: i16,
    pub y: i16,
}

/// The display systems an application can be asked to run on.
pub enum Backend {
    X11,
    WAYLAND,
}

/// An application on the display system `backend`. Only X11 is supported.
pub fn create_application<C>(backend: Backend, setup: &Setup, screen_num: i32, atoms: Atoms) -> (app:
    X11Application<C>)
    requires
        backend is X11,
    ensures
        app@ == ApplicationView::<C>::initial(setup.target(screen_num), atoms),
{
    X11Application::new(setup, screen_num, atoms)
}

/// Part of a window became visible and has to be redrawn.
#[derive(Copy, Clone, Debug, PartialEq, Eq)]
pub struct Expose {}

/// A key went down while `window_id` had the input focus.
#[derive(Copy, Clone, Debug, PartialEq, Eq)]
pub struct KeyPress<WindowIdentifier> {
    pub window_id: WindowIdentifier,
    pub cursor_position: Position,
    pub detail: u8,
}

/// A key was released.
#[derive(Copy, Clone, Debug, PartialEq, Eq)]
pub struct KeyRelease {}

/// A pointer button went down inside `window_id`.
#[derive(Copy, Clone, Debug, PartialEq, Eq)]
pub struct ButtonPress<WindowIdentifier> {
    pub window_id: WindowIdentifier,
    pub cursor_position: Position,
    pub detail: u8,
}

/// A pointer button was released.
#[derive(Copy, Clone, Debug, PartialEq, Eq)]
pub struct ButtonRelease {}

/// The pointer moved.
#[derive(Copy, Clone, Debug, PartialEq, Eq)]
pub struct MotionNotify {}

/// The pointer entered a window.
#[derive(Copy, Clone, Debug, PartialEq, Eq)]
pub struct EnterNotify {}

/// The pointer left a window.
#[derive(Copy, Clone, Debug, PartialEq, Eq)]
pub struct LeaveNotify {}

/// The user asked to close `window_id`.
#[derive(Copy, Clone, Debug, PartialEq, Eq)]
pub struct CloseNotify<WindowIdentifier> {
    pub window_id: WindowIdentifier,
}

/// Everything a listener can be told about.
#[derive(Copy, Clone, Debug, PartialEq, Eq)]
pub enum Event<WindowIdentifier> {
    Expose(Expose),
    KeyPress(KeyPress<WindowIdentifier>),
    KeyRelease(KeyRelease),
    ButtonPress(ButtonPress<WindowIdentifier>),
    ButtonRelease(ButtonRelease),
    MotionNotify(MotionNotify),
    EnterNotify(EnterNotify),
    LeaveNotify(LeaveNotify),
    CloseNotify(CloseNotify<WindowIdentifier>),
}

} // verus!
