//! The commands this layer asks the display server and the drawing backend to
//! carry out. They are queued in the order in which they must be performed.

use vstd::prelude::*;
use crate::screen::{VisualRef, WindowTarget};
use crate::Position;

verus! {

/// Event-mask bits a window can select.
pub const EVENT_MASK_KEY_PRESS: u32 = 0x0001;

pub const EVENT_MASK_KEY_RELEASE: u32 = 0x0002;

pub const EVENT_MASK_BUTTON_PRESS: u32 = 0x0004;

pub const EVENT_MASK_BUTTON_RELEASE: u32 = 0x0008;

pub const EVENT_MASK_ENTER_WINDOW: u32 = 0x0010;

pub const EVENT_MASK_LEAVE_WINDOW: u32 = 0x0020;

pub const EVENT_MASK_POINTER_MOTION: u32 = 0x0040;

pub const EVENT_MASK_BUTTON_1_MOTION: u32 = 0x0100;

pub const EVENT_MASK_BUTTON_2_MOTION: u32 = 0x0200;

pub const EVENT_MASK_BUTTON_3_MOTION: u32 = 0x0400;

pub const EVENT_MASK_BUTTON_4_MOTION: u32 = 0x0800;

pub const EVENT_MASK_BUTTON_5_MOTION: u32 = 0x1000;

pub const EVENT_MASK_BUTTON_MOTION: u32 = 0x2000;

pub const EVENT_MASK_EXPOSURE: u32 = 0x8000;

/// What every window of this layer selects: exposure, key and button presses
/// and releases, pointer motion with or without a button held, and the
/// pointer entering or leaving.
pub const WINDOW_EVENT_MASK: u32 = EVENT_MASK_EXPOSURE | EVENT_MASK_KEY_PRESS
    | EVENT_MASK_KEY_RELEASE | EVENT_MASK_BUTTON_PRESS | EVENT_MASK_BUTTON_RELEASE
    | EVENT_MASK_POINTER_MOTION | EVENT_MASK_BUTTON_MOTION | EVENT_MASK_BUTTON_1_MOTION
    | EVENT_MASK_BUTTON_2_MOTION | EVENT_MASK_BUTTON_3_MOTION | EVENT_MASK_BUTTON_4_MOTION
    | EVENT_MASK_BUTTON_5_MOTION | EVENT_MASK_ENTER_WINDOW | EVENT_MASK_LEAVE_WINDOW;

/// Depth value that lets a window take the depth of its parent.
pub const COPY_FROM_PARENT: u8 = 0;

/// Class of a window that both shows output and receives input.
pub const WINDOW_CLASS_INPUT_OUTPUT: u16 = 1;

/// Property mode that discards the old value.
pub const PROP_MODE_REPLACE: u8 = 0;

/// The predefined atom that names the type "atom".
pub const ATOM_ATOM: u32 = 4;

/// Width in bits of one item of a property that holds atoms.
pub const ATOM_FORMAT: u8 = 32;

/// Pango units per device unit.
pub const PANGO_SCALE: i32 = 1024;

/// The atoms of the window-manager protocol by which a close request is
/// announced instead of the window being destroyed outright.
#[derive(Copy, Clone, Debug, PartialEq, Eq)]
pub struct Atoms {
    /// The atom of `WM_PROTOCOLS`.
    pub wm_protocols: u32,
    /// The atom of `WM_DELETE_WINDOW`.
    pub wm_delete_window: u32,
}

/// Creation of a window.
#[derive(Copy, Clone, Debug, PartialEq, Eq)]
pub struct CreateWindow {
    pub depth: u8,
    pub window: u32,
    pub parent: u32,
    pub x: i16,
    pub y: i16,
    pub width: u16,
    pub height: u16,
    pub border_width: u16,
    pub class: u16,
    pub visual: u32,
    /// Background pixel.
    pub back_pixel: u32,
    /// Events the window selects.
    pub event_mask: u32,
}

/// A change of a window property to a single 32-bit item.
#[derive(Copy, Clone, Debug, PartialEq, Eq)]
pub struct ChangeProperty {
    pub mode: u8,
    pub window: u32,
    pub property: u32,
    pub property_type: u32,
    pub format: u8,
    pub data: u32,
}

/// How heavy the strokes of a font are.
#[derive(Copy, Clone, Debug, PartialEq, Eq)]
pub enum Weight {
    Normal,
    Bold,
}

/// A piece of text with the font it is set in.
#[derive(Clone, Debug, PartialEq, Eq)]
pub struct TextLayout {
    pub text: String,
    pub family: String,
    /// Font size in Pango units.
    pub absolute_size: i32,
    pub weight: Weight,
}

/// One step of drawing on a window's surface. `C` is the colour type; this
/// layer hands colours through without looking into them.
#[derive(Clone, Debug, PartialEq)]
pub enum DrawCommand<C> {
    /// Start over with an empty path and no layout.
    NewContext,
    SetSourceRgb(C),
    MoveTo(Position),
    LineTo(Position),
    ClosePath,
    Fill,
    /// Lay out a text.
    Layout(TextLayout),
    /// Fill the text laid out last, with its origin at the current point.
    ShowLayout,
}

/// One command for the display server or the drawing backend.
#[derive(Clone, Debug, PartialEq)]
pub enum Request<C> {
    CreateWindow(CreateWindow),
    ChangeProperty(ChangeProperty),
    /// Show the window.
    MapWindow { window: u32 },
    DestroyWindow { window: u32 },
    /// Bind a drawing surface of the given size to the window.
    CreateSurface { window: u32, visual: VisualRef, width: i32, height: i32 },
    Draw { window: u32, command: DrawCommand<C> },
    /// Commit what was drawn on the window's surface.
    FlushSurface { window: u32 },
    /// Send everything queued so far to the display server.
    Flush,
}

/// The requests that bring a window of the given size into being on
/// `target`: create it with the full event mask, subscribe to close requests,
/// show it, flush, bind its drawing surface, flush again.
pub open spec fn creation_requests<C>(
    target: WindowTarget,
    atoms: Atoms,
    window: u32,
    width: u16,
    height: u16,
) -> Seq<Request<C>> {
    seq![
        Request::CreateWindow(
            CreateWindow {
                depth: COPY_FROM_PARENT,
                window,
                parent: target.root,
                x: 0,
                y: 0,
                width,
                height,
                border_width: 0,
                class: WINDOW_CLASS_INPUT_OUTPUT,
                visual: target.root_visual,
                back_pixel: target.white_pixel,
                event_mask: WINDOW_EVENT_MASK,
            },
        ),
        Request::ChangeProperty(
            ChangeProperty {
                mode: PROP_MODE_REPLACE,
                window,
                property: atoms.wm_protocols,
                property_type: ATOM_ATOM,
                format: ATOM_FORMAT,
                data: atoms.wm_delete_window,
            },
        ),
        Request::MapWindow { window },
        Request::Flush,
        Request::CreateSurface {
            window,
            visual: target.visual,
            width: width as i32,
            height: height as i32,
        },
        Request::Flush,
    ]
}

/// The requests that take a window away: destroy it, flush.
pub open spec fn destruction_requests<C>(window: u32) -> Seq<Request<C>> {
    seq![Request::DestroyWindow { window }, Request::Flush]
}

} // verus!
