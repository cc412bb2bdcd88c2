//! From raw event records to typed events.

use vstd::prelude::*;
use crate::{
    ButtonPress, ButtonRelease, CloseNotify, EnterNotify, Event, Expose, KeyPress, KeyRelease,
    LeaveNotify, MotionNotify, Position,
};

verus! {

/// Type tag of a key-press record.
pub const KEY_PRESS: u8 = 2;

/// Type tag of a key-release record.
pub const KEY_RELEASE: u8 = 3;

/// Type tag of a button-press record.
pub const BUTTON_PRESS: u8 = 4;

/// Type tag of a button-release record.
pub const BUTTON_RELEASE: u8 = 5;

/// Type tag of a pointer-motion record.
pub const MOTION_NOTIFY: u8 = 6;

/// Type tag of a pointer-entered record.
pub const ENTER_NOTIFY: u8 = 7;

/// Type tag of a pointer-left record.
pub const LEAVE_NOTIFY: u8 = 8;

/// Type tag of an exposure record.
pub const EXPOSE: u8 = 12;

/// Type tag of a client-message record.
pub const CLIENT_MESSAGE: u8 = 33;

/// Type tag of an error record.
pub const ERROR: u8 = 0;

/// The bits of `response_type` that hold the type tag; the remaining top bit
/// only says that another client sent the record.
pub const TYPE_TAG_MASK: u8 = 0x7f;

/// One record as the display server delivered it.
///
/// The record is flat: every field is read from the place where the record
/// kind that owns it keeps it, and it means something only for that kind.
#[derive(Copy, Clone, Debug, PartialEq, Eq)]
pub struct RawEvent {
    /// Type tag, with the sent-by-a-client bit on top.
    pub response_type: u8,
    /// Key or button code of an input record.
    pub detail: u8,
    /// Window an input record was reported to.
    pub event: u32,
    /// Pointer position of an input record, relative to `event`.
    pub event_x: i16,
    pub event_y: i16,
    /// Window a client message is addressed to.
    pub window: u32,
    /// First 32-bit data word of a client message.
    pub data32_0: u32,
    /// What an error record complains about.
    pub error_code: u8,
    pub major_code: u8,
    pub minor_code: u16,
}

/// What one raw record turned out to be.
#[derive(Copy, Clone, Debug, PartialEq, Eq)]
pub enum Decoded {
    /// An event to dispatch to the listeners.
    Event(Event<u32>),
    /// The server rejected an earlier request. Never dispatched.
    ProtocolError { error_code: u8, major_code: u8, minor_code: u16 },
    /// A client message that is not a close request. Never dispatched.
    UnhandledClientMessage,
    /// A record of a kind this layer does not know. Never dispatched.
    UnhandledEvent,
}

impl RawEvent {
    /// The type tag, without the sent-by-a-client bit.
    pub open spec fn type_tag(self) -> u8 {
        self.response_type & TYPE_TAG_MASK
    }

    /// Where the pointer was when an input record was generated.
    pub open spec fn cursor_position(self) -> Position {
        Position { x: self.event_x, y: self.event_y }
    }
}

/// The event a raw record stands for, given the atom that marks a close
/// request.
pub open spec fn decode(raw: RawEvent, wm_delete_window: u32) -> Decoded {
    let tag = raw.type_tag();
    if tag == EXPOSE {
        Decoded::Event(Event::Expose(Expose {  }))
    } else if tag == KEY_PRESS {
        Decoded::Event(
            Event::KeyPress(
                KeyPress {
                    window_id: raw.event,
                    cursor_position: raw.cursor_position(),
                    detail: raw.detail,
                },
            ),
        )
    } else if tag == KEY_RELEASE {
        Decoded::Event(Event::KeyRelease(KeyRelease {  }))
    } else if tag == BUTTON_PRESS {
        Decoded::Event(
            Event::ButtonPress(
                ButtonPress {
                    window_id: raw.event,
                    cursor_position: raw.cursor_position(),
                    detail: raw.detail,
                },
            ),
        )
    } else if tag == BUTTON_RELEASE {
        Decoded::Event(Event::ButtonRelease(ButtonRelease {  }))
    } else if tag == MOTION_NOTIFY {
        Decoded::Event(Event::MotionNotify(MotionNotify {  }))
    } else if tag == ENTER_NOTIFY {
        Decoded::Event(Event::EnterNotify(EnterNotify {  }))
    } else if tag == LEAVE_NOTIFY {
        Decoded::Event(Event::LeaveNotify(LeaveNotify {  }))
    } else if tag == CLIENT_MESSAGE {
        if raw.data32_0 == wm_delete_window {
            Decoded::Event(Event::CloseNotify(CloseNotify { window_id: raw.window }))
        } else {
            Decoded::UnhandledClientMessage
        }
    } else if tag == ERROR {
        Decoded::ProtocolError {
            error_code: raw.error_code,
            major_code: raw.major_code,
            minor_code: raw.minor_code,
        }
    } else {
        Decoded::UnhandledEvent
    }
}

/// Decodes one raw record. `wm_delete_window` is the atom the server interned
/// for the close request of the window-manager protocol.
pub fn decode_event(raw: &RawEvent, wm_delete_window: u32) -> (decoded: Decoded)
    ensures
        decoded == decode(*raw, wm_delete_window),
{
    let cursor_position = Position { x: raw.event_x, y: raw.event_y };
    match raw.response_type & TYPE_TAG_MASK {
        EXPOSE => Decoded::Event(Event::Expose(Expose {  })),
        KEY_PRESS => Decoded::Event(
            Event::KeyPress(KeyPress { window_id: raw.event, cursor_position, detail: raw.detail }),
        ),
        KEY_RELEASE => Decoded::Event(Event::KeyRelease(KeyRelease {  })),
        BUTTON_PRESS => Decoded::Event(
            Event::ButtonPress(
                ButtonPress { window_id: raw.event, cursor_position, detail: raw.detail },
            ),
        ),
        BUTTON_RELEASE => Decoded::Event(Event::ButtonRelease(ButtonRelease {  })),
        MOTION_NOTIFY => Decoded::Event(Event::MotionNotify(MotionNotify {  })),
        ENTER_NOTIFY => Decoded::Event(Event::EnterNotify(EnterNotify {  })),
        LEAVE_NOTIFY => Decoded::Event(Event::LeaveNotify(LeaveNotify {  })),
        CLIENT_MESSAGE => {
            if raw.data32_0 == wm_delete_window {
                Decoded::Event(Event::CloseNotify(CloseNotify { window_id: raw.window }))
            } else {
                Decoded::UnhandledClientMessage
            }
        },
        ERROR => Decoded::ProtocolError {
            error_code: raw.error_code,
            major_code: raw.major_code,
            minor_code: raw.minor_code,
        },
        _ => Decoded::UnhandledEvent,
    }
}

} // verus!
