//! The event vocabulary of the windowing library.
//!
//! The types follow those of `baseview`, and of `keyboard_types` for the
//! keyboard, and hold what the translation reads of them.

use vstd::prelude::*;
use crate::binary::{Binary32, Binary64};

mod named_key;

pub use self::named_key::NamedKey;

verus! {

/// A snapshot of the modifier keys, as a keyboard or mouse event carries it.
///
/// Each modifier owns one bit, the one it has in `keyboard_types::Modifiers`.
/// Only [`Modifiers::ALT`], [`Modifiers::CONTROL`], [`Modifiers::META`] and
/// [`Modifiers::SHIFT`] are of interest to this crate; the bits of other
/// modifiers, such as the lock keys, may be set and are passed over.
#[derive(Clone, Copy, Debug, PartialEq, Eq, Hash, Structural)]
pub struct Modifiers {
    /// One bit per modifier key.
    pub bits: u32,
}

impl Modifiers {
    /// The bit of the "alt" key.
    pub const ALT: u32 = 0x01;

    /// The bit of the "control" key.
    pub const CONTROL: u32 = 0x08;

    /// The bit of the "meta" key.
    pub const META: u32 = 0x40;

    /// The bit of the "shift" key.
    pub const SHIFT: u32 = 0x200;

    /// Whether every bit of `flags` is set in the snapshot.
    pub open spec fn holds(self, flags: u32) -> bool {
        self.bits & flags == flags
    }

    /// Tells whether every bit of `flags` is set in the snapshot.
    pub fn contains(&self, flags: u32) -> (held: bool)
        ensures
            held == self.holds(flags),
    {
        self.bits & flags == flags
    }
}

/// Where on the keyboard a key sits.
#[derive(Clone, Copy, Debug, PartialEq, Eq, Hash, Structural)]
pub enum Location {
    /// The main block of keys, or a key that exists only once.
    Standard,
    /// The left one of a pair of keys.
    Left,
    /// The right one of a pair of keys.
    Right,
    /// The numeric keypad.
    Numpad,
}

/// Whether a key went down or came up.
#[derive(Clone, Copy, Debug, PartialEq, Eq, Hash, Structural)]
pub enum KeyState {
    /// The key was pressed.
    Down,
    /// The key was released.
    Up,
}

/// The meaning of a key.
#[derive(Clone, Debug, PartialEq, Eq, Hash)]
pub enum Key {
    /// A key that produces text; the payload is that text.
    Character(String),
    /// A key with a name of its own.
    Named(NamedKey),
}

/// A key going down or coming up.
#[derive(Clone, Debug, PartialEq, Eq, Hash)]
pub struct KeyboardEvent {
    /// Whether the key went down or came up.
    pub state: KeyState,
    /// The meaning of the key.
    pub key: Key,
    /// Where on the keyboard the key sits.
    pub location: Location,
    /// The modifiers that were held when the event occurred.
    pub modifiers: Modifiers,
}

/// A button of the mouse.
#[derive(Clone, Copy, Debug, PartialEq, Eq, Hash, Structural)]
pub enum MouseButton {
    /// The left button.
    Left,
    /// The middle button, usually the wheel.
    Middle,
    /// The right button.
    Right,
    /// The button that navigates back.
    Back,
    /// The button that navigates forward.
    Forward,
    /// Any further button, by its number.
    Other(u8),
}

/// An amount of scrolling.
#[derive(Clone, Copy, Debug, PartialEq, Eq, Hash, Structural)]
pub enum ScrollDelta {
    /// Scrolling measured in lines.
    Lines {
        /// Lines scrolled horizontally.
        x: Binary32,
        /// Lines scrolled vertically.
        y: Binary32,
    },
    /// Scrolling measured in pixels.
    Pixels {
        /// Pixels scrolled horizontally.
        x: Binary32,
        /// Pixels scrolled vertically.
        y: Binary32,
    },
}

/// Something that happened to the mouse.
#[derive(Clone, Copy, Debug, PartialEq, Eq, Hash, Structural)]
pub enum MouseEvent {
    /// The cursor moved.
    CursorMoved {
        /// The horizontal coordinate of the cursor.
        x: Binary64,
        /// The vertical coordinate of the cursor.
        y: Binary64,
        /// The modifiers that were held when the event occurred.
        modifiers: Modifiers,
    },
    /// A button was pressed.
    ButtonPressed {
        /// The button that was pressed.
        button: MouseButton,
        /// The modifiers that were held when the event occurred.
        modifiers: Modifiers,
    },
    /// A button was released.
    ButtonReleased {
        /// The button that was released.
        button: MouseButton,
        /// The modifiers that were held when the event occurred.
        modifiers: Modifiers,
    },
    /// The wheel was turned.
    WheelScrolled {
        /// How far the wheel was turned.
        delta: ScrollDelta,
        /// The modifiers that were held when the event occurred.
        modifiers: Modifiers,
    },
    /// The cursor entered the window.
    CursorEntered,
    /// The cursor left the window.
    CursorLeft,
    /// Any other kind of mouse event, such as a step of a drag and drop.
    Other,
}

/// Something that happened to the window.
#[derive(Clone, Copy, Debug, PartialEq, Eq, Hash, Structural)]
pub enum WindowEvent {
    /// The window has a new size, given in logical pixels.
    Resized {
        /// The new width.
        width: Binary64,
        /// The new height.
        height: Binary64,
    },
    /// The window gained the input focus.
    Focused,
    /// The window lost the input focus.
    Unfocused,
    /// The window is about to close.
    WillClose,
    /// Any other kind of window event.
    Other,
}

/// An event as the windowing library delivers it.
#[derive(Clone, Debug, PartialEq, Eq, Hash)]
pub enum Event {
    /// A mouse event.
    Mouse(MouseEvent),
    /// A keyboard event.
    Keyboard(KeyboardEvent),
    /// A window event.
    Window(WindowEvent),
}

} // verus!
