//! The event vocabulary of the GUI framework.
//!
//! The types follow those of `iced_core`, and hold what the translation
//! produces of them.

use vstd::prelude::*;
use crate::binary::{Binary32, Binary64};

verus! {

/// The set of modifier keys that are held down: one flag for each of the
/// four modifiers. Two sets are equal when all four flags agree.
#[derive(Clone, Copy, Debug, PartialEq, Eq, Hash, Structural)]
pub struct Modifiers {
    /// A "shift" key.
    pub shift: bool,
    /// A "control" key.
    pub ctrl: bool,
    /// An "alt" key.
    pub alt: bool,
    /// The "windows", "command" or "super" key.
    pub logo: bool,
}

impl Modifiers {
    /// The set in which no modifier is held.
    pub open spec fn none() -> Modifiers {
        Modifiers { shift: false, ctrl: false, alt: false, logo: false }
    }

    /// Returns the set in which no modifier is held.
    pub fn empty() -> (modifiers: Modifiers)
        ensures
            modifiers == Modifiers::none(),
    {
        Modifiers { shift: false, ctrl: false, alt: false, logo: false }
    }
}

/// Where on the keyboard a key sits.
#[derive(Clone, Copy, Debug, PartialEq, Eq, Hash, Structural)]
pub enum Location {
    /// The main block of keys.
    Standard,
    /// The left side of the keyboard.
    Left,
    /// The right side of the keyboard.
    Right,
    /// The numeric keypad.
    Numpad,
}

/// A key with a name of its own. These are the named keys that the
/// translation can produce; each bears the name of the foreign key it comes
/// from.
#[derive(Clone, Copy, Debug, PartialEq, Eq, Hash, Structural)]
pub enum Named {
    Escape,
    F1,
    F2,
    F3,
    F4,
    F5,
    F6,
    F7,
    F8,
    F9,
    F10,
    F11,
    F12,
    PrintScreen,
    ScrollLock,
    Pause,
    Insert,
    Home,
    Delete,
    End,
    PageDown,
    PageUp,
    ArrowLeft,
    ArrowUp,
    ArrowRight,
    ArrowDown,
    Backspace,
    Enter,
    NumLock,
    Alt,
    Control,
    Shift,
    Meta,
    Tab,
    Copy,
    Paste,
    Cut,
    MediaStop,
    MediaPlayPause,
    AudioVolumeMute,
    AudioVolumeDown,
    AudioVolumeUp,
    MediaTrackNext,
    MediaTrackPrevious,
}

/// The meaning of a key.
#[derive(Clone, Debug, PartialEq, Eq, Hash)]
pub enum Key {
    /// A key with a name of its own.
    Named(Named),
    /// A key that produces text; the payload is that text.
    Character(String),
    /// A key that has no counterpart in this vocabulary.
    Unidentified,
}

/// Something that happened to the keyboard.
#[derive(Clone, Debug, PartialEq, Eq, Hash)]
pub enum KeyboardEvent {
    /// A key was pressed.
    KeyPressed {
        /// The key that was pressed.
        key: Key,
        /// Where on the keyboard the key sits.
        location: Location,
        /// The modifiers held at the time.
        modifiers: Modifiers,
        /// The text that the key press produced, if any.
        text: Option<String>,
    },
    /// A key was released.
    KeyReleased {
        /// The key that was released.
        key: Key,
        /// Where on the keyboard the key sits.
        location: Location,
        /// The modifiers held at the time.
        modifiers: Modifiers,
    },
    /// The set of held modifiers changed; the payload is the new set.
    ModifiersChanged(Modifiers),
}

/// A button of the mouse.
#[derive(Clone, Copy, Debug, PartialEq, Eq, Hash, Structural)]
pub enum MouseButton {
    /// The left button.
    Left,
    /// The right button.
    Right,
    /// The middle button, usually the wheel.
    Middle,
    /// The button that navigates back.
    Back,
    /// The button that navigates forward.
    Forward,
    /// Any further button, by its number.
    Other(u16),
}

/// An amount of scrolling.
#[derive(Clone, Copy, Debug, PartialEq, Eq, Hash, Structural)]
pub enum ScrollDelta {
    /// Scrolling measured in lines.
    Lines {
        /// Lines scrolled horizontally.
        x: Binary32,
        /// Lines scrolled vertically.
        y: Binary32,
    },
    /// Scrolling measured in pixels.
    Pixels {
        /// Pixels scrolled horizontally.
        x: Binary32,
        /// Pixels scrolled vertically.
        y: Binary32,
    },
}

/// Something that happened to the mouse.
#[derive(Clone, Copy, Debug, PartialEq, Eq, Hash, Structural)]
pub enum MouseEvent {
    /// The cursor moved.
    CursorMoved {
        /// The horizontal coordinate of the cursor.
        x: Binary64,
        /// The vertical coordinate of the cursor.
        y: Binary64,
    },
    /// A button was pressed.
    ButtonPressed(MouseButton),
    /// A button was released.
    ButtonReleased(MouseButton),
    /// The wheel was turned.
    WheelScrolled {
        /// How far the wheel was turned.
        delta: ScrollDelta,
    },
}

/// The window that a window event is about.
#[derive(Clone, Copy, Debug, PartialEq, Eq, Hash, Structural)]
pub enum WindowId {
    /// The first window of the application, and the only one this crate
    /// knows of.
    Main,
}

/// Something that happened to a window.
#[derive(Clone, Copy, Debug, PartialEq, Eq, Hash, Structural)]
pub enum WindowEvent {
    /// The window has a new size, in whole logical pixels.
    Resized {
        /// The new width.
        width: u32,
        /// The new height.
        height: u32,
    },
}

/// An event as the GUI framework expects it.
#[derive(Clone, Debug, PartialEq, Eq, Hash)]
pub enum Event {
    /// A keyboard event.
    Keyboard(KeyboardEvent),
    /// A mouse event.
    Mouse(MouseEvent),
    /// A window event, with the window that it is about.
    Window(WindowId, WindowEvent),
}

} // verus!
