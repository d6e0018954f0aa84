//! The windowing events consumed by this crate, as plain values.
//!
//! Lengths and positions are whole pixels. A scale factor is the numerator of
//! a fraction over [`crate::translate::SCALE_DENOMINATOR`]. A scroll value is
//! a count of raw scroll units, [`crate::translate::SCROLL_UNITS_PER_NOTCH`]
//! of which make one wheel notch.

use vstd::prelude::*;

verus! {

/// A key that the windowing system identifies by name rather than by the
/// character it produces.
#[derive(Clone, Copy, Debug, PartialEq, Eq, Structural)]
pub enum NamedKey {
    LCtrl,
    RCtrl,
    Ctrl,
    LShift,
    RShift,
    Shift,
    LAlt,
    RAlt,
    Alt,
    LSuper,
    RSuper,
    Super,
    Tab,
    LeftArrow,
    RightArrow,
    UpArrow,
    DownArrow,
    PageUp,
    PageDown,
    Home,
    End,
    Insert,
    Delete,
    Backspace,
    Space,
    Enter,
    Escape,
    Menu,
    Key0,
    Key1,
    Key2,
    Key3,
    Key4,
    Key5,
    Key6,
    Key7,
    Key8,
    Key9,
    F1,
    F2,
    F3,
    F4,
    F5,
    F6,
    F7,
    F8,
    F9,
    F10,
    F11,
    F12,
    Minus,
    Period,
    Slash,
    CapsLock,
    ScrollLock,
    NumLock,
    PrintScreen,
    Pause,
    NumpadInsert,
    NumpadEnd,
    NumpadDownArrow,
    NumpadPageDown,
    NumpadLeftArrow,
    NumpadBegin,
    NumpadRightArrow,
    NumpadHome,
    NumpadUpArrow,
    NumpadPageUp,
    NumpadDelete,
    NumpadDecimal,
    NumpadDivide,
    NumpadMultiply,
    NumpadSubtract,
    NumpadAdd,
    NumpadEnter,
    /// Any named key that has no entry of its own above.
    Other,
}

/// The modifier-independent identity of a key.
#[derive(Clone, Debug, PartialEq, Eq)]
pub enum LogicalKey {
    /// A key known by name.
    Named(NamedKey),
    /// A key known by the text it produces when no modifier is held.
    Character(String),
}

/// What tells one key from another: its name, or the characters it is known
/// by.
pub enum KeyIdentity {
    Named(NamedKey),
    Character(Seq<char>),
}

impl View for LogicalKey {
    type V = KeyIdentity;

    open spec fn view(&self) -> KeyIdentity {
        match *self {
            LogicalKey::Named(named) => KeyIdentity::Named(named),
            LogicalKey::Character(text) => KeyIdentity::Character(text@),
        }
    }
}

/// A button of the pointing device.
#[derive(Clone, Copy, Debug, PartialEq, Eq, Structural)]
pub enum PointerButton {
    Left,
    Right,
    Middle,
    Forward,
    Back,
    /// A button the windowing system could not name, with its raw code.
    Unknown(u32),
}

/// The axis along which a scroll happened.
#[derive(Clone, Copy, Debug, PartialEq, Eq, Structural)]
pub enum ScrollDirection {
    Vertical,
    Horizontal,
}

/// One event delivered by the windowing system.
#[derive(Clone, Debug, PartialEq, Eq)]
pub enum InputEvent {
    /// The window changed size.
    Resize,
    /// The window moved to a different scale factor.
    ScaleFactorChanged,
    /// The window gained (`true`) or lost (`false`) keyboard focus.
    Focus(bool),
    /// A key went down or up; `text` is what the press typed, if anything.
    Key { down: bool, text: String, key: LogicalKey },
    /// The pointer moved to an absolute position in logical pixels.
    PointerMoved { x: i32, y: i32 },
    /// A pointer button went down or up.
    PointerButton { down: bool, button: PointerButton },
    /// The wheel or touchpad scrolled by `value` raw units.
    Scroll { direction: ScrollDirection, value: i32 },
    /// The user asked to close the window.
    Close,
    /// The window wants to be drawn again.
    RedrawRequested,
}

/// What the translator reads from the window at the time of an event.
#[derive(Clone, Copy, Debug, PartialEq, Eq)]
pub struct WindowMetrics {
    /// Width and height of the surface in physical pixels.
    pub physical_size: (u32, u32),
    /// Width and height of the window in logical pixels.
    pub logical_size: (u32, u32),
    /// Numerator of the scale factor.
    pub scale: u32,
}

} // verus!
