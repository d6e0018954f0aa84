//! The key tables: which modifier a key stands for, and which GUI key symbol
//! it maps to.
//!
//! The modifier test comes first and does not depend on the symbol table: a
//! left, right or unsided Ctrl all stand for the one Ctrl modifier, whether or
//! not the key also has a symbol of its own.

use vstd::prelude::*;
use vstd::string::*;
use crate::event::{KeyIdentity, LogicalKey, NamedKey};

verus! {

/// One of the four modifiers the GUI library tracks.
#[derive(Clone, Copy, Debug, PartialEq, Eq, Structural)]
pub enum Modifier {
    Ctrl,
    Shift,
    Alt,
    Super,
}

/// The key symbols that stand for mouse input. The GUI library derives them
/// from mouse events itself and does not take them as key events.
pub open spec fn is_mouse_alias(key: imgui::Key) -> bool {
    key == imgui::Key::MouseLeft || key == imgui::Key::MouseRight || key == imgui::Key::MouseMiddle
        || key == imgui::Key::MouseX1 || key == imgui::Key::MouseX2 || key
        == imgui::Key::MouseWheelX || key == imgui::Key::MouseWheelY
}

/// The modifier that a named key stands for, whichever side of the keyboard
/// it sits on.
pub open spec fn named_modifier(key: NamedKey) -> Option<Modifier> {
    match key {
        NamedKey::LCtrl | NamedKey::RCtrl | NamedKey::Ctrl => Some(Modifier::Ctrl),
        NamedKey::LShift | NamedKey::RShift | NamedKey::Shift => Some(Modifier::Shift),
        NamedKey::LAlt | NamedKey::RAlt | NamedKey::Alt => Some(Modifier::Alt),
        NamedKey::LSuper | NamedKey::RSuper | NamedKey::Super => Some(Modifier::Super),
        _ => None,
    }
}

/// The modifier that a key stands for. A key known only by its character is
/// never a modifier.
pub open spec fn modifier_of(key: LogicalKey) -> Option<Modifier> {
    match key {
        LogicalKey::Named(named) => named_modifier(named),
        LogicalKey::Character(_) => None,
    }
}

/// The key symbol under which the GUI library receives a modifier.
pub open spec fn modifier_symbol(modifier: Modifier) -> imgui::Key {
    match modifier {
        Modifier::Ctrl => imgui::Key::ModCtrl,
        Modifier::Shift => imgui::Key::ModShift,
        Modifier::Alt => imgui::Key::ModAlt,
        Modifier::Super => imgui::Key::ModSuper,
    }
}

/// The symbol table for named keys. Keys without an entry map to `None`.
pub open spec fn named_symbol(key: NamedKey) -> Option<imgui::Key> {
    match key {
        NamedKey::Tab => Some(imgui::Key::Tab),
        NamedKey::LeftArrow => Some(imgui::Key::LeftArrow),
        NamedKey::RightArrow => Some(imgui::Key::RightArrow),
        NamedKey::UpArrow => Some(imgui::Key::UpArrow),
        NamedKey::DownArrow => Some(imgui::Key::DownArrow),
        NamedKey::PageUp => Some(imgui::Key::PageUp),
        NamedKey::PageDown => Some(imgui::Key::PageDown),
        NamedKey::Home => Some(imgui::Key::Home),
        NamedKey::End => Some(imgui::Key::End),
        NamedKey::Insert => Some(imgui::Key::Insert),
        NamedKey::Delete => Some(imgui::Key::Delete),
        NamedKey::Backspace => Some(imgui::Key::Backspace),
        NamedKey::Space => Some(imgui::Key::Space),
        NamedKey::Enter => Some(imgui::Key::Enter),
        NamedKey::Escape => Some(imgui::Key::Escape),
        NamedKey::LCtrl => Some(imgui::Key::LeftCtrl),
        NamedKey::LShift => Some(imgui::Key::LeftShift),
        NamedKey::LAlt => Some(imgui::Key::LeftAlt),
        NamedKey::LSuper => Some(imgui::Key::LeftSuper),
        NamedKey::RCtrl => Some(imgui::Key::RightCtrl),
        NamedKey::RShift => Some(imgui::Key::RightShift),
        NamedKey::RAlt => Some(imgui::Key::RightAlt),
        NamedKey::RSuper => Some(imgui::Key::RightSuper),
        NamedKey::Menu => Some(imgui::Key::Menu),
        NamedKey::Key0 => Some(imgui::Key::Alpha0),
        NamedKey::Key1 => Some(imgui::Key::Alpha1),
        NamedKey::Key2 => Some(imgui::Key::Alpha2),
        NamedKey::Key3 => Some(imgui::Key::Alpha3),
        NamedKey::Key4 => Some(imgui::Key::Alpha4),
        NamedKey::Key5 => Some(imgui::Key::Alpha5),
        NamedKey::Key6 => Some(imgui::Key::Alpha6),
        NamedKey::Key7 => Some(imgui::Key::Alpha7),
        NamedKey::Key8 => Some(imgui::Key::Alpha8),
        NamedKey::Key9 => Some(imgui::Key::Alpha9),
        NamedKey::F1 => Some(imgui::Key::F1),
        NamedKey::F2 => Some(imgui::Key::F2),
        NamedKey::F3 => Some(imgui::Key::F3),
        NamedKey::F4 => Some(imgui::Key::F4),
        NamedKey::F5 => Some(imgui::Key::F5),
        NamedKey::F6 => Some(imgui::Key::F6),
        NamedKey::F7 => Some(imgui::Key::F7),
        NamedKey::F8 => Some(imgui::Key::F8),
        NamedKey::F9 => Some(imgui::Key::F9),
        NamedKey::F10 => Some(imgui::Key::F10),
        NamedKey::F11 => Some(imgui::Key::F11),
        NamedKey::F12 => Some(imgui::Key::F12),
        NamedKey::Minus => Some(imgui::Key::Minus),
        NamedKey::Period => Some(imgui::Key::Period),
        NamedKey::Slash => Some(imgui::Key::Slash),
        NamedKey::CapsLock => Some(imgui::Key::CapsLock),
        NamedKey::ScrollLock => Some(imgui::Key::ScrollLock),
        NamedKey::NumLock => Some(imgui::Key::NumLock),
        NamedKey::PrintScreen => Some(imgui::Key::PrintScreen),
        NamedKey::Pause => Some(imgui::Key::Pause),
        NamedKey::NumpadInsert => Some(imgui::Key::Keypad0),
        NamedKey::NumpadEnd => Some(imgui::Key::Keypad1),
        NamedKey::NumpadDownArrow => Some(imgui::Key::Keypad2),
        NamedKey::NumpadPageDown => Some(imgui::Key::Keypad3),
        NamedKey::NumpadLeftArrow => Some(imgui::Key::Keypad4),
        NamedKey::NumpadBegin => Some(imgui::Key::Keypad5),
        NamedKey::NumpadRightArrow => Some(imgui::Key::Keypad6),
        NamedKey::NumpadHome => Some(imgui::Key::Keypad7),
        NamedKey::NumpadUpArrow => Some(imgui::Key::Keypad8),
        NamedKey::NumpadPageUp => Some(imgui::Key::Keypad9),
        NamedKey::NumpadDecimal => Some(imgui::Key::KeypadDecimal),
        NamedKey::NumpadDivide => Some(imgui::Key::KeypadDivide),
        NamedKey::NumpadMultiply => Some(imgui::Key::KeypadMultiply),
        NamedKey::NumpadSubtract => Some(imgui::Key::KeypadSubtract),
        NamedKey::NumpadAdd => Some(imgui::Key::KeypadAdd),
        NamedKey::NumpadEnter => Some(imgui::Key::KeypadEnter),
        _ => None,
    }
}

/// The symbol table for keys known by a single character. Only lower-case
/// letters and seven punctuation marks have an entry.
pub open spec fn character_symbol(c: char) -> Option<imgui::Key> {
    match c {
        'a' => Some(imgui::Key::A),
        'b' => Some(imgui::Key::B),
        'c' => Some(imgui::Key::C),
        'd' => Some(imgui::Key::D),
        'e' => Some(imgui::Key::E),
        'f' => Some(imgui::Key::F),
        'g' => Some(imgui::Key::G),
        'h' => Some(imgui::Key::H),
        'i' => Some(imgui::Key::I),
        'j' => Some(imgui::Key::J),
        'k' => Some(imgui::Key::K),
        'l' => Some(imgui::Key::L),
        'm' => Some(imgui::Key::M),
        'n' => Some(imgui::Key::N),
        'o' => Some(imgui::Key::O),
        'p' => Some(imgui::Key::P),
        'q' => Some(imgui::Key::Q),
        'r' => Some(imgui::Key::R),
        's' => Some(imgui::Key::S),
        't' => Some(imgui::Key::T),
        'u' => Some(imgui::Key::U),
        'v' => Some(imgui::Key::V),
        'w' => Some(imgui::Key::W),
        'x' => Some(imgui::Key::X),
        'y' => Some(imgui::Key::Y),
        'z' => Some(imgui::Key::Z),
        '\'' => Some(imgui::Key::Apostrophe),
        ',' => Some(imgui::Key::Comma),
        ';' => Some(imgui::Key::Semicolon),
        '=' => Some(imgui::Key::Equal),
        '[' => Some(imgui::Key::LeftBracket),
        '\\' => Some(imgui::Key::Backslash),
        ']' => Some(imgui::Key::RightBracket),
        _ => None,
    }
}

/// The symbol of a key known by its text: the text must be exactly one
/// character, and that character must have an entry.
pub open spec fn text_symbol(text: Seq<char>) -> Option<imgui::Key> {
    if text.len() == 1 {
        character_symbol(text[0])
    } else {
        None
    }
}

/// The GUI key symbol of a logical key, or `None` where the table has no
/// entry for it.
pub open spec fn symbol_of(key: LogicalKey) -> Option<imgui::Key> {
    match key {
        LogicalKey::Named(named) => named_symbol(named),
        LogicalKey::Character(text) => text_symbol(text@),
    }
}

/// The same key on the other side of the keyboard; a key without sides is its
/// own mirror image.
pub open spec fn mirrored(key: NamedKey) -> NamedKey {
    match key {
        NamedKey::LCtrl => NamedKey::RCtrl,
        NamedKey::RCtrl => NamedKey::LCtrl,
        NamedKey::LShift => NamedKey::RShift,
        NamedKey::RShift => NamedKey::LShift,
        NamedKey::LAlt => NamedKey::RAlt,
        NamedKey::RAlt => NamedKey::LAlt,
        NamedKey::LSuper => NamedKey::RSuper,
        NamedKey::RSuper => NamedKey::LSuper,
        other => other,
    }
}

impl Modifier {
    /// The key symbol under which the GUI library receives this modifier.
    pub fn symbol(self) -> (key: imgui::Key)
        ensures
            key == modifier_symbol(self),
            !is_mouse_alias(key),
            key != imgui::Key::ModShortcut,
    {
        match self {
            Modifier::Ctrl => imgui::Key::ModCtrl,
            Modifier::Shift => imgui::Key::ModShift,
            Modifier::Alt => imgui::Key::ModAlt,
            Modifier::Super => imgui::Key::ModSuper,
        }
    }
}

impl NamedKey {
    /// The modifier this key stands for, if it is one.
    pub fn modifier(self) -> (modifier: Option<Modifier>)
        ensures
            modifier == named_modifier(self),
    {
        match self {
            NamedKey::LCtrl | NamedKey::RCtrl | NamedKey::Ctrl => Some(Modifier::Ctrl),
            NamedKey::LShift | NamedKey::RShift | NamedKey::Shift => Some(Modifier::Shift),
            NamedKey::LAlt | NamedKey::RAlt | NamedKey::Alt => Some(Modifier::Alt),
            NamedKey::LSuper | NamedKey::RSuper | NamedKey::Super => Some(Modifier::Super),
            _ => None,
        }
    }

    /// The GUI key symbol this key maps to, if the table has one.
    pub fn symbol(self) -> (symbol: Option<imgui::Key>)
        ensures
            symbol == named_symbol(self),
    {
        match self {
            NamedKey::Tab => Some(imgui::Key::Tab),
            NamedKey::LeftArrow => Some(imgui::Key::LeftArrow),
            NamedKey::RightArrow => Some(imgui::Key::RightArrow),
            NamedKey::UpArrow => Some(imgui::Key::UpArrow),
            NamedKey::DownArrow => Some(imgui::Key::DownArrow),
            NamedKey::PageUp => Some(imgui::Key::PageUp),
            NamedKey::PageDown => Some(imgui::Key::PageDown),
            NamedKey::Home => Some(imgui::Key::Home),
            NamedKey::End => Some(imgui::Key::End),
            NamedKey::Insert => Some(imgui::Key::Insert),
            NamedKey::Delete => Some(imgui::Key::Delete),
            NamedKey::Backspace => Some(imgui::Key::Backspace),
            NamedKey::Space => Some(imgui::Key::Space),
            NamedKey::Enter => Some(imgui::Key::Enter),
            NamedKey::Escape => Some(imgui::Key::Escape),
            NamedKey::LCtrl => Some(imgui::Key::LeftCtrl),
            NamedKey::LShift => Some(imgui::Key::LeftShift),
            NamedKey::LAlt => Some(imgui::Key::LeftAlt),
            NamedKey::LSuper => Some(imgui::Key::LeftSuper),
            NamedKey::RCtrl => Some(imgui::Key::RightCtrl),
            NamedKey::RShift => Some(imgui::Key::RightShift),
            NamedKey::RAlt => Some(imgui::Key::RightAlt),
            NamedKey::RSuper => Some(imgui::Key::RightSuper),
            NamedKey::Menu => Some(imgui::Key::Menu),
            NamedKey::Key0 => Some(imgui::Key::Alpha0),
            NamedKey::Key1 => Some(imgui::Key::Alpha1),
            NamedKey::Key2 => Some(imgui::Key::Alpha2),
            NamedKey::Key3 => Some(imgui::Key::Alpha3),
            NamedKey::Key4 => Some(imgui::Key::Alpha4),
            NamedKey::Key5 => Some(imgui::Key::Alpha5),
            NamedKey::Key6 => Some(imgui::Key::Alpha6),
            NamedKey::Key7 => Some(imgui::Key::Alpha7),
            NamedKey::Key8 => Some(imgui::Key::Alpha8),
            NamedKey::Key9 => Some(imgui::Key::Alpha9),
            NamedKey::F1 => Some(imgui::Key::F1),
            NamedKey::F2 => Some(imgui::Key::F2),
            NamedKey::F3 => Some(imgui::Key::F3),
            NamedKey::F4 => Some(imgui::Key::F4),
            NamedKey::F5 => Some(imgui::Key::F5),
            NamedKey::F6 => Some(imgui::Key::F6),
            NamedKey::F7 => Some(imgui::Key::F7),
            NamedKey::F8 => Some(imgui::Key::F8),
            NamedKey::F9 => Some(imgui::Key::F9),
            NamedKey::F10 => Some(imgui::Key::F10),
            NamedKey::F11 => Some(imgui::Key::F11),
            NamedKey::F12 => Some(imgui::Key::F12),
            NamedKey::Minus => Some(imgui::Key::Minus),
            NamedKey::Period => Some(imgui::Key::Period),
                NamedKey::Slash => Some(imgui::Key::Slash),
            NamedKey::CapsLock => Some(imgui::Key::CapsLock),
            NamedKey::ScrollLock => Some(imgui::Key::ScrollLock),
            NamedKey::NumLock => Some(imgui::Key::NumLock),
            NamedKey::PrintScreen => Some(imgui::Key::PrintScreen),
            NamedKey::Pause => Some(imgui::Key::Pause),
            NamedKey::NumpadInsert => Some(imgui::Key::Keypad0),
            NamedKey::NumpadEnd => Some(imgui::Key::Keypad1),
            NamedKey::NumpadDownArrow => Some(imgui::Key::Keypad2),
            NamedKey::NumpadPageDown => Some(imgui::Key::Keypad3),
            NamedKey::NumpadLeftArrow => Some(imgui::Key::Keypad4),
            NamedKey::NumpadBegin => Some(imgui::Key::Keypad5),
            NamedKey::NumpadRightArrow => Some(imgui::Key::Keypad6),
            NamedKey::NumpadHome => Some(imgui::Key::Keypad7),
            NamedKey::NumpadUpArrow => Some(imgui::Key::Keypad8),
            NamedKey::NumpadPageUp => Some(imgui::Key::Keypad9),
            NamedKey::NumpadDecimal => Some(imgui::Key::KeypadDecimal),
            NamedKey::NumpadDivide => Some(imgui::Key::KeypadDivide),
            NamedKey::NumpadMultiply => Some(imgui::Key::KeypadMultiply),
            NamedKey::NumpadSubtract => Some(imgui::Key::KeypadSubtract),
            NamedKey::NumpadAdd => Some(imgui::Key::KeypadAdd),
            NamedKey::NumpadEnter => Some(imgui::Key::KeypadEnter),
            _ => None,
        }
    }
}

/// The GUI key symbol of a key known by the character `c`.
pub fn symbol_for_character(c: char) -> (symbol: Option<imgui::Key>)
    ensures
        symbol == character_symbol(c),
{
    match c {
        'a' => Some(imgui::Key::A),
        'b' => Some(imgui::Key::B),
        'c' => Some(imgui::Key::C),
        'd' => Some(imgui::Key::D),
        'e' => Some(imgui::Key::E),
        'f' => Some(imgui::Key::F),
        'g' => Some(imgui::Key::G),
        'h' => Some(imgui::Key::H),
        'i' => Some(imgui::Key::I),
        'j' => Some(imgui::Key::J),
        'k' => Some(imgui::Key::K),
        'l' => Some(imgui::Key::L),
        'm' => Some(imgui::Key::M),
        'n' => Some(imgui::Key::N),
        'o' => Some(imgui::Key::O),
        'p' => Some(imgui::Key::P),
        'q' => Some(imgui::Key::Q),
        'r' => Some(imgui::Key::R),
        's' => Some(imgui::Key::S),
        't' => Some(imgui::Key::T),
        'u' => Some(imgui::Key::U),
        'v' => Some(imgui::Key::V),
        'w' => Some(imgui::Key::W),
        'x' => Some(imgui::Key::X),
        'y' => Some(imgui::Key::Y),
        'z' => Some(imgui::Key::Z),
        '\'' => Some(imgui::Key::Apostrophe),
        ',' => Some(imgui::Key::Comma),
        ';' => Some(imgui::Key::Semicolon),
        '=' => Some(imgui::Key::Equal),
        '[' => Some(imgui::Key::LeftBracket),
        '\\' => Some(imgui::Key::Backslash),
        ']' => Some(imgui::Key::RightBracket),
        _ => None,
    }
}

impl LogicalKey {
    /// The modifier this key stands for, if it is one.
    pub fn modifier(&self) -> (modifier: Option<Modifier>)
        ensures
            modifier == modifier_of(*self),
    {
        match self {
            LogicalKey::Named(named) => named.modifier(),
            LogicalKey::Character(_) => None,
        }
    }

    /// The GUI key symbol this key maps to, or `None` where the table has no
    /// entry: the key is then forwarded under no symbol at all.
    pub fn symbol(&self) -> (symbol: Option<imgui::Key>)
        ensures
            symbol == symbol_of(*self),
            symbol matches Some(key) ==> !is_mouse_alias(key) && key != imgui::Key::ModShortcut,
    {
        match self {
            LogicalKey::Named(named) => named.symbol(),
            LogicalKey::Character(text) => {
                let text: &str = text.as_str();
                if text.unicode_len() == 1 {
                    symbol_for_character(text.get_char(0))
                } else {
                    None
                }
            },
        }
    }
}

/// A left-hand and a right-hand key stand for the same modifier: mirroring a
/// named key never changes which modifier, if any, it stands for.
pub proof fn modifier_ignores_side(key: NamedKey)
    ensures
        named_modifier(mirrored(key)) == named_modifier(key),
        modifier_of(LogicalKey::Named(mirrored(key))) == modifier_of(LogicalKey::Named(key)),
{
}

/// No table entry is a mouse alias or the shortcut modifier: every symbol
/// the tables yield is one the GUI library takes as a key event.
pub proof fn symbols_are_keyboard_keys(key: LogicalKey)
    ensures
        symbol_of(key) matches Some(symbol) ==> !is_mouse_alias(symbol) && symbol
            != imgui::Key::ModShortcut,
        modifier_of(key) matches Some(modifier) ==> !is_mouse_alias(modifier_symbol(modifier))
            && modifier_symbol(modifier) != imgui::Key::ModShortcut,
{
}

/// The symbol table is one to one: two keys that map to the same symbol are
/// the same key, be they named or known by their character.
pub proof fn symbol_table_is_one_to_one(first: LogicalKey, second: LogicalKey)
    requires
        symbol_of(first) is Some,
        symbol_of(first) == symbol_of(second),
    ensures
        first@ == second@,
{
    match (first, second) {
        (LogicalKey::Character(a), LogicalKey::Character(b)) => {
            assert(a@.len() == 1 && b@.len() == 1);
            assert(a@[0] == b@[0]);
            assert(a@ =~= b@);
        },
        _ => {},
    }
}

/// Two different keys of the symbol table map to different symbols.
pub proof fn different_keys_have_different_symbols(first: LogicalKey, second: LogicalKey)
    requires
        symbol_of(first) is Some,
        symbol_of(second) is Some,
        first@ != second@,
    ensures
        symbol_of(first) != symbol_of(second),
{
    if symbol_of(first) == symbol_of(second) {
        symbol_table_is_one_to_one(first, second);
    }
}

/// A modifier key keeps a symbol of its own only when it has a side: the
/// sided keys map to the sided symbols, the unsided ones to nothing.
pub proof fn sided_modifiers_keep_their_symbol(key: NamedKey)
    requires
        named_modifier(key) is Some,
    ensures
        named_symbol(key) is Some <==> mirrored(key) != key,
        named_symbol(key) is Some ==> named_symbol(mirrored(key)) is Some && named_symbol(
            mirrored(key),
        ) != named_symbol(key),
{
}

} // verus!
