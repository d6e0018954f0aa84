use imgui::Key;
use imgui_waywin_support::{LogicalKey, Modifier, NamedKey};

fn named(key: NamedKey) -> LogicalKey {
    LogicalKey::Named(key)
}

fn character(text: &str) -> LogicalKey {
    LogicalKey::Character(text.to_string())
}

#[test]
fn left_and_right_modifiers_collapse() {
    let pairs = [
        (NamedKey::LCtrl, NamedKey::RCtrl, Modifier::Ctrl),
        (NamedKey::LShift, NamedKey::RShift, Modifier::Shift),
        (NamedKey::LAlt, NamedKey::RAlt, Modifier::Alt),
        (NamedKey::LSuper, NamedKey::RSuper, Modifier::Super),
    ];
    for (left, right, modifier) in pairs {
        assert_eq!(named(left).modifier(), Some(modifier));
        assert_eq!(named(right).modifier(), Some(modifier));
        assert_eq!(named(left).modifier(), named(right).modifier());
    }
}

#[test]
fn unsided_modifiers_are_modifiers_without_symbol() {
    let keys = [
        (NamedKey::Ctrl, Modifier::Ctrl),
        (NamedKey::Shift, Modifier::Shift),
        (NamedKey::Alt, Modifier::Alt),
        (NamedKey::Super, Modifier::Super),
    ];
    for (key, modifier) in keys {
        assert_eq!(key.modifier(), Some(modifier));
        assert_eq!(key.symbol(), None);
    }
}

#[test]
fn modifier_symbols() {
    assert_eq!(Modifier::Ctrl.symbol(), Key::ModCtrl);
    assert_eq!(Modifier::Shift.symbol(), Key::ModShift);
    assert_eq!(Modifier::Alt.symbol(), Key::ModAlt);
    assert_eq!(Modifier::Super.symbol(), Key::ModSuper);
}

#[test]
fn sided_modifiers_keep_their_own_symbol() {
    assert_eq!(named(NamedKey::LCtrl).symbol(), Some(Key::LeftCtrl));
    assert_eq!(named(NamedKey::RCtrl).symbol(), Some(Key::RightCtrl));
    assert_eq!(named(NamedKey::LShift).symbol(), Some(Key::LeftShift));
    assert_eq!(named(NamedKey::RShift).symbol(), Some(Key::RightShift));
    assert_eq!(named(NamedKey::LAlt).symbol(), Some(Key::LeftAlt));
    assert_eq!(named(NamedKey::RAlt).symbol(), Some(Key::RightAlt));
    assert_eq!(named(NamedKey::LSuper).symbol(), Some(Key::LeftSuper));
    assert_eq!(named(NamedKey::RSuper).symbol(), Some(Key::RightSuper));
}

#[test]
fn ordinary_keys_are_no_modifiers() {
    assert_eq!(named(NamedKey::Tab).modifier(), None);
    assert_eq!(named(NamedKey::Other).modifier(), None);
    assert_eq!(character("a").modifier(), None);
    assert_eq!(character("").modifier(), None);
}

#[test]
fn navigation_and_editing_keys() {
    assert_eq!(named(NamedKey::Tab).symbol(), Some(Key::Tab));
    assert_eq!(named(NamedKey::LeftArrow).symbol(), Some(Key::LeftArrow));
    assert_eq!(named(NamedKey::RightArrow).symbol(), Some(Key::RightArrow));
    assert_eq!(named(NamedKey::UpArrow).symbol(), Some(Key::UpArrow));
    assert_eq!(named(NamedKey::DownArrow).symbol(), Some(Key::DownArrow));
    assert_eq!(named(NamedKey::PageUp).symbol(), Some(Key::PageUp));
    assert_eq!(named(NamedKey::PageDown).symbol(), Some(Key::PageDown));
    assert_eq!(named(NamedKey::Home).symbol(), Some(Key::Home));
    assert_eq!(named(NamedKey::End).symbol(), Some(Key::End));
    assert_eq!(named(NamedKey::Insert).symbol(), Some(Key::Insert));
    assert_eq!(named(NamedKey::Delete).symbol(), Some(Key::Delete));
    assert_eq!(named(NamedKey::Backspace).symbol(), Some(Key::Backspace));
    assert_eq!(named(NamedKey::Space).symbol(), Some(Key::Space));
    assert_eq!(named(NamedKey::Enter).symbol(), Some(Key::Enter));
    assert_eq!(named(NamedKey::Escape).symbol(), Some(Key::Escape));
    assert_eq!(named(NamedKey::Menu).symbol(), Some(Key::Menu));
}

#[test]
fn digit_and_function_keys() {
    let digits = [
        (NamedKey::Key0, Key::Alpha0),
        (NamedKey::Key1, Key::Alpha1),
        (NamedKey::Key2, Key::Alpha2),
        (NamedKey::Key3, Key::Alpha3),
        (NamedKey::Key4, Key::Alpha4),
        (NamedKey::Key5, Key::Alpha5),
        (NamedKey::Key6, Key::Alpha6),
        (NamedKey::Key7, Key::Alpha7),
        (NamedKey::Key8, Key::Alpha8),
        (NamedKey::Key9, Key::Alpha9),
        (NamedKey::F1, Key::F1),
        (NamedKey::F2, Key::F2),
        (NamedKey::F3, Key::F3),
        (NamedKey::F4, Key::F4),
        (NamedKey::F5, Key::F5),
        (NamedKey::F6, Key::F6),
        (NamedKey::F7, Key::F7),
        (NamedKey::F8, Key::F8),
        (NamedKey::F9, Key::F9),
        (NamedKey::F10, Key::F10),
        (NamedKey::F11, Key::F11),
        (NamedKey::F12, Key::F12),
    ];
    for (key, symbol) in digits {
        assert_eq!(key.symbol(), Some(symbol));
    }
}

#[test]
fn punctuation_and_lock_keys() {
    assert_eq!(named(NamedKey::Minus).symbol(), Some(Key::Minus));
    assert_eq!(named(NamedKey::Period).symbol(), Some(Key::Period));
    assert_eq!(named(NamedKey::Slash).symbol(), Some(Key::Slash));
    assert_eq!(named(NamedKey::CapsLock).symbol(), Some(Key::CapsLock));
    assert_eq!(named(NamedKey::ScrollLock).symbol(), Some(Key::ScrollLock));
    assert_eq!(named(NamedKey::NumLock).symbol(), Some(Key::NumLock));
    assert_eq!(named(NamedKey::PrintScreen).symbol(), Some(Key::PrintScreen));
    assert_eq!(named(NamedKey::Pause).symbol(), Some(Key::Pause));
}

#[test]
fn keypad_keys() {
    let keys = [
        (NamedKey::NumpadInsert, Key::Keypad0),
        (NamedKey::NumpadEnd, Key::Keypad1),
        (NamedKey::NumpadDownArrow, Key::Keypad2),
        (NamedKey::NumpadPageDown, Key::Keypad3),
        (NamedKey::NumpadLeftArrow, Key::Keypad4),
        (NamedKey::NumpadBegin, Key::Keypad5),
        (NamedKey::NumpadRightArrow, Key::Keypad6),
        (NamedKey::NumpadHome, Key::Keypad7),
        (NamedKey::NumpadUpArrow, Key::Keypad8),
        (NamedKey::NumpadPageUp, Key::Keypad9),
        (NamedKey::NumpadDecimal, Key::KeypadDecimal),
        (NamedKey::NumpadDivide, Key::KeypadDivide),
        (NamedKey::NumpadMultiply, Key::KeypadMultiply),
        (NamedKey::NumpadSubtract, Key::KeypadSubtract),
        (NamedKey::NumpadAdd, Key::KeypadAdd),
        (NamedKey::NumpadEnter, Key::KeypadEnter),
    ];
    for (key, symbol) in keys {
        assert_eq!(key.symbol(), Some(symbol));
    }
}

#[test]
fn keypad_delete_has_no_symbol() {
    assert_eq!(named(NamedKey::NumpadDelete).symbol(), None);
    assert_eq!(NamedKey::NumpadDelete.symbol(), None);
    assert_eq!(NamedKey::NumpadDelete.modifier(), None);
    assert_eq!(named(NamedKey::Period).symbol(), Some(Key::Period));
    assert_eq!(named(NamedKey::NumpadDecimal).symbol(), Some(Key::KeypadDecimal));
}

#[test]
fn no_two_keys_share_a_symbol() {
    let names = [
        NamedKey::LCtrl,
        NamedKey::RCtrl,
        NamedKey::Ctrl,
        NamedKey::LShift,
        NamedKey::RShift,
        NamedKey::Shift,
        NamedKey::LAlt,
        NamedKey::RAlt,
        NamedKey::Alt,
        NamedKey::LSuper,
        NamedKey::RSuper,
        NamedKey::Super,
        NamedKey::Tab,
        NamedKey::LeftArrow,
        NamedKey::RightArrow,
        NamedKey::UpArrow,
        NamedKey::DownArrow,
        NamedKey::PageUp,
        NamedKey::PageDown,
        NamedKey::Home,
        NamedKey::End,
        NamedKey::Insert,
        NamedKey::Delete,
        NamedKey::Backspace,
        NamedKey::Space,
        NamedKey::Enter,
        NamedKey::Escape,
        NamedKey::Menu,
        NamedKey::Key0,
        NamedKey::Key1,
        NamedKey::Key2,
        NamedKey::Key3,
        NamedKey::Key4,
        NamedKey::Key5,
        NamedKey::Key6,
        NamedKey::Key7,
        NamedKey::Key8,
        NamedKey::Key9,
        NamedKey::F1,
        NamedKey::F2,
        NamedKey::F3,
        NamedKey::F4,
        NamedKey::F5,
        NamedKey::F6,
        NamedKey::F7,
        NamedKey::F8,
        NamedKey::F9,
        NamedKey::F10,
        NamedKey::F11,
        NamedKey::F12,
        NamedKey::Minus,
        NamedKey::Period,
        NamedKey::Slash,
        NamedKey::CapsLock,
        NamedKey::ScrollLock,
        NamedKey::NumLock,
        NamedKey::PrintScreen,
        NamedKey::Pause,
        NamedKey::NumpadInsert,
        NamedKey::NumpadEnd,
        NamedKey::NumpadDownArrow,
        NamedKey::NumpadPageDown,
        NamedKey::NumpadLeftArrow,
        NamedKey::NumpadBegin,
        NamedKey::NumpadRightArrow,
        NamedKey::NumpadHome,
        NamedKey::NumpadUpArrow,
        NamedKey::NumpadPageUp,
        NamedKey::NumpadDelete,
        NamedKey::NumpadDecimal,
        NamedKey::NumpadDivide,
        NamedKey::NumpadMultiply,
        NamedKey::NumpadSubtract,
        NamedKey::NumpadAdd,
        NamedKey::NumpadEnter,
        NamedKey::Other,
    ];
    let mut keys: Vec<LogicalKey> = names.iter().map(|name| named(*name)).collect();
    for code in 0x20u8..0x7f {
        keys.push(character(&(code as char).to_string()));
    }
    let mapped: Vec<(LogicalKey, Key)> = keys
        .into_iter()
        .filter_map(|key| key.symbol().map(|symbol| (key, symbol)))
        .collect();
    assert_eq!(mapped.len(), 70 + 26 + 7);
    for (i, (first, first_symbol)) in mapped.iter().enumerate() {
        for (second, second_symbol) in mapped.iter().skip(i + 1) {
            assert_ne!(first, second);
            assert_ne!(first_symbol, second_symbol, "{:?} and {:?}", first, second);
        }
    }
}

#[test]
fn lower_case_letters() {
    let letters = [
        ("a", Key::A),
        ("b", Key::B),
        ("c", Key::C),
        ("d", Key::D),
        ("e", Key::E),
        ("f", Key::F),
        ("g", Key::G),
        ("h", Key::H),
        ("i", Key::I),
        ("j", Key::J),
        ("k", Key::K),
        ("l", Key::L),
        ("m", Key::M),
        ("n", Key::N),
        ("o", Key::O),
        ("p", Key::P),
        ("q", Key::Q),
        ("r", Key::R),
        ("s", Key::S),
        ("t", Key::T),
        ("u", Key::U),
        ("v", Key::V),
        ("w", Key::W),
        ("x", Key::X),
        ("y", Key::Y),
        ("z", Key::Z),
    ];
    for (text, symbol) in letters {
        assert_eq!(character(text).symbol(), Some(symbol));
    }
}

#[test]
fn punctuation_characters() {
    assert_eq!(character("'").symbol(), Some(Key::Apostrophe));
    assert_eq!(character(",").symbol(), Some(Key::Comma));
    assert_eq!(character(";").symbol(), Some(Key::Semicolon));
    assert_eq!(character("=").symbol(), Some(Key::Equal));
    assert_eq!(character("[").symbol(), Some(Key::LeftBracket));
    assert_eq!(character("\\").symbol(), Some(Key::Backslash));
    assert_eq!(character("]").symbol(), Some(Key::RightBracket));
}

#[test]
fn characters_without_an_entry() {
    assert_eq!(character("A").symbol(), None);
    assert_eq!(character("1").symbol(), None);
    assert_eq!(character("-").symbol(), None);
    assert_eq!(character(".").symbol(), None);
    assert_eq!(character("/").symbol(), None);
    assert_eq!(character("`").symbol(), None);
    assert_eq!(character("é").symbol(), None);
    assert_eq!(character("").symbol(), None);
    assert_eq!(character("ab").symbol(), None);
    assert_eq!(character("a ").symbol(), None);
}

#[test]
fn named_keys_without_an_entry() {
    assert_eq!(named(NamedKey::Other).symbol(), None);
    assert_eq!(named(NamedKey::Ctrl).symbol(), None);
}
