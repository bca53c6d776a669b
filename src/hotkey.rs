use vstd::prelude::*;
use crate::config::FunctionKey;

verus! {

/// The category tag of every hotkey event.
pub const KEY_PRESS_CATEGORY: &'static str = "KeyPress";

/// A key, as far as hotkeys care.
#[derive(Clone, Copy, Debug, PartialEq, Eq, Structural)]
pub enum Key {
    Function(FunctionKey),
    Other,
}

/// One event of the global input stream.
#[derive(Clone, Copy, Debug, PartialEq, Eq, Structural)]
pub enum InputEvent {
    KeyPress(Key),
    KeyRelease(Key),
    Other,
}

/// What is handed to the emitter: a category tag and a key label.
pub struct HotkeyEvent {
    pub category: String,
    pub label: String,
}

pub open spec fn label_spec(k: FunctionKey) -> Seq<char> {
    match k {
        FunctionKey::F1 => "F1"@,
        FunctionKey::F2 => "F2"@,
        FunctionKey::F3 => "F3"@,
        FunctionKey::F4 => "F4"@,
        FunctionKey::F5 => "F5"@,
        FunctionKey::F6 => "F6"@,
        FunctionKey::F7 => "F7"@,
        FunctionKey::F8 => "F8"@,
        FunctionKey::F9 => "F9"@,
        FunctionKey::F10 => "F10"@,
        FunctionKey::F11 => "F11"@,
        FunctionKey::F12 => "F12"@,
    }
}

/// The function key that a press event is about, if any.
pub open spec fn pressed_function_key(e: InputEvent) -> Option<FunctionKey> {
    match e {
        InputEvent::KeyPress(Key::Function(k)) => Some(k),
        _ => None,
    }
}

impl FunctionKey {
    /// The key's label, `F1` to `F12`.
    pub fn label(&self) -> (r: String)
        ensures
            r@ == label_spec(*self),
    {
        match self {
            FunctionKey::F1 => String::from_str("F1"),
            FunctionKey::F2 => String::from_str("F2"),
            FunctionKey::F3 => String::from_str("F3"),
            FunctionKey::F4 => String::from_str("F4"),
            FunctionKey::F5 => String::from_str("F5"),
            FunctionKey::F6 => String::from_str("F6"),
            FunctionKey::F7 => String::from_str("F7"),
            FunctionKey::F8 => String::from_str("F8"),
            FunctionKey::F9 => String::from_str("F9"),
            FunctionKey::F10 => String::from_str("F10"),
            FunctionKey::F11 => String::from_str("F11"),
            FunctionKey::F12 => String::from_str("F12"),
        }
    }
}

/// Maps one input event: a press of a function key becomes an event
/// with the key-press tag and the key's label; every other event is ignored.
pub fn callback(event: InputEvent) -> (r: Option<HotkeyEvent>)
    ensures
        r is Some <==> pressed_function_key(event) is Some,
        r matches Some(h) ==> h.category@ == KEY_PRESS_CATEGORY@ && h.label@ == label_spec(
            pressed_function_key(event)->Some_0,
        ),
{
    match event {
        InputEvent::KeyPress(Key::Function(k)) => Some(
            HotkeyEvent { category: String::from_str(KEY_PRESS_CATEGORY), label: k.label() },
        ),
        _ => None,
    }
}

} // verus!
