use vstd::prelude::*;
use crate::errors::BrokerError;
use crate::numfmt::dec_int;
use crate::numfmt::fmt_i32;
use crate::textutil::str_eq;

verus! {

/// A pointer button: the closed set of values `click_mouse` accepts.
#[derive(Debug, PartialEq, Eq)]
pub enum MouseButton {
    Left,
    Right,
    Middle,
}

/// A key: the closed set of names `press_key` accepts. The mapping from
/// name to platform key code is a fixed table, not extensible at runtime.
#[derive(Debug, PartialEq, Eq)]
pub enum KeyName {
    Enter,
    Space,
    Tab,
    Escape,
    Backspace,
    Delete,
    Up,
    Down,
    Left,
    Right,
}

/// Which button, if any, a button name denotes.
pub open spec fn spec_parse_button(s: Seq<char>) -> Option<MouseButton> {
    if s == "left"@ {
        Some(MouseButton::Left)
    } else if s == "right"@ {
        Some(MouseButton::Right)
    } else if s == "middle"@ {
        Some(MouseButton::Middle)
    } else {
        None
    }
}

/// The closed set of accepted button names.
pub open spec fn button_names() -> Set<Seq<char>> {
    set!["left"@, "right"@, "middle"@]
}

/// A button name is accepted exactly when it lies in the closed set.
pub proof fn lemma_button_closed_set(s: Seq<char>)
    ensures
        spec_parse_button(s) is Some <==> button_names().contains(s),
{
}

/// Which key, if any, a key name denotes.
pub open spec fn spec_parse_key(s: Seq<char>) -> Option<KeyName> {
    if s == "enter"@ {
        Some(KeyName::Enter)
    } else if s == "space"@ {
        Some(KeyName::Space)
    } else if s == "tab"@ {
        Some(KeyName::Tab)
    } else if s == "escape"@ {
        Some(KeyName::Escape)
    } else if s == "backspace"@ {
        Some(KeyName::Backspace)
    } else if s == "delete"@ {
        Some(KeyName::Delete)
    } else if s == "up"@ {
        Some(KeyName::Up)
    } else if s == "down"@ {
        Some(KeyName::Down)
    } else if s == "left"@ {
        Some(KeyName::Left)
    } else if s == "right"@ {
        Some(KeyName::Right)
    } else {
        None
    }
}

/// The closed set of accepted key names.
pub open spec fn key_names() -> Set<Seq<char>> {
    set![
        "enter"@,
        "space"@,
        "tab"@,
        "escape"@,
        "backspace"@,
        "delete"@,
        "up"@,
        "down"@,
        "left"@,
        "right"@,
    ]
}

/// A key name is accepted exactly when it lies in the closed set.
pub proof fn lemma_key_closed_set(s: Seq<char>)
    ensures
        spec_parse_key(s) is Some <==> key_names().contains(s),
{
}

/// Resolves a button name against the closed set.
pub fn parse_button(name: &str) -> (r: Option<MouseButton>)
    ensures
        r == spec_parse_button(name@),
{
    if str_eq(name, "left") {
        Some(MouseButton::Left)
    } else if str_eq(name, "right") {
        Some(MouseButton::Right)
    } else if str_eq(name, "middle") {
        Some(MouseButton::Middle)
    } else {
        None
    }
}

/// Resolves a key name against the closed set.
pub fn parse_key(name: &str) -> (r: Option<KeyName>)
    ensures
        r == spec_parse_key(name@),
{
    if str_eq(name, "enter") {
        Some(KeyName::Enter)
    } else if str_eq(name, "space") {
        Some(KeyName::Space)
    } else if str_eq(name, "tab") {
        Some(KeyName::Tab)
    } else if str_eq(name, "escape") {
        Some(KeyName::Escape)
    } else if str_eq(name, "backspace") {
        Some(KeyName::Backspace)
    } else if str_eq(name, "delete") {
        Some(KeyName::Delete)
    } else if str_eq(name, "up") {
        Some(KeyName::Up)
    } else if str_eq(name, "down") {
        Some(KeyName::Down)
    } else if str_eq(name, "left") {
        Some(KeyName::Left)
    } else if str_eq(name, "right") {
        Some(KeyName::Right)
    } else {
        None
    }
}

#[verifier::external_type_specification]
#[verifier::external_body]
pub struct ExEnigo(enigo::Enigo);

/// Relies on enigo::Enigo::new: opens a fresh handle to the OS input
/// subsystem. Whether it succeeds depends on the host, so nothing is
/// promised of the result.
#[verifier::external_body]
fn device_open() -> Result<enigo::Enigo, String> {
    enigo::Enigo::new(&enigo::Settings::default()).map_err(|e| e.to_string())
}

/// Relies on enigo::Mouse::move_mouse with absolute coordinates: asks the
/// host to move the pointer; acceptance depends on the host.
#[verifier::external_body]
fn device_move(device: &mut enigo::Enigo, x: i32, y: i32) -> Result<(), String> {
    enigo::Mouse::move_mouse(device, x, y, enigo::Coordinate::Abs).map_err(|e| e.to_string())
}

/// Relies on enigo::Mouse::button: presses and releases the given button.
#[verifier::external_body]
fn device_click(device: &mut enigo::Enigo, button: &MouseButton) -> Result<(), String> {
    let b = match button {
        MouseButton::Left => enigo::Button::Left,
        MouseButton::Right => enigo::Button::Right,
        MouseButton::Middle => enigo::Button::Middle,
    };
    enigo::Mouse::button(device, b, enigo::Direction::Click).map_err(|e| e.to_string())
}

/// Relies on enigo::Mouse::location: reports where the pointer is at the
/// moment of the call, a fact of the host alone.
#[verifier::external_body]
fn device_location(device: &enigo::Enigo) -> Result<(i32, i32), String> {
    enigo::Mouse::location(device).map_err(|e| e.to_string())
}

/// Relies on enigo::Keyboard::text: injects the text as key events,
/// verbatim, with no escaping or rate limiting.
#[verifier::external_body]
fn device_text(device: &mut enigo::Enigo, text: &str) -> Result<(), String> {
    enigo::Keyboard::text(device, text).map_err(|e| e.to_string())
}

/// Relies on enigo::Keyboard::key: presses and releases the given key,
/// mapped to its platform key code by a fixed table.
#[verifier::external_body]
fn device_press(device: &mut enigo::Enigo, key: &KeyName) -> Result<(), String> {
    let k = match key {
        KeyName::Enter => enigo::Key::Return,
        KeyName::Space => enigo::Key::Space,
        KeyName::Tab => enigo::Key::Tab,
        KeyName::Escape => enigo::Key::Escape,
        KeyName::Backspace => enigo::Key::Backspace,
        KeyName::Delete => enigo::Key::Delete,
        KeyName::Up => enigo::Key::UpArrow,
        KeyName::Down => enigo::Key::DownArrow,
        KeyName::Left => enigo::Key::LeftArrow,
        KeyName::Right => enigo::Key::RightArrow,
    };
    enigo::Keyboard::key(device, k, enigo::Direction::Click).map_err(|e| e.to_string())
}

/// The confirmation after a pointer move.
pub open spec fn mouse_moved_text(x: int, y: int) -> Seq<char> {
    "Mouse moved to ("@ + dec_int(x) + ", "@ + dec_int(y) + ")"@
}

/// The confirmation after a click, echoing the button name.
pub open spec fn clicked_text(button: Seq<char>) -> Seq<char> {
    "Clicked "@ + button + " mouse button"@
}

/// The confirmation after injected text, echoing the text.
pub open spec fn typed_text(text: Seq<char>) -> Seq<char> {
    "Typed: "@ + text
}

/// The confirmation after a key press, echoing the key name.
pub open spec fn pressed_text(key: Seq<char>) -> Seq<char> {
    "Pressed key: "@ + key
}

/// Moves the pointer to the absolute coordinates and confirms with the
/// coordinates echoed in decimal.
pub fn move_mouse(x: i32, y: i32) -> (r: Result<String, BrokerError>)
    ensures
        (match r {
            Ok(m) => m@ == mouse_moved_text(x as int, y as int),
            Err(e) => e is DeviceError,
        }),
{
    match device_open() {
        Err(e) => Err(BrokerError::DeviceError(e)),
        Ok(mut device) => match device_move(&mut device, x, y) {
            Err(e) => Err(BrokerError::DeviceError(e)),
            Ok(_) => Ok(
                String::from_str("Mouse moved to (").concat(fmt_i32(x).as_str()).concat(
                    ", ",
                ).concat(fmt_i32(y).as_str()).concat(")"),
            ),
        },
    }
}

/// Validates the button name against its closed set, then clicks it. An
/// unrecognized name is rejected before the input subsystem is touched.
pub fn click_mouse(button: String) -> (r: Result<String, BrokerError>)
    ensures
        spec_parse_button(button@) is None ==> (r matches Err(BrokerError::InvalidArgument(m))
            && m@ == "Invalid button"@),
        spec_parse_button(button@) is Some ==> (match r {
            Ok(m) => m@ == clicked_text(button@),
            Err(e) => e is DeviceError,
        }),
{
    match parse_button(button.as_str()) {
        None => Err(BrokerError::InvalidArgument(String::from_str("Invalid button"))),
        Some(b) => match device_open() {
            Err(e) => Err(BrokerError::DeviceError(e)),
            Ok(mut device) => match device_click(&mut device, &b) {
                Err(e) => Err(BrokerError::DeviceError(e)),
                Ok(_) => Ok(
                    String::from_str("Clicked ").concat(button.as_str()).concat(" mouse button"),
                ),
            },
        },
    }
}

/// Queries the current pointer location.
pub fn get_mouse_position() -> (r: Result<(i32, i32), BrokerError>)
    ensures
        r matches Err(e) ==> e is DeviceError,
{
    match device_open() {
        Err(e) => Err(BrokerError::DeviceError(e)),
        Ok(device) => match device_location(&device) {
            Err(e) => Err(BrokerError::DeviceError(e)),
            Ok(p) => Ok(p),
        },
    }
}

/// Injects the text as key events and confirms with the text echoed.
pub fn type_text(text: String) -> (r: Result<String, BrokerError>)
    ensures
        (match r {
            Ok(m) => m@ == typed_text(text@),
            Err(e) => e is DeviceError,
        }),
{
    match device_open() {
        Err(e) => Err(BrokerError::DeviceError(e)),
        Ok(mut device) => match device_text(&mut device, text.as_str()) {
            Err(e) => Err(BrokerError::DeviceError(e)),
            Ok(_) => Ok(String::from_str("Typed: ").concat(text.as_str())),
        },
    }
}

/// Validates the key name against its closed set, then presses it. An
/// unrecognized name is rejected before the input subsystem is touched.
pub fn press_key(key: String) -> (r: Result<String, BrokerError>)
    ensures
        spec_parse_key(key@) is None ==> (r matches Err(BrokerError::InvalidArgument(m)) && m@
            == "Invalid key"@),
        spec_parse_key(key@) is Some ==> (match r {
            Ok(m) => m@ == pressed_text(key@),
            Err(e) => e is DeviceError,
        }),
{
    match parse_key(key.as_str()) {
        None => Err(BrokerError::InvalidArgument(String::from_str("Invalid key"))),
        Some(k) => match device_open() {
            Err(e) => Err(BrokerError::DeviceError(e)),
            Ok(mut device) => match device_press(&mut device, &k) {
                Err(e) => Err(BrokerError::DeviceError(e)),
                Ok(_) => Ok(String::from_str("Pressed key: ").concat(key.as_str())),
            },
        },
    }
}

} // verus!
