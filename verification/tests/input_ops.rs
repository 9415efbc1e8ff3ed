use hostbroker::device::KeyName;
use hostbroker::device::MouseButton;
use hostbroker::device::click_mouse;
use hostbroker::device::get_mouse_position;
use hostbroker::device::move_mouse;
use hostbroker::device::parse_button;
use hostbroker::device::parse_key;
use hostbroker::device::press_key;
use hostbroker::errors::BrokerError;

#[test]
fn every_button_name_in_the_closed_set_is_accepted() {
    assert_eq!(parse_button("left"), Some(MouseButton::Left));
    assert_eq!(parse_button("right"), Some(MouseButton::Right));
    assert_eq!(parse_button("middle"), Some(MouseButton::Middle));
}

#[test]
fn button_names_outside_the_closed_set_are_rejected() {
    assert_eq!(parse_button(""), None);
    assert_eq!(parse_button("Left"), None);
    assert_eq!(parse_button("double"), None);
    assert_eq!(parse_button("left "), None);
}

#[test]
fn every_key_name_in_the_closed_set_is_accepted() {
    assert_eq!(parse_key("enter"), Some(KeyName::Enter));
    assert_eq!(parse_key("space"), Some(KeyName::Space));
    assert_eq!(parse_key("tab"), Some(KeyName::Tab));
    assert_eq!(parse_key("escape"), Some(KeyName::Escape));
    assert_eq!(parse_key("backspace"), Some(KeyName::Backspace));
    assert_eq!(parse_key("delete"), Some(KeyName::Delete));
    assert_eq!(parse_key("up"), Some(KeyName::Up));
    assert_eq!(parse_key("down"), Some(KeyName::Down));
    assert_eq!(parse_key("left"), Some(KeyName::Left));
    assert_eq!(parse_key("right"), Some(KeyName::Right));
}

#[test]
fn key_names_outside_the_closed_set_are_rejected() {
    assert_eq!(parse_key(""), None);
    assert_eq!(parse_key("Enter"), None);
    assert_eq!(parse_key("return"), None);
    assert_eq!(parse_key("f1"), None);
}

#[test]
fn invalid_button_fails_before_any_device_call() {
    let e = click_mouse("bogus".to_string()).unwrap_err();
    match e {
        BrokerError::InvalidArgument(m) => assert_eq!(m, "Invalid button"),
        other => panic!("unexpected error: {:?}", other),
    }
}

#[test]
fn invalid_key_fails_before_any_device_call() {
    let e = press_key("bogus".to_string()).unwrap_err();
    match e {
        BrokerError::InvalidArgument(m) => assert_eq!(m, "Invalid key"),
        other => panic!("unexpected error: {:?}", other),
    }
}

#[test]
fn move_mouse_confirms_or_reports_the_device() {
    match move_mouse(10, 20) {
        Ok(m) => assert_eq!(m, "Mouse moved to (10, 20)"),
        Err(BrokerError::DeviceError(_)) => {}
        Err(other) => panic!("unexpected error: {:?}", other),
    }
}

#[test]
fn position_query_reports_the_device_on_failure() {
    match get_mouse_position() {
        Ok(_) => {}
        Err(BrokerError::DeviceError(_)) => {}
        Err(other) => panic!("unexpected error: {:?}", other),
    }
}

#[test]
fn valid_click_confirms_or_reports_the_device() {
    match click_mouse("left".to_string()) {
        Ok(m) => assert_eq!(m, "Clicked left mouse button"),
        Err(BrokerError::DeviceError(_)) => {}
        Err(other) => panic!("unexpected error: {:?}", other),
    }
}
