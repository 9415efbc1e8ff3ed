use hostbroker::ops::Operation;
use hostbroker::ops::parse_operation;

#[test]
fn every_operation_name_on_the_command_surface_is_routed() {
    let cases: Vec<(&str, Operation)> = vec![
        ("move_mouse", Operation::MoveMouse),
        ("click_mouse", Operation::ClickMouse),
        ("get_mouse_position", Operation::GetMousePosition),
        ("type_text", Operation::TypeText),
        ("press_key", Operation::PressKey),
        ("read_file", Operation::ReadFile),
        ("write_file", Operation::WriteFile),
        ("list_directory", Operation::ListDirectory),
        ("download_file", Operation::DownloadFile),
        ("search_web", Operation::SearchWeb),
        ("execute_python", Operation::ExecutePython),
        ("execute_powershell", Operation::ExecutePowershell),
        ("install_python_package", Operation::InstallPythonPackage),
        ("execute_shell", Operation::ExecuteShell),
    ];
    for (name, want) in cases {
        assert_eq!(parse_operation(name), Some(want));
    }
}

#[test]
fn names_outside_the_command_surface_are_not_routed() {
    assert_eq!(parse_operation(""), None);
    assert_eq!(parse_operation("reboot"), None);
    assert_eq!(parse_operation("Move_Mouse"), None);
    assert_eq!(parse_operation("move_mouse "), None);
}
