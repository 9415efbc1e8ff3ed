use vstd::prelude::*;
use crate::textutil::str_eq;

verus! {

/// The command surface: the closed set of named operations the broker
/// routes. A request names exactly one of these; any other name is
/// rejected before parameters are even looked at.
#[derive(Debug, PartialEq, Eq)]
pub enum Operation {
    MoveMouse,
    ClickMouse,
    GetMousePosition,
    TypeText,
    PressKey,
    ReadFile,
    WriteFile,
    ListDirectory,
    DownloadFile,
    SearchWeb,
    ExecutePython,
    ExecutePowershell,
    InstallPythonPackage,
    ExecuteShell,
}

/// Which operation, if any, a request name denotes.
pub open spec fn spec_parse_operation(s: Seq<char>) -> Option<Operation> {
    if s == "move_mouse"@ {
        Some(Operation::MoveMouse)
    } else if s == "click_mouse"@ {
        Some(Operation::ClickMouse)
    } else if s == "get_mouse_position"@ {
        Some(Operation::GetMousePosition)
    } else if s == "type_text"@ {
        Some(Operation::TypeText)
    } else if s == "press_key"@ {
        Some(Operation::PressKey)
    } else if s == "read_file"@ {
        Some(Operation::ReadFile)
    } else if s == "write_file"@ {
        Some(Operation::WriteFile)
    } else if s == "list_directory"@ {
        Some(Operation::ListDirectory)
    } else if s == "download_file"@ {
        Some(Operation::DownloadFile)
    } else if s == "search_web"@ {
        Some(Operation::SearchWeb)
    } else if s == "execute_python"@ {
        Some(Operation::ExecutePython)
    } else if s == "execute_powershell"@ {
        Some(Operation::ExecutePowershell)
    } else if s == "install_python_package"@ {
        Some(Operation::InstallPythonPackage)
    } else if s == "execute_shell"@ {
        Some(Operation::ExecuteShell)
    } else {
        None
    }
}

/// The closed set of request names the broker routes.
pub open spec fn operation_names() -> Set<Seq<char>> {
    set![
        "move_mouse"@,
        "click_mouse"@,
        "get_mouse_position"@,
        "type_text"@,
        "press_key"@,
        "read_file"@,
        "write_file"@,
        "list_directory"@,
        "download_file"@,
        "search_web"@,
        "execute_python"@,
        "execute_powershell"@,
        "install_python_package"@,
        "execute_shell"@,
    ]
}

/// A request name is routed exactly when it lies in the closed set.
pub proof fn lemma_operation_closed_set(s: Seq<char>)
    ensures
        spec_parse_operation(s) is Some <==> operation_names().contains(s),
{
}

/// Resolves a request name against the command surface.
pub fn parse_operation(name: &str) -> (r: Option<Operation>)
    ensures
        r == spec_parse_operation(name@),
{
    if str_eq(name, "move_mouse") {
        Some(Operation::MoveMouse)
    } else if str_eq(name, "click_mouse") {
        Some(Operation::ClickMouse)
    } else if str_eq(name, "get_mouse_position") {
        Some(Operation::GetMousePosition)
    } else if str_eq(name, "type_text") {
        Some(Operation::TypeText)
    } else if str_eq(name, "press_key") {
        Some(Operation::PressKey)
    } else if str_eq(name, "read_file") {
        Some(Operation::ReadFile)
    } else if str_eq(name, "write_file") {
        Some(Operation::WriteFile)
    } else if str_eq(name, "list_directory") {
        Some(Operation::ListDirectory)
    } else if str_eq(name, "download_file") {
        Some(Operation::DownloadFile)
    } else if str_eq(name, "search_web") {
        Some(Operation::SearchWeb)
    } else if str_eq(name, "execute_python") {
        Some(Operation::ExecutePython)
    } else if str_eq(name, "execute_powershell") {
        Some(Operation::ExecutePowershell)
    } else if str_eq(name, "install_python_package") {
        Some(Operation::InstallPythonPackage)
    } else if str_eq(name, "execute_shell") {
        Some(Operation::ExecuteShell)
    } else {
        None
    }
}

} // verus!
