use vstd::prelude::*;
use crate::errors::BrokerError;

verus! {

/// The fixed name of the transient file that holds submitted Python
/// source for the duration of one run. The name is shared by every run of
/// the same interpreter, so concurrent runs race on it; the file is
/// removed after the interpreter exits, on success and on failure alike.
pub fn python_script_name() -> (r: String)
    ensures
        r@ == "jarvis_temp.py"@,
{
    String::from_str("jarvis_temp.py")
}

/// The command line that runs submitted Python source: the interpreter
/// name, with the script path as sole argument.
pub fn python_invocation(script_path: String) -> (r: (String, Vec<String>))
    ensures
        r.0@ == "python"@,
        r.1@.len() == 1,
        r.1@[0]@ == script_path@,
{
    let mut args: Vec<String> = Vec::new();
    args.push(script_path);
    (String::from_str("python"), args)
}

/// The command line that runs submitted PowerShell source: the source is
/// handed over inline, behind the interpreter's command flag.
pub fn powershell_invocation(code: String) -> (r: (String, Vec<String>))
    ensures
        r.0@ == "powershell"@,
        r.1@.len() == 2,
        r.1@[0]@ == "-Command"@,
        r.1@[1]@ == code@,
{
    let mut args: Vec<String> = Vec::new();
    args.push(String::from_str("-Command"));
    args.push(code);
    (String::from_str("powershell"), args)
}

/// The command line that installs a Python package.
pub fn pip_invocation(package: String) -> (r: (String, Vec<String>))
    ensures
        r.0@ == "pip"@,
        r.1@.len() == 2,
        r.1@[0]@ == "install"@,
        r.1@[1]@ == package@,
{
    let mut args: Vec<String> = Vec::new();
    args.push(String::from_str("install"));
    args.push(package);
    (String::from_str("pip"), args)
}

/// The error reported when the transient script file could not be
/// written, so the interpreter was never started.
pub fn script_write_failure(reason: String) -> (r: BrokerError)
    ensures
        (r matches BrokerError::IoError(m) && m@ == "Failed to write temp file: "@ + reason@),
{
    BrokerError::IoError(String::from_str("Failed to write temp file: ").concat(reason.as_str()))
}

} // verus!
