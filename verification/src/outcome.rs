use vstd::prelude::*;
use crate::errors::BrokerError;

verus! {

/// The raw result of one spawned process, before normalization: whether it
/// exited successfully, and the full captured output streams as text.
pub struct ExecOutcome {
    pub success: bool,
    pub stdout: String,
    pub stderr: String,
}

/// A finished process counts as failed only when it exited non-zero *and*
/// wrote to its error stream. Diagnostics on a zero-exit run are warnings,
/// never a failure: interpreters routinely emit them on success.
pub open spec fn run_failed(success: bool, stderr: Seq<char>) -> bool {
    !success && stderr.len() != 0
}

/// Output ordering on success: stdout first, then the separator and the
/// error stream, the latter two only when the error stream is non-empty.
pub open spec fn merged_output(
    stdout: Seq<char>,
    stderr: Seq<char>,
    separator: Seq<char>,
) -> Seq<char> {
    if stderr.len() == 0 {
        stdout
    } else {
        stdout + separator + stderr
    }
}

/// The shared normalization policy applied to every finished process: a
/// failed run reports the error stream behind an operation-specific prefix;
/// any other run succeeds with the merged output.
pub open spec fn normalized(
    success: bool,
    stdout: Seq<char>,
    stderr: Seq<char>,
    error_prefix: Seq<char>,
    separator: Seq<char>,
) -> Result<Seq<char>, Seq<char>> {
    if run_failed(success, stderr) {
        Err(error_prefix + stderr)
    } else {
        Ok(merged_output(stdout, stderr, separator))
    }
}

/// A process that exited successfully is never reported as a failure,
/// whatever it wrote to its error stream.
pub proof fn lemma_zero_exit_never_fails(
    stdout: Seq<char>,
    stderr: Seq<char>,
    error_prefix: Seq<char>,
    separator: Seq<char>,
)
    ensures
        normalized(true, stdout, stderr, error_prefix, separator) is Ok,
{
}

/// A run with an empty error stream can only succeed, and reports its
/// stdout verbatim: no prefix, separator or warning text is ever added.
pub proof fn lemma_empty_stderr_verbatim(
    success: bool,
    stdout: Seq<char>,
    error_prefix: Seq<char>,
    separator: Seq<char>,
)
    ensures
        normalized(success, stdout, Seq::empty(), error_prefix, separator) == Ok::<
            Seq<char>,
            Seq<char>,
        >(stdout),
{
}

/// Applies the shared policy to one outcome.
fn normalize(outcome: &ExecOutcome, error_prefix: &str, separator: &str) -> (r: Result<
    String,
    String,
>)
    ensures
        (match r {
            Ok(m) => normalized(
                outcome.success,
                outcome.stdout@,
                outcome.stderr@,
                error_prefix@,
                separator@,
            ) == Ok::<Seq<char>, Seq<char>>(m@),
            Err(e) => normalized(
                outcome.success,
                outcome.stdout@,
                outcome.stderr@,
                error_prefix@,
                separator@,
            ) == Err::<Seq<char>, Seq<char>>(e@),
        }),
{
    if outcome.stderr.as_str().is_empty() {
        Ok(outcome.stdout.clone())
    } else if !outcome.success {
        Err(String::from_str(error_prefix).concat(outcome.stderr.as_str()))
    } else {
        Ok(outcome.stdout.clone().concat(separator).concat(outcome.stderr.as_str()))
    }
}

/// The reason reported when the Python interpreter could not be spawned.
pub open spec fn python_spawn_text(reason: Seq<char>) -> Seq<char> {
    "Failed to execute Python: "@ + reason + ". Is Python installed?"@
}

/// The reason reported when PowerShell could not be spawned.
pub open spec fn powershell_spawn_text(reason: Seq<char>) -> Seq<char> {
    "Failed to execute PowerShell: "@ + reason
}

/// The reason reported when the package installer could not be spawned.
pub open spec fn pip_spawn_text(reason: Seq<char>) -> Seq<char> {
    "Failed to install package: "@ + reason + ". Is pip installed?"@
}

/// The reason reported when an arbitrary executable could not be spawned.
pub open spec fn shell_spawn_text(reason: Seq<char>) -> Seq<char> {
    "Failed to execute: "@ + reason
}

/// What an interpreter run reports: success carries stdout plus a warnings
/// section when the error stream spoke; failure carries the error stream
/// behind the interpreter's prefix.
pub open spec fn interpreter_normalized(out: ExecOutcome, error_prefix: Seq<char>) -> Result<
    Seq<char>,
    Seq<char>,
> {
    normalized(out.success, out.stdout@, out.stderr@, error_prefix, "\nWarnings:\n"@)
}

/// Reduces a Python run to its normalized result. A spawn failure becomes
/// `SpawnError`; a run that failed (non-zero exit with a non-empty error
/// stream) becomes `ExecutionFailure`; anything else succeeds with stdout
/// plus a warnings section when the error stream spoke.
pub fn python_result(spawned: Result<ExecOutcome, String>) -> (r: Result<String, BrokerError>)
    ensures
        (match spawned {
            Err(reason) => r matches Err(BrokerError::SpawnError(m)) && m@ == python_spawn_text(
                reason@,
            ),
            Ok(out) => (match r {
                Ok(m) => interpreter_normalized(out, "Python Error:\n"@) == Ok::<
                    Seq<char>,
                    Seq<char>,
                >(m@),
                Err(e) => e matches BrokerError::ExecutionFailure(m) && interpreter_normalized(
                    out,
                    "Python Error:\n"@,
                ) == Err::<Seq<char>, Seq<char>>(m@),
            }),
        }),
{
    match spawned {
        Err(reason) => Err(
            BrokerError::SpawnError(
                String::from_str("Failed to execute Python: ").concat(reason.as_str()).concat(
                    ". Is Python installed?",
                ),
            ),
        ),
        Ok(out) => match normalize(&out, "Python Error:\n", "\nWarnings:\n") {
            Ok(m) => Ok(m),
            Err(e) => Err(BrokerError::ExecutionFailure(e)),
        },
    }
}

/// Reduces a PowerShell run to its normalized result, under the same
/// policy as a Python run but with PowerShell's messages.
pub fn powershell_result(spawned: Result<ExecOutcome, String>) -> (r: Result<String, BrokerError>)
    ensures
        (match spawned {
            Err(reason) => r matches Err(BrokerError::SpawnError(m)) && m@
                == powershell_spawn_text(reason@),
            Ok(out) => (match r {
                Ok(m) => interpreter_normalized(out, "PowerShell Error:\n"@) == Ok::<
                    Seq<char>,
                    Seq<char>,
                >(m@),
                Err(e) => e matches BrokerError::ExecutionFailure(m) && interpreter_normalized(
                    out,
                    "PowerShell Error:\n"@,
                ) == Err::<Seq<char>, Seq<char>>(m@),
            }),
        }),
{
    match spawned {
        Err(reason) => Err(
            BrokerError::SpawnError(
                String::from_str("Failed to execute PowerShell: ").concat(reason.as_str()),
            ),
        ),
        Ok(out) => match normalize(&out, "PowerShell Error:\n", "\nWarnings:\n") {
            Ok(m) => Ok(m),
            Err(e) => Err(BrokerError::ExecutionFailure(e)),
        },
    }
}

/// Reduces a package-install run to its result. A finished run always
/// succeeds and reports both streams, stdout first, joined by one newline,
/// whatever the exit status: the installer's own output is the report.
pub fn pip_result(spawned: Result<ExecOutcome, String>) -> (r: Result<String, BrokerError>)
    ensures
        (match spawned {
            Err(reason) => r matches Err(BrokerError::SpawnError(m)) && m@ == pip_spawn_text(
                reason@,
            ),
            Ok(out) => r matches Ok(m) && m@ == out.stdout@ + "\n"@ + out.stderr@,
        }),
{
    match spawned {
        Err(reason) => Err(
            BrokerError::SpawnError(
                String::from_str("Failed to install package: ").concat(reason.as_str()).concat(
                    ". Is pip installed?",
                ),
            ),
        ),
        Ok(out) => Ok(out.stdout.clone().concat("\n").concat(out.stderr.as_str())),
    }
}

/// Reduces an arbitrary command run to its normalized result. The policy
/// is the shared one; on success a non-empty error stream is appended
/// after a bare newline rather than a warnings heading.
pub fn shell_result(spawned: Result<ExecOutcome, String>) -> (r: Result<String, BrokerError>)
    ensures
        (match spawned {
            Err(reason) => r matches Err(BrokerError::SpawnError(m)) && m@ == shell_spawn_text(
                reason@,
            ),
            Ok(out) => (match r {
                Ok(m) => normalized(out.success, out.stdout@, out.stderr@, "Error:\n"@, "\n"@)
                    == Ok::<Seq<char>, Seq<char>>(m@),
                Err(e) => e matches BrokerError::ExecutionFailure(m) && normalized(
                    out.success,
                    out.stdout@,
                    out.stderr@,
                    "Error:\n"@,
                    "\n"@,
                ) == Err::<Seq<char>, Seq<char>>(m@),
            }),
        }),
{
    match spawned {
        Err(reason) => Err(
            BrokerError::SpawnError(String::from_str("Failed to execute: ").concat(reason.as_str())),
        ),
        Ok(out) => match normalize(&out, "Error:\n", "\n") {
            Ok(m) => Ok(m),
            Err(e) => Err(BrokerError::ExecutionFailure(e)),
        },
    }
}

} // verus!
