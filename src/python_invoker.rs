use vstd::prelude::*;
use crate::text::{opt_int_text, render_opt_i32};

verus! {

/// Why a script could not be run, or how it failed.
#[derive(Debug)]
pub enum PythonInvokerError {
    /// The interpreter could not be started.
    CommandError(String),
    /// The script ran and exited with a failure status.
    ScriptError(String),
}

/// The text that describes an invoker error.
pub open spec fn invoker_error_text(e: PythonInvokerError) -> Seq<char> {
    match e {
        PythonInvokerError::CommandError(m) => "Failed to execute Python script: "@ + m@,
        PythonInvokerError::ScriptError(m) => "Script execution failed: "@ + m@,
    }
}

impl PythonInvokerError {
    /// The text that describes this error.
    pub fn message(&self) -> (r: String)
        ensures
            r@ == invoker_error_text(*self),
    {
        match self {
            PythonInvokerError::CommandError(m) => String::from_str("Failed to execute Python script: ").concat(m.as_str()),
            PythonInvokerError::ScriptError(m) => String::from_str("Script execution failed: ").concat(m.as_str()),
        }
    }
}

/// What a finished script left behind.
#[derive(Debug)]
pub struct PythonScriptResult {
    pub stdout: String,
    pub stderr: String,
    pub exit_code: Option<i32>,
}

/// The report of a run: its exit code, standard output and standard error.
pub open spec fn run_report(exit_code: Option<i32>, stdout: Seq<char>, stderr: Seq<char>) -> Seq<char> {
    "Exit Code: "@ + opt_int_text(exit_code) + "\nStdout: "@ + stdout + "\nStderr: "@ + stderr
}

/// Renders the report of a run.
pub fn render_run_report(exit_code: Option<i32>, stdout: &str, stderr: &str) -> (r: String)
    ensures
        r@ == run_report(exit_code, stdout@, stderr@),
{
    let r = String::from_str("Exit Code: ")
        .concat(render_opt_i32(exit_code).as_str())
        .concat("\nStdout: ")
        .concat(stdout)
        .concat("\nStderr: ")
        .concat(stderr);
    r
}

/// Runs scripts through a Python interpreter; it holds no state.
#[derive(Debug, Clone, Copy)]
pub struct PythonInvoker;

impl PythonInvoker {
    pub fn new() -> (r: Self) {
        PythonInvoker
    }

    /// Judges a finished run. A run succeeds exactly when it exited with status 0;
    /// any other end is a script error whose text is the run's report.
    pub fn finish_run(&self, stdout: String, stderr: String, exit_code: Option<i32>) -> (r: Result<
        PythonScriptResult,
        PythonInvokerError,
    >)
        ensures
            exit_code == Some(0i32) ==> r == Ok::<PythonScriptResult, PythonInvokerError>(
                PythonScriptResult { stdout, stderr, exit_code },
            ),
            exit_code != Some(0i32) ==> (r matches Err(PythonInvokerError::ScriptError(m)) && m@
                == run_report(exit_code, stdout@, stderr@)),
    {
        let succeeded = match exit_code {
            Some(c) => c == 0,
            None => false,
        };
        if succeeded {
            Ok(PythonScriptResult { stdout, stderr, exit_code })
        } else {
            Err(PythonInvokerError::ScriptError(render_run_report(exit_code, stdout.as_str(), stderr.as_str())))
        }
    }
}

} // verus!
