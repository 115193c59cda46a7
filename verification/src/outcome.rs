//! What a finished run of the dialog tool means to the caller.

use crate::text::{decode_lossy, lossy_text, trim_str, trimmed};
use vstd::prelude::*;
use vstd::string::StringExecFns;
use vstd::utf8::{decode_utf8, valid_utf8};

verus! {

/// The answer of the dialog tool.
#[derive(Debug, Clone, PartialEq, Eq)]
pub struct DialogResult {
    /// Whether the tool exited with status code 0.
    pub success: bool,
    /// What the tool wrote to its standard output, trimmed.
    pub message: String,
}

/// A `DialogResult` as a mathematical value.
pub ghost struct DialogResultView {
    pub success: bool,
    pub message: Seq<char>,
}

impl View for DialogResult {
    type V = DialogResultView;

    open spec fn view(&self) -> DialogResultView {
        DialogResultView { success: self.success, message: self.message@ }
    }
}

impl DeepView for DialogResult {
    type V = DialogResultView;

    open spec fn deep_view(&self) -> DialogResultView {
        self@
    }
}

/// Why an invocation failed.
#[derive(Debug, Clone, PartialEq, Eq)]
pub enum DialogError {
    /// The tool could not be located or started. Carries the readable
    /// account of that failure.
    Launch(String),
    /// The tool ran and exited with a status other than 0. Carries what
    /// it wrote to its standard error.
    Execution(String),
}

/// A `DialogError` as a mathematical value.
pub ghost enum DialogErrorView {
    Launch(Seq<char>),
    Execution(Seq<char>),
}

impl DialogErrorView {
    /// The text that the error carries.
    pub open spec fn text(self) -> Seq<char> {
        match self {
            DialogErrorView::Launch(t) => t,
            DialogErrorView::Execution(t) => t,
        }
    }
}

impl View for DialogError {
    type V = DialogErrorView;

    open spec fn view(&self) -> DialogErrorView {
        match self {
            DialogError::Launch(t) => DialogErrorView::Launch(t@),
            DialogError::Execution(t) => DialogErrorView::Execution(t@),
        }
    }
}

impl DeepView for DialogError {
    type V = DialogErrorView;

    open spec fn deep_view(&self) -> DialogErrorView {
        self@
    }
}

/// The account of a tool that the system refused to start, given the
/// system's own description of the failure.
pub open spec fn spawn_failure_text(description: Seq<char>) -> Seq<char> {
    "Failed to execute: "@ + description
}

/// The account of a tool whose executable could not be located.
pub open spec fn unresolved_text() -> Seq<char> {
    "Failed to resolve bundled executable path"@
}

/// Writes the account of a tool that the system refused to start.
pub fn describe_spawn_failure(description: &str) -> (text: String)
    ensures
        text@ == spawn_failure_text(description@),
{
    let mut text = "Failed to execute: ".to_owned();
    text.append(description);
    text
}

impl DialogError {
    /// The error for a tool whose executable could not be located.
    pub fn unresolved() -> (e: DialogError)
        ensures
            e@ == DialogErrorView::Launch(unresolved_text()),
    {
        DialogError::Launch("Failed to resolve bundled executable path".to_owned())
    }

    /// The error for a tool that the system refused to start.
    pub fn spawn_failure(description: &str) -> (e: DialogError)
        ensures
            e@ == DialogErrorView::Launch(spawn_failure_text(description@)),
    {
        DialogError::Launch(describe_spawn_failure(description))
    }

    /// Whether the tool never ran.
    pub fn is_launch(&self) -> (b: bool)
        ensures
            b == (self@ is Launch),
    {
        match self {
            DialogError::Launch(_) => true,
            DialogError::Execution(_) => false,
        }
    }

    /// The readable text of the error, as it is shown to the caller.
    pub fn message(&self) -> (text: String)
        ensures
            text@ == self@.text(),
    {
        match self {
            DialogError::Launch(t) => t.clone(),
            DialogError::Execution(t) => t.clone(),
        }
    }
}

/// What is known of a process once it has ended.
#[derive(Debug, Clone, PartialEq, Eq)]
pub struct ProcessOutput {
    /// The exit code, where the system reported one.
    pub code: Option<i32>,
    /// The bytes written to standard output.
    pub stdout: Vec<u8>,
    /// The bytes written to standard error.
    pub stderr: Vec<u8>,
}

/// A tool has succeeded when its exit code is exactly 0.
pub open spec fn exited_ok(code: Option<i32>) -> bool {
    code == Some(0i32)
}

/// The outcome of a finished run, given its exit code and what it wrote
/// as text: success with the trimmed output for exit code 0, and an
/// execution error with the error output for anything else.
pub open spec fn outcome_of(code: Option<i32>, stdout: Seq<char>, stderr: Seq<char>) -> Result<
    DialogResultView,
    DialogErrorView,
> {
    if exited_ok(code) {
        Ok(DialogResultView { success: true, message: trimmed(stdout) })
    } else {
        Err(DialogErrorView::Execution(stderr))
    }
}

/// An outcome as a mathematical value.
pub open spec fn outcome_view(r: Result<DialogResult, DialogError>) -> Result<
    DialogResultView,
    DialogErrorView,
> {
    match r {
        Ok(v) => Ok(v@),
        Err(e) => Err(e@),
    }
}

/// Whether an exit code reports success.
pub fn succeeded(code: Option<i32>) -> (b: bool)
    ensures
        b == exited_ok(code),
{
    match code {
        Some(c) => c == 0,
        None => false,
    }
}

/// Judges a finished run from its exit code and its output as text.
pub fn outcome_from_text(code: Option<i32>, stdout: &str, stderr: String) -> (r: Result<
    DialogResult,
    DialogError,
>)
    ensures
        outcome_view(r) == outcome_of(code, stdout@, stderr@),
        r is Ok <==> code == Some(0i32),
        r is Ok ==> r->Ok_0.success,
{
    if succeeded(code) {
        Ok(DialogResult { success: true, message: trim_str(stdout).to_owned() })
    } else {
        Err(DialogError::Execution(stderr))
    }
}

/// Judges a finished run from its exit code and the bytes it wrote.
/// The bytes are decoded as UTF-8, with U+FFFD in place of what is not.
pub fn interpret_output(output: ProcessOutput) -> (r: Result<DialogResult, DialogError>)
    ensures
        outcome_view(r) == outcome_of(
            output.code,
            lossy_text(output.stdout@),
            lossy_text(output.stderr@),
        ),
        r is Ok <==> output.code == Some(0i32),
        r is Ok ==> r->Ok_0.success,
        r is Ok && valid_utf8(output.stdout@) ==> r->Ok_0.message@ == trimmed(
            decode_utf8(output.stdout@),
        ),
        r is Err && valid_utf8(output.stderr@) ==> r->Err_0@ == DialogErrorView::Execution(
            decode_utf8(output.stderr@),
        ),
{
    if succeeded(output.code) {
        let stdout = decode_lossy(output.stdout.as_slice());
        outcome_from_text(output.code, stdout.as_str(), String::new())
    } else {
        let stderr = decode_lossy(output.stderr.as_slice());
        outcome_from_text(output.code, "", stderr)
    }
}

/// Judges an invocation: `run` is what starting the tool and waiting for
/// it gave, either its output or the system's description of why it
/// could not be started.
pub fn invocation_result(run: Result<ProcessOutput, String>) -> (r: Result<
    DialogResult,
    DialogError,
>)
    ensures
        match run {
            Ok(output) => outcome_view(r) == outcome_of(
                output.code,
                lossy_text(output.stdout@),
                lossy_text(output.stderr@),
            ),
            Err(description) => outcome_view(r) == Err::<DialogResultView, DialogErrorView>(
                DialogErrorView::Launch(spawn_failure_text(description@)),
            ),
        },
        r is Ok <==> (run is Ok && run->Ok_0.code == Some(0i32)),
{
    match run {
        Ok(output) => interpret_output(output),
        Err(description) => Err(DialogError::spawn_failure(description.as_str())),
    }
}

} // verus!
