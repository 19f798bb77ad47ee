use vstd::prelude::*;
use crate::capture::{captured, lemma_capture_nonempty, StreamCapture};
use crate::decode::TextEncoding;

verus! {

/// Why one execution did not produce a successful result.
#[derive(Debug)]
pub enum ExecError {
    /// The command line was empty; nothing was spawned.
    EmptyCommand,
    /// The operating system could not start the process; carries its reason.
    Spawn(String),
    /// The standard-output pipe of the started process could not be taken.
    StdoutPipe,
    /// The standard-error pipe of the started process could not be taken.
    StderrPipe,
    /// Waiting for the process to exit failed; carries the reason.
    Wait(String),
    /// The process exited unsuccessfully; carries the diagnostic text it wrote.
    Failed(String),
}

/// The program and arguments of a validated, non-empty command line.
pub struct CommandPlan {
    pub program: String,
    pub args: Vec<String>,
}

/// The text that describes `e` to a user.
pub open spec fn error_text(e: ExecError) -> Seq<char> {
    match e {
        ExecError::EmptyCommand => "[Error] cmd is empty"@,
        ExecError::Spawn(reason) => "Failed to spawn command: "@ + reason@,
        ExecError::StdoutPipe => "[Error] Failed to capture stdout"@,
        ExecError::StderrPipe => "[Error] Failed to capture stderr"@,
        ExecError::Wait(reason) => "Failed to wait for command: "@ + reason@,
        ExecError::Failed(text) => text@,
    }
}

/// The text a finished run reports: its standard output on success; on
/// failure its standard error, or its standard output where standard error
/// is empty.
pub open spec fn outcome_text(exited_ok: bool, out: Seq<char>, err: Seq<char>) -> Seq<char> {
    if exited_ok {
        out
    } else if err.len() > 0 {
        err
    } else {
        out
    }
}

impl ExecError {
    /// The text that describes this error to a user.
    pub fn message(&self) -> (r: String)
        ensures
            r@ == error_text(*self),
    {
        match self {
            ExecError::EmptyCommand => String::from_str("[Error] cmd is empty"),
            ExecError::Spawn(reason) => String::from_str("Failed to spawn command: ").concat(
                reason.as_str(),
            ),
            ExecError::StdoutPipe => String::from_str("[Error] Failed to capture stdout"),
            ExecError::StderrPipe => String::from_str("[Error] Failed to capture stderr"),
            ExecError::Wait(reason) => String::from_str("Failed to wait for command: ").concat(
                reason.as_str(),
            ),
            ExecError::Failed(text) => text.clone(),
        }
    }
}

/// Splits a command line into the program to start and its arguments.
/// An empty command line is refused before anything is spawned.
pub fn plan_command(cmd: &[&str]) -> (r: Result<CommandPlan, ExecError>)
    ensures
        cmd@.len() == 0 <==> r is Err,
        r matches Err(e) ==> e is EmptyCommand,
        r matches Ok(plan) ==> {
            &&& plan.program@ == cmd@[0]@
            &&& plan.args@.len() == cmd@.len() - 1
            &&& forall|i: int| 0 <= i < plan.args@.len() ==> #[trigger] plan.args@[i]@ == cmd@[i + 1]@
        },
{
    if cmd.len() == 0 {
        return Err(ExecError::EmptyCommand);
    }
    let program = cmd[0].to_owned();
    let mut args: Vec<String> = Vec::new();
    let mut i: usize = 1;
    while i < cmd.len()
        invariant
            1 <= i <= cmd@.len(),
            args@.len() == i - 1,
            forall|k: int| 0 <= k < args@.len() ==> #[trigger] args@[k]@ == cmd@[k + 1]@,
        decreases cmd@.len() - i,
    {
        args.push(cmd[i].to_owned());
        i = i + 1;
    }
    Ok(CommandPlan { program, args })
}

/// Composes the result of a run from its exit status and both captures,
/// read out after both drain tasks have ended.
pub fn finish_execution(exited_ok: bool, stdout: StreamCapture, stderr: StreamCapture) -> (r:
    Result<String, ExecError>)
    ensures
        r is Ok <==> exited_ok,
        r matches Ok(text) ==> text@ == stdout.spec_text(),
        r matches Err(e) ==> (e matches ExecError::Failed(text) && text@ == outcome_text(
            false,
            stdout.spec_text(),
            stderr.spec_text(),
        )),
{
    let out = stdout.into_text();
    let err = stderr.into_text();
    if exited_ok {
        Ok(out)
    } else if err.as_str().is_empty() {
        Err(ExecError::Failed(out))
    } else {
        Err(ExecError::Failed(err))
    }
}

/// The text a run reports when its standard output was read as the chunks
/// `out` and its standard error as the chunks `err`.
pub open spec fn run_text(
    exited_ok: bool,
    encoding: TextEncoding,
    out: Seq<Seq<u8>>,
    err: Seq<Seq<u8>>,
) -> Seq<char> {
    outcome_text(exited_ok, captured(encoding, out), captured(encoding, err))
}

/// A successful run reports exactly its decoded standard output, one line
/// break after each chunk read, whatever it wrote to standard error.
pub proof fn lemma_success_reports_stdout(
    encoding: TextEncoding,
    out: Seq<Seq<u8>>,
    err: Seq<Seq<u8>>,
)
    ensures
        run_text(true, encoding, out, err) == captured(encoding, out),
{
}

/// A failed run reports what it wrote to standard error; where it wrote
/// nothing there, it reports what it wrote to standard output.
pub proof fn lemma_failure_reports_diagnostics(
    encoding: TextEncoding,
    out: Seq<Seq<u8>>,
    err: Seq<Seq<u8>>,
)
    ensures
        err.len() > 0 ==> run_text(false, encoding, out, err) == captured(encoding, err),
        err.len() == 0 ==> run_text(false, encoding, out, err) == captured(encoding, out),
{
    if err.len() > 0 {
        lemma_capture_nonempty(encoding, err);
    }
}

} // verus!
