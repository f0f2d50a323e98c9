//! Running external control programs: what to start, and what its end means.

use vstd::prelude::*;
use vstd::utf8::{decode_utf8, valid_utf8};
use crate::config::{resolved_program, ScriptConfig};
use crate::error::AppError;
use crate::models::{ModeSetRequest, PlaylistRequest};
use crate::text::{
    decimal, decode_utf8_lossy, decode_utf8_text, i32_text, lossy_decoding, signed_decimal,
    trim_end_spec, trim_end_str, u64_text,
};

verus! {

/// What a program printed, each stream without trailing white space.
#[derive(Clone, Debug)]
pub struct ScriptOutput {
    pub stdout: String,
    pub stderr: String,
}

/// Why running a program failed. No failure is retried.
#[derive(Clone, Debug)]
pub enum ScriptError {
    /// The program could not be started.
    SpawnFailed { program: String, reason: String },
    /// The input could not be written to the program.
    StdinWriteFailed { program: String, reason: String },
    /// The program did not finish within the timeout.
    Timeout { program: String, timeout_ms: u64 },
    /// Waiting for the program failed.
    WaitFailed { program: String, reason: String },
    /// The program finished with a failure status.
    NonZeroExit { program: String, code: Option<i32>, stderr: String },
    /// The program printed bytes that are not UTF-8 text.
    OutputNotText { program: String },
}

/// The text by which a script failure is reported.
pub open spec fn describe_script(e: ScriptError) -> Seq<char> {
    match e {
        ScriptError::SpawnFailed { program, reason } => "failed to spawn "@ + program@ + ": "@ + reason@,
        ScriptError::StdinWriteFailed { program, reason } => "failed to write to "@ + program@ + ": "@ + reason@,
        ScriptError::Timeout { program, timeout_ms } =>
            "command "@ + program@ + " timed out after "@ + decimal(timeout_ms as nat) + " ms"@,
        ScriptError::WaitFailed { program, reason } => "command "@ + program@ + " failed: "@ + reason@,
        ScriptError::NonZeroExit { program, code, stderr } => "command "@ + program@ + " exited with "@
            + match code {
                Some(c) => "status "@ + signed_decimal(c as int),
                None => "no status"@,
            } + ": "@ + stderr@,
        ScriptError::OutputNotText { program } => "command "@ + program@ + " printed text that is not UTF-8"@,
    }
}

impl ScriptError {
    pub fn message(&self) -> (r: String)
        ensures
            r@ == describe_script(*self),
    {
        match self {
            ScriptError::SpawnFailed { program, reason } => {
                let mut s = "failed to spawn ".to_owned();
                s.append(program.as_str());
                s.append(": ");
                s.append(reason.as_str());
                s
            },
            ScriptError::StdinWriteFailed { program, reason } => {
                let mut s = "failed to write to ".to_owned();
                s.append(program.as_str());
                s.append(": ");
                s.append(reason.as_str());
                s
            },
            ScriptError::Timeout { program, timeout_ms } => {
                let mut s = "command ".to_owned();
                s.append(program.as_str());
                s.append(" timed out after ");
                s.append(u64_text(*timeout_ms).as_str());
                s.append(" ms");
                s
            },
            ScriptError::WaitFailed { program, reason } => {
                let mut s = "command ".to_owned();
                s.append(program.as_str());
                s.append(" failed: ");
                s.append(reason.as_str());
                s
            },
            ScriptError::NonZeroExit { program, code, stderr } => {
                let mut s = "command ".to_owned();
                s.append(program.as_str());
                s.append(" exited with ");
                match code {
                    Some(c) => {
                        s.append("status ");
                        s.append(i32_text(*c).as_str());
                    },
                    None => s.append("no status"),
                }
                s.append(": ");
                s.append(stderr.as_str());
                s
            },
            ScriptError::OutputNotText { program } => {
                let mut s = "command ".to_owned();
                s.append(program.as_str());
                s.append(" printed text that is not UTF-8");
                s
            },
        }
    }
}

/// One run of a program: the resolved program, its arguments in order, the
/// text to pipe to its input if any, its working directory, and how long it
/// may take.
#[derive(Clone, Debug)]
pub struct ScriptInvocation {
    pub program: String,
    pub args: Vec<String>,
    pub input: Option<String>,
    pub workdir: String,
    pub timeout_ms: u64,
}

impl ScriptInvocation {
    /// The run of `script` from `workdir`: a relative program is found under
    /// `workdir`.
    pub fn new(script: &ScriptConfig, workdir: &str, args: Vec<String>, input: Option<String>, timeout_ms: u64) -> (r: ScriptInvocation)
        ensures
            r.program@ == resolved_program(script.program@, workdir@),
            r.args == args,
            r.input == input,
            r.workdir@ == workdir@,
            r.timeout_ms == timeout_ms,
    {
        ScriptInvocation {
            program: script.resolve_with(workdir),
            args,
            input,
            workdir: workdir.to_owned(),
            timeout_ms,
        }
    }

    /// Whether the program's input is a pipe that the input text is written
    /// to; otherwise it is empty, never the caller's own.
    pub fn pipes_input(&self) -> (r: bool)
        ensures
            r == self.input is Some,
    {
        self.input.is_some()
    }
}

/// How a run of a program ended, as the process layer saw it. The layer stops
/// at the first step that fails.
#[derive(Clone, Debug)]
pub enum ProcessEnd {
    /// Starting the program failed.
    SpawnFailed(String),
    /// Writing the input failed.
    StdinWriteFailed(String),
    /// The timeout elapsed before the program finished.
    TimedOut,
    /// Waiting for the program failed.
    WaitFailed(String),
    /// The program finished; `success` is whether its status reports success.
    Exited { success: bool, code: Option<i32>, stdout: Vec<u8>, stderr: Vec<u8> },
}

/// What the end of a run means: a finished, successful run yields both
/// streams as text without trailing white space; every other end is a
/// failure of its own kind.
pub fn finish_script(invocation: &ScriptInvocation, end: ProcessEnd) -> (r: Result<ScriptOutput, ScriptError>)
    ensures
        match end {
            ProcessEnd::SpawnFailed(reason) => r matches Err(ScriptError::SpawnFailed { program, reason: why })
                && program@ == invocation.program@ && why == reason,
            ProcessEnd::StdinWriteFailed(reason) => r matches Err(ScriptError::StdinWriteFailed { program, reason: why })
                && program@ == invocation.program@ && why == reason,
            ProcessEnd::TimedOut => r matches Err(ScriptError::Timeout { program, timeout_ms })
                && program@ == invocation.program@ && timeout_ms == invocation.timeout_ms,
            ProcessEnd::WaitFailed(reason) => r matches Err(ScriptError::WaitFailed { program, reason: why })
                && program@ == invocation.program@ && why == reason,
            ProcessEnd::Exited { success, code, stdout, stderr } => if !success {
                r matches Err(ScriptError::NonZeroExit { program, code: c, stderr: text })
                    && program@ == invocation.program@ && c == code && text@ == lossy_decoding(stderr@)
            } else if valid_utf8(stdout@) && valid_utf8(stderr@) {
                r matches Ok(out) && out.stdout@ == trim_end_spec(decode_utf8(stdout@))
                    && out.stderr@ == trim_end_spec(decode_utf8(stderr@))
            } else {
                r matches Err(ScriptError::OutputNotText { program }) && program@ == invocation.program@
            },
        },
{
    let program = invocation.program.clone();
    match end {
        ProcessEnd::SpawnFailed(reason) => Err(ScriptError::SpawnFailed { program, reason }),
        ProcessEnd::StdinWriteFailed(reason) => Err(ScriptError::StdinWriteFailed { program, reason }),
        ProcessEnd::TimedOut => Err(ScriptError::Timeout { program, timeout_ms: invocation.timeout_ms }),
        ProcessEnd::WaitFailed(reason) => Err(ScriptError::WaitFailed { program, reason }),
        ProcessEnd::Exited { success, code, stdout, stderr } => {
            if !success {
                let text = decode_utf8_lossy(&stderr);
                return Err(ScriptError::NonZeroExit { program, code, stderr: text });
            }
            let out = match decode_utf8_text(stdout) {
                Some(s) => s,
                None => return Err(ScriptError::OutputNotText { program }),
            };
            let err = match decode_utf8_text(stderr) {
                Some(s) => s,
                None => return Err(ScriptError::OutputNotText { program }),
            };
            Ok(ScriptOutput {
                stdout: trim_end_str(out.as_str()).to_owned(),
                stderr: trim_end_str(err.as_str()).to_owned(),
            })
        },
    }
}


/// The argument that asks the audio routing script for its current state.
pub fn show_mode_args() -> (r: Vec<String>)
    ensures
        r@.len() == 1 && r@[0]@ == "show"@,
{
    let mut args: Vec<String> = Vec::new();
    args.push("show".to_owned());
    args
}

/// The argument that switches the audio routing script to the requested mode.
pub fn set_mode_args(request: &ModeSetRequest) -> (r: Vec<String>)
    ensures
        r@.len() == 1 && r@[0]@ == request.mode.spec_name(),
{
    let mut args: Vec<String> = Vec::new();
    args.push(request.mode.as_str().to_owned());
    args
}

/// Each of `uris` followed by a line break.
pub open spec fn uri_lines(uris: Seq<String>) -> Seq<char>
    decreases uris.len(),
{
    if uris.len() == 0 {
        seq![]
    } else {
        uri_lines(uris.drop_last()) + uris.last()@ + "\n"@
    }
}

/// The arguments and the input of the playlist script for a request: the
/// playlist's name, then `--input -`; the uris go to its input one per line.
/// A request without uris is the caller's error.
pub fn playlist_invocation(request: &PlaylistRequest) -> (r: Result<(Vec<String>, String), AppError>)
    ensures
        request.uris@.len() == 0 <==> r is Err,
        r matches Err(e) ==> (e matches AppError::BadRequest(m) && m@ == "uris must not be empty"@),
        r matches Ok((args, input)) ==> {
            &&& args@.len() == 3
            &&& args@[0]@ == request.name@
            &&& args@[1]@ == "--input"@
            &&& args@[2]@ == "-"@
            &&& input@ == uri_lines(request.uris@)
        },
{
    if request.uris.len() == 0 {
        return Err(AppError::bad_request("uris must not be empty"));
    }
    let mut args: Vec<String> = Vec::new();
    args.push(request.name.clone());
    args.push("--input".to_owned());
    args.push("-".to_owned());
    let mut input = String::new();
    let mut i: usize = 0;
    while i < request.uris.len()
        invariant
            i <= request.uris@.len(),
            input@ == uri_lines(request.uris@.take(i as int)),
        decreases request.uris@.len() - i,
    {
        proof {
            assert(request.uris@.take(i + 1).drop_last() =~= request.uris@.take(i as int));
        }
        input.append(request.uris[i].as_str());
        input.append("\n");
        i = i + 1;
    }
    proof {
        assert(request.uris@.take(i as int) =~= request.uris@);
    }
    Ok((args, input))
}

} // verus!
