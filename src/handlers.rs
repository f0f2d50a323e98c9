//! What the request layer answers, given what the library's parts returned.

use vstd::prelude::*;
use crate::error::AppError;
use crate::models::{
    inferred_mode, AudioMode, CommandResponse, HealthResponse, ModeGetResponse, MopidyHealth,
    PlaylistResponse,
};
use crate::scripts::ScriptOutput;
use crate::text::{trim_spec, trim_str};
use crate::validation::{is_allowed_uri, regex_compiles, regex_finds, URI_PATTERN};

verus! {

/// The service's health: `ok`, or `degraded` where the probe of the remote
/// service failed. `probe` is `None` where no probe was made.
pub fn health_report(probe: Option<Result<(), String>>, version: &str) -> (r: HealthResponse)
    ensures
        r.version matches Some(v) && v@ == version@,
        match probe {
            None => r.status@ == "ok"@ && r.mopidy is None,
            Some(Ok(())) => r.status@ == "ok"@
                && (r.mopidy matches Some(h) && h.status@ == "ok"@ && h.detail is None),
            Some(Err(m)) => r.status@ == "degraded"@
                && (r.mopidy matches Some(h) && h.status@ == "error"@ && h.detail == Some(m)),
        },
{
    let (status, mopidy) = match probe {
        None => ("ok", None),
        Some(Ok(())) => ("ok", Some(MopidyHealth { status: "ok".to_owned(), detail: None })),
        Some(Err(m)) => ("degraded", Some(MopidyHealth { status: "error".to_owned(), detail: Some(m) })),
    };
    HealthResponse { status: status.to_owned(), version: Some(version.to_owned()), mopidy }
}

/// The current audio output from the routing script's status text.
pub fn mode_reply(output: &ScriptOutput) -> (r: ModeGetResponse)
    ensures
        r.value@ == trim_spec(output.stdout@),
        r.mode == inferred_mode(r.value@),
{
    let value = trim_str(output.stdout.as_str());
    ModeGetResponse { value: value.to_owned(), mode: AudioMode::infer(value) }
}

/// What a control script printed, its output trimmed.
pub fn command_reply(output: ScriptOutput) -> (r: CommandResponse)
    ensures
        r.stdout@ == trim_spec(output.stdout@),
        r.stderr == output.stderr,
{
    let stdout = trim_str(output.stdout.as_str()).to_owned();
    CommandResponse { stdout, stderr: output.stderr }
}

/// What the playlist script printed, its output trimmed.
pub fn playlist_reply(output: ScriptOutput) -> (r: PlaylistResponse)
    ensures
        r.stdout@ == trim_spec(output.stdout@),
        r.stderr == output.stderr,
{
    let stdout = trim_str(output.stdout.as_str()).to_owned();
    PlaylistResponse { stdout, stderr: output.stderr }
}

/// Checks the seed uri of a discovery request: it must not be blank, and
/// must be of an accepted scheme.
pub fn check_seed(seed: &str) -> (r: Result<(), AppError>)
    ensures
        trim_spec(seed@).len() == 0 ==> (r matches Err(AppError::BadRequest(m)) && m@ == "seed must not be empty"@),
        trim_spec(seed@).len() > 0 && !(regex_compiles(URI_PATTERN@) && regex_finds(URI_PATTERN@, seed@))
            ==> (r matches Err(AppError::BadRequest(m)) && m@ == "seed uri has an unsupported scheme"@),
        trim_spec(seed@).len() > 0 && regex_compiles(URI_PATTERN@) && regex_finds(URI_PATTERN@, seed@) ==> r is Ok,
{
    if trim_str(seed).is_empty() {
        return Err(AppError::bad_request("seed must not be empty"));
    }
    if !is_allowed_uri(seed) {
        return Err(AppError::bad_request("seed uri has an unsupported scheme"));
    }
    Ok(())
}

} // verus!
