//! Values that the request layer exchanges with callers.

use vstd::prelude::*;
use crate::text::{ascii_lower_seq, contains_seq, str_contains, to_ascii_lowercase};

verus! {

/// The audio output path that the routing script switches between.
#[derive(Clone, Copy, Debug, PartialEq, Eq, Structural)]
pub enum AudioMode {
    Pulse,
    Alsa,
}

/// The mode that a status text names: `alsa` wins over `pulse`, letters are
/// compared without regard to ASCII case.
pub open spec fn inferred_mode(raw: Seq<char>) -> Option<AudioMode> {
    let lower = ascii_lower_seq(raw);
    if contains_seq(lower, "alsa"@) {
        Some(AudioMode::Alsa)
    } else if contains_seq(lower, "pulse"@) {
        Some(AudioMode::Pulse)
    } else {
        None
    }
}

impl AudioMode {
    /// The name of the mode as the routing script takes it.
    pub open spec fn spec_name(self) -> Seq<char> {
        match self {
            AudioMode::Pulse => "pulse"@,
            AudioMode::Alsa => "alsa"@,
        }
    }

    pub fn as_str(&self) -> (r: &'static str)
        ensures
            r@ == self.spec_name(),
    {
        match self {
            AudioMode::Pulse => "pulse",
            AudioMode::Alsa => "alsa",
        }
    }

    /// Reads the mode out of the routing script's status text.
    pub fn infer(raw: &str) -> (r: Option<AudioMode>)
        ensures
            r == inferred_mode(raw@),
    {
        let normalized = to_ascii_lowercase(raw);
        if str_contains(normalized.as_str(), "alsa") {
            Some(AudioMode::Alsa)
        } else if str_contains(normalized.as_str(), "pulse") {
            Some(AudioMode::Pulse)
        } else {
            None
        }
    }
}

/// A request to switch the audio output.
#[derive(Clone, Debug)]
pub struct ModeSetRequest {
    pub mode: AudioMode,
}

/// The current audio output: the script's status text and the mode it names.
#[derive(Clone, Debug)]
pub struct ModeGetResponse {
    pub value: String,
    pub mode: Option<AudioMode>,
}

/// What a control script printed.
#[derive(Clone, Debug)]
pub struct CommandResponse {
    pub stdout: String,
    pub stderr: String,
}

/// A request to build a playlist from a list of track uris.
#[derive(Clone, Debug)]
pub struct PlaylistRequest {
    pub name: String,
    pub uris: Vec<String>,
}

/// What the playlist script printed.
#[derive(Clone, Debug)]
pub struct PlaylistResponse {
    pub stdout: String,
    pub stderr: String,
}

/// The service's health, with the remote service's if it was probed.
#[derive(Clone, Debug)]
pub struct HealthResponse {
    pub status: String,
    pub version: Option<String>,
    pub mopidy: Option<MopidyHealth>,
}

/// The outcome of probing the remote media-control service.
#[derive(Clone, Debug)]
pub struct MopidyHealth {
    pub status: String,
    pub detail: Option<String>,
}

/// A request for tracks similar to a seed track.
#[derive(Clone, Debug)]
pub struct SimilarQuery {
    pub seed: String,
    pub limit: Option<usize>,
}

/// A track of the remote library.
#[derive(Clone, Debug)]
pub struct SimilarTrack {
    pub uri: String,
    pub name: String,
    pub album: Option<String>,
    pub artists: Vec<String>,
}

/// The fields of a track as text.
pub struct TrackView {
    pub uri: Seq<char>,
    pub name: Seq<char>,
    pub album: Option<Seq<char>>,
    pub artists: Seq<Seq<char>>,
}

pub open spec fn opt_text(o: Option<String>) -> Option<Seq<char>> {
    match o {
        Some(s) => Some(s@),
        None => None,
    }
}

pub open spec fn texts(v: Seq<String>) -> Seq<Seq<char>> {
    v.map_values(|s: String| s@)
}

impl View for SimilarTrack {
    type V = TrackView;

    open spec fn view(&self) -> TrackView {
        TrackView {
            uri: self.uri@,
            name: self.name@,
            album: opt_text(self.album),
            artists: texts(self.artists@),
        }
    }
}

/// The views of a list of tracks.
pub open spec fn track_views(ts: Seq<SimilarTrack>) -> Seq<TrackView> {
    ts.map_values(|t: SimilarTrack| t@)
}

/// The seed track, the query derived from it, and the tracks found for it.
#[derive(Clone, Debug)]
pub struct SimilarResponse {
    pub seed: SimilarTrack,
    pub query: String,
    pub tracks: Vec<SimilarTrack>,
}

} // verus!
