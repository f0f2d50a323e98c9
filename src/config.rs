//! Settings that the request layer hands to the library.

use vstd::prelude::*;
use crate::text::{ascii_lower_seq, str_eq, to_ascii_lowercase, trim_spec, trim_str};

verus! {

/// `rel` appended to `base` as a path.
pub uninterp spec fn joined_path(base: Seq<char>, rel: Seq<char>) -> Seq<char>;

/// Whether a path is absolute on Unix: it starts with `/`.
pub open spec fn is_absolute_path(p: Seq<char>) -> bool {
    p.len() > 0 && p[0] == '/'
}

/// Relies on `std::path::Path::is_absolute`: on Unix a path is absolute
/// exactly when it starts with the root `/`.
#[verifier::external_body]
fn path_is_absolute(p: &str) -> (r: bool)
    ensures
        r == is_absolute_path(p@),
{
    std::path::Path::new(p).is_absolute()
}

/// Relies on `std::path::Path::join`: `rel` appended to `base`.
#[verifier::external_body]
fn path_join(base: &str, rel: &str) -> (r: String)
    ensures
        r@ == joined_path(base@, rel@),
{
    std::path::Path::new(base).join(rel).to_string_lossy().into_owned()
}

/// The location of an external control program.
#[derive(Clone, Debug)]
pub struct ScriptConfig {
    pub program: String,
}

/// Where `program` is found from `base`: as it is if absolute, under `base`
/// otherwise.
pub open spec fn resolved_program(program: Seq<char>, base: Seq<char>) -> Seq<char> {
    if is_absolute_path(program) {
        program
    } else {
        joined_path(base, program)
    }
}

impl ScriptConfig {
    pub fn resolve_with(&self, base: &str) -> (r: String)
        ensures
            r@ == resolved_program(self.program@, base@),
    {
        if path_is_absolute(self.program.as_str()) {
            self.program.clone()
        } else {
            path_join(base, self.program.as_str())
        }
    }
}

/// A setting that could not be read.
#[derive(Clone, Debug)]
pub enum ConfigError {
    InvalidBindAddress(String),
    InvalidMopidyUrl(String),
    WorkingDirectory(String),
}

/// The text by which a configuration failure is reported.
pub open spec fn describe_config(e: ConfigError) -> Seq<char> {
    match e {
        ConfigError::InvalidBindAddress(a) => "invalid bind address '"@ + a@ + "'"@,
        ConfigError::InvalidMopidyUrl(u) => "invalid Mopidy RPC URL '"@ + u@ + "'"@,
        ConfigError::WorkingDirectory(m) => "failed to determine working directory: "@ + m@,
    }
}

impl ConfigError {
    pub fn message(&self) -> (r: String)
        ensures
            r@ == describe_config(*self),
    {
        let (mut s, detail, quoted) = match self {
            ConfigError::InvalidBindAddress(a) => ("invalid bind address '".to_owned(), a, true),
            ConfigError::InvalidMopidyUrl(u) => ("invalid Mopidy RPC URL '".to_owned(), u, true),
            ConfigError::WorkingDirectory(m) => ("failed to determine working directory: ".to_owned(), m, false),
        };
        s.append(detail.as_str());
        if quoted {
            s.append("'");
        }
        s
    }
}

#[verifier::external_type_specification]
#[verifier::external_body]
pub struct ExUrl(url::Url);

/// Whether `s` is an absolute URL.
pub uninterp spec fn url_parses(s: Seq<char>) -> bool;

/// Relies on `url::Url::parse`: the absolute URL that `s` spells, or none
/// where it spells none.
#[verifier::external_body]
fn parse_url(s: &str) -> (r: Option<url::Url>)
    ensures
        r.is_some() == url_parses(s@),
{
    url::Url::parse(s).ok()
}

/// Relies on `url::Url::set_path`: replaces the URL's path.
#[verifier::external_body]
fn set_url_path(u: &mut url::Url, path: &str) {
    u.set_path(path)
}

/// The endpoint used where no setting names one.
pub const DEFAULT_MOPIDY_RPC: &'static str = "http://127.0.0.1:6680/mopidy/rpc";

/// The path of the JSON-RPC endpoint under the service's HTTP root.
pub const MOPIDY_RPC_PATH: &'static str = "/mopidy/rpc";

/// The text that the endpoint is read from: the endpoint setting if there is
/// one, else the HTTP root setting, else the default.
pub open spec fn rpc_url_source(direct: Option<&str>, http_base: Option<&str>) -> Seq<char> {
    match direct {
        Some(raw) => raw@,
        None => match http_base {
            Some(base) => base@,
            None => DEFAULT_MOPIDY_RPC@,
        },
    }
}

/// The JSON-RPC endpoint: the endpoint setting as it is, or the HTTP root
/// setting with its path replaced by the endpoint path, or the default. Text
/// that is no absolute URL is refused.
pub fn resolve_mopidy_rpc_url(direct: Option<&str>, http_base: Option<&str>) -> (r: Result<url::Url, ConfigError>)
    ensures
        r is Ok == url_parses(rpc_url_source(direct, http_base)),
        r matches Err(e) ==> (e matches ConfigError::InvalidMopidyUrl(u) && u@ == rpc_url_source(direct, http_base)),
{
    match direct {
        Some(raw) => match parse_url(raw) {
            Some(u) => Ok(u),
            None => Err(ConfigError::InvalidMopidyUrl(raw.to_owned())),
        },
        None => match http_base {
            Some(base) => match parse_url(base) {
                Some(mut u) => {
                    set_url_path(&mut u, MOPIDY_RPC_PATH);
                    Ok(u)
                },
                None => Err(ConfigError::InvalidMopidyUrl(base.to_owned())),
            },
            None => match parse_url(DEFAULT_MOPIDY_RPC) {
                Some(u) => Ok(u),
                None => Err(ConfigError::InvalidMopidyUrl(DEFAULT_MOPIDY_RPC.to_owned())),
            },
        },
    }
}

/// The truth value that a setting's text spells, after trimming and without
/// regard to ASCII case.
pub open spec fn bool_spelled(s: Seq<char>) -> Option<bool> {
    let w = ascii_lower_seq(trim_spec(s));
    if w == "true"@ || w == "1"@ || w == "yes"@ || w == "on"@ {
        Some(true)
    } else if w == "false"@ || w == "0"@ || w == "no"@ || w == "off"@ {
        Some(false)
    } else {
        None
    }
}

pub fn parse_bool(s: &str) -> (r: Option<bool>)
    ensures
        r == bool_spelled(s@),
{
    let lowered = to_ascii_lowercase(trim_str(s));
    let w = lowered.as_str();
    if str_eq(w, "true") || str_eq(w, "1") || str_eq(w, "yes") || str_eq(w, "on") {
        Some(true)
    } else if str_eq(w, "false") || str_eq(w, "0") || str_eq(w, "no") || str_eq(w, "off") {
        Some(false)
    } else {
        None
    }
}

} // verus!
