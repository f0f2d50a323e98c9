//! The failures that the library reports to the request layer.

use vstd::prelude::*;
use crate::config::{describe_config, ConfigError};
use crate::scripts::{describe_script, ScriptError};

verus! {

/// A failure, by category.
#[derive(Clone, Debug)]
pub enum AppError {
    /// A setting could not be read.
    Config(ConfigError),
    /// An external control program failed.
    Script(ScriptError),
    /// The settings do not describe a usable installation.
    Validation(String),
    /// The caller's input is invalid.
    BadRequest(String),
    /// The remote service is unreachable, reported an error, or answered with
    /// malformed data.
    Upstream(String),
    /// A local invariant does not hold.
    Internal(String),
}

/// The text by which a failure is reported.
pub open spec fn describe(e: AppError) -> Seq<char> {
    match e {
        AppError::Config(c) => "failed to load configuration: "@ + describe_config(c),
        AppError::Script(s) => describe_script(s),
        AppError::Validation(m) => "configuration validation failed: "@ + m@,
        AppError::BadRequest(m) => m@,
        AppError::Upstream(m) => m@,
        AppError::Internal(m) => m@,
    }
}

/// The HTTP status by which a failure is answered: 400 for the caller's
/// error, 502 for the remote service's, 500 for the rest.
pub open spec fn status_of(e: AppError) -> u16 {
    match e {
        AppError::BadRequest(_) => 400,
        AppError::Upstream(_) => 502,
        _ => 500,
    }
}

impl AppError {
    pub fn bad_request(message: &str) -> (r: AppError)
        ensures
            r matches AppError::BadRequest(m) && m@ == message@,
    {
        AppError::BadRequest(message.to_owned())
    }

    pub fn upstream(message: &str) -> (r: AppError)
        ensures
            r matches AppError::Upstream(m) && m@ == message@,
    {
        AppError::Upstream(message.to_owned())
    }

    pub fn internal(message: &str) -> (r: AppError)
        ensures
            r matches AppError::Internal(m) && m@ == message@,
    {
        AppError::Internal(message.to_owned())
    }

    /// The text by which this failure is reported.
    pub fn message(&self) -> (r: String)
        ensures
            r@ == describe(*self),
    {
        match self {
            AppError::Config(c) => {
                let mut s = "failed to load configuration: ".to_owned();
                s.append(c.message().as_str());
                s
            },
            AppError::Script(e) => e.message(),
            AppError::Validation(m) => {
                let mut s = "configuration validation failed: ".to_owned();
                s.append(m.as_str());
                s
            },
            AppError::BadRequest(m) => m.clone(),
            AppError::Upstream(m) => m.clone(),
            AppError::Internal(m) => m.clone(),
        }
    }

    /// The HTTP status by which this failure is answered.
    pub fn status_code(&self) -> (r: u16)
        ensures
            r == status_of(*self),
    {
        match self {
            AppError::BadRequest(_) => 400,
            AppError::Upstream(_) => 502,
            _ => 500,
        }
    }
}

} // verus!
