//! Which track uris the service accepts as a seed.

use vstd::prelude::*;

verus! {

/// Whether the regular expression `pattern` compiles.
pub uninterp spec fn regex_compiles(pattern: Seq<char>) -> bool;

/// Whether the regular expression `pattern` matches somewhere in `text`.
pub uninterp spec fn regex_finds(pattern: Seq<char>, text: Seq<char>) -> bool;

/// Relies on `regex::Regex::new`, which compiles `pattern` (`None` where it
/// does not compile), and on `Regex::is_match`, which reports whether the
/// compiled expression matches somewhere in `text`.
#[verifier::external_body]
fn regex_is_match(pattern: &str, text: &str) -> (r: Option<bool>)
    ensures
        r.is_some() == regex_compiles(pattern@),
        r matches Some(b) ==> b == regex_finds(pattern@, text@),
{
    match regex::Regex::new(pattern) {
        Ok(re) => Some(re.is_match(text)),
        Err(_) => None,
    }
}

/// The accepted uris: the scheme `qobuz`, `spotify` or `local` in any case,
/// then `:` or `/`, then at least one more character.
pub const URI_PATTERN: &'static str = "^(?i:(qobuz|spotify|local))[:/].+";

/// Whether `uri` names a track of an accepted scheme.
pub fn is_allowed_uri(uri: &str) -> (r: bool)
    ensures
        r == (regex_compiles(URI_PATTERN@) && regex_finds(URI_PATTERN@, uri@)),
{
    match regex_is_match(URI_PATTERN, uri) {
        Some(found) => found,
        None => false,
    }
}

} // verus!
