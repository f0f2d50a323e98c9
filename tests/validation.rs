use hauski_backend::validation::is_allowed_uri;

#[test]
fn uri_regex_behaves() {
    assert!(is_allowed_uri("qobuz:track:42"));
    assert!(is_allowed_uri("spotify:album:1"));
    assert!(is_allowed_uri("local:/foo/bar.flac"));
    assert!(!is_allowed_uri("qobuz:"));
    assert!(!is_allowed_uri("file:///tmp/x"));
    assert!(!is_allowed_uri(""));
}

#[test]
fn ok_schemes() {
    assert!(is_allowed_uri("qobuz:track:123"));
    assert!(is_allowed_uri("spotify:track:123"));
    assert!(is_allowed_uri("local:/music/foo.flac"));
    assert!(is_allowed_uri("LOCAL:/x"));
}

#[test]
fn rejects_empty_and_plain() {
    assert!(!is_allowed_uri(""));
    assert!(!is_allowed_uri("file:///tmp/x"));
    assert!(!is_allowed_uri("qobuz:"));
}

#[test]
fn scheme_must_lead_the_uri() {
    assert!(!is_allowed_uri("xqobuz:track:1"));
    assert!(is_allowed_uri("Spotify/track"));
}
