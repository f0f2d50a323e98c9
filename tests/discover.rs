use hauski_backend::discover::{
    build_query, build_track, collect_candidates, similar_after_lookup, similar_after_search,
    SimilarNext,
};
use hauski_backend::json::JsonValue;
use hauski_backend::AppError;

fn s(text: &str) -> JsonValue {
    JsonValue::String(text.to_string())
}

fn obj(members: Vec<(&str, JsonValue)>) -> JsonValue {
    JsonValue::Object(members.into_iter().map(|(k, v)| (k.to_string(), v)).collect())
}

fn arr(items: Vec<JsonValue>) -> JsonValue {
    JsonValue::Array(items)
}

fn track(uri: &str, name: &str) -> JsonValue {
    obj(vec![("uri", s(uri)), ("name", s(name)), ("artists", arr(vec![obj(vec![("name", s("Artist"))])]))])
}

fn seed(uri: &str) -> JsonValue {
    obj(vec![("uri", s(uri)), ("name", s("Seed")), ("artists", arr(vec![obj(vec![("name", s("Artist"))])]))])
}

fn uris(tracks: &[hauski_backend::models::SimilarTrack]) -> Vec<&str> {
    tracks.iter().map(|t| t.uri.as_str()).collect()
}

#[test]
fn similar_tracks_returns_empty_when_limit_is_zero() {
    let next = similar_after_lookup(Some(seed("qobuz:track:seed")), Some(0)).expect("response");
    match next {
        SimilarNext::Done(response) => {
            assert!(response.tracks.is_empty());
            assert_eq!(response.query, "Artist Seed");
        }
        SimilarNext::Search(_) => panic!("a limit of 0 must not ask for a search"),
    }
}

#[test]
fn similar_tracks_skips_seed_and_duplicates() {
    let results = obj(vec![(
        "tracks",
        arr(vec![
            track("qobuz:track:seed", "Seed"),
            track("qobuz:track:1", "Track One"),
            track("qobuz:track:1", "Track One"),
            obj(vec![
                ("uri", s("qobuz:track:2")),
                ("name", s("Track Two")),
                ("artists", arr(vec![obj(vec![("name", s("Artist"))])])),
                ("album", obj(vec![("name", s("Album"))])),
            ]),
        ]),
    )]);
    let next = similar_after_lookup(Some(seed("qobuz:track:seed")), Some(10)).expect("response");
    let search = match next {
        SimilarNext::Search(search) => search,
        SimilarNext::Done(_) => panic!("a search is needed"),
    };
    assert_eq!(search.query, "Artist Seed");
    let response = similar_after_search(search, vec![results]);
    assert_eq!(uris(&response.tracks), vec!["qobuz:track:1", "qobuz:track:2"]);
    assert_eq!(response.tracks[1].album.as_deref(), Some("Album"));
}

#[test]
fn end_to_end_seed_and_duplicate_removed() {
    let groups = vec![obj(vec![(
        "tracks",
        arr(vec![
            obj(vec![("uri", s("a:seed")), ("name", s("Seed"))]),
            obj(vec![("uri", s("a:1")), ("name", s("One"))]),
            obj(vec![("uri", s("a:1")), ("name", s("One"))]),
            obj(vec![("uri", s("a:2")), ("name", s("Two"))]),
        ]),
    )])];
    let next = similar_after_lookup(Some(seed("a:seed")), Some(10)).expect("response");
    let SimilarNext::Search(search) = next else { panic!("a search is needed") };
    let response = similar_after_search(search, groups);
    assert_eq!(response.seed.uri, "a:seed");
    assert_eq!(response.query, "Artist Seed");
    assert_eq!(uris(&response.tracks), vec!["a:1", "a:2"]);
}

#[test]
fn default_limit_is_ten() {
    let next = similar_after_lookup(Some(seed("a:seed")), None).expect("response");
    let SimilarNext::Search(search) = next else { panic!("a search is needed") };
    assert_eq!(search.limit, 10);
}

#[test]
fn missing_seed_is_bad_request() {
    match similar_after_lookup(None, Some(5)) {
        Err(AppError::BadRequest(m)) => assert_eq!(m, "seed track not found in Mopidy"),
        other => panic!("unexpected: {other:?}"),
    }
}

#[test]
fn seed_without_uri_is_internal() {
    let record = obj(vec![("name", s("Seed"))]);
    match similar_after_lookup(Some(record), Some(5)) {
        Err(AppError::Internal(m)) => assert_eq!(m, "seed track missing uri"),
        other => panic!("unexpected: {other:?}"),
    }
}

#[test]
fn seed_with_blank_name_is_internal() {
    let record = obj(vec![("uri", s("a:seed")), ("name", s("   "))]);
    assert!(matches!(similar_after_lookup(Some(record), Some(5)), Err(AppError::Internal(_))));
}

#[test]
fn query_with_artist() {
    let record = obj(vec![("name", s("Seed")), ("artists", arr(vec![obj(vec![("name", s("Artist"))])]))]);
    assert_eq!(build_query(&record).as_deref(), Some("Artist Seed"));
}

#[test]
fn query_without_artists() {
    let record = obj(vec![("name", s("Seed")), ("artists", arr(vec![]))]);
    assert_eq!(build_query(&record).as_deref(), Some("Seed"));
}

#[test]
fn query_of_blank_name_is_none() {
    assert_eq!(build_query(&obj(vec![("name", s(""))])), None);
    assert_eq!(build_query(&obj(vec![("name", s(" \t "))])), None);
}

#[test]
fn query_trims_name_and_artist() {
    let record = obj(vec![("name", s("  Seed ")), ("artists", arr(vec![obj(vec![("name", s(" Artist  "))])]))]);
    assert_eq!(build_query(&record).as_deref(), Some("Artist Seed"));
    let blank_artist = obj(vec![("name", s("Seed")), ("artists", arr(vec![obj(vec![("name", s("  "))])]))]);
    assert_eq!(build_query(&blank_artist).as_deref(), Some("Seed"));
}

#[test]
fn build_track_reads_fields() {
    let record = obj(vec![
        ("uri", s("a:1")),
        ("name", s(" One ")),
        ("album", obj(vec![("name", s("Album"))])),
        ("artists", arr(vec![obj(vec![("name", s("X"))]), obj(vec![]), obj(vec![("name", s("Y"))])])),
    ]);
    let t = build_track(&record).expect("track");
    assert_eq!(t.uri, "a:1");
    assert_eq!(t.name, "One");
    assert_eq!(t.album.as_deref(), Some("Album"));
    assert_eq!(t.artists, vec!["X".to_string(), "Y".to_string()]);
    assert!(build_track(&obj(vec![("uri", s("a:1"))])).is_none());
    assert!(build_track(&obj(vec![("name", s("One"))])).is_none());
}

#[test]
fn candidates_never_exceed_limit() {
    let groups = vec![
        obj(vec![("tracks", arr(vec![track("a:1", "One"), track("a:2", "Two")]))]),
        obj(vec![("tracks", arr(vec![track("a:3", "Three")]))]),
    ];
    assert_eq!(uris(&collect_candidates("a:seed", &groups, 2)), vec!["a:1", "a:2"]);
    assert_eq!(uris(&collect_candidates("a:seed", &groups, 1)), vec!["a:1"]);
    assert!(collect_candidates("a:seed", &groups, 0).is_empty());
    assert_eq!(collect_candidates("a:seed", &groups, 10).len(), 3);
}

#[test]
fn seed_excluded_across_groups() {
    let groups = vec![
        obj(vec![("tracks", arr(vec![track("a:seed", "Seed")]))]),
        obj(vec![("tracks", arr(vec![track("a:seed", "Seed"), track("a:1", "One")]))]),
        obj(vec![("tracks", arr(vec![track("a:seed", "Seed")]))]),
    ];
    assert_eq!(uris(&collect_candidates("a:seed", &groups, 10)), vec!["a:1"]);
}

#[test]
fn first_occurrence_wins_across_groups() {
    let groups = vec![
        obj(vec![("tracks", arr(vec![track("a:1", "First")]))]),
        obj(vec![("other", arr(vec![]))]),
        s("not a group"),
        obj(vec![("tracks", arr(vec![track("a:2", "Two"), track("a:1", "Second")]))]),
    ];
    let found = collect_candidates("a:seed", &groups, 10);
    assert_eq!(uris(&found), vec!["a:1", "a:2"]);
    assert_eq!(found[0].name, "First");
}

#[test]
fn unusable_records_are_skipped() {
    let groups = vec![obj(vec![(
        "tracks",
        arr(vec![
            obj(vec![("name", s("No uri"))]),
            obj(vec![("uri", s("a:1")), ("name", s(" "))]),
            track("a:2", "Two"),
        ]),
    )])];
    assert_eq!(uris(&collect_candidates("a:seed", &groups, 1)), vec!["a:2"]);
}
