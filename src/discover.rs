//! Similar-track discovery: from a seed record to a search query, and from
//! the search's result groups to a deduplicated, limited candidate list.

use vstd::prelude::*;
use crate::error::AppError;
use crate::json::{array_items, field, str_field, JsonValue};
use crate::models::{track_views, texts, SimilarResponse, SimilarTrack, TrackView};
use crate::text::{str_eq, trim_spec, trim_str};

verus! {

/// The number of candidates asked for when the caller names none.
pub const DEFAULT_LIMIT: usize = 10;

/// The `name` members of the artist records, in order; records without a
/// textual `name` are passed over.
pub open spec fn artist_names(items: Seq<JsonValue>) -> Seq<Seq<char>>
    decreases items.len(),
{
    if items.len() == 0 {
        seq![]
    } else {
        let prev = artist_names(items.drop_last());
        match str_field(items.last(), "name"@) {
            Some(n) => prev.push(n),
            None => prev,
        }
    }
}

/// The track that a record describes: it needs a textual `uri` and a `name`
/// that is not empty once trimmed.
pub open spec fn track_of(v: JsonValue) -> Option<TrackView> {
    match (str_field(v, "uri"@), str_field(v, "name"@)) {
        (Some(uri), Some(raw_name)) => {
            let name = trim_spec(raw_name);
            if name.len() == 0 {
                None
            } else {
                Some(
                    TrackView {
                        uri: uri,
                        name: name,
                        album: match field(v, "album"@) {
                            Some(a) => str_field(a, "name"@),
                            None => None,
                        },
                        artists: match field(v, "artists"@) {
                            Some(JsonValue::Array(items)) => artist_names(items@),
                            _ => seq![],
                        },
                    },
                )
            }
        },
        _ => None,
    }
}

/// The trimmed name of a record's first artist, if it is not empty.
pub open spec fn lead_artist(v: JsonValue) -> Option<Seq<char>> {
    match field(v, "artists"@) {
        Some(JsonValue::Array(items)) => {
            if items@.len() > 0 {
                match str_field(items@[0], "name"@) {
                    Some(a) => if trim_spec(a).len() > 0 {
                        Some(trim_spec(a))
                    } else {
                        None
                    },
                    None => None,
                }
            } else {
                None
            }
        },
        _ => None,
    }
}

/// The search text derived from a seed record: `<artist> <name>`, or the name
/// alone where the first artist has no name; none where the trimmed name is
/// empty.
pub open spec fn query_of(v: JsonValue) -> Option<Seq<char>> {
    match str_field(v, "name"@) {
        Some(raw_name) => {
            let name = trim_spec(raw_name);
            if name.len() == 0 {
                None
            } else {
                match lead_artist(v) {
                    Some(a) => Some(a + " "@ + name),
                    None => Some(name),
                }
            }
        },
        None => None,
    }
}

/// The track records of one result group.
pub open spec fn group_tracks(g: JsonValue) -> Seq<JsonValue> {
    match field(g, "tracks"@) {
        Some(JsonValue::Array(items)) => items@,
        _ => seq![],
    }
}

/// The track records of all groups, group by group.
pub open spec fn flat_entries(groups: Seq<JsonValue>) -> Seq<JsonValue>
    decreases groups.len(),
{
    if groups.len() == 0 {
        seq![]
    } else {
        flat_entries(groups.drop_last()) + group_tracks(groups.last())
    }
}

/// Whether one of `ts` has the uri `uri`.
pub open spec fn uri_listed(ts: Seq<TrackView>, uri: Seq<char>) -> bool {
    exists|k: int| 0 <= k < ts.len() && (#[trigger] ts[k]).uri == uri
}

/// The tracks that the records describe, in order, leaving out the seed's
/// uri and every uri met before.
pub open spec fn fresh_tracks(seed: Seq<char>, entries: Seq<JsonValue>) -> Seq<TrackView>
    decreases entries.len(),
{
    if entries.len() == 0 {
        seq![]
    } else {
        let prev = fresh_tracks(seed, entries.drop_last());
        match track_of(entries.last()) {
            Some(t) => if t.uri != seed && !uri_listed(prev, t.uri) {
                prev.push(t)
            } else {
                prev
            },
            None => prev,
        }
    }
}

/// The first `limit` fresh tracks of the result groups.
pub open spec fn candidates(seed: Seq<char>, groups: Seq<JsonValue>, limit: nat) -> Seq<TrackView> {
    let all = fresh_tracks(seed, flat_entries(groups));
    if all.len() <= limit {
        all
    } else {
        all.take(limit as int)
    }
}

/// The limit in effect for a request.
pub open spec fn effective_limit(limit: Option<usize>) -> nat {
    match limit {
        Some(n) => n as nat,
        None => DEFAULT_LIMIT as nat,
    }
}

// ---- proofs over the definitions ----

proof fn lemma_fresh_prefix(seed: Seq<char>, s: Seq<JsonValue>, n: int)
    requires
        0 <= n <= s.len(),
    ensures
        fresh_tracks(seed, s.take(n)).is_prefix_of(fresh_tracks(seed, s)),
    decreases s.len(),
{
    if n == s.len() {
        assert(s.take(n) =~= s);
    } else {
        assert(s.drop_last().take(n) =~= s.take(n));
        lemma_fresh_prefix(seed, s.drop_last(), n);
    }
}

proof fn lemma_flat_prefix(groups: Seq<JsonValue>, m: int)
    requires
        0 <= m <= groups.len(),
    ensures
        flat_entries(groups.take(m)).is_prefix_of(flat_entries(groups)),
    decreases groups.len(),
{
    if m == groups.len() {
        assert(groups.take(m) =~= groups);
    } else {
        assert(groups.drop_last().take(m) =~= groups.take(m));
        lemma_flat_prefix(groups.drop_last(), m);
    }
}

proof fn lemma_flat_step(groups: Seq<JsonValue>, gi: int)
    requires
        0 <= gi < groups.len(),
    ensures
        flat_entries(groups.take(gi + 1)) == flat_entries(groups.take(gi)) + group_tracks(groups[gi]),
{
    assert(groups.take(gi + 1).drop_last() =~= groups.take(gi));
}

/// Once a prefix of the records already yields `limit` fresh tracks, the
/// candidates are those tracks.
proof fn lemma_prefix_fills(seed: Seq<char>, groups: Seq<JsonValue>, p: Seq<JsonValue>, limit: nat)
    requires
        p.is_prefix_of(flat_entries(groups)),
        fresh_tracks(seed, p).len() == limit,
    ensures
        candidates(seed, groups, limit) == fresh_tracks(seed, p),
{
    let all = flat_entries(groups);
    assert(all.take(p.len() as int) =~= p);
    lemma_fresh_prefix(seed, all, p.len() as int);
    let f = fresh_tracks(seed, all);
    assert(f.take(limit as int) =~= fresh_tracks(seed, p));
}


/// Whether a record describes a track with the uri `uri`.
pub open spec fn describes_uri(v: JsonValue, uri: Seq<char>) -> bool {
    match track_of(v) {
        Some(t) => t.uri == uri,
        None => false,
    }
}

/// Record `j` describes `t`, and no record before it describes a track with
/// `t`'s uri.
pub open spec fn first_occurrence(entries: Seq<JsonValue>, j: int, t: TrackView) -> bool {
    &&& 0 <= j < entries.len()
    &&& track_of(entries[j]) == Some(t)
    &&& forall|i: int| 0 <= i < j ==> !describes_uri(#[trigger] entries[i], t.uri)
}

/// Some record is the first one that has `t`'s uri, and it describes `t`.
pub open spec fn kept_first(entries: Seq<JsonValue>, t: TrackView) -> bool {
    exists|j: int| first_occurrence(entries, j, t)
}

/// A record that describes a track of another uri than the seed's has that
/// uri among `ts`.
pub open spec fn covered(seed: Seq<char>, ts: Seq<TrackView>, v: JsonValue) -> bool {
    match track_of(v) {
        Some(u) => u.uri != seed ==> uri_listed(ts, u.uri),
        None => true,
    }
}

proof fn lemma_fresh_facts(seed: Seq<char>, e: Seq<JsonValue>)
    ensures
        forall|k: int| 0 <= k < fresh_tracks(seed, e).len() ==> (#[trigger] fresh_tracks(seed, e)[k]).uri != seed,
        forall|i: int, k: int| 0 <= i < k < fresh_tracks(seed, e).len()
            ==> (#[trigger] fresh_tracks(seed, e)[i]).uri != (#[trigger] fresh_tracks(seed, e)[k]).uri,
        forall|k: int| 0 <= k < fresh_tracks(seed, e).len()
            ==> kept_first(e, #[trigger] fresh_tracks(seed, e)[k]),
        forall|i: int| 0 <= i < e.len() ==> covered(seed, fresh_tracks(seed, e), #[trigger] e[i]),
    decreases e.len(),
{
    if e.len() > 0 {
        let d = e.drop_last();
        let prev = fresh_tracks(seed, d);
        let f = fresh_tracks(seed, e);
        lemma_fresh_facts(seed, d);
        let n = e.len() - 1;
        assert forall|i: int| 0 <= i < n implies e[i] == d[i] by {}
        assert forall|k: int| 0 <= k < prev.len() implies kept_first(e, #[trigger] prev[k]) by {
            let j = choose|j: int| first_occurrence(d, j, prev[k]);
            assert(first_occurrence(e, j, prev[k]));
        }
        assert forall|i: int| 0 <= i < n implies covered(seed, prev, #[trigger] e[i]) by {
            assert(covered(seed, prev, d[i]));
        }
        match track_of(e.last()) {
            Some(t) => {
                if t.uri != seed && !uri_listed(prev, t.uri) {
                    assert(f == prev.push(t));
                    assert forall|k: int| 0 <= k < prev.len() implies f[k] == prev[k] by {}
                    assert(f[prev.len() as int] == t);
                    assert forall|i: int| 0 <= i < n implies !describes_uri(#[trigger] e[i], t.uri) by {
                        if describes_uri(e[i], t.uri) {
                            assert(uri_listed(prev, t.uri));
                        }
                    }
                    assert(first_occurrence(e, n, t));
                    assert forall|k: int| 0 <= k < f.len() implies kept_first(e, #[trigger] f[k]) by {
                        if k < prev.len() {
                            assert(f[k] == prev[k]);
                            let j = choose|j: int| first_occurrence(e, j, prev[k]);
                            assert(first_occurrence(e, j, f[k]));
                        } else {
                            assert(first_occurrence(e, n, f[k]));
                        }
                    }
                    assert forall|i: int| 0 <= i < e.len() implies covered(seed, f, #[trigger] e[i]) by {
                        if let Some(u) = track_of(e[i]) {
                            if u.uri != seed {
                                if i < n {
                                    assert(covered(seed, prev, e[i]));
                                    let k = choose|k: int| 0 <= k < prev.len() && (#[trigger] prev[k]).uri == u.uri;
                                    assert(f[k] == prev[k]);
                                } else {
                                    assert(f[prev.len() as int].uri == t.uri);
                                }
                            }
                        }
                    }
                    assert forall|i: int, k: int| 0 <= i < k < f.len() implies (#[trigger] f[i]).uri != (#[trigger] f[k]).uri by {
                        if k == prev.len() {
                            assert(f[i] == prev[i]);
                        }
                    }
                } else {
                    assert(f == prev);
                    assert(covered(seed, f, e[n]));
                }
            },
            None => {
                assert(f == prev);
                assert(covered(seed, f, e[n]));
            },
        }
    }
}

/// No candidate has the seed's uri, however often the seed comes back from
/// the search.
pub proof fn lemma_seed_never_candidate(seed: Seq<char>, groups: Seq<JsonValue>, limit: nat)
    ensures
        forall|k: int| 0 <= k < candidates(seed, groups, limit).len()
            ==> (#[trigger] candidates(seed, groups, limit)[k]).uri != seed,
{
    let all = fresh_tracks(seed, flat_entries(groups));
    lemma_fresh_facts(seed, flat_entries(groups));
    assert forall|k: int| 0 <= k < candidates(seed, groups, limit).len()
        implies (#[trigger] candidates(seed, groups, limit)[k]).uri != seed by {
        assert(candidates(seed, groups, limit)[k] == all[k]);
    }
}

/// No uri occurs twice among the candidates, and each candidate is the track
/// of the first record, in group order and then in-group order, that has its
/// uri.
pub proof fn lemma_first_occurrence_kept(seed: Seq<char>, groups: Seq<JsonValue>, limit: nat)
    ensures
        forall|i: int, k: int| 0 <= i < k < candidates(seed, groups, limit).len()
            ==> (#[trigger] candidates(seed, groups, limit)[i]).uri
                != (#[trigger] candidates(seed, groups, limit)[k]).uri,
        forall|k: int| 0 <= k < candidates(seed, groups, limit).len()
            ==> kept_first(flat_entries(groups), #[trigger] candidates(seed, groups, limit)[k]),
{
    let all = fresh_tracks(seed, flat_entries(groups));
    let c = candidates(seed, groups, limit);
    lemma_fresh_facts(seed, flat_entries(groups));
    assert forall|k: int| 0 <= k < c.len() implies c[k] == all[k] by {}
    assert forall|i: int, k: int| 0 <= i < k < c.len() implies (#[trigger] c[i]).uri != (#[trigger] c[k]).uri by {
        assert(c[i] == all[i] && c[k] == all[k]);
    }
    assert forall|k: int| 0 <= k < c.len() implies kept_first(flat_entries(groups), #[trigger] c[k]) by {
        assert(c[k] == all[k]);
        let j = choose|j: int| first_occurrence(flat_entries(groups), j, all[k]);
        assert(first_occurrence(flat_entries(groups), j, c[k]));
    }
}

/// There are never more candidates than the limit asks for.
pub proof fn lemma_within_limit(seed: Seq<char>, groups: Seq<JsonValue>, limit: nat)
    ensures
        candidates(seed, groups, limit).len() <= limit,
{
}

// ---- executable parts ----

/// The `name` members of artist records, in order.
fn collect_artist_names(items: &Vec<JsonValue>) -> (r: Vec<String>)
    ensures
        texts(r@) == artist_names(items@),
{
    let mut names: Vec<String> = Vec::new();
    let mut i: usize = 0;
    while i < items.len()
        invariant
            i <= items@.len(),
            texts(names@) == artist_names(items@.take(i as int)),
        decreases items@.len() - i,
    {
        proof {
            assert(items@.take(i + 1).drop_last() =~= items@.take(i as int));
        }
        match items[i].get_str("name") {
            Some(n) => {
                names.push(n.to_owned());
                proof {
                    assert(texts(names@) =~= artist_names(items@.take(i + 1)));
                }
            },
            None => {},
        }
        i = i + 1;
    }
    proof {
        assert(items@.take(i as int) =~= items@);
    }
    names
}

/// Builds the track that a record describes, if it has a textual `uri` and a
/// name that is not empty once trimmed.
pub fn build_track(v: &JsonValue) -> (r: Option<SimilarTrack>)
    ensures
        match r {
            Some(t) => track_of(*v) == Some(t@),
            None => track_of(*v) is None,
        },
{
    let uri = match v.get_str("uri") {
        Some(u) => u,
        None => return None,
    };
    let raw_name = match v.get_str("name") {
        Some(n) => n,
        None => return None,
    };
    let name = trim_str(raw_name);
    if name.is_empty() {
        return None;
    }
    let album = match v.get("album") {
        Some(a) => match a.get_str("name") {
            Some(n) => Some(n.to_owned()),
            None => None,
        },
        None => None,
    };
    let artists = match v.get("artists") {
        Some(JsonValue::Array(items)) => collect_artist_names(items),
        _ => Vec::new(),
    };
    let t = SimilarTrack { uri: uri.to_owned(), name: name.to_owned(), album, artists };
    proof {
        if artists@.len() == 0 {
            assert(texts(artists@) =~= seq![]);
        }
    }
    Some(t)
}

/// Derives the search text from a seed record: `<artist> <name>` where the
/// first artist has a name, the trimmed name alone otherwise.
pub fn build_query(v: &JsonValue) -> (r: Option<String>)
    ensures
        match r {
            Some(q) => query_of(*v) == Some(q@),
            None => query_of(*v) is None,
        },
{
    let raw_name = match v.get_str("name") {
        Some(n) => n,
        None => return None,
    };
    let name = trim_str(raw_name);
    if name.is_empty() {
        return None;
    }
    let mut artist: Option<&str> = None;
    match v.get("artists") {
        Some(JsonValue::Array(items)) => {
            if items.len() > 0 {
                match items[0].get_str("name") {
                    Some(a) => {
                        let a = trim_str(a);
                        if !a.is_empty() {
                            artist = Some(a);
                        }
                    },
                    None => {},
                }
            }
        },
        _ => {},
    }
    assert(match artist {
        Some(a) => lead_artist(*v) == Some(a@),
        None => lead_artist(*v) is None,
    });
    match artist {
        Some(a) => {
            let mut q = a.to_owned();
            q.append(" ");
            q.append(name);
            Some(q)
        },
        None => Some(name.to_owned()),
    }
}

/// Whether `uri` is the seed's or that of a track already taken.
fn uri_taken(seed: &str, taken: &Vec<SimilarTrack>, uri: &str) -> (r: bool)
    ensures
        r == (uri@ == seed@ || uri_listed(track_views(taken@), uri@)),
{
    if str_eq(uri, seed) {
        return true;
    }
    let mut k: usize = 0;
    while k < taken.len()
        invariant
            k <= taken@.len(),
            forall|j: int| 0 <= j < k ==> (#[trigger] taken@[j]).uri@ != uri@,
        decreases taken@.len() - k,
    {
        if str_eq(taken[k].uri.as_str(), uri) {
            assert(track_views(taken@)[k as int].uri == uri@);
            return true;
        }
        k = k + 1;
    }
    assert(!uri_listed(track_views(taken@), uri@)) by {
        if uri_listed(track_views(taken@), uri@) {
            let j = choose|j: int| 0 <= j < track_views(taken@).len() && (#[trigger] track_views(taken@)[j]).uri == uri@;
            assert(taken@[j].uri@ == uri@);
        }
    }
    false
}

/// Walks the result groups in order, and each group's track records in
/// order, and keeps the first `limit` tracks whose uri is neither the seed's
/// nor one kept before.
pub fn collect_candidates(seed: &str, groups: &Vec<JsonValue>, limit: usize) -> (r: Vec<SimilarTrack>)
    ensures
        track_views(r@) == candidates(seed@, groups@, limit as nat),
{
    let mut out: Vec<SimilarTrack> = Vec::new();
    if limit == 0 {
        proof {
            assert(track_views(out@) =~= seq![]);
            assert(fresh_tracks(seed@, flat_entries(groups@)).take(0) =~= seq![]);
        }
        return out;
    }
    let mut gi: usize = 0;
    proof {
        assert(groups@.take(0) =~= seq![]);
        assert(track_views(out@) =~= seq![]);
    }
    while gi < groups.len()
        invariant
            gi <= groups@.len(),
            0 < limit,
            out@.len() < limit,
            track_views(out@) == fresh_tracks(seed@, flat_entries(groups@.take(gi as int))),
        decreases groups@.len() - gi,
    {
        proof {
            lemma_flat_step(groups@, gi as int);
        }
        match groups[gi].get("tracks") {
            Some(JsonValue::Array(items)) => {
                let ghost before = flat_entries(groups@.take(gi as int));
                let mut ti: usize = 0;
                proof {
                    assert(before + items@.take(0) =~= before);
                }
                while ti < items.len()
                    invariant
                        ti <= items@.len(),
                        0 < limit,
                        out@.len() < limit,
                        gi < groups@.len(),
                        group_tracks(groups@[gi as int]) == items@,
                        flat_entries(groups@.take(gi + 1)) == before + items@,
                        track_views(out@) == fresh_tracks(seed@, before + items@.take(ti as int)),
                    decreases items@.len() - ti,
                {
                    let ghost p = before + items@.take(ti + 1);
                    proof {
                        assert(p.drop_last() =~= before + items@.take(ti as int));
                        assert(p.last() == items@[ti as int]);
                    }
                    match build_track(&items[ti]) {
                        Some(t) => {
                            if !uri_taken(seed, &out, t.uri.as_str()) {
                                out.push(t);
                                proof {
                                    assert(track_views(out@) =~= fresh_tracks(seed@, p));
                                }
                                if out.len() >= limit {
                                    proof {
                                        lemma_flat_prefix(groups@, gi + 1);
                                        assert(p.is_prefix_of(before + items@));
                                        lemma_prefix_fills(seed@, groups@, p, limit as nat);
                                    }
                                    return out;
                                }
                            }
                        },
                        None => {},
                    }
                    ti = ti + 1;
                }
                proof {
                    assert(items@.take(ti as int) =~= items@);
                }
            },
            _ => {
                proof {
                    assert(flat_entries(groups@.take(gi as int)) + group_tracks(groups@[gi as int])
                        =~= flat_entries(groups@.take(gi as int)));
                }
            },
        }
        gi = gi + 1;
    }
    proof {
        assert(groups@.take(gi as int) =~= groups@);
    }
    out
}


/// A search still to be made: the seed track, the query to send, and how
/// many candidates to keep.
#[derive(Clone, Debug)]
pub struct SimilarSearch {
    pub seed: SimilarTrack,
    pub query: String,
    pub limit: usize,
}

/// What follows the seed lookup: the answer, or a search to make first.
#[derive(Clone, Debug)]
pub enum SimilarNext {
    Done(SimilarResponse),
    Search(SimilarSearch),
}

/// Takes the outcome of looking up the seed uri. A missing seed is the
/// caller's error; a seed record without a usable uri or name is an internal
/// one. A limit of 0 answers at once, with no search to make.
pub fn similar_after_lookup(found: Option<JsonValue>, limit: Option<usize>) -> (r: Result<SimilarNext, AppError>)
    ensures
        match found {
            None => r matches Err(AppError::BadRequest(m)) && m@ == "seed track not found in Mopidy"@,
            Some(v) => match (track_of(v), query_of(v)) {
                (None, _) => r matches Err(AppError::Internal(m)) && m@ == "seed track missing uri"@,
                (Some(_), None) => r matches Err(AppError::Internal(m))
                    && m@ == "unable to derive search query from seed track"@,
                (Some(t), Some(q)) => if effective_limit(limit) == 0 {
                    r matches Ok(SimilarNext::Done(resp)) && resp.seed@ == t && resp.query@ == q
                        && resp.tracks@.len() == 0
                } else {
                    r matches Ok(SimilarNext::Search(s)) && s.seed@ == t && s.query@ == q
                        && s.limit as nat == effective_limit(limit)
                },
            },
        },
{
    let record = match found {
        Some(v) => v,
        None => return Err(AppError::bad_request("seed track not found in Mopidy")),
    };
    let seed = match build_track(&record) {
        Some(t) => t,
        None => return Err(AppError::internal("seed track missing uri")),
    };
    let query = match build_query(&record) {
        Some(q) => q,
        None => return Err(AppError::internal("unable to derive search query from seed track")),
    };
    let target = match limit {
        Some(n) => n,
        None => DEFAULT_LIMIT,
    };
    if target == 0 {
        Ok(SimilarNext::Done(SimilarResponse { seed, query, tracks: Vec::new() }))
    } else {
        Ok(SimilarNext::Search(SimilarSearch { seed, query, limit: target }))
    }
}

/// Takes the result groups of the search and keeps the candidates.
pub fn similar_after_search(search: SimilarSearch, groups: Vec<JsonValue>) -> (r: SimilarResponse)
    ensures
        r.seed@ == search.seed@,
        r.query@ == search.query@,
        track_views(r.tracks@) == candidates(search.seed.uri@, groups@, search.limit as nat),
{
    let tracks = collect_candidates(search.seed.uri.as_str(), &groups, search.limit);
    SimilarResponse { seed: search.seed, query: search.query, tracks }
}

} // verus!
