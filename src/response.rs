//! Classification of a response body into a service error, a typed result,
//! a missing result field or a parse failure.
use vstd::prelude::*;
use crate::json::{owned, parse_json, parse_outcome, Json, ParseError};

verus! {

/// The value stored under `key`; where a key repeats, the last entry wins.
pub open spec fn lookup(entries: Seq<(String, Json)>, key: Seq<char>) -> Option<Json>
    decreases entries.len(),
{
    if entries.len() == 0 {
        None
    } else if entries.last().0@ == key {
        Some(entries.last().1)
    } else {
        lookup(entries.drop_last(), key)
    }
}

/// The member `key` of an object; `None` for a missing key or a non-object.
pub open spec fn field(j: Json, key: Seq<char>) -> Option<Json> {
    match j {
        Json::Object(entries) => lookup(entries@, key),
        _ => None,
    }
}

/// The text of a string value.
pub open spec fn text_spec(j: Option<Json>) -> Option<Seq<char>> {
    match j {
        Some(Json::Str(s)) => Some(s@),
        _ => None,
    }
}

/// The links of an error envelope: absent means none.
pub open spec fn links_spec(j: Option<Json>) -> Option<Seq<Seq<char>>> {
    match j {
        None => Some(Seq::empty()),
        Some(Json::Array(items)) => if forall|i: int| 0 <= i < items@.len() ==> (#[trigger] items@[i]) is Str {
            Some(items@.map_values(|x: Json| x->Str_0@))
        } else {
            None
        },
        _ => None,
    }
}

/// The service's error envelope, as code, message and links.
pub open spec fn envelope_spec(j: Json) -> Option<(int, Seq<char>, Seq<Seq<char>>)> {
    match (field(j, "error"@), text_spec(field(j, "message"@)), links_spec(field(j, "links"@))) {
        (Some(Json::Int(code)), Some(message), Some(links)) => if i32::MIN <= code <= i32::MAX {
            Some((code as int, message, links))
        } else {
            None
        },
        _ => None,
    }
}

/// The error envelope that the service answers with on failure.
#[derive(Debug)]
pub struct LastFMError {
    pub error: i32,
    pub message: String,
    pub links: Vec<String>,
}

impl View for LastFMError {
    type V = (int, Seq<char>, Seq<Seq<char>>);

    open spec fn view(&self) -> Self::V {
        (self.error as int, self.message@, self.links@.map_values(|s: String| s@))
    }
}

/// Finds the member `key` of an object.
pub fn get_field<'a>(j: &'a Json, key: &String) -> (r: Option<&'a Json>)
    ensures
        r matches Some(v) ==> field(*j, key@) == Some(*v),
        r is None ==> field(*j, key@) is None,
{
    match j {
        Json::Object(entries) => {
            let mut i: usize = entries.len();
            assert(entries@.take(i as int) =~= entries@);
            while i > 0
                invariant
                    i <= entries@.len(),
                    field(*j, key@) == lookup(entries@, key@),
                    lookup(entries@, key@) == lookup(entries@.take(i as int), key@),
                decreases i,
            {
                assert(entries@.take(i as int).drop_last() =~= entries@.take(i - 1));
                assert(entries@.take(i as int).last() == entries@[i - 1]);
                if entries[i - 1].0 == *key {
                    assert(lookup(entries@.take(i as int), key@) == Some(entries@[i - 1].1));
                    return Some(&entries[i - 1].1);
                }
                i = i - 1;
            }
            None
        },
        _ => None,
    }
}

fn get_text(j: Option<&Json>) -> (r: Option<String>)
    ensures
        r matches Some(s) ==> text_spec(opt(j)) == Some(s@),
        r is None ==> text_spec(opt(j)) is None,
{
    match j {
        Some(Json::Str(s)) => Some(s.clone()),
        _ => None,
    }
}

/// The value behind an optional reference.
pub open spec fn opt(j: Option<&Json>) -> Option<Json> {
    match j {
        Some(v) => Some(*v),
        None => None,
    }
}

fn get_links(j: Option<&Json>) -> (r: Option<Vec<String>>)
    ensures
        r matches Some(l) ==> links_spec(opt(j)) == Some(l@.map_values(|s: String| s@)),
        r is None ==> links_spec(opt(j)) is None,
{
    match j {
        None => Some(Vec::new()),
        Some(Json::Array(items)) => {
            let mut out: Vec<String> = Vec::new();
            let mut i: usize = 0;
            while i < items.len()
                invariant
                    i <= items@.len(),
                    opt(j) == Some(Json::Array(*items)),
                    out@.len() == i,
                    forall|k: int| 0 <= k < i ==> (#[trigger] items@[k]) is Str,
                    forall|k: int| 0 <= k < i ==> (#[trigger] out@[k])@ == items@[k]->Str_0@,
                decreases items.len() - i,
            {
                match &items[i] {
                    Json::Str(s) => out.push(s.clone()),
                    _ => {
                        assert(!(items@[i as int] is Str));
                        return None;
                    },
                }
                i = i + 1;
            }
            assert(out@.map_values(|s: String| s@) =~= items@.map_values(|x: Json| x->Str_0@));
            Some(out)
        },
        _ => None,
    }
}

/// Reads the service's error envelope, where the document is one.
pub fn parse_envelope(j: &Json) -> (r: Option<LastFMError>)
    ensures
        r matches Some(e) ==> envelope_spec(*j) == Some(e@),
        r is None ==> envelope_spec(*j) is None,
{
    let code = match get_field(j, &owned("error")) {
        Some(Json::Int(n)) => *n,
        _ => return None,
    };
    let message = match get_text(get_field(j, &owned("message"))) {
        Some(m) => m,
        None => return None,
    };
    let links = match get_links(get_field(j, &owned("links"))) {
        Some(l) => l,
        None => return None,
    };
    if code < i32::MIN as i64 || code > i32::MAX as i64 {
        return None;
    }
    Some(LastFMError { error: code as i32, message, links })
}

/// A string-to-string object as its entries, in the order the parser gives
/// them (by key, each key once).
pub type RawView = Seq<(Seq<char>, Seq<char>)>;

/// An object all of whose values are strings.
pub open spec fn raw_spec(j: Json) -> Option<RawView> {
    match j {
        Json::Object(entries) => if forall|i: int| 0 <= i < entries@.len() ==> (#[trigger] entries@[i]).1 is Str {
            Some(entries@.map_values(|p: (String, Json)| (p.0@, p.1->Str_0@)))
        } else {
            None
        },
        _ => None,
    }
}

/// A required member holding a string-to-string object.
pub open spec fn member_raw_spec(j: Option<Json>) -> Option<RawView> {
    match j {
        Some(x) => raw_spec(x),
        None => None,
    }
}

/// A required member holding an array of string-to-string objects.
pub open spec fn images_spec(j: Option<Json>) -> Option<Seq<RawView>> {
    match j {
        Some(Json::Array(items)) => if forall|i: int| 0 <= i < items@.len() ==> (#[trigger] raw_spec(items@[i])) is Some {
            Some(items@.map_values(|x: Json| raw_spec(x)->Some_0))
        } else {
            None
        },
        _ => None,
    }
}

/// An optional member holding a string-to-string object; `null` counts as absent.
pub open spec fn date_spec(j: Option<Json>) -> Option<Option<RawView>> {
    match j {
        None => Some(None),
        Some(Json::Null) => Some(None),
        Some(x) => match raw_spec(x) {
            Some(r) => Some(Some(r)),
            None => None,
        },
    }
}

/// A string-to-string object of the service, such as an artist or an image.
#[derive(Debug)]
pub struct RawData {
    pub entries: Vec<(String, String)>,
}

impl View for RawData {
    type V = RawView;

    open spec fn view(&self) -> RawView {
        self.entries@.map_values(|p: (String, String)| (p.0@, p.1@))
    }
}

/// What a track holds, as plain values.
pub struct TrackView {
    pub artist: RawView,
    pub name: Seq<char>,
    pub album: RawView,
    pub url: Seq<char>,
    pub images: Seq<RawView>,
    pub date: Option<RawView>,
}

/// A track object of the service.
pub open spec fn track_spec(j: Json) -> Option<TrackView> {
    match (
        member_raw_spec(field(j, "artist"@)),
        text_spec(field(j, "name"@)),
        member_raw_spec(field(j, "album"@)),
        text_spec(field(j, "url"@)),
        images_spec(field(j, "image"@)),
        date_spec(field(j, "date"@)),
    ) {
        (Some(artist), Some(name), Some(album), Some(url), Some(images), Some(date)) => Some(
            TrackView { artist, name, album, url, images, date },
        ),
        _ => None,
    }
}

/// A member holding an array of track objects.
pub open spec fn tracks_spec(j: Option<Json>) -> Option<Seq<TrackView>> {
    match j {
        Some(Json::Array(items)) => if forall|i: int| 0 <= i < items@.len() ==> (#[trigger] track_spec(items@[i])) is Some {
            Some(items@.map_values(|x: Json| track_spec(x)->Some_0))
        } else {
            None
        },
        _ => None,
    }
}

/// One listened (or playing) track.
#[derive(Debug)]
pub struct Track {
    pub artist: RawData,
    pub name: String,
    pub album: RawData,
    pub url: String,
    pub images: Vec<RawData>,
    pub date: Option<RawData>,
}

impl View for Track {
    type V = TrackView;

    open spec fn view(&self) -> TrackView {
        TrackView {
            artist: self.artist@,
            name: self.name@,
            album: self.album@,
            url: self.url@,
            images: self.images@.map_values(|r: RawData| r@),
            date: match self.date {
                Some(d) => Some(d@),
                None => None,
            },
        }
    }
}

/// The result of the recent-tracks method.
#[derive(Debug)]
pub struct RecentTracks {
    pub tracks: Vec<Track>,
}

impl View for RecentTracks {
    type V = Seq<TrackView>;

    open spec fn view(&self) -> Seq<TrackView> {
        self.tracks@.map_values(|t: Track| t@)
    }
}

/// How a response body is classified.
pub enum Outcome {
    /// The service's error envelope: code, message and links.
    Service(int, Seq<char>, Seq<Seq<char>>),
    /// The requested result.
    Tracks(Seq<TrackView>),
    /// The result wrapper parsed, but the result field is absent.
    Missing,
    /// The body matches neither the error envelope nor the result wrapper;
    /// carries what was wrong with the result shape.
    Malformed(Seq<char>),
}

/// The wrapper member that holds the recent-tracks result.
pub open spec fn result_key() -> Seq<char> {
    "recenttracks"@
}

/// The diagnostic for a document that is not an object.
pub open spec fn not_object_message() -> Seq<char> {
    "expected a JSON object"@
}

/// The diagnostic for a result member without a well-formed track list.
pub open spec fn bad_result_message() -> Seq<char> {
    "`recenttracks` holds no well-formed `track` array"@
}

/// The decision procedure: the error envelope is tried first, then the
/// result wrapper.
pub open spec fn classify_spec(j: Json) -> Outcome {
    match envelope_spec(j) {
        Some((code, message, links)) => Outcome::Service(code, message, links),
        None => if !(j is Object) {
            Outcome::Malformed(not_object_message())
        } else {
            match field(j, result_key()) {
                None => Outcome::Missing,
                Some(Json::Null) => Outcome::Missing,
                Some(r) => match tracks_spec(field(r, "track"@)) {
                    Some(tracks) => Outcome::Tracks(tracks),
                    None => Outcome::Malformed(bad_result_message()),
                },
            }
        },
    }
}

/// What can go wrong in a request.
#[derive(Debug)]
pub enum ClientError {
    /// The transport could not complete the call.
    Transport(String),
    /// The service answered with its error envelope.
    Service(LastFMError),
    /// The body could not be read as either known shape.
    ParseFailure(ParseError),
    /// The result wrapper parsed but holds no result.
    MissingField,
}

/// Whether a classification result is the one that `o` describes.
pub open spec fn agrees(r: Result<RecentTracks, ClientError>, o: Outcome) -> bool {
    match o {
        Outcome::Service(code, message, links) => r matches Err(ClientError::Service(e))
            && e@ == (code, message, links),
        Outcome::Tracks(tracks) => r matches Ok(t) && t@ == tracks,
        Outcome::Missing => r matches Err(ClientError::MissingField),
        Outcome::Malformed(d) => r matches Err(ClientError::ParseFailure(ParseError::UnexpectedShape(m)))
            && m@ == d,
    }
}

/// Reads a string-to-string object.
pub fn parse_raw(j: &Json) -> (r: Option<RawData>)
    ensures
        r matches Some(d) ==> raw_spec(*j) == Some(d@),
        r is None ==> raw_spec(*j) is None,
{
    match j {
        Json::Object(entries) => {
            let mut out: Vec<(String, String)> = Vec::new();
            let mut i: usize = 0;
            while i < entries.len()
                invariant
                    i <= entries@.len(),
                    *j == Json::Object(*entries),
                    out@.len() == i,
                    forall|k: int| 0 <= k < i ==> (#[trigger] entries@[k]).1 is Str,
                    forall|k: int|
                        0 <= k < i ==> (#[trigger] out@[k]).0@ == entries@[k].0@ && out@[k].1@
                            == entries@[k].1->Str_0@,
                decreases entries.len() - i,
            {
                match &entries[i].1 {
                    Json::Str(s) => out.push((entries[i].0.clone(), s.clone())),
                    _ => {
                        assert(!(entries@[i as int].1 is Str));
                        return None;
                    },
                }
                i = i + 1;
            }
            let d = RawData { entries: out };
            assert(d@ =~= entries@.map_values(|p: (String, Json)| (p.0@, p.1->Str_0@)));
            Some(d)
        },
        _ => None,
    }
}

fn member_raw(j: Option<&Json>) -> (r: Option<RawData>)
    ensures
        r matches Some(d) ==> member_raw_spec(opt(j)) == Some(d@),
        r is None ==> member_raw_spec(opt(j)) is None,
{
    match j {
        Some(x) => parse_raw(x),
        None => None,
    }
}

fn member_date(j: Option<&Json>) -> (r: Option<Option<RawData>>)
    ensures
        r matches Some(Some(d)) ==> date_spec(opt(j)) == Some(Some(d@)),
        r matches Some(None) ==> date_spec(opt(j)) == Some(None::<RawView>),
        r is None ==> date_spec(opt(j)) is None,
{
    match j {
        None => Some(None),
        Some(Json::Null) => Some(None),
        Some(x) => match parse_raw(x) {
            Some(d) => Some(Some(d)),
            None => None,
        },
    }
}

fn member_images(j: Option<&Json>) -> (r: Option<Vec<RawData>>)
    ensures
        r matches Some(l) ==> images_spec(opt(j)) == Some(l@.map_values(|d: RawData| d@)),
        r is None ==> images_spec(opt(j)) is None,
{
    match j {
        Some(Json::Array(items)) => {
            let mut out: Vec<RawData> = Vec::new();
            let mut i: usize = 0;
            while i < items.len()
                invariant
                    i <= items@.len(),
                    opt(j) == Some(Json::Array(*items)),
                    out@.len() == i,
                    forall|k: int| 0 <= k < i ==> (#[trigger] raw_spec(items@[k])) is Some,
                    forall|k: int| 0 <= k < i ==> Some((#[trigger] out@[k])@) == raw_spec(items@[k]),
                decreases items.len() - i,
            {
                match parse_raw(&items[i]) {
                    Some(d) => out.push(d),
                    None => return None,
                }
                i = i + 1;
            }
            assert(out@.map_values(|d: RawData| d@) =~= items@.map_values(
                |x: Json| raw_spec(x)->Some_0,
            ));
            Some(out)
        },
        _ => None,
    }
}

/// Reads one track object.
pub fn parse_track(j: &Json) -> (r: Option<Track>)
    ensures
        r matches Some(t) ==> track_spec(*j) == Some(t@),
        r is None ==> track_spec(*j) is None,
{
    let artist = match member_raw(get_field(j, &owned("artist"))) {
        Some(a) => a,
        None => return None,
    };
    let name = match get_text(get_field(j, &owned("name"))) {
        Some(n) => n,
        None => return None,
    };
    let album = match member_raw(get_field(j, &owned("album"))) {
        Some(a) => a,
        None => return None,
    };
    let url = match get_text(get_field(j, &owned("url"))) {
        Some(u) => u,
        None => return None,
    };
    let images = match member_images(get_field(j, &owned("image"))) {
        Some(l) => l,
        None => return None,
    };
    let date = match member_date(get_field(j, &owned("date"))) {
        Some(d) => d,
        None => return None,
    };
    Some(Track { artist, name, album, url, images, date })
}

fn member_tracks(j: Option<&Json>) -> (r: Option<Vec<Track>>)
    ensures
        r matches Some(l) ==> tracks_spec(opt(j)) == Some(l@.map_values(|t: Track| t@)),
        r is None ==> tracks_spec(opt(j)) is None,
{
    match j {
        Some(Json::Array(items)) => {
            let mut out: Vec<Track> = Vec::new();
            let mut i: usize = 0;
            while i < items.len()
                invariant
                    i <= items@.len(),
                    opt(j) == Some(Json::Array(*items)),
                    out@.len() == i,
                    forall|k: int| 0 <= k < i ==> (#[trigger] track_spec(items@[k])) is Some,
                    forall|k: int| 0 <= k < i ==> Some((#[trigger] out@[k])@) == track_spec(items@[k]),
                decreases items.len() - i,
            {
                match parse_track(&items[i]) {
                    Some(t) => out.push(t),
                    None => return None,
                }
                i = i + 1;
            }
            assert(out@.map_values(|t: Track| t@) =~= items@.map_values(
                |x: Json| track_spec(x)->Some_0,
            ));
            Some(out)
        },
        _ => None,
    }
}

/// Classifies a parsed response body: the error envelope first, then the
/// recent-tracks result inside its wrapper.
pub fn classify_json(j: &Json) -> (r: Result<RecentTracks, ClientError>)
    ensures
        agrees(r, classify_spec(*j)),
{
    if let Some(e) = parse_envelope(j) {
        return Err(ClientError::Service(e));
    }
    match j {
        Json::Object(_) => {},
        _ => return Err(
            ClientError::ParseFailure(ParseError::UnexpectedShape(owned("expected a JSON object"))),
        ),
    }
    let inner = match get_field(j, &owned("recenttracks")) {
        None => return Err(ClientError::MissingField),
        Some(Json::Null) => return Err(ClientError::MissingField),
        Some(x) => x,
    };
    match member_tracks(get_field(inner, &owned("track"))) {
        Some(tracks) => Ok(RecentTracks { tracks }),
        None => Err(
            ClientError::ParseFailure(
                ParseError::UnexpectedShape(owned("`recenttracks` holds no well-formed `track` array")),
            ),
        ),
    }
}

/// Whether a document reads as the result wrapper: an object whose result
/// member is absent, `null`, or holds a well-formed track list.
pub open spec fn wrapper_matches(j: Json) -> bool {
    &&& j is Object
    &&& match field(j, result_key()) {
        None => true,
        Some(Json::Null) => true,
        Some(r) => tracks_spec(field(r, "track"@)) is Some,
    }
}

/// A body that is an error envelope is a service error, whatever else it
/// holds: even where it would also read as a well-formed result.
pub proof fn lemma_error_envelope_wins(j: Json)
    requires
        envelope_spec(j) is Some,
    ensures
        classify_spec(j) == Outcome::Service(
            envelope_spec(j)->Some_0.0,
            envelope_spec(j)->Some_0.1,
            envelope_spec(j)->Some_0.2,
        ),
{
}

/// A document that is neither an error envelope nor the result wrapper is a
/// parse failure.
pub proof fn lemma_neither_shape_is_parse_failure(j: Json)
    requires
        envelope_spec(j) is None,
        !wrapper_matches(j),
    ensures
        classify_spec(j) is Malformed,
{
}

/// A success document yields exactly the tracks that its result member
/// holds, field for field.
pub proof fn lemma_success_mirrors_document(j: Json, tracks: Seq<TrackView>)
    requires
        envelope_spec(j) is None,
        j is Object,
        field(j, result_key()) matches Some(w) && tracks_spec(field(w, "track"@)) == Some(tracks),
    ensures
        classify_spec(j) == Outcome::Tracks(tracks),
        forall|r: Result<RecentTracks, ClientError>|
            agrees(r, classify_spec(j)) ==> (r matches Ok(t) && t@ == tracks),
{
}

/// A result wrapper without its result member is reported as a missing
/// field, never as an empty result.
pub proof fn lemma_absent_result_is_missing(j: Json)
    requires
        envelope_spec(j) is None,
        j is Object,
        field(j, result_key()) is None,
    ensures
        classify_spec(j) == Outcome::Missing,
{
}

/// The classification of a raw body: bytes that the parser refuses give its
/// diagnostic; a document is classified as `classify_spec` says.
pub open spec fn classified(body: Seq<u8>, r: Result<RecentTracks, ClientError>) -> bool {
    match parse_outcome(body) {
        Ok(j) => agrees(r, classify_spec(j)),
        Err(d) => r matches Err(ClientError::ParseFailure(ParseError::Syntax(m))) && m@ == d,
    }
}

/// The verdict on a body depends on the body alone: a result is `Ok` exactly
/// when the body parses to a document that is no error envelope and holds a
/// well-formed track list.
pub proof fn lemma_body_success_iff(body: Seq<u8>, r: Result<RecentTracks, ClientError>)
    requires
        classified(body, r),
    ensures
        r is Ok <==> (parse_outcome(body) matches Ok(j) && classify_spec(j) is Tracks),
{
}

/// A body whose document is an error envelope gives that service error,
/// whatever else the document holds.
pub proof fn lemma_body_error_envelope_wins(body: Seq<u8>, r: Result<RecentTracks, ClientError>)
    requires
        classified(body, r),
        parse_outcome(body) matches Ok(j) && envelope_spec(j) is Some,
    ensures
        r matches Err(ClientError::Service(e)) && Some(e@) == envelope_spec(parse_outcome(body)->Ok_0),
{
}

/// A body whose document holds a well-formed track list, and is no error
/// envelope, gives exactly those tracks, field for field.
pub proof fn lemma_body_success_mirrors_document(
    body: Seq<u8>,
    r: Result<RecentTracks, ClientError>,
    tracks: Seq<TrackView>,
)
    requires
        classified(body, r),
        parse_outcome(body) matches Ok(j) && envelope_spec(j) is None && j is Object && (field(
            j,
            result_key(),
        ) matches Some(w) && tracks_spec(field(w, "track"@)) == Some(tracks)),
    ensures
        r matches Ok(t) && t@ == tracks,
{
    lemma_success_mirrors_document(parse_outcome(body)->Ok_0, tracks);
}

/// A body that the parser refuses, or whose document matches neither shape,
/// gives a parse failure.
pub proof fn lemma_body_neither_shape_is_parse_failure(
    body: Seq<u8>,
    r: Result<RecentTracks, ClientError>,
)
    requires
        classified(body, r),
        parse_outcome(body) is Err || (parse_outcome(body) matches Ok(j) && envelope_spec(j) is None
            && !wrapper_matches(j)),
    ensures
        r matches Err(ClientError::ParseFailure(_)),
{
}

/// Classifies a raw response body.
pub fn classify(body: &[u8]) -> (r: Result<RecentTracks, ClientError>)
    ensures
        classified(body@, r),
{
    match parse_json(body) {
        Ok(j) => classify_json(&j),
        Err(e) => Err(ClientError::ParseFailure(e)),
    }
}

} // verus!
