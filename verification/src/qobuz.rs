//! The qobuz backend module: its service data model and the verified
//! parts of its logic — request-path building, the signed stream query
//! with its MD5 request signature, track-id extraction from a track page
//! URL, reply conversion and the stream decision. The HTTP round-trips
//! run outside the library.

use vstd::prelude::*;
use vstd::string::StringExecFns;

use crate::error::Error;
use crate::format::AudioFormat;
use crate::strutil::{i64_to_string, spec_dec_string, spec_hex_lower, spec_int_string,
    to_hex_lower, u64_to_string};

verus! {

/// The module's configuration: the user token and the application
/// credentials used to sign stream requests.
#[derive(Clone)]
pub struct Config {
    pub token: String,
    pub app_id: String,
    pub app_secret: String,
}

/// A service reply: either the payload or an error message.
pub enum ApiResponse<T> {
    Payload(T),
    Failure { message: String },
}

/// The service's search reply.
pub struct SearchResponse {
    pub tracks: Results<Track>,
}

/// A paginated result list of the service.
pub struct Results<T> {
    pub items: Vec<T>,
}

/// One track record of the service.
pub struct Track {
    pub id: u64,
    pub title: String,
    pub duration: usize,
    pub performer: Performer,
    pub album: Album,
}

/// One performer record of the service.
pub struct Performer {
    pub id: u64,
    pub name: String,
}

/// One album record of the service.
pub struct Album {
    pub image: Image,
}

/// An album's cover image URLs.
pub struct Image {
    pub large: String,
}

/// The reply to a stream-URL request.
pub struct GetFileUrlResponse {
    pub url: String,
    pub mime_type: String,
    pub sample: bool,
}

/// The service API path for an endpoint: the fixed API prefix followed by
/// the endpoint path.
pub fn api_path(endpoint: &str) -> (r: String)
    ensures
        r@ == "/api.json/0.2/"@ + endpoint@,
{
    String::from_str("/api.json/0.2/").concat(endpoint)
}

/// The query of a search request: the search text, the fixed page size of
/// twenty, and the page's offset into the results.
pub fn search_query(query: &str, page: usize) -> (q: Vec<(String, String)>)
    requires
        page * 20 <= usize::MAX,
    ensures
        q@.len() == 3,
        q@[0].0@ == "query"@ && q@[0].1@ == query@,
        q@[1].0@ == "limit"@ && q@[1].1@ == "20"@,
        q@[2].0@ == "offset"@ && q@[2].1@ == spec_dec_string((page * 20) as nat),
{
    let offset: usize = page * 20;
    let mut q: Vec<(String, String)> = Vec::new();
    q.push((String::from_str("query"), String::from_str(query)));
    q.push((String::from_str("limit"), String::from_str("20")));
    q.push((String::from_str("offset"), u64_to_string(offset as u64)));
    q
}

/// What a stream request signs: the endpoint name, the fixed
/// format/intent/sample parameters, the track id, the request timestamp
/// and the application secret, concatenated.
pub open spec fn spec_sign_payload(track_id: Seq<char>, ts: int, secret: Seq<char>) -> Seq<char> {
    "trackgetFileUrlformat_id6intentstreamsamplefalsetrack_id"@ + track_id + spec_int_string(ts)
        + secret
}

/// Builds the string a stream request signature is computed over.
pub fn sign_payload(track_id: &str, ts: i64, app_secret: &str) -> (r: String)
    ensures
        r@ == spec_sign_payload(track_id@, ts as int, app_secret@),
{
    String::from_str("trackgetFileUrlformat_id6intentstreamsamplefalsetrack_id").concat(
        track_id,
    ).concat(i64_to_string(ts).as_str()).concat(app_secret)
}

/// The MD5 digest of a byte sequence.
pub uninterp spec fn spec_md5(data: Seq<u8>) -> Seq<u8>;

/// Relies on the `md-5` crate's `Md5` hasher: the digest is 16 bytes and
/// is a function of the input bytes alone.
#[verifier::external_body]
fn md5_digest(data: &[u8]) -> (r: Vec<u8>)
    ensures
        r@ == spec_md5(data@),
        r@.len() == 16,
{
    <md5::Md5 as md5::Digest>::digest(data).to_vec()
}

/// The request signature of a stream request: the lower-case hex MD5
/// digest of the UTF-8 bytes of the sign payload.
pub open spec fn spec_request_sig(track_id: Seq<char>, ts: int, secret: Seq<char>) -> Seq<char> {
    spec_hex_lower(spec_md5(vstd::utf8::encode_utf8(spec_sign_payload(track_id, ts, secret))))
}

/// Computes a stream request's signature.
pub fn request_sig(track_id: &str, ts: i64, app_secret: &str) -> (r: String)
    ensures
        r@ == spec_request_sig(track_id@, ts as int, app_secret@),
{
    let payload = sign_payload(track_id, ts, app_secret);
    let digest = md5_digest(payload.as_str().as_bytes());
    to_hex_lower(&digest)
}

/// The query a stream request carries, for the timestamp `ts`: the fixed
/// format/intent/sample parameters, the track id, the timestamp and the
/// signature over all of them.
pub open spec fn spec_stream_query(
    q: Seq<(String, String)>,
    track_id: Seq<char>,
    ts: int,
    secret: Seq<char>,
) -> bool {
    &&& q.len() == 6
    &&& q[0].0@ == "format_id"@ && q[0].1@ == "6"@
    &&& q[1].0@ == "intent"@ && q[1].1@ == "stream"@
    &&& q[2].0@ == "sample"@ && q[2].1@ == "false"@
    &&& q[3].0@ == "track_id"@ && q[3].1@ == track_id
    &&& q[4].0@ == "request_ts"@ && q[4].1@ == spec_int_string(ts)
    &&& q[5].0@ == "request_sig"@ && q[5].1@ == spec_request_sig(track_id, ts, secret)
}

/// Builds a stream request's query for a given timestamp.
pub fn stream_query_at(track_id: &str, app_secret: &str, ts: i64) -> (q: Vec<(String, String)>)
    ensures
        spec_stream_query(q@, track_id@, ts as int, app_secret@),
{
    let sig = request_sig(track_id, ts, app_secret);
    let mut q: Vec<(String, String)> = Vec::new();
    q.push((String::from_str("format_id"), String::from_str("6")));
    q.push((String::from_str("intent"), String::from_str("stream")));
    q.push((String::from_str("sample"), String::from_str("false")));
    q.push((String::from_str("track_id"), String::from_str(track_id)));
    q.push((String::from_str("request_ts"), i64_to_string(ts)));
    q.push((String::from_str("request_sig"), sig));
    q
}

/// Builds a stream request's query, timestamped with the clock: the query
/// is well-formed for some timestamp, whatever the clock returned.
pub fn stream_query(track_id: &str, app_secret: &str) -> (q: Vec<(String, String)>)
    ensures
        exists|ts: int| spec_stream_query(q@, track_id@, ts, app_secret@),
{
    let ts = crate::now_timestamp();
    let q = stream_query_at(track_id, app_secret, ts);
    proof {
        assert(spec_stream_query(q@, track_id@, ts as int, app_secret@));
    }
    q
}

/// The '/'-separated path segments of a URL, if the string parses as a
/// URL whose path has segments at all.
pub uninterp spec fn spec_url_segments(s: Seq<char>) -> Option<Seq<Seq<char>>>;

/// Relies on the `url` crate's `Url::parse` and `Url::path_segments`:
/// both are functions of the URL string alone; `path_segments` returns
/// the '/'-separated segments of the parsed URL's path, or nothing for a
/// URL that cannot be a base.
#[verifier::external_body]
fn url_segments(s: &str) -> (r: Option<Vec<String>>)
    ensures
        r is Some <==> spec_url_segments(s@) is Some,
        r matches Some(v) ==> v.deep_view() == spec_url_segments(s@)->Some_0,
{
    match url::Url::parse(s) {
        Ok(u) => u.path_segments().map(|it| it.map(|seg| seg.to_string()).collect()),
        Err(_) => None,
    }
}

/// Extracts the track id from a track page URL: the second path segment.
/// A string that does not parse as a URL with at least two path segments
/// is rejected.
pub fn track_id_from_url(url: &str) -> (r: Result<String, Error>)
    ensures
        r is Ok <==> (spec_url_segments(url@) matches Some(segs) && segs.len() >= 2),
        r is Ok ==> r->Ok_0@ == spec_url_segments(url@)->Some_0[1],
        r is Err ==> (r->Err_0 matches Error::ServiceError(m) && m@ == "invalid url"@),
{
    match url_segments(url) {
        Some(segs) => {
            if segs.len() >= 2 {
                let id = segs[1].clone();
                proof {
                    assert(segs.deep_view()[1] == segs@[1]@);
                }
                Ok(id)
            } else {
                Err(Error::ServiceError(String::from_str("invalid url")))
            }
        },
        None => Err(Error::ServiceError(String::from_str("invalid url"))),
    }
}

/// The track page URL of a service track: the fixed track page prefix and
/// the decimal track id.
pub open spec fn spec_track_url(id: nat) -> Seq<char> {
    "https://open.qobuz.com/track/"@ + spec_dec_string(id)
}

/// The library artist record a service performer converts to.
pub open spec fn spec_artist_converted(out: crate::Artist, inp: Performer) -> bool {
    &&& out.id@ == spec_dec_string(inp.id as nat)
    &&& out.name@ == inp.name@
}

/// The library track record a service track converts to: the numeric id
/// becomes decimal text, the track page URL is derived from the id, the
/// duration becomes milliseconds, the performer is the single artist, and
/// the large album image is the cover.
pub open spec fn spec_track_converted(out: crate::Track, inp: Track) -> bool {
    &&& out.id@ == spec_dec_string(inp.id as nat)
    &&& out.url@ == spec_track_url(inp.id as nat)
    &&& out.title@ == inp.title@
    &&& out.duration_ms == inp.duration * 1000
    &&& out.artists@.len() == 1
    &&& spec_artist_converted(out.artists@[0], inp.performer)
    &&& out.cover_url@ == inp.album.image.large@
}

impl Track {
    /// Converts the service track to the library's track record.
    pub fn to_track(&self) -> (r: crate::Track)
        requires
            self.duration * 1000 <= usize::MAX,
        ensures
            spec_track_converted(r, *self),
    {
        let mut artists: Vec<crate::Artist> = Vec::new();
        artists.push(
            crate::Artist { id: u64_to_string(self.performer.id), name: self.performer.name.clone() },
        );
        crate::Track {
            id: u64_to_string(self.id),
            url: String::from_str("https://open.qobuz.com/track/").concat(
                u64_to_string(self.id).as_str(),
            ),
            title: self.title.clone(),
            duration_ms: self.duration * 1000,
            artists,
            cover_url: self.album.image.large.clone(),
        }
    }
}

/// Converts the service's search reply to the library's search results: a
/// service error message becomes a service error, a payload converts
/// track by track in the service's order.
pub fn search_results_from(resp: &ApiResponse<SearchResponse>) -> (r: Result<
    crate::SearchResults,
    Error,
>)
    requires
        resp matches ApiResponse::Payload(s) ==> forall|i: int|
            0 <= i < s.tracks.items@.len() ==> (#[trigger] s.tracks.items@[i]).duration * 1000
                <= usize::MAX,
    ensures
        r is Ok <==> resp is Payload,
        r is Ok ==> {
            let items = resp->Payload_0.tracks.items@;
            &&& r->Ok_0.tracks@.len() == items.len()
            &&& forall|i: int|
                0 <= i < items.len() ==> spec_track_converted(
                    #[trigger] r->Ok_0.tracks@[i],
                    items[i],
                )
        },
        r is Err ==> (r->Err_0 matches Error::ServiceError(m) && m@
            == resp->Failure_message@),
{
    match resp {
        ApiResponse::Payload(s) => {
            let n = s.tracks.items.len();
            let mut tracks: Vec<crate::Track> = Vec::new();
            let mut i: usize = 0;
            while i < n
                invariant
                    i <= n,
                    n == s.tracks.items@.len(),
                    tracks@.len() == i,
                    forall|k: int|
                        0 <= k < s.tracks.items@.len() ==> (#[trigger] s.tracks.items@[k]).duration
                            * 1000 <= usize::MAX,
                    forall|k: int|
                        0 <= k < i ==> spec_track_converted(
                            #[trigger] tracks@[k],
                            s.tracks.items@[k],
                        ),
                decreases n - i,
            {
                tracks.push(s.tracks.items[i].to_track());
                i += 1;
            }
            Ok(crate::SearchResults { tracks })
        },
        ApiResponse::Failure { message } => Err(Error::ServiceError(message.clone())),
    }
}

/// Decides the download from a stream-URL reply: a service error message
/// or a sample-only reply is a service error, a mime type other than
/// lossless audio is unsupported, and otherwise the reply's URL is
/// downloaded as lossless audio.
pub fn stream_decision(resp: &ApiResponse<GetFileUrlResponse>) -> (r: Result<
    (String, AudioFormat),
    Error,
>)
    ensures
        resp matches ApiResponse::Failure { message } ==> (r matches Err(e) && (
        e matches Error::ServiceError(m) && m@ == message@)),
        resp matches ApiResponse::Payload(v) ==> {
            if v.sample {
                r matches Err(e) && (e matches Error::ServiceError(m) && m@
                    == "cannot get full song"@)
            } else if v.mime_type@ == "audio/flac"@ {
                r matches Ok(p) && p.0@ == v.url@ && p.1 == AudioFormat::Flac
            } else {
                r == Err::<(String, AudioFormat), Error>(Error::UnsupportedFormatError)
            }
        },
{
    match resp {
        ApiResponse::Payload(v) => {
            if v.sample {
                Err(Error::ServiceError(String::from_str("cannot get full song")))
            } else if crate::strutil::str_eq(v.mime_type.as_str(), "audio/flac") {
                Ok((v.url.clone(), AudioFormat::Flac))
            } else {
                Err(Error::UnsupportedFormatError)
            }
        },
        ApiResponse::Failure { message } => Err(Error::ServiceError(message.clone())),
    }
}

} // verus!
