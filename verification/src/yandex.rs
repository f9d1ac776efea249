//! The yandex backend module: its service data model and the verified
//! parts of its logic — the signed stream query with its HMAC-SHA256
//! signature, reply conversion and the codec decision. The HTTP
//! round-trips run outside the library.

use vstd::prelude::*;
use vstd::string::StringExecFns;

use crate::error::Error;
use crate::format::AudioFormat;
use crate::strutil::{i64_to_string, replace_pair, spec_dec_string, spec_int_string,
    spec_replace_pair, spec_strip_char, strip_char, u64_to_string};

verus! {

/// The module's configuration: the user's OAuth token.
#[derive(Clone)]
pub struct Config {
    pub token: String,
}

/// A service reply wrapping its payload.
pub struct ApiResponse<T> {
    pub result: T,
}

/// The service's search reply.
pub struct SearchResponse {
    pub tracks: TracksData,
}

/// The reply to a file-info request.
pub struct GetFileInfoResponse {
    pub download_info: DownloadInfo,
}

/// Where and in what codec a track can be downloaded.
pub struct DownloadInfo {
    pub codec: String,
    pub bitrate: u16,
    pub url: String,
}

/// The track list of a search reply.
pub struct TracksData {
    pub results: Vec<Track>,
}

/// One track record of the service.
pub struct Track {
    pub id: u64,
    pub title: String,
    pub duration_ms: usize,
    pub artists: Vec<Artist>,
    pub albums: Vec<Album>,
    pub cover_uri: String,
}

/// One album record of the service.
pub struct Album {
    pub id: u64,
}

/// One artist record of the service.
pub struct Artist {
    pub id: u64,
    pub name: String,
}

/// The fixed key stream request signatures are computed with.
fn sign_key() -> (r: &'static str)
    ensures
        r@ == "kzqU4XhfCaY6B6JTHODeq5"@,
{
    "kzqU4XhfCaY6B6JTHODeq5"
}

/// The codec list a stream request asks for.
fn codecs_param() -> (r: &'static str)
    ensures
        r@ == "flac,flac-mp4,aac,aac-mp4,mp3"@,
{
    "flac,flac-mp4,aac,aac-mp4,mp3"
}

/// The authorization header value for a token.
pub fn auth_header(token: &str) -> (r: String)
    ensures
        r@ == "OAuth "@ + token@,
{
    String::from_str("OAuth ").concat(token)
}

/// The query of a search request: the search text, the track result type
/// and the page number.
pub fn search_query(query: &str, page: usize) -> (q: Vec<(String, String)>)
    ensures
        q@.len() == 3,
        q@[0].0@ == "text"@ && q@[0].1@ == query@,
        q@[1].0@ == "type"@ && q@[1].1@ == "track"@,
        q@[2].0@ == "page"@ && q@[2].1@ == spec_dec_string(page as nat),
{
    let mut q: Vec<(String, String)> = Vec::new();
    q.push((String::from_str("text"), String::from_str(query)));
    q.push((String::from_str("type"), String::from_str("track")));
    q.push((String::from_str("page"), u64_to_string(page as u64)));
    q
}

/// What a stream request signs: the timestamp, the track id, the quality,
/// and the codec and transport lists with their commas stripped,
/// concatenated.
pub open spec fn spec_sign_payload(ts: int, track_id: Seq<char>) -> Seq<char> {
    spec_int_string(ts) + track_id + "lossless"@ + spec_strip_char(
        "flac,flac-mp4,aac,aac-mp4,mp3"@,
        ',',
    ) + spec_strip_char("raw"@, ',')
}

/// Builds the string a stream request signature is computed over.
pub fn sign_payload(ts: i64, track_id: &str) -> (r: String)
    ensures
        r@ == spec_sign_payload(ts as int, track_id@),
{
    i64_to_string(ts).concat(track_id).concat("lossless").concat(
        strip_char(codecs_param(), ',').as_str(),
    ).concat(strip_char("raw", ',').as_str())
}

/// The HMAC-SHA256 authentication code of a message under a key.
pub uninterp spec fn spec_hmac_sha256(key: Seq<u8>, msg: Seq<u8>) -> Seq<u8>;

/// Relies on the `hmac` crate's `Hmac<Sha256>`: the 32-byte code is a
/// function of the key and message bytes alone, and HMAC accepts keys of
/// any length, so construction cannot fail.
#[verifier::external_body]
fn hmac_sha256(key: &[u8], msg: &[u8]) -> (r: Vec<u8>)
    ensures
        r@ == spec_hmac_sha256(key@, msg@),
        r@.len() == 32,
{
    let mut mac = <hmac::Hmac<sha2::Sha256> as hmac::KeyInit>::new_from_slice(key).unwrap();
    hmac::Mac::update(&mut mac, msg);
    hmac::Mac::finalize(mac).into_bytes().to_vec()
}

/// The standard base64 encoding of a byte sequence, without padding.
pub uninterp spec fn spec_base64_nopad(data: Seq<u8>) -> Seq<char>;

/// Relies on the `base64` crate's standard no-padding engine: the
/// encoding is a function of the input bytes alone.
#[verifier::external_body]
fn base64_nopad(data: &[u8]) -> (r: String)
    ensures
        r@ == spec_base64_nopad(data@),
{
    base64::Engine::encode(&base64::prelude::BASE64_STANDARD_NO_PAD, data)
}

/// The signature of a stream request: the unpadded base64 encoding of the
/// HMAC-SHA256 code of the sign payload's UTF-8 bytes under the fixed
/// key's UTF-8 bytes.
pub open spec fn spec_sign(ts: int, track_id: Seq<char>) -> Seq<char> {
    spec_base64_nopad(
        spec_hmac_sha256(
            vstd::utf8::encode_utf8("kzqU4XhfCaY6B6JTHODeq5"@),
            vstd::utf8::encode_utf8(spec_sign_payload(ts, track_id)),
        ),
    )
}

/// Computes a stream request's signature.
pub fn sign(ts: i64, track_id: &str) -> (r: String)
    ensures
        r@ == spec_sign(ts as int, track_id@),
{
    let payload = sign_payload(ts, track_id);
    let code = hmac_sha256(sign_key().as_bytes(), payload.as_str().as_bytes());
    base64_nopad(code.as_slice())
}

/// The query a stream request carries, for the timestamp `ts`: the
/// timestamp, the track id, the fixed quality, codec and transport
/// parameters, and the signature over all of them.
pub open spec fn spec_stream_query(q: Seq<(String, String)>, ts: int, track_id: Seq<char>) -> bool {
    &&& q.len() == 6
    &&& q[0].0@ == "ts"@ && q[0].1@ == spec_int_string(ts)
    &&& q[1].0@ == "trackId"@ && q[1].1@ == track_id
    &&& q[2].0@ == "quality"@ && q[2].1@ == "lossless"@
    &&& q[3].0@ == "codecs"@ && q[3].1@ == "flac,flac-mp4,aac,aac-mp4,mp3"@
    &&& q[4].0@ == "transports"@ && q[4].1@ == "raw"@
    &&& q[5].0@ == "sign"@ && q[5].1@ == spec_sign(ts, track_id)
}

/// Builds a stream request's query for a given timestamp.
pub fn stream_query_at(track_id: &str, ts: i64) -> (q: Vec<(String, String)>)
    ensures
        spec_stream_query(q@, ts as int, track_id@),
{
    let signature = sign(ts, track_id);
    let mut q: Vec<(String, String)> = Vec::new();
    q.push((String::from_str("ts"), i64_to_string(ts)));
    q.push((String::from_str("trackId"), String::from_str(track_id)));
    q.push((String::from_str("quality"), String::from_str("lossless")));
    q.push((String::from_str("codecs"), String::from_str(codecs_param())));
    q.push((String::from_str("transports"), String::from_str("raw")));
    q.push((String::from_str("sign"), signature));
    q
}

/// Builds a stream request's query, timestamped with the clock: the query
/// is well-formed for some timestamp, whatever the clock returned.
pub fn stream_query(track_id: &str) -> (q: Vec<(String, String)>)
    ensures
        exists|ts: int| spec_stream_query(q@, ts, track_id@),
{
    let ts = crate::now_timestamp();
    let q = stream_query_at(track_id, ts);
    proof {
        assert(spec_stream_query(q@, ts as int, track_id@));
    }
    q
}

/// The audio format a reply's codec name declares, with the reply's
/// bitrate attached to the lossy formats.
pub open spec fn spec_format_from_codec(codec: Seq<char>, bitrate: u16) -> Result<
    AudioFormat,
    Error,
> {
    if codec == "mp3"@ {
        Ok(AudioFormat::Mp3(bitrate))
    } else if codec == "aac-mp4"@ {
        Ok(AudioFormat::Aac(bitrate))
    } else if codec == "flac-mp4"@ {
        Ok(AudioFormat::Flac)
    } else {
        Err(Error::UnsupportedFormatError)
    }
}

/// Decides the download from a file-info reply: the declared download
/// URL, in the audio format the reply's codec names; every other codec is
/// unsupported.
pub fn stream_decision(resp: &ApiResponse<GetFileInfoResponse>) -> (r: Result<
    (String, AudioFormat),
    Error,
>)
    ensures
        r is Ok <==> spec_format_from_codec(
            resp.result.download_info.codec@,
            resp.result.download_info.bitrate,
        ) is Ok,
        r is Ok ==> r->Ok_0.0@ == resp.result.download_info.url@ && Ok::<AudioFormat, Error>(
            r->Ok_0.1,
        ) == spec_format_from_codec(
            resp.result.download_info.codec@,
            resp.result.download_info.bitrate,
        ),
        r is Err ==> r->Err_0 == Error::UnsupportedFormatError,
{
    let info = &resp.result.download_info;
    let codec = info.codec.as_str();
    if crate::strutil::str_eq(codec, "mp3") {
        Ok((info.url.clone(), AudioFormat::Mp3(info.bitrate)))
    } else if crate::strutil::str_eq(codec, "aac-mp4") {
        Ok((info.url.clone(), AudioFormat::Aac(info.bitrate)))
    } else if crate::strutil::str_eq(codec, "flac-mp4") {
        Ok((info.url.clone(), AudioFormat::Flac))
    } else {
        Err(Error::UnsupportedFormatError)
    }
}

/// The library artist record a service artist converts to.
pub open spec fn spec_artist_converted(out: crate::Artist, inp: Artist) -> bool {
    &&& out.id@ == spec_dec_string(inp.id as nat)
    &&& out.name@ == inp.name@
}

/// The track page URL of a service track: the fixed track page prefix,
/// the first album's id and the track's id.
pub open spec fn spec_track_url(album_id: nat, track_id: nat) -> Seq<char> {
    "https://music.yandex.ru/album/"@ + spec_dec_string(album_id) + "/track/"@ + spec_dec_string(
        track_id,
    )
}

/// The cover image URL of a service track: the scheme prefixed to the
/// cover URI with its size marker replaced by the original size.
pub open spec fn spec_cover_url(cover_uri: Seq<char>) -> Seq<char> {
    "https://"@ + spec_replace_pair(cover_uri, '%', '%', "orig"@)
}

/// The library track record a service track converts to: the numeric id
/// becomes decimal text, the track page URL is derived from the first
/// album and the id, every artist is kept in order, and the cover URI
/// becomes the original-size image URL.
pub open spec fn spec_track_converted(out: crate::Track, inp: Track) -> bool {
    &&& out.id@ == spec_dec_string(inp.id as nat)
    &&& out.url@ == spec_track_url(inp.albums@[0].id as nat, inp.id as nat)
    &&& out.title@ == inp.title@
    &&& out.duration_ms == inp.duration_ms
    &&& out.artists@.len() == inp.artists@.len()
    &&& forall|i: int|
        0 <= i < inp.artists@.len() ==> spec_artist_converted(
            #[trigger] out.artists@[i],
            inp.artists@[i],
        )
    &&& out.cover_url@ == spec_cover_url(inp.cover_uri@)
}

impl Artist {
    /// Converts the service artist to the library's artist record.
    pub fn to_artist(&self) -> (r: crate::Artist)
        ensures
            spec_artist_converted(r, *self),
    {
        crate::Artist { id: u64_to_string(self.id), name: self.name.clone() }
    }
}

impl Track {
    /// Converts the service track to the library's track record.
    pub fn to_track(&self) -> (r: crate::Track)
        requires
            self.albums@.len() > 0,
        ensures
            spec_track_converted(r, *self),
    {
        let url = String::from_str("https://music.yandex.ru/album/").concat(
            u64_to_string(self.albums[0].id).as_str(),
        ).concat("/track/").concat(u64_to_string(self.id).as_str());
        let cover_url = String::from_str("https://").concat(
            replace_pair(self.cover_uri.as_str(), '%', '%', "orig").as_str(),
        );
        let n = self.artists.len();
        let mut artists: Vec<crate::Artist> = Vec::new();
        let mut i: usize = 0;
        while i < n
            invariant
                i <= n,
                n == self.artists@.len(),
                artists@.len() == i,
                forall|k: int|
                    0 <= k < i ==> spec_artist_converted(
                        #[trigger] artists@[k],
                        self.artists@[k],
                    ),
            decreases n - i,
        {
            artists.push(self.artists[i].to_artist());
            i += 1;
        }
        crate::Track {
            id: u64_to_string(self.id),
            url,
            title: self.title.clone(),
            duration_ms: self.duration_ms,
            artists,
            cover_url,
        }
    }
}

/// Converts the service's search reply to the library's search results,
/// keeping the service's order.
pub fn search_results_from(resp: &ApiResponse<SearchResponse>) -> (r: crate::SearchResults)
    requires
        forall|i: int|
            0 <= i < resp.result.tracks.results@.len() ==> (#[trigger] resp.result.tracks.results@[i]).albums@.len()
                > 0,
    ensures
        r.tracks@.len() == resp.result.tracks.results@.len(),
        forall|i: int|
            0 <= i < resp.result.tracks.results@.len() ==> spec_track_converted(
                #[trigger] r.tracks@[i],
                resp.result.tracks.results@[i],
            ),
{
    let items = &resp.result.tracks.results;
    let n = items.len();
    let mut tracks: Vec<crate::Track> = Vec::new();
    let mut i: usize = 0;
    while i < n
        invariant
            i <= n,
            n == items@.len(),
            tracks@.len() == i,
            forall|k: int| 0 <= k < items@.len() ==> (#[trigger] items@[k]).albums@.len() > 0,
            forall|k: int|
                0 <= k < i ==> spec_track_converted(#[trigger] tracks@[k], items@[k]),
        decreases n - i,
    {
        tracks.push(items[i].to_track());
        i += 1;
    }
    crate::SearchResults { tracks }
}

} // verus!
