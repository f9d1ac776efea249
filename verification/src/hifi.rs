//! The hifi backend module: its service data model and the verified parts
//! of its logic. The HTTP round-trips themselves run outside the library;
//! the library converts the service's records and decides which host and
//! which reply element to use.

use vstd::prelude::*;
use vstd::string::StringExecFns;

use crate::error::Error;
use crate::format::AudioFormat;
use crate::strutil::{replace_char, spec_dec_string, spec_replace_char, u64_to_string};

verus! {

/// One API host the module may try.
#[derive(Clone)]
pub struct Host {
    pub base_url: String,
}

/// The module's configuration: the ordered list of hosts to try.
#[derive(Clone)]
pub struct Config(pub Vec<Host>);

/// The service's search reply.
pub struct SearchResponse {
    pub items: Vec<Track>,
}

/// One track record of the service.
pub struct Track {
    pub id: u64,
    pub title: String,
    pub url: String,
    pub duration: usize,
    pub artist: Artist,
    pub album: Album,
}

/// One artist record of the service.
pub struct Artist {
    pub id: u64,
    pub name: String,
}

/// One album record of the service.
pub struct Album {
    pub id: u64,
    pub title: String,
    pub cover: String,
}

/// The per-track reply element carrying the direct download URL.
pub struct TrackResponse {
    pub original_track_url: String,
}

/// The cover image URL derived from a service cover identifier: the
/// identifier's dashes become path separators inside the fixed image
/// host's URL.
pub open spec fn spec_cover_url(cover: Seq<char>) -> Seq<char> {
    "https://resources.tidal.com/images/"@ + spec_replace_char(cover, '-', '/') + "/750x750.jpg"@
}

/// The library artist record a service artist converts to.
pub open spec fn spec_artist_converted(out: crate::Artist, inp: Artist) -> bool {
    &&& out.id@ == spec_dec_string(inp.id as nat)
    &&& out.name@ == inp.name@
}

/// The library track record a service track converts to: the numeric id
/// becomes decimal text, the duration becomes milliseconds, the single
/// artist is kept, and the cover identifier becomes the image URL.
pub open spec fn spec_track_converted(out: crate::Track, inp: Track) -> bool {
    &&& out.id@ == spec_dec_string(inp.id as nat)
    &&& out.url@ == inp.url@
    &&& out.title@ == inp.title@
    &&& out.duration_ms == inp.duration * 1000
    &&& out.artists@.len() == 1
    &&& spec_artist_converted(out.artists@[0], inp.artist)
    &&& out.cover_url@ == spec_cover_url(inp.album.cover@)
}

impl Artist {
    /// Converts the service artist to the library's artist record.
    pub fn to_artist(&self) -> (r: crate::Artist)
        ensures
            spec_artist_converted(r, *self),
    {
        crate::Artist { id: u64_to_string(self.id), name: self.name.clone() }
    }
}

impl Track {
    /// Converts the service track to the library's track record.
    pub fn to_track(&self) -> (r: crate::Track)
        requires
            self.duration * 1000 <= usize::MAX,
        ensures
            spec_track_converted(r, *self),
    {
        let cover_url = String::from_str("https://resources.tidal.com/images/").concat(
            replace_char(self.album.cover.as_str(), '-', '/').as_str(),
        ).concat("/750x750.jpg");
        let mut artists: Vec<crate::Artist> = Vec::new();
        artists.push(self.artist.to_artist());
        crate::Track {
            id: u64_to_string(self.id),
            url: self.url.clone(),
            title: self.title.clone(),
            duration_ms: self.duration * 1000,
            artists,
            cover_url,
        }
    }
}

impl SearchResponse {
    /// Converts the service's search reply to the library's search
    /// results, keeping the service's order.
    pub fn to_search_results(&self) -> (r: crate::SearchResults)
        requires
            forall|i: int|
                0 <= i < self.items@.len() ==> (#[trigger] self.items@[i]).duration * 1000
                    <= usize::MAX,
        ensures
            r.tracks@.len() == self.items@.len(),
            forall|i: int|
                0 <= i < self.items@.len() ==> spec_track_converted(
                    #[trigger] r.tracks@[i],
                    self.items@[i],
                ),
    {
        let n = self.items.len();
        let mut tracks: Vec<crate::Track> = Vec::new();
        let mut i: usize = 0;
        while i < n
            invariant
                i <= n,
                n == self.items@.len(),
                tracks@.len() == i,
                forall|k: int|
                    0 <= k < self.items@.len() ==> (#[trigger] self.items@[k]).duration * 1000
                        <= usize::MAX,
                forall|k: int|
                    0 <= k < i ==> spec_track_converted(#[trigger] tracks@[k], self.items@[k]),
            decreases n - i,
        {
            tracks.push(self.items[i].to_track());
            i += 1;
        }
        crate::SearchResults { tracks }
    }
}

/// The query of a search request: the single search-text parameter.
pub fn search_query(query: &str) -> (q: Vec<(String, String)>)
    ensures
        q@.len() == 1,
        q@[0].0@ == "s"@ && q@[0].1@ == query@,
{
    let mut q: Vec<(String, String)> = Vec::new();
    q.push((String::from_str("s"), String::from_str(query)));
    q
}

/// One in-order scan over the configured hosts, one round-trip at a time.
///
/// The edge performs each request and records its outcome; the scan
/// decides whether to use the host, go on to the next, or give up. It
/// selects the host [`select_host`] names when given all the outcomes at
/// once: the first that answered with an OK response.
pub struct HostScan {
    index: usize,
    count: usize,
    outcomes: Ghost<Seq<bool>>,
}

impl HostScan {
    /// The outcomes recorded so far, in host order.
    pub closed spec fn spec_outcomes(self) -> Seq<bool> {
        self.outcomes@
    }

    /// How many hosts the scan covers.
    pub closed spec fn spec_count(self) -> int {
        self.count as int
    }

    /// The position the next round-trip targets.
    pub closed spec fn spec_index(self) -> int {
        self.index as int
    }

    /// Well-formedness: one outcome per host tried, and at most the last
    /// recorded outcome is a success — a success ends the scan.
    pub closed spec fn wf(self) -> bool {
        &&& self.index <= self.count
        &&& self.outcomes@.len() == self.index
        &&& forall|j: int|
            0 <= j < self.outcomes@.len() && #[trigger] self.outcomes@[j] ==> j + 1
                == self.outcomes@.len()
    }

    /// No host has answered yet: every recorded outcome was a failure.
    pub closed spec fn spec_live(self) -> bool {
        forall|j: int| 0 <= j < self.outcomes@.len() ==> !self.outcomes@[j]
    }

    /// Starts a scan over the given number of hosts.
    pub fn new(host_count: usize) -> (s: HostScan)
        ensures
            s.wf(),
            s.spec_live(),
            s.spec_count() == host_count,
            s.spec_index() == 0,
    {
        HostScan { index: 0, count: host_count, outcomes: Ghost(Seq::empty()) }
    }

    /// The host the next round-trip should try, if one is left.
    pub fn current(&self) -> (r: Option<usize>)
        requires
            self.wf(),
        ensures
            r matches Some(i) ==> i as int == self.spec_index() && self.spec_index()
                < self.spec_count(),
            r is None <==> self.spec_index() == self.spec_count(),
    {
        if self.index < self.count {
            Some(self.index)
        } else {
            None
        }
    }

    /// The error an exhausted scan ends with: no host answered, including
    /// the case of an empty host list.
    pub fn exhausted(&self) -> (r: Error)
        requires
            self.wf(),
            self.spec_index() == self.spec_count(),
        ensures
            r matches Error::ServiceError(m) && m@ == "cannot find usable server"@,
    {
        Error::ServiceError(String::from_str("cannot find usable server"))
    }

    /// Records the outcome of the round-trip to the current host. An OK
    /// answer selects that host — the first to answer OK, since every
    /// earlier one failed; a failure moves on to the next host, or, when
    /// no host is left, ends the scan with the service error.
    pub fn record(&mut self, succeeded: bool) -> (r: Option<Result<usize, Error>>)
        requires
            old(self).wf(),
            old(self).spec_live(),
            old(self).spec_index() < old(self).spec_count(),
        ensures
            final(self).wf(),
            final(self).spec_count() == old(self).spec_count(),
            final(self).spec_index() == old(self).spec_index() + 1,
            final(self).spec_outcomes() == old(self).spec_outcomes().push(succeeded),
            succeeded ==> (r == Some(Ok::<usize, Error>((old(self).spec_index()) as usize))
                && final(self).spec_outcomes()[old(self).spec_index()] && forall|j: int|
                0 <= j < old(self).spec_index() ==> !final(self).spec_outcomes()[j]),
            !succeeded ==> final(self).spec_live(),
            !succeeded && old(self).spec_index() + 1 < old(self).spec_count() ==> r is None,
            !succeeded && old(self).spec_index() + 1 == old(self).spec_count() ==> (
            r matches Some(res) && (res matches Err(e) && (e matches Error::ServiceError(m) && m@
                == "cannot find usable server"@))),
    {
        proof {
            self.outcomes@ = self.outcomes@.push(succeeded);
        }
        let tried = self.index;
        self.index = self.index + 1;
        if succeeded {
            Some(Ok(tried))
        } else if self.index < self.count {
            None
        } else {
            Some(Err(Error::ServiceError(String::from_str("cannot find usable server"))))
        }
    }
}

/// Selects the host whose request round-trip succeeded: the first one, in
/// configuration order, that answered with an OK response.
///
/// `succeeded[i]` says whether host `i`'s round-trip produced an OK
/// response. Fails with a service error exactly when no host did.
pub fn select_host(succeeded: &Vec<bool>) -> (r: Result<usize, Error>)
    ensures
        r is Ok <==> exists|i: int| 0 <= i < succeeded@.len() && succeeded@[i],
        r is Ok ==> {
            let k = r->Ok_0 as int;
            &&& 0 <= k < succeeded@.len()
            &&& succeeded@[k]
            &&& forall|j: int| 0 <= j < k ==> !succeeded@[j]
        },
        r is Err ==> (r->Err_0 matches Error::ServiceError(m) && m@
            == "cannot find usable server"@),
{
    let n = succeeded.len();
    let mut i: usize = 0;
    while i < n
        invariant
            i <= n,
            n == succeeded@.len(),
            forall|j: int| 0 <= j < i ==> !succeeded@[j],
        decreases n - i,
    {
        if succeeded[i] {
            return Ok(i);
        }
        i += 1;
    }
    Err(Error::ServiceError(String::from_str("cannot find usable server")))
}

/// Decides the download from the track reply element, once the transport
/// has fetched and parsed it: the direct track URL, always lossless
/// audio. A missing or unparseable element is a service error.
pub fn stream_request(track_response: Option<TrackResponse>) -> (r: Result<
    (String, AudioFormat),
    Error,
>)
    ensures
        r is Ok <==> track_response is Some,
        r is Ok ==> r->Ok_0.0@ == track_response->Some_0.original_track_url@ && r->Ok_0.1
            == AudioFormat::Flac,
        r is Err ==> (r->Err_0 matches Error::ServiceError(m) && m@
            == "service did not return valid json"@),
{
    match track_response {
        Some(t) => Ok((t.original_track_url, AudioFormat::Flac)),
        None => Err(
            Error::ServiceError(String::from_str("service did not return valid json")),
        ),
    }
}

} // verus!
