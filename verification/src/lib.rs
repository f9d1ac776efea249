//! Core of an audio acquisition and repackaging library.
//!
//! The library merges one audio elementary stream and at most one still
//! image into a tagged output container without re-encoding, moves bytes
//! through a bounded, backpressured transport, and routes search and
//! download requests to the first registered backend module that can
//! serve them.

use vstd::prelude::*;
use vstd::string::StringExecFns;

pub mod dispatch;
pub mod error;
pub mod ffi;
pub mod format;
pub mod hifi;
pub mod qobuz;
pub mod remux;
pub mod session;
pub mod strutil;
pub mod transport;
pub mod yandex;

pub use remux::Metadata;

use crate::error::Error;
use crate::format::{spec_cover_format_from, CoverFormat, Format};

verus! {

/// The search results a backend module returns: immutable records the
/// core passes through without mutating them.
#[derive(Debug)]
pub struct SearchResults {
    pub tracks: Vec<Track>,
}

/// One track of a search result.
#[derive(Debug)]
pub struct Track {
    pub id: String,
    pub url: String,
    pub title: String,
    pub duration_ms: usize,
    pub artists: Vec<Artist>,
    pub cover_url: String,
}

/// One artist of a track.
#[derive(Debug)]
pub struct Artist {
    pub id: String,
    pub name: String,
}

/// The name a staged or output file gets: the base name, a dot, and the
/// format's fixed extension.
pub fn output_filename<F: Format>(filename: &str, format: &F) -> (r: String)
    ensures
        r@ == filename@ + "."@ + format.spec_extension(),
{
    String::from_str(filename).concat(".").concat(format.extension())
}

/// Relies on chrono's `Utc::now`: the current Unix timestamp in seconds,
/// whose value depends on the system clock.
#[verifier::external_body]
pub(crate) fn now_timestamp() -> (r: i64) {
    chrono::Utc::now().timestamp()
}

/// The cover format a saved cover file assumes from a response's content
/// type: the declared type when there is one, JPEG otherwise, recognised
/// leniently (a bare file-name suffix is enough). The process boundary's
/// cover download decides differently: it accepts exactly the two image
/// MIME types (see `ffi::cover_format_from_content_type`).
pub fn cover_format_for(content_type: Option<&str>) -> (r: Result<CoverFormat, Error>)
    ensures
        r == spec_cover_format_from(
            match content_type {
                Some(s) => s@,
                None => "image/jpeg"@,
            },
        ),
{
    match content_type {
        Some(s) => CoverFormat::try_from(s),
        None => CoverFormat::try_from("image/jpeg"),
    }
}

} // verus!
