//! The request and reply shapes of the process boundary, and the verified
//! validation of module-registration requests. Serialisation across the
//! boundary, and the boundary itself, run outside the library.

use vstd::prelude::*;
use vstd::string::StringExecFns;

use crate::dispatch::{Client, ModuleInfo};
use crate::error::Error;
use crate::format::{AudioFormat, CoverFormat};
use crate::remux::Metadata;
use crate::strutil::str_eq;

verus! {

/// A request arriving over the process boundary.
pub enum FfiRequest {
    AddModule { name: String, params: Vec<(String, String)> },
    Search { service: String, query: String, page: usize },
    DownloadTrack { url: String },
    DownloadCover { url: String },
    Remux { track_download_id: u64, cover_download_id: u64, metadata: Metadata },
}

/// The reply to a track download request: the handle under which the
/// stream is polled, and the track's audio format.
pub struct DownloadTrackResponse {
    pub id: u64,
    pub format: AudioFormat,
}

/// The reply to a cover download request.
pub struct DownloadCoverResponse {
    pub id: u64,
    pub format: CoverFormat,
}

/// A reply over the process boundary: the payload, or an error message.
pub enum FfiResponse<T> {
    Success(T),
    Failure(String),
}

/// The status a polling call reports.
pub enum ErrorCode {
    Success,
    NotFound,
    IteratorEnd,
}

/// The cover format the boundary's cover download accepts for a declared
/// content type: exactly the two image MIME types, nothing else — in
/// particular no recognition by file-name suffix here.
pub open spec fn spec_cover_content_type(ct: Seq<char>) -> Result<CoverFormat, Error> {
    if ct == "image/jpeg"@ {
        Ok(CoverFormat::Jpeg)
    } else if ct == "image/png"@ {
        Ok(CoverFormat::Png)
    } else {
        Err(Error::UnsupportedFormatError)
    }
}

/// Decides a cover download's format from the response's content type,
/// which defaults to JPEG when the header is absent or unreadable: only
/// `image/jpeg` and `image/png` are accepted, and any other content type
/// is unsupported.
pub fn cover_format_from_content_type(content_type: Option<&str>) -> (r: Result<
    CoverFormat,
    Error,
>)
    ensures
        r == spec_cover_content_type(
            match content_type {
                Some(s) => s@,
                None => "image/jpeg"@,
            },
        ),
{
    match content_type {
        Some(s) => {
            if str_eq(s, "image/jpeg") {
                Ok(CoverFormat::Jpeg)
            } else if str_eq(s, "image/png") {
                Ok(CoverFormat::Png)
            } else {
                Err(Error::UnsupportedFormatError)
            }
        },
        None => Ok(CoverFormat::Jpeg),
    }
}

/// The value of the first parameter named `key` at or after position `k`,
/// if any.
pub open spec fn spec_param_from(
    params: Seq<(String, String)>,
    key: Seq<char>,
    k: int,
) -> Option<Seq<char>>
    decreases params.len() - k,
{
    if k < 0 || k >= params.len() {
        None
    } else if params[k].0@ == key {
        Some(params[k].1@)
    } else {
        spec_param_from(params, key, k + 1)
    }
}

/// The value of the first parameter named `key`, if any.
pub open spec fn spec_param(params: Seq<(String, String)>, key: Seq<char>) -> Option<Seq<char>> {
    spec_param_from(params, key, 0)
}

/// Looks up a request parameter by name.
pub fn get_param(params: &Vec<(String, String)>, key: &str) -> (r: Option<String>)
    ensures
        match r {
            Some(v) => spec_param(params@, key@) == Some(v@),
            None => spec_param(params@, key@) is None,
        },
{
    let n = params.len();
    let mut i: usize = 0;
    while i < n
        invariant
            i <= n,
            n == params@.len(),
            spec_param(params@, key@) == spec_param_from(params@, key@, i as int),
        decreases n - i,
    {
        if str_eq(params[i].0.as_str(), key) {
            return Some(params[i].1.clone());
        }
        i += 1;
    }
    None
}

/// The module parameters validated out of a registration request.
pub enum ModuleParams {
    Yandex(crate::yandex::Config),
    Qobuz(crate::qobuz::Config),
}

/// Whether a registration request names a known module and carries every
/// parameter that module requires; if not, the error message it fails
/// with.
pub open spec fn spec_module_valid(name: Seq<char>, params: Seq<(String, String)>) -> Result<
    (),
    Seq<char>,
> {
    if name == "yandex"@ {
        if spec_param(params, "token"@) is Some {
            Ok(())
        } else {
            Err("token not provided"@)
        }
    } else if name == "qobuz"@ {
        if spec_param(params, "token"@) is None {
            Err("token not provided"@)
        } else if spec_param(params, "app_id"@) is None {
            Err("app_id not provided"@)
        } else if spec_param(params, "app_secret"@) is None {
            Err("app_secret not provided"@)
        } else {
            Ok(())
        }
    } else {
        Err("module not available"@)
    }
}

/// Handles a module-registration request: a known module with its
/// required parameters is appended to the dispatcher's list and its
/// validated configuration is handed back for the boundary to construct
/// the module's client from; anything else is refused with a message and
/// leaves the dispatcher unchanged.
pub fn add_module(client: &mut Client, name: &str, params: &Vec<(String, String)>) -> (r:
    FfiResponse<ModuleParams>)
    ensures
        spec_module_valid(name@, params@) matches Err(m) ==> ((
        r matches FfiResponse::Failure(s) && s@ == m) && final(client).spec_modules() == old(
            client,
        ).spec_modules()),
        spec_module_valid(name@, params@) is Ok ==> {
            &&& final(client).spec_modules().len() == old(client).spec_modules().len() + 1
            &&& final(client).spec_modules().subrange(0, old(client).spec_modules().len() as int)
                == old(client).spec_modules()
            &&& final(client).spec_modules().last().name@ == name@
            &&& r is Success
        },
        name@ == "yandex"@ && spec_module_valid(name@, params@) is Ok ==> (
        r matches FfiResponse::Success(p) && (p matches ModuleParams::Yandex(c) && Some(c.token@)
            == spec_param(params@, "token"@))),
        name@ == "qobuz"@ && spec_module_valid(name@, params@) is Ok ==> (
        r matches FfiResponse::Success(p) && (p matches ModuleParams::Qobuz(c) && Some(c.token@)
            == spec_param(params@, "token"@) && Some(c.app_id@) == spec_param(params@, "app_id"@)
            && Some(c.app_secret@) == spec_param(params@, "app_secret"@))),
{
    if str_eq(name, "yandex") {
        let token = match get_param(params, "token") {
            Some(t) => t,
            None => {
                return FfiResponse::Failure(String::from_str("token not provided"));
            },
        };
        client.add_module(ModuleInfo { name: String::from_str(name) });
        proof {
            reveal_strlit("yandex");
            reveal_strlit("qobuz");
            assert("yandex"@.len() == 6 && "qobuz"@.len() == 5);
            assert(client.spec_modules().subrange(
                0,
                old(client).spec_modules().len() as int,
            ) =~= old(client).spec_modules());
        }
        FfiResponse::Success(ModuleParams::Yandex(crate::yandex::Config { token }))
    } else if str_eq(name, "qobuz") {
        let token = match get_param(params, "token") {
            Some(t) => t,
            None => {
                return FfiResponse::Failure(String::from_str("token not provided"));
            },
        };
        let app_id = match get_param(params, "app_id") {
            Some(t) => t,
            None => {
                return FfiResponse::Failure(String::from_str("app_id not provided"));
            },
        };
        let app_secret = match get_param(params, "app_secret") {
            Some(t) => t,
            None => {
                return FfiResponse::Failure(String::from_str("app_secret not provided"));
            },
        };
        client.add_module(ModuleInfo { name: String::from_str(name) });
        proof {
            reveal_strlit("yandex");
            reveal_strlit("qobuz");
            assert("yandex"@.len() == 6 && "qobuz"@.len() == 5);
            assert(client.spec_modules().subrange(
                0,
                old(client).spec_modules().len() as int,
            ) =~= old(client).spec_modules());
        }
        FfiResponse::Success(ModuleParams::Qobuz(crate::qobuz::Config { token, app_id, app_secret }))
    } else {
        FfiResponse::Failure(String::from_str("module not available"))
    }
}

} // verus!
