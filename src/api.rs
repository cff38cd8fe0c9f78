//! The service's endpoints, the policy that classifies every answer by its
//! status, and the `Range` header of a ranged read.

use vstd::prelude::*;
use vstd::string::StringExecFns;

use crate::error::Error;
use crate::text::{dec_digits, dec_int, decimal_i64, decimal_u64};

verus! {

/// An HTTP method.
#[derive(Debug, Clone, Copy, PartialEq, Eq, Structural)]
pub enum Method {
    Get,
    Post,
    Delete,
}

/// One operation of the service, with the identifier it is about.
#[derive(Debug, Clone, Copy, PartialEq, Eq, Structural)]
pub enum Endpoint {
    Version,
    Albums,
    CreateAlbum,
    DeleteAlbum(i64),
    DataWithoutAlbums,
    AlbumData(i64),
    /// An upload; an album identifier of zero or less means no album.
    Upload(i64),
    Preview(i64),
    Data(i64),
    DeleteData(i64),
}

/// How an answer is taken, by its status alone.
#[derive(Debug, Clone, Copy, PartialEq, Eq, Structural)]
pub enum StatusClass {
    Success,
    Unauthorized,
    NotFound,
    Failed,
}

/// The name of the header that carries the access token.
pub const ACCESS_TOKEN_HEADER: &'static str = "X-Access-Token";

/// The path of an endpoint, below the service's base address.
pub open spec fn endpoint_path(e: Endpoint) -> Seq<char> {
    match e {
        Endpoint::Version => "/api/version"@,
        Endpoint::Albums => "/api/albums"@,
        Endpoint::CreateAlbum => "/api/album"@,
        Endpoint::DeleteAlbum(id) => "/api/album/"@ + dec_int(id as int),
        Endpoint::DataWithoutAlbums => "/api/data"@,
        Endpoint::AlbumData(id) => "/api/album/"@ + dec_int(id as int) + "/data"@,
        Endpoint::Upload(album) => if album > 0 {
            "/api/upload/"@ + dec_int(album as int)
        } else {
            "/api/upload"@
        },
        Endpoint::Preview(id) => "/api/preview/"@ + dec_int(id as int),
        Endpoint::Data(id) => "/api/data/"@ + dec_int(id as int),
        Endpoint::DeleteData(id) => "/api/data/"@ + dec_int(id as int),
    }
}

/// The method of an endpoint.
pub open spec fn endpoint_method(e: Endpoint) -> Method {
    match e {
        Endpoint::CreateAlbum | Endpoint::Upload(_) => Method::Post,
        Endpoint::DeleteAlbum(_) | Endpoint::DeleteData(_) => Method::Delete,
        _ => Method::Get,
    }
}

/// What a 404 from an endpoint says was not found.
pub open spec fn missing_text(e: Endpoint) -> Seq<char> {
    match e {
        Endpoint::DeleteAlbum(id) | Endpoint::AlbumData(id) => "Album "@ + dec_int(id as int)
            + " not found"@,
        Endpoint::Upload(album) => if album > 0 {
            "Album "@ + dec_int(album as int) + " not found"@
        } else {
            "Resource not found"@
        },
        Endpoint::Preview(id) => "Preview for data "@ + dec_int(id as int) + " not found"@,
        Endpoint::Data(id) | Endpoint::DeleteData(id) => "Data "@ + dec_int(id as int)
            + " not found"@,
        _ => "Resource not found"@,
    }
}

/// How a status is taken. Only 200 succeeds, and 206 too where a partial
/// answer is acceptable (a ranged read).
pub open spec fn status_class(status: u16, partial_ok: bool) -> StatusClass {
    if status == 200 || (partial_ok && status == 206) {
        StatusClass::Success
    } else if status == 401 {
        StatusClass::Unauthorized
    } else if status == 404 {
        StatusClass::NotFound
    } else {
        StatusClass::Failed
    }
}

/// The `Range` header value for optional first and last byte offsets, or
/// none when neither is given.
pub open spec fn range_value(start: Option<u64>, end: Option<u64>) -> Option<Seq<char>> {
    match (start, end) {
        (Some(s), Some(e)) => Some("bytes="@ + dec_digits(s as nat) + "-"@ + dec_digits(e as nat)),
        (Some(s), None) => Some("bytes="@ + dec_digits(s as nat) + "-"@),
        (None, Some(e)) => Some("bytes=-"@ + dec_digits(e as nat)),
        (None, None) => None,
    }
}

/// Whether `t` occurs in `s`.
pub open spec fn occurs_in(t: Seq<char>, s: Seq<char>) -> bool {
    exists|i: int| 0 <= i <= s.len() - t.len() && #[trigger] s.subrange(i, i + t.len()) == t
}

impl Endpoint {
    /// The path of this endpoint, below the service's base address.
    pub fn path(&self) -> (r: String)
        ensures
            r@ == endpoint_path(*self),
    {
        match *self {
            Endpoint::Version => String::from_str("/api/version"),
            Endpoint::Albums => String::from_str("/api/albums"),
            Endpoint::CreateAlbum => String::from_str("/api/album"),
            Endpoint::DeleteAlbum(id) => String::from_str("/api/album/").concat(
                decimal_i64(id).as_str(),
            ),
            Endpoint::DataWithoutAlbums => String::from_str("/api/data"),
            Endpoint::AlbumData(id) => {
                let s = String::from_str("/api/album/").concat(decimal_i64(id).as_str());
                s.concat("/data")
            },
            Endpoint::Upload(album) => {
                if album > 0 {
                    String::from_str("/api/upload/").concat(decimal_i64(album).as_str())
                } else {
                    String::from_str("/api/upload")
                }
            },
            Endpoint::Preview(id) => String::from_str("/api/preview/").concat(
                decimal_i64(id).as_str(),
            ),
            Endpoint::Data(id) | Endpoint::DeleteData(id) => String::from_str("/api/data/").concat(
                decimal_i64(id).as_str(),
            ),
        }
    }

    /// The method this endpoint is called with.
    pub fn method(&self) -> (r: Method)
        ensures
            r == endpoint_method(*self),
    {
        match *self {
            Endpoint::CreateAlbum | Endpoint::Upload(_) => Method::Post,
            Endpoint::DeleteAlbum(_) | Endpoint::DeleteData(_) => Method::Delete,
            _ => Method::Get,
        }
    }

    /// What a 404 from this endpoint says was not found.
    pub fn not_found_description(&self) -> (r: String)
        ensures
            r@ == missing_text(*self),
    {
        match *self {
            Endpoint::DeleteAlbum(id) | Endpoint::AlbumData(id) => {
                let s = String::from_str("Album ").concat(decimal_i64(id).as_str());
                s.concat(" not found")
            },
            Endpoint::Upload(album) => {
                if album > 0 {
                    let s = String::from_str("Album ").concat(decimal_i64(album).as_str());
                    s.concat(" not found")
                } else {
                    String::from_str("Resource not found")
                }
            },
            Endpoint::Preview(id) => {
                let s = String::from_str("Preview for data ").concat(decimal_i64(id).as_str());
                s.concat(" not found")
            },
            Endpoint::Data(id) | Endpoint::DeleteData(id) => {
                let s = String::from_str("Data ").concat(decimal_i64(id).as_str());
                s.concat(" not found")
            },
            _ => String::from_str("Resource not found"),
        }
    }
}

/// Classifies a status; `partial_ok` says whether 206 is a success.
pub fn classify_status(status: u16, partial_ok: bool) -> (r: StatusClass)
    ensures
        r == status_class(status, partial_ok),
{
    if status == 200 || (partial_ok && status == 206) {
        StatusClass::Success
    } else if status == 401 {
        StatusClass::Unauthorized
    } else if status == 404 {
        StatusClass::NotFound
    } else {
        StatusClass::Failed
    }
}

/// The outcome that a status gives: success, or the error of its kind.
/// `missing` says what a 404 did not find; `body` is the answer's text,
/// kept for a failure of no other kind.
pub fn check_status(
    status: u16,
    partial_ok: bool,
    missing: String,
    body: String,
) -> (r: Result<(), Error>)
    ensures
        match status_class(status, partial_ok) {
            StatusClass::Success => r == Ok::<(), Error>(()),
            StatusClass::Unauthorized => r == Err::<(), Error>(Error::Unauthorized),
            StatusClass::NotFound => r == Err::<(), Error>(Error::NotFound(missing)),
            StatusClass::Failed => r == Err::<(), Error>(Error::Api { status, message: body }),
        },
{
    match classify_status(status, partial_ok) {
        StatusClass::Success => Ok(()),
        StatusClass::Unauthorized => Err(Error::Unauthorized),
        StatusClass::NotFound => Err(Error::NotFound(missing)),
        StatusClass::Failed => Err(Error::Api { status, message: body }),
    }
}

/// The `Range` header value of a ranged read: `bytes=start-end`,
/// `bytes=start-` or `bytes=-end`; none when neither bound is given, and
/// the whole resource is asked for.
pub fn range_header(start: Option<u64>, end: Option<u64>) -> (r: Option<String>)
    ensures
        r is None <==> range_value(start, end) is None,
        r is Some ==> range_value(start, end) == Some(r->0@),
{
    match (start, end) {
        (Some(s), Some(e)) => {
            let mut h = String::from_str("bytes=");
            h.append(decimal_u64(s).as_str());
            h.append("-");
            h.append(decimal_u64(e).as_str());
            Some(h)
        },
        (Some(s), None) => {
            let mut h = String::from_str("bytes=");
            h.append(decimal_u64(s).as_str());
            h.append("-");
            Some(h)
        },
        (None, Some(e)) => Some(String::from_str("bytes=-").concat(decimal_u64(e).as_str())),
        (None, None) => None,
    }
}

/// A 401 is taken as unauthorized by every endpoint, ranged reads included,
/// and never as a failure of the generic kind.
pub proof fn lemma_unauthorized_everywhere(partial_ok: bool)
    ensures
        status_class(401, partial_ok) == StatusClass::Unauthorized,
        status_class(401, partial_ok) != StatusClass::Failed,
{
}

/// A 404 from reading a file, or its preview, is taken as not found, and
/// what was not found names the file's identifier.
pub proof fn lemma_not_found_names_file(id: i64, partial_ok: bool)
    ensures
        status_class(404, partial_ok) == StatusClass::NotFound,
        occurs_in(dec_int(id as int), missing_text(Endpoint::Data(id))),
        occurs_in(dec_int(id as int), missing_text(Endpoint::Preview(id))),
{
    let d = dec_int(id as int);
    let a = "Data "@ + d + " not found"@;
    let b = "Preview for data "@ + d + " not found"@;
    reveal_strlit("Data ");
    reveal_strlit(" not found");
    reveal_strlit("Preview for data ");
    assert(a.subrange(5, 5 + d.len() as int) =~= d);
    assert(b.subrange(17, 17 + d.len() as int) =~= d);
}

/// A ranged read with both bounds asks for exactly `bytes=start-end`, and
/// one with neither bound sends no `Range` header.
pub proof fn lemma_range_header_shape(start: u64, end: u64)
    ensures
        range_value(Some(start), Some(end)) == Some(
            "bytes="@ + dec_digits(start as nat) + "-"@ + dec_digits(end as nat),
        ),
        range_value(None, None) is None,
{
}

} // verus!
