//! The request router: recognizes the one thumbnail route, extracts the
//! request options from the query string, and maps every pipeline outcome
//! to an HTTP reply, so that one request's failure never escapes its reply.

use vstd::prelude::*;

verus! {

use crate::ThumbError;
use crate::codec::{make_thumbnail, png_decoded, png_encoded, resized_view, within_decode_limit};
use crate::geometry::valid_geometry;
use crate::options::{spec_options, ThumbOptions};
use crate::query::spec_querify;
use vstd::string::*;

/// The characters of the one recognized method.
pub open spec fn get_method() -> Seq<char> {
    seq!['G', 'E', 'T']
}

/// The characters of the one recognized path.
pub open spec fn thumbnail_path() -> Seq<char> {
    seq!['/', 't', 'h', 'u', 'm', 'b', 'n', 'a', 'i', 'l']
}

/// True when the method and path name the recognized route,
/// `GET /thumbnail`.
pub open spec fn is_thumbnail_route(method: Seq<char>, path: Seq<char>) -> bool {
    method == get_method() && path == thumbnail_path()
}

/// The HTTP status that reports each pipeline failure: bad requests as
/// 400, undecodable source bytes as 422, an unreachable source as 502,
/// and an internal encoder failure as 500.
pub open spec fn spec_error_status(e: ThumbError) -> u16 {
    match e {
        ThumbError::MalformedRequest => 400,
        ThumbError::InvalidWidth => 400,
        ThumbError::FetchFailure => 502,
        ThumbError::DecodeFailure => 422,
        ThumbError::DegenerateGeometry => 400,
        ThumbError::EncodeFailure => 500,
    }
}

/// Maps a pipeline failure to the HTTP status of its reply.
pub fn error_status(e: ThumbError) -> (s: u16)
    ensures
        s == spec_error_status(e),
{
    match e {
        ThumbError::MalformedRequest => 400,
        ThumbError::InvalidWidth => 400,
        ThumbError::FetchFailure => 502,
        ThumbError::DecodeFailure => 422,
        ThumbError::DegenerateGeometry => 400,
        ThumbError::EncodeFailure => 500,
    }
}

/// A response descriptor: the status code and the body bytes.
pub struct HttpReply {
    pub status: u16,
    pub body: Vec<u8>,
}

/// What the router decides about an incoming request before any network
/// fetch happens.
pub enum RouteAction {
    /// Any method or path other than `GET /thumbnail`.
    NotFound,
    /// The thumbnail route with a missing or invalid query: reply at once
    /// with this failure.
    Reject(ThumbError),
    /// The thumbnail route with valid options: fetch the source URL, then
    /// finish with `thumbnail_reply`.
    Fetch(ThumbOptions),
}

/// True exactly when `method` is `GET`.
fn is_get_method(method: &str) -> (b: bool)
    ensures
        b == (method@ == get_method()),
{
    let n = method.unicode_len();
    if n != 3 {
        false
    } else {
        let b = method.get_char(0) == 'G' && method.get_char(1) == 'E' && method.get_char(2)
            == 'T';
        proof {
            if b {
                assert(method@ =~= get_method());
            }
        }
        b
    }
}

/// True exactly when `path` is `/thumbnail`.
fn is_thumbnail_path(path: &str) -> (b: bool)
    ensures
        b == (path@ == thumbnail_path()),
{
    let n = path.unicode_len();
    if n != 10 {
        false
    } else {
        let b = path.get_char(0) == '/' && path.get_char(1) == 't' && path.get_char(2) == 'h'
            && path.get_char(3) == 'u' && path.get_char(4) == 'm' && path.get_char(5) == 'b'
            && path.get_char(6) == 'n' && path.get_char(7) == 'a' && path.get_char(8) == 'i'
            && path.get_char(9) == 'l';
        proof {
            if b {
                assert(path@ =~= thumbnail_path());
            }
        }
        b
    }
}

/// Decides what to do with an incoming request: anything but
/// `GET /thumbnail` is not found; on the recognized route a missing query
/// string is rejected as `MalformedRequest`, an invalid `width` as
/// `InvalidWidth`, and valid options ask for a fetch of the source URL.
pub fn route_request(method: &str, path: &str, query: Option<&str>) -> (r: RouteAction)
    ensures
        !is_thumbnail_route(method@, path@) ==> r is NotFound,
        is_thumbnail_route(method@, path@) && query is None ==> (r matches RouteAction::Reject(e)
            && e == ThumbError::MalformedRequest),
        is_thumbnail_route(method@, path@) ==> (query matches Some(q) ==> (spec_options(
            spec_querify(q@),
        ) matches Ok(v) ==> (r matches RouteAction::Fetch(o) && o@ == v))),
        is_thumbnail_route(method@, path@) ==> (query matches Some(q) ==> (spec_options(
            spec_querify(q@),
        ) matches Err(e) ==> (r matches RouteAction::Reject(e2) && e2 == e))),
{
    let get = is_get_method(method);
    let thumb = is_thumbnail_path(path);
    if !(get && thumb) {
        RouteAction::NotFound
    } else {
        match query {
            None => RouteAction::Reject(ThumbError::MalformedRequest),
            Some(q) => match ThumbOptions::from_query(q) {
                Ok(o) => RouteAction::Fetch(o),
                Err(e) => RouteAction::Reject(e),
            },
        }
    }
}

/// The reply for an unrecognized route: 404 with an empty body.
pub fn not_found_reply() -> (r: HttpReply)
    ensures
        r.status == 404,
        r.body@ =~= Seq::<u8>::empty(),
{
    HttpReply { status: 404, body: Vec::new() }
}

/// The reply for a rejected request: the failure's status, empty body.
pub fn rejection_reply(e: ThumbError) -> (r: HttpReply)
    ensures
        r.status == spec_error_status(e),
        r.body@ =~= Seq::<u8>::empty(),
{
    HttpReply { status: error_status(e), body: Vec::new() }
}

/// Finishes a thumbnail request once the fetch is over: a failed fetch
/// becomes 502; fetched bytes run through decode, resize, and encode;
/// a decode or geometry failure becomes its own status with an empty
/// body; and every decodable fetch with valid geometry is owed a 200
/// whose body is the PNG encoding of the resized grid.
pub fn thumbnail_reply(fetched: Option<Vec<u8>>, target_width: u32) -> (r: HttpReply)
    ensures
        fetched is None ==> r.status == 502 && r.body@ =~= Seq::<u8>::empty(),
        fetched matches Some(raw) ==> png_decoded(raw@) is None ==> r.status == 422 && r.body@
            =~= Seq::<u8>::empty(),
        fetched matches Some(raw) ==> png_decoded(raw@) matches Some(img) ==> (!valid_geometry(
            img.width,
            img.height,
            target_width as int,
        ) ==> r.status == 400 && r.body@ =~= Seq::<u8>::empty()),
        fetched matches Some(raw) ==> png_decoded(raw@) matches Some(img) ==> (valid_geometry(
            img.width,
            img.height,
            target_width as int,
        ) ==> r.status == 200 && r.body@ == png_encoded(resized_view(img, target_width as int))),
        fetched matches Some(raw) ==> png_decoded(raw@) matches Some(img) ==> (valid_geometry(
            img.width,
            img.height,
            target_width as int,
        ) && within_decode_limit(resized_view(img, target_width as int)) ==> png_decoded(r.body@)
            == Some(resized_view(img, target_width as int))),
{
    match fetched {
        None => rejection_reply(ThumbError::FetchFailure),
        Some(raw) => match make_thumbnail(raw.as_slice(), target_width) {
            Ok(bytes) => HttpReply { status: 200, body: bytes },
            Err(e) => rejection_reply(e),
        },
    }
}

} // verus!
