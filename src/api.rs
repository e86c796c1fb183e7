use vstd::prelude::*;

use crate::controller::Operation;

verus! {

/// The services of the loopback control API.
#[derive(Clone, Copy, Debug, PartialEq, Eq, Structural)]
pub enum Endpoint {
    /// `POST /tauri/open_chat_window`
    OpenChatWindow,
    /// `POST /tauri/close_chat_window`
    CloseChatWindow,
    /// `GET /tauri/status`
    Status,
}

/// Why a request is turned away before it reaches the controller.
#[derive(Clone, Copy, Debug, PartialEq, Eq, Structural)]
pub enum Rejection {
    /// No endpoint has this path.
    NotFound,
    /// The path is known but not with this method.
    MethodNotAllowed,
    /// The body of an operation is declared with a media type other than JSON.
    UnsupportedMediaType,
    /// The body of an operation is not JSON.
    MalformedBody,
}

/// The fixed reply of the liveness probe.
#[derive(Debug)]
pub struct StatusReply {
    pub status: String,
    pub message: String,
}

pub open spec fn open_path() -> Seq<char> {
    "/tauri/open_chat_window"@
}

pub open spec fn close_path() -> Seq<char> {
    "/tauri/close_chat_window"@
}

pub open spec fn status_path() -> Seq<char> {
    "/tauri/status"@
}

/// The endpoint that serves `path`, and the method it takes.
pub open spec fn endpoint_at(path: Seq<char>) -> Option<(Endpoint, Seq<char>)> {
    if path == open_path() {
        Some((Endpoint::OpenChatWindow, "POST"@))
    } else if path == close_path() {
        Some((Endpoint::CloseChatWindow, "POST"@))
    } else if path == status_path() {
        Some((Endpoint::Status, "GET"@))
    } else {
        None
    }
}

/// Where a request goes by its method and path alone.
pub open spec fn route_of(method: Seq<char>, path: Seq<char>) -> Result<Endpoint, Rejection> {
    match endpoint_at(path) {
        None => Err(Rejection::NotFound),
        Some((e, m)) => if method == m {
            Ok(e)
        } else {
            Err(Rejection::MethodNotAllowed)
        },
    }
}

/// Where a request goes, given whether its declared media type allows JSON
/// and whether its body is JSON: operations need both, the liveness probe
/// ignores them.
pub open spec fn admission(
    method: Seq<char>,
    path: Seq<char>,
    content_ok: bool,
    body_is_json: bool,
) -> Result<Endpoint, Rejection> {
    match route_of(method, path) {
        Ok(Endpoint::Status) => Ok(Endpoint::Status),
        Ok(e) => if !content_ok {
            Err(Rejection::UnsupportedMediaType)
        } else if !body_is_json {
            Err(Rejection::MalformedBody)
        } else {
            Ok(e)
        },
        Err(r) => Err(r),
    }
}

/// Whether a media type, as type and subtype, is JSON.
pub open spec fn is_json_media(parts: Option<(Seq<char>, Seq<char>)>) -> bool {
    parts == Some(("application"@, "json"@))
}

/// Whether a `content-type` header admits a JSON body: absent, or naming
/// the JSON media type.
pub open spec fn content_type_admits(content_type: Option<Seq<char>>) -> bool {
    match content_type {
        None => true,
        Some(v) => is_json_media(media_type_parts(v)),
    }
}

/// The type and subtype of a media type, lower-cased, as `mime` reads them.
pub uninterp spec fn media_type_parts(value: Seq<char>) -> Option<(Seq<char>, Seq<char>)>;

/// Relies on `mime::Mime`'s `FromStr`, `type_` and `subtype`: the parse of a
/// media type, its type and subtype as lower-cased text, or nothing when it
/// does not parse.
#[verifier::external_body]
fn parse_media_type(value: &str) -> (r: Option<(String, String)>)
    ensures
        match r {
            Some((t, st)) => media_type_parts(value@) == Some((t@, st@)),
            None => media_type_parts(value@) is None,
        },
{
    value.parse::<mime::Mime>().ok().map(
        |m| (m.type_().as_str().to_string(), m.subtype().as_str().to_string()),
    )
}

/// Whether a parsed media type is JSON.
pub fn json_media(parts: &Option<(String, String)>) -> (r: bool)
    ensures
        r == match parts {
            Some((t, st)) => is_json_media(Some((t@, st@))),
            None => is_json_media(None),
        },
{
    match parts {
        Some((t, st)) => same_text(t.as_str(), "application") && same_text(st.as_str(), "json"),
        None => false,
    }
}

/// Whether the bytes are one JSON value, as `serde_json` reads it.
pub uninterp spec fn json_accepts(body: Seq<u8>) -> bool;

/// Relies on `serde_json::from_slice` into a `serde_json::Value`: it succeeds
/// on exactly the bytes that hold one JSON value, possibly padded with
/// whitespace, and fails on empty input.
#[verifier::external_body]
fn parses_as_json(body: &[u8]) -> (r: bool)
    ensures
        r == json_accepts(body@),
        body@.len() == 0 ==> !r,
{
    serde_json::from_slice::<serde_json::Value>(body).is_ok()
}

fn same_text(a: &str, b: &str) -> (r: bool)
    ensures
        r == (a@ == b@),
{
    a.to_owned() == b.to_owned()
}

/// Routes a request by its method and path.
pub fn route(method: &str, path: &str) -> (r: Result<Endpoint, Rejection>)
    ensures
        r == route_of(method@, path@),
{
    let (endpoint, expected) = if same_text(path, "/tauri/open_chat_window") {
        (Endpoint::OpenChatWindow, "POST")
    } else if same_text(path, "/tauri/close_chat_window") {
        (Endpoint::CloseChatWindow, "POST")
    } else if same_text(path, "/tauri/status") {
        (Endpoint::Status, "GET")
    } else {
        return Err(Rejection::NotFound);
    };
    if same_text(method, expected) {
        Ok(endpoint)
    } else {
        Err(Rejection::MethodNotAllowed)
    }
}

/// Admits or rejects a request, given whether its declared media type
/// allows JSON and whether its body is JSON.
pub fn classify_request(method: &str, path: &str, content_ok: bool, body_is_json: bool) -> (r:
    Result<Endpoint, Rejection>)
    ensures
        r == admission(method@, path@, content_ok, body_is_json),
{
    match route(method, path) {
        Ok(Endpoint::Status) => Ok(Endpoint::Status),
        Ok(e) => if !content_ok {
            Err(Rejection::UnsupportedMediaType)
        } else if !body_is_json {
            Err(Rejection::MalformedBody)
        } else {
            Ok(e)
        },
        Err(r) => Err(r),
    }
}

/// Admits or rejects a request by its method, path, `content-type` header
/// and body. An operation whose header names another media type, or whose
/// body does not parse as JSON, is rejected here, before any window
/// operation.
pub fn decode_request(method: &str, path: &str, content_type: Option<&str>, body: &[u8]) -> (r:
    Result<Endpoint, Rejection>)
    ensures
        r == admission(
            method@,
            path@,
            content_type_admits(
                match content_type {
                    Some(v) => Some(v@),
                    None => None,
                },
            ),
            json_accepts(body@),
        ),
        body@.len() == 0 ==> r != Ok::<Endpoint, Rejection>(Endpoint::OpenChatWindow) && r != Ok::<
            Endpoint,
            Rejection,
        >(Endpoint::CloseChatWindow),
{
    match route(method, path) {
        Ok(Endpoint::Status) => Ok(Endpoint::Status),
        Ok(_) => {
            let content_ok = match content_type {
                None => true,
                Some(v) => json_media(&parse_media_type(v)),
            };
            let body_ok = parses_as_json(body);
            classify_request(method, path, content_ok, body_ok)
        },
        Err(r) => Err(r),
    }
}

/// The window operation an endpoint asks for; none for the liveness probe.
pub fn operation_of(endpoint: Endpoint) -> (r: Option<Operation>)
    ensures
        r == match endpoint {
            Endpoint::OpenChatWindow => Some(Operation::OpenOrShow),
            Endpoint::CloseChatWindow => Some(Operation::Close),
            Endpoint::Status => None::<Operation>,
        },
{
    match endpoint {
        Endpoint::OpenChatWindow => Some(Operation::OpenOrShow),
        Endpoint::CloseChatWindow => Some(Operation::Close),
        Endpoint::Status => None,
    }
}

/// The liveness probe's reply. It reads no window state, so it is the same
/// whatever windows exist.
pub fn status_reply() -> (r: StatusReply)
    ensures
        r.status@ == "ok"@,
        r.message@ == "Tauri desktop disponível"@,
{
    StatusReply {
        status: String::from_str("ok"),
        message: String::from_str("Tauri desktop disponível"),
    }
}

} // verus!
