//! Request construction and response interpretation: every domain call
//! funnels through a prepared request (full URL, headers, optional body)
//! that an outside transport performs, and through a verified reading of
//! the plain response it hands back.

use vstd::prelude::*;

use crate::error::ApiError;
use crate::json::{parse_json, spec_parse_json, view_of, Json};
use crate::query::{append_query, append_query_pairs, params_view, query_chars, query_suffix};
use crate::session::{EmbyClient, RequestHeaders};

verus! {

/// The HTTP method of a prepared request.
pub enum Method {
    Get,
    Post,
}

/// Everything the transport needs to perform one HTTP call: the full URL
/// with its encoded query, the current header values, and an optional body
/// with its content type. Built fresh per call, never retained.
pub struct PreparedRequest {
    pub method: Method,
    pub url: String,
    pub headers: RequestHeaders,
    /// Overrides the JSON content type for raw uploads.
    pub content_type: Option<String>,
    /// The prior entity tag for a conditional binary fetch.
    pub if_none_match: Option<String>,
    pub body: Option<Vec<u8>>,
}

/// The plain shape of an HTTP response as the transport hands it back:
/// status code, the entity-tag header when present, and the body bytes.
pub struct HttpResponse {
    pub status: u16,
    pub etag: Option<String>,
    pub body: Vec<u8>,
}

/// Success statuses: the 2xx class.
pub open spec fn is_success(status: u16) -> bool {
    200 <= status < 300
}

/// Redirection statuses: the 3xx class, which a conditional fetch reads as
/// "unchanged".
pub open spec fn is_redirection(status: u16) -> bool {
    300 <= status < 400
}

/// The full URL of a request: the resolved server root, the relative path,
/// and the encoded query suffix.
pub open spec fn request_url_chars(
    base: Seq<char>,
    path: Seq<char>,
    params: Seq<(Seq<char>, Seq<char>)>,
) -> Seq<char> {
    base + path + query_suffix(params)
}

impl EmbyClient {
    /// Builds the request for `path` under the configured server root, with
    /// the given query parameters and the current headers; a `Config` error
    /// when no server is configured.
    pub fn prepare_request(
        &self,
        method: Method,
        path: &str,
        params: &Vec<(String, String)>,
    ) -> (r: Result<PreparedRequest, ApiError>)
        ensures
            r is Ok <==> self.url is Some,
            r matches Ok(q) ==> {
                &&& q.method == method
                &&& q.url@ == request_url_chars(
                    self.url->0.base_chars(),
                    path@,
                    params_view(params@),
                )
                &&& q.headers.accept_encoding@ == "gzip"@
                &&& q.headers.authorization@ == self.auth_header@
                &&& q.headers.token@ == self.token_header@
                &&& q.content_type is None
                &&& q.if_none_match is None
                &&& q.body is None
            },
            r is Err ==> r->Err_0 matches ApiError::Config(_),
    {
        let (base, headers) = self.get_url_and_headers()?;
        let mut url = base;
        url.append(path);
        append_query(&mut url, params);
        Ok(
            PreparedRequest {
                method,
                url,
                headers,
                content_type: None,
                if_none_match: None,
                body: None,
            },
        )
    }

    /// Builds a request whose content type is overridden, for raw binary
    /// uploads.
    pub fn prepare_request_headers(
        &self,
        method: Method,
        path: &str,
        params: &Vec<(String, String)>,
        content_type: &str,
    ) -> (r: Result<PreparedRequest, ApiError>)
        ensures
            r is Ok <==> self.url is Some,
            r matches Ok(q) ==> {
                &&& q.method == method
                &&& q.url@ == request_url_chars(
                    self.url->0.base_chars(),
                    path@,
                    params_view(params@),
                )
                &&& q.headers.accept_encoding@ == "gzip"@
                &&& q.headers.authorization@ == self.auth_header@
                &&& q.headers.token@ == self.token_header@
                &&& q.content_type matches Some(c) && c@ == content_type@
                &&& q.if_none_match is None
                &&& q.body is None
            },
            r is Err ==> r->Err_0 matches ApiError::Config(_),
    {
        let mut q = self.prepare_request(method, path, params)?;
        q.content_type = Some(content_type.to_owned());
        Ok(q)
    }

    /// Builds the conditional GET for a binary asset: the prior entity tag,
    /// when known, rides along as `If-None-Match`, and the empty tag
    /// otherwise, so the server can answer "unchanged".
    pub fn request_picture(&self, path: &str, params: &Vec<(String, String)>, etag: Option<
        String,
    >) -> (r: Result<PreparedRequest, ApiError>)
        ensures
            r is Ok <==> self.url is Some,
            r matches Ok(q) ==> {
                &&& q.method == Method::Get
                &&& q.url@ == request_url_chars(
                    self.url->0.base_chars(),
                    path@,
                    params_view(params@),
                )
                &&& q.headers.accept_encoding@ == "gzip"@
                &&& q.headers.authorization@ == self.auth_header@
                &&& q.headers.token@ == self.token_header@
                &&& q.content_type is None
                &&& (match etag {
                    Some(t) => q.if_none_match matches Some(m) && m@ == t@,
                    None => q.if_none_match matches Some(m) && m@.len() == 0,
                })
                &&& q.body is None
            },
            r is Err ==> r->Err_0 matches ApiError::Config(_),
    {
        let mut q = self.prepare_request(Method::Get, path, params)?;
        q.if_none_match = Some(
            match etag {
                Some(t) => t,
                None => String::new(),
            },
        );
        Ok(q)
    }
}

impl EmbyClient {
    /// Appends the query parameters to a URL under construction: a pair
    /// with an empty key is a no-op, every kept key and value is encoded,
    /// and the first kept pair joins with `?`, or with `&` when the URL
    /// already carries a query.
    pub fn add_params_to_url(&self, url: &mut String, params: &Vec<(String, String)>)
        ensures
            final(url)@ == old(url)@ + query_chars(
                params_view(params@),
                !old(url)@.contains('?'),
            ),
    {
        let has_query = crate::text::str_contains_char(url.as_str(), '?');
        append_query_pairs(url, params, !has_query);
    }
}

/// Requires the 2xx class: any other status becomes an `Http` error
/// carrying it.
pub fn check_status(status: u16) -> (r: Result<(), ApiError>)
    ensures
        r is Ok <==> is_success(status),
        !is_success(status) ==> r == Err::<(), ApiError>(ApiError::Http(status)),
{
    if 200 <= status && status < 300 {
        Ok(())
    } else {
        Err(ApiError::Http(status))
    }
}


/// What `from_utf8_lossy` renders for a byte sequence: the text itself
/// for valid UTF-8, with replacement characters for invalid sequences.
pub uninterp spec fn lossy_of(bs: Seq<u8>) -> Seq<char>;

/// Relies on `alloc::string::String::from_utf8_lossy`: the diagnostic
/// rendering is a pure function of the bytes, carried in error details.
#[verifier::external_body]
fn lossy_string(bytes: &Vec<u8>) -> (r: String)
    ensures
        r@ == lossy_of(bytes@),
{
    String::from_utf8_lossy(bytes.as_slice()).into_owned()
}

/// Interprets the response to a structured GET: a non-success status is an
/// `Http` error; a success body must parse as JSON, else a `Decode` error
/// carrying the request path and the raw body text.
pub fn decode_response(path: &str, resp: &HttpResponse) -> (r: Result<Json, ApiError>)
    ensures
        !is_success(resp.status) ==> r == Err::<Json, ApiError>(ApiError::Http(resp.status)),
        is_success(resp.status) ==> match r {
            Ok(j) => spec_parse_json(resp.body@) == Some(view_of(j)),
            Err(e) => spec_parse_json(resp.body@) is None && (e matches ApiError::Decode {
                path: p,
                detail: d,
            } && p@ == path@ && d@ == lossy_of(resp.body@)),
        },
{
    if !(200 <= resp.status && resp.status < 300) {
        return Err(ApiError::Http(resp.status));
    }
    match parse_json(&resp.body) {
        Some(j) => Ok(j),
        None => Err(
            ApiError::Decode { path: path.to_owned(), detail: lossy_string(&resp.body) },
        ),
    }
}

} // verus!
