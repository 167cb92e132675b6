//! The HTTP client: URL composition, bearer-token injection and the
//! classification of responses.
//!
//! A request is described by an [`HttpRequest`] value; the caller sends it
//! and hands the status code and body text back to [`ApiClient::handle_response`].

use vstd::prelude::*;
use vstd::string::*;

use crate::json::{string_field, string_field_of};
use crate::text::{has_prefix, int_text, starts_with, trim_end_slash, trim_end_slashes, trim_start_slash, trim_start_slashes};

verus! {

/// What can go wrong with a request.
#[derive(Debug, Clone)]
pub enum ApiError {
    /// The server answered with a status outside `[200, 300)`.
    Status(u16, String),
    /// The request could not be sent or its body could not be read.
    Network(String),
    /// A body could not be encoded or decoded.
    Json(String),
    /// Anything else.
    Other(String),
}

/// The human-readable rendering of an error.
pub open spec fn error_text(e: ApiError) -> Seq<char> {
    match e {
        ApiError::Status(code, msg) => "HTTP "@ + int_text(code as int) + ": "@ + msg@,
        ApiError::Network(msg) => "Network error: "@ + msg@,
        ApiError::Json(msg) => "JSON error: "@ + msg@,
        ApiError::Other(msg) => "Error: "@ + msg@,
    }
}

impl ApiError {
    /// Renders the error for people.
    pub fn to_string(&self) -> (r: String)
        ensures
            r@ == error_text(*self),
    {
        let (prefix, msg) = match self {
            ApiError::Status(code, msg) => {
                let mut head = String::from_str("HTTP ");
                let digits = crate::text::decimal(*code as i64);
                head.append(digits.as_str());
                head.append(": ");
                let r = head.concat(msg.as_str());
                return r;
            },
            ApiError::Network(msg) => ("Network error: ", msg),
            ApiError::Json(msg) => ("JSON error: ", msg),
            ApiError::Other(msg) => ("Error: ", msg),
        };
        String::from_str(prefix).concat(msg.as_str())
    }
}

/// The HTTP method of a request.
#[derive(Debug, Clone, Copy, PartialEq, Eq, Structural)]
pub enum Method {
    Get,
    Post,
    Put,
    Delete,
}

impl Method {
    /// The method's name on the wire.
    pub fn as_str(&self) -> (r: &'static str)
        ensures
            r@ == method_name(*self),
    {
        match self {
            Method::Get => "GET",
            Method::Post => "POST",
            Method::Put => "PUT",
            Method::Delete => "DELETE",
        }
    }
}

/// The name of a method on the wire.
pub open spec fn method_name(m: Method) -> Seq<char> {
    match m {
        Method::Get => "GET"@,
        Method::Post => "POST"@,
        Method::Put => "PUT"@,
        Method::Delete => "DELETE"@,
    }
}

/// A request ready to be sent: method, absolute URL, headers in order, and
/// the body for methods that carry one.
#[derive(Debug, Clone)]
pub struct HttpRequest {
    pub method: Method,
    pub url: String,
    pub headers: Vec<(String, String)>,
    pub body: Option<String>,
}

/// The headers of a request as pairs of character sequences.
pub open spec fn header_view(h: Seq<(String, String)>) -> Seq<(Seq<char>, Seq<char>)> {
    h.map_values(|p: (String, String)| (p.0@, p.1@))
}

/// The view of an optional string.
pub open spec fn opt_view(o: Option<String>) -> Option<Seq<char>> {
    match o {
        Some(s) => Some(s@),
        None => None,
    }
}

/// The header that carries a bearer token.
pub open spec fn bearer_header(token: Seq<char>) -> (Seq<char>, Seq<char>) {
    ("Authorization"@, "Bearer "@ + token)
}

/// The header that announces a JSON body.
pub open spec fn json_content_header() -> (Seq<char>, Seq<char>) {
    ("Content-Type"@, "application/json"@)
}

/// The headers of a request: the content type when a body is sent, then the
/// bearer token when one is held.
pub open spec fn request_headers(token: Option<Seq<char>>, with_body: bool) -> Seq<(Seq<char>, Seq<char>)> {
    let content = if with_body { seq![json_content_header()] } else { Seq::empty() };
    match token {
        Some(t) => content.push(bearer_header(t)),
        None => content,
    }
}

/// The URL that a path names against a base: a path that begins with
/// `http` stands for itself; any other is joined to the base with a single
/// `/`, after its own leading slashes are dropped.
pub open spec fn url_for(base: Seq<char>, path: Seq<char>) -> Seq<char> {
    if has_prefix(path, "http"@) {
        path
    } else {
        base + "/"@ + trim_start_slashes(path)
    }
}

/// Whether a method carries a JSON body.
pub open spec fn carries_body(m: Method) -> bool {
    m == Method::Post || m == Method::Put
}

/// A client for one server: the base URL, without trailing slashes, and
/// the bearer token, if any. Clones are independent values.
#[derive(Debug)]
pub struct ApiClient {
    base_url: String,
    token: Option<String>,
}

impl Clone for ApiClient {
    fn clone(&self) -> (r: Self)
        ensures
            r.base_spec() == self.base_spec(),
            r.token_spec() == self.token_spec(),
    {
        let token = match &self.token {
            Some(t) => Some(t.clone()),
            None => None,
        };
        ApiClient { base_url: self.base_url.clone(), token }
    }
}

impl ApiClient {
    /// The base URL that requests are composed against.
    pub closed spec fn base_spec(&self) -> Seq<char> {
        self.base_url@
    }

    /// The bearer token that requests carry.
    pub closed spec fn token_spec(&self) -> Option<Seq<char>> {
        opt_view(self.token)
    }

    /// The request that this client issues for a method, a path and a body.
    pub open spec fn request_spec(&self, r: HttpRequest, m: Method, path: Seq<char>, body: Option<Seq<char>>) -> bool {
        &&& r.method == m
        &&& r.url@ == url_for(self.base_spec(), path)
        &&& header_view(r.headers@) == request_headers(self.token_spec(), carries_body(m))
        &&& opt_view(r.body) == body
    }

    /// A client for `base_url`, holding no token.
    pub fn new(base_url: String) -> (r: Self)
        ensures
            r.base_spec() == trim_end_slashes(base_url@),
            r.token_spec() is None,
    {
        ApiClient { base_url: trim_end_slash(base_url.as_str()), token: None }
    }

    /// The same client, holding `token`.
    pub fn with_token(self, token: String) -> (r: Self)
        ensures
            r.base_spec() == self.base_spec(),
            r.token_spec() == Some(token@),
    {
        ApiClient { base_url: self.base_url, token: Some(token) }
    }

    /// Replaces the token.
    pub fn set_token(&mut self, token: Option<String>)
        ensures
            final(self).base_spec() == old(self).base_spec(),
            final(self).token_spec() == opt_view(token),
    {
        self.token = token;
    }

    /// The token held, if any.
    pub fn token(&self) -> (r: Option<&str>)
        ensures
            r matches Some(t) ==> self.token_spec() == Some(t@),
            r is None ==> self.token_spec() is None,
    {
        match &self.token {
            Some(t) => Some(t.as_str()),
            None => None,
        }
    }

    /// The base URL.
    pub fn base_url(&self) -> (r: &str)
        ensures
            r@ == self.base_spec(),
    {
        self.base_url.as_str()
    }

    /// The absolute URL for `path`.
    pub fn build_url(&self, path: &str) -> (r: String)
        ensures
            r@ == url_for(self.base_spec(), path@),
    {
        if starts_with(path, "http") {
            String::from_str(path)
        } else {
            let rest = trim_start_slash(path);
            let mut url = self.base_url.clone();
            url.append("/");
            url.append(rest.as_str());
            url
        }
    }

    /// Appends the bearer header when a token is held.
    fn add_auth_header(&self, headers: &mut Vec<(String, String)>)
        ensures
            header_view(final(headers)@) == header_view(old(headers)@) + match self.token_spec() {
                Some(t) => seq![bearer_header(t)],
                None => Seq::empty(),
            },
    {
        match &self.token {
            Some(t) => {
                let value = String::from_str("Bearer ").concat(t.as_str());
                headers.push((String::from_str("Authorization"), value));
                assert(header_view(headers@) =~= header_view(old(headers)@) + seq![bearer_header(t@)]);
            },
            None => {
                assert(header_view(headers@) =~= header_view(old(headers)@) + Seq::empty());
            },
        }
    }

    fn request(&self, method: Method, path: &str, body: Option<String>) -> (r: HttpRequest)
        requires
            body is Some <==> carries_body(method),
        ensures
            self.request_spec(r, method, path@, opt_view(body)),
    {
        let url = self.build_url(path);
        let mut headers: Vec<(String, String)> = Vec::new();
        if body.is_some() {
            headers.push((String::from_str("Content-Type"), String::from_str("application/json")));
        }
        self.add_auth_header(&mut headers);
        assert(header_view(headers@) =~= request_headers(self.token_spec(), carries_body(method)));
        HttpRequest { method, url, headers, body }
    }

    /// A GET request for `path`.
    pub fn get(&self, path: &str) -> (r: HttpRequest)
        ensures
            self.request_spec(r, Method::Get, path@, None),
    {
        self.request(Method::Get, path, None)
    }

    /// A POST request for `path` carrying the JSON text `body`.
    pub fn post(&self, path: &str, body: String) -> (r: HttpRequest)
        ensures
            self.request_spec(r, Method::Post, path@, Some(body@)),
    {
        self.request(Method::Post, path, Some(body))
    }

    /// A PUT request for `path` carrying the JSON text `body`.
    pub fn put(&self, path: &str, body: String) -> (r: HttpRequest)
        ensures
            self.request_spec(r, Method::Put, path@, Some(body@)),
    {
        self.request(Method::Put, path, Some(body))
    }

    /// A DELETE request for `path`.
    pub fn delete(&self, path: &str) -> (r: HttpRequest)
        ensures
            self.request_spec(r, Method::Delete, path@, None),
    {
        self.request(Method::Delete, path, None)
    }

    /// Classifies a response by its status code and body text. A success
    /// yields the text to decode, `{}` standing for an empty body; any other
    /// status yields a `Status` error whose message is the `error` string of
    /// a JSON object body, or else the body itself.
    pub fn handle_response(&self, status: u16, text: String) -> (r: Result<String, ApiError>)
        ensures
            is_success(status) ==> (r matches Ok(b) && b@ == success_body(text@)),
            !is_success(status) ==> (r matches Err(ApiError::Status(c, m)) && c == status
                && m@ == error_message_of(text@)),
    {
        if 200 <= status && status < 300 {
            if text.as_str().unicode_len() == 0 {
                Ok(String::from_str("{}"))
            } else {
                Ok(text)
            }
        } else {
            let message = match string_field(text.as_str(), "error") {
                Some(m) => m,
                None => text,
            };
            Err(ApiError::Status(status, message))
        }
    }

    /// The error for a success body that did not decode, given the decoder's
    /// message. When the body was empty the message stands alone; otherwise
    /// the body is quoted after it.
    pub fn decode_failure(err: String, text: &str) -> (r: ApiError)
        ensures
            r matches ApiError::Json(m) && m@ == decode_failure_text(err@, text@),
    {
        if text.unicode_len() == 0 {
            ApiError::Json(err)
        } else {
            let mut m = String::from_str("Failed to parse JSON: ");
            m.append(err.as_str());
            m.append(". Response: ");
            m.append(text);
            ApiError::Json(m)
        }
    }
}

/// Whether a status code reports success.
pub open spec fn is_success(status: u16) -> bool {
    200 <= status < 300
}

/// The text that a success response is decoded from.
pub open spec fn success_body(text: Seq<char>) -> Seq<char> {
    if text.len() == 0 { "{}"@ } else { text }
}

/// The message of an error response.
pub open spec fn error_message_of(text: Seq<char>) -> Seq<char> {
    match string_field_of(text, "error"@) {
        Some(m) => m,
        None => text,
    }
}

/// The message of a decoding failure.
pub open spec fn decode_failure_text(err: Seq<char>, text: Seq<char>) -> Seq<char> {
    if text.len() == 0 {
        err
    } else {
        "Failed to parse JSON: "@ + err + ". Response: "@ + text
    }
}

/// How many headers in `hs` have the name `name`.
pub open spec fn count_named(hs: Seq<(Seq<char>, Seq<char>)>, name: Seq<char>) -> nat
    decreases hs.len(),
{
    if hs.len() == 0 {
        0
    } else {
        count_named(hs.drop_last(), name) + if hs.last().0 == name { 1nat } else { 0nat }
    }
}

/// For a client made from base `b`, a path that does not begin with `http`
/// names `b` without its trailing slashes, one `/`, and the path without its
/// leading slashes.
pub proof fn lemma_relative_url(b: Seq<char>, client: ApiClient, path: Seq<char>)
    requires
        client.base_spec() == trim_end_slashes(b),
        !has_prefix(path, "http"@),
    ensures
        url_for(client.base_spec(), path) == trim_end_slashes(b) + "/"@ + trim_start_slashes(path),
{
}

/// A path that begins with `http` names itself, whatever the client.
pub proof fn lemma_absolute_url(client: ApiClient, path: Seq<char>)
    requires
        has_prefix(path, "http"@),
    ensures
        url_for(client.base_spec(), path) == path,
{
}

/// A request issued by a client that holds a token carries exactly one
/// `Authorization` header, and that header is `Bearer <token>`.
pub proof fn lemma_single_bearer(
    client: ApiClient,
    r: HttpRequest,
    m: Method,
    path: Seq<char>,
    body: Option<Seq<char>>,
)
    requires
        client.token_spec() is Some,
        client.request_spec(r, m, path, body),
    ensures
        count_named(header_view(r.headers@), "Authorization"@) == 1,
        header_view(r.headers@).contains(bearer_header(client.token_spec().unwrap())),
{
    reveal_strlit("Authorization");
    reveal_strlit("Content-Type");
    let hs = header_view(r.headers@);
    let t = client.token_spec().unwrap();
    let name = "Authorization"@;
    let rest = hs.drop_last();
    assert(hs.last() == bearer_header(t));
    assert(count_named(hs, name) == count_named(rest, name) + 1);
    assert(rest.len() <= 1);
    if rest.len() == 1 {
        assert(rest[0] == json_content_header());
        assert("Content-Type"@.len() != "Authorization"@.len());
        assert(count_named(rest, name) == count_named(rest.drop_last(), name));
        assert(count_named(rest.drop_last(), name) == 0);
    } else {
        assert(count_named(rest, name) == 0);
    }
    assert(hs[hs.len() - 1] == bearer_header(t));
}

/// A response wrapper: a success flag with either data or an error message.
#[derive(Debug, Clone)]
pub struct ApiResponse<T> {
    pub success: bool,
    pub data: Option<T>,
    pub error: Option<String>,
}

impl<T> ApiResponse<T> {
    /// A successful response carrying `data`.
    pub fn success(data: T) -> (r: Self)
        ensures
            r.success,
            r.data == Some(data),
            r.error is None,
    {
        ApiResponse { success: true, data: Some(data), error: None }
    }

    /// A failed response carrying the message `msg`.
    pub fn error(msg: String) -> (r: Self)
        ensures
            !r.success,
            r.data is None,
            r.error == Some(msg),
    {
        ApiResponse { success: false, data: None, error: Some(msg) }
    }
}

} // verus!
