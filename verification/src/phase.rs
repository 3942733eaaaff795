//! Phase results, header mutations, immediate responses and processing modes.
use vstd::prelude::*;

verus! {

#[verifier::external_type_specification]
#[verifier::external_body]
pub struct ExHeaderName(http::HeaderName);

#[verifier::external_type_specification]
#[verifier::external_body]
pub struct ExHeaderValue(http::HeaderValue);

#[verifier::external_type_specification]
#[verifier::external_body]
pub struct ExStatusCode(http::StatusCode);

#[verifier::external_type_specification]
#[verifier::external_body]
#[verifier::reject_recursive_types(T)]
pub struct ExHeaderMap<T>(http::HeaderMap<T>);

#[verifier::external_type_specification]
#[verifier::external_body]
pub struct ExBytes(bytes::Bytes);

#[verifier::external_type_specification]
#[verifier::external_body]
pub struct ExRequestParts(http::request::Parts);

/// What a header map answers for each name: the value `get` returns.
pub uninterp spec fn header_entries(m: http::HeaderMap) -> Map<http::HeaderName, http::HeaderValue>;

/// The map with no headers.
pub open spec fn no_headers() -> Map<http::HeaderName, http::HeaderValue> {
    Map::empty()
}

/// The bytes a `Bytes` buffer holds.
pub uninterp spec fn bytes_view(b: bytes::Bytes) -> Seq<u8>;

/// The numeric code of a status (what `http::StatusCode::as_u16` returns).
pub uninterp spec fn status_number(s: http::StatusCode) -> u16;

/// The name as text (what `http::HeaderName::as_str` returns).
pub uninterp spec fn header_name_text(n: http::HeaderName) -> Seq<char>;

/// The value as text where it is visible ASCII, else `None` (what
/// `http::HeaderValue::to_str` returns, its error taken as `None`).
pub uninterp spec fn header_value_text(v: http::HeaderValue) -> Option<Seq<char>>;

/// The value the request's header map holds for a name, if any (what
/// `http::HeaderMap::get` on the request's headers returns).
pub uninterp spec fn request_header_value(parts: http::request::Parts, name: Seq<char>) -> Option<http::HeaderValue>;

/// A character a header value may hold: visible ASCII or a tab.
pub open spec fn is_visible_ascii(c: char) -> bool {
    (32 <= (c as u32) && (c as u32) < 127) || c == '\t'
}

/// Calls `http::StatusCode::from_u16`, which succeeds on the codes 100 to 999.
#[verifier::external_body]
pub(crate) fn status_code(code: u16) -> (r: http::StatusCode)
    requires
        100 <= code <= 999,
    ensures
        status_number(r) == code,
{
    http::StatusCode::from_u16(code).unwrap()
}

/// Returns `http::header::CONTENT_TYPE`, the name `content-type`.
#[verifier::external_body]
pub(crate) fn content_type_name() -> (r: http::HeaderName)
    ensures
        header_name_text(r) == "content-type"@,
{
    http::header::CONTENT_TYPE
}

/// Calls `http::HeaderValue::from_static`, which panics unless every byte is
/// visible ASCII or a tab; on such text `to_str` gives the text back.
#[verifier::external_body]
pub(crate) fn header_value_static(s: &'static str) -> (r: http::HeaderValue)
    requires
        forall|i: int| 0 <= i < s@.len() ==> is_visible_ascii(#[trigger] s@[i]),
    ensures
        header_value_text(r) == Some(s@),
{
    http::HeaderValue::from_static(s)
}

/// Calls `http::HeaderMap::get` on the request's headers.
#[verifier::external_body]
pub(crate) fn request_header<'a>(parts: &'a http::request::Parts, name: &str) -> (r: Option<&'a http::HeaderValue>)
    ensures
        match r {
            Some(v) => request_header_value(*parts, name@) == Some(*v),
            None => request_header_value(*parts, name@) is None,
        },
{
    parts.headers.get(name)
}

/// The request's method as text (what `http::Method::as_str` returns for
/// the request's method).
pub uninterp spec fn request_method_text(parts: http::request::Parts) -> Seq<char>;

/// The request target's path and query as text, if the URI has one (what
/// `http::Uri::path_and_query` returns for the request's URI, as `as_str`).
pub uninterp spec fn request_path_text(parts: http::request::Parts) -> Option<Seq<char>>;

/// The request target's authority as text, if the URI has one (what
/// `http::Uri::authority` returns for the request's URI, as `as_str`).
pub uninterp spec fn request_authority_text(parts: http::request::Parts) -> Option<Seq<char>>;

/// Calls `http::Method::as_str` on the request's method.
#[verifier::external_body]
pub(crate) fn request_method<'a>(parts: &'a http::request::Parts) -> (r: &'a str)
    ensures
        r@ == request_method_text(*parts),
{
    parts.method.as_str()
}

/// Calls `http::Uri::path_and_query` on the request's URI, and `as_str` on the result.
#[verifier::external_body]
pub(crate) fn request_path<'a>(parts: &'a http::request::Parts) -> (r: Option<&'a str>)
    ensures
        match r {
            Some(t) => request_path_text(*parts) == Some(t@),
            None => request_path_text(*parts) is None,
        },
{
    match parts.uri.path_and_query() {
        Some(p) => Some(p.as_str()),
        None => None,
    }
}

/// Calls `http::Uri::authority` on the request's URI, and `as_str` on the result.
#[verifier::external_body]
pub(crate) fn request_authority<'a>(parts: &'a http::request::Parts) -> (r: Option<&'a str>)
    ensures
        match r {
            Some(t) => request_authority_text(*parts) == Some(t@),
            None => request_authority_text(*parts) is None,
        },
{
    match parts.uri.authority() {
        Some(a) => Some(a.as_str()),
        None => None,
    }
}

/// Calls `http::HeaderValue::to_str`, its error taken as `None`.
#[verifier::external_body]
pub(crate) fn header_value_to_str(v: &http::HeaderValue) -> (r: Option<&str>)
    ensures
        match r {
            Some(t) => header_value_text(*v) == Some(t@),
            None => header_value_text(*v) is None,
        },
{
    match v.to_str() {
        Ok(t) => Some(t),
        Err(_) => None,
    }
}

/// The text of a request header, or `default` where the header is absent or
/// its value is not visible ASCII.
pub open spec fn header_or(parts: http::request::Parts, name: Seq<char>, default: Seq<char>) -> Seq<char> {
    match request_header_value(parts, name) {
        Some(v) => match header_value_text(v) {
            Some(t) => t,
            None => default,
        },
        None => default,
    }
}

/// The text of a request header, if present and visible ASCII.
pub open spec fn header_opt(parts: http::request::Parts, name: Seq<char>) -> Option<Seq<char>> {
    match request_header_value(parts, name) {
        Some(v) => header_value_text(v),
        None => None,
    }
}

/// Extract a header value from request parts, or the given default where it
/// is missing or not visible ASCII.
pub fn get_header<'a>(parts: &'a http::request::Parts, name: &str, default: &'a str) -> (r: &'a str)
    ensures
        r@ == header_or(*parts, name@, default@),
{
    match request_header(parts, name) {
        Some(v) => match header_value_to_str(v) {
            Some(t) => t,
            None => default,
        },
        None => default,
    }
}

/// The text of a request header, if it is present and visible ASCII.
pub fn header<'a>(parts: &'a http::request::Parts, name: &str) -> (r: Option<&'a str>)
    ensures
        match r {
            Some(t) => header_opt(*parts, name@) == Some(t@),
            None => header_opt(*parts, name@) is None,
        },
{
    match request_header(parts, name) {
        Some(v) => header_value_to_str(v),
        None => None,
    }
}

/// Calls `http::HeaderMap::new`: an empty map.
#[verifier::external_body]
fn header_map_new() -> (r: http::HeaderMap)
    ensures
        header_entries(r) == no_headers(),
{
    http::HeaderMap::new()
}

/// Whether a header map can take one more insertion without reaching the
/// map's size limit: it holds fewer than 3277 names.
///
/// `http::HeaderMap::insert` panics with "size overflows MAX_SIZE" when it
/// would grow its table beyond `MAX_SIZE` (2^15 slots). It may grow before
/// every insertion, also of a name already present: when its entries fill
/// three quarters of the table, or when probing has become long and the
/// entries times 5 reach the table size. With fewer than 3277 names the
/// table is at most 2^13 slots when either happens, so growing stays within
/// the limit.
pub open spec fn has_room(headers: http::HeaderMap) -> bool {
    &&& header_entries(headers).dom().finite()
    &&& header_entries(headers).dom().len() < 3277
}

/// Calls `http::HeaderMap::insert`: afterwards `name` maps to `value` alone
/// (earlier values of the name are dropped) and other names are unchanged.
#[verifier::external_body]
fn header_map_insert(m: &mut http::HeaderMap, name: http::HeaderName, value: http::HeaderValue)
    requires
        has_room(*old(m)),
    ensures
        header_entries(*final(m)) == header_entries(*old(m)).insert(name, value),
{
    m.insert(name, value);
}

/// Calls `bytes::Bytes::new`: an empty buffer.
#[verifier::external_body]
fn bytes_new() -> (r: bytes::Bytes)
    ensures
        bytes_view(r) == Seq::<u8>::empty(),
{
    bytes::Bytes::new()
}

/// Calls `bytes::Bytes::from` on a vector: a buffer holding its bytes.
#[verifier::external_body]
pub(crate) fn bytes_from_vec(v: Vec<u8>) -> (r: bytes::Bytes)
    ensures
        bytes_view(r) == v@,
{
    bytes::Bytes::from(v)
}

/// Header mutations to apply after pipeline processing.
#[derive(Debug)]
pub struct HeaderMutations {
    /// Headers to set (add or overwrite).
    pub set: Vec<(http::HeaderName, http::HeaderValue)>,
    /// Headers to remove.
    pub remove: Vec<http::HeaderName>,
}

impl HeaderMutations {
    /// Create an empty mutation set.
    pub fn new() -> (r: Self)
        ensures
            r.set@.len() == 0,
            r.remove@.len() == 0,
    {
        HeaderMutations { set: Vec::new(), remove: Vec::new() }
    }

    /// Add a header to set.
    pub fn set_header(self, name: http::HeaderName, value: http::HeaderValue) -> (r: Self)
        ensures
            r.set@ == self.set@.push((name, value)),
            r.remove@ == self.remove@,
    {
        let mut s = self;
        s.set.push((name, value));
        s
    }

    /// Add a header to remove.
    pub fn remove_header(self, name: http::HeaderName) -> (r: Self)
        ensures
            r.set@ == self.set@,
            r.remove@ == self.remove@.push(name),
    {
        let mut s = self;
        s.remove.push(name);
        s
    }
}

impl Default for HeaderMutations {
    /// An empty mutation set.
    fn default() -> (r: Self)
        ensures
            r.set@.len() == 0,
            r.remove@.len() == 0,
    {
        HeaderMutations::new()
    }
}

/// Immediate response: short-circuit the pipeline and send directly.
#[derive(Debug)]
pub struct ImmediateResponse {
    /// HTTP status code.
    pub status: http::StatusCode,
    /// Response headers.
    pub headers: http::HeaderMap,
    /// Response body.
    pub body: bytes::Bytes,
}

impl ImmediateResponse {
    /// A response with the given status, no headers and an empty body.
    pub fn with_status(status: http::StatusCode) -> (r: Self)
        ensures
            r.status == status,
            header_entries(r.headers) == no_headers(),
            bytes_view(r.body) == Seq::<u8>::empty(),
    {
        ImmediateResponse { status, headers: header_map_new(), body: bytes_new() }
    }

    /// Replace the response body.
    pub fn body(self, body: bytes::Bytes) -> (r: Self)
        ensures
            r.status == self.status,
            r.headers == self.headers,
            r.body == body,
    {
        let mut s = self;
        s.body = body;
        s
    }

    /// Set a response header (replacing earlier values of the same name).
    /// The map must have room for it (see [`has_room`]).
    pub fn header(self, name: http::HeaderName, value: http::HeaderValue) -> (r: Self)
        requires
            has_room(self.headers),
        ensures
            r.status == self.status,
            header_entries(r.headers) == header_entries(self.headers).insert(name, value),
            r.body == self.body,
    {
        let mut s = self;
        header_map_insert(&mut s.headers, name, value);
        s
    }
}

/// Result of a processor handling one phase of the HTTP lifecycle.
#[derive(Debug)]
pub enum PhaseResult {
    /// No mutation; continue to the next processor.
    Continue,
    /// Apply header mutations, then continue to the next processor.
    Mutate(HeaderMutations),
    /// Short-circuit: send this response directly to the client. Ends the
    /// current phase and every later phase.
    Respond(ImmediateResponse),
}

impl PhaseResult {
    /// Returns `true` if this result terminates the pipeline.
    pub fn is_terminal(&self) -> (r: bool)
        ensures
            r == (self is Respond),
    {
        match self {
            PhaseResult::Respond(_) => true,
            _ => false,
        }
    }
}

/// Declares which body phases a processor participates in. Header phases
/// are always processed.
#[derive(Debug, Clone, Copy, PartialEq, Eq, Structural)]
pub struct ProcessingMode {
    /// Process request body (buffered).
    pub request_body: bool,
    /// Process response body (buffered).
    pub response_body: bool,
}

impl ProcessingMode {
    /// Headers-only: process request and response headers, skip bodies.
    #[allow(non_snake_case)]
    pub open spec fn spec_HEADERS_ONLY() -> ProcessingMode {
        ProcessingMode { request_body: false, response_body: false }
    }

    /// Headers-only: process request and response headers, skip bodies.
    #[allow(non_snake_case)]
    #[verifier::when_used_as_spec(spec_HEADERS_ONLY)]
    pub fn HEADERS_ONLY() -> (r: ProcessingMode)
        ensures
            r == Self::spec_HEADERS_ONLY(),
    {
        ProcessingMode { request_body: false, response_body: false }
    }

    /// Full: process all phases including bodies.
    #[allow(non_snake_case)]
    pub fn FULL() -> (r: ProcessingMode)
        ensures
            r.request_body && r.response_body,
    {
        ProcessingMode { request_body: true, response_body: true }
    }

    /// The union (most permissive) of two modes.
    pub fn union(self, other: Self) -> (r: Self)
        ensures
            r.request_body == (self.request_body || other.request_body),
            r.response_body == (self.response_body || other.response_body),
    {
        ProcessingMode {
            request_body: self.request_body || other.request_body,
            response_body: self.response_body || other.response_body,
        }
    }
}

impl Default for ProcessingMode {
    /// Headers-only.
    fn default() -> (r: Self)
        ensures
            r == ProcessingMode::spec_HEADERS_ONLY(),
    {
        ProcessingMode::HEADERS_ONLY()
    }
}

/// A header read with a default gives the header's text when the request
/// has the header with visible ASCII text, and the default otherwise; read
/// without one it gives that text or nothing.
pub proof fn law_header_reads_the_named_header(parts: http::request::Parts, name: Seq<char>, default: Seq<char>)
    ensures
        match request_header_value(parts, name) {
            Some(v) => match header_value_text(v) {
                Some(t) => header_or(parts, name, default) == t && header_opt(parts, name) == Some(t),
                None => header_or(parts, name, default) == default && header_opt(parts, name) is None,
            },
            None => header_or(parts, name, default) == default && header_opt(parts, name) is None,
        },
{
}

} // verus!
