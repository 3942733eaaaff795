//! Access log entries: the configuration of where they go and the
//! structured JSON line written per request.
//!
//! An entry is one JSON object on one line, padded with dots to about 3KB so
//! that every request writes a comparable amount. Writing it is the
//! application's part.
use vstd::prelude::*;

use crate::phase::{
    get_header, header_or, request_authority, request_authority_text, request_method, request_method_text,
    request_path, request_path_text,
};
use crate::processor::ProcessorError;
use crate::text::{decimal, push_char, push_decimal, push_str};

verus! {

/// Type URL of the access log processor extension.
pub const TYPE_URL: &'static str = "mox.geist.processors.v1.AccessLog";

/// The size an entry is padded towards, in bytes.
pub const TARGET_ENTRY_BYTES: usize = 3072;

/// Access log configuration: where entries are written.
#[derive(Debug, Clone)]
pub struct AccessLogConfig {
    /// File path for log output. `-` or `stdout` for standard output.
    pub path: String,
}

/// Whether a configured path names standard output.
pub open spec fn is_stdout_path(path: Seq<char>) -> bool {
    path == "-"@ || path == "stdout"@
}

impl AccessLogConfig {
    /// Whether entries go to standard output rather than a file.
    pub fn writes_to_stdout(&self) -> (r: bool)
        ensures
            r == is_stdout_path(self.path@),
    {
        let p = self.path.as_str();
        crate::text::str_eq(p, "-") || crate::text::str_eq(p, "stdout")
    }
}

/// The parent directory of a path, as text (what `std::path::Path::parent`
/// returns for the path, converted with `to_str`).
pub uninterp spec fn path_parent(path: Seq<char>) -> Option<Seq<char>>;

/// The final component of a path, as text (what `std::path::Path::file_name`
/// returns for the path, converted with `to_str`).
pub uninterp spec fn path_file_name(path: Seq<char>) -> Option<Seq<char>>;

/// Calls `std::path::Path::parent` on the path, and `to_str` on the result.
#[verifier::external_body]
fn std_path_parent(path: &str) -> (r: Option<&str>)
    ensures
        match r {
            Some(t) => path_parent(path@) == Some(t@),
            None => path_parent(path@) is None,
        },
{
    match std::path::Path::new(path).parent() {
        Some(p) => p.to_str(),
        None => None,
    }
}

/// Calls `std::path::Path::file_name` on the path, and `to_str` on the result.
#[verifier::external_body]
fn std_path_file_name(path: &str) -> (r: Option<&str>)
    ensures
        match r {
            Some(t) => path_file_name(path@) == Some(t@),
            None => path_file_name(path@) is None,
        },
{
    match std::path::Path::new(path).file_name() {
        Some(f) => f.to_str(),
        None => None,
    }
}

/// The parent directory of a log path. Fails with `invalid log path: <path>`
/// when the path has none.
pub fn parent_dir(path: &str) -> (r: Result<&str, ProcessorError>)
    ensures
        match r {
            Ok(d) => path_parent(path@) == Some(d@),
            Err(e) => path_parent(path@) is None && e.processor@ == TYPE_URL@
                && e.message@ == "invalid log path: "@ + path@ && e.source is None,
        },
{
    match std_path_parent(path) {
        Some(d) => Ok(d),
        None => {
            let mut m = String::from_str("invalid log path: ");
            push_str(&mut m, path);
            proof {
                reveal_strlit("invalid log path: ");
            }
            Err(ProcessorError { processor: String::from_str(TYPE_URL), message: m, source: None })
        },
    }
}

/// The file name of a log path. Fails with `invalid log filename: <path>`
/// when the path has none.
pub fn file_name(path: &str) -> (r: Result<&str, ProcessorError>)
    ensures
        match r {
            Ok(f) => path_file_name(path@) == Some(f@),
            Err(e) => path_file_name(path@) is None && e.processor@ == TYPE_URL@
                && e.message@ == "invalid log filename: "@ + path@ && e.source is None,
        },
{
    match std_path_file_name(path) {
        Some(f) => Ok(f),
        None => {
            let mut m = String::from_str("invalid log filename: ");
            push_str(&mut m, path);
            proof {
                reveal_strlit("invalid log filename: ");
            }
            Err(ProcessorError { processor: String::from_str(TYPE_URL), message: m, source: None })
        },
    }
}

/// What an entry records of a request: the values of twelve headers.
pub struct RequestInfo<'a> {
    pub method: &'a str,
    pub path: &'a str,
    pub authority: &'a str,
    pub host: &'a str,
    pub agent: &'a str,
    pub tool: &'a str,
    pub resource: &'a str,
    pub session: &'a str,
    pub operation: &'a str,
    pub content_type: &'a str,
    pub user_agent: &'a str,
    pub accept: &'a str,
}

/// What an entry records of a request: its method, path and authority
/// (the pseudo-headers `:method`, `:path` and `:authority`), then nine
/// headers; `-` for each one absent.
pub open spec fn is_request_info(info: RequestInfo, parts: http::request::Parts) -> bool {
    &&& info.method@ == request_method_text(parts)
    &&& info.path@ == or_dash(request_path_text(parts))
    &&& info.authority@ == or_dash(request_authority_text(parts))
    &&& info.host@ == header_or(parts, "host"@, "-"@)
    &&& info.agent@ == header_or(parts, "x-geist-agent-id"@, "-"@)
    &&& info.tool@ == header_or(parts, "x-geist-tool-name"@, "-"@)
    &&& info.resource@ == header_or(parts, "x-geist-resource"@, "-"@)
    &&& info.session@ == header_or(parts, "x-geist-session-id"@, "-"@)
    &&& info.operation@ == header_or(parts, "x-geist-operation"@, "-"@)
    &&& info.content_type@ == header_or(parts, "content-type"@, "-"@)
    &&& info.user_agent@ == header_or(parts, "user-agent"@, "-"@)
    &&& info.accept@ == header_or(parts, "accept"@, "-"@)
}

/// A text, or `-` where there is none.
pub open spec fn or_dash(t: Option<Seq<char>>) -> Seq<char> {
    match t {
        Some(v) => v,
        None => "-"@,
    }
}

/// A text, or `-` where there is none.
fn or_dash_str(t: Option<&str>) -> (r: &str)
    ensures
        r@ == or_dash(match t {
            Some(v) => Some(v@),
            None => None,
        }),
{
    match t {
        Some(v) => v,
        None => "-",
    }
}

/// Read what an entry records of a request, `-` for each part absent.
pub fn request_info<'a>(parts: &'a http::request::Parts) -> (r: RequestInfo<'a>)
    ensures
        is_request_info(r, *parts),
{
    RequestInfo {
        method: request_method(parts),
        path: or_dash_str(request_path(parts)),
        authority: or_dash_str(request_authority(parts)),
        host: get_header(parts, "host", "-"),
        agent: get_header(parts, "x-geist-agent-id", "-"),
        tool: get_header(parts, "x-geist-tool-name", "-"),
        resource: get_header(parts, "x-geist-resource", "-"),
        session: get_header(parts, "x-geist-session-id", "-"),
        operation: get_header(parts, "x-geist-operation", "-"),
        content_type: get_header(parts, "content-type", "-"),
        user_agent: get_header(parts, "user-agent", "-"),
        accept: get_header(parts, "accept", "-"),
    }
}

/// `n` in decimal, with leading zeros up to `width` digits.
pub open spec fn zero_padded(n: nat, width: nat) -> Seq<char> {
    let d = decimal(n);
    if d.len() < width {
        Seq::new((width - d.len()) as nat, |i: int| '0') + d
    } else {
        d
    }
}

/// The number of bytes of a text in UTF-8.
pub open spec fn byte_len(s: Seq<char>) -> nat {
    vstd::utf8::encode_utf8(s).len()
}

/// An entry before padding: the timestamp `<secs>.<nanos, nine digits>`, the
/// recorded headers, the processor name and the pipeline position.
pub open spec fn entry_head(secs: u64, nanos: u32, info: RequestInfo) -> Seq<char> {
    "{\"ts\":\""@ + decimal(secs as nat) + "."@ + zero_padded(nanos as nat, 9) + "\",\"method\":\""@
        + info.method@ + "\",\"path\":\""@ + info.path@ + "\",\"authority\":\""@ + info.authority@
        + "\",\"host\":\""@ + info.host@ + "\",\"agent\":\""@ + info.agent@ + "\",\"tool\":\""@
        + info.tool@ + "\",\"resource\":\""@ + info.resource@ + "\",\"session\":\""@ + info.session@
        + "\",\"operation\":\""@ + info.operation@ + "\",\"content_type\":\""@ + info.content_type@
        + "\",\"user_agent\":\""@ + info.user_agent@ + "\",\"accept\":\""@ + info.accept@
        + "\",\"processor\":\"geist-edge\",\"pipeline_pos\":0"@
}

/// Whether the head, closed by `}` and a newline, leaves room within the
/// target size for the 10 bytes of the `,"_pad":""` field.
pub open spec fn needs_padding(head: Seq<char>) -> bool {
    byte_len(head) + 2 + 10 <= TARGET_ENTRY_BYTES
}

/// The number of padding dots: the target less the closed head and the 10
/// bytes of the `,"_pad":""` wrapper.
pub open spec fn pad_len(head: Seq<char>) -> int {
    TARGET_ENTRY_BYTES - (byte_len(head) + 2) - 10
}

/// A finished entry: the head, the padding field where it needs one, then
/// `}` and a newline.
pub open spec fn entry_text(head: Seq<char>) -> Seq<char> {
    if needs_padding(head) {
        head + ",\"_pad\":\""@ + Seq::new(pad_len(head) as nat, |i: int| '.') + "\""@ + "}\n"@
    } else {
        head + "}\n"@
    }
}

/// UTF-8 encodes a concatenation piece by piece.
proof fn lemma_encode_concat(a: Seq<char>, b: Seq<char>)
    ensures
        vstd::utf8::encode_utf8(a + b) == vstd::utf8::encode_utf8(a) + vstd::utf8::encode_utf8(b),
    decreases a.len(),
{
    if a.len() == 0 {
        assert(a + b =~= b);
        assert(vstd::utf8::encode_utf8(a) =~= Seq::<u8>::empty());
        assert(vstd::utf8::encode_utf8(a) + vstd::utf8::encode_utf8(b) =~= vstd::utf8::encode_utf8(b));
    } else {
        lemma_encode_concat(a.drop_first(), b);
        assert((a + b).drop_first() =~= a.drop_first() + b);
        assert((a + b)[0] == a[0]);
        assert(vstd::utf8::encode_utf8(a + b) =~= vstd::utf8::encode_scalar(a[0] as u32) + (
        vstd::utf8::encode_utf8(a.drop_first()) + vstd::utf8::encode_utf8(b)));
    }
}

/// The bytes of ASCII text are as many as its characters.
proof fn lemma_ascii_byte_len(s: Seq<char>)
    requires
        vstd::utf8::is_ascii_chars(s),
    ensures
        byte_len(s) == s.len(),
{
    vstd::utf8::is_ascii_chars_encode_utf8(s);
}

/// Every entry is about 3KB or more and ends with `}` and a newline: one
/// that needs padding comes out at exactly the target size; any other is its
/// head closed by `}` and a newline, within 10 bytes of the target or beyond.
pub proof fn law_entry_size(head: Seq<char>)
    ensures
        needs_padding(head) ==> byte_len(entry_text(head)) == TARGET_ENTRY_BYTES,
        !needs_padding(head) ==> byte_len(entry_text(head)) == byte_len(head) + 2
            && byte_len(entry_text(head)) > TARGET_ENTRY_BYTES - 10,
        entry_text(head).len() >= 2 && entry_text(head).subrange(entry_text(head).len() - 2, entry_text(head).len() as int) == "}\n"@,
{
    reveal_strlit(",\"_pad\":\"");
    reveal_strlit("\"");
    reveal_strlit("}\n");
    if needs_padding(head) {
        let tail = ",\"_pad\":\""@ + Seq::new(pad_len(head) as nat, |i: int| '.') + "\""@ + "}\n"@;
        assert(entry_text(head) =~= head + tail);
        lemma_encode_concat(head, tail);
        assert forall|i: int| 0 <= i < tail.len() implies '\0' <= #[trigger] tail[i] <= '\u{7f}' by {
            if i < 9 {
            } else if i < 9 + pad_len(head) {
                assert(tail[i] == '.');
            } else {
            }
        }
        lemma_ascii_byte_len(tail);
    } else {
        lemma_encode_concat(head, "}\n"@);
        lemma_ascii_byte_len("}\n"@);
    }
}

/// Appends `n` in decimal with leading zeros up to `width` digits.
fn push_zero_padded(s: &mut String, n: u32, width: usize)
    ensures
        final(s)@ == old(s)@ + zero_padded(n as nat, width as nat),
{
    let mut digits = String::new();
    push_decimal(&mut digits, n as u64);
    let len = digits.as_str().unicode_len();
    if len < width {
        let mut k: usize = 0;
        let ghost base = s@;
        while k < width - len
            invariant
                0 <= k <= width - len,
                s@ == base + Seq::new(k as nat, |i: int| '0'),
            decreases width - len - k,
        {
            push_char(s, '0');
            k = k + 1;
            assert(s@ =~= base + Seq::new(k as nat, |i: int| '0'));
        }
    }
    push_str(s, digits.as_str());
    assert(s@ =~= old(s)@ + zero_padded(n as nat, width as nat));
}

/// The unpadded entry for a request seen at `secs.nanos` seconds since the epoch.
pub fn entry_head_text(secs: u64, nanos: u32, info: &RequestInfo) -> (r: String)
    ensures
        r@ == entry_head(secs, nanos, *info),
{
    let mut e = String::from_str("{\"ts\":\"");
    push_decimal(&mut e, secs);
    push_str(&mut e, ".");
    push_zero_padded(&mut e, nanos, 9);
    push_str(&mut e, "\",\"method\":\"");
    push_str(&mut e, info.method);
    push_str(&mut e, "\",\"path\":\"");
    push_str(&mut e, info.path);
    push_str(&mut e, "\",\"authority\":\"");
    push_str(&mut e, info.authority);
    push_str(&mut e, "\",\"host\":\"");
    push_str(&mut e, info.host);
    push_str(&mut e, "\",\"agent\":\"");
    push_str(&mut e, info.agent);
    push_str(&mut e, "\",\"tool\":\"");
    push_str(&mut e, info.tool);
    push_str(&mut e, "\",\"resource\":\"");
    push_str(&mut e, info.resource);
    push_str(&mut e, "\",\"session\":\"");
    push_str(&mut e, info.session);
    push_str(&mut e, "\",\"operation\":\"");
    push_str(&mut e, info.operation);
    push_str(&mut e, "\",\"content_type\":\"");
    push_str(&mut e, info.content_type);
    push_str(&mut e, "\",\"user_agent\":\"");
    push_str(&mut e, info.user_agent);
    push_str(&mut e, "\",\"accept\":\"");
    push_str(&mut e, info.accept);
    push_str(&mut e, "\",\"processor\":\"geist-edge\",\"pipeline_pos\":0");
    e
}

/// Finish an entry: pad it to the target size where there is room for the
/// padding field, then close it with `}` and a newline.
pub fn pad_entry(head: String) -> (r: String)
    ensures
        r@ == entry_text(head@),
{
    let n = head.as_str().as_bytes().len();
    let mut entry = head;
    let ghost h = entry@;
    if n <= TARGET_ENTRY_BYTES - 12 {
        let pad = TARGET_ENTRY_BYTES - 12 - n;
        push_str(&mut entry, ",\"_pad\":\"");
        let ghost base = entry@;
        let mut k: usize = 0;
        while k < pad
            invariant
                0 <= k <= pad,
                entry@ == base + Seq::new(k as nat, |i: int| '.'),
            decreases pad - k,
        {
            push_char(&mut entry, '.');
            k = k + 1;
            assert(entry@ =~= base + Seq::new(k as nat, |i: int| '.'));
        }
        push_char(&mut entry, '"');
        push_str(&mut entry, "}\n");
        proof {
            reveal_strlit("\"");
        }
        assert(entry@ =~= entry_text(h));
    } else {
        push_str(&mut entry, "}\n");
    }
    entry
}

/// The entry for a request seen at `secs.nanos` seconds since the epoch.
pub fn format_entry(secs: u64, nanos: u32, info: &RequestInfo) -> (r: String)
    ensures
        r@ == entry_text(entry_head(secs, nanos, *info)),
{
    let head = entry_head_text(secs, nanos, info);
    pad_entry(head)
}

/// The entry for a request, read from the request.
pub fn format_request_entry(secs: u64, nanos: u32, parts: &http::request::Parts) -> (r: String)
    ensures
        exists|info: RequestInfo| #[trigger] is_request_info(info, *parts) && r@ == entry_text(entry_head(secs, nanos, info)),
{
    let info = request_info(parts);
    format_entry(secs, nanos, &info)
}

/// `f` occurs in `s` as a contiguous piece.
pub open spec fn has_fragment(s: Seq<char>, f: Seq<char>) -> bool {
    exists|i: int| 0 <= i && i + f.len() <= s.len() && #[trigger] s.subrange(i, i + f.len()) == f
}

/// `s` begins with `f`.
pub open spec fn starts_with_text(s: Seq<char>, f: Seq<char>) -> bool {
    f.len() <= s.len() && s.subrange(0, f.len() as int) == f
}

proof fn lemma_fragment_at_end(p: Seq<char>, a: Seq<char>, b: Seq<char>, c: Seq<char>)
    ensures
        has_fragment(p + a + b + c, a + b + c),
{
    assert((p + a + b + c).subrange(p.len() as int, (p.len() + (a + b + c).len()) as int) =~= a + b + c);
}

proof fn lemma_fragment_extend(s: Seq<char>, t: Seq<char>, f: Seq<char>)
    requires
        has_fragment(s, f),
    ensures
        has_fragment(s + t, f),
{
    let i = choose|i: int| 0 <= i && i + f.len() <= s.len() && #[trigger] s.subrange(i, i + f.len()) == f;
    assert((s + t).subrange(i, i + f.len()) =~= s.subrange(i, i + f.len()));
}

proof fn lemma_starts_itself(f: Seq<char>)
    ensures
        starts_with_text(f, f),
{
    assert(f.subrange(0, f.len() as int) =~= f);
}

proof fn lemma_starts_extend(s: Seq<char>, t: Seq<char>, f: Seq<char>)
    requires
        starts_with_text(s, f),
    ensures
        starts_with_text(s + t, f),
{
    assert((s + t).subrange(0, f.len() as int) =~= s.subrange(0, f.len() as int));
}

/// An entry's head starts with the timestamp, seconds and nine-digit
/// nanoseconds, and writes each recorded header as a JSON field under its
/// own key, in the order method, path, authority, host, agent, tool,
/// resource, session, operation, content type, user agent, accept, followed
/// by the processor name and pipeline position.
pub proof fn law_entry_head_fields(secs: u64, nanos: u32, info: RequestInfo)
    ensures
        starts_with_text(entry_head(secs, nanos, info), (((("{\"ts\":\""@ + decimal(secs as nat)) + "."@) + zero_padded(nanos as nat, 9)) + "\",\"method\":\""@)),
        has_fragment(entry_head(secs, nanos, info), "\",\"method\":\""@ + info.method@ + "\",\"path\":\""@),
        has_fragment(entry_head(secs, nanos, info), "\",\"path\":\""@ + info.path@ + "\",\"authority\":\""@),
        has_fragment(entry_head(secs, nanos, info), "\",\"authority\":\""@ + info.authority@ + "\",\"host\":\""@),
        has_fragment(entry_head(secs, nanos, info), "\",\"host\":\""@ + info.host@ + "\",\"agent\":\""@),
        has_fragment(entry_head(secs, nanos, info), "\",\"agent\":\""@ + info.agent@ + "\",\"tool\":\""@),
        has_fragment(entry_head(secs, nanos, info), "\",\"tool\":\""@ + info.tool@ + "\",\"resource\":\""@),
        has_fragment(entry_head(secs, nanos, info), "\",\"resource\":\""@ + info.resource@ + "\",\"session\":\""@),
        has_fragment(entry_head(secs, nanos, info), "\",\"session\":\""@ + info.session@ + "\",\"operation\":\""@),
        has_fragment(entry_head(secs, nanos, info), "\",\"operation\":\""@ + info.operation@ + "\",\"content_type\":\""@),
        has_fragment(entry_head(secs, nanos, info), "\",\"content_type\":\""@ + info.content_type@ + "\",\"user_agent\":\""@),
        has_fragment(entry_head(secs, nanos, info), "\",\"user_agent\":\""@ + info.user_agent@ + "\",\"accept\":\""@),
        has_fragment(entry_head(secs, nanos, info), "\",\"accept\":\""@ + info.accept@ + "\",\"processor\":\"geist-edge\",\"pipeline_pos\":0"@),
{
    let h = entry_head(secs, nanos, info);
    assert(starts_with_text(h, (((("{\"ts\":\""@ + decimal(secs as nat)) + "."@) + zero_padded(nanos as nat, 9)) + "\",\"method\":\""@))) by {
        lemma_starts_itself((((("{\"ts\":\""@ + decimal(secs as nat)) + "."@) + zero_padded(nanos as nat, 9)) + "\",\"method\":\""@));
        lemma_starts_extend((((("{\"ts\":\""@ + decimal(secs as nat)) + "."@) + zero_padded(nanos as nat, 9)) + "\",\"method\":\""@), info.method@, (((("{\"ts\":\""@ + decimal(secs as nat)) + "."@) + zero_padded(nanos as nat, 9)) + "\",\"method\":\""@));
        lemma_starts_extend(((((("{\"ts\":\""@ + decimal(secs as nat)) + "."@) + zero_padded(nanos as nat, 9)) + "\",\"method\":\""@) + info.method@), "\",\"path\":\""@, (((("{\"ts\":\""@ + decimal(secs as nat)) + "."@) + zero_padded(nanos as nat, 9)) + "\",\"method\":\""@));
        lemma_starts_extend((((((("{\"ts\":\""@ + decimal(secs as nat)) + "."@) + zero_padded(nanos as nat, 9)) + "\",\"method\":\""@) + info.method@) + "\",\"path\":\""@), info.path@, (((("{\"ts\":\""@ + decimal(secs as nat)) + "."@) + zero_padded(nanos as nat, 9)) + "\",\"method\":\""@));
        lemma_starts_extend(((((((("{\"ts\":\""@ + decimal(secs as nat)) + "."@) + zero_padded(nanos as nat, 9)) + "\",\"method\":\""@) + info.method@) + "\",\"path\":\""@) + info.path@), "\",\"authority\":\""@, (((("{\"ts\":\""@ + decimal(secs as nat)) + "."@) + zero_padded(nanos as nat, 9)) + "\",\"method\":\""@));
        lemma_starts_extend((((((((("{\"ts\":\""@ + decimal(secs as nat)) + "."@) + zero_padded(nanos as nat, 9)) + "\",\"method\":\""@) + info.method@) + "\",\"path\":\""@) + info.path@) + "\",\"authority\":\""@), info.authority@, (((("{\"ts\":\""@ + decimal(secs as nat)) + "."@) + zero_padded(nanos as nat, 9)) + "\",\"method\":\""@));
        lemma_starts_extend(((((((((("{\"ts\":\""@ + decimal(secs as nat)) + "."@) + zero_padded(nanos as nat, 9)) + "\",\"method\":\""@) + info.method@) + "\",\"path\":\""@) + info.path@) + "\",\"authority\":\""@) + info.authority@), "\",\"host\":\""@, (((("{\"ts\":\""@ + decimal(secs as nat)) + "."@) + zero_padded(nanos as nat, 9)) + "\",\"method\":\""@));
        lemma_starts_extend((((((((((("{\"ts\":\""@ + decimal(secs as nat)) + "."@) + zero_padded(nanos as nat, 9)) + "\",\"method\":\""@) + info.method@) + "\",\"path\":\""@) + info.path@) + "\",\"authority\":\""@) + info.authority@) + "\",\"host\":\""@), info.host@, (((("{\"ts\":\""@ + decimal(secs as nat)) + "."@) + zero_padded(nanos as nat, 9)) + "\",\"method\":\""@));
        lemma_starts_extend(((((((((((("{\"ts\":\""@ + decimal(secs as nat)) + "."@) + zero_padded(nanos as nat, 9)) + "\",\"method\":\""@) + info.method@) + "\",\"path\":\""@) + info.path@) + "\",\"authority\":\""@) + info.authority@) + "\",\"host\":\""@) + info.host@), "\",\"agent\":\""@, (((("{\"ts\":\""@ + decimal(secs as nat)) + "."@) + zero_padded(nanos as nat, 9)) + "\",\"method\":\""@));
        lemma_starts_extend((((((((((((("{\"ts\":\""@ + decimal(secs as nat)) + "."@) + zero_padded(nanos as nat, 9)) + "\",\"method\":\""@) + info.method@) + "\",\"path\":\""@) + info.path@) + "\",\"authority\":\""@) + info.authority@) + "\",\"host\":\""@) + info.host@) + "\",\"agent\":\""@), info.agent@, (((("{\"ts\":\""@ + decimal(secs as nat)) + "."@) + zero_padded(nanos as nat, 9)) + "\",\"method\":\""@));
        lemma_starts_extend(((((((((((((("{\"ts\":\""@ + decimal(secs as nat)) + "."@) + zero_padded(nanos as nat, 9)) + "\",\"method\":\""@) + info.method@) + "\",\"path\":\""@) + info.path@) + "\",\"authority\":\""@) + info.authority@) + "\",\"host\":\""@) + info.host@) + "\",\"agent\":\""@) + info.agent@), "\",\"tool\":\""@, (((("{\"ts\":\""@ + decimal(secs as nat)) + "."@) + zero_padded(nanos as nat, 9)) + "\",\"method\":\""@));
        lemma_starts_extend((((((((((((((("{\"ts\":\""@ + decimal(secs as nat)) + "."@) + zero_padded(nanos as nat, 9)) + "\",\"method\":\""@) + info.method@) + "\",\"path\":\""@) + info.path@) + "\",\"authority\":\""@) + info.authority@) + "\",\"host\":\""@) + info.host@) + "\",\"agent\":\""@) + info.agent@) + "\",\"tool\":\""@), info.tool@, (((("{\"ts\":\""@ + decimal(secs as nat)) + "."@) + zero_padded(nanos as nat, 9)) + "\",\"method\":\""@));
        lemma_starts_extend(((((((((((((((("{\"ts\":\""@ + decimal(secs as nat)) + "."@) + zero_padded(nanos as nat, 9)) + "\",\"method\":\""@) + info.method@) + "\",\"path\":\""@) + info.path@) + "\",\"authority\":\""@) + info.authority@) + "\",\"host\":\""@) + info.host@) + "\",\"agent\":\""@) + info.agent@) + "\",\"tool\":\""@) + info.tool@), "\",\"resource\":\""@, (((("{\"ts\":\""@ + decimal(secs as nat)) + "."@) + zero_padded(nanos as nat, 9)) + "\",\"method\":\""@));
        lemma_starts_extend((((((((((((((((("{\"ts\":\""@ + decimal(secs as nat)) + "."@) + zero_padded(nanos as nat, 9)) + "\",\"method\":\""@) + info.method@) + "\",\"path\":\""@) + info.path@) + "\",\"authority\":\""@) + info.authority@) + "\",\"host\":\""@) + info.host@) + "\",\"agent\":\""@) + info.agent@) + "\",\"tool\":\""@) + info.tool@) + "\",\"resource\":\""@), info.resource@, (((("{\"ts\":\""@ + decimal(secs as nat)) + "."@) + zero_padded(nanos as nat, 9)) + "\",\"method\":\""@));
        lemma_starts_extend(((((((((((((((((("{\"ts\":\""@ + decimal(secs as nat)) + "."@) + zero_padded(nanos as nat, 9)) + "\",\"method\":\""@) + info.method@) + "\",\"path\":\""@) + info.path@) + "\",\"authority\":\""@) + info.authority@) + "\",\"host\":\""@) + info.host@) + "\",\"agent\":\""@) + info.agent@) + "\",\"tool\":\""@) + info.tool@) + "\",\"resource\":\""@) + info.resource@), "\",\"session\":\""@, (((("{\"ts\":\""@ + decimal(secs as nat)) + "."@) + zero_padded(nanos as nat, 9)) + "\",\"method\":\""@));
        lemma_starts_extend((((((((((((((((((("{\"ts\":\""@ + decimal(secs as nat)) + "."@) + zero_padded(nanos as nat, 9)) + "\",\"method\":\""@) + info.method@) + "\",\"path\":\""@) + info.path@) + "\",\"authority\":\""@) + info.authority@) + "\",\"host\":\""@) + info.host@) + "\",\"agent\":\""@) + info.agent@) + "\",\"tool\":\""@) + info.tool@) + "\",\"resource\":\""@) + info.resource@) + "\",\"session\":\""@), info.session@, (((("{\"ts\":\""@ + decimal(secs as nat)) + "."@) + zero_padded(nanos as nat, 9)) + "\",\"method\":\""@));
        lemma_starts_extend(((((((((((((((((((("{\"ts\":\""@ + decimal(secs as nat)) + "."@) + zero_padded(nanos as nat, 9)) + "\",\"method\":\""@) + info.method@) + "\",\"path\":\""@) + info.path@) + "\",\"authority\":\""@) + info.authority@) + "\",\"host\":\""@) + info.host@) + "\",\"agent\":\""@) + info.agent@) + "\",\"tool\":\""@) + info.tool@) + "\",\"resource\":\""@) + info.resource@) + "\",\"session\":\""@) + info.session@), "\",\"operation\":\""@, (((("{\"ts\":\""@ + decimal(secs as nat)) + "."@) + zero_padded(nanos as nat, 9)) + "\",\"method\":\""@));
        lemma_starts_extend((((((((((((((((((((("{\"ts\":\""@ + decimal(secs as nat)) + "."@) + zero_padded(nanos as nat, 9)) + "\",\"method\":\""@) + info.method@) + "\",\"path\":\""@) + info.path@) + "\",\"authority\":\""@) + info.authority@) + "\",\"host\":\""@) + info.host@) + "\",\"agent\":\""@) + info.agent@) + "\",\"tool\":\""@) + info.tool@) + "\",\"resource\":\""@) + info.resource@) + "\",\"session\":\""@) + info.session@) + "\",\"operation\":\""@), info.operation@, (((("{\"ts\":\""@ + decimal(secs as nat)) + "."@) + zero_padded(nanos as nat, 9)) + "\",\"method\":\""@));
        lemma_starts_extend(((((((((((((((((((((("{\"ts\":\""@ + decimal(secs as nat)) + "."@) + zero_padded(nanos as nat, 9)) + "\",\"method\":\""@) + info.method@) + "\",\"path\":\""@) + info.path@) + "\",\"authority\":\""@) + info.authority@) + "\",\"host\":\""@) + info.host@) + "\",\"agent\":\""@) + info.agent@) + "\",\"tool\":\""@) + info.tool@) + "\",\"resource\":\""@) + info.resource@) + "\",\"session\":\""@) + info.session@) + "\",\"operation\":\""@) + info.operation@), "\",\"content_type\":\""@, (((("{\"ts\":\""@ + decimal(secs as nat)) + "."@) + zero_padded(nanos as nat, 9)) + "\",\"method\":\""@));
        lemma_starts_extend((((((((((((((((((((((("{\"ts\":\""@ + decimal(secs as nat)) + "."@) + zero_padded(nanos as nat, 9)) + "\",\"method\":\""@) + info.method@) + "\",\"path\":\""@) + info.path@) + "\",\"authority\":\""@) + info.authority@) + "\",\"host\":\""@) + info.host@) + "\",\"agent\":\""@) + info.agent@) + "\",\"tool\":\""@) + info.tool@) + "\",\"resource\":\""@) + info.resource@) + "\",\"session\":\""@) + info.session@) + "\",\"operation\":\""@) + info.operation@) + "\",\"content_type\":\""@), info.content_type@, (((("{\"ts\":\""@ + decimal(secs as nat)) + "."@) + zero_padded(nanos as nat, 9)) + "\",\"method\":\""@));
        lemma_starts_extend(((((((((((((((((((((((("{\"ts\":\""@ + decimal(secs as nat)) + "."@) + zero_padded(nanos as nat, 9)) + "\",\"method\":\""@) + info.method@) + "\",\"path\":\""@) + info.path@) + "\",\"authority\":\""@) + info.authority@) + "\",\"host\":\""@) + info.host@) + "\",\"agent\":\""@) + info.agent@) + "\",\"tool\":\""@) + info.tool@) + "\",\"resource\":\""@) + info.resource@) + "\",\"session\":\""@) + info.session@) + "\",\"operation\":\""@) + info.operation@) + "\",\"content_type\":\""@) + info.content_type@), "\",\"user_agent\":\""@, (((("{\"ts\":\""@ + decimal(secs as nat)) + "."@) + zero_padded(nanos as nat, 9)) + "\",\"method\":\""@));
        lemma_starts_extend((((((((((((((((((((((((("{\"ts\":\""@ + decimal(secs as nat)) + "."@) + zero_padded(nanos as nat, 9)) + "\",\"method\":\""@) + info.method@) + "\",\"path\":\""@) + info.path@) + "\",\"authority\":\""@) + info.authority@) + "\",\"host\":\""@) + info.host@) + "\",\"agent\":\""@) + info.agent@) + "\",\"tool\":\""@) + info.tool@) + "\",\"resource\":\""@) + info.resource@) + "\",\"session\":\""@) + info.session@) + "\",\"operation\":\""@) + info.operation@) + "\",\"content_type\":\""@) + info.content_type@) + "\",\"user_agent\":\""@), info.user_agent@, (((("{\"ts\":\""@ + decimal(secs as nat)) + "."@) + zero_padded(nanos as nat, 9)) + "\",\"method\":\""@));
        lemma_starts_extend(((((((((((((((((((((((((("{\"ts\":\""@ + decimal(secs as nat)) + "."@) + zero_padded(nanos as nat, 9)) + "\",\"method\":\""@) + info.method@) + "\",\"path\":\""@) + info.path@) + "\",\"authority\":\""@) + info.authority@) + "\",\"host\":\""@) + info.host@) + "\",\"agent\":\""@) + info.agent@) + "\",\"tool\":\""@) + info.tool@) + "\",\"resource\":\""@) + info.resource@) + "\",\"session\":\""@) + info.session@) + "\",\"operation\":\""@) + info.operation@) + "\",\"content_type\":\""@) + info.content_type@) + "\",\"user_agent\":\""@) + info.user_agent@), "\",\"accept\":\""@, (((("{\"ts\":\""@ + decimal(secs as nat)) + "."@) + zero_padded(nanos as nat, 9)) + "\",\"method\":\""@));
        lemma_starts_extend((((((((((((((((((((((((((("{\"ts\":\""@ + decimal(secs as nat)) + "."@) + zero_padded(nanos as nat, 9)) + "\",\"method\":\""@) + info.method@) + "\",\"path\":\""@) + info.path@) + "\",\"authority\":\""@) + info.authority@) + "\",\"host\":\""@) + info.host@) + "\",\"agent\":\""@) + info.agent@) + "\",\"tool\":\""@) + info.tool@) + "\",\"resource\":\""@) + info.resource@) + "\",\"session\":\""@) + info.session@) + "\",\"operation\":\""@) + info.operation@) + "\",\"content_type\":\""@) + info.content_type@) + "\",\"user_agent\":\""@) + info.user_agent@) + "\",\"accept\":\""@), info.accept@, (((("{\"ts\":\""@ + decimal(secs as nat)) + "."@) + zero_padded(nanos as nat, 9)) + "\",\"method\":\""@));
        lemma_starts_extend(((((((((((((((((((((((((((("{\"ts\":\""@ + decimal(secs as nat)) + "."@) + zero_padded(nanos as nat, 9)) + "\",\"method\":\""@) + info.method@) + "\",\"path\":\""@) + info.path@) + "\",\"authority\":\""@) + info.authority@) + "\",\"host\":\""@) + info.host@) + "\",\"agent\":\""@) + info.agent@) + "\",\"tool\":\""@) + info.tool@) + "\",\"resource\":\""@) + info.resource@) + "\",\"session\":\""@) + info.session@) + "\",\"operation\":\""@) + info.operation@) + "\",\"content_type\":\""@) + info.content_type@) + "\",\"user_agent\":\""@) + info.user_agent@) + "\",\"accept\":\""@) + info.accept@), "\",\"processor\":\"geist-edge\",\"pipeline_pos\":0"@, (((("{\"ts\":\""@ + decimal(secs as nat)) + "."@) + zero_padded(nanos as nat, 9)) + "\",\"method\":\""@));
    }
    assert(has_fragment(h, "\",\"method\":\""@ + info.method@ + "\",\"path\":\""@)) by {
        lemma_fragment_at_end(((("{\"ts\":\""@ + decimal(secs as nat)) + "."@) + zero_padded(nanos as nat, 9)), "\",\"method\":\""@, info.method@, "\",\"path\":\""@);
        lemma_fragment_extend((((((("{\"ts\":\""@ + decimal(secs as nat)) + "."@) + zero_padded(nanos as nat, 9)) + "\",\"method\":\""@) + info.method@) + "\",\"path\":\""@), info.path@, "\",\"method\":\""@ + info.method@ + "\",\"path\":\""@);
        lemma_fragment_extend(((((((("{\"ts\":\""@ + decimal(secs as nat)) + "."@) + zero_padded(nanos as nat, 9)) + "\",\"method\":\""@) + info.method@) + "\",\"path\":\""@) + info.path@), "\",\"authority\":\""@, "\",\"method\":\""@ + info.method@ + "\",\"path\":\""@);
        lemma_fragment_extend((((((((("{\"ts\":\""@ + decimal(secs as nat)) + "."@) + zero_padded(nanos as nat, 9)) + "\",\"method\":\""@) + info.method@) + "\",\"path\":\""@) + info.path@) + "\",\"authority\":\""@), info.authority@, "\",\"method\":\""@ + info.method@ + "\",\"path\":\""@);
        lemma_fragment_extend(((((((((("{\"ts\":\""@ + decimal(secs as nat)) + "."@) + zero_padded(nanos as nat, 9)) + "\",\"method\":\""@) + info.method@) + "\",\"path\":\""@) + info.path@) + "\",\"authority\":\""@) + info.authority@), "\",\"host\":\""@, "\",\"method\":\""@ + info.method@ + "\",\"path\":\""@);
        lemma_fragment_extend((((((((((("{\"ts\":\""@ + decimal(secs as nat)) + "."@) + zero_padded(nanos as nat, 9)) + "\",\"method\":\""@) + info.method@) + "\",\"path\":\""@) + info.path@) + "\",\"authority\":\""@) + info.authority@) + "\",\"host\":\""@), info.host@, "\",\"method\":\""@ + info.method@ + "\",\"path\":\""@);
        lemma_fragment_extend(((((((((((("{\"ts\":\""@ + decimal(secs as nat)) + "."@) + zero_padded(nanos as nat, 9)) + "\",\"method\":\""@) + info.method@) + "\",\"path\":\""@) + info.path@) + "\",\"authority\":\""@) + info.authority@) + "\",\"host\":\""@) + info.host@), "\",\"agent\":\""@, "\",\"method\":\""@ + info.method@ + "\",\"path\":\""@);
        lemma_fragment_extend((((((((((((("{\"ts\":\""@ + decimal(secs as nat)) + "."@) + zero_padded(nanos as nat, 9)) + "\",\"method\":\""@) + info.method@) + "\",\"path\":\""@) + info.path@) + "\",\"authority\":\""@) + info.authority@) + "\",\"host\":\""@) + info.host@) + "\",\"agent\":\""@), info.agent@, "\",\"method\":\""@ + info.method@ + "\",\"path\":\""@);
        lemma_fragment_extend(((((((((((((("{\"ts\":\""@ + decimal(secs as nat)) + "."@) + zero_padded(nanos as nat, 9)) + "\",\"method\":\""@) + info.method@) + "\",\"path\":\""@) + info.path@) + "\",\"authority\":\""@) + info.authority@) + "\",\"host\":\""@) + info.host@) + "\",\"agent\":\""@) + info.agent@), "\",\"tool\":\""@, "\",\"method\":\""@ + info.method@ + "\",\"path\":\""@);
        lemma_fragment_extend((((((((((((((("{\"ts\":\""@ + decimal(secs as nat)) + "."@) + zero_padded(nanos as nat, 9)) + "\",\"method\":\""@) + info.method@) + "\",\"path\":\""@) + info.path@) + "\",\"authority\":\""@) + info.authority@) + "\",\"host\":\""@) + info.host@) + "\",\"agent\":\""@) + info.agent@) + "\",\"tool\":\""@), info.tool@, "\",\"method\":\""@ + info.method@ + "\",\"path\":\""@);
        lemma_fragment_extend(((((((((((((((("{\"ts\":\""@ + decimal(secs as nat)) + "."@) + zero_padded(nanos as nat, 9)) + "\",\"method\":\""@) + info.method@) + "\",\"path\":\""@) + info.path@) + "\",\"authority\":\""@) + info.authority@) + "\",\"host\":\""@) + info.host@) + "\",\"agent\":\""@) + info.agent@) + "\",\"tool\":\""@) + info.tool@), "\",\"resource\":\""@, "\",\"method\":\""@ + info.method@ + "\",\"path\":\""@);
        lemma_fragment_extend((((((((((((((((("{\"ts\":\""@ + decimal(secs as nat)) + "."@) + zero_padded(nanos as nat, 9)) + "\",\"method\":\""@) + info.method@) + "\",\"path\":\""@) + info.path@) + "\",\"authority\":\""@) + info.authority@) + "\",\"host\":\""@) + info.host@) + "\",\"agent\":\""@) + info.agent@) + "\",\"tool\":\""@) + info.tool@) + "\",\"resource\":\""@), info.resource@, "\",\"method\":\""@ + info.method@ + "\",\"path\":\""@);
        lemma_fragment_extend(((((((((((((((((("{\"ts\":\""@ + decimal(secs as nat)) + "."@) + zero_padded(nanos as nat, 9)) + "\",\"method\":\""@) + info.method@) + "\",\"path\":\""@) + info.path@) + "\",\"authority\":\""@) + info.authority@) + "\",\"host\":\""@) + info.host@) + "\",\"agent\":\""@) + info.agent@) + "\",\"tool\":\""@) + info.tool@) + "\",\"resource\":\""@) + info.resource@), "\",\"session\":\""@, "\",\"method\":\""@ + info.method@ + "\",\"path\":\""@);
        lemma_fragment_extend((((((((((((((((((("{\"ts\":\""@ + decimal(secs as nat)) + "."@) + zero_padded(nanos as nat, 9)) + "\",\"method\":\""@) + info.method@) + "\",\"path\":\""@) + info.path@) + "\",\"authority\":\""@) + info.authority@) + "\",\"host\":\""@) + info.host@) + "\",\"agent\":\""@) + info.agent@) + "\",\"tool\":\""@) + info.tool@) + "\",\"resource\":\""@) + info.resource@) + "\",\"session\":\""@), info.session@, "\",\"method\":\""@ + info.method@ + "\",\"path\":\""@);
        lemma_fragment_extend(((((((((((((((((((("{\"ts\":\""@ + decimal(secs as nat)) + "."@) + zero_padded(nanos as nat, 9)) + "\",\"method\":\""@) + info.method@) + "\",\"path\":\""@) + info.path@) + "\",\"authority\":\""@) + info.authority@) + "\",\"host\":\""@) + info.host@) + "\",\"agent\":\""@) + info.agent@) + "\",\"tool\":\""@) + info.tool@) + "\",\"resource\":\""@) + info.resource@) + "\",\"session\":\""@) + info.session@), "\",\"operation\":\""@, "\",\"method\":\""@ + info.method@ + "\",\"path\":\""@);
        lemma_fragment_extend((((((((((((((((((((("{\"ts\":\""@ + decimal(secs as nat)) + "."@) + zero_padded(nanos as nat, 9)) + "\",\"method\":\""@) + info.method@) + "\",\"path\":\""@) + info.path@) + "\",\"authority\":\""@) + info.authority@) + "\",\"host\":\""@) + info.host@) + "\",\"agent\":\""@) + info.agent@) + "\",\"tool\":\""@) + info.tool@) + "\",\"resource\":\""@) + info.resource@) + "\",\"session\":\""@) + info.session@) + "\",\"operation\":\""@), info.operation@, "\",\"method\":\""@ + info.method@ + "\",\"path\":\""@);
        lemma_fragment_extend(((((((((((((((((((((("{\"ts\":\""@ + decimal(secs as nat)) + "."@) + zero_padded(nanos as nat, 9)) + "\",\"method\":\""@) + info.method@) + "\",\"path\":\""@) + info.path@) + "\",\"authority\":\""@) + info.authority@) + "\",\"host\":\""@) + info.host@) + "\",\"agent\":\""@) + info.agent@) + "\",\"tool\":\""@) + info.tool@) + "\",\"resource\":\""@) + info.resource@) + "\",\"session\":\""@) + info.session@) + "\",\"operation\":\""@) + info.operation@), "\",\"content_type\":\""@, "\",\"method\":\""@ + info.method@ + "\",\"path\":\""@);
        lemma_fragment_extend((((((((((((((((((((((("{\"ts\":\""@ + decimal(secs as nat)) + "."@) + zero_padded(nanos as nat, 9)) + "\",\"method\":\""@) + info.method@) + "\",\"path\":\""@) + info.path@) + "\",\"authority\":\""@) + info.authority@) + "\",\"host\":\""@) + info.host@) + "\",\"agent\":\""@) + info.agent@) + "\",\"tool\":\""@) + info.tool@) + "\",\"resource\":\""@) + info.resource@) + "\",\"session\":\""@) + info.session@) + "\",\"operation\":\""@) + info.operation@) + "\",\"content_type\":\""@), info.content_type@, "\",\"method\":\""@ + info.method@ + "\",\"path\":\""@);
        lemma_fragment_extend(((((((((((((((((((((((("{\"ts\":\""@ + decimal(secs as nat)) + "."@) + zero_padded(nanos as nat, 9)) + "\",\"method\":\""@) + info.method@) + "\",\"path\":\""@) + info.path@) + "\",\"authority\":\""@) + info.authority@) + "\",\"host\":\""@) + info.host@) + "\",\"agent\":\""@) + info.agent@) + "\",\"tool\":\""@) + info.tool@) + "\",\"resource\":\""@) + info.resource@) + "\",\"session\":\""@) + info.session@) + "\",\"operation\":\""@) + info.operation@) + "\",\"content_type\":\""@) + info.content_type@), "\",\"user_agent\":\""@, "\",\"method\":\""@ + info.method@ + "\",\"path\":\""@);
        lemma_fragment_extend((((((((((((((((((((((((("{\"ts\":\""@ + decimal(secs as nat)) + "."@) + zero_padded(nanos as nat, 9)) + "\",\"method\":\""@) + info.method@) + "\",\"path\":\""@) + info.path@) + "\",\"authority\":\""@) + info.authority@) + "\",\"host\":\""@) + info.host@) + "\",\"agent\":\""@) + info.agent@) + "\",\"tool\":\""@) + info.tool@) + "\",\"resource\":\""@) + info.resource@) + "\",\"session\":\""@) + info.session@) + "\",\"operation\":\""@) + info.operation@) + "\",\"content_type\":\""@) + info.content_type@) + "\",\"user_agent\":\""@), info.user_agent@, "\",\"method\":\""@ + info.method@ + "\",\"path\":\""@);
        lemma_fragment_extend(((((((((((((((((((((((((("{\"ts\":\""@ + decimal(secs as nat)) + "."@) + zero_padded(nanos as nat, 9)) + "\",\"method\":\""@) + info.method@) + "\",\"path\":\""@) + info.path@) + "\",\"authority\":\""@) + info.authority@) + "\",\"host\":\""@) + info.host@) + "\",\"agent\":\""@) + info.agent@) + "\",\"tool\":\""@) + info.tool@) + "\",\"resource\":\""@) + info.resource@) + "\",\"session\":\""@) + info.session@) + "\",\"operation\":\""@) + info.operation@) + "\",\"content_type\":\""@) + info.content_type@) + "\",\"user_agent\":\""@) + info.user_agent@), "\",\"accept\":\""@, "\",\"method\":\""@ + info.method@ + "\",\"path\":\""@);
        lemma_fragment_extend((((((((((((((((((((((((((("{\"ts\":\""@ + decimal(secs as nat)) + "."@) + zero_padded(nanos as nat, 9)) + "\",\"method\":\""@) + info.method@) + "\",\"path\":\""@) + info.path@) + "\",\"authority\":\""@) + info.authority@) + "\",\"host\":\""@) + info.host@) + "\",\"agent\":\""@) + info.agent@) + "\",\"tool\":\""@) + info.tool@) + "\",\"resource\":\""@) + info.resource@) + "\",\"session\":\""@) + info.session@) + "\",\"operation\":\""@) + info.operation@) + "\",\"content_type\":\""@) + info.content_type@) + "\",\"user_agent\":\""@) + info.user_agent@) + "\",\"accept\":\""@), info.accept@, "\",\"method\":\""@ + info.method@ + "\",\"path\":\""@);
        lemma_fragment_extend(((((((((((((((((((((((((((("{\"ts\":\""@ + decimal(secs as nat)) + "."@) + zero_padded(nanos as nat, 9)) + "\",\"method\":\""@) + info.method@) + "\",\"path\":\""@) + info.path@) + "\",\"authority\":\""@) + info.authority@) + "\",\"host\":\""@) + info.host@) + "\",\"agent\":\""@) + info.agent@) + "\",\"tool\":\""@) + info.tool@) + "\",\"resource\":\""@) + info.resource@) + "\",\"session\":\""@) + info.session@) + "\",\"operation\":\""@) + info.operation@) + "\",\"content_type\":\""@) + info.content_type@) + "\",\"user_agent\":\""@) + info.user_agent@) + "\",\"accept\":\""@) + info.accept@), "\",\"processor\":\"geist-edge\",\"pipeline_pos\":0"@, "\",\"method\":\""@ + info.method@ + "\",\"path\":\""@);
    }
    assert(has_fragment(h, "\",\"path\":\""@ + info.path@ + "\",\"authority\":\""@)) by {
        lemma_fragment_at_end(((((("{\"ts\":\""@ + decimal(secs as nat)) + "."@) + zero_padded(nanos as nat, 9)) + "\",\"method\":\""@) + info.method@), "\",\"path\":\""@, info.path@, "\",\"authority\":\""@);
        lemma_fragment_extend((((((((("{\"ts\":\""@ + decimal(secs as nat)) + "."@) + zero_padded(nanos as nat, 9)) + "\",\"method\":\""@) + info.method@) + "\",\"path\":\""@) + info.path@) + "\",\"authority\":\""@), info.authority@, "\",\"path\":\""@ + info.path@ + "\",\"authority\":\""@);
        lemma_fragment_extend(((((((((("{\"ts\":\""@ + decimal(secs as nat)) + "."@) + zero_padded(nanos as nat, 9)) + "\",\"method\":\""@) + info.method@) + "\",\"path\":\""@) + info.path@) + "\",\"authority\":\""@) + info.authority@), "\",\"host\":\""@, "\",\"path\":\""@ + info.path@ + "\",\"authority\":\""@);
        lemma_fragment_extend((((((((((("{\"ts\":\""@ + decimal(secs as nat)) + "."@) + zero_padded(nanos as nat, 9)) + "\",\"method\":\""@) + info.method@) + "\",\"path\":\""@) + info.path@) + "\",\"authority\":\""@) + info.authority@) + "\",\"host\":\""@), info.host@, "\",\"path\":\""@ + info.path@ + "\",\"authority\":\""@);
        lemma_fragment_extend(((((((((((("{\"ts\":\""@ + decimal(secs as nat)) + "."@) + zero_padded(nanos as nat, 9)) + "\",\"method\":\""@) + info.method@) + "\",\"path\":\""@) + info.path@) + "\",\"authority\":\""@) + info.authority@) + "\",\"host\":\""@) + info.host@), "\",\"agent\":\""@, "\",\"path\":\""@ + info.path@ + "\",\"authority\":\""@);
        lemma_fragment_extend((((((((((((("{\"ts\":\""@ + decimal(secs as nat)) + "."@) + zero_padded(nanos as nat, 9)) + "\",\"method\":\""@) + info.method@) + "\",\"path\":\""@) + info.path@) + "\",\"authority\":\""@) + info.authority@) + "\",\"host\":\""@) + info.host@) + "\",\"agent\":\""@), info.agent@, "\",\"path\":\""@ + info.path@ + "\",\"authority\":\""@);
        lemma_fragment_extend(((((((((((((("{\"ts\":\""@ + decimal(secs as nat)) + "."@) + zero_padded(nanos as nat, 9)) + "\",\"method\":\""@) + info.method@) + "\",\"path\":\""@) + info.path@) + "\",\"authority\":\""@) + info.authority@) + "\",\"host\":\""@) + info.host@) + "\",\"agent\":\""@) + info.agent@), "\",\"tool\":\""@, "\",\"path\":\""@ + info.path@ + "\",\"authority\":\""@);
        lemma_fragment_extend((((((((((((((("{\"ts\":\""@ + decimal(secs as nat)) + "."@) + zero_padded(nanos as nat, 9)) + "\",\"method\":\""@) + info.method@) + "\",\"path\":\""@) + info.path@) + "\",\"authority\":\""@) + info.authority@) + "\",\"host\":\""@) + info.host@) + "\",\"agent\":\""@) + info.agent@) + "\",\"tool\":\""@), info.tool@, "\",\"path\":\""@ + info.path@ + "\",\"authority\":\""@);
        lemma_fragment_extend(((((((((((((((("{\"ts\":\""@ + decimal(secs as nat)) + "."@) + zero_padded(nanos as nat, 9)) + "\",\"method\":\""@) + info.method@) + "\",\"path\":\""@) + info.path@) + "\",\"authority\":\""@) + info.authority@) + "\",\"host\":\""@) + info.host@) + "\",\"agent\":\""@) + info.agent@) + "\",\"tool\":\""@) + info.tool@), "\",\"resource\":\""@, "\",\"path\":\""@ + info.path@ + "\",\"authority\":\""@);
        lemma_fragment_extend((((((((((((((((("{\"ts\":\""@ + decimal(secs as nat)) + "."@) + zero_padded(nanos as nat, 9)) + "\",\"method\":\""@) + info.method@) + "\",\"path\":\""@) + info.path@) + "\",\"authority\":\""@) + info.authority@) + "\",\"host\":\""@) + info.host@) + "\",\"agent\":\""@) + info.agent@) + "\",\"tool\":\""@) + info.tool@) + "\",\"resource\":\""@), info.resource@, "\",\"path\":\""@ + info.path@ + "\",\"authority\":\""@);
        lemma_fragment_extend(((((((((((((((((("{\"ts\":\""@ + decimal(secs as nat)) + "."@) + zero_padded(nanos as nat, 9)) + "\",\"method\":\""@) + info.method@) + "\",\"path\":\""@) + info.path@) + "\",\"authority\":\""@) + info.authority@) + "\",\"host\":\""@) + info.host@) + "\",\"agent\":\""@) + info.agent@) + "\",\"tool\":\""@) + info.tool@) + "\",\"resource\":\""@) + info.resource@), "\",\"session\":\""@, "\",\"path\":\""@ + info.path@ + "\",\"authority\":\""@);
        lemma_fragment_extend((((((((((((((((((("{\"ts\":\""@ + decimal(secs as nat)) + "."@) + zero_padded(nanos as nat, 9)) + "\",\"method\":\""@) + info.method@) + "\",\"path\":\""@) + info.path@) + "\",\"authority\":\""@) + info.authority@) + "\",\"host\":\""@) + info.host@) + "\",\"agent\":\""@) + info.agent@) + "\",\"tool\":\""@) + info.tool@) + "\",\"resource\":\""@) + info.resource@) + "\",\"session\":\""@), info.session@, "\",\"path\":\""@ + info.path@ + "\",\"authority\":\""@);
        lemma_fragment_extend(((((((((((((((((((("{\"ts\":\""@ + decimal(secs as nat)) + "."@) + zero_padded(nanos as nat, 9)) + "\",\"method\":\""@) + info.method@) + "\",\"path\":\""@) + info.path@) + "\",\"authority\":\""@) + info.authority@) + "\",\"host\":\""@) + info.host@) + "\",\"agent\":\""@) + info.agent@) + "\",\"tool\":\""@) + info.tool@) + "\",\"resource\":\""@) + info.resource@) + "\",\"session\":\""@) + info.session@), "\",\"operation\":\""@, "\",\"path\":\""@ + info.path@ + "\",\"authority\":\""@);
        lemma_fragment_extend((((((((((((((((((((("{\"ts\":\""@ + decimal(secs as nat)) + "."@) + zero_padded(nanos as nat, 9)) + "\",\"method\":\""@) + info.method@) + "\",\"path\":\""@) + info.path@) + "\",\"authority\":\""@) + info.authority@) + "\",\"host\":\""@) + info.host@) + "\",\"agent\":\""@) + info.agent@) + "\",\"tool\":\""@) + info.tool@) + "\",\"resource\":\""@) + info.resource@) + "\",\"session\":\""@) + info.session@) + "\",\"operation\":\""@), info.operation@, "\",\"path\":\""@ + info.path@ + "\",\"authority\":\""@);
        lemma_fragment_extend(((((((((((((((((((((("{\"ts\":\""@ + decimal(secs as nat)) + "."@) + zero_padded(nanos as nat, 9)) + "\",\"method\":\""@) + info.method@) + "\",\"path\":\""@) + info.path@) + "\",\"authority\":\""@) + info.authority@) + "\",\"host\":\""@) + info.host@) + "\",\"agent\":\""@) + info.agent@) + "\",\"tool\":\""@) + info.tool@) + "\",\"resource\":\""@) + info.resource@) + "\",\"session\":\""@) + info.session@) + "\",\"operation\":\""@) + info.operation@), "\",\"content_type\":\""@, "\",\"path\":\""@ + info.path@ + "\",\"authority\":\""@);
        lemma_fragment_extend((((((((((((((((((((((("{\"ts\":\""@ + decimal(secs as nat)) + "."@) + zero_padded(nanos as nat, 9)) + "\",\"method\":\""@) + info.method@) + "\",\"path\":\""@) + info.path@) + "\",\"authority\":\""@) + info.authority@) + "\",\"host\":\""@) + info.host@) + "\",\"agent\":\""@) + info.agent@) + "\",\"tool\":\""@) + info.tool@) + "\",\"resource\":\""@) + info.resource@) + "\",\"session\":\""@) + info.session@) + "\",\"operation\":\""@) + info.operation@) + "\",\"content_type\":\""@), info.content_type@, "\",\"path\":\""@ + info.path@ + "\",\"authority\":\""@);
        lemma_fragment_extend(((((((((((((((((((((((("{\"ts\":\""@ + decimal(secs as nat)) + "."@) + zero_padded(nanos as nat, 9)) + "\",\"method\":\""@) + info.method@) + "\",\"path\":\""@) + info.path@) + "\",\"authority\":\""@) + info.authority@) + "\",\"host\":\""@) + info.host@) + "\",\"agent\":\""@) + info.agent@) + "\",\"tool\":\""@) + info.tool@) + "\",\"resource\":\""@) + info.resource@) + "\",\"session\":\""@) + info.session@) + "\",\"operation\":\""@) + info.operation@) + "\",\"content_type\":\""@) + info.content_type@), "\",\"user_agent\":\""@, "\",\"path\":\""@ + info.path@ + "\",\"authority\":\""@);
        lemma_fragment_extend((((((((((((((((((((((((("{\"ts\":\""@ + decimal(secs as nat)) + "."@) + zero_padded(nanos as nat, 9)) + "\",\"method\":\""@) + info.method@) + "\",\"path\":\""@) + info.path@) + "\",\"authority\":\""@) + info.authority@) + "\",\"host\":\""@) + info.host@) + "\",\"agent\":\""@) + info.agent@) + "\",\"tool\":\""@) + info.tool@) + "\",\"resource\":\""@) + info.resource@) + "\",\"session\":\""@) + info.session@) + "\",\"operation\":\""@) + info.operation@) + "\",\"content_type\":\""@) + info.content_type@) + "\",\"user_agent\":\""@), info.user_agent@, "\",\"path\":\""@ + info.path@ + "\",\"authority\":\""@);
        lemma_fragment_extend(((((((((((((((((((((((((("{\"ts\":\""@ + decimal(secs as nat)) + "."@) + zero_padded(nanos as nat, 9)) + "\",\"method\":\""@) + info.method@) + "\",\"path\":\""@) + info.path@) + "\",\"authority\":\""@) + info.authority@) + "\",\"host\":\""@) + info.host@) + "\",\"agent\":\""@) + info.agent@) + "\",\"tool\":\""@) + info.tool@) + "\",\"resource\":\""@) + info.resource@) + "\",\"session\":\""@) + info.session@) + "\",\"operation\":\""@) + info.operation@) + "\",\"content_type\":\""@) + info.content_type@) + "\",\"user_agent\":\""@) + info.user_agent@), "\",\"accept\":\""@, "\",\"path\":\""@ + info.path@ + "\",\"authority\":\""@);
        lemma_fragment_extend((((((((((((((((((((((((((("{\"ts\":\""@ + decimal(secs as nat)) + "."@) + zero_padded(nanos as nat, 9)) + "\",\"method\":\""@) + info.method@) + "\",\"path\":\""@) + info.path@) + "\",\"authority\":\""@) + info.authority@) + "\",\"host\":\""@) + info.host@) + "\",\"agent\":\""@) + info.agent@) + "\",\"tool\":\""@) + info.tool@) + "\",\"resource\":\""@) + info.resource@) + "\",\"session\":\""@) + info.session@) + "\",\"operation\":\""@) + info.operation@) + "\",\"content_type\":\""@) + info.content_type@) + "\",\"user_agent\":\""@) + info.user_agent@) + "\",\"accept\":\""@), info.accept@, "\",\"path\":\""@ + info.path@ + "\",\"authority\":\""@);
        lemma_fragment_extend(((((((((((((((((((((((((((("{\"ts\":\""@ + decimal(secs as nat)) + "."@) + zero_padded(nanos as nat, 9)) + "\",\"method\":\""@) + info.method@) + "\",\"path\":\""@) + info.path@) + "\",\"authority\":\""@) + info.authority@) + "\",\"host\":\""@) + info.host@) + "\",\"agent\":\""@) + info.agent@) + "\",\"tool\":\""@) + info.tool@) + "\",\"resource\":\""@) + info.resource@) + "\",\"session\":\""@) + info.session@) + "\",\"operation\":\""@) + info.operation@) + "\",\"content_type\":\""@) + info.content_type@) + "\",\"user_agent\":\""@) + info.user_agent@) + "\",\"accept\":\""@) + info.accept@), "\",\"processor\":\"geist-edge\",\"pipeline_pos\":0"@, "\",\"path\":\""@ + info.path@ + "\",\"authority\":\""@);
    }
    assert(has_fragment(h, "\",\"authority\":\""@ + info.authority@ + "\",\"host\":\""@)) by {
        lemma_fragment_at_end(((((((("{\"ts\":\""@ + decimal(secs as nat)) + "."@) + zero_padded(nanos as nat, 9)) + "\",\"method\":\""@) + info.method@) + "\",\"path\":\""@) + info.path@), "\",\"authority\":\""@, info.authority@, "\",\"host\":\""@);
        lemma_fragment_extend((((((((((("{\"ts\":\""@ + decimal(secs as nat)) + "."@) + zero_padded(nanos as nat, 9)) + "\",\"method\":\""@) + info.method@) + "\",\"path\":\""@) + info.path@) + "\",\"authority\":\""@) + info.authority@) + "\",\"host\":\""@), info.host@, "\",\"authority\":\""@ + info.authority@ + "\",\"host\":\""@);
        lemma_fragment_extend(((((((((((("{\"ts\":\""@ + decimal(secs as nat)) + "."@) + zero_padded(nanos as nat, 9)) + "\",\"method\":\""@) + info.method@) + "\",\"path\":\""@) + info.path@) + "\",\"authority\":\""@) + info.authority@) + "\",\"host\":\""@) + info.host@), "\",\"agent\":\""@, "\",\"authority\":\""@ + info.authority@ + "\",\"host\":\""@);
        lemma_fragment_extend((((((((((((("{\"ts\":\""@ + decimal(secs as nat)) + "."@) + zero_padded(nanos as nat, 9)) + "\",\"method\":\""@) + info.method@) + "\",\"path\":\""@) + info.path@) + "\",\"authority\":\""@) + info.authority@) + "\",\"host\":\""@) + info.host@) + "\",\"agent\":\""@), info.agent@, "\",\"authority\":\""@ + info.authority@ + "\",\"host\":\""@);
        lemma_fragment_extend(((((((((((((("{\"ts\":\""@ + decimal(secs as nat)) + "."@) + zero_padded(nanos as nat, 9)) + "\",\"method\":\""@) + info.method@) + "\",\"path\":\""@) + info.path@) + "\",\"authority\":\""@) + info.authority@) + "\",\"host\":\""@) + info.host@) + "\",\"agent\":\""@) + info.agent@), "\",\"tool\":\""@, "\",\"authority\":\""@ + info.authority@ + "\",\"host\":\""@);
        lemma_fragment_extend((((((((((((((("{\"ts\":\""@ + decimal(secs as nat)) + "."@) + zero_padded(nanos as nat, 9)) + "\",\"method\":\""@) + info.method@) + "\",\"path\":\""@) + info.path@) + "\",\"authority\":\""@) + info.authority@) + "\",\"host\":\""@) + info.host@) + "\",\"agent\":\""@) + info.agent@) + "\",\"tool\":\""@), info.tool@, "\",\"authority\":\""@ + info.authority@ + "\",\"host\":\""@);
        lemma_fragment_extend(((((((((((((((("{\"ts\":\""@ + decimal(secs as nat)) + "."@) + zero_padded(nanos as nat, 9)) + "\",\"method\":\""@) + info.method@) + "\",\"path\":\""@) + info.path@) + "\",\"authority\":\""@) + info.authority@) + "\",\"host\":\""@) + info.host@) + "\",\"agent\":\""@) + info.agent@) + "\",\"tool\":\""@) + info.tool@), "\",\"resource\":\""@, "\",\"authority\":\""@ + info.authority@ + "\",\"host\":\""@);
        lemma_fragment_extend((((((((((((((((("{\"ts\":\""@ + decimal(secs as nat)) + "."@) + zero_padded(nanos as nat, 9)) + "\",\"method\":\""@) + info.method@) + "\",\"path\":\""@) + info.path@) + "\",\"authority\":\""@) + info.authority@) + "\",\"host\":\""@) + info.host@) + "\",\"agent\":\""@) + info.agent@) + "\",\"tool\":\""@) + info.tool@) + "\",\"resource\":\""@), info.resource@, "\",\"authority\":\""@ + info.authority@ + "\",\"host\":\""@);
        lemma_fragment_extend(((((((((((((((((("{\"ts\":\""@ + decimal(secs as nat)) + "."@) + zero_padded(nanos as nat, 9)) + "\",\"method\":\""@) + info.method@) + "\",\"path\":\""@) + info.path@) + "\",\"authority\":\""@) + info.authority@) + "\",\"host\":\""@) + info.host@) + "\",\"agent\":\""@) + info.agent@) + "\",\"tool\":\""@) + info.tool@) + "\",\"resource\":\""@) + info.resource@), "\",\"session\":\""@, "\",\"authority\":\""@ + info.authority@ + "\",\"host\":\""@);
        lemma_fragment_extend((((((((((((((((((("{\"ts\":\""@ + decimal(secs as nat)) + "."@) + zero_padded(nanos as nat, 9)) + "\",\"method\":\""@) + info.method@) + "\",\"path\":\""@) + info.path@) + "\",\"authority\":\""@) + info.authority@) + "\",\"host\":\""@) + info.host@) + "\",\"agent\":\""@) + info.agent@) + "\",\"tool\":\""@) + info.tool@) + "\",\"resource\":\""@) + info.resource@) + "\",\"session\":\""@), info.session@, "\",\"authority\":\""@ + info.authority@ + "\",\"host\":\""@);
        lemma_fragment_extend(((((((((((((((((((("{\"ts\":\""@ + decimal(secs as nat)) + "."@) + zero_padded(nanos as nat, 9)) + "\",\"method\":\""@) + info.method@) + "\",\"path\":\""@) + info.path@) + "\",\"authority\":\""@) + info.authority@) + "\",\"host\":\""@) + info.host@) + "\",\"agent\":\""@) + info.agent@) + "\",\"tool\":\""@) + info.tool@) + "\",\"resource\":\""@) + info.resource@) + "\",\"session\":\""@) + info.session@), "\",\"operation\":\""@, "\",\"authority\":\""@ + info.authority@ + "\",\"host\":\""@);
        lemma_fragment_extend((((((((((((((((((((("{\"ts\":\""@ + decimal(secs as nat)) + "."@) + zero_padded(nanos as nat, 9)) + "\",\"method\":\""@) + info.method@) + "\",\"path\":\""@) + info.path@) + "\",\"authority\":\""@) + info.authority@) + "\",\"host\":\""@) + info.host@) + "\",\"agent\":\""@) + info.agent@) + "\",\"tool\":\""@) + info.tool@) + "\",\"resource\":\""@) + info.resource@) + "\",\"session\":\""@) + info.session@) + "\",\"operation\":\""@), info.operation@, "\",\"authority\":\""@ + info.authority@ + "\",\"host\":\""@);
        lemma_fragment_extend(((((((((((((((((((((("{\"ts\":\""@ + decimal(secs as nat)) + "."@) + zero_padded(nanos as nat, 9)) + "\",\"method\":\""@) + info.method@) + "\",\"path\":\""@) + info.path@) + "\",\"authority\":\""@) + info.authority@) + "\",\"host\":\""@) + info.host@) + "\",\"agent\":\""@) + info.agent@) + "\",\"tool\":\""@) + info.tool@) + "\",\"resource\":\""@) + info.resource@) + "\",\"session\":\""@) + info.session@) + "\",\"operation\":\""@) + info.operation@), "\",\"content_type\":\""@, "\",\"authority\":\""@ + info.authority@ + "\",\"host\":\""@);
        lemma_fragment_extend((((((((((((((((((((((("{\"ts\":\""@ + decimal(secs as nat)) + "."@) + zero_padded(nanos as nat, 9)) + "\",\"method\":\""@) + info.method@) + "\",\"path\":\""@) + info.path@) + "\",\"authority\":\""@) + info.authority@) + "\",\"host\":\""@) + info.host@) + "\",\"agent\":\""@) + info.agent@) + "\",\"tool\":\""@) + info.tool@) + "\",\"resource\":\""@) + info.resource@) + "\",\"session\":\""@) + info.session@) + "\",\"operation\":\""@) + info.operation@) + "\",\"content_type\":\""@), info.content_type@, "\",\"authority\":\""@ + info.authority@ + "\",\"host\":\""@);
        lemma_fragment_extend(((((((((((((((((((((((("{\"ts\":\""@ + decimal(secs as nat)) + "."@) + zero_padded(nanos as nat, 9)) + "\",\"method\":\""@) + info.method@) + "\",\"path\":\""@) + info.path@) + "\",\"authority\":\""@) + info.authority@) + "\",\"host\":\""@) + info.host@) + "\",\"agent\":\""@) + info.agent@) + "\",\"tool\":\""@) + info.tool@) + "\",\"resource\":\""@) + info.resource@) + "\",\"session\":\""@) + info.session@) + "\",\"operation\":\""@) + info.operation@) + "\",\"content_type\":\""@) + info.content_type@), "\",\"user_agent\":\""@, "\",\"authority\":\""@ + info.authority@ + "\",\"host\":\""@);
        lemma_fragment_extend((((((((((((((((((((((((("{\"ts\":\""@ + decimal(secs as nat)) + "."@) + zero_padded(nanos as nat, 9)) + "\",\"method\":\""@) + info.method@) + "\",\"path\":\""@) + info.path@) + "\",\"authority\":\""@) + info.authority@) + "\",\"host\":\""@) + info.host@) + "\",\"agent\":\""@) + info.agent@) + "\",\"tool\":\""@) + info.tool@) + "\",\"resource\":\""@) + info.resource@) + "\",\"session\":\""@) + info.session@) + "\",\"operation\":\""@) + info.operation@) + "\",\"content_type\":\""@) + info.content_type@) + "\",\"user_agent\":\""@), info.user_agent@, "\",\"authority\":\""@ + info.authority@ + "\",\"host\":\""@);
        lemma_fragment_extend(((((((((((((((((((((((((("{\"ts\":\""@ + decimal(secs as nat)) + "."@) + zero_padded(nanos as nat, 9)) + "\",\"method\":\""@) + info.method@) + "\",\"path\":\""@) + info.path@) + "\",\"authority\":\""@) + info.authority@) + "\",\"host\":\""@) + info.host@) + "\",\"agent\":\""@) + info.agent@) + "\",\"tool\":\""@) + info.tool@) + "\",\"resource\":\""@) + info.resource@) + "\",\"session\":\""@) + info.session@) + "\",\"operation\":\""@) + info.operation@) + "\",\"content_type\":\""@) + info.content_type@) + "\",\"user_agent\":\""@) + info.user_agent@), "\",\"accept\":\""@, "\",\"authority\":\""@ + info.authority@ + "\",\"host\":\""@);
        lemma_fragment_extend((((((((((((((((((((((((((("{\"ts\":\""@ + decimal(secs as nat)) + "."@) + zero_padded(nanos as nat, 9)) + "\",\"method\":\""@) + info.method@) + "\",\"path\":\""@) + info.path@) + "\",\"authority\":\""@) + info.authority@) + "\",\"host\":\""@) + info.host@) + "\",\"agent\":\""@) + info.agent@) + "\",\"tool\":\""@) + info.tool@) + "\",\"resource\":\""@) + info.resource@) + "\",\"session\":\""@) + info.session@) + "\",\"operation\":\""@) + info.operation@) + "\",\"content_type\":\""@) + info.content_type@) + "\",\"user_agent\":\""@) + info.user_agent@) + "\",\"accept\":\""@), info.accept@, "\",\"authority\":\""@ + info.authority@ + "\",\"host\":\""@);
        lemma_fragment_extend(((((((((((((((((((((((((((("{\"ts\":\""@ + decimal(secs as nat)) + "."@) + zero_padded(nanos as nat, 9)) + "\",\"method\":\""@) + info.method@) + "\",\"path\":\""@) + info.path@) + "\",\"authority\":\""@) + info.authority@) + "\",\"host\":\""@) + info.host@) + "\",\"agent\":\""@) + info.agent@) + "\",\"tool\":\""@) + info.tool@) + "\",\"resource\":\""@) + info.resource@) + "\",\"session\":\""@) + info.session@) + "\",\"operation\":\""@) + info.operation@) + "\",\"content_type\":\""@) + info.content_type@) + "\",\"user_agent\":\""@) + info.user_agent@) + "\",\"accept\":\""@) + info.accept@), "\",\"processor\":\"geist-edge\",\"pipeline_pos\":0"@, "\",\"authority\":\""@ + info.authority@ + "\",\"host\":\""@);
    }
    assert(has_fragment(h, "\",\"host\":\""@ + info.host@ + "\",\"agent\":\""@)) by {
        lemma_fragment_at_end(((((((((("{\"ts\":\""@ + decimal(secs as nat)) + "."@) + zero_padded(nanos as nat, 9)) + "\",\"method\":\""@) + info.method@) + "\",\"path\":\""@) + info.path@) + "\",\"authority\":\""@) + info.authority@), "\",\"host\":\""@, info.host@, "\",\"agent\":\""@);
        lemma_fragment_extend((((((((((((("{\"ts\":\""@ + decimal(secs as nat)) + "."@) + zero_padded(nanos as nat, 9)) + "\",\"method\":\""@) + info.method@) + "\",\"path\":\""@) + info.path@) + "\",\"authority\":\""@) + info.authority@) + "\",\"host\":\""@) + info.host@) + "\",\"agent\":\""@), info.agent@, "\",\"host\":\""@ + info.host@ + "\",\"agent\":\""@);
        lemma_fragment_extend(((((((((((((("{\"ts\":\""@ + decimal(secs as nat)) + "."@) + zero_padded(nanos as nat, 9)) + "\",\"method\":\""@) + info.method@) + "\",\"path\":\""@) + info.path@) + "\",\"authority\":\""@) + info.authority@) + "\",\"host\":\""@) + info.host@) + "\",\"agent\":\""@) + info.agent@), "\",\"tool\":\""@, "\",\"host\":\""@ + info.host@ + "\",\"agent\":\""@);
        lemma_fragment_extend((((((((((((((("{\"ts\":\""@ + decimal(secs as nat)) + "."@) + zero_padded(nanos as nat, 9)) + "\",\"method\":\""@) + info.method@) + "\",\"path\":\""@) + info.path@) + "\",\"authority\":\""@) + info.authority@) + "\",\"host\":\""@) + info.host@) + "\",\"agent\":\""@) + info.agent@) + "\",\"tool\":\""@), info.tool@, "\",\"host\":\""@ + info.host@ + "\",\"agent\":\""@);
        lemma_fragment_extend(((((((((((((((("{\"ts\":\""@ + decimal(secs as nat)) + "."@) + zero_padded(nanos as nat, 9)) + "\",\"method\":\""@) + info.method@) + "\",\"path\":\""@) + info.path@) + "\",\"authority\":\""@) + info.authority@) + "\",\"host\":\""@) + info.host@) + "\",\"agent\":\""@) + info.agent@) + "\",\"tool\":\""@) + info.tool@), "\",\"resource\":\""@, "\",\"host\":\""@ + info.host@ + "\",\"agent\":\""@);
        lemma_fragment_extend((((((((((((((((("{\"ts\":\""@ + decimal(secs as nat)) + "."@) + zero_padded(nanos as nat, 9)) + "\",\"method\":\""@) + info.method@) + "\",\"path\":\""@) + info.path@) + "\",\"authority\":\""@) + info.authority@) + "\",\"host\":\""@) + info.host@) + "\",\"agent\":\""@) + info.agent@) + "\",\"tool\":\""@) + info.tool@) + "\",\"resource\":\""@), info.resource@, "\",\"host\":\""@ + info.host@ + "\",\"agent\":\""@);
        lemma_fragment_extend(((((((((((((((((("{\"ts\":\""@ + decimal(secs as nat)) + "."@) + zero_padded(nanos as nat, 9)) + "\",\"method\":\""@) + info.method@) + "\",\"path\":\""@) + info.path@) + "\",\"authority\":\""@) + info.authority@) + "\",\"host\":\""@) + info.host@) + "\",\"agent\":\""@) + info.agent@) + "\",\"tool\":\""@) + info.tool@) + "\",\"resource\":\""@) + info.resource@), "\",\"session\":\""@, "\",\"host\":\""@ + info.host@ + "\",\"agent\":\""@);
        lemma_fragment_extend((((((((((((((((((("{\"ts\":\""@ + decimal(secs as nat)) + "."@) + zero_padded(nanos as nat, 9)) + "\",\"method\":\""@) + info.method@) + "\",\"path\":\""@) + info.path@) + "\",\"authority\":\""@) + info.authority@) + "\",\"host\":\""@) + info.host@) + "\",\"agent\":\""@) + info.agent@) + "\",\"tool\":\""@) + info.tool@) + "\",\"resource\":\""@) + info.resource@) + "\",\"session\":\""@), info.session@, "\",\"host\":\""@ + info.host@ + "\",\"agent\":\""@);
        lemma_fragment_extend(((((((((((((((((((("{\"ts\":\""@ + decimal(secs as nat)) + "."@) + zero_padded(nanos as nat, 9)) + "\",\"method\":\""@) + info.method@) + "\",\"path\":\""@) + info.path@) + "\",\"authority\":\""@) + info.authority@) + "\",\"host\":\""@) + info.host@) + "\",\"agent\":\""@) + info.agent@) + "\",\"tool\":\""@) + info.tool@) + "\",\"resource\":\""@) + info.resource@) + "\",\"session\":\""@) + info.session@), "\",\"operation\":\""@, "\",\"host\":\""@ + info.host@ + "\",\"agent\":\""@);
        lemma_fragment_extend((((((((((((((((((((("{\"ts\":\""@ + decimal(secs as nat)) + "."@) + zero_padded(nanos as nat, 9)) + "\",\"method\":\""@) + info.method@) + "\",\"path\":\""@) + info.path@) + "\",\"authority\":\""@) + info.authority@) + "\",\"host\":\""@) + info.host@) + "\",\"agent\":\""@) + info.agent@) + "\",\"tool\":\""@) + info.tool@) + "\",\"resource\":\""@) + info.resource@) + "\",\"session\":\""@) + info.session@) + "\",\"operation\":\""@), info.operation@, "\",\"host\":\""@ + info.host@ + "\",\"agent\":\""@);
        lemma_fragment_extend(((((((((((((((((((((("{\"ts\":\""@ + decimal(secs as nat)) + "."@) + zero_padded(nanos as nat, 9)) + "\",\"method\":\""@) + info.method@) + "\",\"path\":\""@) + info.path@) + "\",\"authority\":\""@) + info.authority@) + "\",\"host\":\""@) + info.host@) + "\",\"agent\":\""@) + info.agent@) + "\",\"tool\":\""@) + info.tool@) + "\",\"resource\":\""@) + info.resource@) + "\",\"session\":\""@) + info.session@) + "\",\"operation\":\""@) + info.operation@), "\",\"content_type\":\""@, "\",\"host\":\""@ + info.host@ + "\",\"agent\":\""@);
        lemma_fragment_extend((((((((((((((((((((((("{\"ts\":\""@ + decimal(secs as nat)) + "."@) + zero_padded(nanos as nat, 9)) + "\",\"method\":\""@) + info.method@) + "\",\"path\":\""@) + info.path@) + "\",\"authority\":\""@) + info.authority@) + "\",\"host\":\""@) + info.host@) + "\",\"agent\":\""@) + info.agent@) + "\",\"tool\":\""@) + info.tool@) + "\",\"resource\":\""@) + info.resource@) + "\",\"session\":\""@) + info.session@) + "\",\"operation\":\""@) + info.operation@) + "\",\"content_type\":\""@), info.content_type@, "\",\"host\":\""@ + info.host@ + "\",\"agent\":\""@);
        lemma_fragment_extend(((((((((((((((((((((((("{\"ts\":\""@ + decimal(secs as nat)) + "."@) + zero_padded(nanos as nat, 9)) + "\",\"method\":\""@) + info.method@) + "\",\"path\":\""@) + info.path@) + "\",\"authority\":\""@) + info.authority@) + "\",\"host\":\""@) + info.host@) + "\",\"agent\":\""@) + info.agent@) + "\",\"tool\":\""@) + info.tool@) + "\",\"resource\":\""@) + info.resource@) + "\",\"session\":\""@) + info.session@) + "\",\"operation\":\""@) + info.operation@) + "\",\"content_type\":\""@) + info.content_type@), "\",\"user_agent\":\""@, "\",\"host\":\""@ + info.host@ + "\",\"agent\":\""@);
        lemma_fragment_extend((((((((((((((((((((((((("{\"ts\":\""@ + decimal(secs as nat)) + "."@) + zero_padded(nanos as nat, 9)) + "\",\"method\":\""@) + info.method@) + "\",\"path\":\""@) + info.path@) + "\",\"authority\":\""@) + info.authority@) + "\",\"host\":\""@) + info.host@) + "\",\"agent\":\""@) + info.agent@) + "\",\"tool\":\""@) + info.tool@) + "\",\"resource\":\""@) + info.resource@) + "\",\"session\":\""@) + info.session@) + "\",\"operation\":\""@) + info.operation@) + "\",\"content_type\":\""@) + info.content_type@) + "\",\"user_agent\":\""@), info.user_agent@, "\",\"host\":\""@ + info.host@ + "\",\"agent\":\""@);
        lemma_fragment_extend(((((((((((((((((((((((((("{\"ts\":\""@ + decimal(secs as nat)) + "."@) + zero_padded(nanos as nat, 9)) + "\",\"method\":\""@) + info.method@) + "\",\"path\":\""@) + info.path@) + "\",\"authority\":\""@) + info.authority@) + "\",\"host\":\""@) + info.host@) + "\",\"agent\":\""@) + info.agent@) + "\",\"tool\":\""@) + info.tool@) + "\",\"resource\":\""@) + info.resource@) + "\",\"session\":\""@) + info.session@) + "\",\"operation\":\""@) + info.operation@) + "\",\"content_type\":\""@) + info.content_type@) + "\",\"user_agent\":\""@) + info.user_agent@), "\",\"accept\":\""@, "\",\"host\":\""@ + info.host@ + "\",\"agent\":\""@);
        lemma_fragment_extend((((((((((((((((((((((((((("{\"ts\":\""@ + decimal(secs as nat)) + "."@) + zero_padded(nanos as nat, 9)) + "\",\"method\":\""@) + info.method@) + "\",\"path\":\""@) + info.path@) + "\",\"authority\":\""@) + info.authority@) + "\",\"host\":\""@) + info.host@) + "\",\"agent\":\""@) + info.agent@) + "\",\"tool\":\""@) + info.tool@) + "\",\"resource\":\""@) + info.resource@) + "\",\"session\":\""@) + info.session@) + "\",\"operation\":\""@) + info.operation@) + "\",\"content_type\":\""@) + info.content_type@) + "\",\"user_agent\":\""@) + info.user_agent@) + "\",\"accept\":\""@), info.accept@, "\",\"host\":\""@ + info.host@ + "\",\"agent\":\""@);
        lemma_fragment_extend(((((((((((((((((((((((((((("{\"ts\":\""@ + decimal(secs as nat)) + "."@) + zero_padded(nanos as nat, 9)) + "\",\"method\":\""@) + info.method@) + "\",\"path\":\""@) + info.path@) + "\",\"authority\":\""@) + info.authority@) + "\",\"host\":\""@) + info.host@) + "\",\"agent\":\""@) + info.agent@) + "\",\"tool\":\""@) + info.tool@) + "\",\"resource\":\""@) + info.resource@) + "\",\"session\":\""@) + info.session@) + "\",\"operation\":\""@) + info.operation@) + "\",\"content_type\":\""@) + info.content_type@) + "\",\"user_agent\":\""@) + info.user_agent@) + "\",\"accept\":\""@) + info.accept@), "\",\"processor\":\"geist-edge\",\"pipeline_pos\":0"@, "\",\"host\":\""@ + info.host@ + "\",\"agent\":\""@);
    }
    assert(has_fragment(h, "\",\"agent\":\""@ + info.agent@ + "\",\"tool\":\""@)) by {
        lemma_fragment_at_end(((((((((((("{\"ts\":\""@ + decimal(secs as nat)) + "."@) + zero_padded(nanos as nat, 9)) + "\",\"method\":\""@) + info.method@) + "\",\"path\":\""@) + info.path@) + "\",\"authority\":\""@) + info.authority@) + "\",\"host\":\""@) + info.host@), "\",\"agent\":\""@, info.agent@, "\",\"tool\":\""@);
        lemma_fragment_extend((((((((((((((("{\"ts\":\""@ + decimal(secs as nat)) + "."@) + zero_padded(nanos as nat, 9)) + "\",\"method\":\""@) + info.method@) + "\",\"path\":\""@) + info.path@) + "\",\"authority\":\""@) + info.authority@) + "\",\"host\":\""@) + info.host@) + "\",\"agent\":\""@) + info.agent@) + "\",\"tool\":\""@), info.tool@, "\",\"agent\":\""@ + info.agent@ + "\",\"tool\":\""@);
        lemma_fragment_extend(((((((((((((((("{\"ts\":\""@ + decimal(secs as nat)) + "."@) + zero_padded(nanos as nat, 9)) + "\",\"method\":\""@) + info.method@) + "\",\"path\":\""@) + info.path@) + "\",\"authority\":\""@) + info.authority@) + "\",\"host\":\""@) + info.host@) + "\",\"agent\":\""@) + info.agent@) + "\",\"tool\":\""@) + info.tool@), "\",\"resource\":\""@, "\",\"agent\":\""@ + info.agent@ + "\",\"tool\":\""@);
        lemma_fragment_extend((((((((((((((((("{\"ts\":\""@ + decimal(secs as nat)) + "."@) + zero_padded(nanos as nat, 9)) + "\",\"method\":\""@) + info.method@) + "\",\"path\":\""@) + info.path@) + "\",\"authority\":\""@) + info.authority@) + "\",\"host\":\""@) + info.host@) + "\",\"agent\":\""@) + info.agent@) + "\",\"tool\":\""@) + info.tool@) + "\",\"resource\":\""@), info.resource@, "\",\"agent\":\""@ + info.agent@ + "\",\"tool\":\""@);
        lemma_fragment_extend(((((((((((((((((("{\"ts\":\""@ + decimal(secs as nat)) + "."@) + zero_padded(nanos as nat, 9)) + "\",\"method\":\""@) + info.method@) + "\",\"path\":\""@) + info.path@) + "\",\"authority\":\""@) + info.authority@) + "\",\"host\":\""@) + info.host@) + "\",\"agent\":\""@) + info.agent@) + "\",\"tool\":\""@) + info.tool@) + "\",\"resource\":\""@) + info.resource@), "\",\"session\":\""@, "\",\"agent\":\""@ + info.agent@ + "\",\"tool\":\""@);
        lemma_fragment_extend((((((((((((((((((("{\"ts\":\""@ + decimal(secs as nat)) + "."@) + zero_padded(nanos as nat, 9)) + "\",\"method\":\""@) + info.method@) + "\",\"path\":\""@) + info.path@) + "\",\"authority\":\""@) + info.authority@) + "\",\"host\":\""@) + info.host@) + "\",\"agent\":\""@) + info.agent@) + "\",\"tool\":\""@) + info.tool@) + "\",\"resource\":\""@) + info.resource@) + "\",\"session\":\""@), info.session@, "\",\"agent\":\""@ + info.agent@ + "\",\"tool\":\""@);
        lemma_fragment_extend(((((((((((((((((((("{\"ts\":\""@ + decimal(secs as nat)) + "."@) + zero_padded(nanos as nat, 9)) + "\",\"method\":\""@) + info.method@) + "\",\"path\":\""@) + info.path@) + "\",\"authority\":\""@) + info.authority@) + "\",\"host\":\""@) + info.host@) + "\",\"agent\":\""@) + info.agent@) + "\",\"tool\":\""@) + info.tool@) + "\",\"resource\":\""@) + info.resource@) + "\",\"session\":\""@) + info.session@), "\",\"operation\":\""@, "\",\"agent\":\""@ + info.agent@ + "\",\"tool\":\""@);
        lemma_fragment_extend((((((((((((((((((((("{\"ts\":\""@ + decimal(secs as nat)) + "."@) + zero_padded(nanos as nat, 9)) + "\",\"method\":\""@) + info.method@) + "\",\"path\":\""@) + info.path@) + "\",\"authority\":\""@) + info.authority@) + "\",\"host\":\""@) + info.host@) + "\",\"agent\":\""@) + info.agent@) + "\",\"tool\":\""@) + info.tool@) + "\",\"resource\":\""@) + info.resource@) + "\",\"session\":\""@) + info.session@) + "\",\"operation\":\""@), info.operation@, "\",\"agent\":\""@ + info.agent@ + "\",\"tool\":\""@);
        lemma_fragment_extend(((((((((((((((((((((("{\"ts\":\""@ + decimal(secs as nat)) + "."@) + zero_padded(nanos as nat, 9)) + "\",\"method\":\""@) + info.method@) + "\",\"path\":\""@) + info.path@) + "\",\"authority\":\""@) + info.authority@) + "\",\"host\":\""@) + info.host@) + "\",\"agent\":\""@) + info.agent@) + "\",\"tool\":\""@) + info.tool@) + "\",\"resource\":\""@) + info.resource@) + "\",\"session\":\""@) + info.session@) + "\",\"operation\":\""@) + info.operation@), "\",\"content_type\":\""@, "\",\"agent\":\""@ + info.agent@ + "\",\"tool\":\""@);
        lemma_fragment_extend((((((((((((((((((((((("{\"ts\":\""@ + decimal(secs as nat)) + "."@) + zero_padded(nanos as nat, 9)) + "\",\"method\":\""@) + info.method@) + "\",\"path\":\""@) + info.path@) + "\",\"authority\":\""@) + info.authority@) + "\",\"host\":\""@) + info.host@) + "\",\"agent\":\""@) + info.agent@) + "\",\"tool\":\""@) + info.tool@) + "\",\"resource\":\""@) + info.resource@) + "\",\"session\":\""@) + info.session@) + "\",\"operation\":\""@) + info.operation@) + "\",\"content_type\":\""@), info.content_type@, "\",\"agent\":\""@ + info.agent@ + "\",\"tool\":\""@);
        lemma_fragment_extend(((((((((((((((((((((((("{\"ts\":\""@ + decimal(secs as nat)) + "."@) + zero_padded(nanos as nat, 9)) + "\",\"method\":\""@) + info.method@) + "\",\"path\":\""@) + info.path@) + "\",\"authority\":\""@) + info.authority@) + "\",\"host\":\""@) + info.host@) + "\",\"agent\":\""@) + info.agent@) + "\",\"tool\":\""@) + info.tool@) + "\",\"resource\":\""@) + info.resource@) + "\",\"session\":\""@) + info.session@) + "\",\"operation\":\""@) + info.operation@) + "\",\"content_type\":\""@) + info.content_type@), "\",\"user_agent\":\""@, "\",\"agent\":\""@ + info.agent@ + "\",\"tool\":\""@);
        lemma_fragment_extend((((((((((((((((((((((((("{\"ts\":\""@ + decimal(secs as nat)) + "."@) + zero_padded(nanos as nat, 9)) + "\",\"method\":\""@) + info.method@) + "\",\"path\":\""@) + info.path@) + "\",\"authority\":\""@) + info.authority@) + "\",\"host\":\""@) + info.host@) + "\",\"agent\":\""@) + info.agent@) + "\",\"tool\":\""@) + info.tool@) + "\",\"resource\":\""@) + info.resource@) + "\",\"session\":\""@) + info.session@) + "\",\"operation\":\""@) + info.operation@) + "\",\"content_type\":\""@) + info.content_type@) + "\",\"user_agent\":\""@), info.user_agent@, "\",\"agent\":\""@ + info.agent@ + "\",\"tool\":\""@);
        lemma_fragment_extend(((((((((((((((((((((((((("{\"ts\":\""@ + decimal(secs as nat)) + "."@) + zero_padded(nanos as nat, 9)) + "\",\"method\":\""@) + info.method@) + "\",\"path\":\""@) + info.path@) + "\",\"authority\":\""@) + info.authority@) + "\",\"host\":\""@) + info.host@) + "\",\"agent\":\""@) + info.agent@) + "\",\"tool\":\""@) + info.tool@) + "\",\"resource\":\""@) + info.resource@) + "\",\"session\":\""@) + info.session@) + "\",\"operation\":\""@) + info.operation@) + "\",\"content_type\":\""@) + info.content_type@) + "\",\"user_agent\":\""@) + info.user_agent@), "\",\"accept\":\""@, "\",\"agent\":\""@ + info.agent@ + "\",\"tool\":\""@);
        lemma_fragment_extend((((((((((((((((((((((((((("{\"ts\":\""@ + decimal(secs as nat)) + "."@) + zero_padded(nanos as nat, 9)) + "\",\"method\":\""@) + info.method@) + "\",\"path\":\""@) + info.path@) + "\",\"authority\":\""@) + info.authority@) + "\",\"host\":\""@) + info.host@) + "\",\"agent\":\""@) + info.agent@) + "\",\"tool\":\""@) + info.tool@) + "\",\"resource\":\""@) + info.resource@) + "\",\"session\":\""@) + info.session@) + "\",\"operation\":\""@) + info.operation@) + "\",\"content_type\":\""@) + info.content_type@) + "\",\"user_agent\":\""@) + info.user_agent@) + "\",\"accept\":\""@), info.accept@, "\",\"agent\":\""@ + info.agent@ + "\",\"tool\":\""@);
        lemma_fragment_extend(((((((((((((((((((((((((((("{\"ts\":\""@ + decimal(secs as nat)) + "."@) + zero_padded(nanos as nat, 9)) + "\",\"method\":\""@) + info.method@) + "\",\"path\":\""@) + info.path@) + "\",\"authority\":\""@) + info.authority@) + "\",\"host\":\""@) + info.host@) + "\",\"agent\":\""@) + info.agent@) + "\",\"tool\":\""@) + info.tool@) + "\",\"resource\":\""@) + info.resource@) + "\",\"session\":\""@) + info.session@) + "\",\"operation\":\""@) + info.operation@) + "\",\"content_type\":\""@) + info.content_type@) + "\",\"user_agent\":\""@) + info.user_agent@) + "\",\"accept\":\""@) + info.accept@), "\",\"processor\":\"geist-edge\",\"pipeline_pos\":0"@, "\",\"agent\":\""@ + info.agent@ + "\",\"tool\":\""@);
    }
    assert(has_fragment(h, "\",\"tool\":\""@ + info.tool@ + "\",\"resource\":\""@)) by {
        lemma_fragment_at_end(((((((((((((("{\"ts\":\""@ + decimal(secs as nat)) + "."@) + zero_padded(nanos as nat, 9)) + "\",\"method\":\""@) + info.method@) + "\",\"path\":\""@) + info.path@) + "\",\"authority\":\""@) + info.authority@) + "\",\"host\":\""@) + info.host@) + "\",\"agent\":\""@) + info.agent@), "\",\"tool\":\""@, info.tool@, "\",\"resource\":\""@);
        lemma_fragment_extend((((((((((((((((("{\"ts\":\""@ + decimal(secs as nat)) + "."@) + zero_padded(nanos as nat, 9)) + "\",\"method\":\""@) + info.method@) + "\",\"path\":\""@) + info.path@) + "\",\"authority\":\""@) + info.authority@) + "\",\"host\":\""@) + info.host@) + "\",\"agent\":\""@) + info.agent@) + "\",\"tool\":\""@) + info.tool@) + "\",\"resource\":\""@), info.resource@, "\",\"tool\":\""@ + info.tool@ + "\",\"resource\":\""@);
        lemma_fragment_extend(((((((((((((((((("{\"ts\":\""@ + decimal(secs as nat)) + "."@) + zero_padded(nanos as nat, 9)) + "\",\"method\":\""@) + info.method@) + "\",\"path\":\""@) + info.path@) + "\",\"authority\":\""@) + info.authority@) + "\",\"host\":\""@) + info.host@) + "\",\"agent\":\""@) + info.agent@) + "\",\"tool\":\""@) + info.tool@) + "\",\"resource\":\""@) + info.resource@), "\",\"session\":\""@, "\",\"tool\":\""@ + info.tool@ + "\",\"resource\":\""@);
        lemma_fragment_extend((((((((((((((((((("{\"ts\":\""@ + decimal(secs as nat)) + "."@) + zero_padded(nanos as nat, 9)) + "\",\"method\":\""@) + info.method@) + "\",\"path\":\""@) + info.path@) + "\",\"authority\":\""@) + info.authority@) + "\",\"host\":\""@) + info.host@) + "\",\"agent\":\""@) + info.agent@) + "\",\"tool\":\""@) + info.tool@) + "\",\"resource\":\""@) + info.resource@) + "\",\"session\":\""@), info.session@, "\",\"tool\":\""@ + info.tool@ + "\",\"resource\":\""@);
        lemma_fragment_extend(((((((((((((((((((("{\"ts\":\""@ + decimal(secs as nat)) + "."@) + zero_padded(nanos as nat, 9)) + "\",\"method\":\""@) + info.method@) + "\",\"path\":\""@) + info.path@) + "\",\"authority\":\""@) + info.authority@) + "\",\"host\":\""@) + info.host@) + "\",\"agent\":\""@) + info.agent@) + "\",\"tool\":\""@) + info.tool@) + "\",\"resource\":\""@) + info.resource@) + "\",\"session\":\""@) + info.session@), "\",\"operation\":\""@, "\",\"tool\":\""@ + info.tool@ + "\",\"resource\":\""@);
        lemma_fragment_extend((((((((((((((((((((("{\"ts\":\""@ + decimal(secs as nat)) + "."@) + zero_padded(nanos as nat, 9)) + "\",\"method\":\""@) + info.method@) + "\",\"path\":\""@) + info.path@) + "\",\"authority\":\""@) + info.authority@) + "\",\"host\":\""@) + info.host@) + "\",\"agent\":\""@) + info.agent@) + "\",\"tool\":\""@) + info.tool@) + "\",\"resource\":\""@) + info.resource@) + "\",\"session\":\""@) + info.session@) + "\",\"operation\":\""@), info.operation@, "\",\"tool\":\""@ + info.tool@ + "\",\"resource\":\""@);
        lemma_fragment_extend(((((((((((((((((((((("{\"ts\":\""@ + decimal(secs as nat)) + "."@) + zero_padded(nanos as nat, 9)) + "\",\"method\":\""@) + info.method@) + "\",\"path\":\""@) + info.path@) + "\",\"authority\":\""@) + info.authority@) + "\",\"host\":\""@) + info.host@) + "\",\"agent\":\""@) + info.agent@) + "\",\"tool\":\""@) + info.tool@) + "\",\"resource\":\""@) + info.resource@) + "\",\"session\":\""@) + info.session@) + "\",\"operation\":\""@) + info.operation@), "\",\"content_type\":\""@, "\",\"tool\":\""@ + info.tool@ + "\",\"resource\":\""@);
        lemma_fragment_extend((((((((((((((((((((((("{\"ts\":\""@ + decimal(secs as nat)) + "."@) + zero_padded(nanos as nat, 9)) + "\",\"method\":\""@) + info.method@) + "\",\"path\":\""@) + info.path@) + "\",\"authority\":\""@) + info.authority@) + "\",\"host\":\""@) + info.host@) + "\",\"agent\":\""@) + info.agent@) + "\",\"tool\":\""@) + info.tool@) + "\",\"resource\":\""@) + info.resource@) + "\",\"session\":\""@) + info.session@) + "\",\"operation\":\""@) + info.operation@) + "\",\"content_type\":\""@), info.content_type@, "\",\"tool\":\""@ + info.tool@ + "\",\"resource\":\""@);
        lemma_fragment_extend(((((((((((((((((((((((("{\"ts\":\""@ + decimal(secs as nat)) + "."@) + zero_padded(nanos as nat, 9)) + "\",\"method\":\""@) + info.method@) + "\",\"path\":\""@) + info.path@) + "\",\"authority\":\""@) + info.authority@) + "\",\"host\":\""@) + info.host@) + "\",\"agent\":\""@) + info.agent@) + "\",\"tool\":\""@) + info.tool@) + "\",\"resource\":\""@) + info.resource@) + "\",\"session\":\""@) + info.session@) + "\",\"operation\":\""@) + info.operation@) + "\",\"content_type\":\""@) + info.content_type@), "\",\"user_agent\":\""@, "\",\"tool\":\""@ + info.tool@ + "\",\"resource\":\""@);
        lemma_fragment_extend((((((((((((((((((((((((("{\"ts\":\""@ + decimal(secs as nat)) + "."@) + zero_padded(nanos as nat, 9)) + "\",\"method\":\""@) + info.method@) + "\",\"path\":\""@) + info.path@) + "\",\"authority\":\""@) + info.authority@) + "\",\"host\":\""@) + info.host@) + "\",\"agent\":\""@) + info.agent@) + "\",\"tool\":\""@) + info.tool@) + "\",\"resource\":\""@) + info.resource@) + "\",\"session\":\""@) + info.session@) + "\",\"operation\":\""@) + info.operation@) + "\",\"content_type\":\""@) + info.content_type@) + "\",\"user_agent\":\""@), info.user_agent@, "\",\"tool\":\""@ + info.tool@ + "\",\"resource\":\""@);
        lemma_fragment_extend(((((((((((((((((((((((((("{\"ts\":\""@ + decimal(secs as nat)) + "."@) + zero_padded(nanos as nat, 9)) + "\",\"method\":\""@) + info.method@) + "\",\"path\":\""@) + info.path@) + "\",\"authority\":\""@) + info.authority@) + "\",\"host\":\""@) + info.host@) + "\",\"agent\":\""@) + info.agent@) + "\",\"tool\":\""@) + info.tool@) + "\",\"resource\":\""@) + info.resource@) + "\",\"session\":\""@) + info.session@) + "\",\"operation\":\""@) + info.operation@) + "\",\"content_type\":\""@) + info.content_type@) + "\",\"user_agent\":\""@) + info.user_agent@), "\",\"accept\":\""@, "\",\"tool\":\""@ + info.tool@ + "\",\"resource\":\""@);
        lemma_fragment_extend((((((((((((((((((((((((((("{\"ts\":\""@ + decimal(secs as nat)) + "."@) + zero_padded(nanos as nat, 9)) + "\",\"method\":\""@) + info.method@) + "\",\"path\":\""@) + info.path@) + "\",\"authority\":\""@) + info.authority@) + "\",\"host\":\""@) + info.host@) + "\",\"agent\":\""@) + info.agent@) + "\",\"tool\":\""@) + info.tool@) + "\",\"resource\":\""@) + info.resource@) + "\",\"session\":\""@) + info.session@) + "\",\"operation\":\""@) + info.operation@) + "\",\"content_type\":\""@) + info.content_type@) + "\",\"user_agent\":\""@) + info.user_agent@) + "\",\"accept\":\""@), info.accept@, "\",\"tool\":\""@ + info.tool@ + "\",\"resource\":\""@);
        lemma_fragment_extend(((((((((((((((((((((((((((("{\"ts\":\""@ + decimal(secs as nat)) + "."@) + zero_padded(nanos as nat, 9)) + "\",\"method\":\""@) + info.method@) + "\",\"path\":\""@) + info.path@) + "\",\"authority\":\""@) + info.authority@) + "\",\"host\":\""@) + info.host@) + "\",\"agent\":\""@) + info.agent@) + "\",\"tool\":\""@) + info.tool@) + "\",\"resource\":\""@) + info.resource@) + "\",\"session\":\""@) + info.session@) + "\",\"operation\":\""@) + info.operation@) + "\",\"content_type\":\""@) + info.content_type@) + "\",\"user_agent\":\""@) + info.user_agent@) + "\",\"accept\":\""@) + info.accept@), "\",\"processor\":\"geist-edge\",\"pipeline_pos\":0"@, "\",\"tool\":\""@ + info.tool@ + "\",\"resource\":\""@);
    }
    assert(has_fragment(h, "\",\"resource\":\""@ + info.resource@ + "\",\"session\":\""@)) by {
        lemma_fragment_at_end(((((((((((((((("{\"ts\":\""@ + decimal(secs as nat)) + "."@) + zero_padded(nanos as nat, 9)) + "\",\"method\":\""@) + info.method@) + "\",\"path\":\""@) + info.path@) + "\",\"authority\":\""@) + info.authority@) + "\",\"host\":\""@) + info.host@) + "\",\"agent\":\""@) + info.agent@) + "\",\"tool\":\""@) + info.tool@), "\",\"resource\":\""@, info.resource@, "\",\"session\":\""@);
        lemma_fragment_extend((((((((((((((((((("{\"ts\":\""@ + decimal(secs as nat)) + "."@) + zero_padded(nanos as nat, 9)) + "\",\"method\":\""@) + info.method@) + "\",\"path\":\""@) + info.path@) + "\",\"authority\":\""@) + info.authority@) + "\",\"host\":\""@) + info.host@) + "\",\"agent\":\""@) + info.agent@) + "\",\"tool\":\""@) + info.tool@) + "\",\"resource\":\""@) + info.resource@) + "\",\"session\":\""@), info.session@, "\",\"resource\":\""@ + info.resource@ + "\",\"session\":\""@);
        lemma_fragment_extend(((((((((((((((((((("{\"ts\":\""@ + decimal(secs as nat)) + "."@) + zero_padded(nanos as nat, 9)) + "\",\"method\":\""@) + info.method@) + "\",\"path\":\""@) + info.path@) + "\",\"authority\":\""@) + info.authority@) + "\",\"host\":\""@) + info.host@) + "\",\"agent\":\""@) + info.agent@) + "\",\"tool\":\""@) + info.tool@) + "\",\"resource\":\""@) + info.resource@) + "\",\"session\":\""@) + info.session@), "\",\"operation\":\""@, "\",\"resource\":\""@ + info.resource@ + "\",\"session\":\""@);
        lemma_fragment_extend((((((((((((((((((((("{\"ts\":\""@ + decimal(secs as nat)) + "."@) + zero_padded(nanos as nat, 9)) + "\",\"method\":\""@) + info.method@) + "\",\"path\":\""@) + info.path@) + "\",\"authority\":\""@) + info.authority@) + "\",\"host\":\""@) + info.host@) + "\",\"agent\":\""@) + info.agent@) + "\",\"tool\":\""@) + info.tool@) + "\",\"resource\":\""@) + info.resource@) + "\",\"session\":\""@) + info.session@) + "\",\"operation\":\""@), info.operation@, "\",\"resource\":\""@ + info.resource@ + "\",\"session\":\""@);
        lemma_fragment_extend(((((((((((((((((((((("{\"ts\":\""@ + decimal(secs as nat)) + "."@) + zero_padded(nanos as nat, 9)) + "\",\"method\":\""@) + info.method@) + "\",\"path\":\""@) + info.path@) + "\",\"authority\":\""@) + info.authority@) + "\",\"host\":\""@) + info.host@) + "\",\"agent\":\""@) + info.agent@) + "\",\"tool\":\""@) + info.tool@) + "\",\"resource\":\""@) + info.resource@) + "\",\"session\":\""@) + info.session@) + "\",\"operation\":\""@) + info.operation@), "\",\"content_type\":\""@, "\",\"resource\":\""@ + info.resource@ + "\",\"session\":\""@);
        lemma_fragment_extend((((((((((((((((((((((("{\"ts\":\""@ + decimal(secs as nat)) + "."@) + zero_padded(nanos as nat, 9)) + "\",\"method\":\""@) + info.method@) + "\",\"path\":\""@) + info.path@) + "\",\"authority\":\""@) + info.authority@) + "\",\"host\":\""@) + info.host@) + "\",\"agent\":\""@) + info.agent@) + "\",\"tool\":\""@) + info.tool@) + "\",\"resource\":\""@) + info.resource@) + "\",\"session\":\""@) + info.session@) + "\",\"operation\":\""@) + info.operation@) + "\",\"content_type\":\""@), info.content_type@, "\",\"resource\":\""@ + info.resource@ + "\",\"session\":\""@);
        lemma_fragment_extend(((((((((((((((((((((((("{\"ts\":\""@ + decimal(secs as nat)) + "."@) + zero_padded(nanos as nat, 9)) + "\",\"method\":\""@) + info.method@) + "\",\"path\":\""@) + info.path@) + "\",\"authority\":\""@) + info.authority@) + "\",\"host\":\""@) + info.host@) + "\",\"agent\":\""@) + info.agent@) + "\",\"tool\":\""@) + info.tool@) + "\",\"resource\":\""@) + info.resource@) + "\",\"session\":\""@) + info.session@) + "\",\"operation\":\""@) + info.operation@) + "\",\"content_type\":\""@) + info.content_type@), "\",\"user_agent\":\""@, "\",\"resource\":\""@ + info.resource@ + "\",\"session\":\""@);
        lemma_fragment_extend((((((((((((((((((((((((("{\"ts\":\""@ + decimal(secs as nat)) + "."@) + zero_padded(nanos as nat, 9)) + "\",\"method\":\""@) + info.method@) + "\",\"path\":\""@) + info.path@) + "\",\"authority\":\""@) + info.authority@) + "\",\"host\":\""@) + info.host@) + "\",\"agent\":\""@) + info.agent@) + "\",\"tool\":\""@) + info.tool@) + "\",\"resource\":\""@) + info.resource@) + "\",\"session\":\""@) + info.session@) + "\",\"operation\":\""@) + info.operation@) + "\",\"content_type\":\""@) + info.content_type@) + "\",\"user_agent\":\""@), info.user_agent@, "\",\"resource\":\""@ + info.resource@ + "\",\"session\":\""@);
        lemma_fragment_extend(((((((((((((((((((((((((("{\"ts\":\""@ + decimal(secs as nat)) + "."@) + zero_padded(nanos as nat, 9)) + "\",\"method\":\""@) + info.method@) + "\",\"path\":\""@) + info.path@) + "\",\"authority\":\""@) + info.authority@) + "\",\"host\":\""@) + info.host@) + "\",\"agent\":\""@) + info.agent@) + "\",\"tool\":\""@) + info.tool@) + "\",\"resource\":\""@) + info.resource@) + "\",\"session\":\""@) + info.session@) + "\",\"operation\":\""@) + info.operation@) + "\",\"content_type\":\""@) + info.content_type@) + "\",\"user_agent\":\""@) + info.user_agent@), "\",\"accept\":\""@, "\",\"resource\":\""@ + info.resource@ + "\",\"session\":\""@);
        lemma_fragment_extend((((((((((((((((((((((((((("{\"ts\":\""@ + decimal(secs as nat)) + "."@) + zero_padded(nanos as nat, 9)) + "\",\"method\":\""@) + info.method@) + "\",\"path\":\""@) + info.path@) + "\",\"authority\":\""@) + info.authority@) + "\",\"host\":\""@) + info.host@) + "\",\"agent\":\""@) + info.agent@) + "\",\"tool\":\""@) + info.tool@) + "\",\"resource\":\""@) + info.resource@) + "\",\"session\":\""@) + info.session@) + "\",\"operation\":\""@) + info.operation@) + "\",\"content_type\":\""@) + info.content_type@) + "\",\"user_agent\":\""@) + info.user_agent@) + "\",\"accept\":\""@), info.accept@, "\",\"resource\":\""@ + info.resource@ + "\",\"session\":\""@);
        lemma_fragment_extend(((((((((((((((((((((((((((("{\"ts\":\""@ + decimal(secs as nat)) + "."@) + zero_padded(nanos as nat, 9)) + "\",\"method\":\""@) + info.method@) + "\",\"path\":\""@) + info.path@) + "\",\"authority\":\""@) + info.authority@) + "\",\"host\":\""@) + info.host@) + "\",\"agent\":\""@) + info.agent@) + "\",\"tool\":\""@) + info.tool@) + "\",\"resource\":\""@) + info.resource@) + "\",\"session\":\""@) + info.session@) + "\",\"operation\":\""@) + info.operation@) + "\",\"content_type\":\""@) + info.content_type@) + "\",\"user_agent\":\""@) + info.user_agent@) + "\",\"accept\":\""@) + info.accept@), "\",\"processor\":\"geist-edge\",\"pipeline_pos\":0"@, "\",\"resource\":\""@ + info.resource@ + "\",\"session\":\""@);
    }
    assert(has_fragment(h, "\",\"session\":\""@ + info.session@ + "\",\"operation\":\""@)) by {
        lemma_fragment_at_end(((((((((((((((((("{\"ts\":\""@ + decimal(secs as nat)) + "."@) + zero_padded(nanos as nat, 9)) + "\",\"method\":\""@) + info.method@) + "\",\"path\":\""@) + info.path@) + "\",\"authority\":\""@) + info.authority@) + "\",\"host\":\""@) + info.host@) + "\",\"agent\":\""@) + info.agent@) + "\",\"tool\":\""@) + info.tool@) + "\",\"resource\":\""@) + info.resource@), "\",\"session\":\""@, info.session@, "\",\"operation\":\""@);
        lemma_fragment_extend((((((((((((((((((((("{\"ts\":\""@ + decimal(secs as nat)) + "."@) + zero_padded(nanos as nat, 9)) + "\",\"method\":\""@) + info.method@) + "\",\"path\":\""@) + info.path@) + "\",\"authority\":\""@) + info.authority@) + "\",\"host\":\""@) + info.host@) + "\",\"agent\":\""@) + info.agent@) + "\",\"tool\":\""@) + info.tool@) + "\",\"resource\":\""@) + info.resource@) + "\",\"session\":\""@) + info.session@) + "\",\"operation\":\""@), info.operation@, "\",\"session\":\""@ + info.session@ + "\",\"operation\":\""@);
        lemma_fragment_extend(((((((((((((((((((((("{\"ts\":\""@ + decimal(secs as nat)) + "."@) + zero_padded(nanos as nat, 9)) + "\",\"method\":\""@) + info.method@) + "\",\"path\":\""@) + info.path@) + "\",\"authority\":\""@) + info.authority@) + "\",\"host\":\""@) + info.host@) + "\",\"agent\":\""@) + info.agent@) + "\",\"tool\":\""@) + info.tool@) + "\",\"resource\":\""@) + info.resource@) + "\",\"session\":\""@) + info.session@) + "\",\"operation\":\""@) + info.operation@), "\",\"content_type\":\""@, "\",\"session\":\""@ + info.session@ + "\",\"operation\":\""@);
        lemma_fragment_extend((((((((((((((((((((((("{\"ts\":\""@ + decimal(secs as nat)) + "."@) + zero_padded(nanos as nat, 9)) + "\",\"method\":\""@) + info.method@) + "\",\"path\":\""@) + info.path@) + "\",\"authority\":\""@) + info.authority@) + "\",\"host\":\""@) + info.host@) + "\",\"agent\":\""@) + info.agent@) + "\",\"tool\":\""@) + info.tool@) + "\",\"resource\":\""@) + info.resource@) + "\",\"session\":\""@) + info.session@) + "\",\"operation\":\""@) + info.operation@) + "\",\"content_type\":\""@), info.content_type@, "\",\"session\":\""@ + info.session@ + "\",\"operation\":\""@);
        lemma_fragment_extend(((((((((((((((((((((((("{\"ts\":\""@ + decimal(secs as nat)) + "."@) + zero_padded(nanos as nat, 9)) + "\",\"method\":\""@) + info.method@) + "\",\"path\":\""@) + info.path@) + "\",\"authority\":\""@) + info.authority@) + "\",\"host\":\""@) + info.host@) + "\",\"agent\":\""@) + info.agent@) + "\",\"tool\":\""@) + info.tool@) + "\",\"resource\":\""@) + info.resource@) + "\",\"session\":\""@) + info.session@) + "\",\"operation\":\""@) + info.operation@) + "\",\"content_type\":\""@) + info.content_type@), "\",\"user_agent\":\""@, "\",\"session\":\""@ + info.session@ + "\",\"operation\":\""@);
        lemma_fragment_extend((((((((((((((((((((((((("{\"ts\":\""@ + decimal(secs as nat)) + "."@) + zero_padded(nanos as nat, 9)) + "\",\"method\":\""@) + info.method@) + "\",\"path\":\""@) + info.path@) + "\",\"authority\":\""@) + info.authority@) + "\",\"host\":\""@) + info.host@) + "\",\"agent\":\""@) + info.agent@) + "\",\"tool\":\""@) + info.tool@) + "\",\"resource\":\""@) + info.resource@) + "\",\"session\":\""@) + info.session@) + "\",\"operation\":\""@) + info.operation@) + "\",\"content_type\":\""@) + info.content_type@) + "\",\"user_agent\":\""@), info.user_agent@, "\",\"session\":\""@ + info.session@ + "\",\"operation\":\""@);
        lemma_fragment_extend(((((((((((((((((((((((((("{\"ts\":\""@ + decimal(secs as nat)) + "."@) + zero_padded(nanos as nat, 9)) + "\",\"method\":\""@) + info.method@) + "\",\"path\":\""@) + info.path@) + "\",\"authority\":\""@) + info.authority@) + "\",\"host\":\""@) + info.host@) + "\",\"agent\":\""@) + info.agent@) + "\",\"tool\":\""@) + info.tool@) + "\",\"resource\":\""@) + info.resource@) + "\",\"session\":\""@) + info.session@) + "\",\"operation\":\""@) + info.operation@) + "\",\"content_type\":\""@) + info.content_type@) + "\",\"user_agent\":\""@) + info.user_agent@), "\",\"accept\":\""@, "\",\"session\":\""@ + info.session@ + "\",\"operation\":\""@);
        lemma_fragment_extend((((((((((((((((((((((((((("{\"ts\":\""@ + decimal(secs as nat)) + "."@) + zero_padded(nanos as nat, 9)) + "\",\"method\":\""@) + info.method@) + "\",\"path\":\""@) + info.path@) + "\",\"authority\":\""@) + info.authority@) + "\",\"host\":\""@) + info.host@) + "\",\"agent\":\""@) + info.agent@) + "\",\"tool\":\""@) + info.tool@) + "\",\"resource\":\""@) + info.resource@) + "\",\"session\":\""@) + info.session@) + "\",\"operation\":\""@) + info.operation@) + "\",\"content_type\":\""@) + info.content_type@) + "\",\"user_agent\":\""@) + info.user_agent@) + "\",\"accept\":\""@), info.accept@, "\",\"session\":\""@ + info.session@ + "\",\"operation\":\""@);
        lemma_fragment_extend(((((((((((((((((((((((((((("{\"ts\":\""@ + decimal(secs as nat)) + "."@) + zero_padded(nanos as nat, 9)) + "\",\"method\":\""@) + info.method@) + "\",\"path\":\""@) + info.path@) + "\",\"authority\":\""@) + info.authority@) + "\",\"host\":\""@) + info.host@) + "\",\"agent\":\""@) + info.agent@) + "\",\"tool\":\""@) + info.tool@) + "\",\"resource\":\""@) + info.resource@) + "\",\"session\":\""@) + info.session@) + "\",\"operation\":\""@) + info.operation@) + "\",\"content_type\":\""@) + info.content_type@) + "\",\"user_agent\":\""@) + info.user_agent@) + "\",\"accept\":\""@) + info.accept@), "\",\"processor\":\"geist-edge\",\"pipeline_pos\":0"@, "\",\"session\":\""@ + info.session@ + "\",\"operation\":\""@);
    }
    assert(has_fragment(h, "\",\"operation\":\""@ + info.operation@ + "\",\"content_type\":\""@)) by {
        lemma_fragment_at_end(((((((((((((((((((("{\"ts\":\""@ + decimal(secs as nat)) + "."@) + zero_padded(nanos as nat, 9)) + "\",\"method\":\""@) + info.method@) + "\",\"path\":\""@) + info.path@) + "\",\"authority\":\""@) + info.authority@) + "\",\"host\":\""@) + info.host@) + "\",\"agent\":\""@) + info.agent@) + "\",\"tool\":\""@) + info.tool@) + "\",\"resource\":\""@) + info.resource@) + "\",\"session\":\""@) + info.session@), "\",\"operation\":\""@, info.operation@, "\",\"content_type\":\""@);
        lemma_fragment_extend((((((((((((((((((((((("{\"ts\":\""@ + decimal(secs as nat)) + "."@) + zero_padded(nanos as nat, 9)) + "\",\"method\":\""@) + info.method@) + "\",\"path\":\""@) + info.path@) + "\",\"authority\":\""@) + info.authority@) + "\",\"host\":\""@) + info.host@) + "\",\"agent\":\""@) + info.agent@) + "\",\"tool\":\""@) + info.tool@) + "\",\"resource\":\""@) + info.resource@) + "\",\"session\":\""@) + info.session@) + "\",\"operation\":\""@) + info.operation@) + "\",\"content_type\":\""@), info.content_type@, "\",\"operation\":\""@ + info.operation@ + "\",\"content_type\":\""@);
        lemma_fragment_extend(((((((((((((((((((((((("{\"ts\":\""@ + decimal(secs as nat)) + "."@) + zero_padded(nanos as nat, 9)) + "\",\"method\":\""@) + info.method@) + "\",\"path\":\""@) + info.path@) + "\",\"authority\":\""@) + info.authority@) + "\",\"host\":\""@) + info.host@) + "\",\"agent\":\""@) + info.agent@) + "\",\"tool\":\""@) + info.tool@) + "\",\"resource\":\""@) + info.resource@) + "\",\"session\":\""@) + info.session@) + "\",\"operation\":\""@) + info.operation@) + "\",\"content_type\":\""@) + info.content_type@), "\",\"user_agent\":\""@, "\",\"operation\":\""@ + info.operation@ + "\",\"content_type\":\""@);
        lemma_fragment_extend((((((((((((((((((((((((("{\"ts\":\""@ + decimal(secs as nat)) + "."@) + zero_padded(nanos as nat, 9)) + "\",\"method\":\""@) + info.method@) + "\",\"path\":\""@) + info.path@) + "\",\"authority\":\""@) + info.authority@) + "\",\"host\":\""@) + info.host@) + "\",\"agent\":\""@) + info.agent@) + "\",\"tool\":\""@) + info.tool@) + "\",\"resource\":\""@) + info.resource@) + "\",\"session\":\""@) + info.session@) + "\",\"operation\":\""@) + info.operation@) + "\",\"content_type\":\""@) + info.content_type@) + "\",\"user_agent\":\""@), info.user_agent@, "\",\"operation\":\""@ + info.operation@ + "\",\"content_type\":\""@);
        lemma_fragment_extend(((((((((((((((((((((((((("{\"ts\":\""@ + decimal(secs as nat)) + "."@) + zero_padded(nanos as nat, 9)) + "\",\"method\":\""@) + info.method@) + "\",\"path\":\""@) + info.path@) + "\",\"authority\":\""@) + info.authority@) + "\",\"host\":\""@) + info.host@) + "\",\"agent\":\""@) + info.agent@) + "\",\"tool\":\""@) + info.tool@) + "\",\"resource\":\""@) + info.resource@) + "\",\"session\":\""@) + info.session@) + "\",\"operation\":\""@) + info.operation@) + "\",\"content_type\":\""@) + info.content_type@) + "\",\"user_agent\":\""@) + info.user_agent@), "\",\"accept\":\""@, "\",\"operation\":\""@ + info.operation@ + "\",\"content_type\":\""@);
        lemma_fragment_extend((((((((((((((((((((((((((("{\"ts\":\""@ + decimal(secs as nat)) + "."@) + zero_padded(nanos as nat, 9)) + "\",\"method\":\""@) + info.method@) + "\",\"path\":\""@) + info.path@) + "\",\"authority\":\""@) + info.authority@) + "\",\"host\":\""@) + info.host@) + "\",\"agent\":\""@) + info.agent@) + "\",\"tool\":\""@) + info.tool@) + "\",\"resource\":\""@) + info.resource@) + "\",\"session\":\""@) + info.session@) + "\",\"operation\":\""@) + info.operation@) + "\",\"content_type\":\""@) + info.content_type@) + "\",\"user_agent\":\""@) + info.user_agent@) + "\",\"accept\":\""@), info.accept@, "\",\"operation\":\""@ + info.operation@ + "\",\"content_type\":\""@);
        lemma_fragment_extend(((((((((((((((((((((((((((("{\"ts\":\""@ + decimal(secs as nat)) + "."@) + zero_padded(nanos as nat, 9)) + "\",\"method\":\""@) + info.method@) + "\",\"path\":\""@) + info.path@) + "\",\"authority\":\""@) + info.authority@) + "\",\"host\":\""@) + info.host@) + "\",\"agent\":\""@) + info.agent@) + "\",\"tool\":\""@) + info.tool@) + "\",\"resource\":\""@) + info.resource@) + "\",\"session\":\""@) + info.session@) + "\",\"operation\":\""@) + info.operation@) + "\",\"content_type\":\""@) + info.content_type@) + "\",\"user_agent\":\""@) + info.user_agent@) + "\",\"accept\":\""@) + info.accept@), "\",\"processor\":\"geist-edge\",\"pipeline_pos\":0"@, "\",\"operation\":\""@ + info.operation@ + "\",\"content_type\":\""@);
    }
    assert(has_fragment(h, "\",\"content_type\":\""@ + info.content_type@ + "\",\"user_agent\":\""@)) by {
        lemma_fragment_at_end(((((((((((((((((((((("{\"ts\":\""@ + decimal(secs as nat)) + "."@) + zero_padded(nanos as nat, 9)) + "\",\"method\":\""@) + info.method@) + "\",\"path\":\""@) + info.path@) + "\",\"authority\":\""@) + info.authority@) + "\",\"host\":\""@) + info.host@) + "\",\"agent\":\""@) + info.agent@) + "\",\"tool\":\""@) + info.tool@) + "\",\"resource\":\""@) + info.resource@) + "\",\"session\":\""@) + info.session@) + "\",\"operation\":\""@) + info.operation@), "\",\"content_type\":\""@, info.content_type@, "\",\"user_agent\":\""@);
        lemma_fragment_extend((((((((((((((((((((((((("{\"ts\":\""@ + decimal(secs as nat)) + "."@) + zero_padded(nanos as nat, 9)) + "\",\"method\":\""@) + info.method@) + "\",\"path\":\""@) + info.path@) + "\",\"authority\":\""@) + info.authority@) + "\",\"host\":\""@) + info.host@) + "\",\"agent\":\""@) + info.agent@) + "\",\"tool\":\""@) + info.tool@) + "\",\"resource\":\""@) + info.resource@) + "\",\"session\":\""@) + info.session@) + "\",\"operation\":\""@) + info.operation@) + "\",\"content_type\":\""@) + info.content_type@) + "\",\"user_agent\":\""@), info.user_agent@, "\",\"content_type\":\""@ + info.content_type@ + "\",\"user_agent\":\""@);
        lemma_fragment_extend(((((((((((((((((((((((((("{\"ts\":\""@ + decimal(secs as nat)) + "."@) + zero_padded(nanos as nat, 9)) + "\",\"method\":\""@) + info.method@) + "\",\"path\":\""@) + info.path@) + "\",\"authority\":\""@) + info.authority@) + "\",\"host\":\""@) + info.host@) + "\",\"agent\":\""@) + info.agent@) + "\",\"tool\":\""@) + info.tool@) + "\",\"resource\":\""@) + info.resource@) + "\",\"session\":\""@) + info.session@) + "\",\"operation\":\""@) + info.operation@) + "\",\"content_type\":\""@) + info.content_type@) + "\",\"user_agent\":\""@) + info.user_agent@), "\",\"accept\":\""@, "\",\"content_type\":\""@ + info.content_type@ + "\",\"user_agent\":\""@);
        lemma_fragment_extend((((((((((((((((((((((((((("{\"ts\":\""@ + decimal(secs as nat)) + "."@) + zero_padded(nanos as nat, 9)) + "\",\"method\":\""@) + info.method@) + "\",\"path\":\""@) + info.path@) + "\",\"authority\":\""@) + info.authority@) + "\",\"host\":\""@) + info.host@) + "\",\"agent\":\""@) + info.agent@) + "\",\"tool\":\""@) + info.tool@) + "\",\"resource\":\""@) + info.resource@) + "\",\"session\":\""@) + info.session@) + "\",\"operation\":\""@) + info.operation@) + "\",\"content_type\":\""@) + info.content_type@) + "\",\"user_agent\":\""@) + info.user_agent@) + "\",\"accept\":\""@), info.accept@, "\",\"content_type\":\""@ + info.content_type@ + "\",\"user_agent\":\""@);
        lemma_fragment_extend(((((((((((((((((((((((((((("{\"ts\":\""@ + decimal(secs as nat)) + "."@) + zero_padded(nanos as nat, 9)) + "\",\"method\":\""@) + info.method@) + "\",\"path\":\""@) + info.path@) + "\",\"authority\":\""@) + info.authority@) + "\",\"host\":\""@) + info.host@) + "\",\"agent\":\""@) + info.agent@) + "\",\"tool\":\""@) + info.tool@) + "\",\"resource\":\""@) + info.resource@) + "\",\"session\":\""@) + info.session@) + "\",\"operation\":\""@) + info.operation@) + "\",\"content_type\":\""@) + info.content_type@) + "\",\"user_agent\":\""@) + info.user_agent@) + "\",\"accept\":\""@) + info.accept@), "\",\"processor\":\"geist-edge\",\"pipeline_pos\":0"@, "\",\"content_type\":\""@ + info.content_type@ + "\",\"user_agent\":\""@);
    }
    assert(has_fragment(h, "\",\"user_agent\":\""@ + info.user_agent@ + "\",\"accept\":\""@)) by {
        lemma_fragment_at_end(((((((((((((((((((((((("{\"ts\":\""@ + decimal(secs as nat)) + "."@) + zero_padded(nanos as nat, 9)) + "\",\"method\":\""@) + info.method@) + "\",\"path\":\""@) + info.path@) + "\",\"authority\":\""@) + info.authority@) + "\",\"host\":\""@) + info.host@) + "\",\"agent\":\""@) + info.agent@) + "\",\"tool\":\""@) + info.tool@) + "\",\"resource\":\""@) + info.resource@) + "\",\"session\":\""@) + info.session@) + "\",\"operation\":\""@) + info.operation@) + "\",\"content_type\":\""@) + info.content_type@), "\",\"user_agent\":\""@, info.user_agent@, "\",\"accept\":\""@);
        lemma_fragment_extend((((((((((((((((((((((((((("{\"ts\":\""@ + decimal(secs as nat)) + "."@) + zero_padded(nanos as nat, 9)) + "\",\"method\":\""@) + info.method@) + "\",\"path\":\""@) + info.path@) + "\",\"authority\":\""@) + info.authority@) + "\",\"host\":\""@) + info.host@) + "\",\"agent\":\""@) + info.agent@) + "\",\"tool\":\""@) + info.tool@) + "\",\"resource\":\""@) + info.resource@) + "\",\"session\":\""@) + info.session@) + "\",\"operation\":\""@) + info.operation@) + "\",\"content_type\":\""@) + info.content_type@) + "\",\"user_agent\":\""@) + info.user_agent@) + "\",\"accept\":\""@), info.accept@, "\",\"user_agent\":\""@ + info.user_agent@ + "\",\"accept\":\""@);
        lemma_fragment_extend(((((((((((((((((((((((((((("{\"ts\":\""@ + decimal(secs as nat)) + "."@) + zero_padded(nanos as nat, 9)) + "\",\"method\":\""@) + info.method@) + "\",\"path\":\""@) + info.path@) + "\",\"authority\":\""@) + info.authority@) + "\",\"host\":\""@) + info.host@) + "\",\"agent\":\""@) + info.agent@) + "\",\"tool\":\""@) + info.tool@) + "\",\"resource\":\""@) + info.resource@) + "\",\"session\":\""@) + info.session@) + "\",\"operation\":\""@) + info.operation@) + "\",\"content_type\":\""@) + info.content_type@) + "\",\"user_agent\":\""@) + info.user_agent@) + "\",\"accept\":\""@) + info.accept@), "\",\"processor\":\"geist-edge\",\"pipeline_pos\":0"@, "\",\"user_agent\":\""@ + info.user_agent@ + "\",\"accept\":\""@);
    }
    assert(has_fragment(h, "\",\"accept\":\""@ + info.accept@ + "\",\"processor\":\"geist-edge\",\"pipeline_pos\":0"@)) by {
        lemma_fragment_at_end(((((((((((((((((((((((((("{\"ts\":\""@ + decimal(secs as nat)) + "."@) + zero_padded(nanos as nat, 9)) + "\",\"method\":\""@) + info.method@) + "\",\"path\":\""@) + info.path@) + "\",\"authority\":\""@) + info.authority@) + "\",\"host\":\""@) + info.host@) + "\",\"agent\":\""@) + info.agent@) + "\",\"tool\":\""@) + info.tool@) + "\",\"resource\":\""@) + info.resource@) + "\",\"session\":\""@) + info.session@) + "\",\"operation\":\""@) + info.operation@) + "\",\"content_type\":\""@) + info.content_type@) + "\",\"user_agent\":\""@) + info.user_agent@), "\",\"accept\":\""@, info.accept@, "\",\"processor\":\"geist-edge\",\"pipeline_pos\":0"@);
    }
}

/// What an entry records of a request: the method, path and authority of the
/// request, and nine headers by name, `-` for each one absent.
pub proof fn law_request_info_fields(info: RequestInfo, parts: http::request::Parts)
    requires
        is_request_info(info, parts),
    ensures
        info.method@ == request_method_text(parts),
        info.path@ == or_dash(request_path_text(parts)),
        info.authority@ == or_dash(request_authority_text(parts)),
        info.host@ == header_or(parts, "host"@, "-"@),
        info.agent@ == header_or(parts, "x-geist-agent-id"@, "-"@),
        info.tool@ == header_or(parts, "x-geist-tool-name"@, "-"@),
        info.resource@ == header_or(parts, "x-geist-resource"@, "-"@),
        info.session@ == header_or(parts, "x-geist-session-id"@, "-"@),
        info.operation@ == header_or(parts, "x-geist-operation"@, "-"@),
        info.content_type@ == header_or(parts, "content-type"@, "-"@),
        info.user_agent@ == header_or(parts, "user-agent"@, "-"@),
        info.accept@ == header_or(parts, "accept"@, "-"@),
{
}

} // verus!
