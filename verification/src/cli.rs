//! The command-line client's logic: the URL it asks and how it reports the
//! answer of the edge pipeline.
//!
//! Sending the request and printing are the application's part.
use vstd::prelude::*;

use crate::text::{decimal, push_char, push_decimal, push_str, to_chars};

verus! {

/// How the pipeline answered a check.
#[derive(Debug, Clone, Copy, PartialEq, Eq, Structural)]
pub enum Verdict {
    /// 200: the operation is allowed.
    Allow,
    /// 403: the operation is denied.
    Deny,
    /// Any other status.
    Error,
}

/// The verdict a status code carries.
pub open spec fn verdict_of(status: u16) -> Verdict {
    if status == 200 {
        Verdict::Allow
    } else if status == 403 {
        Verdict::Deny
    } else {
        Verdict::Error
    }
}

/// Classify the status of the pipeline's answer.
pub fn verdict(status: u16) -> (r: Verdict)
    ensures
        r == verdict_of(status),
{
    if status == 200 {
        Verdict::Allow
    } else if status == 403 {
        Verdict::Deny
    } else {
        Verdict::Error
    }
}

/// `s` without its trailing `c` characters.
pub open spec fn trim_end_char(s: Seq<char>, c: char) -> Seq<char>
    decreases s.len(),
{
    if s.len() > 0 && s.last() == c {
        trim_end_char(s.drop_last(), c)
    } else {
        s
    }
}

/// The URL a check asks: the server URL without trailing slashes, then the
/// request path.
pub open spec fn check_url_text(server: Seq<char>, path: Seq<char>) -> Seq<char> {
    trim_end_char(server, '/') + path
}

proof fn lemma_trim_prefix(s: Seq<char>, c: char, n: int)
    requires
        0 <= n <= s.len(),
        forall|i: int| n <= i < s.len() ==> s[i] == c,
        n == 0 || s[n - 1] != c,
    ensures
        trim_end_char(s, c) == s.take(n),
    decreases s.len(),
{
    if s.len() > 0 && s.last() == c {
        assert(n < s.len());
        assert(s.drop_last().take(n) =~= s.take(n));
        lemma_trim_prefix(s.drop_last(), c, n);
    } else {
        assert(n == s.len());
        assert(s.take(n) =~= s);
    }
}

/// Build the URL a check asks (`server.trim_end_matches('/')` followed by `path`).
pub fn check_url(server: &str, path: &str) -> (r: String)
    ensures
        r@ == check_url_text(server@, path@),
{
    let chars = to_chars(server);
    let mut n: usize = chars.len();
    while n > 0 && chars[n - 1] == '/'
        invariant
            0 <= n <= chars@.len(),
            chars@ == server@,
            forall|i: int| n <= i < chars@.len() ==> chars@[i] == '/',
        decreases n,
    {
        n = n - 1;
    }
    proof {
        lemma_trim_prefix(server@, '/', n as int);
    }
    let mut r = String::new();
    let mut i: usize = 0;
    while i < n
        invariant
            0 <= i <= n <= chars@.len(),
            chars@ == server@,
            r@ == server@.take(i as int),
        decreases n - i,
    {
        push_char(&mut r, chars[i]);
        i = i + 1;
        assert(r@ =~= server@.take(i as int));
    }
    push_str(&mut r, path);
    r
}

/// The text of `str::trim` applied to a text: without leading and trailing
/// whitespace.
pub uninterp spec fn trimmed(s: Seq<char>) -> Seq<char>;

/// Calls `str::trim`.
#[verifier::external_body]
fn trim(s: &str) -> (r: &str)
    ensures
        r@ == trimmed(s@),
{
    s.trim()
}

/// The label printed for a verdict, with its terminal colour codes.
pub open spec fn verdict_label(v: Verdict) -> Seq<char> {
    match v {
        Verdict::Allow => "\x1b[32mALLOW\x1b[0m"@,
        Verdict::Deny => "\x1b[31mDENY\x1b[0m"@,
        Verdict::Error => "\x1b[33mERROR\x1b[0m"@,
    }
}

/// The line reporting an answer: `<label> (<status>): <trimmed body>`.
pub open spec fn report_line_text(status: u16, body: Seq<char>) -> Seq<char> {
    verdict_label(verdict_of(status)) + " ("@ + decimal(status as nat) + "): "@ + trimmed(body)
}

/// The line reporting the pipeline's answer to a check.
pub fn report_line(status: u16, body: &str) -> (r: String)
    ensures
        r@ == report_line_text(status, body@),
{
    let mut r = match verdict(status) {
        Verdict::Allow => String::from_str("\x1b[32mALLOW\x1b[0m"),
        Verdict::Deny => String::from_str("\x1b[31mDENY\x1b[0m"),
        Verdict::Error => String::from_str("\x1b[33mERROR\x1b[0m"),
    };
    push_str(&mut r, " (");
    push_decimal(&mut r, status as u64);
    push_str(&mut r, "): ");
    push_str(&mut r, trim(body));
    r
}

/// The line reporting a failed request: a red ERROR label and the failure.
pub fn failure_line(error: &str) -> (r: String)
    ensures
        r@ == "\x1b[31mERROR\x1b[0m: "@ + error@,
{
    let mut r = String::from_str("\x1b[31mERROR\x1b[0m: ");
    push_str(&mut r, error);
    r
}

/// 200 is an allow, 403 a denial, every other status an error.
pub proof fn law_verdict_by_status(status: u16)
    ensures
        (verdict_of(status) == Verdict::Allow) <==> status == 200,
        (verdict_of(status) == Verdict::Deny) <==> status == 403,
        (verdict_of(status) == Verdict::Error) <==> (status != 200 && status != 403),
{
}

/// Trimming the trailing slashes of a server URL keeps a prefix of it that
/// does not end in a slash, and removes only slashes.
pub proof fn law_trim_removes_only_trailing_slashes(s: Seq<char>)
    ensures
        trim_end_char(s, '/').len() <= s.len(),
        s.subrange(0, trim_end_char(s, '/').len() as int) == trim_end_char(s, '/'),
        forall|i: int| trim_end_char(s, '/').len() <= i < s.len() ==> s[i] == '/',
        trim_end_char(s, '/').len() == 0 || trim_end_char(s, '/').last() != '/',
    decreases s.len(),
{
    if s.len() > 0 && s.last() == '/' {
        law_trim_removes_only_trailing_slashes(s.drop_last());
        let t = trim_end_char(s, '/');
        assert(s.drop_last().subrange(0, t.len() as int) =~= s.subrange(0, t.len() as int));
        assert forall|i: int| t.len() <= i < s.len() implies s[i] == '/' by {
            if i < s.len() - 1 {
                assert(s.drop_last()[i] == s[i]);
            }
        }
    } else {
        assert(s.subrange(0, s.len() as int) =~= s);
    }
}

} // verus!
