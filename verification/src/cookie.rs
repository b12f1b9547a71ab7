//! The session binder: validates a credential's token as a cookie pair and
//! the configured endpoint as an origin URL, and produces the binding that
//! installs the token into the shared HTTP client's cookie store.

use vstd::prelude::*;

use crate::error::ClewdrError;

verus! {

/// A character allowed in a cookie name: a printable ASCII character that is
/// neither a separator nor `=`.
pub open spec fn is_cookie_name_char(c: char) -> bool {
    let n = c as u32;
    &&& 0x21 <= n && n <= 0x7e
    &&& n != 0x22 && n != 0x28 && n != 0x29 && n != 0x2c && n != 0x2f
    &&& n != 0x3a && n != 0x3b && n != 0x3c && n != 0x3d && n != 0x3e
    &&& n != 0x3f && n != 0x40 && n != 0x5b && n != 0x5c && n != 0x5d
    &&& n != 0x7b && n != 0x7d
}

/// A character allowed in a cookie value: a printable ASCII character that is
/// not whitespace, a double quote, a comma, a semicolon or a backslash.
pub open spec fn is_cookie_value_char(c: char) -> bool {
    let n = c as u32;
    ||| n == 0x21
    ||| 0x23 <= n && n <= 0x2b
    ||| 0x2d <= n && n <= 0x3a
    ||| 0x3c <= n && n <= 0x5b
    ||| 0x5d <= n && n <= 0x7e
}

/// A syntactically valid cookie pair: a non-empty name of name characters,
/// one `=`, then a (possibly empty) value of value characters.
///
/// Since `=` is not a name character, the split position is exactly the
/// first `=` of the string.
pub open spec fn wf_cookie_pair(s: Seq<char>) -> bool {
    exists|i: int|
        {
            &&& 0 < i < s.len()
            &&& #[trigger] s[i] == '='
            &&& forall|j: int| 0 <= j < i ==> is_cookie_name_char(#[trigger] s[j])
            &&& forall|j: int| i < j < s.len() ==> is_cookie_value_char(#[trigger] s[j])
        }
}

/// `http://` at the start of the string.
pub open spec fn has_http_prefix(s: Seq<char>) -> bool {
    &&& s.len() >= 7
    &&& s[0] == 'h' && s[1] == 't' && s[2] == 't' && s[3] == 'p'
    &&& s[4] == ':' && s[5] == '/' && s[6] == '/'
}

/// `https://` at the start of the string.
pub open spec fn has_https_prefix(s: Seq<char>) -> bool {
    &&& s.len() >= 8
    &&& s[0] == 'h' && s[1] == 't' && s[2] == 't' && s[3] == 'p'
    &&& s[4] == 's' && s[5] == ':' && s[6] == '/' && s[7] == '/'
}

/// Length of the scheme prefix of the string (the two prefixes are mutually
/// exclusive, since they differ at index 4).
pub open spec fn scheme_len_of(s: Seq<char>) -> int {
    if has_https_prefix(s) {
        8
    } else {
        7
    }
}

/// A character that may start the host part: an ASCII letter or digit.
pub open spec fn is_host_start_char(c: char) -> bool {
    let n = c as u32;
    ||| 0x30 <= n && n <= 0x39
    ||| 0x41 <= n && n <= 0x5a
    ||| 0x61 <= n && n <= 0x7a
}

/// A character allowed after the scheme of an endpoint URL: an ASCII letter
/// or digit, or one of `. - : / _ ~ %`.
pub open spec fn is_endpoint_char(c: char) -> bool {
    let n = c as u32;
    ||| is_host_start_char(c)
    ||| n == 0x2e
    ||| n == 0x2d
    ||| n == 0x3a
    ||| n == 0x2f
    ||| n == 0x5f
    ||| n == 0x7e
    ||| n == 0x25
}

/// A well-formed origin endpoint: an `http://` or `https://` scheme, then a
/// non-empty remainder that starts with a letter or digit and consists of
/// endpoint characters.
pub open spec fn wf_endpoint(s: Seq<char>) -> bool {
    &&& has_http_prefix(s) || has_https_prefix(s)
    &&& s.len() > scheme_len_of(s)
    &&& is_host_start_char(s[scheme_len_of(s)])
    &&& forall|j: int| scheme_len_of(s) <= j < s.len() ==> is_endpoint_char(#[trigger] s[j])
}

/// The error the session binder reports for a given endpoint and token, if
/// any: a malformed endpoint is reported before a malformed token.
pub open spec fn binding_error(endpoint: Seq<char>, token: Seq<char>) -> Option<ClewdrError> {
    if !wf_endpoint(endpoint) {
        Some(ClewdrError::UrlParseFailed)
    } else if !wf_cookie_pair(token) {
        Some(ClewdrError::CookieParseFailed)
    } else {
        None
    }
}

/// The instruction the session binder hands to the shared HTTP client:
/// install `cookie` into the client's cookie store, scoped to `origin`.
/// All requests the client later issues to that origin carry the token.
#[derive(Debug)]
pub struct CookieBinding {
    /// The origin the cookie is scoped to: the configured endpoint.
    pub origin: String,
    /// The cookie pair to install, exactly the credential's token.
    pub cookie: String,
}

fn cookie_name_char(c: char) -> (r: bool)
    ensures
        r == is_cookie_name_char(c),
{
    let n = c as u32;
    0x21 <= n && n <= 0x7e && n != 0x22 && n != 0x28 && n != 0x29 && n != 0x2c && n != 0x2f
        && n != 0x3a && n != 0x3b && n != 0x3c && n != 0x3d && n != 0x3e && n != 0x3f
        && n != 0x40 && n != 0x5b && n != 0x5c && n != 0x5d && n != 0x7b && n != 0x7d
}

fn cookie_value_char(c: char) -> (r: bool)
    ensures
        r == is_cookie_value_char(c),
{
    let n = c as u32;
    n == 0x21 || (0x23 <= n && n <= 0x2b) || (0x2d <= n && n <= 0x3a)
        || (0x3c <= n && n <= 0x5b) || (0x5d <= n && n <= 0x7e)
}

fn host_start_char(c: char) -> (r: bool)
    ensures
        r == is_host_start_char(c),
{
    let n = c as u32;
    (0x30 <= n && n <= 0x39) || (0x41 <= n && n <= 0x5a) || (0x61 <= n && n <= 0x7a)
}

fn endpoint_char(c: char) -> (r: bool)
    ensures
        r == is_endpoint_char(c),
{
    let n = c as u32;
    host_start_char(c) || n == 0x2e || n == 0x2d || n == 0x3a || n == 0x2f || n == 0x5f
        || n == 0x7e || n == 0x25
}

/// Decides [`wf_cookie_pair`] for a token string.
pub fn check_cookie_pair(s: &str) -> (r: bool)
    ensures
        r == wf_cookie_pair(s@),
{
    let n = s.unicode_len();
    let mut i: usize = 0;
    while i < n
        invariant
            n == s@.len(),
            i <= n,
            forall|j: int| 0 <= j < i ==> is_cookie_name_char(#[trigger] s@[j]) && s@[j] != '=',
        decreases n - i,
    {
        let c = s.get_char(i);
        if c == '=' {
            if i == 0 {
                return false;
            }
            let mut k: usize = i + 1;
            while k < n
                invariant
                    n == s@.len(),
                    0 < i < n,
                    s@[i as int] == '=',
                    i < k <= n,
                    forall|j: int| 0 <= j < i ==> is_cookie_name_char(#[trigger] s@[j]) && s@[j] != '=',
                    forall|j: int| i < j < k ==> is_cookie_value_char(#[trigger] s@[j]),
                decreases n - k,
            {
                if !cookie_value_char(s.get_char(k)) {
                    return false;
                }
                k += 1;
            }
            return true;
        }
        if !cookie_name_char(c) {
            return false;
        }
        i += 1;
    }
    false
}

/// Decides [`wf_endpoint`] for an endpoint string.
pub fn check_endpoint(s: &str) -> (r: bool)
    ensures
        r == wf_endpoint(s@),
{
    let n = s.unicode_len();
    if n < 8 {
        return false;
    }
    if !(s.get_char(0) == 'h' && s.get_char(1) == 't' && s.get_char(2) == 't'
        && s.get_char(3) == 'p') {
        return false;
    }
    let scheme_end: usize = if s.get_char(4) == 's' {
        if !(n >= 9 && s.get_char(5) == ':' && s.get_char(6) == '/' && s.get_char(7) == '/') {
            return false;
        }
        8
    } else {
        if !(s.get_char(4) == ':' && s.get_char(5) == '/' && s.get_char(6) == '/') {
            return false;
        }
        7
    };
    if !host_start_char(s.get_char(scheme_end)) {
        return false;
    }
    let mut j: usize = scheme_end;
    while j < n
        invariant
            n == s@.len(),
            scheme_end <= j <= n,
            scheme_end == scheme_len_of(s@),
            wf_endpoint(s@) <==> (forall|t: int|
                scheme_end <= t < s@.len() ==> is_endpoint_char(#[trigger] s@[t])),
            forall|t: int| scheme_end <= t < j ==> is_endpoint_char(#[trigger] s@[t]),
        decreases n - j,
    {
        if !endpoint_char(s.get_char(j)) {
            return false;
        }
        j += 1;
    }
    true
}

} // verus!
