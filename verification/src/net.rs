//! URL policy: which URLs the launcher may fetch from.

use vstd::prelude::*;

use crate::text::{
    chars_of, decimal_value, is_digit, split_chars, split_on, str_equal,
};

verus! {

/// The parts of a parsed URL that the policy reads.
pub struct UrlParts {
    pub scheme: String,
    pub host: Option<String>,
}

pub open spec fn text_view(o: Option<String>) -> Option<Seq<char>> {
    match o {
        Some(s) => Some(s@),
        None => None,
    }
}

pub open spec fn url_parse_view(r: Result<UrlParts, String>) -> Result<(Seq<char>, Option<Seq<char>>), Seq<char>> {
    match r {
        Ok(p) => Ok((p.scheme@, text_view(p.host))),
        Err(e) => Err(e@),
    }
}

/// What `url::Url::parse` makes of a text: the scheme and the host text of the
/// URL, or the message of the parse error.
pub uninterp spec fn url_parse_result(text: Seq<char>) -> Result<(Seq<char>, Option<Seq<char>>), Seq<char>>;

/// Calls `url::Url::parse` (re-exported by `reqwest`) and keeps the scheme,
/// the host text and, on failure, the error's message. The contract claims that
/// the outcome is a function of the text alone, and, as the crate documents for
/// `host_str`, that a host holding `:` is an IPv6 address written between `[`
/// and `]`.
#[verifier::external_body]
pub(crate) fn parse_url(text: &str) -> (r: Result<UrlParts, String>)
    ensures
        url_parse_view(r) == url_parse_result(text@),
        r matches Ok(p) ==> (p.host matches Some(h) ==> (h@.contains(':') ==> h@.len() > 0
            && h@[0] == '[')),
{
    match reqwest::Url::parse(text) {
        Ok(url) => Ok(UrlParts { scheme: url.scheme().to_owned(), host: url.host_str().map(str::to_owned) }),
        Err(error) => Err(error.to_string()),
    }
}

/// One dotted-decimal IPv4 octet as `std` reads it: one to three digits,
/// no leading zero unless it is `0` itself, and a value of at most 255.
pub open spec fn octet_ok(p: Seq<char>) -> bool {
    &&& 1 <= p.len() <= 3
    &&& forall|i: int| 0 <= i < p.len() ==> is_digit(p[i])
    &&& (p.len() == 1 || p[0] != '0')
    &&& decimal_value(p) <= 255
}

/// Whether a host text is an IPv4 address in `127.0.0.0/8`, the loopback
/// network. A host holding no `:` never reads as an IPv6 address.
pub open spec fn ipv4_loopback(h: Seq<char>) -> bool {
    let parts = split_on(h, '.');
    &&& parts.len() == 4
    &&& forall|i: int| 0 <= i < 4 ==> octet_ok(#[trigger] parts[i])
    &&& decimal_value(parts[0]) == 127
}

/// Whether a host may be fetched from over plain HTTP.
pub open spec fn loopback_host(h: Seq<char>) -> bool {
    h == "localhost"@ || ipv4_loopback(h)
}

/// The download policy: HTTPS anywhere, or plain HTTP to a loopback host.
pub open spec fn url_allowed(text: Seq<char>) -> bool {
    match url_parse_result(text) {
        Ok((scheme, host)) => scheme == "https"@ || (scheme == "http"@ && match host {
            Some(h) => loopback_host(h),
            None => false,
        }),
        Err(_) => false,
    }
}

proof fn lemma_decimal_small(p: Seq<char>)
    requires
        p.len() <= 3,
        forall|i: int| 0 <= i < p.len() ==> is_digit(p[i]),
    ensures
        p.len() == 0 ==> decimal_value(p) == 0,
        p.len() <= 1 ==> decimal_value(p) <= 9,
        p.len() <= 2 ==> decimal_value(p) <= 99,
        decimal_value(p) <= 999,
    decreases p.len(),
{
    if p.len() > 0 {
        lemma_decimal_small(p.drop_last());
        assert(is_digit(p.last()));
    }
}

/// The value of an octet, when it is well formed.
fn octet_value(p: &Vec<char>) -> (r: Option<u32>)
    ensures
        r matches Some(v) ==> octet_ok(p@) && v == decimal_value(p@),
        r is None ==> !octet_ok(p@),
{
    if p.len() < 1 || p.len() > 3 {
        return None;
    }
    if p.len() > 1 && p[0] == '0' {
        return None;
    }
    let mut v: u32 = 0;
    let mut i: usize = 0;
    while i < p.len()
        invariant
            1 <= p.len() <= 3,
            i <= p.len(),
            forall|k: int| 0 <= k < i ==> is_digit(p@[k]),
            v == decimal_value(p@.take(i as int)),
            v <= 999,
        decreases p.len() - i,
    {
        let c = p[i];
        if !('0' <= c && c <= '9') {
            return None;
        }
        assert(p@.take(i + 1).drop_last() =~= p@.take(i as int));
        proof {
            lemma_decimal_small(p@.take(i + 1));
        }
        v = v * 10 + ((c as u32) - ('0' as u32));
        i += 1;
    }
    assert(p@.take(p.len() as int) =~= p@);
    if v > 255 {
        None
    } else {
        Some(v)
    }
}

/// Whether a host text is an IPv4 loopback address.
pub fn is_ipv4_loopback(host: &str) -> (r: bool)
    ensures
        r == ipv4_loopback(host@),
{
    let h = chars_of(host);
    let parts = split_chars(&h, '.');
    if parts.len() != 4 {
        return false;
    }
    let a = octet_value(&parts[0]);
    let b = octet_value(&parts[1]);
    let c = octet_value(&parts[2]);
    let d = octet_value(&parts[3]);
    let ghost ps = split_on(host@, '.');
    assert(parts@[0]@ == ps[0]);
    assert(parts@[1]@ == ps[1]);
    assert(parts@[2]@ == ps[2]);
    assert(parts@[3]@ == ps[3]);
    match (a, b, c, d) {
        (Some(a), Some(_), Some(_), Some(_)) => {
            assert forall|i: int| 0 <= i < 4 implies octet_ok(#[trigger] ps[i]) by {
                if i == 0 {} else if i == 1 {} else if i == 2 {} else {}
            }
            a == 127
        },
        _ => false,
    }
}

/// Whether a URL text may be downloaded from: HTTPS, or HTTP to `localhost`
/// or a loopback IPv4 address.
pub fn allowed_url(url: &str) -> (r: bool)
    ensures
        r == url_allowed(url@),
{
    match parse_url(url) {
        Ok(parts) => {
            if str_equal(parts.scheme.as_str(), "https") {
                return true;
            }
            if !str_equal(parts.scheme.as_str(), "http") {
                return false;
            }
            match &parts.host {
                Some(h) => str_equal(h.as_str(), "localhost") || is_ipv4_loopback(h.as_str()),
                None => false,
            }
        },
        Err(_) => false,
    }
}

} // verus!
