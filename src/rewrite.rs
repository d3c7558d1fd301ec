//! Rewriting an inbound request head for the upstream target.
use vstd::prelude::*;
use vstd::utf8::encode_utf8;

use crate::error::ProxyError;

verus! {

/// One header line: its field name and its raw value bytes.
#[derive(Clone, Debug, PartialEq, Eq)]
pub struct Header {
    pub name: String,
    pub value: Vec<u8>,
}

/// A header as text name and value bytes.
pub type HeaderView = (Seq<char>, Seq<u8>);

impl View for Header {
    type V = HeaderView;

    open spec fn view(&self) -> HeaderView {
        (self.name@, self.value@)
    }
}

pub open spec fn headers_view(hs: Seq<Header>) -> Seq<HeaderView> {
    hs.map_values(|h: Header| h@)
}

/// The parts of an inbound request that the proxy reads; the body travels
/// beside it untouched.
#[derive(Clone, Debug, PartialEq, Eq)]
pub struct RequestHead {
    pub method: String,
    pub path_and_query: String,
    pub headers: Vec<Header>,
}

/// Scheme and authority of the upstream every request is sent to.
#[derive(Clone, Debug, PartialEq, Eq)]
pub struct TargetBase {
    pub scheme: String,
    pub authority: String,
}

impl View for TargetBase {
    type V = (Seq<char>, Seq<char>);

    open spec fn view(&self) -> (Seq<char>, Seq<char>) {
        (self.scheme@, self.authority@)
    }
}

/// The request head as it goes to the upstream.
#[derive(Clone, Debug, PartialEq, Eq)]
pub struct OutboundHead {
    pub method: String,
    pub scheme: String,
    pub authority: String,
    pub path_and_query: String,
    pub headers: Vec<Header>,
}

pub struct OutboundView {
    pub method: Seq<char>,
    pub scheme: Seq<char>,
    pub authority: Seq<char>,
    pub path_and_query: Seq<char>,
    pub headers: Seq<HeaderView>,
}

impl View for OutboundHead {
    type V = OutboundView;

    open spec fn view(&self) -> OutboundView {
        OutboundView {
            method: self.method@,
            scheme: self.scheme@,
            authority: self.authority@,
            path_and_query: self.path_and_query@,
            headers: headers_view(self.headers@),
        }
    }
}

/// `name` equals the lower-case `lower`, ignoring ASCII case.
pub open spec fn name_matches(name: Seq<char>, lower: Seq<char>) -> bool {
    &&& name.len() == lower.len()
    &&& forall|i: int|
        0 <= i < name.len() ==> #[trigger] name[i] == lower[i] || ('a' <= lower[i] <= 'z'
            && name[i] as u32 + 32 == lower[i] as u32)
}

/// Headers the proxy drops from the inbound request: `Host`, which names the
/// proxy rather than the upstream, and any `Authorization` it replaces.
pub open spec fn is_replaced(name: Seq<char>) -> bool {
    name_matches(name, "host"@) || name_matches(name, "authorization"@)
}

/// The inbound headers that go upstream unchanged, in their order.
pub open spec fn forwarded_headers(hs: Seq<HeaderView>) -> Seq<HeaderView>
    decreases hs.len(),
{
    if hs.len() == 0 {
        Seq::empty()
    } else {
        let kept = forwarded_headers(hs.drop_last());
        if is_replaced(hs.last().0) {
            kept
        } else {
            kept.push(hs.last())
        }
    }
}

/// The text of the `Authorization` header for `token`.
pub open spec fn bearer_text(token: Seq<char>) -> Seq<char> {
    "Bearer "@ + token
}

/// A byte that `http` accepts in a header value.
pub open spec fn header_byte_ok(b: u8) -> bool {
    (b >= 32 && b != 127) || b == 9
}

pub open spec fn header_bytes_ok(bytes: Seq<u8>) -> bool {
    forall|i: int| 0 <= i < bytes.len() ==> header_byte_ok(#[trigger] bytes[i])
}

/// Whether `token` can be sent as a bearer credential in a header value.
pub open spec fn token_encodable(token: Seq<char>) -> bool {
    header_bytes_ok(encode_utf8(bearer_text(token)))
}

/// The outbound head for `inbound`, sent to `target` with `token`.
pub open spec fn rewritten(inbound: RequestHead, target: (Seq<char>, Seq<char>), token: Seq<char>) -> OutboundView {
    OutboundView {
        method: inbound.method@,
        scheme: target.0,
        authority: target.1,
        path_and_query: inbound.path_and_query@,
        headers: forwarded_headers(headers_view(inbound.headers@)).push(
            ("authorization"@, encode_utf8(bearer_text(token))),
        ),
    }
}

/// What `http` makes of a URI: `None` if it refuses the text, otherwise its
/// scheme and authority where present.
pub uninterp spec fn uri_scheme_authority(s: Seq<char>) -> Option<(Option<Seq<char>>, Option<Seq<char>>)>;

pub open spec fn parts_view(p: Option<(Option<String>, Option<String>)>) -> Option<(Option<Seq<char>>, Option<Seq<char>>)> {
    match p {
        Some((s, a)) => Some((
            match s { Some(x) => Some(x@), None => None },
            match a { Some(x) => Some(x@), None => None },
        )),
        None => None,
    }
}

/// The upstream target described by parsed URI parts, if both scheme and
/// authority are present.
pub open spec fn target_of(p: Option<(Option<Seq<char>>, Option<Seq<char>>)>) -> Option<(Seq<char>, Seq<char>)> {
    match p {
        Some((Some(s), Some(a))) => Some((s, a)),
        _ => None,
    }
}

/// Relies on `http::Uri`'s `FromStr` and its `scheme_str` / `authority`
/// accessors: the parse depends on the text alone.
#[verifier::external_body]
fn parse_uri(s: &str) -> (r: Option<(Option<String>, Option<String>)>)
    ensures
        parts_view(r) == uri_scheme_authority(s@),
{
    match s.parse::<http::Uri>() {
        Ok(u) => Some((u.scheme_str().map(String::from), u.authority().map(|a| a.as_str().to_string()))),
        Err(_) => None,
    }
}

/// Relies on `http::HeaderValue::from_str`, which accepts a string exactly
/// when each of its bytes is a tab, or at least 32 and not 127.
#[verifier::external_body]
fn header_value_accepted(s: &str) -> (r: bool)
    ensures
        r == header_bytes_ok(encode_utf8(s@)),
{
    http::HeaderValue::from_str(s).is_ok()
}

/// The target from already parsed URI parts: scheme and authority must both
/// be there.
pub fn target_from_parts(parts: Option<(Option<String>, Option<String>)>) -> (r: Result<TargetBase, ProxyError>)
    ensures
        target_of(parts_view(parts)) is None ==> r == Err::<TargetBase, ProxyError>(ProxyError::InvalidTargetUrl),
        target_of(parts_view(parts)) is Some ==> r is Ok && r->Ok_0@ == target_of(parts_view(parts))->Some_0,
{
    match parts {
        Some((Some(scheme), Some(authority))) => Ok(TargetBase { scheme, authority }),
        _ => Err(ProxyError::InvalidTargetUrl),
    }
}

/// Parses the configured target URL into the scheme and authority requests
/// are sent to.
pub fn parse_target(url: &str) -> (r: Result<TargetBase, ProxyError>)
    ensures
        target_of(uri_scheme_authority(url@)) is None ==> r == Err::<TargetBase, ProxyError>(ProxyError::InvalidTargetUrl),
        target_of(uri_scheme_authority(url@)) is Some ==> r is Ok && r->Ok_0@ == target_of(uri_scheme_authority(url@))->Some_0,
{
    target_from_parts(parse_uri(url))
}

/// Whether `name` is `lower` up to ASCII case; `lower` is lower-case.
fn same_name(name: &str, lower: &str) -> (r: bool)
    ensures
        r == name_matches(name@, lower@),
{
    let n: usize = name.unicode_len();
    if n != lower.unicode_len() {
        return false;
    }
    let mut i: usize = 0;
    while i < n
        invariant
            n == name@.len(),
            n == lower@.len(),
            i <= n,
            forall|j: int|
                0 <= j < i ==> #[trigger] name@[j] == lower@[j] || ('a' <= lower@[j] <= 'z'
                    && name@[j] as u32 + 32 == lower@[j] as u32),
        decreases n - i,
    {
        let c = name.get_char(i);
        let l = lower.get_char(i);
        if !(c == l || ('a' <= l && l <= 'z' && (c as u32) + 32 == l as u32)) {
            return false;
        }
        i = i + 1;
    }
    true
}

/// Whether a header of this name is dropped on the way upstream.
pub fn replaced_header(name: &String) -> (r: bool)
    ensures
        r == is_replaced(name@),
{
    same_name(name.as_str(), "host") || same_name(name.as_str(), "authorization")
}

/// The value bytes of the `Authorization` header carrying `token`, or
/// `HeaderEncodingError` if a header value cannot hold them.
pub fn bearer_value(token: &String) -> (r: Result<Vec<u8>, ProxyError>)
    ensures
        token_encodable(token@) ==> r is Ok && r->Ok_0@ == encode_utf8(bearer_text(token@)),
        !token_encodable(token@) ==> r == Err::<Vec<u8>, ProxyError>(ProxyError::HeaderEncodingError),
{
    let mut text = String::from_str("Bearer ");
    text.append(token.as_str());
    if header_value_accepted(text.as_str()) {
        Ok(text.as_str().as_bytes_vec())
    } else {
        Err(ProxyError::HeaderEncodingError)
    }
}

/// The inbound headers minus `Host` and `Authorization`, in their order.
pub fn forward_headers(headers: Vec<Header>) -> (r: Vec<Header>)
    ensures
        headers_view(r@) == forwarded_headers(headers_view(headers@)),
{
    let ghost all = headers_view(headers@);
    let ghost n = headers@.len();
    let mut rest = headers;
    let mut kept: Vec<Header> = Vec::new();
    while rest.len() > 0
        invariant
            n == all.len(),
            all == headers_view(headers@),
            rest@.len() <= n,
            headers_view(rest@) == all.subrange(n - rest@.len(), n as int),
            headers_view(kept@) == forwarded_headers(all.subrange(0, n - rest@.len())),
        decreases rest@.len(),
    {
        let ghost k = n - rest@.len();
        let ghost before = rest@;
        let h = rest.remove(0);
        assert(headers_view(before)[0] == all[k]);
        assert(h@ == all[k]);
        assert(rest@ =~= before.subrange(1, before.len() as int));
        assert forall|i: int| 0 <= i < rest@.len() implies headers_view(rest@)[i] == all[k + 1 + i] by {
            assert(headers_view(before)[i + 1] == all[k + 1 + i]);
        }
        assert(headers_view(rest@) =~= all.subrange(k + 1, n as int));
        let ghost prefix = all.subrange(0, k + 1);
        assert(prefix.drop_last() =~= all.subrange(0, k));
        assert(prefix.last() == all[k]);
        if !replaced_header(&h.name) {
            kept.push(h);
            assert(headers_view(kept@) =~= forwarded_headers(all.subrange(0, k)).push(all[k]));
        }
    }
    assert(all.subrange(0, n as int) =~= all);
    kept
}

/// The outbound head: `inbound` sent to `target`'s scheme and authority with
/// its method, path and query kept, `Host` removed and `Authorization` set to
/// the bearer `token`.
pub fn rewrite(inbound: RequestHead, target: &TargetBase, token: &String) -> (r: Result<OutboundHead, ProxyError>)
    ensures
        token_encodable(token@) ==> r is Ok && r->Ok_0@ == rewritten(inbound, target@, token@),
        !token_encodable(token@) ==> r == Err::<OutboundHead, ProxyError>(ProxyError::HeaderEncodingError),
{
    let value = match bearer_value(token) {
        Ok(v) => v,
        Err(e) => return Err(e),
    };
    let RequestHead { method, path_and_query, headers } = inbound;
    let ghost inbound_headers = headers_view(headers@);
    let mut out = forward_headers(headers);
    let ghost kept = out@;
    out.push(Header { name: String::from_str("authorization"), value });
    assert(headers_view(out@) =~= headers_view(kept).push(("authorization"@, encode_utf8(bearer_text(token@)))));
    Ok(OutboundHead {
        method,
        scheme: target.scheme.clone(),
        authority: target.authority.clone(),
        path_and_query,
        headers: out,
    })
}

} // verus!
