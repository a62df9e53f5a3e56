use vstd::prelude::*;

use crate::endpoint::Endpoint;
use crate::endpoint::EndpointView;
use crate::errors::ChannelError;

verus! {

/// The mathematical value of a [`Header`].
pub ghost struct HeaderView {
    pub name: Seq<char>,
    pub value: Seq<char>,
}

/// One HTTP header of a request, as a plain name/value pair.
#[derive(Debug)]
pub struct Header {
    pub name: String,
    pub value: String,
}

impl View for Header {
    type V = HeaderView;

    open spec fn view(&self) -> HeaderView {
        HeaderView { name: self.name@, value: self.value@ }
    }
}

impl Clone for Header {
    fn clone(&self) -> (res: Self)
        ensures
            res == *self,
    {
        Header { name: self.name.clone(), value: self.value.clone() }
    }
}

/// The mathematical value of a [`RequestUri`].
pub ghost struct RequestUriView {
    pub scheme: Option<Seq<char>>,
    pub authority: Option<Seq<char>>,
    pub path_and_query: Option<Seq<char>>,
}

/// The URI of an inbound request as an RPC stub produced it. A generic stub
/// does not know the real endpoint, so scheme and authority may be arbitrary
/// placeholders, and any component may be missing.
#[derive(Debug)]
pub struct RequestUri {
    pub scheme: Option<String>,
    pub authority: Option<String>,
    pub path_and_query: Option<String>,
}

impl View for RequestUri {
    type V = RequestUriView;

    open spec fn view(&self) -> RequestUriView {
        RequestUriView {
            scheme: match self.scheme {
                Option::Some(s) => Option::Some(s@),
                Option::None => Option::None,
            },
            authority: match self.authority {
                Option::Some(a) => Option::Some(a@),
                Option::None => Option::None,
            },
            path_and_query: match self.path_and_query {
                Option::Some(p) => Option::Some(p@),
                Option::None => Option::None,
            },
        }
    }
}

/// The mathematical value of a [`TargetUri`].
pub ghost struct TargetUriView {
    pub scheme: Seq<char>,
    pub host: Seq<char>,
    pub port: u32,
    pub path_and_query: Seq<char>,
}

/// The URI of a rewritten outbound request: every component is present, the
/// destination is a concrete endpoint, and path and query are carried over
/// from the inbound request unchanged.
#[derive(Debug)]
pub struct TargetUri {
    pub scheme: String,
    pub host: String,
    pub port: u32,
    pub path_and_query: String,
}

impl View for TargetUri {
    type V = TargetUriView;

    open spec fn view(&self) -> TargetUriView {
        TargetUriView {
            scheme: self.scheme@,
            host: self.host@,
            port: self.port,
            path_and_query: self.path_and_query@,
        }
    }
}

impl TargetUri {
    /// This target's `host:port` authority.
    pub fn authority(&self) -> (r: String)
        ensures
            r@ == crate::endpoint::authority_of(self@.host, self@.port),
    {
        crate::endpoint::authority_string(&self.host, self.port)
    }
}

/// The fixed, case-sensitive name of the header that carries the bearer
/// token.
pub open spec fn auth_header_name() -> Seq<char> {
    "protocol-auth"@
}

/// The authentication header's name, as a string.
pub fn auth_header_name_string() -> (r: String)
    ensures
        r@ == auth_header_name(),
{
    "protocol-auth".to_owned()
}

/// The views of a sequence of headers.
pub open spec fn header_views(hs: Seq<Header>) -> Seq<HeaderView> {
    hs.map_values(|h: Header| h@)
}

/// The headers that remain once every `protocol-auth` entry is removed,
/// in their original order.
pub open spec fn without_auth(hs: Seq<HeaderView>) -> Seq<HeaderView>
    decreases hs.len(),
{
    if hs.len() == 0 {
        Seq::empty()
    } else if hs.last().name == auth_header_name() {
        without_auth(hs.drop_last())
    } else {
        without_auth(hs.drop_last()).push(hs.last())
    }
}

/// What header injection produces: with no token the headers pass through
/// untouched; with a token every prior `protocol-auth` entry is overwritten
/// by a single entry carrying the token.
pub open spec fn inject_auth_spec(hs: Seq<HeaderView>, token: Option<Seq<char>>) -> Seq<
    HeaderView,
> {
    match token {
        Option::None => hs,
        Option::Some(t) => without_auth(hs).push(
            HeaderView { name: auth_header_name(), value: t },
        ),
    }
}

/// The view of an optional token.
pub open spec fn token_view(t: Option<String>) -> Option<Seq<char>> {
    match t {
        Option::Some(s) => Option::Some(s@),
        Option::None => Option::None,
    }
}

/// Copy an optional token.
pub fn clone_token(t: &Option<String>) -> (r: Option<String>)
    ensures
        token_view(r) == token_view(*t),
{
    match t {
        Option::Some(s) => Option::Some(s.clone()),
        Option::None => Option::None,
    }
}

/// No header kept by [`without_auth`] is a `protocol-auth` header.
pub proof fn lemma_without_auth_has_no_auth(hs: Seq<HeaderView>)
    ensures
        forall|i: int|
            0 <= i < without_auth(hs).len() ==> #[trigger] without_auth(hs)[i].name
                != auth_header_name(),
    decreases hs.len(),
{
    if hs.len() > 0 {
        lemma_without_auth_has_no_auth(hs.drop_last());
        let pre = without_auth(hs.drop_last());
        if hs.last().name != auth_header_name() {
            assert forall|i: int| 0 <= i < without_auth(hs).len() implies #[trigger] without_auth(
                hs,
            )[i].name != auth_header_name() by {
                if i < pre.len() {
                    assert(without_auth(hs)[i] == pre[i]);
                } else {
                    assert(without_auth(hs)[i] == hs.last());
                }
            }
        }
    }
}

fn is_auth_header_name(name: &String) -> (b: bool)
    ensures
        b == (name@ == auth_header_name()),
{
    let fixed: String = "protocol-auth".to_owned();
    name.eq(&fixed)
}

/// Header injection, the executable side of [`inject_auth_spec`]: if a token
/// is set, remove every existing `protocol-auth` header and append one
/// carrying the token; if none is set, hand the headers back untouched.
pub fn apply_auth_header(headers: Vec<Header>, token: &Option<String>) -> (r: Vec<Header>)
    ensures
        header_views(r@) == inject_auth_spec(header_views(headers@), token_view(*token)),
{
    match token {
        Option::None => headers,
        Option::Some(t) => {
            let mut kept: Vec<Header> = Vec::new();
            let mut i: usize = 0;
            while i < headers.len()
                invariant
                    i <= headers@.len(),
                    header_views(kept@) == without_auth(header_views(headers@.take(i as int))),
                decreases headers@.len() - i,
            {
                let h = &headers[i];
                let ghost step = header_views(headers@.take(i as int)).push(headers@[i as int]@);
                proof {
                    assert(header_views(headers@.take(i as int + 1)) =~= step);
                    assert(step.drop_last() =~= header_views(headers@.take(i as int)));
                }
                let ghost kept_before = kept@;
                if !is_auth_header_name(&h.name) {
                    kept.push(h.clone());
                    proof {
                        assert(header_views(kept@) =~= header_views(kept_before).push(h@));
                    }
                }
                i = i + 1;
            }
            proof {
                assert(headers@.take(headers@.len() as int) =~= headers@);
            }
            let value = t.clone();
            let name: String = "protocol-auth".to_owned();
            kept.push(Header { name, value });
            proof {
                assert(header_views(kept@) =~= without_auth(header_views(headers@)).push(
                    HeaderView { name: auth_header_name(), value: t@ },
                ));
            }
            kept
        },
    }
}

/// Destination rewriting: replace the inbound URI's scheme and authority
/// with the base endpoint's, preserving the inbound path and query exactly.
/// An inbound request with no path-and-query component cannot be rebuilt and
/// fails this one call with `RequestRewriteError`.
pub fn rewrite_uri(base: &Endpoint, inbound: &RequestUri) -> (r: Result<TargetUri, ChannelError>)
    ensures
        r is Ok <==> inbound@.path_and_query is Some,
        inbound@.path_and_query matches Some(p) ==> (r matches Ok(t) && t@.scheme == base@.scheme
            && t@.host == base@.host && t@.port == base@.port && t@.path_and_query == p),
        inbound@.path_and_query is None ==> (r matches Err(e) && e
            == ChannelError::RequestRewriteError),
{
    match &inbound.path_and_query {
        Option::Some(p) => Ok(
            TargetUri {
                scheme: base.scheme.clone(),
                host: base.host.clone(),
                port: base.port,
                path_and_query: p.clone(),
            },
        ),
        Option::None => Err(ChannelError::RequestRewriteError),
    }
}

/// The mathematical value of an [`RpcRequest`].
pub ghost struct RpcRequestView {
    pub uri: RequestUriView,
    pub headers: Seq<HeaderView>,
}

/// An inbound request as an RPC stub hands it to the channel: the URI the
/// stub addressed (possibly a placeholder) and the request's headers.
#[derive(Debug)]
pub struct RpcRequest {
    pub uri: RequestUri,
    pub headers: Vec<Header>,
}

impl View for RpcRequest {
    type V = RpcRequestView;

    open spec fn view(&self) -> RpcRequestView {
        RpcRequestView { uri: self.uri@, headers: header_views(self.headers@) }
    }
}

/// The mathematical value of an [`OutboundRequest`].
pub ghost struct OutboundRequestView {
    pub uri: TargetUriView,
    pub headers: Seq<HeaderView>,
}

/// A request as the channel forwards it: destination rewritten onto the
/// base endpoint, headers carrying the bearer token when one is set.
#[derive(Debug)]
pub struct OutboundRequest {
    pub uri: TargetUri,
    pub headers: Vec<Header>,
}

impl View for OutboundRequest {
    type V = OutboundRequestView;

    open spec fn view(&self) -> OutboundRequestView {
        OutboundRequestView { uri: self.uri@, headers: header_views(self.headers@) }
    }
}

/// What the per-request interception produces, as a function of the base
/// endpoint, the token currently held, and the inbound request: either the
/// rewritten outbound request, or `RequestRewriteError` when the inbound
/// URI has no path-and-query to preserve.
pub open spec fn prepare_spec(
    endpoint: EndpointView,
    token: Option<Seq<char>>,
    req: RpcRequestView,
) -> Result<OutboundRequestView, ChannelError> {
    match req.uri.path_and_query {
        Option::None => Err(ChannelError::RequestRewriteError),
        Option::Some(p) => Ok(
            OutboundRequestView {
                uri: TargetUriView {
                    scheme: endpoint.scheme,
                    host: endpoint.host,
                    port: endpoint.port,
                    path_and_query: p,
                },
                headers: inject_auth_spec(req.headers, token),
            },
        ),
    }
}

/// The view of a prepared result.
pub open spec fn prepared_view(r: Result<OutboundRequest, ChannelError>) -> Result<
    OutboundRequestView,
    ChannelError,
> {
    match r {
        Result::Ok(o) => Result::Ok(o@),
        Result::Err(e) => Result::Err(e),
    }
}

/// Destination rewriting law: for every inbound request that carries a
/// path-and-query — whatever scheme or authority the stub put on it — the
/// forwarded request's scheme, host and port are exactly the base
/// endpoint's, and its path-and-query is the inbound one, unchanged.
pub proof fn lemma_rewrite_targets_base(
    endpoint: EndpointView,
    token: Option<Seq<char>>,
    req: RpcRequestView,
)
    requires
        req.uri.path_and_query is Some,
    ensures
        prepare_spec(endpoint, token, req) matches Ok(o) && o.uri.scheme == endpoint.scheme
            && o.uri.host == endpoint.host && o.uri.port == endpoint.port && req.uri.path_and_query
            == Some(o.uri.path_and_query),
{
}

/// Token-attachment law: once a token is set, every forwarded request
/// carries exactly one `protocol-auth` header, and its value is that token;
/// any `protocol-auth` header the inbound request carried is overwritten.
pub proof fn lemma_token_set_attaches_header(
    endpoint: EndpointView,
    t: Seq<char>,
    req: RpcRequestView,
)
    requires
        req.uri.path_and_query is Some,
    ensures
        prepare_spec(endpoint, Some(t), req) matches Ok(o) && {
            &&& o.headers.len() > 0
            &&& o.headers.last() == (HeaderView { name: auth_header_name(), value: t })
            &&& forall|i: int|
                0 <= i < o.headers.len() - 1 ==> #[trigger] o.headers[i].name
                    != auth_header_name()
        },
{
    let kept = without_auth(req.headers);
    lemma_without_auth_has_no_auth(req.headers);
    let out = inject_auth_spec(req.headers, Some(t));
    assert forall|i: int| 0 <= i < out.len() - 1 implies #[trigger] out[i].name
        != auth_header_name() by {
        assert(out[i] == kept[i]);
    }
}

/// No-token law: before any token is set, a request that arrived without a
/// `protocol-auth` header is forwarded with its headers untouched — in
/// particular, still without any `protocol-auth` header.
pub proof fn lemma_no_token_no_auth_header(endpoint: EndpointView, req: RpcRequestView)
    requires
        req.uri.path_and_query is Some,
        forall|i: int|
            0 <= i < req.headers.len() ==> #[trigger] req.headers[i].name != auth_header_name(),
    ensures
        prepare_spec(endpoint, Option::None, req) matches Ok(o) && {
            &&& o.headers == req.headers
            &&& forall|i: int|
                0 <= i < o.headers.len() ==> #[trigger] o.headers[i].name != auth_header_name()
        },
{
}

} // verus!
