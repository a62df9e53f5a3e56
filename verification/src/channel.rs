use vstd::prelude::*;

use crate::endpoint::Endpoint;
use crate::endpoint::EndpointView;
use crate::errors::ChannelError;
use crate::request::{
    apply_auth_header, prepare_spec, prepared_view, rewrite_uri, token_view, OutboundRequest,
    RequestUri, RpcRequest, RpcRequestView,
};
use crate::tls::{build_http2_tls_client, pem_cert_parses, Http2TlsClient};

verus! {

/// The mathematical value of a [`MinKNOWChannel`]: its base endpoint, the
/// token it currently holds, and its trust-anchor bytes. The underlying
/// client is opaque and carries no specified state.
pub ghost struct ChannelView {
    pub endpoint: EndpointView,
    pub token: Option<Seq<char>>,
    pub certificate: Seq<u8>,
}

/// An HTTP request as the RPC framework hands it over.
#[verifier::external_type_specification]
#[verifier::external_body]
#[verifier::reject_recursive_types(B)]
pub struct ExRequest<B>(hyper::Request<B>);

/// hyper's in-flight response: a future the caller awaits.
#[verifier::external_type_specification]
#[verifier::external_body]
pub struct ExResponseFuture(hyper::client::ResponseFuture);

/// An HTTP response carrying a body of type `B`.
#[verifier::external_type_specification]
#[verifier::external_body]
#[verifier::reject_recursive_types(B)]
pub struct ExResponse<B>(hyper::Response<B>);

/// hyper's streaming message body.
#[verifier::external_type_specification]
#[verifier::external_body]
pub struct ExBody(hyper::Body);

/// hyper's transport error.
#[verifier::external_type_specification]
#[verifier::external_body]
pub struct ExHyperError(hyper::Error);

/// http's error for a URI that cannot be assembled.
#[verifier::external_type_specification]
#[verifier::external_body]
pub struct ExHttpError(hyper::http::Error);

/// Whether a character may appear in an HTTP header value: horizontal tab,
/// or anything at or above the space character except delete. On the UTF-8
/// encoding of a string this is exactly the byte rule `http` enforces,
/// since every byte of a multi-byte character is above delete.
pub open spec fn header_value_char_ok(c: char) -> bool {
    c == '\t' || (c as u32 >= 32 && c as u32 != 127)
}

/// Whether every character of a string may appear in an HTTP header value.
pub open spec fn header_value_ok(s: Seq<char>) -> bool {
    forall|i: int| 0 <= i < s.len() ==> header_value_char_ok(#[trigger] s[i])
}

/// The path-and-query component of a request's URI, as
/// `http::Uri::path_and_query` reads it: a function of the request value
/// alone.
pub uninterp spec fn request_path_and_query(req: hyper::Request<tonic::body::BoxBody>) -> Option<
    Seq<char>,
>;

/// Whether `http::Uri::builder` assembles a URI from these three
/// components: a function of the strings alone.
pub uninterp spec fn uri_builds(scheme: Seq<char>, authority: Seq<char>, pq: Seq<char>) -> bool;

/// Whether the request's header map can take a `protocol-auth` entry:
/// `HeaderMap::try_insert` fails only when a map already at its fixed
/// capacity would have to grow for a new name, so this is a function of the
/// request value alone.
pub uninterp spec fn auth_header_insertable(req: hyper::Request<tonic::body::BoxBody>) -> bool;

/// When the wire path forwards a request: its URI must carry a
/// path-and-query, a URI must assemble from the base endpoint's scheme and
/// authority and that path, and a set token must be a valid header value
/// with room in the request's header map to carry it.
pub open spec fn forwardable(
    endpoint: EndpointView,
    token: Option<Seq<char>>,
    pq: Option<Seq<char>>,
    insertable: bool,
) -> bool {
    match pq {
        Option::None => false,
        Option::Some(p) => {
            let assembles = uri_builds(
                endpoint.scheme,
                crate::endpoint::authority_of(endpoint.host, endpoint.port),
                p,
            );
            match token {
                Option::None => assembles,
                Option::Some(t) => assembles && header_value_ok(t) && insertable,
            }
        },
    }
}

/// Relies on `http::Request::uri` and the `http::Uri` accessors
/// `scheme_str`, `authority` and `path_and_query`: they read the request's
/// URI components, which this function copies into plain optional strings.
#[verifier::external_body]
fn extract_request_uri(req: &hyper::Request<tonic::body::BoxBody>) -> (r: RequestUri)
    ensures
        r@.path_and_query == request_path_and_query(*req),
{
    RequestUri {
        scheme: req.uri().scheme_str().map(|s| s.to_string()),
        authority: req.uri().authority().map(|a| a.as_str().to_string()),
        path_and_query: req.uri().path_and_query().map(|p| p.as_str().to_string()),
    }
}

/// Relies on `http::Uri::builder` and `http::Request::uri_mut`: the builder
/// assembles a URI from the given scheme, authority and path-and-query
/// strings — succeeding exactly when the three parse, a function of the
/// strings alone — and the assembled URI replaces the request's own. The
/// headers and body travel through untouched.
#[verifier::external_body]
fn set_request_target(
    req: hyper::Request<tonic::body::BoxBody>,
    scheme: &str,
    authority: &str,
    path_and_query: &str,
) -> (r: Result<hyper::Request<tonic::body::BoxBody>, hyper::http::Error>)
    ensures
        r is Ok <==> uri_builds(scheme@, authority@, path_and_query@),
{
    let mut req = req;
    let uri = hyper::Uri::builder()
        .scheme(scheme)
        .authority(authority)
        .path_and_query(path_and_query)
        .build()?;
    *req.uri_mut() = uri;
    Ok(req)
}

/// Relies on `http::header::HeaderName::from_bytes`, which accepts the
/// fixed name `protocol-auth` the caller is required to pass;
/// `http::header::HeaderValue::from_str`, which accepts exactly the strings
/// [`header_value_ok`] admits; and `HeaderMap::try_insert`, which replaces
/// every existing `protocol-auth` value with the new one, or reports a map
/// already at its fixed capacity instead of panicking.
#[verifier::external_body]
fn attach_auth_token(
    req: hyper::Request<tonic::body::BoxBody>,
    name: &String,
    token: &String,
) -> (r: Result<hyper::Request<tonic::body::BoxBody>, hyper::http::Error>)
    requires
        name@ == crate::request::auth_header_name(),
    ensures
        r is Ok <==> (header_value_ok(token@) && auth_header_insertable(req)),
{
    let mut req = req;
    let value = hyper::header::HeaderValue::from_str(token.as_str())?;
    let name = hyper::header::HeaderName::from_bytes(name.as_bytes())?;
    req.headers_mut().try_insert(name, value)?;
    Ok(req)
}

/// Relies on `hyper::Client::request`: it hands the request to the pooled
/// HTTP/2 client and returns the in-flight response; transport failures
/// surface when that future is polled.
#[verifier::external_body]
fn dispatch(
    client: &Http2TlsClient,
    req: hyper::Request<tonic::body::BoxBody>,
) -> hyper::client::ResponseFuture {
    client.request(req)
}

/// Relies on `hyper::Client::clone`: the clone shares the existing
/// connection pool instead of opening a new TLS session.
#[verifier::external_body]
fn clone_client(client: &Http2TlsClient) -> Http2TlsClient {
    client.clone()
}

/// A channel for communicating with a MinKNOW server: TLS with the one
/// trusted self-signed certificate, HTTP/2 only, every request rewritten
/// onto the base endpoint, and the current auth token attached when set.
///
/// A channel does not know how to obtain certificates or tokens; it is
/// handed already-loaded certificate bytes at construction and a token via
/// [`MinKNOWChannel::set_token`]. A freshly constructed channel holds no
/// token, because a channel must first be used to request one.
pub struct MinKNOWChannel {
    endpoint: Endpoint,
    client: Http2TlsClient,
    token: Option<String>,
    pub certificate: Vec<u8>,
}

impl View for MinKNOWChannel {
    type V = ChannelView;

    closed spec fn view(&self) -> ChannelView {
        ChannelView {
            endpoint: self.endpoint@,
            token: token_view(self.token),
            certificate: self.certificate@,
        }
    }
}

impl MinKNOWChannel {
    /// Construct a channel bound to `endpoint`, trusting exactly the given
    /// certificate. Bytes that are not a valid PEM certificate fail with
    /// `CertificateError`; a TLS or client construction failure after that
    /// fails with `TransportInitError`. Either way no partially usable
    /// channel escapes. On success the channel holds no token. The
    /// certificate must fit a C `int`, the limit openssl's parser asserts.
    pub fn new(certificate: Vec<u8>, endpoint: Endpoint) -> (r: Result<
        MinKNOWChannel,
        ChannelError,
    >)
        requires
            certificate@.len() <= 0x7fff_ffff,
        ensures
            (r matches Err(e) && e == ChannelError::CertificateError) <==> !pem_cert_parses(
                certificate@,
            ),
            r matches Err(e) ==> (e == ChannelError::CertificateError || e
                == ChannelError::TransportInitError),
            r matches Ok(c) ==> c@ == (ChannelView {
                endpoint: endpoint@,
                token: Option::None,
                certificate: certificate@,
            }),
    {
        let client = match build_http2_tls_client(certificate.as_slice()) {
            Ok(client) => client,
            Err(e) => {
                return Err(e);
            },
        };
        Ok(MinKNOWChannel { endpoint, client, token: None, certificate })
    }

    /// Replace the channel's token in place. Later calls attach the new
    /// value; the endpoint, the client and the trust anchor are untouched.
    /// Token rotation is serialized by the caller in this system's usage;
    /// the channel promises nothing about a call racing a concurrent
    /// replacement beyond each call seeing one of the two tokens.
    pub fn set_token(&mut self, token: String)
        ensures
            final(self)@.endpoint == old(self)@.endpoint,
            final(self)@.token == Some(token@),
            final(self)@.certificate == old(self)@.certificate,
    {
        self.token = Some(token);
    }

    /// The channel reports ready immediately: it applies no backpressure of
    /// its own, delegating readiness entirely to the underlying transport
    /// at send time.
    pub fn ready(&self) -> (r: bool)
        ensures
            r,
    {
        true
    }

    /// The base endpoint this channel was bound to at construction.
    pub fn base_endpoint(&self) -> (r: &Endpoint)
        ensures
            r@ == self@.endpoint,
    {
        &self.endpoint
    }

    /// The token the channel currently holds, if any.
    pub fn current_token(&self) -> (r: &Option<String>)
        ensures
            token_view(*r) == self@.token,
    {
        &self.token
    }

    /// The per-request interception, on the request model: rewrite the
    /// inbound URI onto the base endpoint (preserving path and query) and
    /// attach the current token, overwriting any `protocol-auth` header the
    /// request carried. An inbound request without a path-and-query fails
    /// this one call with `RequestRewriteError`; the channel is unaffected.
    pub fn prepare_request(&self, inbound: RpcRequest) -> (r: Result<OutboundRequest, ChannelError>)
        ensures
            prepared_view(r) == prepare_spec(self@.endpoint, self@.token, inbound@),
    {
        let RpcRequest { uri, headers } = inbound;
        match rewrite_uri(&self.endpoint, &uri) {
            Ok(target) => {
                let headers = apply_auth_header(headers, &self.token);
                Ok(OutboundRequest { uri: target, headers })
            },
            Err(e) => Err(e),
        }
    }

    /// Make an RPC through this channel: rewrite the request's destination
    /// onto the base endpoint, attach the token when one is set, and hand
    /// the request to the underlying HTTP/2 client. The call goes out if
    /// and only if the request is [`forwardable`]: a request whose URI or
    /// token header cannot be rebuilt fails this single call only — the
    /// channel remains usable — and in particular a set token that cannot
    /// travel as a header value never reaches the wire. The response or
    /// transport failure flows back through the returned future untouched.
    pub fn call(&self, inbound: hyper::Request<tonic::body::BoxBody>) -> (r: Result<
        hyper::client::ResponseFuture,
        ChannelError,
    >)
        ensures
            r matches Err(e) ==> e == ChannelError::RequestRewriteError,
            r is Ok <==> forwardable(
                self@.endpoint,
                self@.token,
                request_path_and_query(inbound),
                auth_header_insertable(inbound),
            ),
    {
        let uri_model = extract_request_uri(&inbound);
        let target = match rewrite_uri(&self.endpoint, &uri_model) {
            Ok(target) => target,
            Err(e) => {
                return Err(e);
            },
        };
        let request = match &self.token {
            Some(token) => {
                let name = crate::request::auth_header_name_string();
                match attach_auth_token(inbound, &name, token) {
                    Ok(request) => request,
                    Err(_) => {
                        return Err(ChannelError::RequestRewriteError);
                    },
                }
            },
            None => inbound,
        };
        let authority = target.authority();
        let request = match set_request_target(
            request,
            target.scheme.as_str(),
            authority.as_str(),
            target.path_and_query.as_str(),
        ) {
            Ok(request) => request,
            Err(_) => {
                return Err(ChannelError::RequestRewriteError);
            },
        };
        Ok(dispatch(&self.client, request))
    }
}

impl Clone for MinKNOWChannel {
    /// Cloning is cheap and shares the underlying connection pool; the
    /// clone starts with the same endpoint, token and trust anchor, after
    /// which the two channels are independent values.
    fn clone(&self) -> (res: Self)
        ensures
            res@ == self@,
    {
        let token = crate::request::clone_token(&self.token);
        MinKNOWChannel {
            endpoint: self.endpoint.clone(),
            client: clone_client(&self.client),
            token,
            certificate: vstd::slice::slice_to_vec(self.certificate.as_slice()),
        }
    }
}

/// Independence law: what a channel forwards depends only on its base
/// endpoint and the token it holds at that moment. Two channels agreeing on
/// those — a channel and its fresh clone, say — prepare every request
/// identically, and a token set on one value later cannot reach back into
/// requests the other already prepared.
pub proof fn lemma_prepare_depends_only_on_endpoint_and_token(
    c1: ChannelView,
    c2: ChannelView,
    req: RpcRequestView,
)
    requires
        c1.endpoint == c2.endpoint,
        c1.token == c2.token,
    ensures
        prepare_spec(c1.endpoint, c1.token, req) == prepare_spec(c2.endpoint, c2.token, req),
{
}

} // verus!
