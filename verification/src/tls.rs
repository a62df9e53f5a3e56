use vstd::prelude::*;

use crate::errors::ChannelError;
use hyper::client::HttpConnector;
use hyper_openssl::HttpsConnector;

verus! {

/// Whether `bytes` parse as one PEM-encoded X.509 certificate. This names
/// the outcome of `openssl::x509::X509::from_pem`, which depends on the
/// bytes alone; stating the X.509 grammar here is neither possible nor
/// useful.
pub uninterp spec fn pem_cert_parses(bytes: Seq<u8>) -> bool;

/// The HTTP/2-only client every channel forwards its requests through.
pub type Http2TlsClient = hyper::Client<HttpsConnector<HttpConnector>, tonic::body::BoxBody>;

/// A parsed X.509 certificate, produced and consumed by openssl.
#[verifier::external_type_specification]
#[verifier::external_body]
pub struct ExX509(openssl::x509::X509);

/// openssl's TLS protocol-method selector.
#[verifier::external_type_specification]
#[verifier::external_body]
pub struct ExSslMethod(openssl::ssl::SslMethod);

/// openssl's builder for a TLS client configuration.
#[verifier::external_type_specification]
#[verifier::external_body]
pub struct ExSslConnectorBuilder(openssl::ssl::SslConnectorBuilder);

/// openssl's error value: an opaque stack of library errors.
#[verifier::external_type_specification]
#[verifier::external_body]
pub struct ExErrorStack(openssl::error::ErrorStack);

/// openssl's certificate store, here always the one built for a channel:
/// it holds the single trusted certificate and nothing else.
#[verifier::external_type_specification]
#[verifier::external_body]
pub struct ExX509Store(openssl::x509::store::X509Store);

/// hyper's DNS resolver used by its default TCP connector.
#[verifier::external_type_specification]
#[verifier::external_body]
pub struct ExGaiResolver(hyper::client::connect::dns::GaiResolver);

/// hyper's plain TCP connector.
#[verifier::external_type_specification]
#[verifier::external_body]
#[verifier::reject_recursive_types(R)]
pub struct ExHttpConnector<R>(hyper::client::HttpConnector<R>);

/// hyper-openssl's TLS connector, layered over a plain connector.
#[verifier::external_type_specification]
#[verifier::external_body]
#[verifier::reject_recursive_types(T)]
pub struct ExHttpsConnector<T>(hyper_openssl::HttpsConnector<T>);

/// hyper's pooled HTTP client.
#[verifier::external_type_specification]
#[verifier::external_body]
#[verifier::reject_recursive_types(C)]
#[verifier::reject_recursive_types(B)]
pub struct ExClient<C, B>(hyper::Client<C, B>);

/// hyper's configuration builder for a client.
#[verifier::external_type_specification]
#[verifier::external_body]
pub struct ExClientBuilder(hyper::client::Builder);

/// The byte buffer type gRPC message bodies are made of.
#[verifier::external_type_specification]
#[verifier::external_body]
pub struct ExBytes(bytes::Bytes);

/// tonic's RPC status, the error type of a gRPC body stream.
#[verifier::external_type_specification]
#[verifier::external_body]
pub struct ExStatus(tonic::Status);

/// The type-erased body used for gRPC requests (`tonic::body::BoxBody`
/// expands to it).
#[verifier::external_type_specification]
#[verifier::external_body]
#[verifier::reject_recursive_types(D)]
#[verifier::reject_recursive_types(E)]
pub struct ExUnsyncBoxBody<D, E>(http_body::combinators::UnsyncBoxBody<D, E>);

/// Relies on `openssl::x509::X509::from_pem`: it deserializes one
/// PEM-encoded X.509 certificate and fails exactly when the bytes are not
/// one; the outcome is a function of the bytes alone. The buffer must fit a
/// C `int`, since openssl's memory BIO asserts that rather than failing.
#[verifier::external_body]
fn parse_certificate(pem: &[u8]) -> (r: Result<openssl::x509::X509, openssl::error::ErrorStack>)
    requires
        pem@.len() <= 0x7fff_ffff,
    ensures
        r is Ok <==> pem_cert_parses(pem@),
{
    openssl::x509::X509::from_pem(pem)
}

/// Relies on `openssl::ssl::SslMethod::tls`: it selects the generic TLS
/// method.
#[verifier::external_body]
fn tls_method() -> openssl::ssl::SslMethod {
    openssl::ssl::SslMethod::tls()
}

/// Relies on `openssl::ssl::SslConnector::builder`: it starts a TLS client
/// configuration with openssl's connector defaults for the given method.
#[verifier::external_body]
fn new_connector_builder(method: openssl::ssl::SslMethod) -> Result<
    openssl::ssl::SslConnectorBuilder,
    openssl::error::ErrorStack,
> {
    openssl::ssl::SslConnector::builder(method)
}

/// Relies on `X509StoreBuilder::new`, `X509StoreBuilderRef::add_cert` and
/// `X509StoreBuilder::build`: the store starts empty and ends holding
/// exactly the one given certificate — no system root enters it.
#[verifier::external_body]
fn single_cert_store(ca: openssl::x509::X509) -> Result<
    openssl::x509::store::X509Store,
    openssl::error::ErrorStack,
> {
    let mut store = openssl::x509::store::X509StoreBuilder::new()?;
    store.add_cert(ca)?;
    Ok(store.build())
}

/// Relies on `SslContextBuilder::set_cert_store`: it replaces the
/// configuration's certificate store outright — the store openssl's
/// connector defaults had populated with the system trust roots — so
/// verification can fall back to nothing but the given store.
#[verifier::external_body]
fn set_trust_store(
    builder: &mut openssl::ssl::SslConnectorBuilder,
    store: openssl::x509::store::X509Store,
) {
    builder.set_cert_store(store);
}

/// Relies on `SslContextBuilder::set_alpn_protos`: it sets the wire-format
/// list of protocols offered during TLS application-protocol negotiation.
/// The list must fit a C `unsigned int`, since the openssl binding asserts
/// that rather than failing.
#[verifier::external_body]
fn set_alpn_protocols(
    builder: &mut openssl::ssl::SslConnectorBuilder,
    protocols: &[u8],
) -> Result<(), openssl::error::ErrorStack>
    requires
        protocols@.len() <= 0xffff_ffff,
{
    builder.set_alpn_protos(protocols)
}

/// Relies on `hyper::client::HttpConnector::new`: it builds hyper's default
/// TCP connector.
#[verifier::external_body]
fn new_http_connector() -> HttpConnector {
    HttpConnector::new()
}

/// Relies on `HttpConnector::enforce_http`: with `false` the connector also
/// accepts non-`http` scheme URIs, which TLS-wrapped connections need.
#[verifier::external_body]
fn set_enforce_http(http: &mut HttpConnector, is_enforced: bool) {
    http.enforce_http(is_enforced);
}

/// Relies on `hyper_openssl::HttpsConnector::with_connector`: it layers the
/// TLS configuration over the plain connector.
#[verifier::external_body]
fn wrap_connector(
    http: HttpConnector,
    tls: openssl::ssl::SslConnectorBuilder,
) -> Result<HttpsConnector<HttpConnector>, openssl::error::ErrorStack> {
    HttpsConnector::with_connector(http, tls)
}

/// Relies on `HttpsConnector::set_callback` and
/// `ConnectConfiguration::set_verify_hostname`: the callback runs before
/// each connection and turns hostname-to-certificate matching off, since the
/// deployment's self-signed certificates are not issued per hostname. Trust
/// stays pinned to the one certificate in the store.
#[verifier::external_body]
fn disable_hostname_verification(https: &mut HttpsConnector<HttpConnector>) {
    https.set_callback(|configuration, _| {
        configuration.set_verify_hostname(false);
        Ok(())
    });
}

/// Relies on `hyper::Client::builder`: it starts a client configuration
/// with hyper's defaults.
#[verifier::external_body]
fn client_builder() -> hyper::client::Builder {
    hyper::Client::builder()
}

/// Relies on `hyper::client::Builder::http2_only`: with `true` the client
/// speaks HTTP/2 from the start, as the gRPC wire format requires.
#[verifier::external_body]
fn set_http2_only(builder: &mut hyper::client::Builder, only: bool) {
    builder.http2_only(only);
}

/// Relies on `hyper::client::Builder::build`: it finishes the configuration
/// into a client over the given connector.
#[verifier::external_body]
fn build_client(
    builder: &hyper::client::Builder,
    https: HttpsConnector<HttpConnector>,
) -> Http2TlsClient {
    builder.build(https)
}

/// The wire-format ALPN identifier for HTTP/2: the length-prefixed protocol
/// name `h2`, the one identifier the RPC framework's TLS negotiation must
/// select.
pub fn alpn_h2_wire() -> (r: Vec<u8>)
    ensures
        r@ == seq![2u8, 104u8, 50u8],
{
    let mut protocols: Vec<u8> = Vec::new();
    protocols.push(2u8);
    protocols.push(104u8);
    protocols.push(50u8);
    proof {
        assert(protocols@ =~= seq![2u8, 104u8, 50u8]);
    }
    protocols
}

/// The TLS negotiator: from raw trust-anchor bytes, build an HTTP/2-only
/// client whose TLS configuration trusts exactly that certificate as a
/// root — its verification store is built empty, holds only that
/// certificate, and replaces the connector's default store, so there is no
/// fallback to the system trust roots — skips hostname verification, and
/// pins application-protocol negotiation to HTTP/2.
///
/// Bytes that are not a valid PEM certificate fail with `CertificateError`;
/// any later failure while assembling the TLS configuration or the client
/// fails with `TransportInitError`. No network I/O happens here. The
/// certificate must fit a C `int`, the limit openssl's parser asserts.
pub fn build_http2_tls_client(certificate: &[u8]) -> (r: Result<Http2TlsClient, ChannelError>)
    requires
        certificate@.len() <= 0x7fff_ffff,
    ensures
        (r matches Err(e) && e == ChannelError::CertificateError) <==> !pem_cert_parses(
            certificate@,
        ),
        r matches Err(e) ==> (e == ChannelError::CertificateError || e
            == ChannelError::TransportInitError),
{
    let ca = match parse_certificate(certificate) {
        Ok(ca) => ca,
        Err(_) => {
            return Err(ChannelError::CertificateError);
        },
    };
    let store = match single_cert_store(ca) {
        Ok(store) => store,
        Err(_) => {
            return Err(ChannelError::TransportInitError);
        },
    };
    let method = tls_method();
    let mut tls = match new_connector_builder(method) {
        Ok(builder) => builder,
        Err(_) => {
            return Err(ChannelError::TransportInitError);
        },
    };
    set_trust_store(&mut tls, store);
    let protocols = alpn_h2_wire();
    if set_alpn_protocols(&mut tls, protocols.as_slice()).is_err() {
        return Err(ChannelError::TransportInitError);
    }
    let mut http = new_http_connector();
    set_enforce_http(&mut http, false);
    let mut https = match wrap_connector(http, tls) {
        Ok(https) => https,
        Err(_) => {
            return Err(ChannelError::TransportInitError);
        },
    };
    disable_hostname_verification(&mut https);
    let mut builder = client_builder();
    set_http2_only(&mut builder, true);
    Ok(build_client(&builder, https))
}

} // verus!
