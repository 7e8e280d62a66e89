use std::sync::Arc;

use rustls::pki_types::{CertificateDer, PrivateKeyDer};
use rustls::ServerConfig;
use tls_listener::rustls::TlsAcceptor;
use vstd::prelude::*;

use crate::errors::{prefixed, WebMQError};

verus! {

#[verifier::external_type_specification]
#[verifier::external_body]
pub struct ExServerConfig(ServerConfig);

#[verifier::external_type_specification]
#[verifier::external_body]
pub struct ExRustlsError(rustls::Error);

#[verifier::external_type_specification]
#[verifier::external_body]
pub struct ExTlsAcceptor(TlsAcceptor);

/// Whether rustls builds a server configuration from this DER certificate and PKCS#1
/// private key: the key parses and matches the certificate's public key.
pub uninterp spec fn tls_material_accepted(certificate: Seq<u8>, private_key: Seq<u8>) -> bool;

/// Relies on rustls's `ServerConfig` builder (ring provider, default protocol versions, no
/// client authentication, `with_single_cert`): it succeeds exactly when the material is
/// accepted, which depends on the bytes alone.
#[verifier::external_body]
fn build_server_config(certificate: Vec<u8>, private_key: Vec<u8>) -> (r: Result<
    ServerConfig,
    rustls::Error,
>)
    ensures
        r is Ok <==> tls_material_accepted(certificate@, private_key@),
{
    let provider = Arc::new(rustls::crypto::ring::default_provider());
    let builder = ServerConfig::builder_with_provider(provider).with_safe_default_protocol_versions()?;
    builder.with_no_client_auth().with_single_cert(
        vec![CertificateDer::from(certificate)],
        PrivateKeyDer::Pkcs1(private_key.into()),
    )
}

/// Relies on tokio-rustls's `From<Arc<ServerConfig>>` for `TlsAcceptor`.
#[verifier::external_body]
fn acceptor_for(config: ServerConfig) -> TlsAcceptor {
    TlsAcceptor::from(Arc::new(config))
}

/// Relies on the `Display` impl of `rustls::Error` for a description of the failure.
#[verifier::external_body]
fn describe_rustls_error(e: &rustls::Error) -> String {
    e.to_string()
}

/// The error for a TLS configuration that rustls refused, with rustls's description.
pub fn tls_setup_error(detail: &str) -> (r: WebMQError)
    ensures
        r is TLS,
        r.message_spec() == "Could not create TLS acceptor: "@ + detail@,
{
    WebMQError::TLS(prefixed("Could not create TLS acceptor: ", detail))
}

/// The error for a certificate that could not be read, with the cause.
pub fn certificate_load_error(detail: &str) -> (r: WebMQError)
    ensures
        r is Config,
        r.message_spec() == "Couldn't load certificate: "@ + detail@,
{
    WebMQError::Config(prefixed("Couldn't load certificate: ", detail))
}

/// The error for a private key that could not be read, with the cause.
pub fn private_key_load_error(detail: &str) -> (r: WebMQError)
    ensures
        r is Config,
        r.message_spec() == "Couldn't load private key: "@ + detail@,
{
    WebMQError::Config(prefixed("Couldn't load private key: ", detail))
}

/// Builds the TLS acceptor from a DER certificate and a PKCS#1 private key. Fails with a
/// `TLS` error exactly when rustls does not accept the material.
pub fn create_tls_acceptor(certificate: Vec<u8>, private_key: Vec<u8>) -> (r: Result<
    TlsAcceptor,
    WebMQError,
>)
    ensures
        r is Ok <==> tls_material_accepted(certificate@, private_key@),
        r is Err ==> r->Err_0 is TLS && exists|detail: Seq<char>|
            r->Err_0.message_spec() == #[trigger] ("Could not create TLS acceptor: "@ + detail),
{
    match build_server_config(certificate, private_key) {
        Ok(config) => Ok(acceptor_for(config)),
        Err(e) => {
            let detail = describe_rustls_error(&e);
            Err(tls_setup_error(detail.as_str()))
        },
    }
}

} // verus!
