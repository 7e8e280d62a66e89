use webmq::errors::WebMQError;
use webmq::tls::{
    certificate_load_error, create_tls_acceptor, private_key_load_error, tls_setup_error,
};

#[test]
fn garbage_material_is_refused() {
    match create_tls_acceptor(b"not a certificate".to_vec(), b"not a key".to_vec()) {
        Err(WebMQError::TLS(msg)) => {
            assert!(msg.starts_with("Could not create TLS acceptor: "));
            assert!(msg.len() > "Could not create TLS acceptor: ".len());
        }
        _ => panic!("expected a TLS error"),
    }
}

#[test]
fn empty_material_is_refused() {
    assert!(matches!(create_tls_acceptor(Vec::new(), Vec::new()), Err(WebMQError::TLS(_))));
}

#[test]
fn setup_and_load_error_texts() {
    assert_eq!(tls_setup_error("bad key").message(), "Could not create TLS acceptor: bad key");
    match certificate_load_error("missing") {
        WebMQError::Config(m) => assert_eq!(m, "Couldn't load certificate: missing"),
        _ => panic!("expected a Config error"),
    }
    match private_key_load_error("missing") {
        WebMQError::Config(m) => assert_eq!(m, "Couldn't load private key: missing"),
        _ => panic!("expected a Config error"),
    }
}
