use webmq::config::{NetworkSettings, Settings, TLSSettings, DEFAULT_PORT};
use webmq::errors::WebMQError;

#[test]
fn default_settings() {
    let s = Settings::default();
    assert_eq!(s.network.ip, "0.0.0.0");
    assert_eq!(s.network.port, 8060);
    assert_eq!(s.network.tls.certificate, "./certificate.crt");
    assert_eq!(s.network.tls.private_key, "./key.pem");
    assert_eq!(s.network.tls.algorithm, "RSA");
}

#[test]
fn default_pieces() {
    assert_eq!(NetworkSettings::default_ip(), "0.0.0.0");
    assert_eq!(NetworkSettings::default_port(), DEFAULT_PORT);
    assert_eq!(TLSSettings::default_certificate(), "./certificate.crt");
    assert_eq!(TLSSettings::default_private_key(), "./key.pem");
    assert_eq!(TLSSettings::default_algorithm(), "RSA");
    let t = TLSSettings::default();
    assert_eq!(t.private_key, "./key.pem");
}

#[test]
fn error_messages() {
    assert_eq!(WebMQError::Config("c".to_string()).message(), "c");
    assert_eq!(WebMQError::File("f".to_string()).message(), "f");
    assert_eq!(WebMQError::TLS("t".to_string()).message(), "t");
    assert_eq!(WebMQError::Data("d".to_string()).message(), "d");
    assert_eq!(
        WebMQError::Unrecoverable.message(),
        "The program encountered an unrecoverable error."
    );
}
