use vstd::prelude::*;

verus! {

/// The address the listener binds when none is configured.
pub open spec fn default_ip_text() -> Seq<char> {
    "0.0.0.0"@
}

/// The port the listener binds when none is configured.
pub const DEFAULT_PORT: u16 = 8060;

/// The certificate file used when none is configured.
pub open spec fn default_certificate_text() -> Seq<char> {
    "./certificate.crt"@
}

/// The private key file used when none is configured.
pub open spec fn default_private_key_text() -> Seq<char> {
    "./key.pem"@
}

/// The key algorithm assumed when none is configured.
pub open spec fn default_algorithm_text() -> Seq<char> {
    "RSA"@
}

/// Where the TLS certificate and private key are found.
pub struct TLSSettings {
    pub certificate: String,
    pub private_key: String,
    pub algorithm: String,
}

impl TLSSettings {
    /// The path of the certificate used when none is configured.
    pub fn default_certificate() -> (r: String)
        ensures
            r@ == default_certificate_text(),
    {
        String::from_str("./certificate.crt")
    }

    /// The path of the private key used when none is configured.
    pub fn default_private_key() -> (r: String)
        ensures
            r@ == default_private_key_text(),
    {
        String::from_str("./key.pem")
    }

    /// The key algorithm assumed when none is configured.
    pub fn default_algorithm() -> (r: String)
        ensures
            r@ == default_algorithm_text(),
    {
        String::from_str("RSA")
    }

    /// Whether every field holds its default.
    pub open spec fn is_default(&self) -> bool {
        &&& self.certificate@ == default_certificate_text()
        &&& self.private_key@ == default_private_key_text()
        &&& self.algorithm@ == default_algorithm_text()
    }
}

impl Default for TLSSettings {
    fn default() -> (r: TLSSettings)
        ensures
            r.is_default(),
    {
        TLSSettings {
            certificate: TLSSettings::default_certificate(),
            private_key: TLSSettings::default_private_key(),
            algorithm: TLSSettings::default_algorithm(),
        }
    }
}

/// Where the listener binds, and its TLS material.
pub struct NetworkSettings {
    pub ip: String,
    pub port: u16,
    pub tls: TLSSettings,
}

impl NetworkSettings {
    /// The address bound when none is configured.
    pub fn default_ip() -> (r: String)
        ensures
            r@ == default_ip_text(),
    {
        String::from_str("0.0.0.0")
    }

    /// The port bound when none is configured.
    pub fn default_port() -> (r: u16)
        ensures
            r == DEFAULT_PORT,
    {
        DEFAULT_PORT
    }

    /// Whether every field holds its default.
    pub open spec fn is_default(&self) -> bool {
        &&& self.ip@ == default_ip_text()
        &&& self.port == DEFAULT_PORT
        &&& self.tls.is_default()
    }
}

impl Default for NetworkSettings {
    fn default() -> (r: NetworkSettings)
        ensures
            r.is_default(),
    {
        NetworkSettings {
            ip: NetworkSettings::default_ip(),
            port: NetworkSettings::default_port(),
            tls: TLSSettings::default(),
        }
    }
}

/// The broker's settings.
pub struct Settings {
    pub network: NetworkSettings,
}

impl Default for Settings {
    fn default() -> (r: Settings)
        ensures
            r.network.is_default(),
    {
        Settings { network: NetworkSettings::default() }
    }
}

} // verus!
