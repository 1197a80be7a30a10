use vstd::prelude::*;

verus! {

/// Settings of the centre.
pub struct Config {
    /// Whether the centre serves at all.
    pub enable: bool,
    pub server: ServerConfig,
    pub tls: TlsConfig,
}

/// Where the certificate and key live, and whether WebSocket clients are
/// served over TLS.
pub struct TlsConfig {
    pub enable_for_ws: bool,
    pub cert: String,
    pub key: String,
}

/// The addresses that the servers listen on.
pub struct ServerConfig {
    pub ws: String,
    pub quic: String,
}

impl Default for ServerConfig {
    /// Both servers listen on all interfaces, port 6996.
    fn default() -> (r: Self)
        ensures
            r.ws@ == "0.0.0.0:6996"@,
            r.quic@ == "0.0.0.0:6996"@,
    {
        ServerConfig { ws: "0.0.0.0:6996".to_owned(), quic: "0.0.0.0:6996".to_owned() }
    }
}

impl Default for TlsConfig {
    /// TLS for WebSocket clients is on; the certificate and key paths are
    /// placeholders.
    fn default() -> (r: Self)
        ensures
            r.enable_for_ws,
            r.cert@ == "/path/to/cert"@,
            r.key@ == "/path/to/key"@,
    {
        TlsConfig {
            enable_for_ws: true,
            cert: "/path/to/cert".to_owned(),
            key: "/path/to/key".to_owned(),
        }
    }
}

impl Default for Config {
    /// A centre that is not enabled, with the default servers and TLS.
    fn default() -> (r: Self)
        ensures
            !r.enable,
            r.server.ws@ == "0.0.0.0:6996"@,
            r.server.quic@ == "0.0.0.0:6996"@,
            r.tls.enable_for_ws,
            r.tls.cert@ == "/path/to/cert"@,
            r.tls.key@ == "/path/to/key"@,
    {
        Config { enable: false, server: ServerConfig::default(), tls: TlsConfig::default() }
    }
}

/// How the centre starts.
#[derive(Clone, Copy, Debug, PartialEq, Eq, Structural)]
pub enum Launch {
    /// The centre is not enabled and exits at once.
    Disabled,
    /// The QUIC server starts, then the WebSocket server, over TLS or not.
    Serve { ws_over_tls: bool },
}

impl Config {
    /// Decides how the centre starts from its settings.
    pub fn launch(&self) -> (l: Launch)
        ensures
            l == (if self.enable {
                Launch::Serve { ws_over_tls: self.tls.enable_for_ws }
            } else {
                Launch::Disabled
            }),
    {
        if !self.enable {
            Launch::Disabled
        } else {
            Launch::Serve { ws_over_tls: self.tls.enable_for_ws }
        }
    }
}

} // verus!
