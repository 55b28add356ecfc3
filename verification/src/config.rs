//! Server configuration, read-only after construction.

use vstd::prelude::*;

verus! {

/// Configuration of the optional telemetry worker.
pub struct MetricsConfig {
    /// Address the telemetry server listens on.
    pub addr: String,
    /// Port the telemetry server listens on.
    pub port: u16,
}

/// Fully-loaded configuration of the NTS-KE server. Loading it from the
/// process environment is out of scope; the lifecycle core only reads it.
pub struct KeServerConfig {
    /// DER-encoded certificate chain presented as the server identity.
    pub tls_certs: Vec<Vec<u8>>,
    /// DER-encoded private keys; the first one is installed with the chain.
    pub tls_secret_keys: Vec<Vec<u8>>,
    /// Port hint advertised to clients for the subsequent time transfer.
    pub next_port: u16,
    /// Telemetry worker configuration, if telemetry is enabled.
    pub metrics_config: Option<MetricsConfig>,
    /// Addresses the server will listen on, in configuration order.
    pub addrs: Vec<String>,
    /// Cookie-encryption seed handed to the key rotator.
    pub cookie_key: Vec<u8>,
    /// External key-store address handed to the key rotator.
    pub memcached_url: String,
    /// Per-connection timeout handed to each protocol handler.
    pub timeout: u64,
}

impl KeServerConfig {
    pub fn new(
        tls_certs: Vec<Vec<u8>>,
        tls_secret_keys: Vec<Vec<u8>>,
        next_port: u16,
        metrics_config: Option<MetricsConfig>,
        addrs: Vec<String>,
        cookie_key: Vec<u8>,
        memcached_url: String,
        timeout: u64,
    ) -> (c: KeServerConfig)
        ensures
            c == (KeServerConfig {
                tls_certs,
                tls_secret_keys,
                next_port,
                metrics_config,
                addrs,
                cookie_key,
                memcached_url,
                timeout,
            }),
    {
        KeServerConfig {
            tls_certs,
            tls_secret_keys,
            next_port,
            metrics_config,
            addrs,
            cookie_key,
            memcached_url,
            timeout,
        }
    }

    /// Configured listen addresses, in order.
    pub fn addrs(&self) -> (r: &Vec<String>)
        ensures
            r == &self.addrs,
    {
        &self.addrs
    }

    /// The cookie-encryption seed.
    pub fn cookie_key(&self) -> (r: &Vec<u8>)
        ensures
            r == &self.cookie_key,
    {
        &self.cookie_key
    }

    /// The external key-store address.
    pub fn memcached_url(&self) -> (r: &String)
        ensures
            r == &self.memcached_url,
    {
        &self.memcached_url
    }

    /// The per-connection timeout.
    pub fn timeout(&self) -> (r: u64)
        ensures
            r == self.timeout,
    {
        self.timeout
    }
}

} // verus!
