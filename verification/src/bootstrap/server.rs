//! How the router listens.

use vstd::prelude::*;

use crate::config::Config;

verus! {

/// Seconds that open connections have to finish after a shutdown signal, when
/// the listener uses TLS.
pub const DRAIN_SECS: u64 = 30;

/// How the router listens.
#[derive(Debug)]
pub enum Listener {
    /// Plain HTTP.
    Plain,
    /// HTTPS.
    Tls {
        /// Path to the certificate PEM.
        cert: String,
        /// Path to the private-key PEM.
        key: String,
    },
}

/// Decide how to listen: with TLS where it is built in and both paths are
/// configured, else plain.
pub fn listener(config: &Config, tls_built_in: bool) -> (listener: Listener)
    ensures
        match (config.tls_cert_path, config.tls_key_path) {
            (Some(c), Some(k)) if tls_built_in => listener matches Listener::Tls { cert, key }
                && cert@ == c@ && key@ == k@,
            _ => listener is Plain,
        },
{
    if tls_built_in {
        if let (Some(cert), Some(key)) = (&config.tls_cert_path, &config.tls_key_path) {
            return Listener::Tls { cert: cert.clone(), key: key.clone() };
        }
    }
    Listener::Plain
}

}
