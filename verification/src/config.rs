//! Configuration of a link: timer periods, window sizes and transport
//! parameters. Durations are carried as whole milliseconds.

use vstd::prelude::*;

verus! {

/// The protocol parameters of one connection.
#[derive(Debug, Clone, Eq, PartialEq, Structural)]
pub struct ProtocolConfig {
    /// The idle period before a test frame is sent, in milliseconds.
    pub t3_ms: u64,
    /// The longest wait before acknowledging received frames, in
    /// milliseconds.
    pub t2_ms: u64,
    /// The wait after which the connection counts as dead, in milliseconds.
    pub t1_ms: u64,
    /// The period between connection attempts, in milliseconds.
    pub t0_ms: u64,
    /// The most sent frames that may await acknowledgement.
    pub k: u16,
    /// The most received frames that may await acknowledgement.
    pub w: u16,
    /// The originator address stamped on outgoing ASDUs.
    pub originator_address: u8,
}

impl Default for ProtocolConfig {
    /// The standard defaults: twenty, ten, twelve and ten seconds for the
    /// four timers, windows of twelve and eight, originator one.
    fn default() -> (r: ProtocolConfig)
        ensures
            r.t3_ms == 20000 && r.t2_ms == 10000 && r.t1_ms == 12000 && r.t0_ms == 10000,
            r.k == 12 && r.w == 8 && r.originator_address == 1,
    {
        ProtocolConfig {
            t3_ms: 20000,
            t2_ms: 10000,
            t1_ms: 12000,
            t0_ms: 10000,
            k: 12,
            w: 8,
            originator_address: 1,
        }
    }
}

/// Where the TLS material lives; the transport wrapping itself happens
/// outside the verified core.
#[derive(Debug, Clone, Eq, PartialEq, Default)]
pub struct TlsConfig {
    /// Path to the client key.
    pub client_key: Option<String>,
    /// Path to the client certificate.
    pub client_certificate: Option<String>,
    /// Path to the certificate the server is verified against.
    pub server_certificate: Option<String>,
    /// Whether to skip certificate verification altogether.
    pub danger_disable_tls_verify: bool,
}

/// The whole configuration of one link.
#[derive(Debug, Clone, Eq, PartialEq, Default)]
pub struct LinkConfig {
    /// The address to dial or to listen on.
    pub address: String,
    /// The TCP port; 2404 is the registered one.
    pub port: u16,
    /// Whether this side is the server.
    pub server: bool,
    /// The protocol parameters.
    pub protocol: ProtocolConfig,
    /// The TLS configuration, if the transport is wrapped.
    pub tls: Option<TlsConfig>,
}

/// The default for a numeric option.
pub fn default_number<const N: u16>() -> (r: u16)
    ensures
        r == N,
{
    N
}

/// The default for a duration option, given in seconds and handed back in
/// milliseconds.
pub fn default_duration<const N: u64>() -> (r: u64)
    requires
        N <= 1000000,
    ensures
        r == N * 1000,
{
    N * 1000
}

} // verus!
