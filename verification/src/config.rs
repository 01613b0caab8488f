//! Static relay configuration.
//!
//! One immutable record, shared by reference across connections, holds every
//! policy knob: the tenant allow-list, the authentication requirements, the
//! rate-limit quota and the strict-subdomain switch, together with the
//! mechanical server settings the surrounding process needs.

use vstd::prelude::*;

verus! {

/// Relay configuration. The admission and visibility policies read only
/// `allowed_subdomains`, `events_per_minute`, `require_auth_for_write`,
/// `require_auth_for_read` and `strict_subdomain_mode`; the remaining fields
/// configure the surrounding server process.
#[derive(Debug)]
pub struct RelayConfig {
    // Server settings
    pub host: String,
    pub port: u16,
    pub relay_url: String,
    // Database
    pub database_path: String,
    // Limits
    pub max_event_size: usize,
    pub max_subscriptions_per_connection: usize,
    pub max_filters_per_subscription: usize,
    pub max_limit_per_filter: usize,
    // Multi-tenancy: tenant names a named, non-geohash scope must carry to be
    // admitted at all; an empty list disables the check.
    pub allowed_subdomains: Vec<String>,
    // Rate limiting: the per-connection write quota per 60-second window.
    pub events_per_minute: u32,
    // Features
    pub require_auth_for_write: bool,
    pub require_auth_for_read: bool,
    pub enable_nip42_auth: bool,
    pub enable_nip40_expiration: bool,
    // When set, a named scope that is not a valid geohash accepts no writes
    // at all: its partition is reserved for geographic traffic.
    pub strict_subdomain_mode: bool,
    // Monitoring
    pub metrics_enabled: bool,
    pub metrics_port: u16,
}

impl Default for RelayConfig {
    /// The default configuration: a local development relay with a quota of
    /// 30 events per minute and every optional gate switched off.
    fn default() -> (c: RelayConfig)
        ensures
            c.host@ == "127.0.0.1"@,
            c.port == 8080,
            c.relay_url@ == "ws://localhost:8080"@,
            c.database_path@ == "./data"@,
            c.max_event_size == 131072,
            c.max_subscriptions_per_connection == 20,
            c.max_filters_per_subscription == 10,
            c.max_limit_per_filter == 5000,
            c.allowed_subdomains@.len() == 0,
            c.events_per_minute == 30,
            c.require_auth_for_write == false,
            c.require_auth_for_read == false,
            c.enable_nip42_auth == true,
            c.enable_nip40_expiration == true,
            c.strict_subdomain_mode == false,
            c.metrics_enabled == true,
            c.metrics_port == 9090,
    {
        RelayConfig {
            host: String::from_str("127.0.0.1"),
            port: 8080,
            relay_url: String::from_str("ws://localhost:8080"),
            database_path: String::from_str("./data"),
            max_event_size: 131072,
            max_subscriptions_per_connection: 20,
            max_filters_per_subscription: 10,
            max_limit_per_filter: 5000,
            allowed_subdomains: Vec::new(),
            events_per_minute: 30,
            require_auth_for_write: false,
            require_auth_for_read: false,
            enable_nip42_auth: true,
            enable_nip40_expiration: true,
            strict_subdomain_mode: false,
            metrics_enabled: true,
            metrics_port: 9090,
        }
    }
}

} // verus!
