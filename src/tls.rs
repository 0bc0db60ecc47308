//! Certificate handling for HTTPS interception.
//!
//! Leaf certificates are issued only for hosts the routing table serves,
//! and kept per host for the life of the process.

use vstd::prelude::*;
use crate::error::EngineError;
use crate::routing::{resolves, RoutingTable};
use crate::text::same_text;

verus! {

/// TLS configuration.
#[derive(Debug, Clone)]
pub struct TlsConfig {
    /// Terminate TLS for routed hosts.
    pub enabled: bool,
    /// Path of the CA certificate.
    pub ca_cert_path: Option<String>,
    /// Path of the CA private key.
    pub ca_key_path: Option<String>,
    /// Issue leaf certificates on demand.
    pub auto_generate_certs: bool,
}

impl Default for TlsConfig {
    fn default() -> (r: Self)
        ensures
            r.enabled,
            r.ca_cert_path is None,
            r.ca_key_path is None,
            r.auto_generate_certs,
    {
        TlsConfig { enabled: true, ca_cert_path: None, ca_key_path: None, auto_generate_certs: true }
    }
}

/// A leaf certificate and its key.
#[derive(Debug)]
pub struct CertificateData {
    pub domain: String,
    pub cert_pem: String,
    pub key_pem: String,
}

impl Clone for CertificateData {
    fn clone(&self) -> (r: Self)
        ensures
            r == *self,
    {
        CertificateData {
            domain: self.domain.clone(),
            cert_pem: self.cert_pem.clone(),
            key_pem: self.key_pem.clone(),
        }
    }
}

/// The CA certificate and its key.
#[derive(Debug, Clone)]
pub struct CaCertificate {
    pub cert_pem: String,
    pub key_pem: String,
}

/// Issues certificates for intercepted hosts.
pub struct TlsHandler {
    config: TlsConfig,
}

impl TlsHandler {
    pub closed spec fn config_spec(&self) -> TlsConfig {
        self.config
    }

    /// A handler with the default configuration.
    pub fn new() -> (r: Self)
        ensures
            r.config_spec().enabled,
            r.config_spec().auto_generate_certs,
            r.config_spec().ca_cert_path is None,
            r.config_spec().ca_key_path is None,
    {
        TlsHandler { config: TlsConfig::default() }
    }

    pub fn with_config(config: TlsConfig) -> (r: Self)
        ensures
            r.config_spec() == config,
    {
        TlsHandler { config }
    }

    pub fn is_enabled(&self) -> (r: bool)
        ensures
            r == self.config_spec().enabled,
    {
        self.config.enabled
    }

    /// A certificate for `domain`. Its body is a placeholder: the handler
    /// stands in for a signing backend. With on-demand issuing off, an
    /// `InterceptionFailed` error.
    pub fn generate_cert_for_domain(&self, domain: &str) -> (r: Result<CertificateData, EngineError>)
        ensures
            self.config_spec().auto_generate_certs ==> (r matches Ok(c) && c.domain@ == domain@),
            !self.config_spec().auto_generate_certs ==> (r matches Err(e) && e is InterceptionFailed),
    {
        if !self.config.auto_generate_certs {
            return Err(EngineError::InterceptionFailed(
                "Auto-generation of certificates is disabled".to_string(),
            ));
        }
        Ok(CertificateData {
            domain: domain.to_string(),
            cert_pem: "PLACEHOLDER_CERT".to_string(),
            key_pem: "PLACEHOLDER_KEY".to_string(),
        })
    }

    /// The CA material named by the configuration; without both paths, a
    /// `ConfigError`. Reading the files is the host's part; the material
    /// returned here is a placeholder.
    pub fn load_ca_cert(&self) -> (r: Result<CaCertificate, EngineError>)
        ensures
            r is Ok <==> self.config_spec().ca_cert_path is Some && self.config_spec().ca_key_path is Some,
            r matches Err(e) ==> e is ConfigError,
    {
        match (&self.config.ca_cert_path, &self.config.ca_key_path) {
            (Some(_), Some(_)) => Ok(CaCertificate {
                cert_pem: "PLACEHOLDER_CA_CERT".to_string(),
                key_pem: "PLACEHOLDER_CA_KEY".to_string(),
            }),
            _ => Err(EngineError::ConfigError("CA certificate paths not configured".to_string())),
        }
    }

    /// Whether `cert` was issued for `domain`.
    pub fn verify_cert(&self, domain: &str, cert: &CertificateData) -> (r: bool)
        ensures
            r == (cert.domain@ == domain@),
    {
        same_text(cert.domain.as_str(), domain)
    }
}

impl Default for TlsHandler {
    fn default() -> (r: Self)
        ensures
            r.config_spec().enabled && r.config_spec().auto_generate_certs,
    {
        TlsHandler::new()
    }
}

/// Leaf certificates issued so far, one per host; entries never expire.
pub struct LeafCache {
    entries: Vec<CertificateData>,
}

/// Some entry of `entries` is for `host`.
pub open spec fn cached_for(entries: Seq<CertificateData>, host: Seq<char>) -> bool {
    exists|k: int| 0 <= k < entries.len() && (#[trigger] entries[k]).domain@ == host
}

impl LeafCache {
    pub closed spec fn entries(&self) -> Seq<CertificateData> {
        self.entries@
    }

    pub fn new() -> (r: Self)
        ensures
            r.entries().len() == 0,
    {
        LeafCache { entries: Vec::new() }
    }

    /// The certificate to terminate TLS for `host` on a CONNECT. A host
    /// the routing table does not serve gets an `InterceptionFailed` error
    /// and nothing is issued; a served host gets its cached certificate,
    /// or a new one that is then cached.
    pub fn certificate_for(&mut self, handler: &TlsHandler, table: &RoutingTable, host: &str) -> (r: Result<CertificateData, EngineError>)
        requires
            table.wf(),
        ensures
            (exists|found: Option<crate::routing::Route>| #[trigger] resolves(table@, host@, found) && found is None)
                ==> (r matches Err(e) && e is InterceptionFailed && final(self).entries() == old(self).entries()),
            r matches Ok(c) ==> c.domain@ == host@ && cached_for(final(self).entries(), host@)
                && exists|found: Option<crate::routing::Route>| #[trigger] resolves(table@, host@, found) && found is Some,
            (exists|found: Option<crate::routing::Route>| #[trigger] resolves(table@, host@, found) && found is Some)
                && (cached_for(old(self).entries(), host@) || handler.config_spec().auto_generate_certs)
                ==> (r matches Ok(c) && c.domain@ == host@),
            final(self).entries().len() <= old(self).entries().len() + 1,
            forall|k: int| 0 <= k < old(self).entries().len() ==> #[trigger] final(self).entries()[k] == old(self).entries()[k],
    {
        let route = table.lookup(host);
        proof {
            lemma_resolves_unique(table, host@, route);
        }
        if route.is_none() {
            return Err(EngineError::InterceptionFailed("No route for host".to_string()));
        }
        let mut k: usize = 0;
        while k < self.entries.len()
            invariant
                k <= self.entries@.len(),
                self.entries@ == old(self).entries@,
                route is Some,
                resolves(table@, host@, route),
                forall|other: Option<crate::routing::Route>| #[trigger] resolves(table@, host@, other) ==> other == route,
                forall|j: int| 0 <= j < k ==> (#[trigger] self.entries@[j]).domain@ != host@,
            decreases self.entries@.len() - k,
        {
            if same_text(self.entries[k].domain.as_str(), host) {
                assert(self.entries@[k as int].domain@ == host@);
                return Ok(self.entries[k].clone());
            }
            k = k + 1;
        }
        let cert = handler.generate_cert_for_domain(host)?;
        self.entries.push(cert.clone());
        assert(self.entries@[self.entries@.len() - 1] == cert);
        Ok(cert)
    }
}

proof fn lemma_resolves_unique(table: &RoutingTable, host: Seq<char>, found: Option<crate::routing::Route>)
    requires
        table.wf(),
        resolves(table@, host, found),
    ensures
        forall|other: Option<crate::routing::Route>| #[trigger] resolves(table@, host, other) ==> other == found,
{
    table.lemma_unique();
    assert forall|other: Option<crate::routing::Route>| #[trigger] resolves(table@, host, other) implies other == found by {
        crate::routing::lemma_routing_rules(table@, host, found, other);
    }
}

} // verus!
