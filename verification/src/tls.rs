use vstd::prelude::*;
use crate::profile::ProfileKind;
use rustls::cipher_suite::TLS_ECDHE_RSA_WITH_AES_128_GCM_SHA256;
use rustls::cipher_suite::TLS_ECDHE_RSA_WITH_AES_256_GCM_SHA384;
use rustls::cipher_suite::TLS_ECDHE_RSA_WITH_CHACHA20_POLY1305_SHA256;

verus! {

/// rustls's server-name type, opaque here: it is parsed from a string and
/// handed to the TLS client unread.
#[verifier::external_type_specification]
#[verifier::external_body]
pub struct ExServerName(rustls::ServerName);

/// rustls's trust store of root certificates, opaque here: loaded once by
/// the caller and shared read-only by every profile.
#[verifier::external_type_specification]
#[verifier::external_body]
pub struct ExRootCertStore(rustls::RootCertStore);

/// A complete rustls client configuration, opaque here: the caller installs
/// the run's time-shifted certificate verifier before connecting.
#[verifier::external_type_specification]
#[verifier::external_body]
pub struct ExClientConfig(rustls::ClientConfig);

/// Whether rustls accepts a string as a server name, that is, parses it as a
/// DNS name or as an IP address; the answer depends on the characters of the
/// string alone.
pub uninterp spec fn is_valid_server_name(s: Seq<char>) -> bool;

/// Relies on `rustls::ServerName::try_from(&str)`: it parses the string as a
/// DNS name, then as an IP address, deterministically from the characters
/// alone, and errs exactly when both parses fail.
#[verifier::external_body]
fn parse_server_name(domain: &str) -> (name: Option<rustls::ServerName>)
    ensures
        name is Some <==> is_valid_server_name(domain@),
{
    rustls::ServerName::try_from(domain).ok()
}

/// The index of the first domain that rustls does not accept as a server
/// name, if any: a run checks its whole domain list up front, so a bad name
/// is reported before any connection is attempted.
pub fn find_invalid_domain(domains: &Vec<String>) -> (r: Option<usize>)
    ensures
        match r {
            None => forall|i: int| 0 <= i < domains@.len() ==> is_valid_server_name(domains@[i]@),
            Some(i) => i < domains@.len() && !is_valid_server_name(domains@[i as int]@) && forall|
                j: int,
            | 0 <= j < i ==> is_valid_server_name(domains@[j]@),
        },
{
    let mut i: usize = 0;
    while i < domains.len()
        invariant
            i <= domains@.len(),
            forall|j: int| 0 <= j < i ==> is_valid_server_name(domains@[j]@),
        decreases domains@.len() - i,
    {
        if parse_server_name(domains[i].as_str()).is_none() {
            return Some(i);
        }
        i += 1;
    }
    None
}

/// Relies on rustls's client config builder: safe default cipher suites, key
/// exchange groups and protocol versions over the given roots, with no
/// client authentication. The chain of builder calls cannot fail.
#[verifier::external_body]
fn build_modern_config(roots: rustls::RootCertStore) -> (config: rustls::ClientConfig) {
    rustls::ClientConfig::builder()
        .with_safe_defaults()
        .with_root_certificates(roots)
        .with_no_client_auth()
}

/// Relies on rustls's client config builder restricted to the TLS 1.2
/// RSA-key-exchange cipher suites: `with_protocol_versions` succeeds here
/// because every fixed suite supports TLS 1.2 and the default key-exchange
/// group list is non-empty, so the build always returns a configuration.
#[verifier::external_body]
fn build_tls12_rsa_config(roots: rustls::RootCertStore) -> (config: Option<rustls::ClientConfig>)
    ensures
        config is Some,
{
    let restricted = rustls::ClientConfig::builder()
        .with_cipher_suites(
            &[
                TLS_ECDHE_RSA_WITH_AES_256_GCM_SHA384,
                TLS_ECDHE_RSA_WITH_AES_128_GCM_SHA256,
                TLS_ECDHE_RSA_WITH_CHACHA20_POLY1305_SHA256,
            ],
        )
        .with_safe_default_kx_groups()
        .with_protocol_versions(&[&rustls::version::TLS12]);
    match restricted {
        Ok(b) => Some(b.with_root_certificates(roots).with_no_client_auth()),
        Err(_) => None,
    }
}

/// The TLS client configuration a profile exercises over the given roots:
/// rustls's safe defaults for the modern profile, and only the TLS 1.2
/// RSA-key-exchange suites for the legacy profile. A configuration is built
/// for every profile; the caller then installs the run's verifier.
pub fn base_config_for(profile: &ProfileKind, roots: rustls::RootCertStore) -> (config: Option<
    rustls::ClientConfig,
>)
    ensures
        config is Some,
{
    match profile {
        ProfileKind::ModernDefaults => Some(build_modern_config(roots)),
        ProfileKind::Tls12Rsa => build_tls12_rsa_config(roots),
    }
}

} // verus!
