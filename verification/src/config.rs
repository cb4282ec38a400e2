//! Resolving the five inputs from command-line values and file defaults.

use vstd::prelude::*;
use crate::errors::TokenError;

verus! {

/// The five inputs as one source (command line or config file) provides
/// them: any subset may be present.
pub struct PartialConfig {
    pub tenant_id: Option<String>,
    pub client_id: Option<String>,
    pub scope: Option<String>,
    pub key_path: Option<String>,
    pub cert_path: Option<String>,
}

/// The five resolved inputs the core consumes.
pub struct Config {
    pub tenant_id: String,
    pub client_id: String,
    pub scope: String,
    pub key_path: String,
    pub cert_path: String,
}

/// The first of two optional values, the overriding one first.
pub open spec fn first_of(primary: Option<String>, fallback: Option<String>) -> Option<String> {
    if primary is Some {
        primary
    } else {
        fallback
    }
}

/// Whether every required value is present in at least one of the sources.
pub open spec fn config_complete(cli: PartialConfig, defaults: PartialConfig) -> bool {
    &&& first_of(cli.tenant_id, defaults.tenant_id) is Some
    &&& first_of(cli.client_id, defaults.client_id) is Some
    &&& first_of(cli.scope, defaults.scope) is Some
    &&& first_of(cli.key_path, defaults.key_path) is Some
    &&& first_of(cli.cert_path, defaults.cert_path) is Some
}

impl Config {
    /// Merges command-line values over the defaults, field by field;
    /// command-line values always take precedence. Fails, before any
    /// cryptography or I/O, where a required value is in neither source.
    pub fn resolve(cli: PartialConfig, defaults: PartialConfig) -> (r: Result<Config, TokenError>)
        ensures
            r is Ok <==> config_complete(cli, defaults),
            r matches Ok(c) ==> {
                &&& first_of(cli.tenant_id, defaults.tenant_id) matches Some(v) && c.tenant_id@
                    == v@
                &&& first_of(cli.client_id, defaults.client_id) matches Some(v) && c.client_id@
                    == v@
                &&& first_of(cli.scope, defaults.scope) matches Some(v) && c.scope@ == v@
                &&& first_of(cli.key_path, defaults.key_path) matches Some(v) && c.key_path@ == v@
                &&& first_of(cli.cert_path, defaults.cert_path) matches Some(v) && c.cert_path@
                    == v@
            },
            r matches Err(e) ==> e == TokenError::ConfigurationError,
    {
        let tenant_id = match (cli.tenant_id, defaults.tenant_id) {
            (Some(v), _) => v,
            (None, Some(v)) => v,
            (None, None) => { return Err(TokenError::ConfigurationError); },
        };
        let client_id = match (cli.client_id, defaults.client_id) {
            (Some(v), _) => v,
            (None, Some(v)) => v,
            (None, None) => { return Err(TokenError::ConfigurationError); },
        };
        let scope = match (cli.scope, defaults.scope) {
            (Some(v), _) => v,
            (None, Some(v)) => v,
            (None, None) => { return Err(TokenError::ConfigurationError); },
        };
        let key_path = match (cli.key_path, defaults.key_path) {
            (Some(v), _) => v,
            (None, Some(v)) => v,
            (None, None) => { return Err(TokenError::ConfigurationError); },
        };
        let cert_path = match (cli.cert_path, defaults.cert_path) {
            (Some(v), _) => v,
            (None, Some(v)) => v,
            (None, None) => { return Err(TokenError::ConfigurationError); },
        };
        Ok(Config { tenant_id, client_id, scope, key_path, cert_path })
    }
}

} // verus!
