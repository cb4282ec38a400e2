// Tests of the token-endpoint URL, the request form body, the response
// reader, and configuration resolution.

use tokengen_cert::config::{Config, PartialConfig};
use tokengen_cert::endpoint::{AudienceResolver, TokenRequestAssembler};
use tokengen_cert::errors::TokenError;
use tokengen_cert::response::parse_token_response;

#[test]
fn resolve_builds_the_tenant_endpoint() {
    assert_eq!(
        AudienceResolver::resolve("contoso"),
        "https://login.microsoftonline.com/contoso/oauth2/v2.0/token"
    );
}

#[test]
fn resolve_passes_an_empty_tenant_through() {
    assert_eq!(
        AudienceResolver::resolve(""),
        "https://login.microsoftonline.com//oauth2/v2.0/token"
    );
}

#[test]
fn scope_param_keeps_the_fixed_prefix() {
    assert_eq!(
        TokenRequestAssembler::scope_param("api://x/.default"),
        "openid profile offline_access api://x/.default"
    );
    assert_eq!(TokenRequestAssembler::scope_param(""), "openid profile offline_access ");
}

#[test]
fn assemble_produces_the_five_form_fields() {
    let params = TokenRequestAssembler::assemble("c1", "api://x/.default", "h.p.s");
    assert_eq!(params.len(), 5);
    assert_eq!(params[0].0, "client_assertion_type");
    assert_eq!(params[0].1, "urn:ietf:params:oauth:client-assertion-type:jwt-bearer");
    assert_eq!(params[1].0, "grant_type");
    assert_eq!(params[1].1, "client_credentials");
    assert_eq!(params[2].0, "scope");
    assert_eq!(params[2].1, "openid profile offline_access api://x/.default");
    assert_eq!(params[3].0, "client_assertion");
    assert_eq!(params[3].1, "h.p.s");
    assert_eq!(params[4].0, "client_id");
    assert_eq!(params[4].1, "c1");
}

#[test]
fn response_with_token_is_accepted() {
    let body = "{\"token_type\":\"Bearer\",\"access_token\":\"abc123\"}";
    let response = parse_token_response(200, body).unwrap();
    assert_eq!(response.access_token, "abc123");
}

#[test]
fn missing_access_token_is_a_protocol_error() {
    let body = "{\"token_type\":\"Bearer\",\"expires_in\":3599}";
    let result = parse_token_response(200, body);
    assert!(matches!(result, Err(TokenError::ProtocolError)));
}

#[test]
fn non_json_body_is_a_protocol_error() {
    let result = parse_token_response(200, "<html>oops</html>");
    assert!(matches!(result, Err(TokenError::ProtocolError)));
}

#[test]
fn non_string_access_token_is_a_protocol_error() {
    let result = parse_token_response(200, "{\"access_token\":42}");
    assert!(matches!(result, Err(TokenError::ProtocolError)));
}

#[test]
fn error_status_is_an_authorization_error() {
    let body = "{\"error\":\"invalid_client\"}";
    let result = parse_token_response(400, body);
    assert!(matches!(result, Err(TokenError::AuthorizationError)));
}

fn partial(
    tenant_id: Option<&str>,
    client_id: Option<&str>,
    scope: Option<&str>,
    key_path: Option<&str>,
    cert_path: Option<&str>,
) -> PartialConfig {
    PartialConfig {
        tenant_id: tenant_id.map(|s| s.to_owned()),
        client_id: client_id.map(|s| s.to_owned()),
        scope: scope.map(|s| s.to_owned()),
        key_path: key_path.map(|s| s.to_owned()),
        cert_path: cert_path.map(|s| s.to_owned()),
    }
}

#[test]
fn command_line_values_take_precedence() {
    let cli = partial(Some("cli-tenant"), None, Some("cli-scope"), Some("k"), Some("c"));
    let defaults = partial(Some("file-tenant"), Some("file-client"), Some("file-scope"), None, None);
    let config = Config::resolve(cli, defaults).unwrap();
    assert_eq!(config.tenant_id, "cli-tenant");
    assert_eq!(config.client_id, "file-client");
    assert_eq!(config.scope, "cli-scope");
    assert_eq!(config.key_path, "k");
    assert_eq!(config.cert_path, "c");
}

#[test]
fn missing_value_in_both_sources_is_a_configuration_error() {
    let cli = partial(Some("t"), Some("c"), Some("s"), Some("k"), None);
    let defaults = partial(None, None, None, None, None);
    let result = Config::resolve(cli, defaults);
    assert!(matches!(result, Err(TokenError::ConfigurationError)));
}

#[test]
fn error_messages_name_the_stage() {
    assert_eq!(TokenError::ConfigurationError.message(), "missing required configuration value");
    assert_eq!(TokenError::ProtocolError.message(), "response carried no access_token field");
}
