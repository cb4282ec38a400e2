//! Error taxonomy of the token-acquisition flow.
//!
//! Every failure is fatal at this scope; each variant says which stage failed.

use vstd::prelude::*;

verus! {

/// One error per stage of the flow, so the invoker can tell which step failed.
#[derive(Debug, Clone, PartialEq, Eq)]
pub enum TokenError {
    /// A required configuration value was present in neither the command line
    /// nor the defaults.
    ConfigurationError,
    /// The key or certificate file could not be read (raised by the caller
    /// that performs the I/O).
    IOError,
    /// The private key bytes are not a usable PEM-encoded RSA key: they do
    /// not parse, name another key type, or the signing primitive rejects
    /// the key.
    KeyParseError,
    /// The certificate bytes are not valid PEM/DER.
    CertificateParseError,
    /// The cryptographic provider failed while drawing the fresh assertion
    /// id.
    SigningError,
    /// The token request could not be sent (raised by the caller that performs
    /// the I/O).
    NetworkError,
    /// The response was not JSON, or carried no `access_token` string field.
    ProtocolError,
    /// The identity provider answered with an OAuth2 error instead of a token.
    AuthorizationError,
}

impl TokenError {
    /// A short diagnostic naming the stage that failed.
    pub fn message(&self) -> (r: &'static str)
        ensures
            r@.len() > 0,
            self is ConfigurationError ==> r@ == "missing required configuration value"@,
            self is IOError ==> r@ == "could not read key or certificate file"@,
            self is KeyParseError ==> r@ == "private key is not a usable PEM-encoded RSA key"@,
            self is CertificateParseError ==> r@ == "certificate is not valid PEM/DER"@,
            self is SigningError ==> r@ == "signing operation failed"@,
            self is NetworkError ==> r@ == "token request could not be sent"@,
            self is ProtocolError ==> r@ == "response carried no access_token field"@,
            self is AuthorizationError ==> r@ == "identity provider rejected the request"@,
    {
        proof {
            reveal_strlit("missing required configuration value");
            reveal_strlit("could not read key or certificate file");
            reveal_strlit("private key is not a usable PEM-encoded RSA key");
            reveal_strlit("certificate is not valid PEM/DER");
            reveal_strlit("signing operation failed");
            reveal_strlit("token request could not be sent");
            reveal_strlit("response carried no access_token field");
            reveal_strlit("identity provider rejected the request");
        }
        match self {
            TokenError::ConfigurationError => "missing required configuration value",
            TokenError::IOError => "could not read key or certificate file",
            TokenError::KeyParseError => "private key is not a usable PEM-encoded RSA key",
            TokenError::CertificateParseError => "certificate is not valid PEM/DER",
            TokenError::SigningError => "signing operation failed",
            TokenError::NetworkError => "token request could not be sent",
            TokenError::ProtocolError => "response carried no access_token field",
            TokenError::AuthorizationError => "identity provider rejected the request",
        }
    }
}

} // verus!
