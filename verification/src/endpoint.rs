//! The token endpoint for a tenant, and the form body of the token request.

use vstd::prelude::*;
use vstd::string::StringExecFns;

verus! {

/// The token-endpoint URL for a tenant.
pub open spec fn audience_of(tenant: Seq<char>) -> Seq<char> {
    "https://login.microsoftonline.com/"@ + tenant + "/oauth2/v2.0/token"@
}

/// Maps a tenant id to its OAuth2 token endpoint. The tenant id is passed
/// through unvalidated: a malformed tenant merely yields an endpoint the
/// identity provider will reject.
pub struct AudienceResolver;

impl AudienceResolver {
    pub fn resolve(tenant_id: &str) -> (r: String)
        ensures
            r@ == audience_of(tenant_id@),
    {
        let mut s = "https://login.microsoftonline.com/".to_owned();
        s.append(tenant_id);
        s.append("/oauth2/v2.0/token");
        s
    }
}

/// The fixed scope prefix every token request carries.
pub open spec fn scope_prefix() -> Seq<char> {
    "openid profile offline_access "@
}

/// The scope parameter: the fixed OIDC scopes, then the caller's scope,
/// verbatim.
pub open spec fn full_scope_of(scope: Seq<char>) -> Seq<char> {
    scope_prefix() + scope
}

/// The form fields of the token request, as key-value pairs in order.
pub open spec fn token_request_params(
    client_id: Seq<char>,
    scope: Seq<char>,
    assertion: Seq<char>,
) -> Seq<(Seq<char>, Seq<char>)> {
    seq![
        ("client_assertion_type"@, "urn:ietf:params:oauth:client-assertion-type:jwt-bearer"@),
        ("grant_type"@, "client_credentials"@),
        ("scope"@, full_scope_of(scope)),
        ("client_assertion"@, assertion),
        ("client_id"@, client_id),
    ]
}

/// The scope parameter always begins with the three fixed OIDC scopes and
/// ends with the caller's scope, unchanged.
pub proof fn lemma_scope_prefix(scope: Seq<char>)
    ensures
        full_scope_of(scope).len() == scope_prefix().len() + scope.len(),
        full_scope_of(scope).subrange(0, scope_prefix().len() as int) == scope_prefix(),
        full_scope_of(scope).skip(scope_prefix().len() as int) == scope,
{
    assert(full_scope_of(scope).subrange(0, scope_prefix().len() as int) =~= scope_prefix());
    assert(full_scope_of(scope).skip(scope_prefix().len() as int) =~= scope);
}

/// Assembles the fields of the `application/x-www-form-urlencoded` token
/// request body (the percent-encoding itself is the HTTP client's work).
pub struct TokenRequestAssembler;

impl TokenRequestAssembler {
    /// The scope parameter for a caller-supplied scope.
    pub fn scope_param(scope: &str) -> (r: String)
        ensures
            r@ == full_scope_of(scope@),
    {
        let mut s = "openid profile offline_access ".to_owned();
        s.append(scope);
        s
    }

    /// All five form fields, in order.
    pub fn assemble(client_id: &str, scope: &str, assertion: &str) -> (r: Vec<(String, String)>)
        ensures
            r@.len() == 5,
            r@[0].0@ == token_request_params(client_id@, scope@, assertion@)[0].0,
            r@[0].1@ == token_request_params(client_id@, scope@, assertion@)[0].1,
            r@[1].0@ == token_request_params(client_id@, scope@, assertion@)[1].0,
            r@[1].1@ == token_request_params(client_id@, scope@, assertion@)[1].1,
            r@[2].0@ == token_request_params(client_id@, scope@, assertion@)[2].0,
            r@[2].1@ == token_request_params(client_id@, scope@, assertion@)[2].1,
            r@[3].0@ == token_request_params(client_id@, scope@, assertion@)[3].0,
            r@[3].1@ == token_request_params(client_id@, scope@, assertion@)[3].1,
            r@[4].0@ == token_request_params(client_id@, scope@, assertion@)[4].0,
            r@[4].1@ == token_request_params(client_id@, scope@, assertion@)[4].1,
    {
        let mut r: Vec<(String, String)> = Vec::new();
        r.push((
            "client_assertion_type".to_owned(),
            "urn:ietf:params:oauth:client-assertion-type:jwt-bearer".to_owned(),
        ));
        r.push(("grant_type".to_owned(), "client_credentials".to_owned()));
        r.push(("scope".to_owned(), Self::scope_param(scope)));
        r.push(("client_assertion".to_owned(), assertion.to_owned()));
        r.push(("client_id".to_owned(), client_id.to_owned()));
        r
    }
}

} // verus!
