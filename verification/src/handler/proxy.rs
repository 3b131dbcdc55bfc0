//! The proxy's settings and its DNS credentials.

use vstd::prelude::*;

use crate::db::queries::proxy::DnsProvider;
use crate::text::concat3;
use crate::utils::api_response::{ApiError, ApiErrorKind};

verus! {

/// A request to change the DNS provider (none turns DNS challenges off).
#[derive(Debug)]
pub struct UpdateProxyRequest {
    pub dns_provider: Option<DnsProvider>,
}

/// A request to point a DNS credential at a parameter.
#[derive(Debug)]
pub struct PutDnsCredentialRequest {
    pub parameter_key: String,
}

/// The range check of a credential request: a non-empty parameter key.
pub fn validate_put_dns_credential(body: &PutDnsCredentialRequest) -> (r: Result<(), ApiError>)
    ensures
        r is Ok <==> body.parameter_key@.len() > 0,
        r matches Err(e) ==> e.spec_view() == (
            ApiErrorKind::BadRequest,
            "parameter_key: parameter_key must not be empty"@,
        ),
{
    if body.parameter_key.as_str().is_empty() {
        return Err(ApiError::bad_request(String::from_str("parameter_key: parameter_key must not be empty")));
    }
    Ok(())
}

/// The message when no DNS credential has that name.
pub fn dns_credential_not_found(name: &str) -> (e: ApiError)
    ensures
        e.spec_view() == (ApiErrorKind::NotFound, "dns credential "@ + name@ + " not found"@),
{
    ApiError::not_found(concat3("dns credential ", name, " not found"))
}

} // verus!
