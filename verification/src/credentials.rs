//! The canonical credential set and the errors that producing one can raise.

use vstd::prelude::*;
use vstd::string::StringExecFns;

verus! {

/// A resolved set of credentials: the output of the base provider and of
/// every delegation hop. Values are never mutated, only replaced, so each
/// step of a chain owns its own set.
#[derive(Debug, PartialEq, Eq)]
pub struct Credentials {
    pub access_key_id: String,
    pub secret_access_key: String,
    pub session_token: Option<String>,
    /// Expiration of the set, in whole seconds since the epoch; `None` for
    /// long-lived credentials such as a static key pair.
    pub expiration: Option<u64>,
    /// The provider that produced the set, kept for error attribution.
    pub provider_name: String,
}

/// The temporary credential fields of a delegation response, each optional
/// because the remote service's reply arrives field by field.
#[derive(Debug, PartialEq, Eq)]
pub struct StsCredentials {
    pub access_key_id: Option<String>,
    pub secret_access_key: Option<String>,
    pub session_token: Option<String>,
    pub expiration: Option<u64>,
}

/// An execution-time failure of the chain: a transport or service error from
/// a specific hop or from the base provider, carrying the original cause.
#[derive(Debug, PartialEq, Eq)]
pub enum CredentialsError {
    ProviderError { cause: String },
}

/// Clones an optional string, keeping the value exactly.
pub fn clone_opt_string(o: &Option<String>) -> (r: Option<String>)
    ensures
        r == *o,
{
    match o {
        Some(s) => Some(s.clone()),
        None => None,
    }
}

impl Clone for Credentials {
    fn clone(&self) -> (r: Self)
        ensures
            r == *self,
    {
        Credentials {
            access_key_id: self.access_key_id.clone(),
            secret_access_key: self.secret_access_key.clone(),
            session_token: clone_opt_string(&self.session_token),
            expiration: self.expiration,
            provider_name: self.provider_name.clone(),
        }
    }
}

impl Credentials {
    /// Builds a credential set directly from a key pair, as a static base
    /// provider holds it: no expiration, attributed to the static source.
    pub fn from_keys(access_key_id: String, secret_access_key: String, session_token: Option<
        String,
    >) -> (r: Credentials)
        ensures
            r.access_key_id == access_key_id,
            r.secret_access_key == secret_access_key,
            r.session_token == session_token,
            r.expiration is None,
            r.provider_name@ == "Static"@,
    {
        Credentials {
            access_key_id,
            secret_access_key,
            session_token,
            expiration: None,
            provider_name: "Static".to_owned(),
        }
    }
}

impl Clone for StsCredentials {
    fn clone(&self) -> (r: Self)
        ensures
            r == *self,
    {
        StsCredentials {
            access_key_id: clone_opt_string(&self.access_key_id),
            secret_access_key: clone_opt_string(&self.secret_access_key),
            session_token: clone_opt_string(&self.session_token),
            expiration: self.expiration,
        }
    }
}

impl CredentialsError {
    /// The human-readable description of the failure; it names the cause the
    /// failing provider reported.
    pub fn message(&self) -> (r: String)
        ensures
            *self matches CredentialsError::ProviderError { cause } ==> r@ == cause@,
    {
        match self {
            CredentialsError::ProviderError { cause } => cause.clone(),
        }
    }
}

/// Prefixes an execution-time failure with the identity that was being
/// assumed, so a multi-hop failure names the failing hop.
pub fn attribute_cause(role_arn: &String, cause: String) -> (r: String)
    ensures
        r@ == role_arn@ + ": "@ + cause@,
{
    role_arn.clone().concat(": ").concat(cause.as_str())
}

} // verus!
