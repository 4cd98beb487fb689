//! The declarative form of a chain, as profile parsing hands it over:
//! a base provider variant plus an ordered list of role-assumption hops.

use vstd::prelude::*;
use crate::credentials::Credentials;

verus! {

/// The declared base credential source of a chain.
#[derive(Debug)]
pub enum BaseProvider {
    /// Resolve a provider by name through the registry.
    NamedSource(String),
    /// A directly constructible credential set: always resolves.
    AccessKey(Credentials),
    /// A web-identity-token role: resolved into a long-lived provider
    /// descriptor at build time; its file access and network happen later.
    WebIdentityTokenRole {
        role_arn: String,
        web_identity_token_file: String,
        session_name: Option<String>,
    },
}

/// One declared "assume this role" hop. Order among hops is significant and
/// is preserved exactly as declared.
#[derive(Debug)]
pub struct RoleArn {
    pub role_arn: String,
    pub external_id: Option<String>,
    pub session_name: Option<String>,
}

/// A whole declared chain: the base source and the hops, in order.
#[derive(Debug)]
pub struct ProfileChain {
    pub base: BaseProvider,
    pub chain: Vec<RoleArn>,
}

} // verus!
