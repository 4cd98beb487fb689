//! Building a resolved chain out of its declarative form.
//!
//! `ProviderChain::from_repr` resolves the base exactly once, at build time:
//! a named source through the registry (failing fast when the name is
//! unknown, before any hop is constructed), a static key pair directly, and
//! a web-identity-token role into a provider descriptor with its session
//! name defaulted. The hop descriptors map one to one, order preserved. On
//! failure no partial chain is returned.

use vstd::prelude::*;
use vstd::string::StringExecFns;
use crate::credentials::{clone_opt_string, Credentials};
use crate::registry::{NamedProviderFactory, ProviderHandle};
use crate::repr::{BaseProvider, ProfileChain, RoleArn};
use crate::session::{default_session_name, spec_default_session_name, spec_hop_session_purpose,
    spec_web_identity_session_purpose};

verus! {

/// A build-time failure: the chain never came into being and no network
/// call was issued.
#[derive(Debug, PartialEq, Eq)]
pub enum ProfileFileError {
    /// The declared base names a provider the registry does not know.
    UnknownProvider { name: String },
}

impl ProfileFileError {
    /// The expected message of an unknown-provider failure, naming the
    /// unresolved provider.
    pub open spec fn spec_unknown_provider_message(name: Seq<char>) -> Seq<char> {
        "profile referenced `"@ + name + "` provider but that provider is not supported"@
    }

    /// The human-readable description of the failure; it names the provider
    /// that could not be resolved.
    pub fn message(&self) -> (r: String)
        ensures
            *self matches ProfileFileError::UnknownProvider { name } ==> r@
                == Self::spec_unknown_provider_message(name@),
    {
        match self {
            ProfileFileError::UnknownProvider { name } => "profile referenced `".to_owned().concat(
                name.as_str(),
            ).concat("` provider but that provider is not supported"),
        }
    }
}

/// The static configuration of a resolved web-identity-token base: the token
/// file, the role to assume, and the session name, already defaulted when
/// none was declared.
#[derive(Debug, PartialEq, Eq)]
pub struct WebIdentityTokenRole {
    pub web_identity_token_file: String,
    pub role_arn: String,
    pub session_name: String,
}

/// One resolved "assume this role" hop of a chain. Its session name, when
/// absent, is defaulted at execution time, not here.
#[derive(Debug, PartialEq, Eq)]
pub struct AssumeRoleProvider {
    pub role_arn: String,
    pub external_id: Option<String>,
    pub session_name: Option<String>,
}

impl AssumeRoleProvider {
    /// The role this hop assumes.
    pub fn role_arn(&self) -> (r: &String)
        ensures
            r == &self.role_arn,
    {
        &self.role_arn
    }

    /// The confused-deputy-prevention token the hop passes along, if any.
    pub fn external_id(&self) -> (r: &Option<String>)
        ensures
            r == &self.external_id,
    {
        &self.external_id
    }

    /// The explicitly declared session name, if any.
    pub fn session_name(&self) -> (r: &Option<String>)
        ensures
            r == &self.session_name,
    {
        &self.session_name
    }
}

/// The base credential source of a resolved chain, fixed at build time;
/// the registry is never consulted again afterwards.
#[derive(Debug, PartialEq, Eq)]
pub enum ResolvedBase {
    /// A provider the registry knew under the declared name.
    Named(ProviderHandle),
    /// An in-memory credential set; supplying it needs no outside call.
    Static(Credentials),
    /// A web-identity-token provider descriptor; the application runs it
    /// with this configuration and the region the chain was built with.
    WebIdentityToken { role: WebIdentityTokenRole, region: Option<String> },
}

/// Configuration for the remote delegation calls of one chain execution.
pub struct ClientConfiguration {
    pub region: Option<String>,
}

/// A resolved chain: the base source and the hops, in declaration order.
/// Immutable once built.
#[derive(Debug)]
pub struct ProviderChain {
    pub base: ResolvedBase,
    pub chain: Vec<AssumeRoleProvider>,
}

/// A resolved hop carries exactly the fields its descriptor declared.
pub open spec fn hop_ok(hop: AssumeRoleProvider, declared: RoleArn) -> bool {
    &&& hop.role_arn == declared.role_arn
    &&& hop.external_id == declared.external_id
    &&& hop.session_name == declared.session_name
}

/// The resolved hops match the declared ones, one to one and in order.
pub open spec fn hops_ok(hops: Seq<AssumeRoleProvider>, declared: Seq<RoleArn>) -> bool {
    &&& hops.len() == declared.len()
    &&& forall|i: int| 0 <= i < declared.len() ==> hop_ok(#[trigger] hops[i], declared[i])
}

/// Everything `from_repr` promises of its result, for every declarative
/// chain: which base the declaration resolves to, that hops map one to one
/// in order, and that an unknown named source is the one failure.
pub open spec fn from_repr_ok(
    region: Option<String>,
    repr: ProfileChain,
    factory: NamedProviderFactory,
    r: Result<ProviderChain, ProfileFileError>,
) -> bool {
    match repr.base {
        BaseProvider::NamedSource(name) => match factory.spec_lookup(name@) {
            Some(handle) => {
                &&& r matches Ok(chain)
                &&& chain.base == ResolvedBase::Named(handle)
                &&& hops_ok(chain.chain@, repr.chain@)
            },
            None => {
                &&& r matches Err(e)
                &&& e == (ProfileFileError::UnknownProvider { name })
            },
        },
        BaseProvider::AccessKey(key) => {
            &&& r matches Ok(chain)
            &&& chain.base == ResolvedBase::Static(key)
            &&& hops_ok(chain.chain@, repr.chain@)
        },
        BaseProvider::WebIdentityTokenRole { role_arn, web_identity_token_file, session_name } => {
            &&& r matches Ok(chain)
            &&& chain.base matches ResolvedBase::WebIdentityToken { role, region: reg }
            &&& reg == region
            &&& role.role_arn == role_arn
            &&& role.web_identity_token_file == web_identity_token_file
            &&& match session_name {
                Some(declared) => role.session_name == declared,
                None => role.session_name@ == spec_default_session_name(
                    spec_web_identity_session_purpose(),
                ),
            }
            &&& hops_ok(chain.chain@, repr.chain@)
        },
    }
}

impl ProviderChain {
    /// The base source the chain was resolved to.
    pub fn base(&self) -> (r: &ResolvedBase)
        ensures
            r == &self.base,
    {
        &self.base
    }

    /// The resolved hops, in declaration order, read-only.
    pub fn chain(&self) -> (r: &Vec<AssumeRoleProvider>)
        ensures
            r == &self.chain,
    {
        &self.chain
    }

    /// Resolves a declarative chain: the base through the registry or the
    /// inline constructors, then every hop descriptor one to one, order
    /// preserved. Fails fast with `UnknownProvider` when a named source is
    /// absent from the registry, before any hop is constructed; nothing here
    /// performs any outside call.
    pub fn from_repr(
        region: Option<String>,
        repr: ProfileChain,
        factory: &NamedProviderFactory,
    ) -> (r: Result<ProviderChain, ProfileFileError>)
        ensures
            from_repr_ok(region, repr, *factory, r),
    {
        let base: ResolvedBase = match repr.base {
            BaseProvider::NamedSource(name) => match factory.provider(name.as_str()) {
                Some(handle) => ResolvedBase::Named(handle),
                None => {
                    return Err(ProfileFileError::UnknownProvider { name });
                },
            },
            BaseProvider::AccessKey(key) => ResolvedBase::Static(key),
            BaseProvider::WebIdentityTokenRole {
                role_arn,
                web_identity_token_file,
                session_name,
            } => {
                let session_name: String = match session_name {
                    Some(declared) => declared,
                    None => default_session_name("web-identity-token-profile"),
                };
                ResolvedBase::WebIdentityToken {
                    role: WebIdentityTokenRole { web_identity_token_file, role_arn, session_name },
                    region,
                }
            },
        };
        let n: usize = repr.chain.len();
        let mut hops: Vec<AssumeRoleProvider> = Vec::new();
        let mut i: usize = 0;
        while i < n
            invariant
                0 <= i <= n,
                n == repr.chain@.len(),
                hops@.len() == i,
                forall|j: int| 0 <= j < i ==> hop_ok(#[trigger] hops@[j], repr.chain@[j]),
            decreases n - i,
        {
            let declared: &RoleArn = &repr.chain[i];
            hops.push(AssumeRoleProvider {
                role_arn: declared.role_arn.clone(),
                external_id: clone_opt_string(&declared.external_id),
                session_name: clone_opt_string(&declared.session_name),
            });
            i = i + 1;
        }
        Ok(ProviderChain { base, chain: hops })
    }
}

/// A declarative chain whose base names a provider the registry does not
/// know fails to build with `UnknownProvider` carrying that very name — and
/// with nothing else: no chain value exists on which anything could run.
pub proof fn lemma_unknown_provider_fails_fast(
    region: Option<String>,
    repr: ProfileChain,
    factory: NamedProviderFactory,
    r: Result<ProviderChain, ProfileFileError>,
)
    requires
        repr.base matches BaseProvider::NamedSource(name),
        factory.spec_lookup(repr.base->NamedSource_0@) is None,
        from_repr_ok(region, repr, factory, r),
    ensures
        r matches Err(e) && e == (ProfileFileError::UnknownProvider {
            name: repr.base->NamedSource_0,
        }),
{
}

/// A successful build yields exactly as many hops as were declared, each
/// carrying its descriptor's fields, in declaration order.
pub proof fn lemma_build_preserves_hop_order(
    region: Option<String>,
    repr: ProfileChain,
    factory: NamedProviderFactory,
    r: Result<ProviderChain, ProfileFileError>,
)
    requires
        from_repr_ok(region, repr, factory, r),
        r matches Ok(chain),
    ensures
        r->Ok_0.chain@.len() == repr.chain@.len(),
        forall|i: int|
            0 <= i < repr.chain@.len() ==> hop_ok(#[trigger] r->Ok_0.chain@[i], repr.chain@[i]),
{
}

} // verus!
