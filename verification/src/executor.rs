//! Sequential execution of a resolved chain.
//!
//! Execution is a fold with an accumulator of "current caller credentials":
//! the base supplies the first set, then each hop's delegation call consumes
//! the previous step's output and nothing older. The network transport is
//! outside this crate, so execution is driven step by step: `begin` starts
//! the fold, `next_hop_request` says which single call may be issued next
//! and with which request, and the `apply_*` functions fold each call's
//! outcome back in. A failure halts the chain at that step; no partial
//! credential set is ever returned.

use vstd::pervasive::unreached;
use vstd::prelude::*;
use crate::credentials::{attribute_cause, clone_opt_string, Credentials, CredentialsError,
    StsCredentials};
use crate::exec::{from_repr_ok, AssumeRoleProvider, ClientConfiguration, ProfileFileError,
    ProviderChain, ResolvedBase};
use crate::registry::NamedProviderFactory;
use crate::repr::{BaseProvider, ProfileChain};
use crate::session::{default_session_name, lemma_default_session_names_distinct,
    spec_default_session_name, spec_hop_session_purpose, spec_web_identity_session_purpose};

verus! {

/// One delegation request, ready for the remote call: the role to assume,
/// the optional external id, the session name (already defaulted if none was
/// declared), the upstream credentials as the calling identity, and the
/// region the call is scoped to.
#[derive(Debug, PartialEq, Eq)]
pub struct AssumeRoleRequest {
    pub role_arn: String,
    pub external_id: Option<String>,
    pub session_name: String,
    pub caller: Credentials,
    pub region: Option<String>,
}

/// Where one execution of a chain stands. Each execution owns its state;
/// the chain itself is never written during execution.
#[derive(Debug, PartialEq, Eq)]
pub enum ExecutionState {
    /// The base provider's credentials are still to be supplied.
    AwaitingBase,
    /// The base and the first `hops_done` hops have completed; `current`
    /// holds the latest credentials, the sole input to the next hop.
    HaveCredentials { hops_done: usize, current: Credentials },
    /// A step failed; the chain has halted at it.
    Failed { error: CredentialsError },
}

/// The request a hop builds for a caller identity under a configuration:
/// the hop's own fields, the upstream credentials as caller, and the session
/// name defaulted to the hop purpose exactly when none was declared.
pub open spec fn spec_request_ok(
    req: AssumeRoleRequest,
    hop: AssumeRoleProvider,
    caller: Credentials,
    config: ClientConfiguration,
) -> bool {
    &&& req.role_arn == hop.role_arn
    &&& req.external_id == hop.external_id
    &&& req.caller == caller
    &&& req.region == config.region
    &&& match hop.session_name {
        Some(declared) => req.session_name == declared,
        None => req.session_name@ == spec_default_session_name(spec_hop_session_purpose()),
    }
}

/// A delegation response usable as credentials: present, with both key
/// fields filled in.
pub open spec fn response_complete(resp: Option<StsCredentials>) -> bool {
    &&& resp matches Some(sts)
    &&& sts.access_key_id is Some
    &&& sts.secret_access_key is Some
}

/// What translation reports for an unusable delegation response.
pub open spec fn missing_field_message(resp: Option<StsCredentials>) -> Seq<char> {
    match resp {
        None => "STS response did not include credentials"@,
        Some(sts) => if sts.access_key_id is None {
            "STS credentials are missing the access key id"@
        } else {
            "STS credentials are missing the secret access key"@
        },
    }
}

/// A credential set is the faithful translation of a complete delegation
/// response, tagged with the producing provider's identity.
pub open spec fn translated_credentials_ok(
    c: Credentials,
    resp: Option<StsCredentials>,
    provider_name: Seq<char>,
) -> bool {
    &&& resp matches Some(sts)
    &&& sts.access_key_id matches Some(ak) && c.access_key_id == ak
    &&& sts.secret_access_key matches Some(sk) && c.secret_access_key == sk
    &&& c.session_token == resp->Some_0.session_token
    &&& c.expiration == resp->Some_0.expiration
    &&& c.provider_name@ == provider_name
}

/// Translates the temporary credential set of a delegation response into
/// the canonical credentials shape, tagged with the provider's identity for
/// error attribution. A response without both key fields is rejected, never
/// padded out.
pub fn into_credentials(sts_credentials: Option<StsCredentials>, provider_name: &str) -> (r:
    Result<Credentials, CredentialsError>)
    ensures
        response_complete(sts_credentials) ==> (r matches Ok(c) && translated_credentials_ok(
            c,
            sts_credentials,
            provider_name@,
        )),
        !response_complete(sts_credentials) ==> (r matches Err(e) && e matches
            CredentialsError::ProviderError { cause } && cause@ == missing_field_message(
            sts_credentials,
        )),
{
    match sts_credentials {
        None => Err(
            CredentialsError::ProviderError {
                cause: "STS response did not include credentials".to_owned(),
            },
        ),
        Some(sts) => {
            let StsCredentials { access_key_id, secret_access_key, session_token, expiration } =
                sts;
            match access_key_id {
                None => Err(
                    CredentialsError::ProviderError {
                        cause: "STS credentials are missing the access key id".to_owned(),
                    },
                ),
                Some(access_key_id) => match secret_access_key {
                    None => Err(
                        CredentialsError::ProviderError {
                            cause: "STS credentials are missing the secret access key".to_owned(),
                        },
                    ),
                    Some(secret_access_key) => Ok(
                        Credentials {
                            access_key_id,
                            secret_access_key,
                            session_token,
                            expiration,
                            provider_name: provider_name.to_owned(),
                        },
                    ),
                },
            }
        },
    }
}

impl AssumeRoleProvider {
    /// Builds this hop's scoped delegation request: the upstream credentials
    /// become the calling identity, the region comes from the configuration,
    /// and the session name is the declared one, else the hop default.
    pub fn assume_role_request(
        &self,
        input_credentials: Credentials,
        client_config: &ClientConfiguration,
    ) -> (r: AssumeRoleRequest)
        ensures
            spec_request_ok(r, *self, input_credentials, *client_config),
    {
        let session_name: String = match &self.session_name {
            Some(declared) => declared.clone(),
            None => default_session_name("assume-role-from-profile"),
        };
        AssumeRoleRequest {
            role_arn: self.role_arn.clone(),
            external_id: clone_opt_string(&self.external_id),
            session_name,
            caller: input_credentials,
            region: clone_opt_string(&client_config.region),
        }
    }
}

/// What one delegation-call outcome yields for a hop: a complete response
/// translates into new credentials, and any failure becomes a provider
/// error that names the hop's role and carries the underlying cause.
pub open spec fn hop_outcome_ok(
    hop: AssumeRoleProvider,
    outcome: Result<Option<StsCredentials>, String>,
    r: Result<Credentials, CredentialsError>,
) -> bool {
    match outcome {
        Err(cause) => {
            &&& r matches Err(e)
            &&& e matches CredentialsError::ProviderError { cause: attributed }
            &&& attributed@ == hop.role_arn@ + ": "@ + cause@
        },
        Ok(resp) => if response_complete(resp) {
            &&& r matches Ok(c)
            &&& translated_credentials_ok(c, resp, "AssumeRoleProvider"@)
        } else {
            &&& r matches Err(e)
            &&& e matches CredentialsError::ProviderError { cause: attributed }
            &&& attributed@ == hop.role_arn@ + ": "@ + missing_field_message(resp)
        },
    }
}

impl AssumeRoleProvider {
    /// Completes this hop once its delegation call has returned. A complete
    /// response translates into the hop's output credentials, tagged with
    /// this provider's identity; a transport failure or an unusable response
    /// becomes a provider error naming this hop's role and carrying the
    /// cause — never swallowed, and never retried here.
    pub fn credentials(&self, outcome: Result<Option<StsCredentials>, String>) -> (r: Result<
        Credentials,
        CredentialsError,
    >)
        ensures
            hop_outcome_ok(*self, outcome, r),
    {
        match outcome {
            Err(cause) => Err(
                CredentialsError::ProviderError {
                    cause: attribute_cause(&self.role_arn, cause),
                },
            ),
            Ok(resp) => match into_credentials(resp, "AssumeRoleProvider") {
                Ok(c) => Ok(c),
                Err(e) => {
                    let cause: String = match e {
                        CredentialsError::ProviderError { cause } => cause,
                    };
                    Err(
                        CredentialsError::ProviderError {
                            cause: attribute_cause(&self.role_arn, cause),
                        },
                    )
                },
            },
        }
    }
}

/// The index of the one hop a state allows to be called next, if any: the
/// hop right after the completed prefix, and none once all hops are done,
/// before the base has resolved, or after a failure.
pub open spec fn spec_pending_hop(chain: ProviderChain, state: ExecutionState) -> Option<int> {
    match state {
        ExecutionState::HaveCredentials { hops_done, .. } => if hops_done < chain.chain@.len() {
            Some(hops_done as int)
        } else {
            None
        },
        _ => None,
    }
}

/// How folding one hop outcome relates the states before and after: a
/// transport failure or an unusable response halts the chain with the error
/// attributed to the hop's role, and a complete response advances the fold
/// by exactly one hop, its translation becoming the new current credentials.
pub open spec fn hop_step_ok(
    chain: ProviderChain,
    pre: ExecutionState,
    outcome: Result<Option<StsCredentials>, String>,
    post: ExecutionState,
) -> bool {
    let k = pre->hops_done;
    let hop = chain.chain@[k as int];
    match post {
        ExecutionState::HaveCredentials { hops_done, current } => {
            &&& hops_done == k + 1
            &&& hop_outcome_ok(hop, outcome, Ok(current))
        },
        ExecutionState::Failed { error } => hop_outcome_ok(hop, outcome, Err(error)),
        ExecutionState::AwaitingBase => false,
    }
}

/// How an execution starts for each kind of base: with the stored
/// credentials themselves for a static key pair, and awaiting the outside
/// supply for every other base.
pub open spec fn begin_matches_base(chain: ProviderChain, s: ExecutionState) -> bool {
    match chain.base {
        ResolvedBase::Static(key) => s == (ExecutionState::HaveCredentials {
            hops_done: 0,
            current: key,
        }),
        _ => s == ExecutionState::AwaitingBase,
    }
}

impl ProviderChain {
    /// Starts one execution of the chain. A static base already holds its
    /// credentials, so the fold starts with them and no outside call; any
    /// other base must be supplied first.
    pub fn begin(&self) -> (s: ExecutionState)
        ensures
            begin_matches_base(*self, s),
    {
        match &self.base {
            ResolvedBase::Static(key) => ExecutionState::HaveCredentials {
                hops_done: 0,
                current: key.clone(),
            },
            _ => ExecutionState::AwaitingBase,
        }
    }

    /// Folds the base provider's outcome in: its credentials start the hop
    /// fold, its failure halts the chain as it stands.
    pub fn apply_base_outcome(&self, outcome: Result<Credentials, CredentialsError>) -> (s:
        ExecutionState)
        ensures
            outcome matches Ok(c) ==> s == (ExecutionState::HaveCredentials {
                hops_done: 0,
                current: c,
            }),
            outcome matches Err(e) ==> s == (ExecutionState::Failed { error: e }),
    {
        match outcome {
            Ok(c) => ExecutionState::HaveCredentials { hops_done: 0, current: c },
            Err(e) => ExecutionState::Failed { error: e },
        }
    }

    /// The single delegation call the state allows next, with its request:
    /// the pending hop's, built on the current credentials. `None` when the
    /// chain is done, not yet based, or halted — then no hop call may be
    /// issued at all.
    pub fn next_hop_request(&self, state: &ExecutionState, config: &ClientConfiguration) -> (r:
        Option<AssumeRoleRequest>)
        ensures
            r is Some <==> spec_pending_hop(*self, *state) is Some,
            r matches Some(req) ==> ({
                let k = spec_pending_hop(*self, *state)->Some_0;
                &&& *state matches ExecutionState::HaveCredentials { hops_done, current }
                &&& k == hops_done
                &&& spec_request_ok(req, self.chain@[k], current, *config)
            }),
    {
        match state {
            ExecutionState::HaveCredentials { hops_done, current } => {
                if *hops_done < self.chain.len() {
                    Some(self.chain[*hops_done].assume_role_request(current.clone(), config))
                } else {
                    None
                }
            },
            _ => None,
        }
    }

    /// Folds the pending hop's outcome in. On success the translated
    /// credentials replace the current ones — they alone feed the next hop;
    /// on any failure the chain halts here, the error naming the hop's role.
    pub fn apply_hop_outcome(
        &self,
        state: ExecutionState,
        outcome: Result<Option<StsCredentials>, String>,
    ) -> (s: ExecutionState)
        requires
            state matches ExecutionState::HaveCredentials { hops_done, .. } && hops_done
                < self.chain@.len(),
        ensures
            hop_step_ok(*self, state, outcome, s),
    {
        let hops_done: usize = match &state {
            ExecutionState::HaveCredentials { hops_done, .. } => *hops_done,
            _ => unreached(),
        };
        let hop_count: usize = self.chain.len();
        assert(hops_done < hop_count);
        match self.chain[hops_done].credentials(outcome) {
            Ok(current) => ExecutionState::HaveCredentials { hops_done: hops_done + 1, current },
            Err(error) => ExecutionState::Failed { error },
        }
    }

    /// Ends an execution: the final credentials of a fold that ran through
    /// every hop, or the error of the step at which it halted. A state still
    /// mid-chain is not accepted — a partial result is never handed out.
    pub fn finish(&self, state: ExecutionState) -> (r: Result<Credentials, CredentialsError>)
        requires
            !(state is AwaitingBase),
            state matches ExecutionState::HaveCredentials { hops_done, .. } ==> hops_done
                == self.chain@.len(),
        ensures
            state matches ExecutionState::HaveCredentials { current, .. } ==> (r matches Ok(c)
                && c == current),
            state matches ExecutionState::Failed { error } ==> (r matches Err(e) && e == error),
    {
        match state {
            ExecutionState::AwaitingBase => unreached(),
            ExecutionState::HaveCredentials { current, .. } => Ok(current),
            ExecutionState::Failed { error } => Err(error),
        }
    }
}

/// A hop without a declared session name always executes under the hop
/// default: a non-empty name tagged with the hop purpose and distinct from
/// the name the web-identity defaulting site produces.
pub proof fn lemma_hop_default_session_name(
    req: AssumeRoleRequest,
    hop: AssumeRoleProvider,
    caller: Credentials,
    config: ClientConfiguration,
)
    requires
        hop.session_name is None,
        spec_request_ok(req, hop, caller, config),
    ensures
        req.session_name@ == spec_default_session_name(spec_hop_session_purpose()),
        req.session_name@.len() > 0,
        req.session_name@ != spec_default_session_name(spec_web_identity_session_purpose()),
{
    lemma_default_session_names_distinct();
}

/// Hops run strictly in declaration order: when the step for the pending
/// hop k succeeds, the fold stands at exactly k + 1 completed hops, holding
/// the translated response, and the only hop that may be requested next is
/// hop k + 1 (none when k was the last); when the step fails, the chain is
/// halted and no hop is ever pending again.
pub proof fn lemma_hops_execute_in_order(
    chain: ProviderChain,
    pre: ExecutionState,
    outcome: Result<Option<StsCredentials>, String>,
    post: ExecutionState,
)
    requires
        spec_pending_hop(chain, pre) matches Some(k),
        hop_step_ok(chain, pre, outcome, post),
    ensures
        outcome matches Ok(resp) ==> (response_complete(resp) ==> ({
            &&& post matches ExecutionState::HaveCredentials { hops_done, current }
            &&& hops_done == spec_pending_hop(chain, pre)->Some_0 + 1
            &&& translated_credentials_ok(current, resp, "AssumeRoleProvider"@)
            &&& spec_pending_hop(chain, post) == (if hops_done < chain.chain@.len() {
                Some(hops_done as int)
            } else {
                None::<int>
            })
        })),
        outcome matches Ok(resp) ==> (!response_complete(resp) ==> (post is Failed
            && spec_pending_hop(chain, post) is None)),
        outcome is Err ==> (post is Failed && spec_pending_hop(chain, post) is None),
{
}

/// A halted chain stays halted: no state reached by a failure allows any
/// further hop call.
pub proof fn lemma_failure_halts_chain(chain: ProviderChain, state: ExecutionState)
    requires
        state is Failed,
    ensures
        spec_pending_hop(chain, state) is None,
{
}

/// Round trip for a static key-pair base: whatever chain the builder yields
/// for it and wherever `begin` starts that chain, execution starts already
/// holding exactly the declared credential set — no outside call supplied
/// it.
pub proof fn lemma_static_key_pair_round_trip(
    region: Option<String>,
    repr: ProfileChain,
    factory: NamedProviderFactory,
    r: Result<ProviderChain, ProfileFileError>,
    s: ExecutionState,
)
    requires
        repr.base matches BaseProvider::AccessKey(key),
        from_repr_ok(region, repr, factory, r),
        r matches Ok(chain) && begin_matches_base(chain, s),
    ensures
        s matches ExecutionState::HaveCredentials { hops_done, current } && hops_done == 0
            && current == repr.base->AccessKey_0,
{
}

} // verus!
