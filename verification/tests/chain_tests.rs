use credential_chain::credentials::{Credentials, CredentialsError, StsCredentials};
use credential_chain::exec::{ClientConfiguration, ProviderChain, ResolvedBase};
use credential_chain::executor::{into_credentials, ExecutionState};
use credential_chain::registry::{NamedProviderFactory, ProviderHandle};
use credential_chain::repr::{BaseProvider, ProfileChain, RoleArn};
use credential_chain::session::default_session_name;

fn hop(role_arn: &str, external_id: Option<&str>, session_name: Option<&str>) -> RoleArn {
    RoleArn {
        role_arn: role_arn.to_string(),
        external_id: external_id.map(|id| id.to_string()),
        session_name: session_name.map(|name| name.to_string()),
    }
}

fn response(access_key_id: &str) -> StsCredentials {
    StsCredentials {
        access_key_id: Some(access_key_id.to_string()),
        secret_access_key: Some("hop-secret".to_string()),
        session_token: Some("hop-token".to_string()),
        expiration: Some(1_700_000_000),
    }
}

#[test]
fn error_on_unknown_provider() {
    let factory = NamedProviderFactory::new(Vec::new());
    let chain = ProviderChain::from_repr(
        Some("us-east-1".to_string()),
        ProfileChain {
            base: BaseProvider::NamedSource("floozle".to_string()),
            chain: vec![],
        },
        &factory,
    );
    let err = chain.expect_err("no source by that name");
    let rendered = err.message();
    assert!(
        rendered.contains("profile referenced `floozle` provider but that provider is not supported"),
        "`{}` did not match expected error",
        rendered
    );
}

#[test]
fn named_provider_resolves_to_registered_handle() {
    let factory = NamedProviderFactory::new(vec![
        ("Environment".to_string(), ProviderHandle { id: 7 }),
        ("Ec2InstanceMetadata".to_string(), ProviderHandle { id: 8 }),
    ]);
    assert_eq!(factory.provider("Environment"), Some(ProviderHandle { id: 7 }));
    assert_eq!(factory.provider("Ec2InstanceMetadata"), Some(ProviderHandle { id: 8 }));
    assert_eq!(factory.provider("floozle"), None);

    let chain = ProviderChain::from_repr(
        None,
        ProfileChain {
            base: BaseProvider::NamedSource("Environment".to_string()),
            chain: vec![],
        },
        &factory,
    )
    .expect("a registered name resolves");
    assert!(matches!(chain.base(), ResolvedBase::Named(handle) if handle.id == 7));
}

#[test]
fn build_preserves_hop_count_and_order() {
    let factory = NamedProviderFactory::new(Vec::new());
    let declared = ProfileChain {
        base: BaseProvider::AccessKey(Credentials::from_keys(
            "AKIA...".to_string(),
            "secret".to_string(),
            None,
        )),
        chain: vec![
            hop("arn:aws:iam::111111111111:role/A", None, None),
            hop("arn:aws:iam::222222222222:role/B", Some("eid"), Some("declared-session")),
        ],
    };
    let chain = ProviderChain::from_repr(None, declared, &factory).expect("static base builds");
    assert_eq!(chain.chain().len(), 2);
    assert_eq!(chain.chain()[0].role_arn().as_str(), "arn:aws:iam::111111111111:role/A");
    assert!(chain.chain()[0].external_id().is_none());
    assert!(chain.chain()[0].session_name().is_none());
    assert_eq!(chain.chain()[1].role_arn().as_str(), "arn:aws:iam::222222222222:role/B");
    assert_eq!(chain.chain()[1].external_id().as_deref(), Some("eid"));
    assert_eq!(chain.chain()[1].session_name().as_deref(), Some("declared-session"));
}

#[test]
fn default_session_names_are_purpose_tagged_and_distinct() {
    let hop_default = default_session_name("assume-role-from-profile");
    let web_default = default_session_name("web-identity-token-profile");
    assert!(!hop_default.is_empty());
    assert!(hop_default.starts_with("assume-role-from-profile"));
    assert!(web_default.starts_with("web-identity-token-profile"));
    assert_ne!(hop_default, web_default);
    assert_eq!(hop_default.as_str(), "assume-role-from-profile-default-session");
    assert_eq!(web_default.as_str(), "web-identity-token-profile-default-session");
}

#[test]
fn static_key_pair_round_trip() {
    let factory = NamedProviderFactory::new(Vec::new());
    let declared = ProfileChain {
        base: BaseProvider::AccessKey(Credentials::from_keys(
            "AKIA...".to_string(),
            "secret".to_string(),
            None,
        )),
        chain: vec![],
    };
    let chain = ProviderChain::from_repr(None, declared, &factory).expect("static base builds");
    let state = chain.begin();
    match &state {
        ExecutionState::HaveCredentials { hops_done, current } => {
            assert_eq!(*hops_done, 0);
            assert_eq!(current.access_key_id.as_str(), "AKIA...");
            assert_eq!(current.secret_access_key.as_str(), "secret");
            assert!(current.session_token.is_none());
        }
        other => panic!("a static base must start with its own credentials, got {:?}", other),
    }
    let config = ClientConfiguration { region: None };
    assert!(chain.next_hop_request(&state, &config).is_none());
    let result = chain.finish(state).expect("an empty chain is already complete");
    assert_eq!(result.access_key_id.as_str(), "AKIA...");
    assert_eq!(result.secret_access_key.as_str(), "secret");
    assert!(result.session_token.is_none());
}

#[test]
fn single_hop_calls_once_with_static_caller_and_generated_session_name() {
    let factory = NamedProviderFactory::new(Vec::new());
    let declared = ProfileChain {
        base: BaseProvider::AccessKey(Credentials::from_keys(
            "AKIA...".to_string(),
            "secret".to_string(),
            None,
        )),
        chain: vec![hop("arn:aws:iam::111111111111:role/A", None, None)],
    };
    let chain = ProviderChain::from_repr(None, declared, &factory).expect("build succeeds");
    assert_eq!(chain.chain().len(), 1);

    let config = ClientConfiguration { region: Some("us-east-1".to_string()) };
    let mut state = chain.begin();
    let mut calls: usize = 0;
    while let Some(request) = chain.next_hop_request(&state, &config) {
        calls += 1;
        assert_eq!(request.role_arn.as_str(), "arn:aws:iam::111111111111:role/A");
        assert_eq!(request.caller.access_key_id.as_str(), "AKIA...");
        assert_eq!(request.caller.secret_access_key.as_str(), "secret");
        assert_eq!(request.session_name.as_str(), "assume-role-from-profile-default-session");
        assert_eq!(request.region.as_deref(), Some("us-east-1"));
        state = chain.apply_hop_outcome(state, Ok(Some(response("ASIA-FIRST"))));
    }
    assert_eq!(calls, 1, "exactly one delegation call must be issued");
    let result = chain.finish(state).expect("the chain completed");
    assert_eq!(result.access_key_id.as_str(), "ASIA-FIRST");
    assert_eq!(result.secret_access_key.as_str(), "hop-secret");
    assert_eq!(result.session_token.as_deref(), Some("hop-token"));
    assert_eq!(result.expiration, Some(1_700_000_000));
    assert_eq!(result.provider_name.as_str(), "AssumeRoleProvider");
}

#[test]
fn two_hops_execute_sequentially_each_consuming_the_previous_result() {
    let factory = NamedProviderFactory::new(Vec::new());
    let declared = ProfileChain {
        base: BaseProvider::AccessKey(Credentials::from_keys(
            "AKIA...".to_string(),
            "secret".to_string(),
            None,
        )),
        chain: vec![
            hop("arn:aws:iam::111111111111:role/R1", None, None),
            hop("arn:aws:iam::222222222222:role/R2", Some("eid"), None),
        ],
    };
    let chain = ProviderChain::from_repr(None, declared, &factory).expect("build succeeds");

    let config = ClientConfiguration { region: None };
    let mut state = chain.begin();
    let mut calls: usize = 0;
    while let Some(request) = chain.next_hop_request(&state, &config) {
        calls += 1;
        match calls {
            1 => {
                assert_eq!(request.role_arn.as_str(), "arn:aws:iam::111111111111:role/R1");
                assert!(request.external_id.is_none());
                assert_eq!(request.caller.access_key_id.as_str(), "AKIA...");
                state = chain.apply_hop_outcome(state, Ok(Some(response("ASIA-R1"))));
            }
            2 => {
                assert_eq!(request.role_arn.as_str(), "arn:aws:iam::222222222222:role/R2");
                assert_eq!(request.external_id.as_deref(), Some("eid"));
                assert_eq!(
                    request.caller.access_key_id.as_str(),
                    "ASIA-R1",
                    "the second hop must consume the first hop's result"
                );
                state = chain.apply_hop_outcome(state, Ok(Some(response("ASIA-R2"))));
            }
            _ => panic!("more than two delegation calls were issued"),
        }
    }
    assert_eq!(calls, 2, "exactly two sequential delegation calls must be issued");
    let result = chain.finish(state).expect("the chain completed");
    assert_eq!(result.access_key_id.as_str(), "ASIA-R2");
}

#[test]
fn transport_failure_halts_the_chain_and_names_the_role() {
    let factory = NamedProviderFactory::new(Vec::new());
    let declared = ProfileChain {
        base: BaseProvider::AccessKey(Credentials::from_keys(
            "AKIA...".to_string(),
            "secret".to_string(),
            None,
        )),
        chain: vec![
            hop("arn:aws:iam::111111111111:role/R1", None, None),
            hop("arn:aws:iam::222222222222:role/R2", None, None),
        ],
    };
    let chain = ProviderChain::from_repr(None, declared, &factory).expect("build succeeds");

    let config = ClientConfiguration { region: None };
    let mut state = chain.begin();
    let request = chain.next_hop_request(&state, &config);
    assert!(request.is_some());
    state = chain.apply_hop_outcome(state, Err("connection reset".to_string()));
    assert!(
        chain.next_hop_request(&state, &config).is_none(),
        "no further hop may run after a failure"
    );
    let err = chain.finish(state).expect_err("a halted chain reports its first failure");
    assert_eq!(
        err.message().as_str(),
        "arn:aws:iam::111111111111:role/R1: connection reset"
    );
}

#[test]
fn base_provider_failure_is_returned_unchanged() {
    let factory = NamedProviderFactory::new(vec![("custom".to_string(), ProviderHandle { id: 1 })]);
    let declared = ProfileChain {
        base: BaseProvider::NamedSource("custom".to_string()),
        chain: vec![hop("arn:aws:iam::111111111111:role/R1", None, None)],
    };
    let chain = ProviderChain::from_repr(None, declared, &factory).expect("build succeeds");

    let state = chain.begin();
    assert!(matches!(state, ExecutionState::AwaitingBase));
    let failed = chain.apply_base_outcome(Err(CredentialsError::ProviderError {
        cause: "environment variables not set".to_string(),
    }));
    let config = ClientConfiguration { region: None };
    assert!(chain.next_hop_request(&failed, &config).is_none());
    let err = chain.finish(failed).expect_err("the base failure surfaces");
    assert_eq!(err.message().as_str(), "environment variables not set");
}

#[test]
fn base_provider_success_feeds_the_first_hop() {
    let factory = NamedProviderFactory::new(vec![("custom".to_string(), ProviderHandle { id: 1 })]);
    let declared = ProfileChain {
        base: BaseProvider::NamedSource("custom".to_string()),
        chain: vec![hop("arn:aws:iam::111111111111:role/R1", None, None)],
    };
    let chain = ProviderChain::from_repr(None, declared, &factory).expect("build succeeds");

    let state = chain.apply_base_outcome(Ok(Credentials::from_keys(
        "AKIA-BASE".to_string(),
        "base-secret".to_string(),
        None,
    )));
    let config = ClientConfiguration { region: None };
    let request = chain.next_hop_request(&state, &config).expect("one hop is pending");
    assert_eq!(request.caller.access_key_id.as_str(), "AKIA-BASE");
}

#[test]
fn web_identity_base_defaults_its_session_name_at_build_time() {
    let factory = NamedProviderFactory::new(Vec::new());
    let declared = ProfileChain {
        base: BaseProvider::WebIdentityTokenRole {
            role_arn: "arn:aws:iam::333333333333:role/web".to_string(),
            web_identity_token_file: "/var/run/secrets/token".to_string(),
            session_name: None,
        },
        chain: vec![],
    };
    let chain = ProviderChain::from_repr(Some("eu-west-1".to_string()), declared, &factory)
        .expect("a web identity base always builds");
    match chain.base() {
        ResolvedBase::WebIdentityToken { role, region } => {
            assert_eq!(role.role_arn.as_str(), "arn:aws:iam::333333333333:role/web");
            assert_eq!(role.web_identity_token_file.as_str(), "/var/run/secrets/token");
            assert_eq!(role.session_name.as_str(), "web-identity-token-profile-default-session");
            assert_eq!(region.as_deref(), Some("eu-west-1"));
        }
        other => panic!("expected a web identity base, got {:?}", other),
    }
}

#[test]
fn web_identity_base_keeps_a_declared_session_name() {
    let factory = NamedProviderFactory::new(Vec::new());
    let declared = ProfileChain {
        base: BaseProvider::WebIdentityTokenRole {
            role_arn: "arn:aws:iam::333333333333:role/web".to_string(),
            web_identity_token_file: "/var/run/secrets/token".to_string(),
            session_name: Some("my-session".to_string()),
        },
        chain: vec![],
    };
    let chain = ProviderChain::from_repr(None, declared, &factory).expect("builds");
    match chain.base() {
        ResolvedBase::WebIdentityToken { role, .. } => {
            assert_eq!(role.session_name.as_str(), "my-session");
        }
        other => panic!("expected a web identity base, got {:?}", other),
    }
}

#[test]
fn declared_hop_session_name_is_used_verbatim() {
    let factory = NamedProviderFactory::new(Vec::new());
    let declared = ProfileChain {
        base: BaseProvider::AccessKey(Credentials::from_keys(
            "AKIA...".to_string(),
            "secret".to_string(),
            None,
        )),
        chain: vec![hop("arn:aws:iam::111111111111:role/R1", None, Some("audit-session"))],
    };
    let chain = ProviderChain::from_repr(None, declared, &factory).expect("builds");
    let config = ClientConfiguration { region: None };
    let state = chain.begin();
    let request = chain.next_hop_request(&state, &config).expect("one hop is pending");
    assert_eq!(request.session_name.as_str(), "audit-session");
}

#[test]
fn incomplete_delegation_responses_are_rejected() {
    let missing_all = into_credentials(None, "AssumeRoleProvider");
    assert!(matches!(
        missing_all,
        Err(CredentialsError::ProviderError { cause }) if cause == "STS response did not include credentials"
    ));

    let missing_access_key = into_credentials(
        Some(StsCredentials {
            access_key_id: None,
            secret_access_key: Some("s".to_string()),
            session_token: None,
            expiration: None,
        }),
        "AssumeRoleProvider",
    );
    assert!(matches!(
        missing_access_key,
        Err(CredentialsError::ProviderError { cause }) if cause == "STS credentials are missing the access key id"
    ));

    let missing_secret = into_credentials(
        Some(StsCredentials {
            access_key_id: Some("ASIA".to_string()),
            secret_access_key: None,
            session_token: None,
            expiration: None,
        }),
        "AssumeRoleProvider",
    );
    assert!(matches!(
        missing_secret,
        Err(CredentialsError::ProviderError { cause }) if cause == "STS credentials are missing the secret access key"
    ));

    let complete = into_credentials(Some(response("ASIA")), "AssumeRoleProvider")
        .expect("a complete response translates");
    assert_eq!(complete.access_key_id.as_str(), "ASIA");
    assert_eq!(complete.secret_access_key.as_str(), "hop-secret");
    assert_eq!(complete.session_token.as_deref(), Some("hop-token"));
    assert_eq!(complete.expiration, Some(1_700_000_000));
    assert_eq!(complete.provider_name.as_str(), "AssumeRoleProvider");
}

#[test]
fn hop_credentials_translate_and_attribute_failures() {
    let provider = credential_chain::exec::AssumeRoleProvider {
        role_arn: "arn:aws:iam::111111111111:role/R1".to_string(),
        external_id: None,
        session_name: None,
    };
    let translated = provider
        .credentials(Ok(Some(response("ASIA"))))
        .expect("a complete response translates");
    assert_eq!(translated.access_key_id.as_str(), "ASIA");
    assert_eq!(translated.provider_name.as_str(), "AssumeRoleProvider");

    let failed = provider
        .credentials(Err("throttled".to_string()))
        .expect_err("a transport failure surfaces");
    assert_eq!(
        failed.message().as_str(),
        "arn:aws:iam::111111111111:role/R1: throttled"
    );
}

#[test]
fn unusable_hop_response_halts_with_attributed_error() {
    let factory = NamedProviderFactory::new(Vec::new());
    let declared = ProfileChain {
        base: BaseProvider::AccessKey(Credentials::from_keys(
            "AKIA...".to_string(),
            "secret".to_string(),
            None,
        )),
        chain: vec![hop("arn:aws:iam::111111111111:role/R1", None, None)],
    };
    let chain = ProviderChain::from_repr(None, declared, &factory).expect("builds");
    let state = chain.begin();
    let state = chain.apply_hop_outcome(state, Ok(None));
    let err = chain.finish(state).expect_err("an empty response halts the chain");
    assert_eq!(
        err.message().as_str(),
        "arn:aws:iam::111111111111:role/R1: STS response did not include credentials"
    );
}
