use aimux_providers::env::Environment;
use aimux_providers::error::AiMuxError;
use aimux_providers::json::JsonValue;
use aimux_providers::provider::{clear_overlay, register_provider, ExternalProviderEntry, ProviderOptions, ProviderProfile};
use aimux_providers::registry_data::builtin_registry;
use aimux_providers::replay::{
    is_openai_compatible_provider, profile_from_value, rebuild_provider, resolve_api_key, ProviderRecord,
};

fn openai_record(api_key_source: &str, model_id: &str) -> ProviderRecord {
    ProviderRecord {
        provider: "openai".into(),
        model_id: model_id.into(),
        base_url: Some("https://api.openai.com/v1".into()),
        api_key_source: api_key_source.into(),
        profile: None,
        provider_options: None,
    }
}

fn no_options() -> Option<ProviderOptions> {
    None
}

#[test]
fn explicit_key_builds_model() {
    let reg = builtin_registry();
    let p = openai_record("explicit", "gpt-4o");
    let model = rebuild_provider(&reg, &p, Some("sk-test"), no_options(), &Environment::empty()).unwrap();
    assert_eq!(model.provider(), "openai");
    assert_eq!(model.model_id(), "gpt-4o");
}

#[test]
fn explicit_key_missing_errors() {
    let reg = builtin_registry();
    let p = openai_record("explicit", "gpt-4o");
    let err = rebuild_provider(&reg, &p, None, no_options(), &Environment::empty()).err().unwrap();
    assert!(matches!(err, AiMuxError::InvalidArgument(_)), "{}", err.message());
    assert!(err.message().contains("explicit"), "{}", err.message());
}

#[test]
fn env_key_reads_var() {
    let reg = builtin_registry();
    let p = openai_record("env:AIMUX_REPLAY_TEST_KEY", "gpt-4o");
    let env = Environment::from_pairs(vec![("AIMUX_REPLAY_TEST_KEY".to_string(), "sk-env".to_string())]);
    let model = rebuild_provider(&reg, &p, None, no_options(), &env).unwrap();
    assert_eq!(model.model_id(), "gpt-4o");
    assert_eq!(model.config().api_key, "sk-env");
}

#[test]
fn env_key_missing_errors() {
    let reg = builtin_registry();
    let p = openai_record("env:AIMUX_REPLAY_TEST_MISSING", "gpt-4o");
    let err = rebuild_provider(&reg, &p, None, no_options(), &Environment::empty()).err().unwrap();
    assert!(matches!(err, AiMuxError::InvalidArgument(_)), "{}", err.message());
    assert!(err.message().contains("AIMUX_REPLAY_TEST_MISSING"), "{}", err.message());
}

#[test]
fn none_source_uses_placeholder() {
    let reg = builtin_registry();
    let p = openai_record("none", "llama-3.3-70b");
    let model = rebuild_provider(&reg, &p, None, no_options(), &Environment::empty()).unwrap();
    assert_eq!(model.model_id(), "llama-3.3-70b");
    assert_eq!(model.config().api_key, "not-needed");
}

#[test]
fn unknown_source_falls_back_to_caller_key() {
    let reg = builtin_registry();
    let p = openai_record("unknown", "gpt-4o");
    let model = rebuild_provider(&reg, &p, Some("sk-caller"), no_options(), &Environment::empty()).unwrap();
    assert_eq!(model.model_id(), "gpt-4o");
    assert_eq!(model.config().api_key, "sk-caller");
}

#[test]
fn unknown_source_without_key_errors() {
    let reg = builtin_registry();
    let p = openai_record("unknown", "gpt-4o");
    let err = rebuild_provider(&reg, &p, None, no_options(), &Environment::empty()).err().unwrap();
    assert!(matches!(err, AiMuxError::InvalidArgument(_)), "{}", err.message());
}

#[test]
fn non_openai_protocol_is_unsupported() {
    let reg = builtin_registry();
    let p = ProviderRecord {
        provider: "anthropic".into(),
        model_id: "sonnet-3-5".into(),
        base_url: None,
        api_key_source: "env:ANTHROPIC_API_KEY".into(),
        profile: None,
        provider_options: None,
    };
    let err = rebuild_provider(&reg, &p, Some("sk"), no_options(), &Environment::empty()).err().unwrap();
    assert!(matches!(err, AiMuxError::UnsupportedFunctionality(_)), "{}", err.message());
    assert!(err.message().contains("replay_with_model"), "{}", err.message());
}

#[test]
fn external_overlay_provider_is_replayable() {
    let mut reg = builtin_registry();
    let name = "test-replay-overlay";
    register_provider(
        &mut reg,
        ExternalProviderEntry {
            name: name.into(),
            display: None,
            base_url: "https://relay.test.example/v1".into(),
            env_var: None,
            api_key: Some("dummy".into()),
            protocol: "openai_compat".into(),
            profile: ProviderProfile::default(),
            headers: None,
            organization: None,
            project: None,
            max_retries: None,
            body_overrides: None,
            comment: None,
        },
    )
    .unwrap();
    assert!(
        is_openai_compatible_provider(&reg, name),
        "external overlay provider must be replay-recognizable"
    );
    let p = ProviderRecord {
        provider: name.into(),
        model_id: "m".into(),
        base_url: Some("https://relay.test.example/v1".into()),
        api_key_source: "explicit".into(),
        profile: None,
        provider_options: None,
    };
    let result = rebuild_provider(&reg, &p, Some("dummy"), no_options(), &Environment::empty());
    assert!(result.is_ok(), "rebuild_provider should accept overlay name");
    clear_overlay(&mut reg, name);
    assert!(!is_openai_compatible_provider(&reg, name));
}

#[test]
fn empty_model_id_errors() {
    let reg = builtin_registry();
    let p = openai_record("explicit", "");
    let err = rebuild_provider(&reg, &p, Some("sk"), no_options(), &Environment::empty()).err().unwrap();
    assert!(matches!(err, AiMuxError::InvalidArgument(_)), "{}", err.message());
}

#[test]
fn provider_options_restore_org_and_project() {
    let reg = builtin_registry();
    let p = openai_record("explicit", "gpt-4o");
    let options = ProviderOptions {
        base_url: None,
        headers: None,
        organization: Some("org-123".into()),
        project: Some("proj-456".into()),
        max_retries: None,
        body_overrides: None,
    };
    let model = rebuild_provider(&reg, &p, Some("sk"), Some(options), &Environment::empty()).unwrap();
    assert_eq!(model.model_id(), "gpt-4o");
    assert_eq!(model.config().org_id.as_deref(), Some("org-123"));
    assert_eq!(model.config().project.as_deref(), Some("proj-456"));
}

#[test]
fn replay_key_source_is_trimmed() {
    let p = openai_record("  none  ", "gpt-4o");
    assert_eq!(resolve_api_key(&p, None, &Environment::empty()).unwrap(), "not-needed");
}

#[test]
fn replay_unknown_source_message_is_exact() {
    let p = openai_record("weird", "gpt-4o");
    let err = resolve_api_key(&p, None, &Environment::empty()).err().unwrap();
    assert_eq!(
        err.message(),
        "mock replay: no api key source for provider 'openai' (api_key_source=\"weird\"); pass api_key or provide a model instance to replay_with_model"
    );
}

#[test]
fn replay_env_missing_message_is_exact() {
    let p = openai_record("env:NOPE", "gpt-4o");
    let err = resolve_api_key(&p, None, &Environment::empty()).err().unwrap();
    assert_eq!(
        err.message(),
        "mock replay: env var 'NOPE' not set (needed to rebuild provider 'openai')"
    );
}

#[test]
fn replay_restores_recorded_profile_and_base_url() {
    let reg = builtin_registry();
    let mut p = openai_record("explicit", "llama-3.3-70b");
    p.provider = "groq".into();
    p.base_url = Some("https://api.groq.com/openai/v1/".into());
    p.profile = Some(JsonValue::Object(vec![
        ("supports_top_k".to_string(), JsonValue::Bool(false)),
        ("stream_usage_key".to_string(), JsonValue::String("x_groq".into())),
        ("max_tokens_key".to_string(), JsonValue::String("max_completion_tokens".into())),
    ]));
    let model = rebuild_provider(&reg, &p, Some("sk"), no_options(), &Environment::empty()).unwrap();
    assert_eq!(model.provider(), "groq");
    assert_eq!(model.config().base_url, "https://api.groq.com/openai/v1");
    let prof = &model.config().profile;
    assert!(!prof.supports_top_k);
    assert!(prof.supports_tools);
    assert_eq!(prof.stream_usage_key.as_deref(), Some("x_groq"));
    assert_eq!(prof.max_tokens_key.as_deref(), Some("max_completion_tokens"));
}

#[test]
fn profile_defaults_to_full_when_absent() {
    let prof = profile_from_value(None);
    assert!(prof.supports_top_k && prof.supports_tools && prof.supports_response_format);
    assert!(prof.stream_usage_key.is_none());
}

#[test]
fn replay_options_override_base_url_and_retries() {
    let reg = builtin_registry();
    let p = openai_record("explicit", "gpt-4o");
    let options = ProviderOptions {
        base_url: Some("https://relay.example/v1/".into()),
        headers: None,
        organization: None,
        project: None,
        max_retries: Some(0),
        body_overrides: None,
    };
    let model = rebuild_provider(&reg, &p, Some("sk"), Some(options), &Environment::empty()).unwrap();
    assert_eq!(model.config().base_url, "https://relay.example/v1");
    assert_eq!(model.config().retry_config.max_retries, 0);
}
