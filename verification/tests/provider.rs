use aimux_providers::env::Environment;
use aimux_providers::error::AiMuxError;
use aimux_providers::provider::{
    clear_overlay, is_external_provider, load_parsed_providers, provider, provider_registry_entry, register_provider,
    register_providers, ExternalProviderEntry, ProviderOptions, ProviderProfile, ProviderRegistry,
    RegistryEntry,
};
use aimux_providers::registry_data::{builtin_entries, builtin_registry, ProviderName};

fn external(name: &str, base_url: &str, api_key: Option<&str>, protocol: &str) -> ExternalProviderEntry {
    ExternalProviderEntry {
        name: name.to_string(),
        display: None,
        base_url: base_url.to_string(),
        env_var: None,
        api_key: api_key.map(|s| s.to_string()),
        protocol: protocol.to_string(),
        profile: ProviderProfile::default(),
        headers: None,
        organization: None,
        project: None,
        max_retries: None,
        body_overrides: None,
        comment: None,
    }
}

#[test]
fn provider_builds_groq_model() {
    let reg = builtin_registry();
    let env = Environment::empty();
    let model = match provider(&reg, "groq", Some("sk-test".into()), "llama-3.3-70b", None, &env) {
        Ok(m) => m,
        Err(e) => panic!("groq should construct: {}", e.message()),
    };
    assert_eq!(model.provider(), "groq");
    assert_eq!(model.model_id(), "llama-3.3-70b");
}

#[test]
fn provider_accepts_typed_and_string_names() {
    let reg = builtin_registry();
    let env = Environment::empty();
    let typed = match provider(&reg, ProviderName::Groq.as_str(), Some("sk-test".into()), "llama-3.3-70b", None, &env) {
        Ok(m) => m,
        Err(e) => panic!("typed name should construct: {}", e.message()),
    };
    assert_eq!(typed.model_id(), "llama-3.3-70b");
    let string = match provider(&reg, "groq", Some("sk-test".into()), "llama-3.3-70b", None, &env) {
        Ok(m) => m,
        Err(e) => panic!("string name should construct: {}", e.message()),
    };
    assert_eq!(string.model_id(), "llama-3.3-70b");
}

#[test]
fn provider_missing_env_key_fails() {
    let reg = builtin_registry();
    let env = Environment::empty();
    let err = match provider(&reg, "abacus", None, "m", None, &env) {
        Ok(_) => panic!("missing env key must fail"),
        Err(e) => e,
    };
    assert!(err.message().to_lowercase().contains("api key"));
}

#[test]
fn provider_applies_registry_profile() {
    let reg = builtin_registry();
    let profile = provider_registry_entry(&reg, "groq").unwrap();
    assert!(!profile.supports_top_k);
    assert_eq!(profile.stream_usage_key.as_deref(), Some("x_groq"));
    assert_eq!(profile.max_tokens_key.as_deref(), Some("max_completion_tokens"));

    let profile = provider_registry_entry(&reg, "stepfun").unwrap();
    assert_eq!(profile.max_tokens_key.as_deref(), Some("max_tokens"));
}

#[test]
fn provider_unknown_name_reports_provider_id() {
    let reg = builtin_registry();
    let env = Environment::empty();
    let err = match provider(&reg, "no-such-provider", Some("k".into()), "m", None, &env) {
        Ok(_) => panic!("unknown name must fail"),
        Err(e) => e,
    };
    match err {
        AiMuxError::NoSuchProvider { ref provider_id } => {
            assert_eq!(provider_id, "no-such-provider");
            assert_eq!(err.message(), "No such provider: no-such-provider");
            let text = err.message();
            assert!(!text.contains("groq"), "must not list the registry: {text}");
        }
        other => panic!("expected NoSuchProvider, got {other:?}"),
    }
}

#[test]
fn provider_rejects_templated_base_url_without_override() {
    let reg = builtin_registry();
    let env = Environment::empty();
    for name in ["cloudflare", "snowflake"] {
        let err = match provider(&reg, name, Some("dummy".into()), "m", None, &env) {
            Ok(_) => panic!("templated base_url for '{name}' without override must fail"),
            Err(e) => e,
        };
        assert!(
            matches!(err, AiMuxError::InvalidArgument(_)),
            "expected InvalidArgument for '{name}' templated base_url, got {err:?}"
        );
    }
}

#[test]
fn provider_accepts_templated_base_url_with_override() {
    let reg = builtin_registry();
    let env = Environment::empty();
    let mut options = ProviderOptions::none();
    options.base_url = Some("https://example.com/v1".into());
    let res = provider(&reg, "cloudflare", Some("dummy".into()), "m", Some(options), &env);
    assert!(res.is_ok(), "override should bypass placeholder check");
    assert_eq!(res.unwrap().config().base_url, "https://example.com/v1");
}

#[test]
fn registry_fixed_base_urls_are_correct() {
    let by_name: std::collections::HashMap<String, String> =
        builtin_entries().into_iter().map(|e| (e.name, e.base_url)).collect();
    assert_eq!(
        by_name.get("xpersona").map(String::as_str),
        Some("https://www.xpersona.co/v1"),
        "xpersona base_url was '/v1' (truncated); must be the full URL"
    );
    assert_eq!(
        by_name.get("moonshotai_cn").map(String::as_str),
        Some("https://api.moonshot.cn/anthropic/v1"),
        "moonshotai_cn base_url had a leaked annotation suffix"
    );
    assert_eq!(
        by_name.get("zhipuai_coding_plan").map(String::as_str),
        Some("https://open.bigmodel.cn/api/coding/paas/v4"),
        "zhipuai_coding_plan base_url was a docs page, not the API endpoint"
    );
    assert_eq!(
        by_name.get("the_grid_ai").map(String::as_str),
        Some("https://api.thegrid.ai/v1"),
        "the_grid_ai base_url was a docs page, not the API endpoint"
    );
}

#[test]
fn register_and_lookup_external_provider() {
    let mut reg = builtin_registry();
    let env = Environment::empty();
    let mut e = external("test-relay-new", "https://relay.test.example/v1", Some("dummy-key"), "openai_compat");
    e.display = Some("Test Relay".into());
    e.env_var = Some("TEST_RELAY_KEY".into());
    register_provider(&mut reg, e).unwrap();
    let model = provider(&reg, "test-relay-new", None, "test-model", None, &env).unwrap();
    assert_eq!(model.provider(), "test-relay-new");
    clear_overlay(&mut reg, "test-relay-new");
    assert!(!is_external_provider(&reg, "test-relay-new"));
}

#[test]
fn external_provider_overrides_builtin() {
    let mut reg = builtin_registry();
    let env = Environment::empty();
    let mut e = external("groq", "https://my-groq-relay.example/v1", Some("dummy"), "openai_compat");
    e.display = Some("Groq Override".into());
    e.env_var = Some("GROQ_API_KEY".into());
    register_provider(&mut reg, e).unwrap();
    let model = provider(&reg, "groq", None, "llama-3.3-70b", None, &env).unwrap();
    assert_eq!(model.config().base_url, "https://my-groq-relay.example/v1");
    clear_overlay(&mut reg, "groq");
    let model = provider(&reg, "groq", Some("k".into()), "llama-3.3-70b", None, &env).unwrap();
    assert_eq!(model.config().base_url, "https://api.groq.com/openai/v1");
}

#[test]
fn load_providers_from_json_parses_and_registers() {
    let mut reg = builtin_registry();
    let mut second = external("test-json-2", "https://b.test/v1", None, "openai_compat");
    second.env_var = Some("TEST_JSON_2_KEY".into());
    register_providers(
        &mut reg,
        vec![external("test-json-1", "https://a.test/v1", Some("dummy"), "openai_compat"), second],
    )
    .unwrap();
    assert!(is_external_provider(&reg, "test-json-1"));
    assert!(is_external_provider(&reg, "test-json-2"));
}

#[test]
fn register_provider_rejects_bad_base_url() {
    let mut reg = builtin_registry();
    let err = register_provider(&mut reg, external("test-bad-url", "ftp://nope", None, "openai_compat")).unwrap_err();
    assert!(
        matches!(err, AiMuxError::InvalidArgument(ref m) if m.contains("http(s)://")),
        "expected InvalidArgument about scheme, got {err:?}"
    );
    assert!(!is_external_provider(&reg, "test-bad-url"));
}

#[test]
fn register_provider_rejects_bad_protocol() {
    let mut reg = builtin_registry();
    let err = register_provider(&mut reg, external("test-bad-proto", "https://ok.example/v1", None, "anthropic"))
        .unwrap_err();
    assert!(
        matches!(err, AiMuxError::InvalidArgument(ref m) if m.contains("openai_compat")),
        "expected InvalidArgument about protocol, got {err:?}"
    );
}

#[test]
fn register_provider_rejects_empty_name() {
    let mut reg = builtin_registry();
    let err = register_provider(&mut reg, external("  ", "https://ok.example/v1", None, "openai_compat")).unwrap_err();
    assert!(
        matches!(err, AiMuxError::InvalidArgument(ref m) if m.contains("name")),
        "expected InvalidArgument about name, got {err:?}"
    );
}

#[test]
fn external_provider_profile_applied() {
    let mut reg = builtin_registry();
    let env = Environment::empty();
    let mut e = external("test-profile", "https://profile.test/v1", Some("dummy"), "openai_compat");
    e.profile = ProviderProfile {
        supports_top_k: false,
        supports_tools: false,
        supports_response_format: true,
        stream_usage_key: Some("x_custom".into()),
        max_tokens_key: Some("max_completion_tokens".into()),
    };
    register_provider(&mut reg, e).unwrap();
    let model = provider(&reg, "test-profile", None, "m", None, &env).unwrap();
    let p = &model.config().profile;
    assert!(!p.supports_top_k);
    assert!(!p.supports_tools);
    assert_eq!(p.stream_usage_key.as_deref(), Some("x_custom"));
    assert_eq!(p.max_tokens_key.as_deref(), Some("max_completion_tokens"));
}

#[test]
fn external_provider_profile_defaults_to_full() {
    let p = ProviderProfile::default();
    assert!(p.supports_top_k, "omitted profile → supports_top_k must be true");
    assert!(p.supports_tools, "omitted profile → supports_tools must be true");
    assert!(p.supports_response_format, "omitted profile → supports_response_format must be true");
}

#[test]
fn external_provider_env_var_api_key_resolves() {
    let mut reg = builtin_registry();
    let mut env = Environment::empty();
    env.set("AIMUX_TEST_OVERLAY_KEY".into(), "secret-from-env".into());
    register_provider(
        &mut reg,
        external("test-envkey", "https://envkey.test/v1", Some("env:AIMUX_TEST_OVERLAY_KEY"), "openai_compat"),
    )
    .unwrap();
    let model = provider(&reg, "test-envkey", None, "m", None, &env).unwrap();
    assert_eq!(model.provider(), "test-envkey");
    assert_eq!(model.config().api_key, "secret-from-env");
    assert_eq!(model.config().api_key_source.as_deref(), Some("env:AIMUX_TEST_OVERLAY_KEY"));
}

#[test]
fn external_provider_env_var_api_key_missing_env_fails() {
    let mut reg = builtin_registry();
    let env = Environment::empty();
    register_provider(
        &mut reg,
        external("test-envkey-missing", "https://missing.test/v1", Some("env:AIMUX_TEST_OVERLAY_MISSING"), "openai_compat"),
    )
    .unwrap();
    let err = match provider(&reg, "test-envkey-missing", None, "m", None, &env) {
        Ok(_) => panic!("missing env var must fail"),
        Err(e) => e,
    };
    assert!(
        matches!(err, AiMuxError::InvalidArgument(ref m) if m.contains("AIMUX_TEST_OVERLAY_MISSING")),
        "expected InvalidArgument naming the env var, got {err:?}"
    );
}

#[test]
fn explicit_key_wins_over_entry_and_env() {
    let reg = builtin_registry();
    let env = Environment::from_pairs(vec![("GROQ_API_KEY".to_string(), "from-env".to_string())]);
    let m = provider(&reg, "groq", Some("explicit-key".into()), "x", None, &env).unwrap();
    assert_eq!(m.config().api_key, "explicit-key");
    assert_eq!(m.config().api_key_source.as_deref(), Some("explicit"));
    let m = provider(&reg, "groq", None, "x", None, &env).unwrap();
    assert_eq!(m.config().api_key, "from-env");
    assert_eq!(m.config().api_key_source.as_deref(), Some("env:GROQ_API_KEY"));
}

#[test]
fn missing_env_key_message_is_exact() {
    let reg = builtin_registry();
    let env = Environment::empty();
    let err = provider(&reg, "groq", None, "x", None, &env).unwrap_err();
    assert_eq!(
        err.message(),
        "Groq API key is missing. Pass it using the 'apiKey' parameter or the GROQ_API_KEY environment variable."
    );
}

#[test]
fn malformed_env_reference_is_refused() {
    let mut reg = builtin_registry();
    let env = Environment::empty();
    register_provider(&mut reg, external("relay", "https://r.test/v1", Some("env:"), "openai_compat")).unwrap();
    let err = provider(&reg, "relay", None, "x", None, &env).unwrap_err();
    assert_eq!(
        err.message(),
        "external provider 'relay' has malformed api_key reference \"env:\" (empty var name)"
    );
}

#[test]
fn entry_without_any_key_source_is_refused() {
    let mut reg = builtin_registry();
    let env = Environment::empty();
    register_provider(&mut reg, external("bare", "https://b.test/v1", None, "openai_compat")).unwrap();
    let err = provider(&reg, "bare", None, "x", None, &env).unwrap_err();
    assert_eq!(
        err.message(),
        "provider 'bare' has no api_key parameter, entry-level api_key, or env_var to read from"
    );
}

#[test]
fn options_override_entry_settings() {
    let mut reg = builtin_registry();
    let env = Environment::empty();
    let mut e = external("relay", "https://r.test/v1/", Some("k"), "openai_compat");
    e.organization = Some("org-entry".into());
    e.max_retries = Some(5);
    register_provider(&mut reg, e).unwrap();
    let m = provider(&reg, "relay", None, "x", None, &env).unwrap();
    assert_eq!(m.config().base_url, "https://r.test/v1");
    assert_eq!(m.config().org_id.as_deref(), Some("org-entry"));
    assert_eq!(m.config().retry_config.max_retries, 5);
    let mut o = ProviderOptions::none();
    o.organization = Some("org-call".into());
    o.max_retries = Some(0);
    let m = provider(&reg, "relay", None, "x", Some(o), &env).unwrap();
    assert_eq!(m.config().org_id.as_deref(), Some("org-call"));
    assert_eq!(m.config().retry_config.max_retries, 0);
}

#[test]
fn register_providers_stops_at_first_refused() {
    let mut reg = builtin_registry();
    let err = register_providers(
        &mut reg,
        vec![
            external("first", "https://a.test/v1", Some("k"), "openai_compat"),
            external("second", "ftp://b", Some("k"), "openai_compat"),
            external("third", "https://c.test/v1", Some("k"), "openai_compat"),
        ],
    )
    .unwrap_err();
    assert!(matches!(err, AiMuxError::InvalidArgument(_)));
    assert!(is_external_provider(&reg, "first"));
    assert!(!is_external_provider(&reg, "second"));
    assert!(!is_external_provider(&reg, "third"));
}

#[test]
fn provider_name_parses_builtin_names() {
    assert_eq!(ProviderName::Groq.as_str(), "groq");
    assert_eq!(ProviderName::from_name("groq"), Some(ProviderName::Groq));
    assert_eq!(ProviderName::from_name("deepseek"), Some(ProviderName::Deepseek));
    assert_eq!(ProviderName::from_name("nope"), None);
    assert_eq!(ProviderName::all().len(), 15);
}

#[test]
fn registry_no_corrupt_base_urls() {
    for e in aimux_providers::registry_data::builtin_entries() {
        assert!(
            e.base_url.starts_with("https://") || e.base_url.starts_with("http://"),
            "registry entry '{}' has a non-URL base_url: {:?}",
            e.name,
            e.base_url
        );
        assert!(e.base_url.is_ascii(), "registry entry '{}' base_url has non-ASCII chars: {:?}", e.name, e.base_url);
    }
}

#[test]
fn load_providers_from_json_rejects_invalid_json() {
    let mut reg = builtin_registry();
    let reader_error = serde_json::from_str::<serde_json::Value>("not json at all").unwrap_err().to_string();
    let err = load_parsed_providers(&mut reg, Err(reader_error)).unwrap_err();
    assert!(
        matches!(err, AiMuxError::JsonParse(ref m) if m.contains("parse")),
        "expected JsonParse for malformed input, got {err:?}"
    );
}

#[test]
fn load_parsed_providers_stops_at_first_invalid_entry() {
    let mut reg = builtin_registry();
    let entries = vec![
        external("test-load-ok", "https://ok.test/v1", Some("k"), "openai_compat"),
        external("test-load-bad", "ftp://bad", Some("k"), "openai_compat"),
        external("test-load-later", "https://later.test/v1", Some("k"), "openai_compat"),
    ];
    assert!(matches!(load_parsed_providers(&mut reg, Ok(entries)), Err(AiMuxError::InvalidArgument(_))));
    assert!(is_external_provider(&reg, "test-load-ok"));
    assert!(!is_external_provider(&reg, "test-load-bad"));
    assert!(!is_external_provider(&reg, "test-load-later"));
}
