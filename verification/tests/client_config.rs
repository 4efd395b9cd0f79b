use open_ai_rust::client::{
    backoff_delay, retry_step, ApiKind, ClientBuilder, ClientConfig, RequestOptions, RetryStep,
    Timeout, DEFAULT_BASE_URL,
};
use open_ai_rust::error::{ApiErrorBody, OpenAiError};
use open_ai_rust::helpers::{get_key, get_url, RequestType};

fn pairs(hs: &[(String, String)]) -> Vec<(&str, &str)> {
    hs.iter().map(|(k, v)| (k.as_str(), v.as_str())).collect()
}

#[test]
fn new_client_defaults() {
    let c = ClientConfig::new("sk-test");
    assert_eq!(c.base_url(), "https://api.openai.com/v1");
    assert_eq!(c.base_url(), DEFAULT_BASE_URL);
    assert_eq!(c.api_key(), "sk-test");
    assert_eq!(c.effective_max_retries(), 0);
    assert_eq!(c.max_attempts(), 1);
}

#[test]
fn openai_urls() {
    let c = ClientBuilder::new().api_key("k").base_url("http://localhost:8080/v1//").build().unwrap();
    assert_eq!(c.build_url("/chat/completions").unwrap(), "http://localhost:8080/v1/chat/completions");
    assert_eq!(c.build_url("models").unwrap(), "http://localhost:8080/v1/models");
}

#[test]
fn azure_urls() {
    let c = ClientConfig::azure("az-key", "https://r.openai.azure.com/", "dep", "2024-10-01-preview");
    assert!(c.base_url().contains("openai.azure.com"));
    assert_eq!(
        c.build_url("/chat/completions").unwrap(),
        "https://r.openai.azure.com/openai/deployments/dep/chat/completions?api-version=2024-10-01-preview"
    );
    let mut no_dep = c.clone();
    no_dep.azure_deployment = None;
    match no_dep.build_url("/x") {
        Err(OpenAiError::Config(m)) => assert_eq!(m, "Azure client requires deployment name"),
        other => panic!("unexpected {:?}", other),
    }
}

#[test]
fn build_requires_key() {
    match ClientBuilder::new().build() {
        Err(OpenAiError::Config(m)) => assert_eq!(m, "api_key required"),
        other => panic!("unexpected {:?}", other.map(|_| ())),
    }
    let c = ClientBuilder::new().build_unchecked();
    assert_eq!(c.api_key(), "");
}

#[test]
fn openai_auth_headers_in_order() {
    let c = ClientBuilder::new()
        .api_key("sk-1")
        .organization("org-1")
        .project("proj-1")
        .default_header("x-app", "cli")
        .build()
        .unwrap()
        .with_options(RequestOptions::new().header("x-trace", "t").idempotency_key("evt-1"));
    let hs = c.auth_headers();
    assert_eq!(
        pairs(&hs),
        vec![
            ("x-app", "cli"),
            ("authorization", "Bearer sk-1"),
            ("openai-organization", "org-1"),
            ("openai-project", "proj-1"),
            ("x-trace", "t"),
            ("idempotency-key", "evt-1"),
        ]
    );
}

#[test]
fn azure_auth_header() {
    let c = ClientConfig::azure("az", "https://r", "d", "v");
    assert!(matches!(c.api_kind, ApiKind::Azure { .. }));
    assert_eq!(pairs(&c.auth_headers()), vec![("api-key", "az")]);
}

#[test]
fn options_merge_set_fields_win() {
    let base = ClientBuilder::new().api_key("k").max_retries(2).build().unwrap();
    assert_eq!(base.effective_max_retries(), 2);
    let a = base.with_options(
        RequestOptions::new().timeout(Timeout { secs: 10, nanos: 0 }).max_retries(5).header("a", "1"),
    );
    assert_eq!(a.api_key(), "k");
    assert_eq!(a.effective_max_retries(), 5);
    assert_eq!(a.max_attempts(), 6);
    assert_eq!(a.effective_timeout(), Some(Timeout { secs: 10, nanos: 0 }));
    let b = a.with_options(RequestOptions::new().header("b", "2"));
    assert_eq!(b.effective_max_retries(), 5);
    assert_eq!(b.effective_timeout(), Some(Timeout { secs: 10, nanos: 0 }));
    assert_eq!(pairs(&b.extra_request_headers()), vec![("a", "1"), ("b", "2")]);
    let c = b.with_options(RequestOptions::new().max_retries(u32::MAX));
    assert_eq!(c.max_attempts(), u32::MAX);
}

#[test]
fn client_timeout_is_the_fallback() {
    let c = ClientBuilder::new().api_key("k").timeout(Timeout { secs: 30, nanos: 5 }).build().unwrap();
    assert_eq!(c.effective_timeout(), Some(Timeout { secs: 30, nanos: 5 }));
    assert_eq!(ClientConfig::new("k").effective_timeout(), None);
}

#[test]
fn backoff_values() {
    assert_eq!(backoff_delay(0), 500);
    assert_eq!(backoff_delay(1), 1000 + 137);
    assert_eq!(backoff_delay(2), 2000 + 24);
    assert_eq!(backoff_delay(3), 4000 + 161);
    assert_eq!(backoff_delay(5), 16000 + 185);
    assert_eq!(backoff_delay(6), 30000);
    assert_eq!(backoff_delay(100), 30000);
    assert_eq!(backoff_delay(u32::MAX), 30000);
}

fn api(status: u16) -> OpenAiError {
    OpenAiError::Api { status, message: "m".to_string(), code: None, type_: None, param: None }
}

#[test]
fn retryable_errors() {
    assert!(api(429).is_retryable());
    assert!(api(500).is_retryable());
    assert!(api(599).is_retryable());
    assert!(!api(400).is_retryable());
    assert!(!api(600).is_retryable());
    let transport = |connect, timeout, request| OpenAiError::Reqwest {
        message: "x".to_string(),
        connect,
        timeout,
        request,
    };
    assert!(transport(true, false, false).is_retryable());
    assert!(transport(false, true, false).is_retryable());
    assert!(transport(false, false, true).is_retryable());
    assert!(!transport(false, false, false).is_retryable());
    assert!(!OpenAiError::Decode("d".to_string()).is_retryable());
    assert!(!OpenAiError::config("c").is_retryable());
}

#[test]
fn retry_steps() {
    assert!(matches!(retry_step::<u8>(0, 3, Ok(7)), RetryStep::Done(Ok(7))));
    assert!(matches!(retry_step::<u8>(0, 3, Err(api(503))), RetryStep::RetryAfter(500)));
    assert!(matches!(retry_step::<u8>(1, 3, Err(api(429))), RetryStep::RetryAfter(1137)));
    assert!(matches!(retry_step::<u8>(2, 3, Err(api(503))), RetryStep::Done(Err(_))));
    assert!(matches!(retry_step::<u8>(0, 3, Err(api(404))), RetryStep::Done(Err(_))));
    assert!(matches!(retry_step::<u8>(0, 1, Err(api(500))), RetryStep::Done(Err(_))));
}

#[test]
fn error_messages() {
    let e = OpenAiError::Api {
        status: 401,
        message: "bad key".to_string(),
        code: Some("invalid_api_key".to_string()),
        type_: Some("auth".to_string()),
        param: None,
    };
    assert_eq!(e.to_display_string(), "OpenAI API error (401): bad key [code=invalid_api_key] [type=auth]");
    assert_eq!(api(500).to_display_string(), "OpenAI API error (500): m");
    assert_eq!(OpenAiError::stream("gone").to_display_string(), "Stream error: gone");
    assert_eq!(OpenAiError::config("c").to_display_string(), "Config error: c");
    assert_eq!(OpenAiError::Decode("d".to_string()).to_display_string(), "JSON decode error: d");
    assert_eq!(OpenAiError::Io("i".to_string()).to_display_string(), "IO error: i");
    let t = OpenAiError::Reqwest { message: "dns".to_string(), connect: true, timeout: false, request: false };
    assert_eq!(t.to_display_string(), "HTTP error: dns");
}

#[test]
fn api_error_from_body() {
    let parsed = ApiErrorBody {
        message: "Rate limited".to_string(),
        type_: Some("requests".to_string()),
        code: None,
        param: Some("p".to_string()),
    };
    match OpenAiError::from_response_body(429, Some(parsed), "{...}") {
        OpenAiError::Api { status, message, code, type_, param } => {
            assert_eq!(status, 429);
            assert_eq!(message, "Rate limited");
            assert_eq!(code, None);
            assert_eq!(type_, Some("requests".to_string()));
            assert_eq!(param, Some("p".to_string()));
        },
        _ => panic!(),
    }
    match OpenAiError::from_response_body(502, None, "Bad Gateway") {
        OpenAiError::Api { status, message, code, .. } => {
            assert_eq!(status, 502);
            assert_eq!(message, "Bad Gateway");
            assert_eq!(code, None);
        },
        _ => panic!(),
    }
}

#[test]
fn endpoint_lookup() {
    assert_eq!(
        get_url(RequestType::ChatCompletion, Ok(String::new())),
        Ok("https://api.openai.com/v1/chat/completions".to_string())
    );
    assert_eq!(
        get_url(RequestType::Embedding, Ok(String::new())),
        Ok("https://api.openai.com/v1/embeddings".to_string())
    );
    assert_eq!(
        get_url(RequestType::Embedding, Ok("http://e".to_string())),
        Ok("http://e".to_string())
    );
    assert_eq!(
        get_url(RequestType::ChatCompletion, Err("poisoned".to_string())),
        Err("Error locking chat endpoint: poisoned".to_string())
    );
    assert_eq!(
        get_url(RequestType::Embedding, Err("poisoned".to_string())),
        Err("Error locking embeddings endpoint: poisoned".to_string())
    );
    assert_eq!(get_key(Ok("k".to_string())), Ok("k".to_string()));
    assert_eq!(
        get_key(Err("poisoned".to_string())),
        Err("Error getting API key from Mutex lock: poisoned".to_string())
    );
}

#[test]
fn request_options_builder() {
    let opts = RequestOptions::new()
        .timeout(Timeout { secs: 30, nanos: 0 })
        .max_retries(5)
        .header("x-trace-id", "abc-123")
        .idempotency_key("evt-1");
    assert_eq!(opts.max_retries, Some(5));
    assert_eq!(opts.timeout, Some(Timeout { secs: 30, nanos: 0 }));
    assert_eq!(pairs(&opts.extra_headers), vec![("x-trace-id", "abc-123")]);
    assert_eq!(opts.idempotency_key, Some("evt-1".to_string()));
}

#[test]
fn shorthand_overrides() {
    let base = ClientConfig::new("sk-test");
    let scoped = base
        .with_timeout(Timeout { secs: 10, nanos: 0 })
        .with_max_retries(5)
        .with_idempotency_key("evt-42")
        .with_header("x-a", "1");
    assert_eq!(scoped.api_key(), "sk-test");
    assert_eq!(scoped.effective_max_retries(), 5);
    assert_eq!(scoped.effective_timeout(), Some(Timeout { secs: 10, nanos: 0 }));
    assert_eq!(
        pairs(&scoped.extra_request_headers()),
        vec![("x-a", "1"), ("idempotency-key", "evt-42")]
    );
    assert_eq!(base.effective_max_retries(), 0);
}

#[test]
fn vector_store_requests_carry_the_beta_header_last() {
    let c = ClientConfig::new("sk-2").with_idempotency_key("k-1");
    assert_eq!(
        pairs(&c.vector_store_headers()),
        vec![
            ("authorization", "Bearer sk-2"),
            ("idempotency-key", "k-1"),
            ("openai-beta", "assistants=v2"),
        ]
    );
    let az = ClientConfig::azure("az", "https://r", "d", "v");
    assert_eq!(pairs(&az.vector_store_headers()), vec![("api-key", "az"), ("openai-beta", "assistants=v2")]);
}
