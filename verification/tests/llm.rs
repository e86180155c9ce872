use personalproject::{
    build_request, is_success, reply_text, status_error, ChatMessage, Json, LlmConfig, LlmError,
    Provider,
};

fn msg(role: &str, content: &str) -> ChatMessage {
    ChatMessage { role: role.to_string(), content: content.to_string() }
}

fn config(provider: Provider, key: Option<&str>, base: Option<&str>) -> LlmConfig {
    LlmConfig {
        provider,
        model: "m1".to_string(),
        api_key: key.map(|k| k.to_string()),
        base_url: base.map(|b| b.to_string()),
    }
}

fn obj(entries: Vec<(&str, Json)>) -> Json {
    Json::Object(entries.into_iter().map(|(k, v)| (k.to_string(), v)).collect())
}

fn text(s: &str) -> Json {
    Json::Str(s.to_string())
}

/// The body serde_json writes for the same document, built member by member.
fn serde_body(provider: Provider, model: &str, history: &[ChatMessage]) -> String {
    let mut messages = Vec::new();
    for m in history {
        let mut o = serde_json::Map::new();
        o.insert("role".to_string(), serde_json::Value::String(m.role.clone()));
        o.insert("content".to_string(), serde_json::Value::String(m.content.clone()));
        messages.push(serde_json::Value::Object(o));
    }
    let mut body = serde_json::Map::new();
    body.insert("model".to_string(), serde_json::Value::String(model.to_string()));
    body.insert("messages".to_string(), serde_json::Value::Array(messages));
    match provider {
        Provider::Ollama => {
            body.insert("stream".to_string(), serde_json::Value::Bool(false));
        }
        Provider::Anthropic => {
            body.insert("max_tokens".to_string(), serde_json::Value::from(2048u32));
        }
        Provider::OpenAI => {}
    }
    serde_json::to_string(&serde_json::Value::Object(body)).unwrap()
}

#[test]
fn provider_default_is_ollama() {
    assert_eq!(Provider::default(), Provider::Ollama);
}

#[test]
fn config_default_values() {
    let c = LlmConfig::default();
    assert_eq!(c.provider, Provider::Ollama);
    assert_eq!(c.model, "qwen3:4b");
    assert!(c.api_key.is_none());
    assert_eq!(c.base_url.as_deref(), Some("http://localhost:11434"));
}

#[test]
fn ollama_request_with_default_config() {
    let c = LlmConfig::default();
    let req = build_request(&c, &[msg("user", "hi")]).ok().unwrap();
    assert_eq!(req.url, "http://localhost:11434/api/chat");
    assert!(req.headers.is_empty());
    assert_eq!(
        req.body,
        "{\"messages\":[{\"content\":\"hi\",\"role\":\"user\"}],\"model\":\"qwen3:4b\",\"stream\":false}"
    );
}

#[test]
fn ollama_request_without_base_url_uses_localhost() {
    let c = config(Provider::Ollama, None, None);
    let req = build_request(&c, &[]).ok().unwrap();
    assert_eq!(req.url, "http://localhost:11434/api/chat");
    assert_eq!(req.body, "{\"messages\":[],\"model\":\"m1\",\"stream\":false}");
}

#[test]
fn ollama_request_ignores_api_key() {
    let c = config(Provider::Ollama, Some("k"), Some("http://host:1"));
    let req = build_request(&c, &[]).ok().unwrap();
    assert_eq!(req.url, "http://host:1/api/chat");
    assert!(req.headers.is_empty());
}

#[test]
fn anthropic_without_key_is_refused() {
    let c = config(Provider::Anthropic, None, None);
    match build_request(&c, &[msg("user", "hi")]) {
        Err(e) => {
            assert!(matches!(e, LlmError::MissingApiKey(Provider::Anthropic)));
            assert_eq!(e.message(), "Anthropic API key is not set");
        }
        Ok(_) => panic!("a request without key was built"),
    }
}

#[test]
fn openai_without_key_is_refused() {
    let c = config(Provider::OpenAI, None, Some("http://x"));
    match build_request(&c, &[]) {
        Err(e) => assert_eq!(e.message(), "OpenAI API key is not set"),
        Ok(_) => panic!("a request without key was built"),
    }
}

#[test]
fn anthropic_request() {
    let c = config(Provider::Anthropic, Some("sk-1"), Some("http://ignored"));
    let req = build_request(&c, &[msg("user", "hi")]).ok().unwrap();
    assert_eq!(req.url, "https://api.anthropic.com/v1/messages");
    assert_eq!(
        req.headers,
        vec![
            ("x-api-key".to_string(), "sk-1".to_string()),
            ("anthropic-version".to_string(), "2023-06-01".to_string()),
        ]
    );
    assert_eq!(
        req.body,
        "{\"max_tokens\":2048,\"messages\":[{\"content\":\"hi\",\"role\":\"user\"}],\"model\":\"m1\"}"
    );
}

#[test]
fn openai_request_default_and_custom_base() {
    let c = config(Provider::OpenAI, Some("k2"), None);
    let req = build_request(&c, &[]).ok().unwrap();
    assert_eq!(req.url, "https://api.openai.com/v1/chat/completions");
    assert_eq!(req.headers, vec![("Authorization".to_string(), "Bearer k2".to_string())]);
    assert_eq!(req.body, "{\"messages\":[],\"model\":\"m1\"}");
    let c = config(Provider::OpenAI, Some("k2"), Some("http://local:8080/v1"));
    let req = build_request(&c, &[]).ok().unwrap();
    assert_eq!(req.url, "http://local:8080/v1/chat/completions");
}

#[test]
fn bodies_match_serde_json() {
    let history = vec![
        msg("system", "Be \"brief\"\\ please"),
        msg("user", "line1\nline2\ttab\r\u{1}\u{8}\u{c}\u{1f}\u{7f}"),
        msg("assistant", "caf\u{e9} \u{1F600} / </script>"),
    ];
    for p in [Provider::Ollama, Provider::Anthropic, Provider::OpenAI] {
        let c = LlmConfig {
            provider: p,
            model: "mod\"el".to_string(),
            api_key: Some("k".to_string()),
            base_url: None,
        };
        let req = build_request(&c, &history).ok().unwrap();
        assert_eq!(req.body, serde_body(p, "mod\"el", &history));
    }
}

#[test]
fn escaped_control_characters() {
    let c = config(Provider::OpenAI, Some("k"), None);
    let req = build_request(&c, &[msg("u", "a\u{1}b")]).ok().unwrap();
    assert_eq!(
        req.body,
        "{\"messages\":[{\"content\":\"a\\u0001b\",\"role\":\"u\"}],\"model\":\"m1\"}"
    );
}

#[test]
fn success_statuses() {
    assert!(!is_success(199));
    assert!(is_success(200));
    assert!(is_success(204));
    assert!(is_success(299));
    assert!(!is_success(300));
    assert!(!is_success(404));
}

#[test]
fn status_error_messages() {
    let e = status_error(Provider::Ollama, 404, "no such model".to_string());
    assert_eq!(e.message(), "Ollama error 404 Not Found: no such model");
    let e = status_error(Provider::Anthropic, 401, "bad key".to_string());
    assert_eq!(e.message(), "Anthropic error 401 Unauthorized: bad key");
    let e = status_error(Provider::OpenAI, 599, String::new());
    assert_eq!(e.message(), "OpenAI error 599 <unknown status code>: ");
}

#[test]
fn transport_and_decode_messages() {
    let e = LlmError::Transport { provider: Provider::Ollama, detail: "refused".to_string() };
    assert_eq!(e.message(), "Ollama unreachable: refused");
    let e = LlmError::Transport { provider: Provider::Anthropic, detail: "timeout".to_string() };
    assert_eq!(e.message(), "Anthropic request failed: timeout");
    let e = LlmError::Transport { provider: Provider::OpenAI, detail: "dns".to_string() };
    assert_eq!(e.message(), "OpenAI request failed: dns");
    let e = LlmError::Decode("error decoding response body".to_string());
    assert_eq!(e.message(), "error decoding response body");
}

#[test]
fn ollama_reply() {
    let reply = obj(vec![
        ("message", obj(vec![("content", text("hello")), ("role", text("assistant"))])),
        ("done", Json::Bool(true)),
    ]);
    assert_eq!(reply_text(Provider::Ollama, &reply), "hello");
}

#[test]
fn anthropic_reply_takes_first_block() {
    let reply = obj(vec![(
        "content",
        Json::Array(vec![obj(vec![("text", text("first"))]), obj(vec![("text", text("second"))])]),
    )]);
    assert_eq!(reply_text(Provider::Anthropic, &reply), "first");
}

#[test]
fn openai_reply() {
    let reply = obj(vec![(
        "choices",
        Json::Array(vec![obj(vec![("message", obj(vec![("content", text("answer"))]))])]),
    )]);
    assert_eq!(reply_text(Provider::OpenAI, &reply), "answer");
    // The same document read as another service's reply has no text.
    assert_eq!(reply_text(Provider::Ollama, &reply), "(empty response)");
}

#[test]
fn reply_without_text_is_empty_response() {
    assert_eq!(reply_text(Provider::Ollama, &Json::Null), "(empty response)");
    let reply = obj(vec![("message", obj(vec![("content", Json::Number("3".to_string()))]))]);
    assert_eq!(reply_text(Provider::Ollama, &reply), "(empty response)");
    let reply = obj(vec![("content", Json::Array(vec![]))]);
    assert_eq!(reply_text(Provider::Anthropic, &reply), "(empty response)");
    let reply = obj(vec![("content", obj(vec![("0", obj(vec![("text", text("x"))]))]))]);
    assert_eq!(reply_text(Provider::Anthropic, &reply), "(empty response)");
}

#[test]
fn request_bodies_hold_no_control_characters() {
    let c = config(Provider::Ollama, None, None);
    let content: String = (0u8..0x20).map(char::from).collect();
    let req = build_request(&c, &[msg("user", &content)]).ok().unwrap();
    assert!(req.body.chars().all(|ch| ch as u32 >= 0x20));
    let parsed: serde_json::Value = serde_json::from_str(&req.body).unwrap();
    assert_eq!(parsed["messages"][0]["content"].as_str(), Some(content.as_str()));
}
