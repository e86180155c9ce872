use vstd::prelude::*;

use crate::codec::{json_quote, json_string, status_display, status_text};
use crate::json::{json_at, lookup, steps_view, text_of, Json, JsonStep, PathStep};

verus! {

/// The chat services that the assistant can talk to.
#[derive(Debug, Clone, Copy, PartialEq, Eq, Structural)]
pub enum Provider {
    Ollama,
    Anthropic,
    OpenAI,
}

impl Default for Provider {
    fn default() -> (r: Self)
        ensures
            r == Provider::Ollama,
    {
        Provider::Ollama
    }
}

/// Which service to use, with which model, and how to reach it.
#[derive(Debug, Clone)]
pub struct LlmConfig {
    pub provider: Provider,
    pub model: String,
    pub api_key: Option<String>,
    /// Ollama base URL; also usable for OpenAI-compatible endpoints
    pub base_url: Option<String>,
}

/// One turn of a conversation.
#[derive(Debug, Clone)]
pub struct ChatMessage {
    pub role: String,
    pub content: String,
}

/// The model a fresh configuration asks for.
pub open spec fn default_model() -> Seq<char> {
    "qwen3:4b"@
}

/// Where a local Ollama server listens unless told otherwise.
pub open spec fn default_ollama_base() -> Seq<char> {
    "http://localhost:11434"@
}

/// The OpenAI endpoint used when no base URL is configured.
pub open spec fn default_openai_base() -> Seq<char> {
    "https://api.openai.com/v1"@
}

/// The one endpoint of the Anthropic messages API.
pub open spec fn anthropic_url() -> Seq<char> {
    "https://api.anthropic.com/v1/messages"@
}

/// The text a reply is read as when it holds no text where the service puts it.
pub open spec fn empty_reply() -> Seq<char> {
    "(empty response)"@
}

impl Default for LlmConfig {
    fn default() -> (r: Self)
        ensures
            r.provider == Provider::Ollama,
            r.model@ == default_model(),
            r.api_key is None,
            r.base_url matches Some(b) && b@ == default_ollama_base(),
    {
        LlmConfig {
            provider: Provider::Ollama,
            model: String::from_str("qwen3:4b"),
            api_key: None,
            base_url: Some(String::from_str("http://localhost:11434")),
        }
    }
}

/// How the service is named in messages.
pub open spec fn provider_name(p: Provider) -> Seq<char> {
    match p {
        Provider::Ollama => "Ollama"@,
        Provider::Anthropic => "Anthropic"@,
        Provider::OpenAI => "OpenAI"@,
    }
}

/// Whether the service only answers requests that carry an API key.
pub open spec fn needs_api_key(p: Provider) -> bool {
    p != Provider::Ollama
}

/// A chat request, ready to be posted as JSON.
pub struct ChatRequest {
    pub url: String,
    /// Extra header lines, name then value, in the order they are sent.
    pub headers: Vec<(String, String)>,
    /// The JSON document that is the request's body.
    pub body: String,
}

/// Why a chat turn failed.
pub enum LlmError {
    /// The service needs an API key and the configuration has none.
    MissingApiKey(Provider),
    /// The request could not be sent or no answer came back; `detail` says why.
    Transport { provider: Provider, detail: String },
    /// The service answered with a status outside 200..=299.
    Status { provider: Provider, status: String, body: String },
    /// The answer was not the JSON document it should be; `detail` says why.
    Decode(String),
}

/// The text that a failed chat turn is reported with.
pub open spec fn error_message(e: LlmError) -> Seq<char> {
    match e {
        LlmError::MissingApiKey(p) => provider_name(p) + " API key is not set"@,
        LlmError::Transport { provider, detail } => if provider == Provider::Ollama {
            "Ollama unreachable: "@ + detail@
        } else {
            provider_name(provider) + " request failed: "@ + detail@
        },
        LlmError::Status { provider, status, body } => provider_name(provider) + " error "@
            + status@ + ": "@ + body@,
        LlmError::Decode(detail) => detail@,
    }
}

/// The JSON object that stands for one message: its members in name order.
pub open spec fn message_json(m: ChatMessage) -> Seq<char> {
    "{\"content\":"@ + json_string(m.content@) + ",\"role\":"@ + json_string(m.role@) + "}"@
}

/// The messages' objects, separated by commas.
pub open spec fn message_items(ms: Seq<ChatMessage>) -> Seq<char>
    decreases ms.len(),
{
    if ms.len() == 0 {
        seq![]
    } else if ms.len() == 1 {
        message_json(ms[0])
    } else {
        message_items(ms.drop_last()) + ","@ + message_json(ms.last())
    }
}

/// The JSON array of the conversation so far.
pub open spec fn message_list(ms: Seq<ChatMessage>) -> Seq<char> {
    "["@ + message_items(ms) + "]"@
}

/// The body of a chat request: a JSON object whose members stand in name order.
/// Ollama is asked for one whole answer (`stream` off), Anthropic for at most
/// 2048 tokens.
pub open spec fn request_body(config: LlmConfig, history: Seq<ChatMessage>) -> Seq<char> {
    match config.provider {
        Provider::Ollama => "{\"messages\":"@ + message_list(history) + ",\"model\":"@
            + json_string(config.model@) + ",\"stream\":false}"@,
        Provider::Anthropic => "{\"max_tokens\":2048,\"messages\":"@ + message_list(history)
            + ",\"model\":"@ + json_string(config.model@) + "}"@,
        Provider::OpenAI => "{\"messages\":"@ + message_list(history) + ",\"model\":"@
            + json_string(config.model@) + "}"@,
    }
}

/// The configured base URL, or `default` when there is none.
pub open spec fn base_or(base: Option<String>, default: Seq<char>) -> Seq<char> {
    match base {
        Some(b) => b@,
        None => default,
    }
}

/// Where a chat request is posted.
pub open spec fn request_url(config: LlmConfig) -> Seq<char> {
    match config.provider {
        Provider::Ollama => base_or(config.base_url, default_ollama_base()) + "/api/chat"@,
        Provider::Anthropic => anthropic_url(),
        Provider::OpenAI => base_or(config.base_url, default_openai_base())
            + "/chat/completions"@,
    }
}

/// The configured API key's text (empty when there is none).
pub open spec fn key_text(config: LlmConfig) -> Seq<char> {
    match config.api_key {
        Some(k) => k@,
        None => seq![],
    }
}

/// The extra headers of a chat request.
pub open spec fn request_headers(config: LlmConfig) -> Seq<(Seq<char>, Seq<char>)> {
    match config.provider {
        Provider::Ollama => seq![],
        Provider::Anthropic => seq![
            ("x-api-key"@, key_text(config)),
            ("anthropic-version"@, "2023-06-01"@),
        ],
        Provider::OpenAI => seq![("Authorization"@, "Bearer "@ + key_text(config))],
    }
}

/// Header lines as text pairs.
pub open spec fn headers_view(h: Seq<(String, String)>) -> Seq<(Seq<char>, Seq<char>)> {
    h.map_values(|p: (String, String)| (p.0@, p.1@))
}

/// Where in its reply each service puts the answer's text.
pub open spec fn reply_path(p: Provider) -> Seq<JsonStep> {
    match p {
        Provider::Ollama => seq![JsonStep::Key("message"@), JsonStep::Key("content"@)],
        Provider::Anthropic => seq![
            JsonStep::Key("content"@),
            JsonStep::Index(0),
            JsonStep::Key("text"@),
        ],
        Provider::OpenAI => seq![
            JsonStep::Key("choices"@),
            JsonStep::Index(0),
            JsonStep::Key("message"@),
            JsonStep::Key("content"@),
        ],
    }
}

/// The answer read from a reply: the string where the service puts it, or the
/// empty-reply text when there is no string there.
pub open spec fn reply_text_of(p: Provider, reply: Json) -> Seq<char> {
    match json_at(reply, reply_path(p)) {
        Some(Json::Str(s)) => s@,
        _ => empty_reply(),
    }
}

fn provider_name_text(p: Provider) -> (r: String)
    ensures
        r@ == provider_name(p),
{
    match p {
        Provider::Ollama => String::from_str("Ollama"),
        Provider::Anthropic => String::from_str("Anthropic"),
        Provider::OpenAI => String::from_str("OpenAI"),
    }
}

impl LlmError {
    /// The text this failure is reported with.
    pub fn message(&self) -> (r: String)
        ensures
            r@ == error_message(*self),
    {
        match self {
            LlmError::MissingApiKey(p) => {
                let mut s = provider_name_text(*p);
                s.append(" API key is not set");
                s
            },
            LlmError::Transport { provider, detail } => {
                if *provider == Provider::Ollama {
                    let mut s = String::from_str("Ollama unreachable: ");
                    s.append(detail.as_str());
                    s
                } else {
                    let mut s = provider_name_text(*provider);
                    s.append(" request failed: ");
                    s.append(detail.as_str());
                    s
                }
            },
            LlmError::Status { provider, status, body } => {
                let mut s = provider_name_text(*provider);
                s.append(" error ");
                s.append(status.as_str());
                s.append(": ");
                s.append(body.as_str());
                s
            },
            LlmError::Decode(detail) => detail.clone(),
        }
    }
}

fn message_json_text(m: &ChatMessage) -> (r: String)
    ensures
        r@ == message_json(*m),
{
    let mut s = String::from_str("{\"content\":");
    let content = json_quote(m.content.as_str());
    s.append(content.as_str());
    s.append(",\"role\":");
    let role = json_quote(m.role.as_str());
    s.append(role.as_str());
    s.append("}");
    s
}

fn message_list_text(history: &[ChatMessage]) -> (r: String)
    ensures
        r@ == message_list(history@),
{
    let mut s = String::from_str("[");
    let n = history.len();
    assert(message_items(history@.take(0)) =~= seq![]);
    assert("["@ + message_items(history@.take(0)) =~= "["@);
    let mut i: usize = 0;
    while i < n
        invariant
            n == history@.len(),
            i <= n,
            s@ == "["@ + message_items(history@.take(i as int)),
        decreases n - i,
    {
        assert(history@.take(i + 1).drop_last() =~= history@.take(i as int));
        assert(history@.take(i + 1).last() == history@[i as int]);
        if i > 0 {
            s.append(",");
        }
        let m = message_json_text(&history[i]);
        s.append(m.as_str());
        if i == 0 {
            assert(message_items(history@.take(1)) == message_json(history@[0]));
            assert(s@ =~= "["@ + message_items(history@.take(1)));
        } else {
            assert(s@ =~= "["@ + message_items(history@.take(i + 1)));
        }
        i = i + 1;
    }
    assert(history@.take(n as int) =~= history@);
    s.append("]");
    s
}

fn request_body_text(config: &LlmConfig, history: &[ChatMessage]) -> (r: String)
    ensures
        r@ == request_body(*config, history@),
{
    let list = message_list_text(history);
    let model = json_quote(config.model.as_str());
    let mut s = match config.provider {
        Provider::Anthropic => String::from_str("{\"max_tokens\":2048,\"messages\":"),
        _ => String::from_str("{\"messages\":"),
    };
    s.append(list.as_str());
    s.append(",\"model\":");
    s.append(model.as_str());
    match config.provider {
        Provider::Ollama => s.append(",\"stream\":false}"),
        _ => s.append("}"),
    }
    s
}

fn base_or_text(base: &Option<String>, default: &str) -> (r: String)
    ensures
        r@ == base_or(*base, default@),
{
    match base {
        Some(b) => b.clone(),
        None => String::from_str(default),
    }
}

/// Builds the request for the next answer to `history` from the configured
/// service. Fails, before anything is sent, when the service needs an API key
/// and none is configured.
pub fn build_request(config: &LlmConfig, history: &[ChatMessage]) -> (r: Result<
    ChatRequest,
    LlmError,
>)
    ensures
        r is Err <==> (needs_api_key(config.provider) && config.api_key is None),
        r matches Err(e) ==> e == LlmError::MissingApiKey(config.provider),
        r matches Ok(req) ==> {
            &&& req.url@ == request_url(*config)
            &&& headers_view(req.headers@) == request_headers(*config)
            &&& req.body@ == request_body(*config, history@)
        },
{
    let mut headers: Vec<(String, String)> = Vec::new();
    let url = match config.provider {
        Provider::Ollama => {
            let mut u = base_or_text(&config.base_url, "http://localhost:11434");
            u.append("/api/chat");
            u
        },
        Provider::Anthropic => {
            let key = match &config.api_key {
                Some(k) => k.clone(),
                None => {
                    return Err(LlmError::MissingApiKey(Provider::Anthropic));
                },
            };
            headers.push((String::from_str("x-api-key"), key));
            headers.push((String::from_str("anthropic-version"), String::from_str("2023-06-01")));
            String::from_str("https://api.anthropic.com/v1/messages")
        },
        Provider::OpenAI => {
            let key = match &config.api_key {
                Some(k) => k.clone(),
                None => {
                    return Err(LlmError::MissingApiKey(Provider::OpenAI));
                },
            };
            let mut bearer = String::from_str("Bearer ");
            bearer.append(key.as_str());
            headers.push((String::from_str("Authorization"), bearer));
            let mut u = base_or_text(&config.base_url, "https://api.openai.com/v1");
            u.append("/chat/completions");
            u
        },
    };
    let body = request_body_text(config, history);
    assert(headers_view(headers@) =~= request_headers(*config));
    Ok(ChatRequest { url, headers, body })
}

/// The messages array carries the whole conversation in order: no message
/// gives `[]`, one message gives the array of its object, and each further
/// message adds a comma and its object before the closing bracket.
pub proof fn law_message_list_carries_every_message(ms: Seq<ChatMessage>, m: ChatMessage)
    ensures
        message_list(seq![]) == "[]"@,
        message_list(seq![m]) == "["@ + message_json(m) + "]"@,
        ms.len() > 0 ==> message_list(ms.push(m)) == message_list(ms).drop_last() + ","@
            + message_json(m) + "]"@,
{
    reveal_strlit("[");
    reveal_strlit("]");
    reveal_strlit("[]");
    assert(message_items(seq![]) =~= seq![]);
    assert(message_list(seq![]) =~= "[]"@);
    assert(seq![m].len() == 1 && seq![m][0] == m);
    if ms.len() > 0 {
        let p = ms.push(m);
        assert(p.drop_last() =~= ms);
        assert(p.last() == m);
        let items = message_items(ms);
        assert(("["@ + items + "]"@).drop_last() =~= "["@ + items);
        assert(message_list(p) =~= "["@ + items + ","@ + message_json(m) + "]"@);
    }
}

/// The configured base URL is where Ollama and OpenAI-compatible services are
/// reached; the Anthropic endpoint is fixed.
pub proof fn law_base_url_serves_ollama_and_openai(config: LlmConfig, base: String)
    requires
        config.base_url == Some(base),
    ensures
        config.provider == Provider::Ollama ==> request_url(config) == base@ + "/api/chat"@,
        config.provider == Provider::OpenAI ==> request_url(config) == base@
            + "/chat/completions"@,
        config.provider == Provider::Anthropic ==> request_url(config) == anthropic_url(),
{
}

/// Whether an HTTP status means success (200 to 299).
pub fn is_success(status: u16) -> (r: bool)
    ensures
        r == (200 <= status && status <= 299),
{
    200 <= status && status <= 299
}

/// The failure reported when `provider` answered with status `status` and the
/// text `body`.
pub fn status_error(provider: Provider, status: u16, body: String) -> (e: LlmError)
    requires
        100 <= status <= 999,
    ensures
        e matches LlmError::Status { provider: p, status: s, body: b } && p == provider && s@
            == status_display(status) && b@ == body@,
{
    LlmError::Status { provider, status: status_text(status), body }
}

fn reply_path_steps(p: Provider) -> (r: Vec<PathStep>)
    ensures
        steps_view(r@) == reply_path(p),
{
    let mut v: Vec<PathStep> = Vec::new();
    match p {
        Provider::Ollama => {
            v.push(PathStep::Key(String::from_str("message")));
            v.push(PathStep::Key(String::from_str("content")));
        },
        Provider::Anthropic => {
            v.push(PathStep::Key(String::from_str("content")));
            v.push(PathStep::Index(0));
            v.push(PathStep::Key(String::from_str("text")));
        },
        Provider::OpenAI => {
            v.push(PathStep::Key(String::from_str("choices")));
            v.push(PathStep::Index(0));
            v.push(PathStep::Key(String::from_str("message")));
            v.push(PathStep::Key(String::from_str("content")));
        },
    }
    assert(steps_view(v@) =~= reply_path(p));
    v
}

/// The answer's text in the reply `reply` of `provider`: the string it puts at
/// `message.content` (Ollama), `content[0].text` (Anthropic) or
/// `choices[0].message.content` (OpenAI), or `(empty response)` when there is
/// no string there.
pub fn reply_text(provider: Provider, reply: &Json) -> (r: String)
    ensures
        r@ == reply_text_of(provider, *reply),
{
    let path = reply_path_steps(provider);
    match lookup(reply, path.as_slice()) {
        Some(node) => match text_of(node) {
            Some(t) => t.clone(),
            None => String::from_str("(empty response)"),
        },
        None => String::from_str("(empty response)"),
    }
}

} // verus!
