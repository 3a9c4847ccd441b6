use llm_gateway::backend::{Backend, BackendError, BackendKind};
use llm_gateway::json::{find_member, JsonValue};
use llm_gateway::ollama_client::{EmbeddingRequest, OllamaClient};
use llm_gateway::openai_client::{
    ChatCompletionChoice, ChatCompletionResponse, ChatMessage, NewChatCompletion, OpenAiClient,
    OpenAiClientError,
};
use llm_gateway::settings::ServerConfig;
use llm_gateway::web_api_client::WebApiClientError;

const AGENT: &str = "gateway 1.0";

fn server(api_type: &str, url: &str) -> ServerConfig {
    ServerConfig {
        name: "s".to_string(),
        model: "m".to_string(),
        api_type: api_type.to_string(),
        base_api_url: url.to_string(),
        secret: None,
        connection_timeout: Some(2),
        deadline_timeout: Some(60),
    }
}

fn members(v: &JsonValue) -> &Vec<(String, JsonValue)> {
    match v {
        JsonValue::Object(f) => f,
        other => panic!("not an object: {other:?}"),
    }
}

fn text_of<'a>(fields: &'a Vec<(String, JsonValue)>, key: &str) -> &'a str {
    match &fields[find_member(fields, key).expect("member")].1 {
        JsonValue::Text(t) => t,
        other => panic!("not text: {other:?}"),
    }
}

#[test]
fn local_adapter_with_valid_url_is_made() {
    let c = OllamaClient::new(&server("ollama", "http://localhost:11434"), None, AGENT).unwrap();
    assert_eq!(c.web_client().header("authorization"), Some("Bearer ".to_string()));
    let url = c.generate_url().unwrap();
    assert_eq!(url.as_str(), "http://localhost:11434/api/generate");
    assert_eq!(c.embeddings_url().unwrap().as_str(), "http://localhost:11434/api/embeddings");
}

#[test]
fn local_adapter_sends_token() {
    let c = OllamaClient::new(&server("ollama", "http://h:1/x/"), Some("tok".to_string()), AGENT).unwrap();
    assert_eq!(c.web_client().header("authorization"), Some("Bearer tok".to_string()));
}

#[test]
fn local_adapter_with_malformed_url_is_invalid_input() {
    let e = OllamaClient::new(&server("ollama", "not a url"), None, AGENT).unwrap_err();
    assert!(matches!(e, WebApiClientError::InvalidInput(_)));
}

#[test]
fn bad_token_is_invalid_key_whatever_the_url() {
    let e = OllamaClient::new(&server("ollama", ""), Some("bad\ntoken".to_string()), AGENT).unwrap_err();
    assert!(matches!(e, WebApiClientError::InvalidApiKey(_)));
    let key = "a\nb".to_string();
    let e = OpenAiClient::new(&server("openai", "not a url"), Some(&key), AGENT).unwrap_err();
    assert!(matches!(e, OpenAiClientError::InvalidApiKey(_)));
}

#[test]
fn local_adapter_with_bad_token_is_invalid_key() {
    let e = OllamaClient::new(&server("ollama", "http://localhost"), Some("a\nb".to_string()), AGENT).unwrap_err();
    assert!(matches!(e, WebApiClientError::InvalidApiKey(_)));
}

#[test]
fn generate_payload_json_sets_format() {
    let v = OllamaClient::generate_payload("llama3", "be brief", "hi", true);
    let f = members(&v);
    assert_eq!(text_of(f, "format"), "json");
    assert_eq!(text_of(f, "model"), "llama3");
    assert_eq!(text_of(f, "system"), "be brief");
    assert_eq!(text_of(f, "prompt"), "hi");
    assert_eq!(text_of(f, "keep_alive"), "10m");
}

#[test]
fn generate_payload_without_json_omits_format() {
    let v = OllamaClient::generate_payload("llama3", "s", "p", false);
    let f = members(&v);
    assert_eq!(find_member(f, "format"), None);
    assert_eq!(f.len(), 7);
    match &f[find_member(f, "stream").unwrap()].1 {
        JsonValue::Bool(b) => assert!(!b),
        other => panic!("{other:?}"),
    }
    match &f[find_member(f, "temperature").unwrap()].1 {
        JsonValue::Number(n) => assert_eq!(n.text, "0.3"),
        other => panic!("{other:?}"),
    }
}

#[test]
fn minimal_generate_answer_reads_with_no_optionals() {
    let body = r#"{"model":"llama3","created_at":"2024-01-01T00:00:00Z","response":"hi there","done":true}"#;
    let g = OllamaClient::finish_generate(200, body).unwrap();
    assert_eq!(g.model, "llama3");
    assert_eq!(g.response, "hi there");
    assert!(g.done);
    assert_eq!(g.done_reason, None);
    assert!(g.context.is_empty());
    assert_eq!(g.total_duration, None);
    assert_eq!(g.load_duration, None);
    assert_eq!(g.prompt_eval_count, None);
    assert_eq!(g.prompt_eval_duration, None);
    assert_eq!(g.eval_count, None);
    assert_eq!(g.eval_duration, None);
}

#[test]
fn full_generate_answer_reads_all_parts() {
    let body = r#"{"model":"m","created_at":"c","response":"r","done":false,"done_reason":"stop",
        "context":[1,2,3],"total_duration":10,"load_duration":null,"eval_count":7}"#;
    let g = OllamaClient::finish_generate(200, body).unwrap();
    assert_eq!(g.done_reason.as_deref(), Some("stop"));
    assert_eq!(g.context, vec![1, 2, 3]);
    assert_eq!(g.total_duration, Some(10));
    assert_eq!(g.load_duration, None);
    assert_eq!(g.eval_count, Some(7));
}

#[test]
fn generate_answer_missing_done_is_parse_error() {
    let body = r#"{"model":"m","created_at":"c","response":"r"}"#;
    assert!(matches!(OllamaClient::finish_generate(200, body), Err(WebApiClientError::ParseError(_))));
    let body = r#"{"model":"m","created_at":"c","response":"r","done":true,"eval_count":"x"}"#;
    assert!(matches!(OllamaClient::finish_generate(200, body), Err(WebApiClientError::ParseError(_))));
}

#[test]
fn generate_error_status_fails_post() {
    let e = OllamaClient::finish_generate(500, "{\"error\":\"boom\"}").unwrap_err();
    assert_eq!(e, WebApiClientError::PostFailed("Server returned error status 500: {\"error\":\"boom\"}".to_string()));
}

#[test]
fn embedding_request_json() {
    let r = EmbeddingRequest { model: "e".to_string(), prompt: "text".to_string() };
    let v = r.to_json();
    let f = members(&v);
    assert_eq!(text_of(f, "model"), "e");
    assert_eq!(text_of(f, "prompt"), "text");
}

#[test]
fn chat_adapter_without_key_is_invalid_key() {
    let e = OpenAiClient::new(&server("openai", "not a url"), None, AGENT).unwrap_err();
    assert_eq!(e, OpenAiClientError::InvalidApiKey("API key cannot be empty".to_string()));
    let empty = String::new();
    let e = OpenAiClient::new(&server("openai", "not a url"), Some(&empty), AGENT).unwrap_err();
    assert_eq!(e, OpenAiClientError::InvalidApiKey("API key cannot be empty".to_string()));
}

#[test]
fn chat_adapter_with_malformed_url_is_invalid_input() {
    let key = "sk-1".to_string();
    let e = OpenAiClient::new(&server("openai", "::"), Some(&key), AGENT).unwrap_err();
    assert!(matches!(e, OpenAiClientError::InvalidInput(_)));
}

#[test]
fn chat_adapter_with_valid_url_is_made() {
    let key = "sk-1".to_string();
    let c = OpenAiClient::new(&server("openai", "https://api.example.com"), Some(&key), AGENT).unwrap();
    assert_eq!(c.web_client().header("authorization"), Some("Bearer sk-1".to_string()));
    assert_eq!(c.chat_completion_url().unwrap().as_str(), "https://api.example.com/v1/chat/completions");
}

#[test]
fn chat_payload_has_system_then_user() {
    let v = OpenAiClient::chat_completion_payload("gpt", "sys", "hello", true);
    let f = members(&v);
    assert_eq!(f.len(), 2);
    assert_eq!(text_of(f, "model"), "gpt");
    match &f[1].1 {
        JsonValue::Array(ms) => {
            assert_eq!(ms.len(), 2);
            assert_eq!(text_of(members(&ms[0]), "role"), "system");
            assert_eq!(text_of(members(&ms[0]), "content"), "sys");
            assert_eq!(text_of(members(&ms[1]), "role"), "user");
            assert_eq!(text_of(members(&ms[1]), "content"), "hello");
        }
        other => panic!("{other:?}"),
    }
}

#[test]
fn chat_first_assistant_choice_wins() {
    let body = r#"{"choices":[{"index":0,"message":{"role":"user","content":"echo"}},{"index":1,"message":{"role":"assistant","content":"hello"}}]}"#;
    assert_eq!(OpenAiClient::finish_chat_completion(200, body).unwrap(), "hello");
}

#[test]
fn chat_without_assistant_fails() {
    let body = r#"{"choices":[{"index":0,"message":{"role":"user","content":"echo"}}]}"#;
    assert_eq!(
        OpenAiClient::finish_chat_completion(200, body).unwrap_err(),
        OpenAiClientError::CompletionFailed("No assistant response found".to_string())
    );
    let body = r#"{"choices":[]}"#;
    assert_eq!(
        OpenAiClient::finish_chat_completion(200, body).unwrap_err(),
        OpenAiClientError::CompletionFailed("No assistant response found".to_string())
    );
}

#[test]
fn chat_wrong_shape_fails_completion() {
    let body = r#"{"choices":[{"message":{"role":"assistant","content":"x"}}]}"#;
    assert!(matches!(OpenAiClient::finish_chat_completion(200, body), Err(OpenAiClientError::CompletionFailed(_))));
}

#[test]
fn chat_error_status_fails_completion() {
    let e = OpenAiClient::finish_chat_completion(500, "{\"error\":\"boom\"}").unwrap_err();
    assert_eq!(
        e,
        OpenAiClientError::CompletionFailed(
            "POST request failed: POST request failed: Server returned error status 500: {\"error\":\"boom\"}".to_string()
        )
    );
}

#[test]
fn assistant_content_picks_first_assistant() {
    let choice = |i: i64, role: &str, content: &str| ChatCompletionChoice {
        index: i,
        message: ChatMessage { role: role.to_string(), content: content.to_string() },
    };
    let r = ChatCompletionResponse {
        choices: vec![choice(0, "system", "a"), choice(1, "assistant", "b"), choice(2, "assistant", "c")],
    };
    assert_eq!(r.assistant_content().unwrap(), "b");
}

#[test]
fn new_chat_completion_default_is_empty() {
    let d = NewChatCompletion::default();
    assert!(d.model.is_empty() && d.prompt.is_empty() && d.system.is_none() && d.format.is_none());
}

#[test]
fn openai_error_messages() {
    assert_eq!(OpenAiClientError::CompletionFailed("x".to_string()).message(), "Completion Failed: x");
}

#[test]
fn backend_selected_by_tag() {
    assert_eq!(BackendKind::from_tag("ollama"), Some(BackendKind::Local));
    assert_eq!(BackendKind::from_tag("openai"), Some(BackendKind::OpenAi));
    assert_eq!(BackendKind::from_tag("Ollama"), None);
    let b = Backend::from_server(&server("ollama", "http://localhost:11434"), None, AGENT).unwrap();
    assert!(matches!(b, Backend::Local(_)));
    let b = Backend::from_server(&server("openai", "http://localhost:8080"), Some("k".to_string()), AGENT).unwrap();
    assert!(matches!(b, Backend::OpenAi(_)));
    assert_eq!(b.request_url().unwrap().as_str(), "http://localhost:8080/v1/chat/completions");
}

#[test]
fn backend_unknown_tag_is_unsupported() {
    let e = Backend::from_server(&server("grpc", "http://localhost"), None, AGENT).unwrap_err();
    assert_eq!(e, BackendError::UnsupportedBackend("Unsupported backend type: grpc".to_string()));
}

#[test]
fn backend_finish_returns_completion_text() {
    let b = Backend::from_server(&server("ollama", "http://localhost:11434"), None, AGENT).unwrap();
    let body = r#"{"model":"m","created_at":"c","response":"local text","done":true}"#;
    assert_eq!(b.finish(200, body).unwrap(), "local text");
    assert!(matches!(b.finish(404, "nope"), Err(BackendError::Local(WebApiClientError::PostFailed(_)))));
}

#[test]
fn chat_answer_not_json_carries_transport_text() {
    match OpenAiClient::finish_chat_completion(200, "<html>") {
        Err(OpenAiClientError::CompletionFailed(m)) => {
            assert!(m.starts_with("POST request failed: POST request failed: Failed to parse JSON response: "));
            assert!(m.len() > "POST request failed: POST request failed: Failed to parse JSON response: ".len())
        }
        other => panic!("unexpected {other:?}"),
    }
}

#[test]
fn chat_adapter_with_bad_agent_is_refused() {
    let key = "k".to_string();
    let e = OpenAiClient::new(&server("openai", "http://localhost"), Some(&key), "a\u{1}b").unwrap_err();
    assert!(matches!(e, OpenAiClientError::InvalidApiKey(_)));
    let e = OllamaClient::new(&server("ollama", "http://localhost"), None, "a\u{1}b").unwrap_err();
    assert!(matches!(e, WebApiClientError::ClientCreationError(_)));
}
