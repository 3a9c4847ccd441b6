use llm_gateway::secrets::{SecretConfig, SecretError, Secrets};
use llm_gateway::settings::{EndpointConfig, LookupError, Method, ServerConfig, Settings};

fn server(name: &str, api_type: &str) -> ServerConfig {
    ServerConfig {
        name: name.to_string(),
        model: "llama3".to_string(),
        api_type: api_type.to_string(),
        base_api_url: "http://localhost:11434".to_string(),
        secret: None,
        connection_timeout: Some(5),
        deadline_timeout: None,
    }
}

fn endpoint(path: &str, server: &str) -> EndpointConfig {
    EndpointConfig {
        path: path.to_string(),
        template: "t".to_string(),
        server: server.to_string(),
        system_prompt: "sys".to_string(),
        user_prompt: format!("user {path}"),
    }
}

fn settings() -> Settings {
    Settings {
        servers: vec![server("local", "ollama"), server("cloud", "openai"), server("local", "other")],
        endpoints: vec![endpoint("/a", "local"), endpoint("/b", "cloud"), endpoint("/a", "cloud")],
    }
}

#[test]
fn endpoint_found_by_path_takes_first() {
    let e = settings().get_endpoint_by_path("/a").unwrap();
    assert_eq!(e.server, "local");
    assert_eq!(e.user_prompt, "user /a");
    assert_eq!(e.system_prompt, "sys");
}

#[test]
fn endpoint_missing_names_path() {
    let e = settings().get_endpoint_by_path("/zzz").unwrap_err();
    assert_eq!(e, LookupError::NotFound("Endpoint /zzz not found".to_string()));
}

#[test]
fn server_found_by_name_takes_first() {
    let s = settings().get_server_config_by_name("local").unwrap();
    assert_eq!(s.api_type, "ollama");
    assert_eq!(s.connection_timeout, Some(5));
}

#[test]
fn server_missing_names_it() {
    let e = settings().get_server_config_by_name("nope").unwrap_err();
    assert_eq!(e, LookupError::NotFound("Server nope not found".to_string()));
}

#[test]
fn endpoint_public_part_drops_path() {
    let p = endpoint("/x", "s").get_public();
    assert_eq!(p.server, "s");
    assert_eq!(p.template, "t");
}

#[test]
fn method_names_ignore_case() {
    assert_eq!(Method::from_name("GET"), Some(Method::Get));
    assert_eq!(Method::from_name("pOsT"), Some(Method::Post));
    assert_eq!(Method::from_name("put"), Some(Method::Put));
    assert_eq!(Method::from_name("Delete"), Some(Method::Delete));
    assert_eq!(Method::from_name("patch"), None);
    assert_eq!(Method::from_name(""), None);
}

#[test]
fn secret_found_by_name() {
    let secrets = Secrets::new(vec![
        SecretConfig { name: "a".to_string(), value: "1".to_string() },
        SecretConfig { name: "b".to_string(), value: "2".to_string() },
        SecretConfig { name: "a".to_string(), value: "3".to_string() },
    ]);
    let s = secrets.get_by_name("a").unwrap();
    assert_eq!(s.name, "a");
    assert_eq!(s.value, "1");
    assert_eq!(secrets.get_by_name("b").unwrap().value, "2");
}

#[test]
fn secret_missing_names_it() {
    let secrets = Secrets::new(vec![]);
    assert_eq!(
        secrets.get_by_name("key").unwrap_err(),
        SecretError::NotFound("Secret key not found".to_string())
    );
}

#[test]
fn secret_config_public_part() {
    let c = SecretConfig { name: "n".to_string(), value: "v".to_string() };
    let s = c.get_public();
    assert_eq!((s.name.as_str(), s.value.as_str()), ("n", "v"));
}
