use vstd::prelude::*;
use crate::json::{json_accepts, json_of, members_of, text_member, JsonValue};
use crate::ollama_client::{generate_answer, generate_body, token_or_empty, OllamaClient};
use crate::openai_client::{
    chat_body, choice_content, choice_items, completion_shape, first_assistant_item,
    items_have_assistant, OpenAiClient, OpenAiClientError,
};
use crate::settings::ServerConfig;
use crate::web_api_client::{
    bearer, is_success, url_accepts, url_joined, valid_header_value, WebApiClient, WebApiClientError,
};

verus! {

/// The families of backends that a server identity can name.
#[derive(Debug, Clone, Copy, PartialEq, Eq, Structural)]
pub enum BackendKind {
    /// A local model server, tagged `ollama`.
    Local,
    /// An OpenAI-compatible chat endpoint, tagged `openai`.
    OpenAi,
}

/// The family that an `api_type` tag names, if any.
pub open spec fn backend_kind(api_type: Seq<char>) -> Option<BackendKind> {
    if api_type == "ollama"@ {
        Some(BackendKind::Local)
    } else if api_type == "openai"@ {
        Some(BackendKind::OpenAi)
    } else {
        None
    }
}

/// Whether an adapter can be made for `setting`: its tag names a family, its
/// URL parses, the agent and the bearer token can stand in headers, and the
/// chat family has a non-empty credential.
pub open spec fn server_accepted(setting: ServerConfig, api_key: Option<String>, agent: Seq<char>) -> bool {
    &&& backend_kind(setting.api_type@) is Some
    &&& url_accepts(setting.base_api_url@)
    &&& valid_header_value(agent)
    &&& valid_header_value(bearer(token_or_empty(api_key)))
    &&& backend_kind(setting.api_type@) == Some(BackendKind::OpenAi) ==> token_or_empty(api_key).len() > 0
}

/// Why no backend could be made or used.
#[derive(Debug, Clone, PartialEq, Eq)]
pub enum BackendError {
    /// The `api_type` names no known family; the message names it.
    UnsupportedBackend(String),
    /// The local adapter failed.
    Local(WebApiClientError),
    /// The chat adapter failed.
    OpenAi(OpenAiClientError),
}

/// One configured backend, of either family; callers use it through the
/// operations below alone.
#[derive(Debug)]
pub enum Backend {
    Local(OllamaClient),
    OpenAi(OpenAiClient),
}

impl BackendKind {
    /// The family that `api_type` names.
    pub fn from_tag(api_type: &str) -> (r: Option<BackendKind>)
        ensures
            r == backend_kind(api_type@),
    {
        let tag = String::from_str(api_type);
        let ollama = String::from_str("ollama");
        let openai = String::from_str("openai");
        if tag == ollama {
            Some(BackendKind::Local)
        } else if tag == openai {
            Some(BackendKind::OpenAi)
        } else {
            None
        }
    }
}

impl Backend {
    /// The family of this backend.
    pub open spec fn kind(&self) -> BackendKind {
        match self {
            Backend::Local(_) => BackendKind::Local,
            Backend::OpenAi(_) => BackendKind::OpenAi,
        }
    }

    /// The adapter that `setting.api_type` names, made from `setting` and the
    /// credential. An unknown tag is refused before anything else is done;
    /// the adapter's own failures are passed on.
    pub fn from_server(setting: &ServerConfig, api_key: Option<String>, agent: &str) -> (r: Result<Backend, BackendError>)
        ensures
            backend_kind(setting.api_type@) is None <==> r matches Err(BackendError::UnsupportedBackend(_)),
            r matches Ok(b) ==> Some(b.kind()) == backend_kind(setting.api_type@),
            r matches Err(BackendError::Local(_)) ==> backend_kind(setting.api_type@) == Some(BackendKind::Local),
            r matches Err(BackendError::OpenAi(_)) ==> backend_kind(setting.api_type@) == Some(BackendKind::OpenAi),
            r matches Err(BackendError::Local(WebApiClientError::InvalidInput(_))) <==> (
                backend_kind(setting.api_type@) == Some(BackendKind::Local) && valid_header_value(agent@)
                && valid_header_value(bearer(token_or_empty(api_key))) && !url_accepts(setting.base_api_url@)),
            r is Ok <==> server_accepted(*setting, api_key, agent@),
    {
        match BackendKind::from_tag(setting.api_type.as_str()) {
            Some(BackendKind::Local) => match OllamaClient::new(setting, api_key, agent) {
                Ok(c) => Ok(Backend::Local(c)),
                Err(e) => Err(BackendError::Local(e)),
            },
            Some(BackendKind::OpenAi) => match OpenAiClient::new(setting, api_key.as_ref(), agent) {
                Ok(c) => Ok(Backend::OpenAi(c)),
                Err(e) => Err(BackendError::OpenAi(e)),
            },
            None => {
                let mut m = String::from_str("Unsupported backend type: ");
                m.append(setting.api_type.as_str());
                Err(BackendError::UnsupportedBackend(m))
            },
        }
    }

    /// The base URL of the adapter.
    pub open spec fn base(&self) -> url::Url {
        match self {
            Backend::Local(c) => c.base(),
            Backend::OpenAi(c) => c.base(),
        }
    }

    /// The path that generation requests go to.
    pub open spec fn request_path(&self) -> Seq<char> {
        match self {
            Backend::Local(_) => "/api/generate"@,
            Backend::OpenAi(_) => "/v1/chat/completions"@,
        }
    }

    /// The transport of the adapter.
    pub open spec fn transport(&self) -> WebApiClient {
        match self {
            Backend::Local(c) => c.transport(),
            Backend::OpenAi(c) => c.transport(),
        }
    }

    /// The transport that requests go through.
    pub fn web_client(&self) -> (r: &WebApiClient)
        ensures
            *r == self.transport(),
    {
        match self {
            Backend::Local(c) => c.web_client(),
            Backend::OpenAi(c) => c.web_client(),
        }
    }

    /// Where generation requests go.
    pub fn request_url(&self) -> (r: Result<url::Url, BackendError>)
        ensures
            r is Ok <==> url_joined(self.base(), self.request_path()) is Some,
            r matches Ok(u) ==> u == url_joined(self.base(), self.request_path()).unwrap(),
            r is Err ==> r matches Err(BackendError::Local(WebApiClientError::InvalidInput(_)))
                || r matches Err(BackendError::OpenAi(OpenAiClientError::InvalidInput(_))),
    {
        match self {
            Backend::Local(c) => match c.generate_url() {
                Ok(u) => Ok(u),
                Err(e) => Err(BackendError::Local(e)),
            },
            Backend::OpenAi(c) => match c.chat_completion_url() {
                Ok(u) => Ok(u),
                Err(e) => Err(BackendError::OpenAi(e)),
            },
        }
    }

    /// The body of a generation request in this backend's wire format.
    pub fn request_body(&self, model: &str, system_prompt: &str, prompt: &str, want_json: bool) -> (r: JsonValue)
        ensures
            r is Object,
            self.kind() == BackendKind::Local ==> generate_body(members_of(r), model@, system_prompt@, prompt@, want_json),
            self.kind() == BackendKind::OpenAi ==> chat_body(members_of(r), model@, system_prompt@, prompt@),
    {
        match self {
            Backend::Local(_) => OllamaClient::generate_payload(model, system_prompt, prompt, want_json),
            Backend::OpenAi(_) => OpenAiClient::chat_completion_payload(model, system_prompt, prompt, want_json),
        }
    }

    /// The completion text in the answer to a generation request: the
    /// `response` of the local server, or the content of the first assistant
    /// choice of the chat endpoint.
    pub fn finish(&self, status: u16, body: &str) -> (r: Result<String, BackendError>)
        ensures
            r is Ok ==> is_success(status) && json_accepts(body@),
            self.kind() == BackendKind::Local ==> (r is Ok || r matches Err(BackendError::Local(_))),
            self.kind() == BackendKind::OpenAi ==> (r is Ok || r matches Err(BackendError::OpenAi(OpenAiClientError::CompletionFailed(_)))),
            self.kind() == BackendKind::Local && is_success(status) && json_accepts(body@)
                ==> (r is Ok <==> generate_answer(json_of(body@))),
            self.kind() == BackendKind::Local ==> (r matches Ok(t)
                ==> t@ == text_member(members_of(json_of(body@)), "response"@).unwrap()),
            self.kind() == BackendKind::OpenAi && is_success(status) && json_accepts(body@)
                ==> (r is Ok <==> (completion_shape(json_of(body@)) && items_have_assistant(choice_items(json_of(body@)).unwrap()))),
            self.kind() == BackendKind::OpenAi ==> (r matches Ok(t) ==> exists|i: int|
                first_assistant_item(choice_items(json_of(body@)).unwrap(), i)
                && t@ == choice_content(choice_items(json_of(body@)).unwrap()[i])),
    {
        match self {
            Backend::Local(_) => match OllamaClient::finish_generate(status, body) {
                Ok(g) => Ok(g.response),
                Err(e) => Err(BackendError::Local(e)),
            },
            Backend::OpenAi(_) => match OpenAiClient::finish_chat_completion(status, body) {
                Ok(t) => Ok(t),
                Err(e) => Err(BackendError::OpenAi(e)),
            },
        }
    }
}

} // verus!
