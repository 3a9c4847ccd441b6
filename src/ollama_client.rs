use vstd::prelude::*;
use crate::json::{
    bool_member, get_bool, get_optional_text, get_optional_u64, get_text, get_unsigned_list,
    json_accepts, json_error, json_of, lemma_member_absent, members_of, lemma_member_at, member, optional_text_member,
    optional_u64_member, push_member, text_at, text_member, text_value, unsigned_list_member, JsonNumber,
    JsonValue,
};
use crate::settings::ServerConfig;
use crate::web_api_client::{
    authorization_name, bearer, content_type_name, endpoint_url, is_success, json_media_type,
    parse_url, status_failure_text, url_accepts, url_joined, url_parsed, valid_header_value, WebApiClient,
    WebApiClientError,
};

verus! {

/// What the local model server answers to a generation request.
#[derive(Debug, Clone)]
pub struct GenerateResponse {
    pub model: String,
    pub created_at: String,
    pub response: String,
    pub done: bool,
    pub done_reason: Option<String>,
    pub context: Vec<u64>,
    pub total_duration: Option<u64>,
    pub load_duration: Option<u64>,
    pub prompt_eval_count: Option<u64>,
    pub prompt_eval_duration: Option<u64>,
    pub eval_count: Option<u64>,
    pub eval_duration: Option<u64>,
}

/// A request for the embedding of a text.
#[derive(Debug, Clone)]
pub struct EmbeddingRequest {
    pub model: String,
    pub prompt: String,
}

/// Whether the members of a generation answer have the shapes it needs:
/// text `model`, `created_at` and `response`, boolean `done`, and the
/// optional members absent, null or of their type.
pub open spec fn generate_shape(fields: Seq<(String, JsonValue)>) -> bool {
    &&& text_member(fields, "model"@) is Some
    &&& text_member(fields, "created_at"@) is Some
    &&& text_member(fields, "response"@) is Some
    &&& bool_member(fields, "done"@) is Some
    &&& optional_text_member(fields, "done_reason"@) is Some
    &&& unsigned_list_member(fields, "context"@) is Some
    &&& optional_u64_member(fields, "total_duration"@) is Some
    &&& optional_u64_member(fields, "load_duration"@) is Some
    &&& optional_u64_member(fields, "prompt_eval_count"@) is Some
    &&& optional_u64_member(fields, "prompt_eval_duration"@) is Some
    &&& optional_u64_member(fields, "eval_count"@) is Some
    &&& optional_u64_member(fields, "eval_duration"@) is Some
}

/// Whether `t` holds the optional text `o`.
pub open spec fn same_optional_text(t: Option<String>, o: Option<Seq<char>>) -> bool {
    &&& (t is Some <==> o is Some)
    &&& (t is Some ==> t.unwrap()@ == o.unwrap())
}

/// Whether `v` is an object with the shape of a generation answer.
pub open spec fn generate_answer(v: JsonValue) -> bool {
    v is Object && generate_shape(members_of(v))
}

/// Whether `g` holds what the members of a generation answer say.
pub open spec fn generate_decoded(fields: Seq<(String, JsonValue)>, g: GenerateResponse) -> bool {
    &&& g.model@ == text_member(fields, "model"@).unwrap()
    &&& g.created_at@ == text_member(fields, "created_at"@).unwrap()
    &&& g.response@ == text_member(fields, "response"@).unwrap()
    &&& g.done == bool_member(fields, "done"@).unwrap()
    &&& same_optional_text(g.done_reason, optional_text_member(fields, "done_reason"@).unwrap())
    &&& g.context@ == unsigned_list_member(fields, "context"@).unwrap()
    &&& g.total_duration == optional_u64_member(fields, "total_duration"@).unwrap()
    &&& g.load_duration == optional_u64_member(fields, "load_duration"@).unwrap()
    &&& g.prompt_eval_count == optional_u64_member(fields, "prompt_eval_count"@).unwrap()
    &&& g.prompt_eval_duration == optional_u64_member(fields, "prompt_eval_duration"@).unwrap()
    &&& g.eval_count == optional_u64_member(fields, "eval_count"@).unwrap()
    &&& g.eval_duration == optional_u64_member(fields, "eval_duration"@).unwrap()
}

fn shape_error() -> (r: WebApiClientError)
    ensures
        r matches WebApiClientError::ParseError(_),
{
    WebApiClientError::ParseError(String::from_str("Failed to parse generate response"))
}

impl GenerateResponse {
    /// Reads a generation answer from a JSON object; a missing required
    /// member, or one of the wrong type, is a parse error. Optional members
    /// that are absent or null read as `None`, and an absent `context` as
    /// empty.
    pub fn from_json(v: &JsonValue) -> (r: Result<GenerateResponse, WebApiClientError>)
        ensures
            r is Ok <==> (v matches JsonValue::Object(fields) && generate_shape(fields@)),
            r matches Ok(g) ==> (v matches JsonValue::Object(fields) && generate_decoded(fields@, g)),
            r is Err ==> r matches Err(WebApiClientError::ParseError(_)),
    {
        let fields = match v {
            JsonValue::Object(f) => f,
            _ => return Err(shape_error()),
        };
        let model = match get_text(fields, "model") {
            Some(t) => t,
            None => return Err(shape_error()),
        };
        let created_at = match get_text(fields, "created_at") {
            Some(t) => t,
            None => return Err(shape_error()),
        };
        let response = match get_text(fields, "response") {
            Some(t) => t,
            None => return Err(shape_error()),
        };
        let done = match get_bool(fields, "done") {
            Some(b) => b,
            None => return Err(shape_error()),
        };
        let done_reason = match get_optional_text(fields, "done_reason") {
            Some(o) => o,
            None => return Err(shape_error()),
        };
        let context = match get_unsigned_list(fields, "context") {
            Some(l) => l,
            None => return Err(shape_error()),
        };
        let total_duration = match get_optional_u64(fields, "total_duration") {
            Some(o) => o,
            None => return Err(shape_error()),
        };
        let load_duration = match get_optional_u64(fields, "load_duration") {
            Some(o) => o,
            None => return Err(shape_error()),
        };
        let prompt_eval_count = match get_optional_u64(fields, "prompt_eval_count") {
            Some(o) => o,
            None => return Err(shape_error()),
        };
        let prompt_eval_duration = match get_optional_u64(fields, "prompt_eval_duration") {
            Some(o) => o,
            None => return Err(shape_error()),
        };
        let eval_count = match get_optional_u64(fields, "eval_count") {
            Some(o) => o,
            None => return Err(shape_error()),
        };
        let eval_duration = match get_optional_u64(fields, "eval_duration") {
            Some(o) => o,
            None => return Err(shape_error()),
        };
        Ok(GenerateResponse {
            model,
            created_at,
            response,
            done,
            done_reason,
            context,
            total_duration,
            load_duration,
            prompt_eval_count,
            prompt_eval_duration,
            eval_count,
            eval_duration,
        })
    }
}

/// An answer that holds only `model`, `created_at`, `response` and `done`,
/// of their types, reads without error, and every optional part of what it
/// reads as is absent or empty.
pub proof fn lemma_minimal_answer_reads(fields: Seq<(String, JsonValue)>, g: GenerateResponse)
    requires
        text_member(fields, "model"@) is Some,
        text_member(fields, "created_at"@) is Some,
        text_member(fields, "response"@) is Some,
        bool_member(fields, "done"@) is Some,
        member(fields, "done_reason"@) is None,
        member(fields, "context"@) is None,
        member(fields, "total_duration"@) is None,
        member(fields, "load_duration"@) is None,
        member(fields, "prompt_eval_count"@) is None,
        member(fields, "prompt_eval_duration"@) is None,
        member(fields, "eval_count"@) is None,
        member(fields, "eval_duration"@) is None,
    ensures
        generate_shape(fields),
        generate_decoded(fields, g) ==> {
            &&& g.done_reason is None
            &&& g.context@.len() == 0
            &&& g.total_duration is None
            &&& g.load_duration is None
            &&& g.prompt_eval_count is None
            &&& g.prompt_eval_duration is None
            &&& g.eval_count is None
            &&& g.eval_duration is None
        },
{
}

/// Whether member `i` of `fields` is named `key` and holds the boolean `b`.
pub open spec fn bool_at(fields: Seq<(String, JsonValue)>, i: int, key: Seq<char>, b: bool) -> bool {
    &&& fields[i].0@ == key
    &&& fields[i].1 == JsonValue::Bool(b)
}

/// Whether member `i` of `fields` is named `key` and holds a number written `t`.
pub open spec fn number_at(fields: Seq<(String, JsonValue)>, i: int, key: Seq<char>, t: Seq<char>) -> bool {
    &&& fields[i].0@ == key
    &&& fields[i].1 matches JsonValue::Number(n) && n.text@ == t
}

/// Whether `fields` is the body of a generation request: the model, the
/// prompt and the system prompt, no raw mode, no streaming, temperature 0.3,
/// a ten-minute keep-alive, and a `format` of `json` only where JSON output
/// is wanted.
pub open spec fn generate_body(fields: Seq<(String, JsonValue)>, model: Seq<char>, system_prompt: Seq<char>, prompt: Seq<char>, want_json: bool) -> bool {
    &&& fields.len() == if want_json { 8int } else { 7int }
    &&& text_at(fields, 0, "model"@, model)
    &&& text_at(fields, 1, "prompt"@, prompt)
    &&& text_at(fields, 2, "system"@, system_prompt)
    &&& bool_at(fields, 3, "raw"@, false)
    &&& bool_at(fields, 4, "stream"@, false)
    &&& number_at(fields, 5, "temperature"@, "0.3"@)
    &&& text_at(fields, 6, "keep_alive"@, "10m"@)
    &&& want_json ==> text_at(fields, 7, "format"@, "json"@)
}

/// The token of an optional credential, empty where there is none.
pub open spec fn token_or_empty(api_key: Option<String>) -> Seq<char> {
    match api_key {
        Some(k) => k@,
        None => Seq::empty(),
    }
}

/// The local model server behind one server identity.
#[derive(Debug)]
pub struct OllamaClient {
    auth_api_client: WebApiClient,
    base_url: url::Url,
}

impl OllamaClient {
    /// The transport that requests go through.
    pub closed spec fn transport(&self) -> WebApiClient {
        self.auth_api_client
    }

    /// The base URL that request paths are resolved against.
    pub closed spec fn base(&self) -> url::Url {
        self.base_url
    }

    /// An adapter for `setting`. The base URL must parse, else the input is
    /// invalid; the token (empty where none is given) is sent as a bearer
    /// token and must fit in a header, else the key is invalid.
    pub fn new(setting: &ServerConfig, api_key: Option<String>, agent: &str) -> (r: Result<OllamaClient, WebApiClientError>)
        ensures
            !valid_header_value(agent@) ==> r matches Err(WebApiClientError::ClientCreationError(_)),
            valid_header_value(agent@) && !valid_header_value(bearer(token_or_empty(api_key)))
                ==> r matches Err(WebApiClientError::InvalidApiKey(_)),
            r matches Err(WebApiClientError::InvalidInput(_)) <==> valid_header_value(agent@)
                && valid_header_value(bearer(token_or_empty(api_key))) && !url_accepts(setting.base_api_url@),
            r is Ok <==> url_accepts(setting.base_api_url@) && valid_header_value(agent@)
                && valid_header_value(bearer(token_or_empty(api_key))),
            r matches Ok(c) ==> {
                &&& c.transport().wf()
                &&& c.transport().headers() == map![
                    content_type_name() => json_media_type(),
                    authorization_name() => bearer(token_or_empty(api_key))
                ]
                &&& c.transport().user_agent() == agent@
                &&& c.transport().connection_timeout() == setting.connection_timeout
                &&& c.transport().deadline_timeout() == setting.deadline_timeout
                &&& c.transport().client_is_current()
                &&& c.base() == url_parsed(setting.base_api_url@)
            },
    {
        let token = match api_key {
            Some(k) => k,
            None => String::new(),
        };
        let auth_api_client = match WebApiClient::with_bearer(agent, setting.connection_timeout, setting.deadline_timeout, token.as_str()) {
            Ok(c) => c,
            Err(e) => return Err(e),
        };
        let base_url = match parse_url(setting.base_api_url.as_str()) {
            Ok(u) => u,
            Err(e) => {
                let mut m = String::from_str("Failed to parse base API URL (");
                m.append(setting.base_api_url.as_str());
                m.append("): ");
                m.append(e.as_str());
                return Err(WebApiClientError::InvalidInput(m));
            },
        };
        Ok(OllamaClient { auth_api_client, base_url })
    }

    /// The transport that requests go through.
    pub fn web_client(&self) -> (r: &WebApiClient)
        ensures
            *r == self.transport(),
    {
        &self.auth_api_client
    }

    /// Where generation requests go: `/api/generate` on the server.
    pub fn generate_url(&self) -> (r: Result<url::Url, WebApiClientError>)
        ensures
            r is Ok <==> url_joined(self.base(), "/api/generate"@) is Some,
            r matches Ok(u) ==> u == url_joined(self.base(), "/api/generate"@).unwrap(),
            r is Err ==> r matches Err(WebApiClientError::InvalidInput(_)),
    {
        endpoint_url(&self.base_url, "/api/generate")
    }

    /// Where embedding requests go: `/api/embeddings` on the server.
    pub fn embeddings_url(&self) -> (r: Result<url::Url, WebApiClientError>)
        ensures
            r is Ok <==> url_joined(self.base(), "/api/embeddings"@) is Some,
            r matches Ok(u) ==> u == url_joined(self.base(), "/api/embeddings"@).unwrap(),
            r is Err ==> r matches Err(WebApiClientError::InvalidInput(_)),
    {
        endpoint_url(&self.base_url, "/api/embeddings")
    }

    /// The body of a generation request. `format` is `"json"` where JSON
    /// output is wanted and absent otherwise.
    pub fn generate_payload(model: &str, system_prompt: &str, prompt: &str, want_json: bool) -> (r: JsonValue)
        ensures
            r matches JsonValue::Object(fields) && generate_body(fields@, model@, system_prompt@, prompt@, want_json),
            r matches JsonValue::Object(fields) && (want_json ==> text_member(fields@, "format"@) == Some("json"@)),
            r matches JsonValue::Object(fields) && (!want_json ==> member(fields@, "format"@) is None),
    {
        let mut fields: Vec<(String, JsonValue)> = Vec::new();
        push_member(&mut fields, "model", text_value(model));
        push_member(&mut fields, "prompt", text_value(prompt));
        push_member(&mut fields, "system", text_value(system_prompt));
        push_member(&mut fields, "raw", JsonValue::Bool(false));
        push_member(&mut fields, "stream", JsonValue::Bool(false));
        let temperature = JsonNumber { text: String::from_str("0.3"), unsigned: None, signed: None };
        push_member(&mut fields, "temperature", JsonValue::Number(temperature));
        push_member(&mut fields, "keep_alive", text_value("10m"));
        let ghost base = fields@;
        if want_json {
            push_member(&mut fields, "format", text_value("json"));
        }
        proof {
            reveal_strlit("model");
            reveal_strlit("prompt");
            reveal_strlit("system");
            reveal_strlit("raw");
            reveal_strlit("stream");
            reveal_strlit("temperature");
            reveal_strlit("keep_alive");
            reveal_strlit("format");
            let f = fields@;
            assert(f.len() >= 7);
            assert("prompt"@[0] != "format"@[0]);
            assert("system"@[0] != "format"@[0]);
            assert("stream"@[0] != "format"@[0]);
            assert forall|i: int| 0 <= i < 7 implies (#[trigger] f[i]).0@ != "format"@ by {
                assert(f[i] == base[i]);
            }
            if want_json {
                assert(f[7].0@ == "format"@);
                lemma_member_at(f, 7, "format"@);
            } else {
                assert(f == base);
                lemma_member_absent(f, "format"@);
            }
        }
        JsonValue::Object(fields)
    }

    /// Reads the answer to a generation request: a failed status or a body
    /// that is not JSON fails the request, a body of the wrong shape is a
    /// parse error.
    pub fn finish_generate(status: u16, body: &str) -> (r: Result<GenerateResponse, WebApiClientError>)
        ensures
            !is_success(status) ==> (r matches Err(WebApiClientError::PostFailed(m))
                && m@ == status_failure_text(status, body@)),
            is_success(status) && !json_accepts(body@) ==> (r matches Err(WebApiClientError::PostFailed(m))
                && m@ == "Failed to parse JSON response: "@ + json_error(body@)),
            r is Ok ==> is_success(status) && json_accepts(body@),
            is_success(status) && json_accepts(body@) ==> (r is Ok <==> generate_answer(json_of(body@))),
            is_success(status) && json_accepts(body@) && !generate_answer(json_of(body@))
                ==> r matches Err(WebApiClientError::ParseError(_)),
            r matches Ok(g) ==> generate_decoded(members_of(json_of(body@)), g),
    {
        match WebApiClient::read_response(status, body) {
            Ok(v) => GenerateResponse::from_json(&v),
            Err(e) => Err(e),
        }
    }
}

impl EmbeddingRequest {
    /// The request as a JSON object with members `model` and `prompt`.
    pub fn to_json(&self) -> (r: JsonValue)
        ensures
            r matches JsonValue::Object(fields) && fields@.len() == 2
                && text_at(fields@, 0, "model"@, self.model@) && text_at(fields@, 1, "prompt"@, self.prompt@),
    {
        let mut fields: Vec<(String, JsonValue)> = Vec::new();
        push_member(&mut fields, "model", text_value(self.model.as_str()));
        push_member(&mut fields, "prompt", text_value(self.prompt.as_str()));
        proof {
            assert(fields@[0] == fields@.drop_last()[0]);
        }
        JsonValue::Object(fields)
    }
}

} // verus!
