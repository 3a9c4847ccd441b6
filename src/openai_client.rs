use vstd::prelude::*;
use crate::json::{
    find_member, get_signed, get_text, items_of, json_accepts, json_error, json_of, member, members_of, push_member,
    signed_member, text_at, text_member, text_value, JsonValue,
};
use crate::settings::ServerConfig;
use crate::web_api_client::{
    authorization_name, bearer, content_type_name, endpoint_url, is_success,
    json_media_type, parse_url, status_failure_text, url_accepts, url_joined, url_parsed, valid_header_value,
    WebApiClient, WebApiClientError,
};

verus! {

/// The ways in which the chat adapter can fail.
#[derive(Debug, Clone, PartialEq, Eq)]
pub enum OpenAiClientError {
    InvalidApiKey(String),
    InvalidInput(String),
    CompletionFailed(String),
}

/// The text of an error: a phrase for its kind, then its message.
pub open spec fn openai_error_text(e: OpenAiClientError) -> Seq<char> {
    match e {
        OpenAiClientError::InvalidApiKey(m) => "Invalid API Key: "@ + m@,
        OpenAiClientError::InvalidInput(m) => "Invalid Input: "@ + m@,
        OpenAiClientError::CompletionFailed(m) => "Completion Failed: "@ + m@,
    }
}

impl OpenAiClientError {
    /// The error as text for people.
    pub fn message(&self) -> (r: String)
        ensures
            r@ == openai_error_text(*self),
    {
        let (prefix, m) = match self {
            OpenAiClientError::InvalidApiKey(m) => ("Invalid API Key: ", m),
            OpenAiClientError::InvalidInput(m) => ("Invalid Input: ", m),
            OpenAiClientError::CompletionFailed(m) => ("Completion Failed: ", m),
        };
        let mut r = String::from_str(prefix);
        r.append(m.as_str());
        r
    }
}

/// A completion asked for by model, prompts and output format.
#[derive(Debug, Clone)]
pub struct NewChatCompletion {
    pub model: String,
    pub system: Option<String>,
    pub prompt: String,
    pub format: Option<String>,
}

impl Default for NewChatCompletion {
    /// No model, no prompts, no format.
    fn default() -> (r: NewChatCompletion)
        ensures
            r.model@.len() == 0,
            r.system is None,
            r.prompt@.len() == 0,
            r.format is None,
    {
        NewChatCompletion { model: String::new(), system: None, prompt: String::new(), format: None }
    }
}

/// One message of a chat: who speaks, and what.
#[derive(Debug, Clone)]
pub struct ChatMessage {
    pub role: String,
    pub content: String,
}

/// A chat-completion request: the model and the messages so far.
#[derive(Debug, Clone)]
pub struct ChatCompletionRequest {
    pub model: String,
    pub messages: Vec<ChatMessage>,
}

/// One choice of a chat-completion answer.
#[derive(Debug, Clone)]
pub struct ChatCompletionChoice {
    pub index: i64,
    pub message: ChatMessage,
}

/// A chat-completion answer: its choices, in the order given.
#[derive(Debug, Clone)]
pub struct ChatCompletionResponse {
    pub choices: Vec<ChatCompletionChoice>,
}

/// The role that the answering model speaks in.
pub open spec fn assistant_role() -> Seq<char> {
    "assistant"@
}

/// Whether `i` is the first choice of `choices` spoken by the assistant.
pub open spec fn first_assistant(choices: Seq<ChatCompletionChoice>, i: int) -> bool {
    &&& 0 <= i < choices.len()
    &&& choices[i].message.role@ == assistant_role()
    &&& forall|j: int| 0 <= j < i ==> (#[trigger] choices[j]).message.role@ != assistant_role()
}

/// Whether some choice of `choices` is spoken by the assistant.
pub open spec fn has_assistant(choices: Seq<ChatCompletionChoice>) -> bool {
    exists|i: int| 0 <= i < choices.len() && (#[trigger] choices[i]).message.role@ == assistant_role()
}

/// The members of the message of a choice, where it has an object there.
pub open spec fn message_members(v: JsonValue) -> Option<Seq<(String, JsonValue)>> {
    match v {
        JsonValue::Object(f) => match member(f@, "message"@) {
            Some(JsonValue::Object(m)) => Some(m@),
            _ => None,
        },
        _ => None,
    }
}

/// Whether `v` has the shape of a choice: an integer `index` and a
/// `message` with text `role` and `content`.
pub open spec fn choice_shape(v: JsonValue) -> bool {
    &&& v matches JsonValue::Object(f) && signed_member(f@, "index"@) is Some
    &&& message_members(v) is Some
    &&& text_member(message_members(v).unwrap(), "role"@) is Some
    &&& text_member(message_members(v).unwrap(), "content"@) is Some
}

/// Whether `c` holds what the choice `v` says.
pub open spec fn choice_decoded(v: JsonValue, c: ChatCompletionChoice) -> bool {
    &&& v matches JsonValue::Object(f) && signed_member(f@, "index"@) == Some(c.index)
    &&& c.message.role@ == text_member(message_members(v).unwrap(), "role"@).unwrap()
    &&& c.message.content@ == text_member(message_members(v).unwrap(), "content"@).unwrap()
}

/// The items of member `choices` of `v`, where it is an array.
pub open spec fn choice_items(v: JsonValue) -> Option<Seq<JsonValue>> {
    match v {
        JsonValue::Object(f) => match member(f@, "choices"@) {
            Some(JsonValue::Array(items)) => Some(items@),
            _ => None,
        },
        _ => None,
    }
}

/// Whether `v` has the shape of a chat-completion answer.
pub open spec fn completion_shape(v: JsonValue) -> bool {
    &&& choice_items(v) is Some
    &&& forall|i: int| 0 <= i < choice_items(v).unwrap().len() ==> choice_shape(#[trigger] choice_items(v).unwrap()[i])
}

fn decode_choice(v: &JsonValue) -> (r: Option<ChatCompletionChoice>)
    ensures
        r is Some <==> choice_shape(*v),
        r matches Some(c) ==> choice_decoded(*v, c),
{
    let fields = match v {
        JsonValue::Object(f) => f,
        _ => return None,
    };
    let index = match get_signed(fields, "index") {
        Some(n) => n,
        None => return None,
    };
    let m = match find_member(fields, "message") {
        Some(i) => match &fields[i].1 {
            JsonValue::Object(m) => m,
            _ => return None,
        },
        None => return None,
    };
    let role = match get_text(m, "role") {
        Some(t) => t,
        None => return None,
    };
    let content = match get_text(m, "content") {
        Some(t) => t,
        None => return None,
    };
    Some(ChatCompletionChoice { index, message: ChatMessage { role, content } })
}

fn shape_error() -> (r: OpenAiClientError)
    ensures
        r matches OpenAiClientError::CompletionFailed(_),
{
    OpenAiClientError::CompletionFailed(String::from_str("Failed to parse chat_completion response"))
}

impl ChatCompletionResponse {
    /// Reads a chat-completion answer from JSON: an object whose `choices`
    /// is an array of choices. Any other shape fails the completion.
    pub fn from_json(v: &JsonValue) -> (r: Result<ChatCompletionResponse, OpenAiClientError>)
        ensures
            r is Ok <==> completion_shape(*v),
            r matches Ok(c) ==> c.choices@.len() == choice_items(*v).unwrap().len()
                && forall|i: int| 0 <= i < c.choices@.len() ==> choice_decoded(choice_items(*v).unwrap()[i], #[trigger] c.choices@[i]),
            r is Err ==> r matches Err(OpenAiClientError::CompletionFailed(_)),
    {
        let fields = match v {
            JsonValue::Object(f) => f,
            _ => return Err(shape_error()),
        };
        let items = match find_member(fields, "choices") {
            Some(i) => match &fields[i].1 {
                JsonValue::Array(items) => items,
                _ => return Err(shape_error()),
            },
            None => return Err(shape_error()),
        };
        let ghost all = choice_items(*v).unwrap();
        assert(all == items@);
        let mut choices: Vec<ChatCompletionChoice> = Vec::new();
        let mut i: usize = 0;
        while i < items.len()
            invariant
                all == items@,
                choice_items(*v) == Some(all),
                0 <= i <= items@.len(),
                choices@.len() == i,
                forall|k: int| 0 <= k < i ==> choice_shape(#[trigger] items@[k]),
                forall|k: int| 0 <= k < i ==> choice_decoded(items@[k], #[trigger] choices@[k]),
            decreases items@.len() - i,
        {
            match decode_choice(&items[i]) {
                Some(c) => choices.push(c),
                None => {
                    assert(!choice_shape(choice_items(*v).unwrap()[i as int]));
                    return Err(shape_error());
                },
            }
            i = i + 1;
        }
        Ok(ChatCompletionResponse { choices })
    }

    /// The content of the first choice spoken by the assistant; where there
    /// is none the completion fails.
    pub fn assistant_content(&self) -> (r: Result<String, OpenAiClientError>)
        ensures
            r is Ok <==> has_assistant(self.choices@),
            r matches Ok(t) ==> exists|i: int| first_assistant(self.choices@, i) && t@ == self.choices@[i].message.content@,
            r matches Err(e) ==> (e matches OpenAiClientError::CompletionFailed(m) && m@ == "No assistant response found"@),
    {
        let wanted = String::from_str("assistant");
        proof {
            reveal_strlit("assistant");
        }
        let mut i: usize = 0;
        while i < self.choices.len()
            invariant
                wanted@ == assistant_role(),
                0 <= i <= self.choices@.len(),
                forall|j: int| 0 <= j < i ==> (#[trigger] self.choices@[j]).message.role@ != assistant_role(),
            decreases self.choices@.len() - i,
        {
            if self.choices[i].message.role == wanted {
                assert(first_assistant(self.choices@, i as int));
                return Ok(self.choices[i].message.content.clone());
            }
            i = i + 1;
        }
        Err(OpenAiClientError::CompletionFailed(String::from_str("No assistant response found")))
    }
}

/// Whether `fields` is the body of a chat-completion request: the model,
/// then a system message with `system_prompt` and a user message with
/// `prompt`.
pub open spec fn chat_body(fields: Seq<(String, JsonValue)>, model: Seq<char>, system_prompt: Seq<char>, prompt: Seq<char>) -> bool {
    &&& fields.len() == 2
    &&& text_at(fields, 0, "model"@, model)
    &&& fields[1].0@ == "messages"@
    &&& fields[1].1 is Array
    &&& items_of(fields[1].1).len() == 2
    &&& message_json(items_of(fields[1].1)[0], "system"@, system_prompt)
    &&& message_json(items_of(fields[1].1)[1], "user"@, prompt)
}

/// Whether `v` is the JSON of a message with `role` and `content`.
pub open spec fn message_json(v: JsonValue, role: Seq<char>, content: Seq<char>) -> bool {
    &&& v is Object
    &&& members_of(v).len() == 2
    &&& text_at(members_of(v), 0, "role"@, role)
    &&& text_at(members_of(v), 1, "content"@, content)
}

impl ChatMessage {
    /// The message as a JSON object with members `role` and `content`.
    pub fn to_json(&self) -> (r: JsonValue)
        ensures
            message_json(r, self.role@, self.content@),
    {
        let mut fields: Vec<(String, JsonValue)> = Vec::new();
        push_member(&mut fields, "role", text_value(self.role.as_str()));
        push_member(&mut fields, "content", text_value(self.content.as_str()));
        proof {
            assert(fields@[0] == fields@.drop_last()[0]);
        }
        JsonValue::Object(fields)
    }
}

impl ChatCompletionRequest {
    /// A request to `model` with a system message, then a user message.
    pub fn new(model: &str, system_prompt: &str, prompt: &str) -> (r: ChatCompletionRequest)
        ensures
            r.model@ == model@,
            r.messages@.len() == 2,
            r.messages@[0].role@ == "system"@ && r.messages@[0].content@ == system_prompt@,
            r.messages@[1].role@ == "user"@ && r.messages@[1].content@ == prompt@,
    {
        let mut messages: Vec<ChatMessage> = Vec::new();
        messages.push(ChatMessage { role: String::from_str("system"), content: String::from_str(system_prompt) });
        messages.push(ChatMessage { role: String::from_str("user"), content: String::from_str(prompt) });
        ChatCompletionRequest { model: String::from_str(model), messages }
    }

    /// The request as a JSON object with members `model` and `messages`.
    pub fn to_json(&self) -> (r: JsonValue)
        ensures
            r is Object,
            members_of(r).len() == 2,
            text_at(members_of(r), 0, "model"@, self.model@),
            members_of(r)[1].0@ == "messages"@,
            members_of(r)[1].1 is Array,
            items_of(members_of(r)[1].1).len() == self.messages@.len(),
            forall|i: int| 0 <= i < self.messages@.len()
                ==> message_json(#[trigger] items_of(members_of(r)[1].1)[i], self.messages@[i].role@, self.messages@[i].content@),
    {
        let mut ms: Vec<JsonValue> = Vec::new();
        let mut i: usize = 0;
        while i < self.messages.len()
            invariant
                0 <= i <= self.messages@.len(),
                ms@.len() == i,
                forall|k: int| 0 <= k < i ==> message_json(#[trigger] ms@[k], self.messages@[k].role@, self.messages@[k].content@),
            decreases self.messages@.len() - i,
        {
            ms.push(self.messages[i].to_json());
            i = i + 1;
        }
        let mut fields: Vec<(String, JsonValue)> = Vec::new();
        push_member(&mut fields, "model", text_value(self.model.as_str()));
        push_member(&mut fields, "messages", JsonValue::Array(ms));
        proof {
            assert(fields@[0] == fields@.drop_last()[0]);
        }
        JsonValue::Object(fields)
    }
}

/// The token of an optional credential, empty where there is none.
pub open spec fn token_of(api_key: Option<&String>) -> Seq<char> {
    match api_key {
        Some(k) => k@,
        None => Seq::empty(),
    }
}

/// An OpenAI-compatible chat endpoint behind one server identity.
#[derive(Debug)]
pub struct OpenAiClient {
    auth_api_client: WebApiClient,
    base_url: url::Url,
}

impl OpenAiClient {
    /// The transport that requests go through.
    pub closed spec fn transport(&self) -> WebApiClient {
        self.auth_api_client
    }

    /// The base URL that request paths are resolved against.
    pub closed spec fn base(&self) -> url::Url {
        self.base_url
    }

    /// An adapter for `setting`. A credential is required: where it is absent
    /// or empty the key is invalid, before the URL is looked at. The base URL
    /// must parse, else the input is invalid; the token is sent as a bearer
    /// token and must fit in a header, else the key is invalid.
    pub fn new(setting: &ServerConfig, api_key: Option<&String>, agent: &str) -> (r: Result<OpenAiClient, OpenAiClientError>)
        ensures
            token_of(api_key).len() == 0 ==> (r matches Err(OpenAiClientError::InvalidApiKey(m))
                && m@ == "API key cannot be empty"@),
            r matches Err(OpenAiClientError::InvalidInput(_)) <==> token_of(api_key).len() > 0
                && valid_header_value(agent@) && valid_header_value(bearer(token_of(api_key))) && !url_accepts(setting.base_api_url@),
            !valid_header_value(bearer(token_of(api_key))) ==> r matches Err(OpenAiClientError::InvalidApiKey(_)),
            !valid_header_value(agent@) ==> r matches Err(OpenAiClientError::InvalidApiKey(_)),
            r is Ok <==> token_of(api_key).len() > 0 && url_accepts(setting.base_api_url@)
                && valid_header_value(agent@) && valid_header_value(bearer(token_of(api_key))),
            r is Ok || r matches Err(OpenAiClientError::InvalidInput(_)) || r matches Err(OpenAiClientError::InvalidApiKey(_)),
            r matches Ok(c) ==> {
                &&& token_of(api_key).len() > 0
                &&& url_accepts(setting.base_api_url@)
                &&& c.transport().wf()
                &&& c.transport().headers() == map![
                    content_type_name() => json_media_type(),
                    authorization_name() => bearer(token_of(api_key))
                ]
                &&& c.transport().user_agent() == agent@
                &&& c.transport().connection_timeout() == setting.connection_timeout
                &&& c.transport().deadline_timeout() == setting.deadline_timeout
                &&& c.transport().client_is_current()
                &&& c.base() == url_parsed(setting.base_api_url@)
            },
    {
        let token = match api_key {
            Some(k) => k,
            None => {
                return Err(OpenAiClientError::InvalidApiKey(String::from_str("API key cannot be empty")));
            },
        };
        if token.unicode_len() == 0 {
            return Err(OpenAiClientError::InvalidApiKey(String::from_str("API key cannot be empty")));
        }
        let auth_api_client = match WebApiClient::with_bearer(agent, setting.connection_timeout, setting.deadline_timeout, token.as_str()) {
            Ok(c) => c,
            Err(e) => {
                let mut m = String::from_str("Failed to add header to WebApiClient: ");
                m.append(e.message().as_str());
                return Err(OpenAiClientError::InvalidApiKey(m));
            },
        };
        let base_url = match parse_url(setting.base_api_url.as_str()) {
            Ok(u) => u,
            Err(e) => {
                let mut m = String::from_str("Failed to parse base API URL (");
                m.append(setting.base_api_url.as_str());
                m.append("): ");
                m.append(e.as_str());
                return Err(OpenAiClientError::InvalidInput(m));
            },
        };
        Ok(OpenAiClient { auth_api_client, base_url })
    }

    /// The transport that requests go through.
    pub fn web_client(&self) -> (r: &WebApiClient)
        ensures
            *r == self.transport(),
    {
        &self.auth_api_client
    }

    /// Where chat-completion requests go: `/v1/chat/completions` on the server.
    pub fn chat_completion_url(&self) -> (r: Result<url::Url, OpenAiClientError>)
        ensures
            r is Ok <==> url_joined(self.base(), "/v1/chat/completions"@) is Some,
            r matches Ok(u) ==> u == url_joined(self.base(), "/v1/chat/completions"@).unwrap(),
            r is Err ==> r matches Err(OpenAiClientError::InvalidInput(_)),
    {
        match endpoint_url(&self.base_url, "/v1/chat/completions") {
            Ok(u) => Ok(u),
            Err(e) => Err(OpenAiClientError::InvalidInput(e.message())),
        }
    }

    /// The body of a chat-completion request. The JSON-output flag is
    /// accepted for symmetry with the local adapter and has no effect on the
    /// body: this backend is not asked for structured output.
    pub fn chat_completion_payload(model: &str, system_prompt: &str, prompt: &str, want_json: bool) -> (r: JsonValue)
        ensures
            r is Object,
            chat_body(members_of(r), model@, system_prompt@, prompt@),
    {
        let request = ChatCompletionRequest::new(model, system_prompt, prompt);
        request.to_json()
    }

    /// Reads the answer to a chat-completion request and returns the content
    /// of the first choice spoken by the assistant. A failed request, a body
    /// of the wrong shape, and an answer without such a choice all fail the
    /// completion.
    pub fn finish_chat_completion(status: u16, body: &str) -> (r: Result<String, OpenAiClientError>)
        ensures
            !is_success(status) ==> (r matches Err(OpenAiClientError::CompletionFailed(m))
                && m@ == "POST request failed: "@ + ("POST request failed: "@ + status_failure_text(status, body@))),
            is_success(status) && !json_accepts(body@) ==> (r matches Err(OpenAiClientError::CompletionFailed(m))
                && m@ == unparsable_text() + json_error(body@)),
            is_success(status) && json_accepts(body@) ==> (r is Ok <==> (completion_shape(json_of(body@))
                && items_have_assistant(choice_items(json_of(body@)).unwrap()))),
            is_success(status) && json_accepts(body@) && completion_shape(json_of(body@))
                && !items_have_assistant(choice_items(json_of(body@)).unwrap())
                ==> (r matches Err(OpenAiClientError::CompletionFailed(m)) && m@ == "No assistant response found"@),
            r matches Ok(t) ==> is_success(status) && json_accepts(body@) && exists|i: int|
                first_assistant_item(choice_items(json_of(body@)).unwrap(), i)
                && t@ == choice_content(choice_items(json_of(body@)).unwrap()[i]),
            r is Err ==> r matches Err(OpenAiClientError::CompletionFailed(_)),
    {
        let v = match WebApiClient::read_response(status, body) {
            Ok(v) => v,
            Err(e) => {
                let mut m = String::from_str("POST request failed: ");
                let inner = e.message();
                m.append(inner.as_str());
                proof {
                    assert(unparsable_text() + json_error(body@) =~= "POST request failed: "@
                        + ("POST request failed: "@ + ("Failed to parse JSON response: "@ + json_error(body@))));
                }
                return Err(OpenAiClientError::CompletionFailed(m));
            },
        };
        let parsed = match ChatCompletionResponse::from_json(&v) {
            Ok(p) => p,
            Err(e) => return Err(e),
        };
        let ghost items = choice_items(v).unwrap();
        proof {
            assert forall|i: int| 0 <= i < items.len() implies (#[trigger] parsed.choices@[i]).message.role@ == choice_role(items[i])
                && parsed.choices@[i].message.content@ == choice_content(items[i]) by {
                assert(choice_decoded(items[i], parsed.choices@[i]));
            }
            if has_assistant(parsed.choices@) {
                let i = choose|i: int| 0 <= i < parsed.choices@.len() && (#[trigger] parsed.choices@[i]).message.role@ == assistant_role();
                assert(choice_role(items[i]) == assistant_role());
            }
            if items_have_assistant(items) {
                let i = choose|i: int| 0 <= i < items.len() && choice_role(#[trigger] items[i]) == assistant_role();
                assert(parsed.choices@[i].message.role@ == assistant_role());
            }
        }
        let r = parsed.assistant_content();
        proof {
            if r is Ok {
                let i = choose|i: int| first_assistant(parsed.choices@, i) && r.unwrap()@ == parsed.choices@[i].message.content@;
                assert forall|j: int| 0 <= j < i implies choice_role(#[trigger] items[j]) != assistant_role() by {
                    assert(parsed.choices@[j].message.role@ != assistant_role());
                }
                assert(first_assistant_item(items, i));
            }
        }
        r
    }
}

/// The start of the message of a completion whose answer is not JSON; the
/// parser's error follows.
pub open spec fn unparsable_text() -> Seq<char> {
    "POST request failed: "@ + "POST request failed: "@ + "Failed to parse JSON response: "@
}

/// The role of a choice that has the shape of one.
pub open spec fn choice_role(v: JsonValue) -> Seq<char> {
    text_member(message_members(v).unwrap(), "role"@).unwrap()
}

/// The content of a choice that has the shape of one.
pub open spec fn choice_content(v: JsonValue) -> Seq<char> {
    text_member(message_members(v).unwrap(), "content"@).unwrap()
}

/// Whether some choice of `items` is spoken by the assistant.
pub open spec fn items_have_assistant(items: Seq<JsonValue>) -> bool {
    exists|i: int| 0 <= i < items.len() && choice_role(#[trigger] items[i]) == assistant_role()
}

/// Whether `i` is the first choice of `items` spoken by the assistant.
pub open spec fn first_assistant_item(items: Seq<JsonValue>, i: int) -> bool {
    &&& 0 <= i < items.len()
    &&& choice_role(items[i]) == assistant_role()
    &&& forall|j: int| 0 <= j < i ==> choice_role(#[trigger] items[j]) != assistant_role()
}

} // verus!
