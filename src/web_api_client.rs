use vstd::prelude::*;
use crate::json::{json_accepts, json_error, json_of, parse_json, JsonValue};
use reqwest::header::{HeaderMap, HeaderName, HeaderValue};
use reqwest::redirect::Policy;
use std::time::Duration;

verus! {

/// The ways in which building a transport or making a request can fail.
#[derive(Debug, Clone, PartialEq, Eq)]
pub enum WebApiClientError {
    HeaderCreationError(String),
    ClientCreationError(String),
    PostFailed(String),
    InvalidApiKey(String),
    InvalidInput(String),
    ParseError(String),
}

/// The text of an error: a phrase for its kind, then its message.
pub open spec fn error_text(e: WebApiClientError) -> Seq<char> {
    match e {
        WebApiClientError::HeaderCreationError(m) => "Header creation error: "@ + m@,
        WebApiClientError::ClientCreationError(m) => "Client creation error: "@ + m@,
        WebApiClientError::PostFailed(m) => "POST request failed: "@ + m@,
        WebApiClientError::InvalidApiKey(m) => "Invalid API key: "@ + m@,
        WebApiClientError::InvalidInput(m) => "Invalid input: "@ + m@,
        WebApiClientError::ParseError(m) => "Parse error: "@ + m@,
    }
}

impl WebApiClientError {
    /// The error as text for people.
    pub fn message(&self) -> (r: String)
        ensures
            r@ == error_text(*self),
    {
        let (prefix, m) = match self {
            WebApiClientError::HeaderCreationError(m) => ("Header creation error: ", m),
            WebApiClientError::ClientCreationError(m) => ("Client creation error: ", m),
            WebApiClientError::PostFailed(m) => ("POST request failed: ", m),
            WebApiClientError::InvalidApiKey(m) => ("Invalid API key: ", m),
            WebApiClientError::InvalidInput(m) => ("Invalid input: ", m),
            WebApiClientError::ParseError(m) => ("Parse error: ", m),
        };
        let mut r = String::from_str(prefix);
        r.append(m.as_str());
        r
    }
}

/// The characters that an HTTP header name may hold.
pub open spec fn is_token_char(c: char) -> bool {
    ||| ('a' <= c && c <= 'z')
    ||| ('A' <= c && c <= 'Z')
    ||| ('0' <= c && c <= '9')
    ||| c == '!' || c == '#' || c == '$' || c == '%' || c == '&' || c == '\''
    ||| c == '*' || c == '+' || c == '-' || c == '.' || c == '^' || c == '_'
    ||| c == '`' || c == '|' || c == '~'
}

/// Whether `s` is a well-formed HTTP header name.
pub open spec fn valid_header_name(s: Seq<char>) -> bool {
    &&& 0 < s.len() <= 65535
    &&& forall|i: int| 0 <= i < s.len() ==> is_token_char(#[trigger] s[i])
}

/// Whether `dst` is `src` with its ASCII capitals made small.
pub open spec fn lowered(src: Seq<char>, dst: Seq<char>) -> bool {
    &&& dst.len() == src.len()
    &&& forall|i: int| 0 <= i < src.len() ==> if 'A' <= #[trigger] src[i] && src[i] <= 'Z' {
        'a' <= dst[i] && dst[i] <= 'z' && (dst[i] as u32) == (src[i] as u32) + 32
    } else {
        dst[i] == src[i]
    }
}

/// Whether `s` holds no ASCII capital.
pub open spec fn no_capitals(s: Seq<char>) -> bool {
    forall|i: int| 0 <= i < s.len() ==> !('A' <= #[trigger] s[i] && s[i] <= 'Z')
}

/// Whether `s` is a well-formed HTTP header value: no control character but
/// the tab.
pub open spec fn valid_header_value(s: Seq<char>) -> bool {
    forall|i: int| 0 <= i < s.len() ==> (#[trigger] s[i] == '\t' || (' ' <= s[i] && s[i] != '\x7f'))
}

/// The headers that a list of (name, value) pairs sets, a later pair
/// replacing an earlier one of the same name.
pub open spec fn header_map(hs: Seq<(String, String)>) -> Map<Seq<char>, Seq<char>>
    decreases hs.len(),
{
    if hs.len() == 0 {
        Map::empty()
    } else {
        header_map(hs.drop_last()).insert(hs.last().0@, hs.last().1@)
    }
}

/// Whether every pair of `hs` is a header that can be sent.
pub open spec fn sendable(hs: Seq<(String, String)>) -> bool {
    forall|i: int| 0 <= i < hs.len() ==> {
        &&& valid_header_name(#[trigger] hs[i].0@)
        &&& no_capitals(hs[i].0@)
        &&& valid_header_value(hs[i].1@)
    }
}

/// Pairs after position `i` that carry other names do not change the header
/// of name `name`.
pub proof fn lemma_header_map_prefix(hs: Seq<(String, String)>, i: int, name: Seq<char>)
    requires
        0 <= i <= hs.len(),
        forall|j: int| i <= j < hs.len() ==> (#[trigger] hs[j]).0@ != name,
    ensures
        header_map(hs).contains_key(name) == header_map(hs.subrange(0, i)).contains_key(name),
        header_map(hs).contains_key(name) ==> header_map(hs)[name] == header_map(hs.subrange(0, i))[name],
    decreases hs.len(),
{
    if hs.len() == i {
        assert(hs.subrange(0, i) =~= hs);
    } else {
        let rest = hs.drop_last();
        assert(hs.last() == hs[hs.len() - 1]);
        assert forall|j: int| i <= j < rest.len() implies (#[trigger] rest[j]).0@ != name by {
            assert(rest[j] == hs[j]);
        }
        lemma_header_map_prefix(rest, i, name);
        assert(rest.subrange(0, i) =~= hs.subrange(0, i));
    }
}

/// The ten decimal digits.
pub open spec fn digits() -> Seq<char> {
    seq!['0', '1', '2', '3', '4', '5', '6', '7', '8', '9']
}

/// The decimal text of `n`, without leading zeros.
pub open spec fn decimal(n: nat) -> Seq<char>
    decreases n,
{
    if n < 10 {
        seq![digits()[n as int]]
    } else {
        decimal(n / 10).push(digits()[(n % 10) as int])
    }
}

fn digit_text(d: u64) -> (r: &'static str)
    requires
        d < 10,
    ensures
        r@ == seq![digits()[d as int]],
{
    proof {
        reveal_strlit("0");
        reveal_strlit("1");
        reveal_strlit("2");
        reveal_strlit("3");
        reveal_strlit("4");
        reveal_strlit("5");
        reveal_strlit("6");
        reveal_strlit("7");
        reveal_strlit("8");
        reveal_strlit("9");
    }
    match d {
        0 => "0",
        1 => "1",
        2 => "2",
        3 => "3",
        4 => "4",
        5 => "5",
        6 => "6",
        7 => "7",
        8 => "8",
        _ => "9",
    }
}

fn append_decimal(s: &mut String, n: u64)
    ensures
        final(s)@ == old(s)@ + decimal(n as nat),
    decreases n,
{
    if n >= 10 {
        append_decimal(s, n / 10);
    }
    s.append(digit_text(n % 10));
    assert(decimal(n as nat) == (if n < 10 {
        seq![digits()[n as int]]
    } else {
        decimal((n / 10) as nat).push(digits()[(n % 10) as int])
    }));
}

/// The message of a response whose status is not a success.
pub open spec fn status_failure_text(status: u16, body: Seq<char>) -> Seq<char> {
    "Server returned error status "@ + decimal(status as nat) + ": "@ + body
}

/// The message of a response with a failed status holds the status in
/// decimal, right after its fixed opening words, and ends with the body as
/// it was received.
pub proof fn lemma_status_failure_names_status_and_body(status: u16, body: Seq<char>)
    ensures
        ({
            let t = status_failure_text(status, body);
            let start = "Server returned error status "@.len() as int;
            &&& t.subrange(start, start + decimal(status as nat).len()) == decimal(status as nat)
            &&& t.subrange(t.len() - body.len(), t.len() as int) == body
        }),
{
    let t = status_failure_text(status, body);
    let start = "Server returned error status "@.len() as int;
    assert(t.subrange(start, start + decimal(status as nat).len()) =~= decimal(status as nat));
    assert(t.subrange(t.len() - body.len(), t.len() as int) =~= body);
}

/// Whether `status` is a success (2xx).
pub open spec fn is_success(status: u16) -> bool {
    200 <= status < 300
}

#[verifier::external_type_specification]
#[verifier::external_body]
pub struct ExClient(reqwest::Client);

/// Relies on http's HeaderName::try_from(&str): a name is accepted exactly
/// when it is non-empty, at most 65535 bytes and made of token characters,
/// and its text is then the name with ASCII capitals made small.
#[verifier::external_body]
fn canonical_header_name(key: &str) -> (r: Result<String, String>)
    ensures
        r is Ok <==> valid_header_name(key@),
        r matches Ok(n) ==> lowered(key@, n@),
{
    reqwest::header::HeaderName::try_from(key).map(|n| n.as_str().to_string()).map_err(|e| e.to_string())
}

/// Relies on http's HeaderValue::from_str: a value is accepted exactly when
/// each byte is a tab or at least 32 and not 127.
#[verifier::external_body]
fn check_header_value(value: &str) -> (r: Result<(), String>)
    ensures
        r is Ok <==> valid_header_value(value@),
{
    reqwest::header::HeaderValue::from_str(value).map(|_| ()).map_err(|e| e.to_string())
}

/// The most header entries that a transport holds, far below what an http
/// HeaderMap can take before it panics.
pub const MAX_HEADER_ENTRIES: usize = 1024;

/// An HTTP client, with the settings that it was built from.
#[derive(Debug)]
pub struct HttpClient {
    inner: reqwest::Client,
    agent: String,
    headers: Vec<(String, String)>,
    connection_timeout: Option<u64>,
    deadline_timeout: Option<u64>,
    follows_redirects: bool,
}

impl HttpClient {
    /// The user agent that the client sends.
    pub closed spec fn agent(&self) -> Seq<char> {
        self.agent@
    }

    /// The headers that the client sends with every request.
    pub closed spec fn headers(&self) -> Map<Seq<char>, Seq<char>> {
        header_map(self.headers@)
    }

    /// The bound on connecting, in seconds.
    pub closed spec fn connection_timeout(&self) -> Option<u64> {
        self.connection_timeout
    }

    /// The bound on a whole request, in seconds.
    pub closed spec fn deadline_timeout(&self) -> Option<u64> {
        self.deadline_timeout
    }

    /// Whether the client follows redirects.
    pub closed spec fn follows_redirects(&self) -> bool {
        self.follows_redirects
    }

    /// The reqwest client itself.
    pub closed spec fn inner(&self) -> reqwest::Client {
        self.inner
    }
}

/// Relies on reqwest's ClientBuilder (user_agent, default_headers,
/// redirect with Policy::none, connect_timeout, timeout, build) and on
/// http's HeaderName::from_bytes, HeaderValue::from_str and HeaderMap::insert,
/// so that a later pair replaces an earlier one. Without a TLS backend (none
/// is enabled here) build fails only on the error that user_agent records
/// for an invalid value, which `requires` rules out; the header conversions
/// cannot fail on sendable pairs, and at most MAX_HEADER_ENTRIES of them stay
/// far below HeaderMap's size cap.
#[verifier::external_body]
fn build_http_client(agent: &str, headers: &Vec<(String, String)>, connection_timeout: Option<u64>, deadline_timeout: Option<u64>) -> (r: Result<HttpClient, String>)
    requires
        valid_header_value(agent@),
        sendable(headers@),
        headers@.len() <= MAX_HEADER_ENTRIES,
    ensures
        r is Ok,
        r matches Ok(c) ==> built_from(c, agent@, header_map(headers@), connection_timeout, deadline_timeout),
{
    let mut map = HeaderMap::new();
    for (k, v) in headers {
        map.insert(HeaderName::from_bytes(k.as_bytes()).expect("sendable"), HeaderValue::from_str(v).expect("sendable"));
    }
    let mut b = reqwest::Client::builder().user_agent(agent).default_headers(map).redirect(Policy::none());
    if let Some(t) = connection_timeout { b = b.connect_timeout(Duration::from_secs(t)); }
    if let Some(t) = deadline_timeout { b = b.timeout(Duration::from_secs(t)); }
    let inner = b.build().map_err(|e| e.to_string())?;
    Ok(HttpClient { inner, agent: agent.to_string(), headers: headers.clone(), connection_timeout, deadline_timeout, follows_redirects: false })
}

/// Whether `c` was built from `agent`, `headers` and the timeouts, and
/// follows no redirect.
pub open spec fn built_from(c: HttpClient, agent: Seq<char>, headers: Map<Seq<char>, Seq<char>>, connection_timeout: Option<u64>, deadline_timeout: Option<u64>) -> bool {
    &&& c.agent() == agent
    &&& c.headers() == headers
    &&& c.connection_timeout() == connection_timeout
    &&& c.deadline_timeout() == deadline_timeout
    &&& !c.follows_redirects()
}

/// Builds an HTTP client that sends `headers` and `agent` with every request,
/// follows no redirect and bounds connecting and the whole request by the
/// given seconds, where given. It fails exactly where `agent` cannot stand
/// in a header.
fn build_client(
    agent: &str,
    headers: &Vec<(String, String)>,
    connection_timeout: Option<u64>,
    deadline_timeout: Option<u64>,
) -> (r: Result<HttpClient, String>)
    requires
        sendable(headers@),
        headers@.len() <= MAX_HEADER_ENTRIES,
    ensures
        r is Ok <==> valid_header_value(agent@),
        r matches Ok(c) ==> built_from(c, agent@, header_map(headers@), connection_timeout, deadline_timeout),
{
    if let Err(e) = check_header_value(agent) {
        let mut m = String::from_str("Invalid user agent: ");
        m.append(e.as_str());
        return Err(m);
    }
    build_http_client(agent, headers, connection_timeout, deadline_timeout)
}

/// An HTTP transport: the headers sent with every request, the user agent,
/// the timeouts, and a client built from them.
#[derive(Debug)]
pub struct WebApiClient {
    headers: Vec<(String, String)>,
    user_agent: String,
    connection_timeout: Option<u64>,
    deadline_timeout: Option<u64>,
    client: HttpClient,
}

impl WebApiClient {
    /// The headers sent with every request, by lower-case name.
    pub closed spec fn headers(&self) -> Map<Seq<char>, Seq<char>> {
        header_map(self.headers@)
    }

    /// The user agent sent with every request.
    pub closed spec fn user_agent(&self) -> Seq<char> {
        self.user_agent@
    }

    /// The bound on connecting, in seconds.
    pub closed spec fn connection_timeout(&self) -> Option<u64> {
        self.connection_timeout
    }

    /// The bound on a whole request, in seconds.
    pub closed spec fn deadline_timeout(&self) -> Option<u64> {
        self.deadline_timeout
    }

    /// The client that requests go through.
    pub closed spec fn current_client(&self) -> HttpClient {
        self.client
    }

    /// Every header held can be sent.
    pub closed spec fn wf(&self) -> bool {
        &&& sendable(self.headers@)
        &&& self.headers@.len() <= MAX_HEADER_ENTRIES
        &&& valid_header_value(self.user_agent@)
        &&& self.client_is_current()
    }

    /// The number of header entries held; a later entry of a name replaces
    /// an earlier one but is counted too.
    pub closed spec fn entry_count(&self) -> nat {
        self.headers@.len()
    }

    /// Whether the client was built from the current headers, user agent and
    /// timeouts, and follows no redirect.
    pub open spec fn client_is_current(&self) -> bool {
        built_from(self.current_client(), self.user_agent(), self.headers(), self.connection_timeout(), self.deadline_timeout())
    }

    /// A transport that sends `Content-Type: application/json` and the user
    /// agent `agent`. Fails exactly where the agent cannot stand in a header.
    pub fn new(agent: &str, connection_timeout: Option<u64>, deadline_timeout: Option<u64>) -> (r: Result<WebApiClient, WebApiClientError>)
        ensures
            r matches Ok(c) ==> {
                &&& c.wf()
                &&& c.headers() == map![content_type_name() => json_media_type()]
                &&& c.user_agent() == agent@
                &&& c.connection_timeout() == connection_timeout
                &&& c.deadline_timeout() == deadline_timeout
                &&& c.client_is_current()
                &&& c.entry_count() == 1
            },
            r is Ok <==> valid_header_value(agent@),
            r is Err ==> r matches Err(WebApiClientError::ClientCreationError(_)),
    {
        let mut headers: Vec<(String, String)> = Vec::new();
        headers.push((String::from_str("content-type"), String::from_str("application/json")));
        proof {
            reveal_strlit("content-type");
            reveal_strlit("application/json");
            assert(headers@.drop_last() =~= Seq::<(String, String)>::empty());
            assert(header_map(headers@.drop_last()) == Map::<Seq<char>, Seq<char>>::empty());
            assert(header_map(headers@) =~= map![content_type_name() => json_media_type()]);
            assert(sendable(headers@)) by {
                assert(is_token_char('-'));
            }
        }
        match build_client(agent, &headers, connection_timeout, deadline_timeout) {
            Ok(client) => Ok(WebApiClient {
                headers,
                user_agent: String::from_str(agent),
                connection_timeout,
                deadline_timeout,
                client,
            }),
            Err(e) => {
                let mut m = String::from_str("Failed to create HTTP client: ");
                m.append(e.as_str());
                Err(WebApiClientError::ClientCreationError(m))
            },
        }
    }

    /// The client that requests go through.
    pub fn client(&self) -> (r: &reqwest::Client)
        ensures
            *r == self.current_client().inner(),
    {
        &self.client.inner
    }

    /// The value of header `name`, named as held: in lower case.
    pub fn header(&self, name: &str) -> (r: Option<String>)
        ensures
            r is Some <==> self.headers().contains_key(name@),
            r matches Some(v) ==> v@ == self.headers()[name@],
    {
        let wanted = String::from_str(name);
        let mut i: usize = self.headers.len();
        while i > 0
            invariant
                wanted@ == name@,
                0 <= i <= self.headers@.len(),
                forall|j: int| i <= j < self.headers@.len() ==> (#[trigger] self.headers@[j]).0@ != name@,
            decreases i,
        {
            if self.headers[i - 1].0 == wanted {
                proof {
                    let hs = self.headers@;
                    lemma_header_map_prefix(hs, i as int, name@);
                    let pre = hs.subrange(0, i as int);
                    assert(pre.drop_last() =~= hs.subrange(0, i - 1));
                    assert(pre.last() == hs[i - 1]);
                }
                return Some(self.headers[i - 1].1.clone());
            }
            i = i - 1;
        }
        proof {
            lemma_header_map_prefix(self.headers@, 0, name@);
            assert(self.headers@.subrange(0, 0) =~= Seq::<(String, String)>::empty());
        }
        None
    }

    /// Sets header `key` to `value` for every later request, replacing a
    /// header of that name, and rebuilds the client. On failure nothing
    /// changes, the client included.
    pub fn add_header(&mut self, key: &str, value: String) -> (r: Result<(), WebApiClientError>)
        requires
            old(self).wf(),
        ensures
            final(self).wf(),
            final(self).user_agent() == old(self).user_agent(),
            final(self).connection_timeout() == old(self).connection_timeout(),
            final(self).deadline_timeout() == old(self).deadline_timeout(),
            final(self).client_is_current(),
            !valid_header_name(key@) ==> r matches Err(WebApiClientError::HeaderCreationError(_)),
            valid_header_name(key@) && !valid_header_value(value@)
                ==> r matches Err(WebApiClientError::HeaderCreationError(_)),
            old(self).entry_count() >= MAX_HEADER_ENTRIES ==> r matches Err(WebApiClientError::HeaderCreationError(_)),
            r is Ok <==> valid_header_name(key@) && valid_header_value(value@) && old(self).entry_count() < MAX_HEADER_ENTRIES,
            r is Ok ==> final(self).entry_count() == old(self).entry_count() + 1,
            r is Err ==> r matches Err(WebApiClientError::HeaderCreationError(_))
                || r matches Err(WebApiClientError::ClientCreationError(_)),
            r is Err ==> final(self).headers() == old(self).headers()
                && final(self).current_client() == old(self).current_client(),
            r is Ok ==> valid_header_name(key@) && valid_header_value(value@)
                && exists|n: Seq<char>| lowered(key@, n) && final(self).headers() == old(self).headers().insert(n, value@),
    {
        let name = match canonical_header_name(key) {
            Ok(n) => n,
            Err(e) => {
                let mut m = String::from_str("Invalid header name `");
                m.append(key);
                m.append("`: ");
                m.append(e.as_str());
                return Err(WebApiClientError::HeaderCreationError(m));
            },
        };
        if let Err(e) = check_header_value(value.as_str()) {
            let mut m = String::from_str("Invalid header value for `");
            m.append(key);
            m.append("`: ");
            m.append(e.as_str());
            return Err(WebApiClientError::HeaderCreationError(m));
        }
        if self.headers.len() >= MAX_HEADER_ENTRIES {
            return Err(WebApiClientError::HeaderCreationError(String::from_str("Too many headers")));
        }
        let ghost n = name@;
        proof {
            assert(no_capitals(n)) by {
                assert forall|i: int| 0 <= i < n.len() implies !('A' <= #[trigger] n[i] && n[i] <= 'Z') by {
                    assert(is_token_char(key@[i]));
                }
            }
            assert(valid_header_name(n)) by {
                assert forall|i: int| 0 <= i < n.len() implies is_token_char(#[trigger] n[i]) by {
                    assert(is_token_char(key@[i]));
                    if 'A' <= key@[i] && key@[i] <= 'Z' {
                        assert('a' <= n[i] && n[i] <= 'z');
                    }
                }
            }
        }
        let ghost before = self.headers@;
        self.headers.push((name, value));
        proof {
            assert(self.headers@.drop_last() =~= before);
            assert(sendable(self.headers@)) by {
                assert forall|i: int| 0 <= i < self.headers@.len() implies {
                    &&& valid_header_name(#[trigger] self.headers@[i].0@)
                    &&& no_capitals(self.headers@[i].0@)
                    &&& valid_header_value(self.headers@[i].1@)
                } by {
                    if i < before.len() {
                        assert(self.headers@[i] == before[i]);
                    }
                }
            }
        }
        match build_client(self.user_agent.as_str(), &self.headers, self.connection_timeout, self.deadline_timeout) {
            Ok(client) => {
                self.client = client;
                Ok(())
            },
            Err(e) => {
                self.headers.pop();
                proof {
                    assert(self.headers@ =~= before);
                }
                let mut m = String::from_str("Failed to create HTTP client: ");
                m.append(e.as_str());
                Err(WebApiClientError::ClientCreationError(m))
            },
        }
    }

    /// Reads the answer to a request: a status that is not a success fails
    /// with the status and the body; otherwise the body must be JSON.
    pub fn read_response(status: u16, body: &str) -> (r: Result<JsonValue, WebApiClientError>)
        ensures
            !is_success(status) ==> (r matches Err(WebApiClientError::PostFailed(m))
                && m@ == status_failure_text(status, body@)),
            is_success(status) ==> (r is Ok <==> json_accepts(body@)),
            is_success(status) && json_accepts(body@) ==> r == Ok::<JsonValue, WebApiClientError>(json_of(body@)),
            is_success(status) && !json_accepts(body@) ==> (r matches Err(WebApiClientError::PostFailed(m))
                && m@ == "Failed to parse JSON response: "@ + json_error(body@)),
    {
        if !(200 <= status && status < 300) {
            let mut m = String::from_str("Server returned error status ");
            append_decimal(&mut m, status as u64);
            m.append(": ");
            m.append(body);
            return Err(WebApiClientError::PostFailed(m));
        }
        match parse_json(body) {
            Ok(doc) => Ok(doc),
            Err(e) => {
                let mut m = String::from_str("Failed to parse JSON response: ");
                m.append(e.as_str());
                Err(WebApiClientError::PostFailed(m))
            },
        }
    }
}

#[verifier::external_type_specification]
#[verifier::external_body]
pub struct ExUrl(url::Url);

/// Relies on url's Url::parse: the text is accepted as an absolute URL or
/// refused, and which depends on the text alone.
pub uninterp spec fn url_accepts(text: Seq<char>) -> bool;

/// Relies on url's Url::parse: the URL that a text parses to depends on the
/// text alone.
pub uninterp spec fn url_parsed(text: Seq<char>) -> url::Url;

/// Relies on url's Url::join: the URL that a path resolves to against a base,
/// if any, depends on the two alone.
pub uninterp spec fn url_joined(base: url::Url, path: Seq<char>) -> Option<url::Url>;

/// Relies on url's Url::parse; the error becomes its message.
#[verifier::external_body]
pub(crate) fn parse_url(text: &str) -> (r: Result<url::Url, String>)
    ensures
        r is Ok <==> url_accepts(text@),
        r matches Ok(u) ==> u == url_parsed(text@),
{
    url::Url::parse(text).map_err(|e| e.to_string())
}

/// Relies on url's Url::join to resolve `path` against `base`; the error
/// becomes its message.
#[verifier::external_body]
pub(crate) fn join_url(base: &url::Url, path: &str) -> (r: Result<url::Url, String>)
    ensures
        r is Ok <==> url_joined(*base, path@) is Some,
        r matches Ok(u) ==> u == url_joined(*base, path@).unwrap(),
{
    base.join(path)
        .map_err(|e| e.to_string())
}

/// Resolves `path` against `base`; a failure is an invalid input.
pub(crate) fn endpoint_url(base: &url::Url, path: &str) -> (r: Result<url::Url, WebApiClientError>)
    ensures
        r is Ok <==> url_joined(*base, path@) is Some,
        r matches Ok(u) ==> u == url_joined(*base, path@).unwrap(),
        r is Err ==> r matches Err(WebApiClientError::InvalidInput(_)),
{
    match join_url(base, path) {
        Ok(u) => Ok(u),
        Err(e) => {
            let mut m = String::from_str("Invalid URL: ");
            m.append(e.as_str());
            Err(WebApiClientError::InvalidInput(m))
        },
    }
}

/// The value of the `Authorization` header for a bearer token.
pub open spec fn bearer(token: Seq<char>) -> Seq<char> {
    "Bearer "@ + token
}

/// The name under which the authorization header is held.
pub open spec fn authorization_name() -> Seq<char> {
    "authorization"@
}

impl WebApiClient {
    /// A transport as `new` makes it, that also sends `token` as a bearer
    /// token. A token that cannot stand in a header is an invalid API key.
    pub fn with_bearer(agent: &str, connection_timeout: Option<u64>, deadline_timeout: Option<u64>, token: &str) -> (r: Result<WebApiClient, WebApiClientError>)
        ensures
            r matches Ok(c) ==> {
                &&& c.wf()
                &&& valid_header_value(bearer(token@))
                &&& c.headers() == map![content_type_name() => json_media_type(), authorization_name() => bearer(token@)]
                &&& c.client_is_current()
                &&& c.user_agent() == agent@
                &&& c.connection_timeout() == connection_timeout
                &&& c.deadline_timeout() == deadline_timeout
            },
            r is Ok <==> valid_header_value(agent@) && valid_header_value(bearer(token@)),
            !valid_header_value(agent@) ==> r matches Err(WebApiClientError::ClientCreationError(_)),
            valid_header_value(agent@) && !valid_header_value(bearer(token@))
                ==> r matches Err(WebApiClientError::InvalidApiKey(_)),
    {
        let mut client = match WebApiClient::new(agent, connection_timeout, deadline_timeout) {
            Ok(c) => c,
            Err(e) => return Err(e),
        };
        let mut value = String::from_str("Bearer ");
        value.append(token);
        proof {
            reveal_strlit("authorization");
            reveal_strlit("content-type");
            assert(valid_header_name("authorization"@)) by {
                assert forall|i: int| 0 <= i < "authorization"@.len() implies is_token_char(#[trigger] "authorization"@[i]) by {}
            }
        }
        match client.add_header("authorization", value) {
            Ok(()) => {
                proof {
                    let n = choose|n: Seq<char>| lowered("authorization"@, n) && client.headers() == map![content_type_name() => json_media_type()].insert(n, bearer(token@));
                    assert(n =~= "authorization"@);
                    assert(client.headers() =~= map![content_type_name() => json_media_type(), authorization_name() => bearer(token@)]);
                }
                Ok(client)
            },
            Err(WebApiClientError::HeaderCreationError(m)) => {
                let mut msg = String::from_str("Failed to add header to WebApiClient: ");
                msg.append(m.as_str());
                Err(WebApiClientError::InvalidApiKey(msg))
            },
            Err(e) => Err(e),
        }
    }
}

/// The name under which the content type is held.
pub open spec fn content_type_name() -> Seq<char> {
    "content-type"@
}

/// The media type of JSON.
pub open spec fn json_media_type() -> Seq<char> {
    "application/json"@
}

} // verus!
