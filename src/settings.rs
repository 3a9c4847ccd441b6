use vstd::prelude::*;

verus! {

/// The HTTP method named by an endpoint entry.
#[derive(Debug, Clone, Copy, PartialEq, Eq, Structural)]
pub enum Method {
    Get,
    Post,
    Put,
    Delete,
}

/// Whether character `c` is `w`, or the ASCII capital of the lower-case letter `w`.
pub open spec fn same_letter(c: char, w: char) -> bool {
    c == w || ('A' <= c && c <= 'Z' && (c as u32) + 32 == (w as u32))
}

/// Whether `name` spells the lower-case ASCII `word` in any mix of cases.
pub open spec fn eq_ignore_ascii_case(name: Seq<char>, word: Seq<char>) -> bool {
    name.len() == word.len() && forall|i: int| 0 <= i < name.len() ==> same_letter(#[trigger] name[i], word[i])
}

/// The method that a name denotes, compared without regard to ASCII case.
pub open spec fn method_named(name: Seq<char>) -> Option<Method> {
    if eq_ignore_ascii_case(name, seq!['g', 'e', 't']) {
        Some(Method::Get)
    } else if eq_ignore_ascii_case(name, seq!['p', 'o', 's', 't']) {
        Some(Method::Post)
    } else if eq_ignore_ascii_case(name, seq!['p', 'u', 't']) {
        Some(Method::Put)
    } else if eq_ignore_ascii_case(name, seq!['d', 'e', 'l', 'e', 't', 'e']) {
        Some(Method::Delete)
    } else {
        None
    }
}

/// Compares `name` against a lower-case ASCII word without regard to case.
fn matches_word(name: &str, word: &str) -> (r: bool)
    ensures
        r == eq_ignore_ascii_case(name@, word@),
{
    let n = name.unicode_len();
    if n != word.unicode_len() {
        return false;
    }
    let mut i: usize = 0;
    while i < n
        invariant
            n == name@.len(),
            n == word@.len(),
            0 <= i <= n,
            forall|j: int| 0 <= j < i ==> same_letter(#[trigger] name@[j], word@[j]),
        decreases n - i,
    {
        let c = name.get_char(i);
        let w = word.get_char(i);
        if !(c == w || ('A' <= c && c <= 'Z' && (c as u32) + 32 == (w as u32))) {
            return false;
        }
        i = i + 1;
    }
    true
}

impl Method {
    /// Reads an HTTP method name, ignoring ASCII case. Any other text is not
    /// a method, and the answer for it is `None`: a caller decides what an
    /// unknown method means.
    pub fn from_name(name: &str) -> (r: Option<Method>)
        ensures
            r == method_named(name@),
    {
        proof {
            reveal_strlit("get");
            reveal_strlit("post");
            reveal_strlit("put");
            reveal_strlit("delete");
            assert("get"@ =~= seq!['g', 'e', 't']);
            assert("post"@ =~= seq!['p', 'o', 's', 't']);
            assert("put"@ =~= seq!['p', 'u', 't']);
            assert("delete"@ =~= seq!['d', 'e', 'l', 'e', 't', 'e']);
        }
        if matches_word(name, "get") {
            Some(Method::Get)
        } else if matches_word(name, "post") {
            Some(Method::Post)
        } else if matches_word(name, "put") {
            Some(Method::Put)
        } else if matches_word(name, "delete") {
            Some(Method::Delete)
        } else {
            None
        }
    }
}

/// What a lookup by name or path reports when nothing matches.
#[derive(Debug, Clone, PartialEq, Eq)]
pub enum LookupError {
    /// No entry carries the key; the message names it.
    NotFound(String),
}

/// The public part of an endpoint: the server it uses and its prompts.
#[derive(Debug, Clone)]
pub struct Endpoint {
    pub server: String,
    pub template: String,
    pub system_prompt: String,
    pub user_prompt: String,
}

/// One endpoint entry of the configuration, reached by its `path`.
#[derive(Debug, Clone)]
pub struct EndpointConfig {
    pub path: String,
    pub template: String,
    pub server: String,
    pub system_prompt: String,
    pub user_prompt: String,
}

/// The identity of one backend server.
#[derive(Debug, Clone)]
pub struct ServerConfig {
    pub name: String,
    pub model: String,
    pub api_type: String,
    pub base_api_url: String,
    pub secret: Option<String>,
    pub connection_timeout: Option<u64>,
    pub deadline_timeout: Option<u64>,
}

/// All configured servers and endpoints.
#[derive(Debug, Clone)]
pub struct Settings {
    pub servers: Vec<ServerConfig>,
    pub endpoints: Vec<EndpointConfig>,
}

/// Whether `e` carries the public fields of `c`.
pub open spec fn is_public_of(e: Endpoint, c: EndpointConfig) -> bool {
    &&& e.server@ == c.server@
    &&& e.template@ == c.template@
    &&& e.system_prompt@ == c.system_prompt@
    &&& e.user_prompt@ == c.user_prompt@
}

/// Whether `i` is the first position in `eps` whose path is `path`.
pub open spec fn first_with_path(eps: Seq<EndpointConfig>, path: Seq<char>, i: int) -> bool {
    &&& 0 <= i < eps.len()
    &&& eps[i].path@ == path
    &&& forall|j: int| 0 <= j < i ==> (#[trigger] eps[j]).path@ != path
}

/// Whether `i` is the first position in `servers` whose name is `name`.
pub open spec fn first_with_name(servers: Seq<ServerConfig>, name: Seq<char>, i: int) -> bool {
    &&& 0 <= i < servers.len()
    &&& servers[i].name@ == name
    &&& forall|j: int| 0 <= j < i ==> (#[trigger] servers[j]).name@ != name
}

/// Whether two server entries hold the same values.
pub open spec fn same_server(a: ServerConfig, b: ServerConfig) -> bool {
    &&& a.name@ == b.name@
    &&& a.model@ == b.model@
    &&& a.api_type@ == b.api_type@
    &&& a.base_api_url@ == b.base_api_url@
    &&& a.secret.is_some() == b.secret.is_some()
    &&& (a.secret.is_some() ==> a.secret.unwrap()@ == b.secret.unwrap()@)
    &&& a.connection_timeout == b.connection_timeout
    &&& a.deadline_timeout == b.deadline_timeout
}

/// `prefix`, then `key`, then `suffix`.
pub open spec fn framed(prefix: Seq<char>, key: Seq<char>, suffix: Seq<char>) -> Seq<char> {
    prefix + key + suffix
}

fn frame(prefix: &str, key: &str, suffix: &str) -> (r: String)
    ensures
        r@ == framed(prefix@, key@, suffix@),
{
    let mut m = String::from_str(prefix);
    m.append(key);
    m.append(suffix);
    m
}

fn clone_server(s: &ServerConfig) -> (r: ServerConfig)
    ensures
        same_server(r, *s),
{
    let secret = match &s.secret {
        Some(v) => Some(v.clone()),
        None => None,
    };
    ServerConfig {
        name: s.name.clone(),
        model: s.model.clone(),
        api_type: s.api_type.clone(),
        base_api_url: s.base_api_url.clone(),
        secret,
        connection_timeout: s.connection_timeout,
        deadline_timeout: s.deadline_timeout,
    }
}

impl EndpointConfig {
    /// The endpoint without its path.
    pub fn get_public(&self) -> (r: Endpoint)
        ensures
            is_public_of(r, *self),
    {
        Endpoint {
            server: self.server.clone(),
            template: self.template.clone(),
            system_prompt: self.system_prompt.clone(),
            user_prompt: self.user_prompt.clone(),
        }
    }
}

impl Settings {
    /// The public part of the first endpoint whose path is `path`.
    pub fn get_endpoint_by_path(&self, path: &str) -> (r: Result<Endpoint, LookupError>)
        ensures
            r is Ok <==> exists|i: int| 0 <= i < self.endpoints@.len() && (#[trigger] self.endpoints@[i]).path@ == path@,
            r matches Ok(e) ==> exists|i: int| first_with_path(self.endpoints@, path@, i) && is_public_of(e, self.endpoints@[i]),
            r matches Err(LookupError::NotFound(m)) ==> m@ == framed("Endpoint "@, path@, " not found"@),
    {
        let key = String::from_str(path);
        let mut i: usize = 0;
        while i < self.endpoints.len()
            invariant
                key@ == path@,
                0 <= i <= self.endpoints@.len(),
                forall|j: int| 0 <= j < i ==> (#[trigger] self.endpoints@[j]).path@ != path@,
            decreases self.endpoints@.len() - i,
        {
            let endpoint = &self.endpoints[i];
            if endpoint.path == key {
                assert(first_with_path(self.endpoints@, path@, i as int));
                return Ok(endpoint.get_public());
            }
            i = i + 1;
        }
        Err(LookupError::NotFound(frame("Endpoint ", path, " not found")))
    }

    /// A copy of the first server entry whose name is `name`.
    pub fn get_server_config_by_name(&self, name: &str) -> (r: Result<ServerConfig, LookupError>)
        ensures
            r is Ok <==> exists|i: int| 0 <= i < self.servers@.len() && (#[trigger] self.servers@[i]).name@ == name@,
            r matches Ok(s) ==> exists|i: int| first_with_name(self.servers@, name@, i) && same_server(s, self.servers@[i]),
            r matches Err(LookupError::NotFound(m)) ==> m@ == framed("Server "@, name@, " not found"@),
    {
        let key = String::from_str(name);
        let mut i: usize = 0;
        while i < self.servers.len()
            invariant
                key@ == name@,
                0 <= i <= self.servers@.len(),
                forall|j: int| 0 <= j < i ==> (#[trigger] self.servers@[j]).name@ != name@,
            decreases self.servers@.len() - i,
        {
            let server = &self.servers[i];
            if server.name == key {
                assert(first_with_name(self.servers@, name@, i as int));
                return Ok(clone_server(server));
            }
            i = i + 1;
        }
        Err(LookupError::NotFound(frame("Server ", name, " not found")))
    }
}

} // verus!
