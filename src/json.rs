use vstd::prelude::*;

verus! {

/// A JSON number: its text as written, and its value where it is an integer
/// that fits the type.
#[derive(Debug, Clone)]
pub struct JsonNumber {
    pub text: String,
    pub unsigned: Option<u64>,
    pub signed: Option<i64>,
}

/// A JSON document as the adapters read and build it. An object keeps its
/// members in order.
#[derive(Debug)]
pub enum JsonValue {
    Null,
    Bool(bool),
    Number(JsonNumber),
    Text(String),
    Array(Vec<JsonValue>),
    Object(Vec<(String, JsonValue)>),
}

/// The value of the first member of `fields` named `key`.
pub open spec fn member(fields: Seq<(String, JsonValue)>, key: Seq<char>) -> Option<JsonValue>
    decreases fields.len(),
{
    if fields.len() == 0 {
        None
    } else if fields[0].0@ == key {
        Some(fields[0].1)
    } else {
        member(fields.drop_first(), key)
    }
}

/// The text of member `key`, where it is a string.
pub open spec fn text_member(fields: Seq<(String, JsonValue)>, key: Seq<char>) -> Option<Seq<char>> {
    match member(fields, key) {
        Some(JsonValue::Text(s)) => Some(s@),
        _ => None,
    }
}

/// The value of member `key`, where it is a boolean.
pub open spec fn bool_member(fields: Seq<(String, JsonValue)>, key: Seq<char>) -> Option<bool> {
    match member(fields, key) {
        Some(JsonValue::Bool(b)) => Some(b),
        _ => None,
    }
}

/// Member `key` read as an optional string: `Some(None)` where it is absent
/// or null, `Some(Some(text))` where it is a string, `None` otherwise.
pub open spec fn optional_text_member(fields: Seq<(String, JsonValue)>, key: Seq<char>) -> Option<Option<Seq<char>>> {
    match member(fields, key) {
        None => Some(None),
        Some(JsonValue::Null) => Some(None),
        Some(JsonValue::Text(s)) => Some(Some(s@)),
        _ => None,
    }
}

/// Member `key` read as an optional unsigned integer: `Some(None)` where it
/// is absent or null, `Some(Some(n))` where it is such an integer, `None`
/// otherwise.
pub open spec fn optional_u64_member(fields: Seq<(String, JsonValue)>, key: Seq<char>) -> Option<Option<u64>> {
    match member(fields, key) {
        None => Some(None),
        Some(JsonValue::Null) => Some(None),
        Some(JsonValue::Number(n)) => match n.unsigned {
            Some(u) => Some(Some(u)),
            None => None,
        },
        _ => None,
    }
}

/// The position of the first member of `fields` named `key`.
pub fn find_member(fields: &Vec<(String, JsonValue)>, key: &str) -> (r: Option<usize>)
    ensures
        r is None <==> member(fields@, key@) is None,
        r matches Some(i) ==> i < fields@.len() && member(fields@, key@) == Some(fields@[i as int].1),
{
    let wanted = String::from_str(key);
    let mut i: usize = 0;
    assert(fields@.subrange(0, fields@.len() as int) =~= fields@);
    while i < fields.len()
        invariant
            wanted@ == key@,
            0 <= i <= fields@.len(),
            member(fields@, key@) == member(fields@.subrange(i as int, fields@.len() as int), key@),
        decreases fields@.len() - i,
    {
        let rest = Ghost(fields@.subrange(i as int, fields@.len() as int));
        assert(rest@.drop_first() =~= fields@.subrange(i + 1, fields@.len() as int));
        if fields[i].0 == wanted {
            return Some(i);
        }
        i = i + 1;
    }
    assert(fields@.subrange(i as int, fields@.len() as int) =~= Seq::<(String, JsonValue)>::empty());
    None
}

/// Whether `v` is a number that is an unsigned integer.
pub open spec fn is_unsigned(v: JsonValue) -> bool {
    v matches JsonValue::Number(n) && n.unsigned is Some
}

/// The unsigned value of a number that has one.
pub open spec fn unsigned_of(v: JsonValue) -> u64 {
    match v {
        JsonValue::Number(n) => n.unsigned.unwrap(),
        _ => 0,
    }
}

/// Member `key` read as a list of unsigned integers: empty where it is
/// absent or null, the integers where it is an array of them, `None`
/// otherwise.
pub open spec fn unsigned_list_member(fields: Seq<(String, JsonValue)>, key: Seq<char>) -> Option<Seq<u64>> {
    match member(fields, key) {
        None => Some(Seq::empty()),
        Some(JsonValue::Null) => Some(Seq::empty()),
        Some(JsonValue::Array(items)) => if forall|i: int| 0 <= i < items@.len() ==> is_unsigned(#[trigger] items@[i]) {
            Some(Seq::new(items@.len(), |i: int| unsigned_of(items@[i])))
        } else {
            None
        },
        _ => None,
    }
}

/// Member `key` where it is a string.
pub fn get_text(fields: &Vec<(String, JsonValue)>, key: &str) -> (r: Option<String>)
    ensures
        r is Some <==> text_member(fields@, key@) is Some,
        r matches Some(t) ==> t@ == text_member(fields@, key@).unwrap(),
{
    match find_member(fields, key) {
        Some(i) => match &fields[i].1 {
            JsonValue::Text(t) => Some(t.clone()),
            _ => None,
        },
        None => None,
    }
}

/// Member `key` where it is a boolean.
pub fn get_bool(fields: &Vec<(String, JsonValue)>, key: &str) -> (r: Option<bool>)
    ensures
        r == bool_member(fields@, key@),
{
    match find_member(fields, key) {
        Some(i) => match &fields[i].1 {
            JsonValue::Bool(b) => Some(*b),
            _ => None,
        },
        None => None,
    }
}

/// Member `key` read as an optional string.
pub fn get_optional_text(fields: &Vec<(String, JsonValue)>, key: &str) -> (r: Option<Option<String>>)
    ensures
        r is Some <==> optional_text_member(fields@, key@) is Some,
        r matches Some(o) ==> (o is Some <==> optional_text_member(fields@, key@).unwrap() is Some),
        r matches Some(Some(t)) ==> t@ == optional_text_member(fields@, key@).unwrap().unwrap(),
{
    match find_member(fields, key) {
        Some(i) => match &fields[i].1 {
            JsonValue::Null => Some(None),
            JsonValue::Text(t) => Some(Some(t.clone())),
            _ => None,
        },
        None => Some(None),
    }
}

/// Member `key` read as an optional unsigned integer.
pub fn get_optional_u64(fields: &Vec<(String, JsonValue)>, key: &str) -> (r: Option<Option<u64>>)
    ensures
        r == optional_u64_member(fields@, key@),
{
    match find_member(fields, key) {
        Some(i) => match &fields[i].1 {
            JsonValue::Null => Some(None),
            JsonValue::Number(n) => match n.unsigned {
                Some(u) => Some(Some(u)),
                None => None,
            },
            _ => None,
        },
        None => Some(None),
    }
}

/// Member `key` read as a list of unsigned integers.
pub fn get_unsigned_list(fields: &Vec<(String, JsonValue)>, key: &str) -> (r: Option<Vec<u64>>)
    ensures
        r is Some <==> unsigned_list_member(fields@, key@) is Some,
        r matches Some(l) ==> l@ == unsigned_list_member(fields@, key@).unwrap(),
{
    match find_member(fields, key) {
        Some(i) => match &fields[i].1 {
            JsonValue::Null => Some(Vec::new()),
            JsonValue::Array(items) => {
                assert(member(fields@, key@) == Some(JsonValue::Array(*items)));
                let mut out: Vec<u64> = Vec::new();
                let mut j: usize = 0;
                while j < items.len()
                    invariant
                        member(fields@, key@) == Some(JsonValue::Array(*items)),
                        0 <= j <= items@.len(),
                        out@.len() == j,
                        forall|k: int| 0 <= k < j ==> is_unsigned(#[trigger] items@[k]) && out@[k] == unsigned_of(items@[k]),
                    decreases items@.len() - j,
                {
                    match &items[j] {
                        JsonValue::Number(n) => match n.unsigned {
                            Some(u) => out.push(u),
                            None => {
                                assert(!is_unsigned(items@[j as int]));
                                return None;
                            },
                        },
                        _ => {
                            assert(!is_unsigned(items@[j as int]));
                            return None;
                        },
                    }
                    j = j + 1;
                }
                assert(out@ =~= Seq::new(items@.len(), |k: int| unsigned_of(items@[k])));
                Some(out)
            },
            _ => None,
        },
        None => Some(Vec::new()),
    }
}

/// No member named `key` means no value for it.
pub proof fn lemma_member_absent(fields: Seq<(String, JsonValue)>, key: Seq<char>)
    requires
        forall|i: int| 0 <= i < fields.len() ==> (#[trigger] fields[i]).0@ != key,
    ensures
        member(fields, key) is None,
    decreases fields.len(),
{
    if fields.len() > 0 {
        assert(fields[0].0@ != key);
        assert forall|i: int| 0 <= i < fields.drop_first().len() implies (#[trigger] fields.drop_first()[i]).0@ != key by {
            assert(fields.drop_first()[i] == fields[i + 1]);
        }
        lemma_member_absent(fields.drop_first(), key);
    }
}

/// The first member named `key` gives its value.
pub proof fn lemma_member_at(fields: Seq<(String, JsonValue)>, i: int, key: Seq<char>)
    requires
        0 <= i < fields.len(),
        fields[i].0@ == key,
        forall|j: int| 0 <= j < i ==> (#[trigger] fields[j]).0@ != key,
    ensures
        member(fields, key) == Some(fields[i].1),
    decreases i,
{
    if i > 0 {
        assert(fields[0].0@ != key);
        assert forall|j: int| 0 <= j < i - 1 implies (#[trigger] fields.drop_first()[j]).0@ != key by {
            assert(fields.drop_first()[j] == fields[j + 1]);
        }
        lemma_member_at(fields.drop_first(), i - 1, key);
    }
}

/// Adds member `key` with `value` after the others.
pub fn push_member(fields: &mut Vec<(String, JsonValue)>, key: &str, value: JsonValue)
    ensures
        final(fields)@.len() == old(fields)@.len() + 1,
        final(fields)@.drop_last() == old(fields)@,
        final(fields)@.last().0@ == key@,
        final(fields)@.last().1 == value,
{
    let ghost before = fields@;
    fields.push((String::from_str(key), value));
    assert(fields@.drop_last() =~= before);
}

/// Member `key` where it is a signed integer.
pub open spec fn signed_member(fields: Seq<(String, JsonValue)>, key: Seq<char>) -> Option<i64> {
    match member(fields, key) {
        Some(JsonValue::Number(n)) => n.signed,
        _ => None,
    }
}

/// Member `key` where it is a signed integer.
pub fn get_signed(fields: &Vec<(String, JsonValue)>, key: &str) -> (r: Option<i64>)
    ensures
        r == signed_member(fields@, key@),
{
    match find_member(fields, key) {
        Some(i) => match &fields[i].1 {
            JsonValue::Number(n) => n.signed,
            _ => None,
        },
        None => None,
    }
}

/// Whether member `i` of `fields` is named `key` and holds the text `t`.
pub open spec fn text_at(fields: Seq<(String, JsonValue)>, i: int, key: Seq<char>, t: Seq<char>) -> bool {
    &&& fields[i].0@ == key
    &&& fields[i].1 matches JsonValue::Text(s) && s@ == t
}

/// The items of an array; empty for any other value.
pub open spec fn items_of(v: JsonValue) -> Seq<JsonValue> {
    match v {
        JsonValue::Array(a) => a@,
        _ => Seq::empty(),
    }
}

/// The members of an object; empty for any other value.
pub open spec fn members_of(v: JsonValue) -> Seq<(String, JsonValue)> {
    match v {
        JsonValue::Object(f) => f@,
        _ => Seq::empty(),
    }
}

/// A string value.
pub fn text_value(s: &str) -> (r: JsonValue)
    ensures
        r matches JsonValue::Text(t) && t@ == s@,
{
    JsonValue::Text(String::from_str(s))
}

/// Relies on serde_json::from_str: what a text parses to, the document or
/// the text of the error, depends on the text alone.
pub uninterp spec fn json_parse(text: Seq<char>) -> Result<JsonValue, Seq<char>>;

/// Whether serde_json accepts `text` as a JSON document.
pub open spec fn json_accepts(text: Seq<char>) -> bool {
    json_parse(text) is Ok
}

/// The document that an accepted text parses to.
pub open spec fn json_of(text: Seq<char>) -> JsonValue {
    match json_parse(text) {
        Ok(v) => v,
        Err(_) => JsonValue::Null,
    }
}

/// The text of serde_json's error for a refused text.
pub open spec fn json_error(text: Seq<char>) -> Seq<char> {
    match json_parse(text) {
        Ok(_) => Seq::empty(),
        Err(m) => m,
    }
}

/// Relies on serde_json::from_str to parse a JSON document, carried over by
/// `from_document`; the error becomes its message.
#[verifier::external_body]
pub(crate) fn parse_json(text: &str) -> (r: Result<JsonValue, String>)
    ensures
        r is Ok <==> json_parse(text@) is Ok,
        r matches Ok(v) ==> v == json_of(text@),
        r matches Err(m) ==> m@ == json_error(text@),
{
    serde_json::from_str::<serde_json::Value>(text).map(|v| from_document(&v)).map_err(|e| e.to_string())
}

#[verifier::external_type_specification]
#[verifier::external_body]
pub struct ExJsonDocument(serde_json::Value);

/// Relies on serde_json::Value's variants and on serde_json::Number's
/// as_u64, as_i64 and Display to carry a parsed document over, member for
/// member, in the order of serde_json's object map (sorted by key).
#[verifier::external_body]
pub(crate) fn from_document(v: &serde_json::Value) -> (r: JsonValue) {
    match v {
        serde_json::Value::Null => JsonValue::Null,
        serde_json::Value::Bool(b) => JsonValue::Bool(*b),
        serde_json::Value::Number(n) => JsonValue::Number(
            JsonNumber { text: n.to_string(), unsigned: n.as_u64(), signed: n.as_i64() },
        ),
        serde_json::Value::String(s) => JsonValue::Text(s.clone()),
        serde_json::Value::Array(a) => JsonValue::Array(a.iter().map(from_document).collect()),
        serde_json::Value::Object(m) => JsonValue::Object(
            m.iter().map(|(k, x)| (k.clone(), from_document(x))).collect(),
        ),
    }
}

} // verus!
