use vstd::prelude::*;

verus! {

/// A named credential handed to a backend adapter.
#[derive(Debug, Clone)]
pub struct Secret {
    pub name: String,
    pub value: String,
}

/// One entry of the secrets file.
#[derive(Debug, Clone)]
pub struct SecretConfig {
    pub name: String,
    pub value: String,
}

/// What a lookup of a secret reports when no entry has the name.
#[derive(Debug, Clone, PartialEq, Eq)]
pub enum SecretError {
    /// No entry carries the name; the message names it.
    NotFound(String),
}

/// The credentials known to the gateway, in the order of the secrets file.
#[derive(Debug, Clone)]
pub struct Secrets {
    entries: Vec<SecretConfig>,
}

/// Whether `i` is the first position in `entries` whose name is `name`.
pub open spec fn first_secret_named(entries: Seq<SecretConfig>, name: Seq<char>, i: int) -> bool {
    &&& 0 <= i < entries.len()
    &&& entries[i].name@ == name
    &&& forall|j: int| 0 <= j < i ==> (#[trigger] entries[j]).name@ != name
}

impl SecretConfig {
    /// The entry as a secret.
    pub fn get_public(&self) -> (r: Secret)
        ensures
            r.name@ == self.name@,
            r.value@ == self.value@,
    {
        Secret { name: self.name.clone(), value: self.value.clone() }
    }
}

impl Secrets {
    /// The entries, in order.
    pub closed spec fn entries(&self) -> Seq<SecretConfig> {
        self.entries@
    }

    /// Holds the given entries, in order.
    pub fn new(entries: Vec<SecretConfig>) -> (r: Secrets)
        ensures
            r.entries() == entries@,
    {
        Secrets { entries }
    }

    /// The first secret whose name is `name`.
    pub fn get_by_name(&self, name: &str) -> (r: Result<Secret, SecretError>)
        ensures
            r is Ok <==> exists|i: int| 0 <= i < self.entries().len() && (#[trigger] self.entries()[i]).name@ == name@,
            r matches Ok(s) ==> exists|i: int|
                first_secret_named(self.entries(), name@, i)
                && s.name@ == self.entries()[i].name@
                && s.value@ == self.entries()[i].value@,
            r matches Err(SecretError::NotFound(m)) ==> m@ == "Secret "@ + name@ + " not found"@,
    {
        let key = String::from_str(name);
        let mut i: usize = 0;
        while i < self.entries.len()
            invariant
                key@ == name@,
                0 <= i <= self.entries@.len(),
                forall|j: int| 0 <= j < i ==> (#[trigger] self.entries@[j]).name@ != name@,
            decreases self.entries@.len() - i,
        {
            let entry = &self.entries[i];
            if entry.name == key {
                assert(self.entries() == self.entries@);
                assert(first_secret_named(self.entries(), name@, i as int));
                return Ok(entry.get_public());
            }
            i = i + 1;
        }
        let mut m = String::from_str("Secret ");
        m.append(name);
        m.append(" not found");
        Err(SecretError::NotFound(m))
    }
}

} // verus!
