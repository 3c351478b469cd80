//! A person record and its flat field map, as held in a Redis hash.
use std::collections::HashMap;

use vstd::prelude::*;
use vstd::string::*;

use crate::decimal::{decimal, lemma_parse_decimal, parse_u32, parse_u32_spec, push_decimal};

verus! {

/// A person as stored under one hash key: a `name` field and an `age` field.
#[derive(Debug)]
pub struct Person {
    pub name: String,
    pub age: u32,
}

impl View for Person {
    type V = (Seq<char>, u32);

    open spec fn view(&self) -> (Seq<char>, u32) {
        (self.name@, self.age)
    }
}

/// Why a field map does not hold a person.
#[derive(Debug, Clone, Copy, PartialEq, Eq, Structural)]
pub enum PersonError {
    MissingName,
    MissingAge,
    InvalidAge,
}

/// The person that a `name` and an `age` field give, if any; the name is
/// checked first, then the age.
pub open spec fn person_spec(name: Option<Seq<char>>, age: Option<Seq<char>>) -> Result<
    (Seq<char>, u32),
    PersonError,
> {
    match name {
        None => Err(PersonError::MissingName),
        Some(n) => match age {
            None => Err(PersonError::MissingAge),
            Some(a) => match parse_u32_spec(a) {
                None => Err(PersonError::InvalidAge),
                Some(x) => Ok((n, x)),
            },
        },
    }
}

/// The value under `key` in `m`, if any.
pub open spec fn field_spec(m: Map<Seq<char>, Seq<char>>, key: Seq<char>) -> Option<Seq<char>> {
    if m.contains_key(key) {
        Some(m[key])
    } else {
        None
    }
}

/// The person that a field map gives, if any; keys other than `name` and
/// `age` play no part.
pub open spec fn person_of_fields(m: Map<Seq<char>, Seq<char>>) -> Result<
    (Seq<char>, u32),
    PersonError,
> {
    person_spec(field_spec(m, "name"@), field_spec(m, "age"@))
}

/// The view of a conversion's result.
pub open spec fn result_view(r: Result<Person, PersonError>) -> Result<
    (Seq<char>, u32),
    PersonError,
> {
    match r {
        Ok(p) => Ok(p@),
        Err(e) => Err(e),
    }
}

/// The view of an optional text.
pub open spec fn opt_str_view(s: Option<&str>) -> Option<Seq<char>> {
    match s {
        Some(t) => Some(t@),
        None => None,
    }
}

/// What a field map holds: the text of each key mapped to the text of its
/// value. Keys are compared by their text, so each text is a key at most once.
pub uninterp spec fn fields_of(h: HashMap<String, String>) -> Map<Seq<char>, Seq<char>>;

/// Relies on HashMap::get: the value stored under the key whose text is
/// `key`, or nothing when no such key is stored. (vstd's own contract for it
/// holds only for key types with a proven hash model, which `String` lacks.)
#[verifier::external_body]
fn lookup<'a>(h: &'a HashMap<String, String>, key: &str) -> (r: Option<&'a String>)
    ensures
        match r {
            Some(v) => fields_of(*h).contains_key(key@) && v@ == fields_of(*h)[key@],
            None => !fields_of(*h).contains_key(key@),
        },
{
    h.get(key)
}

/// Relies on redis's `From<(ErrorKind, &'static str)>` for `RedisError`: an
/// error of kind `TypeError` that carries `description`.
#[verifier::external_body]
fn type_error(description: &'static str) -> redis::RedisError {
    redis::RedisError::from((redis::ErrorKind::TypeError, description))
}

impl PersonError {
    /// The description of this error, naming the field at fault.
    pub fn message(&self) -> (r: &'static str)
        ensures
            *self == PersonError::MissingName ==> r@ == "Campo 'name' ausente"@,
            *self == PersonError::MissingAge ==> r@ == "Campo 'age' ausente"@,
            *self == PersonError::InvalidAge ==> r@ == "Falha ao parsear 'age' como u32"@,
    {
        match self {
            PersonError::MissingName => "Campo 'name' ausente",
            PersonError::MissingAge => "Campo 'age' ausente",
            PersonError::InvalidAge => "Falha ao parsear 'age' como u32",
        }
    }

    /// The same error as the Redis client's own error type, of kind
    /// `TypeError`.
    pub fn to_redis_error(&self) -> redis::RedisError {
        type_error(self.message())
    }
}

impl Person {
    /// The person that the values of a `name` and an `age` field give: the
    /// age must read as a `u32`.
    pub fn from_fields(name: Option<&str>, age: Option<&str>) -> (r: Result<Person, PersonError>)
        ensures
            result_view(r) == person_spec(opt_str_view(name), opt_str_view(age)),
    {
        let name = match name {
            Some(n) => n,
            None => {
                return Err(PersonError::MissingName);
            },
        };
        let age = match age {
            Some(a) => a,
            None => {
                return Err(PersonError::MissingAge);
            },
        };
        match parse_u32(age) {
            Some(age) => Ok(Person { name: String::from_str(name), age }),
            None => Err(PersonError::InvalidAge),
        }
    }

    /// The person that a field map holds.
    pub fn from_map(hash: &HashMap<String, String>) -> (r: Result<Person, PersonError>)
        ensures
            result_view(r) == person_of_fields(fields_of(*hash)),
    {
        let name = match lookup(hash, "name") {
            Some(n) => Some(n.as_str()),
            None => None,
        };
        let age = match lookup(hash, "age") {
            Some(a) => Some(a.as_str()),
            None => None,
        };
        Person::from_fields(name, age)
    }

    /// The fields that hold this person: `name`, then `age` in decimal.
    pub fn to_fields(&self) -> (r: Vec<(String, String)>)
        ensures
            r@.len() == 2,
            r@[0].0@ == "name"@,
            r@[0].1@ == self.name@,
            r@[1].0@ == "age"@,
            r@[1].1@ == decimal(self.age as nat),
    {
        let mut age = String::new();
        push_decimal(&mut age, self.age as u64);
        assert(age@ =~= decimal(self.age as nat));
        let mut r: Vec<(String, String)> = Vec::new();
        r.push((String::from_str("name"), self.name.clone()));
        r.push((String::from_str("age"), age));
        r
    }
}

/// Fields written from a person read back as that same person, whatever
/// other keys the map holds.
pub proof fn lemma_fields_round_trip(m: Map<Seq<char>, Seq<char>>, p: (Seq<char>, u32))
    requires
        field_spec(m, "name"@) == Some(p.0),
        field_spec(m, "age"@) == Some(decimal(p.1 as nat)),
    ensures
        person_of_fields(m) == Ok::<(Seq<char>, u32), PersonError>(p),
{
    lemma_parse_decimal(p.1);
}

/// `try_from` states its result in its own `ensures`; the error it builds
/// from a [`PersonError`] is the client's, opaque here.
impl vstd::std_specs::convert::TryFromSpecImpl<HashMap<String, String>> for Person {
    open spec fn obeys_try_from_spec() -> bool {
        false
    }

    open spec fn try_from_spec(hash: HashMap<String, String>) -> Result<Person, redis::RedisError> {
        arbitrary()
    }
}

impl TryFrom<HashMap<String, String>> for Person {
    type Error = redis::RedisError;

    fn try_from(hash: HashMap<String, String>) -> (r: Result<Person, redis::RedisError>)
        ensures
            match r {
                Ok(p) => person_of_fields(fields_of(hash)) == Ok::<(Seq<char>, u32), PersonError>(
                    p@,
                ),
                Err(_) => person_of_fields(fields_of(hash)) is Err,
            },
    {
        match Person::from_map(&hash) {
            Ok(p) => Ok(p),
            Err(e) => Err(e.to_redis_error()),
        }
    }
}

} // verus!
