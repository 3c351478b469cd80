use std::collections::HashMap;

use redis::ErrorKind;
use redis_with_rust_example::decimal::{parse_u32, push_decimal};
use redis_with_rust_example::{Person, PersonError};

#[test]
fn test_person_try_from_valid() {
    let mut hash = HashMap::new();
    hash.insert("name".to_string(), "João".to_string());
    hash.insert("age".to_string(), "30".to_string());

    let person: Person = hash.try_into().unwrap();
    assert_eq!(person.name, "João");
    assert_eq!(person.age, 30);
}

#[test]
fn test_person_try_from_missing_name() {
    let mut hash = HashMap::new();
    hash.insert("age".to_string(), "30".to_string());

    let result: Result<Person, _> = hash.try_into();
    assert!(result.is_err());
}

#[test]
fn test_person_try_from_invalid_age() {
    let mut hash = HashMap::new();
    hash.insert("name".to_string(), "João".to_string());
    hash.insert("age".to_string(), "invalid".to_string());

    let result: Result<Person, _> = hash.try_into();
    assert!(result.is_err());
}

fn map_of(pairs: &[(&str, &str)]) -> HashMap<String, String> {
    let mut hash = HashMap::new();
    for (k, v) in pairs {
        hash.insert(k.to_string(), v.to_string());
    }
    hash
}

#[test]
fn try_from_missing_age_is_type_error() {
    let hash = map_of(&[("name", "João")]);
    let result: Result<Person, redis::RedisError> = hash.try_into();
    let err = result.unwrap_err();
    assert_eq!(err.kind(), ErrorKind::TypeError);
}

#[test]
fn try_from_invalid_age_is_type_error() {
    let hash = map_of(&[("name", "João"), ("age", "invalid")]);
    let result: Result<Person, redis::RedisError> = hash.try_into();
    assert_eq!(result.unwrap_err().kind(), ErrorKind::TypeError);
}

#[test]
fn from_map_reports_each_error() {
    assert_eq!(Person::from_map(&map_of(&[("age", "30")])).unwrap_err(), PersonError::MissingName);
    assert_eq!(Person::from_map(&map_of(&[("name", "João")])).unwrap_err(), PersonError::MissingAge);
    assert_eq!(
        Person::from_map(&map_of(&[("name", "João"), ("age", "invalid")])).unwrap_err(),
        PersonError::InvalidAge
    );
    assert_eq!(Person::from_map(&map_of(&[])).unwrap_err(), PersonError::MissingName);
}

#[test]
fn from_map_ignores_extra_keys() {
    let hash = map_of(&[("name", "Ana"), ("age", "41"), ("city", "Recife")]);
    let p = Person::from_map(&hash).unwrap();
    assert_eq!(p.name, "Ana");
    assert_eq!(p.age, 41);
}

#[test]
fn from_fields_exact_values() {
    let p = Person::from_fields(Some("João"), Some("30")).unwrap();
    assert_eq!(p.name, "João");
    assert_eq!(p.age, 30);
    let p = Person::from_fields(Some(""), Some("+7")).unwrap();
    assert_eq!(p.name, "");
    assert_eq!(p.age, 7);
    assert_eq!(Person::from_fields(None, None).unwrap_err(), PersonError::MissingName);
    assert_eq!(Person::from_fields(Some("x"), None).unwrap_err(), PersonError::MissingAge);
    assert_eq!(Person::from_fields(Some("x"), Some("-1")).unwrap_err(), PersonError::InvalidAge);
    assert_eq!(
        Person::from_fields(Some("x"), Some("4294967296")).unwrap_err(),
        PersonError::InvalidAge
    );
}

#[test]
fn error_messages_name_the_field() {
    assert_eq!(PersonError::MissingName.message(), "Campo 'name' ausente");
    assert_eq!(PersonError::MissingAge.message(), "Campo 'age' ausente");
    assert_eq!(PersonError::InvalidAge.message(), "Falha ao parsear 'age' como u32");
    let e = PersonError::MissingAge.to_redis_error();
    assert_eq!(e.kind(), ErrorKind::TypeError);
    assert!(e.to_string().contains("Campo 'age' ausente"));
}

#[test]
fn to_fields_then_back() {
    let person = Person { name: "Test".to_string(), age: 25 };
    let fields = person.to_fields();
    assert_eq!(
        fields,
        vec![("name".to_string(), "Test".to_string()), ("age".to_string(), "25".to_string())]
    );
    let hash: HashMap<String, String> = fields.into_iter().collect();
    let back: Person = hash.try_into().unwrap();
    assert_eq!(back.name, "Test");
    assert_eq!(back.age, 25);
}

#[test]
fn to_fields_round_trip_extremes() {
    for age in [0u32, 9, 10, 4294967295] {
        let person = Person { name: "João".to_string(), age };
        let hash: HashMap<String, String> = person.to_fields().into_iter().collect();
        let back = Person::from_map(&hash).unwrap();
        assert_eq!(back.name, "João");
        assert_eq!(back.age, age);
    }
}

#[test]
fn parse_u32_matches_std() {
    for s in [
        "", "+", "-", "0", "00", "+0", "-0", "7", "+30", "30 ", " 30", "3a", "٣", "4294967295",
        "4294967296", "0004294967295", "99999999999999999999", "João",
    ] {
        assert_eq!(parse_u32(s), s.parse::<u32>().ok(), "input {:?}", s);
    }
}

#[test]
fn push_decimal_appends() {
    let mut out = "n=".to_string();
    push_decimal(&mut out, 0);
    assert_eq!(out, "n=0");
    let mut out = String::new();
    push_decimal(&mut out, 18446744073709551615);
    assert_eq!(out, "18446744073709551615");
    let mut out = String::new();
    push_decimal(&mut out, 6380);
    assert_eq!(out, "6380");
}
