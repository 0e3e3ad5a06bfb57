use pydantic_core::errors::{SchemaError, UrlError};
use pydantic_core::parsed_url::MultiHostUrl;
use pydantic_core::validators::bool::BoolValidator;
use pydantic_core::validators::literal::expected_repr_name;
use pydantic_core::validators::{Exactness, ValidationState};
use pydantic_core::validators::url::{
    get_allowed_schemas, parse_multihost_url, parse_url, EitherMultiHostUrl, EitherUrl,
    MultiHostUrlValidator, UrlInput, UrlValidator,
};

fn parsing(message: &str) -> UrlError {
    UrlError::Parsing(message.to_string())
}

fn schemes(list: &[&str]) -> Option<Vec<String>> {
    Some(list.iter().map(|s| s.to_string()).collect())
}

fn plain_url_validator() -> UrlValidator {
    UrlValidator::build(false, None, None, None, None, None, None).unwrap()
}

fn url_str(r: Result<EitherUrl, UrlError>) -> (String, bool) {
    match r.unwrap() {
        EitherUrl::Py(u) => (u.as_str().to_string(), true),
        EitherUrl::Rust(u) => (u.as_str().to_string(), false),
    }
}

#[test]
fn expected_repr_name_one() {
    let (repr, name) = expected_repr_name(vec!["'http'".to_string()], "url");
    assert_eq!(repr, "'http'");
    assert_eq!(name, "url['http']");
}

#[test]
fn expected_repr_name_three() {
    let args = vec!["'a'".to_string(), "'b'".to_string(), "'c'".to_string()];
    let (repr, name) = expected_repr_name(args, "literal");
    assert_eq!(repr, "'a', 'b' or 'c'");
    assert_eq!(name, "literal['a','b','c']");
}

#[test]
fn allowed_schemas_none() {
    let (allowed, name) = get_allowed_schemas(None, "url").unwrap();
    assert!(allowed.is_none());
    assert_eq!(name, "url");
}

#[test]
fn allowed_schemas_empty_list() {
    assert_eq!(
        get_allowed_schemas(Some(vec![]), "url").unwrap_err(),
        SchemaError { message: "`allowed_schemes` should have length > 0".to_string() }
    );
}

#[test]
fn allowed_schemas_list() {
    let (allowed, name) = get_allowed_schemas(schemes(&["http", "https"]), "url").unwrap();
    let (set, repr) = allowed.unwrap();
    assert!(set.contains("http"));
    assert!(set.contains("https"));
    assert!(!set.contains("ftp"));
    assert_eq!(repr, "'http' or 'https'");
    assert_eq!(name, "url['http','https']");
}

#[test]
fn url_validator_names() {
    assert_eq!(plain_url_validator().get_name(), "url");
    let v = UrlValidator::build(false, None, schemes(&["http", "https"]), None, None, None, None)
        .unwrap();
    assert_eq!(v.get_name(), "url['http','https']");
    assert_eq!(UrlValidator::expected_type(), "url");
}

#[test]
fn url_validator_build_refuses_empty_schemes() {
    assert!(UrlValidator::build(false, None, Some(vec![]), None, None, None, None).is_err());
}

#[test]
fn url_validator_validates_string() {
    let v = plain_url_validator();
    let r = v.validate(UrlInput::Str("https://example.com".to_string()), &mut ValidationState::new(None, None));
    assert_eq!(url_str(r), ("https://example.com/".to_string(), false));
}

#[test]
fn url_validator_scheme_not_allowed() {
    let v = UrlValidator::build(false, None, schemes(&["http", "https"]), None, None, None, None)
        .unwrap();
    let r = v.validate(UrlInput::Str("ftp://example.com".to_string()), &mut ValidationState::new(None, None));
    assert_eq!(r.unwrap_err(), UrlError::Scheme("'http' or 'https'".to_string()));
    let ok = v.validate(UrlInput::Str("https://example.com".to_string()), &mut ValidationState::new(None, None));
    assert!(ok.is_ok());
}

#[test]
fn url_validator_too_long() {
    let v = UrlValidator::build(false, Some(10), None, None, None, None, None).unwrap();
    let r = v.validate(UrlInput::Str("https://example.com".to_string()), &mut ValidationState::new(None, None));
    assert_eq!(r.unwrap_err(), UrlError::TooLong(10));
    assert_eq!(v.check_length("https://a"), Ok(()));
    assert_eq!(v.check_length("https://ab"), Ok(()));
    assert_eq!(v.check_length("https://abc"), Err(UrlError::TooLong(10)));
    // the length is in bytes: "é" takes two
    assert_eq!(v.check_length("https://é"), Ok(()));
    assert_eq!(v.check_length("https://éa"), Err(UrlError::TooLong(10)));
}

#[test]
fn url_validator_other_input() {
    assert_eq!(plain_url_validator().validate(UrlInput::Other, &mut ValidationState::new(None, None)).unwrap_err(), UrlError::Type);
}

#[test]
fn url_validator_url_object_kept() {
    let v = plain_url_validator();
    let url = parse_url("https://example.com/x", false).unwrap();
    assert_eq!(url_str(v.validate(UrlInput::Url(url), &mut ValidationState::new(None, None))), ("https://example.com/x".to_string(), true));
}

#[test]
fn url_validator_url_object_written_to() {
    let v = UrlValidator::build(false, None, None, None, None, Some(8000), None).unwrap();
    let url = parse_url("https://example.com/x", false).unwrap();
    assert_eq!(
        url_str(v.validate(UrlInput::Url(url), &mut ValidationState::new(None, None))),
        ("https://example.com:8000/x".to_string(), false)
    );
}

#[test]
fn url_validator_multi_host_object_parsed_from_text() {
    let v = plain_url_validator();
    let m = parse_multihost_url("https://example.com/x", false).unwrap();
    let r = v.validate(UrlInput::MultiHostUrl(m, "https://example.com/x".to_string()), &mut ValidationState::new(None, None));
    assert_eq!(url_str(r), ("https://example.com/x".to_string(), false));
}

#[test]
fn url_validator_state_strictness_wins() {
    let lax = plain_url_validator();
    let r = lax.validate(UrlInput::Str("http://example.com\\p".to_string()), &mut ValidationState::new(Some(true), None));
    assert_eq!(r.unwrap_err(), UrlError::SyntaxViolation("backslash".to_string()));
    let strict = UrlValidator::build(true, None, None, None, None, None, None).unwrap();
    let r = strict.validate(UrlInput::Str("http://example.com\\p".to_string()), &mut ValidationState::new(Some(false), None));
    assert_eq!(url_str(r), ("http://example.com/p".to_string(), false));
    let r = strict.validate(UrlInput::Str("http://example.com\\p".to_string()), &mut ValidationState::new(None, None));
    assert_eq!(r.unwrap_err(), UrlError::SyntaxViolation("backslash".to_string()));
}

#[test]
fn url_validator_defaults_and_required_host() {
    let v = UrlValidator::build(
        false,
        None,
        None,
        Some(true),
        Some("localhost".to_string()),
        Some(6379),
        Some("/0".to_string()),
    )
    .unwrap();
    let r = v.validate(UrlInput::Str("redis://".to_string()), &mut ValidationState::new(None, None));
    assert_eq!(url_str(r), ("redis://localhost:6379/0".to_string(), false));
    let required = UrlValidator::build(false, None, None, Some(true), None, None, None).unwrap();
    let r = required.validate(UrlInput::Str("unix:/run/foo.socket".to_string()), &mut ValidationState::new(None, None));
    assert_eq!(r.unwrap_err(), parsing("empty host"));
}

#[test]
fn multi_host_validator_build_refuses_comma() {
    let r = MultiHostUrlValidator::build(
        false,
        None,
        None,
        None,
        Some("a,b".to_string()),
        None,
        None,
    );
    assert_eq!(
        r.unwrap_err(),
        SchemaError {
            message: "default_host cannot contain a comma, see pydantic-core#326".to_string()
        }
    );
    let r = MultiHostUrlValidator::build(false, None, Some(vec![]), None, Some("a,b".to_string()), None, None);
    assert_eq!(
        r.unwrap_err(),
        SchemaError { message: "`allowed_schemes` should have length > 0".to_string() }
    );
}

fn multi_strs(r: Result<EitherMultiHostUrl, UrlError>) -> (String, usize, bool) {
    let (m, py): (MultiHostUrl, bool) = match r.unwrap() {
        EitherMultiHostUrl::Py(m) => (m, true),
        EitherMultiHostUrl::Rust(m) => (m, false),
    };
    (m.ref_url.as_str().to_string(), m.extra_urls.map(|v| v.len()).unwrap_or(0), py)
}

#[test]
fn multi_host_validator_validates_string() {
    let v = MultiHostUrlValidator::build(false, None, schemes(&["postgres"]), None, None, None, None)
        .unwrap();
    assert_eq!(v.get_name(), "multi-host-url['postgres']");
    assert_eq!(MultiHostUrlValidator::expected_type(), "multi-host-url");
    let r = v.validate(UrlInput::Str("postgres://a:1,b:2/db".to_string()), &mut ValidationState::new(None, None));
    assert_eq!(multi_strs(r), ("postgres://b:2/db".to_string(), 1, false));
    let r = v.validate(UrlInput::Str("mysql://a:1,b:2/db".to_string()), &mut ValidationState::new(None, None));
    assert_eq!(r.unwrap_err(), UrlError::Scheme("'postgres'".to_string()));
}

#[test]
fn multi_host_validator_objects() {
    let v = MultiHostUrlValidator::build(false, Some(30), None, None, None, None, None).unwrap();
    let m = parse_multihost_url("postgres://a:1,b:2/db", false).unwrap();
    let r = v.validate(UrlInput::MultiHostUrl(m, "postgres://a:1,b:2/db".to_string()), &mut ValidationState::new(None, None));
    assert_eq!(multi_strs(r), ("postgres://b:2/db".to_string(), 1, true));
    let u = parse_url("postgres://a:1/db", false).unwrap();
    let r = v.validate(UrlInput::Url(u), &mut ValidationState::new(None, None));
    assert_eq!(multi_strs(r), ("postgres://a:1/db".to_string(), 0, false));
    assert_eq!(v.validate(UrlInput::Other, &mut ValidationState::new(None, None)).unwrap_err(), UrlError::Type);
    let r = v.validate(UrlInput::Str("postgres://a-long-host:1,b:2/database".to_string()), &mut ValidationState::new(None, None));
    assert_eq!(r.unwrap_err(), UrlError::TooLong(30));
    assert_eq!(v.check_length(30), Ok(()));
    assert_eq!(v.check_length(31), Err(UrlError::TooLong(30)));
}

#[test]
fn multi_host_validator_defaults() {
    let v = MultiHostUrlValidator::build(
        false,
        None,
        None,
        None,
        None,
        Some(5432),
        Some("/postgres".to_string()),
    )
    .unwrap();
    let r = v.validate(UrlInput::Str("postgres://a,b".to_string()), &mut ValidationState::new(None, None));
    assert_eq!(multi_strs(r), ("postgres://b:5432/postgres".to_string(), 1, false));
}

#[test]
fn bool_validator_settings() {
    let v = BoolValidator::build(true);
    assert_eq!(v.get_name(), "bool");
    assert_eq!(BoolValidator::expected_type(), "bool");
    assert!(v.strict_or(None));
    assert!(!v.strict_or(Some(false)));
    let lax = BoolValidator::build(false);
    assert!(!lax.strict_or(None));
    assert!(lax.strict_or(Some(true)));
}

#[test]
fn url_validator_lowers_exactness_on_success() {
    let v = plain_url_validator();
    let mut state = ValidationState::new(None, Some(Exactness::Exact));
    assert!(v.validate(UrlInput::Str("https://example.com".to_string()), &mut state).is_ok());
    assert_eq!(state, ValidationState::new(None, Some(Exactness::Lax)));
    let mut state = ValidationState::new(Some(false), Some(Exactness::Strict));
    assert!(v.validate(UrlInput::Other, &mut state).is_err());
    assert_eq!(state, ValidationState::new(Some(false), Some(Exactness::Strict)));
    let mut untracked = ValidationState::new(None, None);
    assert!(v.validate(UrlInput::Str("https://example.com".to_string()), &mut untracked).is_ok());
    assert_eq!(untracked.exactness, None);
}

#[test]
fn multi_host_validator_lowers_exactness_on_success() {
    let v = MultiHostUrlValidator::build(false, None, None, None, None, None, None).unwrap();
    let mut state = ValidationState::new(None, Some(Exactness::Strict));
    assert!(v.validate(UrlInput::Str("postgres://a,b".to_string()), &mut state).is_ok());
    assert_eq!(state.exactness, Some(Exactness::Lax));
    let mut state = ValidationState::new(None, Some(Exactness::Exact));
    assert!(v.validate(UrlInput::Str("".to_string()), &mut state).is_err());
    assert_eq!(state.exactness, Some(Exactness::Exact));
}

#[test]
fn validation_state_floor_and_strictness() {
    let mut state = ValidationState::new(Some(true), Some(Exactness::Exact));
    assert!(state.strict_or(false));
    state.floor_exactness(Exactness::Strict);
    assert_eq!(state.exactness, Some(Exactness::Strict));
    state.floor_exactness(Exactness::Exact);
    assert_eq!(state.exactness, Some(Exactness::Strict));
    state.floor_exactness(Exactness::Lax);
    assert_eq!(state.exactness, Some(Exactness::Lax));
    assert!(!ValidationState::new(None, None).strict_or(false));
}

#[test]
fn url_validator_empty_default_host_on_opaque_url() {
    let v = UrlValidator::build(false, None, None, Some(true), Some(String::new()), None, None)
        .unwrap();
    let r = v.validate(UrlInput::Str("foo:/bar".to_string()), &mut ValidationState::new(None, None));
    match r.unwrap() {
        EitherUrl::Rust(u) => assert!(!u.has_host()),
        EitherUrl::Py(_) => panic!("expected a new URL"),
    }
}
