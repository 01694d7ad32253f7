use proby::digits::{parse_u64, u64_to_dec};
use proby::policy::{
    effective_timeout, param_error_message, parse_status, policy_from_query, ParamError,
    ParamName, ResponsePolicy,
};

#[test]
fn parses_plain_numbers() {
    assert_eq!(parse_u64("0"), Some(0));
    assert_eq!(parse_u64("42"), Some(42));
    assert_eq!(parse_u64("18446744073709551615"), Some(u64::MAX));
}

#[test]
fn rejects_non_numbers() {
    assert_eq!(parse_u64(""), None);
    assert_eq!(parse_u64("1a"), None);
    assert_eq!(parse_u64("+3"), None);
    assert_eq!(parse_u64("-3"), None);
    assert_eq!(parse_u64("18446744073709551616"), None);
}

#[test]
fn renders_decimal() {
    assert_eq!(u64_to_dec(0), "0");
    assert_eq!(u64_to_dec(503), "503");
    assert_eq!(u64_to_dec(18446744073709551615), "18446744073709551615");
}

#[test]
fn accepts_legal_status_codes() {
    assert_eq!(parse_status("100"), Some(100));
    assert_eq!(parse_status("200"), Some(200));
    assert_eq!(parse_status("999"), Some(999));
}

#[test]
fn rejects_illegal_status_codes() {
    assert_eq!(parse_status("99"), None);
    assert_eq!(parse_status("1000"), None);
    assert_eq!(parse_status("099"), None);
    assert_eq!(parse_status("20x"), None);
    assert_eq!(parse_status(""), None);
}

#[test]
fn empty_query_gives_defaults() {
    assert_eq!(policy_from_query(""), Ok(ResponsePolicy::default()));
    let p = ResponsePolicy::default();
    assert_eq!(p.good_status, 200);
    assert_eq!(p.bad_status, 503);
    assert_eq!(p.timeout_seconds, 1);
}

#[test]
fn reads_all_three_parameters() {
    let p = policy_from_query("good=201&bad=500&timeout=3").unwrap();
    assert_eq!(p.good_status, 201);
    assert_eq!(p.bad_status, 500);
    assert_eq!(p.timeout_seconds, 3);
}

#[test]
fn ignores_unknown_parameters() {
    assert_eq!(policy_from_query("foo=1&bar"), Ok(ResponsePolicy::default()));
}

#[test]
fn repeated_parameters_are_rejected() {
    assert_eq!(
        policy_from_query("good=201&good=202"),
        Err(ParamError::Duplicate(ParamName::Good))
    );
    assert_eq!(
        policy_from_query("bad=500&bad=501"),
        Err(ParamError::Duplicate(ParamName::Bad))
    );
    assert_eq!(
        policy_from_query("timeout=1&timeout=2"),
        Err(ParamError::Duplicate(ParamName::Timeout))
    );
}

#[test]
fn rejects_unparseable_values() {
    assert_eq!(
        policy_from_query("good=abc"),
        Err(ParamError::Invalid(ParamName::Good))
    );
    assert_eq!(
        policy_from_query("bad=99"),
        Err(ParamError::Invalid(ParamName::Bad))
    );
    assert_eq!(
        policy_from_query("timeout=soon"),
        Err(ParamError::Invalid(ParamName::Timeout))
    );
}

#[test]
fn duplicates_are_reported_before_bad_values() {
    assert_eq!(
        policy_from_query("good=abc&bad=1&bad=2"),
        Err(ParamError::Duplicate(ParamName::Bad))
    );
}

#[test]
fn error_messages_name_the_parameter() {
    assert_eq!(
        param_error_message(&ParamError::Invalid(ParamName::Timeout)),
        "invalid value for parameter timeout"
    );
    assert_eq!(
        param_error_message(&ParamError::Duplicate(ParamName::Good)),
        "duplicate parameter good"
    );
}

#[test]
fn effective_timeout_is_at_least_one_second() {
    let mut p = ResponsePolicy::default();
    p.timeout_seconds = 0;
    assert_eq!(effective_timeout(&p), 1);
    p.timeout_seconds = 5;
    assert_eq!(effective_timeout(&p), 5);
}
