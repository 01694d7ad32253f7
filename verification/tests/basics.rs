use proby::handler::{log_line, should_log, ServiceConfig};
use proby::policy::{policy_from_query, ResponsePolicy};
use proby::usage::{usage_body, usage_response};

#[test]
fn has_quiet_output() {
    let quiet = ServiceConfig { verbose: false, quiet: true };
    assert!(!should_log(&quiet));
    let plain = ServiceConfig { verbose: false, quiet: false };
    assert!(!should_log(&plain));
}

#[test]
fn has_verbose_output() {
    let verbose = ServiceConfig { verbose: true, quiet: false };
    assert!(should_log(&verbose));
    let line = log_line("1.2.3.4:555", "example.com:80", &ResponsePolicy::default());
    assert!(line.contains("requesting check of"));
    assert_eq!(
        line,
        "1.2.3.4:555 requesting check of example.com:80 (good: 200, bad: 503, timeout: 1)"
    );
}

#[test]
fn log_line_carries_effective_values() {
    let policy = policy_from_query("good=299&bad=410&timeout=0").unwrap();
    let line = log_line("peer:1", "host:2", &policy);
    assert_eq!(
        line,
        "peer:1 requesting check of host:2 (good: 299, bad: 410, timeout: 1)"
    );
}

#[test]
fn usage_shows_version_and_examples() {
    let sockets = vec!["127.0.0.1:8080".to_string(), "[0:0:0:0:0:0:0:1]:8080".to_string()];
    let body = usage_body("0.1.0", &sockets);
    assert_eq!(
        body,
        "proby 0.1.0\n\nTry something like this:\n\n  \
         curl http://127.0.0.1:8080/example.com:1337\n  \
         curl http://[0:0:0:0:0:0:0:1]:8080/example.com:1337\n"
    );
}

#[test]
fn root_always_answers_ok() {
    let sockets = vec!["0.0.0.0:8080".to_string()];
    let r = usage_response("0.1.0", &sockets);
    assert_eq!(r.status, 200);
    assert!(r.body.starts_with("proby 0.1.0"));
    let none: Vec<String> = vec![];
    assert_eq!(usage_response("9.9.9", &none).status, 200);
}
