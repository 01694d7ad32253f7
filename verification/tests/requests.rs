use proby::addr::{IpAddress, SockAddress};
use proby::handler::{after_resolution, plan_request, ProbeStep, RequestPlan};
use proby::policy::{policy_from_query, ResponsePolicy};
use proby::probe::{decide, ProbeOutcome, ProbeTarget};

fn localhost(port: u16) -> SockAddress {
    SockAddress { ip: IpAddress::V4 { a: 127, b: 0, c: 0, d: 1 }, port }
}

fn target_for(raw: &str, port: u16) -> ProbeTarget {
    match ProbeTarget::from_candidates(raw.to_string(), &vec![localhost(port)]) {
        Some(t) => t,
        None => panic!("candidates were not empty"),
    }
}

#[test]
fn connectable_service() {
    let policy = ResponsePolicy::default();
    let target = target_for("localhost:1234", 1234);
    let r = decide(ProbeOutcome::Connectable, &policy, &target);
    assert_eq!(r.status, 200);
    assert_eq!(r.body, format!("{}:{} is connectable", "localhost", 1234));
}

#[test]
fn unconnectable_service() {
    let policy = ResponsePolicy::default();
    let target = target_for("localhost:1", 1);
    let r = decide(ProbeOutcome::NotConnectable, &policy, &target);
    assert_eq!(r.status, 503);
    assert_eq!(r.body, format!("{}:{} is NOT connectable", "localhost", 1));
}

#[test]
fn can_configure_good_status_code() {
    let policy = match policy_from_query("good=201") {
        Ok(p) => p,
        Err(_) => panic!("query was well-formed"),
    };
    let target = target_for("localhost:1234", 1234);
    let r = decide(ProbeOutcome::Connectable, &policy, &target);
    assert_eq!(r.status, 201);
    assert_eq!(r.body, format!("{}:{} is connectable", "localhost", 1234));
}

#[test]
fn can_configure_bad_status_code() {
    let policy = match policy_from_query("good=500") {
        Ok(p) => p,
        Err(_) => panic!("query was well-formed"),
    };
    let target = target_for("localhost:1234", 1234);
    let r = decide(ProbeOutcome::Connectable, &policy, &target);
    assert_eq!(r.status, 500);
    assert_eq!(r.body, format!("{}:{} is connectable", "localhost", 1234));
}

#[test]
fn status_override_keeps_body() {
    let defaults = ResponsePolicy::default();
    let overridden = match policy_from_query("good=299&bad=410") {
        Ok(p) => p,
        Err(_) => panic!("query was well-formed"),
    };
    let target = target_for("example.com:80", 80);
    for outcome in [ProbeOutcome::Connectable, ProbeOutcome::NotConnectable] {
        let plain = decide(outcome, &defaults, &target);
        let fancy = decide(outcome, &overridden, &target);
        assert_eq!(plain.body, fancy.body);
    }
    assert_eq!(
        decide(ProbeOutcome::Connectable, &overridden, &target).status,
        299
    );
    assert_eq!(
        decide(ProbeOutcome::NotConnectable, &overridden, &target).status,
        410
    );
}

#[test]
fn same_request_same_response() {
    let policy = match policy_from_query("good=202&timeout=2") {
        Ok(p) => p,
        Err(_) => panic!("query was well-formed"),
    };
    let target = target_for("example.com:443", 443);
    let first = decide(ProbeOutcome::Connectable, &policy, &target);
    let second = decide(ProbeOutcome::Connectable, &policy, &target);
    assert_eq!(first.status, second.status);
    assert_eq!(first.body, second.body);
}

#[test]
fn malformed_query_answers_without_probe() {
    match plan_request("good=notanumber") {
        RequestPlan::Respond(r) => {
            assert_eq!(r.status, 400);
            assert_eq!(r.body, "invalid value for parameter good");
        }
        RequestPlan::Resolve(_) => panic!("a bad parameter must not reach resolution"),
    }
}

#[test]
fn well_formed_query_goes_on_to_resolution() {
    match plan_request("bad=404") {
        RequestPlan::Resolve(p) => {
            assert_eq!(p.good_status, 200);
            assert_eq!(p.bad_status, 404);
            assert_eq!(p.timeout_seconds, 1);
        }
        RequestPlan::Respond(_) => panic!("the query was well-formed"),
    }
}

#[test]
fn unresolvable_target_answers_without_probe() {
    let policy = ResponsePolicy::default();
    let none: Vec<SockAddress> = vec![];
    match after_resolution("not a valid host%%%".to_string(), &none, &policy) {
        ProbeStep::Respond(r) => {
            assert_eq!(r.status, 400);
            assert_eq!(r.body, "Error while parsing host or port");
        }
        ProbeStep::Probe { .. } => panic!("no candidate address may be probed"),
    }
}

#[test]
fn resolved_target_probes_first_candidate() {
    let policy = match policy_from_query("timeout=7") {
        Ok(p) => p,
        Err(_) => panic!("query was well-formed"),
    };
    let candidates = vec![localhost(80), localhost(81)];
    match after_resolution("example.com:80".to_string(), &candidates, &policy) {
        ProbeStep::Probe { target, timeout_seconds } => {
            assert_eq!(target.raw_text, "example.com:80");
            assert_eq!(target.resolved_address, localhost(80));
            assert_eq!(timeout_seconds, 7);
        }
        ProbeStep::Respond(_) => panic!("the target resolved"),
    }
}

#[test]
fn zero_timeout_probes_with_default() {
    let policy = match policy_from_query("timeout=0") {
        Ok(p) => p,
        Err(_) => panic!("query was well-formed"),
    };
    assert_eq!(policy.timeout_seconds, 0);
    match after_resolution("example.com:80".to_string(), &vec![localhost(80)], &policy) {
        ProbeStep::Probe { timeout_seconds, .. } => assert_eq!(timeout_seconds, 1),
        ProbeStep::Respond(_) => panic!("the target resolved"),
    }
}
