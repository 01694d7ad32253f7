//! The library's stated laws: properties that relate several functions of the
//! pipeline, proved once and for all inputs.

use vstd::prelude::*;

use crate::addr::SockAddress;
use crate::handler::{
    resolution_error_text, spec_log_line, spec_request_response, spec_should_log,
    ServiceConfig,
};
use crate::digits::{lemma_dec_value_nonneg, spec_parse_u64};
use crate::policy::{
    bad_name, count_name, first_value, good_name, lemma_parse_status_range, pair_of,
    query_pairs, spec_default_policy, spec_effective_timeout, spec_parse_status,
    spec_policy_of_query, timeout_name, ParamError, ResponsePolicy,
};
use crate::policy::{spec_param_error_message, ParamName};
use crate::probe::{spec_decide, ProbeOutcome};
use crate::text::{find_first, split_on};

verus! {

/// A query string with no parameters asks for the default policy: good 200,
/// bad 503, timeout one second.
pub proof fn lemma_empty_query_defaults()
    ensures
        spec_policy_of_query(""@) == Result::<ResponsePolicy, ParamError>::Ok(
            spec_default_policy(),
        ),
{
    reveal_strlit("");
    reveal_strlit("good");
    reveal_strlit("bad");
    reveal_strlit("timeout");
    let q = ""@;
    assert(q =~= Seq::<char>::empty());
    assert(split_on(q, '&') == seq![Seq::<char>::empty()]);
    let pairs = query_pairs(q);
    assert(pairs.len() == 1);
    assert(pairs[0] == pair_of(Seq::<char>::empty()));
    assert(find_first(Seq::<char>::empty(), '=') is None);
    assert(pairs[0].0 =~= Seq::<char>::empty());
    assert(pairs.drop_first() =~= Seq::<(Seq<char>, Seq<char>)>::empty());
    assert(count_name(Seq::<(Seq<char>, Seq<char>)>::empty(), good_name()) == 0);
    assert(count_name(Seq::<(Seq<char>, Seq<char>)>::empty(), bad_name()) == 0);
    assert(count_name(Seq::<(Seq<char>, Seq<char>)>::empty(), timeout_name()) == 0);
    assert(pairs[0].0 != good_name() && pairs[0].0 != bad_name() && pairs[0].0
        != timeout_name());
    assert(count_name(pairs, good_name()) == 0);
    assert(count_name(pairs, bad_name()) == 0);
    assert(count_name(pairs, timeout_name()) == 0);
    assert(first_value(Seq::<(Seq<char>, Seq<char>)>::empty(), good_name()) is None);
    assert(first_value(Seq::<(Seq<char>, Seq<char>)>::empty(), bad_name()) is None);
    assert(first_value(Seq::<(Seq<char>, Seq<char>)>::empty(), timeout_name()) is None);
    assert(first_value(pairs, good_name()) is None);
    assert(first_value(pairs, bad_name()) is None);
    assert(first_value(pairs, timeout_name()) is None);
}

/// With no overrides, a resolvable target answers 200 and
/// `"<target> is connectable"` when the probe connects, and 503 and
/// `"<target> is NOT connectable"` when it does not.
pub proof fn lemma_default_request_responses(raw: Seq<char>, candidates: Seq<SockAddress>)
    requires
        candidates.len() > 0,
    ensures
        spec_request_response(""@, raw, candidates, ProbeOutcome::Connectable) == (
            200int,
            raw + " is connectable"@,
        ),
        spec_request_response(""@, raw, candidates, ProbeOutcome::NotConnectable) == (
            503int,
            raw + " is NOT connectable"@,
        ),
{
    lemma_empty_query_defaults();
}

/// A policy the query string asked for carries exactly the values its
/// parameters named: a present `good`, `bad` or `timeout` sets precisely its
/// field, and an absent one leaves the default (200, 503, one second).
pub proof fn lemma_override_pins_policy(q: Seq<char>, p: ResponsePolicy)
    requires
        spec_policy_of_query(q) == Result::<ResponsePolicy, ParamError>::Ok(p),
    ensures
        match first_value(query_pairs(q), good_name()) {
            Some(s) => spec_parse_status(s) == Some(p.good_status as int),
            None => p.good_status == 200,
        },
        match first_value(query_pairs(q), bad_name()) {
            Some(s) => spec_parse_status(s) == Some(p.bad_status as int),
            None => p.bad_status == 503,
        },
        match first_value(query_pairs(q), timeout_name()) {
            Some(s) => spec_parse_u64(s) == Some(p.timeout_seconds as int),
            None => p.timeout_seconds == 1,
        },
{
    match first_value(query_pairs(q), good_name()) {
        Some(s) => lemma_parse_status_range(s),
        None => (),
    }
    match first_value(query_pairs(q), bad_name()) {
        Some(s) => lemma_parse_status_range(s),
        None => (),
    }
    match first_value(query_pairs(q), timeout_name()) {
        Some(s) => {
            if spec_parse_u64(s) is Some {
                lemma_dec_value_nonneg(s);
            }
        },
        None => (),
    }
}

/// Overriding the good or bad status changes exactly the returned status:
/// the body never depends on the configured statuses, and the status is
/// exactly the configured one for the branch the outcome selects.
pub proof fn lemma_status_override_preserves_body(
    outcome: ProbeOutcome,
    p1: ResponsePolicy,
    p2: ResponsePolicy,
    raw: Seq<char>,
)
    ensures
        spec_decide(outcome, p1, raw).1 == spec_decide(outcome, p2, raw).1,
        spec_decide(outcome, p1, raw).0 == (match outcome {
            ProbeOutcome::Connectable => p1.good_status as int,
            ProbeOutcome::NotConnectable => p1.bad_status as int,
        }),
{
}

/// The effective probe timeout is never below one second: an explicit zero
/// means the default of one second, and any positive value is taken as given.
pub proof fn lemma_effective_timeout_bounds(t: u64)
    ensures
        spec_effective_timeout(t) >= 1,
        t == 0 ==> spec_effective_timeout(t) == 1,
        t >= 1 ==> spec_effective_timeout(t) == t,
{
}

/// Quiet configuration suppresses the per-request log line; verbose (and not
/// quiet) configuration emits it.
pub proof fn lemma_quiet_suppresses_verbose_logs(c: ServiceConfig)
    ensures
        c.quiet ==> !spec_should_log(c),
        c.wf() && c.verbose ==> spec_should_log(c),
{
}

/// An error never answers with an empty body: every parameter error message
/// and the resolution error text have at least one character.
pub proof fn lemma_error_bodies_nonempty(e: ParamError)
    ensures
        spec_param_error_message(e).len() > 0,
        resolution_error_text().len() > 0,
{
    reveal_strlit("invalid value for parameter good");
    reveal_strlit("invalid value for parameter bad");
    reveal_strlit("invalid value for parameter timeout");
    reveal_strlit("duplicate parameter good");
    reveal_strlit("duplicate parameter bad");
    reveal_strlit("duplicate parameter timeout");
    reveal_strlit("Error while parsing host or port");
}

/// The verbose log line names the target: the target text stands in the line,
/// right after the caller's address and the fixed words between them.
pub proof fn lemma_log_line_names_target(
    peer: Seq<char>,
    target: Seq<char>,
    policy: ResponsePolicy,
)
    ensures
        spec_log_line(peer, target, policy).subrange(
            peer.len() as int + " requesting check of "@.len() as int,
            peer.len() as int + " requesting check of "@.len() as int
                + target.len() as int,
        ) == target,
{
    let line = spec_log_line(peer, target, policy);
    let start = peer.len() + " requesting check of "@.len();
    assert(line.subrange(start as int, start as int + target.len() as int) =~= target);
}

/// Idempotence: two requests that agree on the query string, the target text,
/// the resolved candidates and the probe outcome get the same status and the
/// same body. The pipeline holds no per-target state that could cause drift.
pub proof fn lemma_request_idempotent(
    query: Seq<char>,
    raw: Seq<char>,
    candidates: Seq<SockAddress>,
    outcome: ProbeOutcome,
    first: (int, Seq<char>),
    second: (int, Seq<char>),
)
    requires
        first == spec_request_response(query, raw, candidates, outcome),
        second == spec_request_response(query, raw, candidates, outcome),
    ensures
        first == second,
{
}

} // verus!
