//! The request pipeline, as decisions over plain values. The unverified shell
//! performs the two outside steps, name resolution and the TCP connect, and
//! feeds their results back; everything decided between those steps is here.
//!
//! Order within one request: the query string is read first; a bad parameter
//! answers at once and the target is never resolved. Then the target is
//! resolved; a target without addresses answers at once and no connection is
//! attempted. Only then is the probe run and its outcome turned into the
//! response.

use vstd::prelude::*;

use crate::addr::SockAddress;
use crate::digits::{dec_str_of, push_dec_u64};
use crate::policy::{
    effective_timeout, param_error_message, policy_from_query, spec_effective_timeout,
    spec_param_error_message, spec_policy_of_query, ParamError, ResponsePolicy,
};
use crate::probe::{spec_decide, ProbeOutcome, ProbeResponse, ProbeTarget};

verus! {

/// Process-wide configuration, read-only after startup. Verbose and quiet are
/// mutually exclusive; the configuration layer enforces that before this
/// library sees it.
#[derive(Clone, Copy, Debug, PartialEq, Eq)]
pub struct ServiceConfig {
    pub verbose: bool,
    pub quiet: bool,
}

impl ServiceConfig {
    /// Verbose and quiet do not both hold.
    pub open spec fn wf(&self) -> bool {
        !(self.verbose && self.quiet)
    }
}

/// A request is logged exactly when the configuration is verbose and not
/// quiet.
pub open spec fn spec_should_log(c: ServiceConfig) -> bool {
    c.verbose && !c.quiet
}

/// Whether this request earns a log line.
pub fn should_log(c: &ServiceConfig) -> (r: bool)
    ensures
        r == spec_should_log(*c),
{
    c.verbose && !c.quiet
}

/// The one structured log line of a verbose request: the caller, the target,
/// and the effective good, bad and timeout values.
pub open spec fn spec_log_line(
    peer: Seq<char>,
    target: Seq<char>,
    policy: ResponsePolicy,
) -> Seq<char> {
    peer + " requesting check of "@ + target + " (good: "@ + dec_str_of(
        policy.good_status as int,
    ) + ", bad: "@ + dec_str_of(policy.bad_status as int) + ", timeout: "@ + dec_str_of(
        spec_effective_timeout(policy.timeout_seconds) as int,
    ) + ")"@
}

/// Render the log line for one request.
pub fn log_line(peer: &str, target: &str, policy: &ResponsePolicy) -> (r: String)
    ensures
        r@ == spec_log_line(peer@, target@, *policy),
{
    let mut out = String::from_str(peer);
    out.append(" requesting check of ");
    out.append(target);
    out.append(" (good: ");
    push_dec_u64(policy.good_status as u64, &mut out);
    out.append(", bad: ");
    push_dec_u64(policy.bad_status as u64, &mut out);
    out.append(", timeout: ");
    push_dec_u64(effective_timeout(policy), &mut out);
    out.append(")");
    proof {
        assert(out@ =~= spec_log_line(peer@, target@, *policy));
    }
    out
}

/// What to do with a request once its query string has been read: answer at
/// once, or resolve the target under the given policy.
pub enum RequestPlan {
    Respond(ProbeResponse),
    Resolve(ResponsePolicy),
}

/// Read the query string, taken as it stands on the request line; parameter
/// values are plain decimal digits, which need no escaping. A bad parameter
/// is a client error, answered with status 400 and its message before the
/// target is resolved; otherwise the request goes on to resolution with the
/// policy the parameters asked for.
pub fn plan_request(query: &str) -> (plan: RequestPlan)
    ensures
        match spec_policy_of_query(query@) {
            Ok(p) => plan matches RequestPlan::Resolve(pol) && pol == p && p.wf(),
            Err(e) => plan matches RequestPlan::Respond(r) && r.status == 400 && r.body@
                == spec_param_error_message(e) && r.wf(),
        },
{
    match policy_from_query(query) {
        Ok(p) => RequestPlan::Resolve(p),
        Err(e) => RequestPlan::Respond(
            ProbeResponse { status: 400, body: param_error_message(&e) },
        ),
    }
}

/// The response body when the target does not resolve.
pub open spec fn resolution_error_text() -> Seq<char> {
    "Error while parsing host or port"@
}

/// What to do with a request once its target has been resolved: answer at
/// once, or probe the selected address with the effective timeout.
pub enum ProbeStep {
    Respond(ProbeResponse),
    Probe { target: ProbeTarget, timeout_seconds: u64 },
}

/// Take the resolution's candidates. A target with no addresses is a client
/// error, answered with status 400 and no connection attempt; otherwise the
/// probe runs against the first candidate, bounded by the policy's effective
/// timeout, which is never below one second.
pub fn after_resolution(
    raw_text: String,
    candidates: &Vec<SockAddress>,
    policy: &ResponsePolicy,
) -> (step: ProbeStep)
    ensures
        candidates@.len() == 0 ==> (step matches ProbeStep::Respond(r) && r.status == 400
            && r.body@ == resolution_error_text() && r.wf()),
        candidates@.len() > 0 ==> (step matches ProbeStep::Probe {
            target,
            timeout_seconds,
        } && target.raw_text@ == raw_text@ && target.resolved_address == candidates@[0]
            && timeout_seconds == spec_effective_timeout(policy.timeout_seconds)
            && timeout_seconds >= 1),
{
    match ProbeTarget::from_candidates(raw_text, candidates) {
        None => ProbeStep::Respond(
            ProbeResponse {
                status: 400,
                body: String::from_str("Error while parsing host or port"),
            },
        ),
        Some(target) => ProbeStep::Probe { target, timeout_seconds: effective_timeout(policy) },
    }
}

/// The status and body one request ends with, as a function of its query
/// string, its target text, the addresses the target resolved to, and the
/// probe outcome. The pipeline holds no other state, so two requests that
/// agree on these agree on the response.
pub open spec fn spec_request_response(
    query: Seq<char>,
    raw: Seq<char>,
    candidates: Seq<SockAddress>,
    outcome: ProbeOutcome,
) -> (int, Seq<char>) {
    match spec_policy_of_query(query) {
        Err(e) => (400, spec_param_error_message(e)),
        Ok(p) => if candidates.len() == 0 {
            (400, resolution_error_text())
        } else {
            spec_decide(outcome, p, raw)
        },
    }
}

} // verus!
