//! The probe target, the two-valued probe outcome, and the response policy's
//! application: mapping an outcome to the final HTTP status and body text.

use vstd::prelude::*;

use crate::addr::SockAddress;
use crate::policy::{valid_status, ResponsePolicy};

verus! {

/// What a single connect attempt found. Refusal, unreachability and timeout
/// expiry all fold into `NotConnectable`; the response contract does not
/// distinguish them.
#[derive(Clone, Copy, Debug, PartialEq, Eq)]
pub enum ProbeOutcome {
    Connectable,
    NotConnectable,
}

/// Classify a connect attempt: an established connection is `Connectable`,
/// anything else is `NotConnectable`.
pub fn classify_connect(connected: bool) -> (r: ProbeOutcome)
    ensures
        r == (if connected {
            ProbeOutcome::Connectable
        } else {
            ProbeOutcome::NotConnectable
        }),
{
    if connected {
        ProbeOutcome::Connectable
    } else {
        ProbeOutcome::NotConnectable
    }
}

/// One request's target: the caller's text, kept verbatim for response
/// messages, and the concrete address resolution chose for it.
#[derive(Clone, Debug)]
pub struct ProbeTarget {
    pub raw_text: String,
    pub resolved_address: SockAddress,
}

impl ProbeTarget {
    /// Select the canonical address among the resolution candidates: the
    /// first, in resolution order. Zero candidates mean the target does not
    /// resolve.
    pub fn from_candidates(raw_text: String, candidates: &Vec<SockAddress>) -> (r: Option<
        ProbeTarget,
    >)
        ensures
            r is None <==> candidates@.len() == 0,
            r matches Some(t) ==> t.raw_text@ == raw_text@ && t.resolved_address
                == candidates@[0],
    {
        if candidates.len() == 0 {
            None
        } else {
            Some(ProbeTarget { raw_text, resolved_address: candidates[0] })
        }
    }
}

/// A finished HTTP response: a status code and a plain text body.
#[derive(Clone, Debug, PartialEq, Eq)]
pub struct ProbeResponse {
    pub status: u16,
    pub body: String,
}

impl ProbeResponse {
    /// The status is a legal HTTP status code.
    pub open spec fn wf(&self) -> bool {
        valid_status(self.status as int)
    }
}

/// The body suffix each outcome earns.
pub open spec fn outcome_suffix(outcome: ProbeOutcome) -> Seq<char> {
    match outcome {
        ProbeOutcome::Connectable => " is connectable"@,
        ProbeOutcome::NotConnectable => " is NOT connectable"@,
    }
}

/// What the response policy makes of an outcome: the configured good status
/// and `"<target> is connectable"`, or the configured bad status and
/// `"<target> is NOT connectable"`.
pub open spec fn spec_decide(
    outcome: ProbeOutcome,
    policy: ResponsePolicy,
    raw: Seq<char>,
) -> (int, Seq<char>) {
    (
        match outcome {
            ProbeOutcome::Connectable => policy.good_status as int,
            ProbeOutcome::NotConnectable => policy.bad_status as int,
        },
        raw + outcome_suffix(outcome),
    )
}

/// Apply the response policy to the probe outcome for this target.
pub fn decide(outcome: ProbeOutcome, policy: &ResponsePolicy, target: &ProbeTarget) -> (r:
    ProbeResponse)
    ensures
        (r.status as int, r.body@) == spec_decide(outcome, *policy, target.raw_text@),
        policy.wf() ==> r.wf(),
{
    let mut body = target.raw_text.clone();
    match outcome {
        ProbeOutcome::Connectable => {
            body.append(" is connectable");
            ProbeResponse { status: policy.good_status, body }
        },
        ProbeOutcome::NotConnectable => {
            body.append(" is NOT connectable");
            ProbeResponse { status: policy.bad_status, body }
        },
    }
}

} // verus!
