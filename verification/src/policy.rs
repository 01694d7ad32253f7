//! Per-request response policy: the optional `good`, `bad` and `timeout`
//! query parameters, their grammar, their defaults, and the errors a bad
//! parameter raises.

use vstd::prelude::*;

use crate::digits::{
    all_dec_digits, dec_digit_val, dec_value, is_dec_digit, parse_u64, spec_parse_u64,
};
use crate::text::{find_first, split_on, split_str, str_eq, views_of, lemma_find_first_props};

verus! {

/// A legal HTTP status code: three decimal digits, first one non-zero.
pub open spec fn valid_status(n: int) -> bool {
    100 <= n <= 999
}

/// The value a status-code string denotes: exactly three decimal digits with
/// a non-zero leading digit.
pub open spec fn spec_parse_status(s: Seq<char>) -> Option<int> {
    if s.len() == 3 && all_dec_digits(s) && dec_digit_val(s[0]) >= 1 {
        Some(dec_value(s))
    } else {
        None
    }
}

/// Parse a status-code string; the result is always a legal status code.
pub fn parse_status(s: &str) -> (r: Option<u16>)
    ensures
        r matches Some(n) ==> spec_parse_status(s@) == Some(n as int) && valid_status(
            n as int,
        ),
        r is None ==> spec_parse_status(s@) is None,
{
    let len = s.unicode_len();
    if len != 3 {
        return None;
    }
    let v0 = s.get_char(0) as u32;
    let v1 = s.get_char(1) as u32;
    let v2 = s.get_char(2) as u32;
    if v0 < 49 || v0 > 57 {
        proof {
            assert(!(is_dec_digit(s@[0]) && dec_digit_val(s@[0]) >= 1));
        }
        return None;
    }
    if v1 < 48 || v1 > 57 {
        assert(!is_dec_digit(s@[1]));
        return None;
    }
    if v2 < 48 || v2 > 57 {
        assert(!is_dec_digit(s@[2]));
        return None;
    }
    let n = ((v0 - 48) * 100 + (v1 - 48) * 10 + (v2 - 48)) as u16;
    proof {
        let sq = s@;
        let s2 = sq.drop_last();
        let s1 = s2.drop_last();
        assert(s1 =~= seq![sq[0]]);
        assert(s1.drop_last() =~= Seq::<char>::empty());
        assert(s1.last() == sq[0]);
        assert(dec_value(Seq::<char>::empty()) == 0);
        assert(dec_value(s1) == dec_value(s1.drop_last()) * 10 + dec_digit_val(s1.last()));
        assert(dec_value(s1) == dec_digit_val(sq[0]));
        assert(s2.last() == sq[1]);
        assert(dec_value(s2) == dec_digit_val(sq[0]) * 10 + dec_digit_val(sq[1]));
        assert(sq.last() == sq[2]);
        assert(dec_value(sq) == (dec_digit_val(sq[0]) * 10 + dec_digit_val(sq[1])) * 10
            + dec_digit_val(sq[2]));
        assert(all_dec_digits(sq)) by {
            assert(is_dec_digit(sq[0]));
            assert(is_dec_digit(sq[1]));
            assert(is_dec_digit(sq[2]));
        }
    }
    Some(n)
}

/// A status-code string that parses denotes a legal status code.
pub proof fn lemma_parse_status_range(s: Seq<char>)
    requires
        spec_parse_status(s) is Some,
    ensures
        match spec_parse_status(s) {
            Some(n) => valid_status(n),
            None => true,
        },
{
    let s2 = s.drop_last();
    let s1 = s2.drop_last();
    assert(s1 =~= seq![s[0]]);
    assert(s1.drop_last() =~= Seq::<char>::empty());
    assert(s1.last() == s[0]);
    assert(dec_value(Seq::<char>::empty()) == 0);
    assert(dec_value(s1) == dec_value(s1.drop_last()) * 10 + dec_digit_val(s1.last()));
    assert(s2.last() == s[1]);
    assert(dec_value(s2) == dec_digit_val(s[0]) * 10 + dec_digit_val(s[1]));
    assert(s.last() == s[2]);
    assert(dec_value(s) == (dec_digit_val(s[0]) * 10 + dec_digit_val(s[1])) * 10
        + dec_digit_val(s[2]));
    assert(is_dec_digit(s[0]) && is_dec_digit(s[1]) && is_dec_digit(s[2]));
}

/// Which query parameter something happened to.
#[derive(Clone, Copy, Debug, PartialEq, Eq)]
pub enum ParamName {
    Good,
    Bad,
    Timeout,
}

/// A request-level query-parameter error: a present-but-unparseable value, or
/// a parameter given more than once. Neither reaches the probe stage.
#[derive(Clone, Copy, Debug, PartialEq, Eq)]
pub enum ParamError {
    Invalid(ParamName),
    Duplicate(ParamName),
}

/// The response policy for one request: status to report on a connectable
/// target, status to report on an unconnectable one, and the probe timeout.
#[derive(Clone, Copy, Debug, PartialEq, Eq)]
pub struct ResponsePolicy {
    pub good_status: u16,
    pub bad_status: u16,
    pub timeout_seconds: u64,
}

impl ResponsePolicy {
    /// Both configured statuses are legal HTTP status codes.
    pub open spec fn wf(&self) -> bool {
        valid_status(self.good_status as int) && valid_status(self.bad_status as int)
    }
}

/// The policy used when no parameter overrides anything.
pub open spec fn spec_default_policy() -> ResponsePolicy {
    ResponsePolicy { good_status: 200, bad_status: 503, timeout_seconds: 1 }
}

impl Default for ResponsePolicy {
    /// The default policy: good 200, bad 503, timeout one second.
    fn default() -> (r: Self)
        ensures
            r == spec_default_policy(),
    {
        ResponsePolicy { good_status: 200, bad_status: 503, timeout_seconds: 1 }
    }
}

/// The timeout actually used for the connect attempt: an explicit zero means
/// "use the default", so the effective value is never below one second.
pub open spec fn spec_effective_timeout(t: u64) -> u64 {
    if t == 0 {
        1u64
    } else {
        t
    }
}

/// The effective probe timeout of a policy, in seconds; always at least one.
pub fn effective_timeout(policy: &ResponsePolicy) -> (r: u64)
    ensures
        r == spec_effective_timeout(policy.timeout_seconds),
        r >= 1,
{
    if policy.timeout_seconds == 0 {
        1
    } else {
        policy.timeout_seconds
    }
}

/// A query-string piece read as a `key=value` pair; without `=` the whole
/// piece is the key and the value is empty.
pub open spec fn pair_of(p: Seq<char>) -> (Seq<char>, Seq<char>) {
    match find_first(p, '=') {
        None => (p, Seq::<char>::empty()),
        Some(i) => (p.take(i), p.skip(i + 1)),
    }
}

/// The `key=value` pairs of a query string, split on `&`.
pub open spec fn query_pairs(q: Seq<char>) -> Seq<(Seq<char>, Seq<char>)> {
    split_on(q, '&').map_values(|p: Seq<char>| pair_of(p))
}

/// The value of the first pair whose key is `name`.
pub open spec fn first_value(
    pairs: Seq<(Seq<char>, Seq<char>)>,
    name: Seq<char>,
) -> Option<Seq<char>>
    decreases pairs.len(),
{
    if pairs.len() == 0 {
        None
    } else if pairs[0].0 == name {
        Some(pairs[0].1)
    } else {
        first_value(pairs.drop_first(), name)
    }
}

/// How many pairs have key `name`.
pub open spec fn count_name(pairs: Seq<(Seq<char>, Seq<char>)>, name: Seq<char>) -> nat
    decreases pairs.len(),
{
    if pairs.len() == 0 {
        0
    } else {
        (if pairs[0].0 == name {
            1nat
        } else {
            0nat
        }) + count_name(pairs.drop_first(), name)
    }
}

proof fn lemma_first_value_push(
    pairs: Seq<(Seq<char>, Seq<char>)>,
    kv: (Seq<char>, Seq<char>),
    name: Seq<char>,
)
    ensures
        first_value(pairs.push(kv), name) == if first_value(pairs, name) is Some {
            first_value(pairs, name)
        } else if kv.0 == name {
            Some(kv.1)
        } else {
            None::<Seq<char>>
        },
    decreases pairs.len(),
{
    if pairs.len() == 0 {
        assert(pairs.push(kv)[0] == kv);
        assert(pairs.push(kv).drop_first() =~= Seq::<(Seq<char>, Seq<char>)>::empty());
    } else {
        assert(pairs.push(kv)[0] == pairs[0]);
        assert(pairs.push(kv).drop_first() =~= pairs.drop_first().push(kv));
        lemma_first_value_push(pairs.drop_first(), kv, name);
    }
}

proof fn lemma_count_push(
    pairs: Seq<(Seq<char>, Seq<char>)>,
    kv: (Seq<char>, Seq<char>),
    name: Seq<char>,
)
    ensures
        count_name(pairs.push(kv), name) == count_name(pairs, name) + (if kv.0 == name {
            1nat
        } else {
            0nat
        }),
    decreases pairs.len(),
{
    if pairs.len() == 0 {
        assert(pairs.push(kv)[0] == kv);
        assert(pairs.push(kv).drop_first() =~= Seq::<(Seq<char>, Seq<char>)>::empty());
        assert(count_name(Seq::<(Seq<char>, Seq<char>)>::empty(), name) == 0);
        assert(count_name(pairs.push(kv), name) == (if kv.0 == name {
            1nat
        } else {
            0nat
        }) + count_name(pairs.push(kv).drop_first(), name));
    } else {
        assert(pairs.push(kv)[0] == pairs[0]);
        assert(pairs.push(kv).drop_first() =~= pairs.drop_first().push(kv));
        lemma_count_push(pairs.drop_first(), kv, name);
        assert(count_name(pairs.push(kv), name) == (if pairs[0].0 == name {
            1nat
        } else {
            0nat
        }) + count_name(pairs.drop_first().push(kv), name));
        assert(count_name(pairs, name) == (if pairs[0].0 == name {
            1nat
        } else {
            0nat
        }) + count_name(pairs.drop_first(), name));
    }
}

/// The key of the `good` parameter.
pub open spec fn good_name() -> Seq<char> {
    "good"@
}

/// The key of the `bad` parameter.
pub open spec fn bad_name() -> Seq<char> {
    "bad"@
}

/// The key of the `timeout` parameter.
pub open spec fn timeout_name() -> Seq<char> {
    "timeout"@
}

/// An absent status parameter defaults; a present one must be a legal status
/// code.
pub open spec fn spec_status_of(v: Option<Seq<char>>, default: int) -> Option<int> {
    match v {
        None => Some(default),
        Some(s) => spec_parse_status(s),
    }
}

/// An absent timeout defaults to one second; a present one must be a decimal
/// number of seconds that fits in a `u64`.
pub open spec fn spec_timeout_of(v: Option<Seq<char>>) -> Option<int> {
    match v {
        None => Some(1),
        Some(s) => spec_parse_u64(s),
    }
}

/// What a query string means as a response policy. A parameter given more
/// than once is rejected first (`good` before `bad` before `timeout`); then
/// each present value must parse, in the same order; unknown parameters are
/// ignored; absent parameters take their defaults.
pub open spec fn spec_policy_of_query(q: Seq<char>) -> Result<ResponsePolicy, ParamError> {
    let pairs = query_pairs(q);
    if count_name(pairs, good_name()) > 1 {
        Err(ParamError::Duplicate(ParamName::Good))
    } else if count_name(pairs, bad_name()) > 1 {
        Err(ParamError::Duplicate(ParamName::Bad))
    } else if count_name(pairs, timeout_name()) > 1 {
        Err(ParamError::Duplicate(ParamName::Timeout))
    } else {
        match spec_status_of(first_value(pairs, good_name()), 200) {
            None => Err(ParamError::Invalid(ParamName::Good)),
            Some(g) => match spec_status_of(first_value(pairs, bad_name()), 503) {
                None => Err(ParamError::Invalid(ParamName::Bad)),
                Some(b) => match spec_timeout_of(first_value(pairs, timeout_name())) {
                    None => Err(ParamError::Invalid(ParamName::Timeout)),
                    Some(t) => Ok(
                        ResponsePolicy {
                            good_status: g as u16,
                            bad_status: b as u16,
                            timeout_seconds: t as u64,
                        },
                    ),
                },
            },
        }
    }
}

/// Read one query-string piece as a `key=value` pair.
fn split_pair<'a>(p: &'a str) -> (kv: (&'a str, &'a str))
    ensures
        (kv.0@, kv.1@) == pair_of(p@),
{
    match crate::text::find_char(p, '=') {
        None => {
            proof {
                reveal_strlit("");
                assert(""@ =~= Seq::<char>::empty());
            }
            (p, "")
        },
        Some(i) => {
            let len = p.unicode_len();
            proof {
                lemma_find_first_props(p@, '=');
            }
            (p.substring_char(0, i), p.substring_char(i + 1, len))
        },
    }
}

proof fn lemma_pairs_of_parts(parts: Seq<&str>, q: Seq<char>)
    requires
        views_of(parts) == split_on(q, '&'),
    ensures
        query_pairs(q).len() == parts.len(),
        forall|k: int| 0 <= k < parts.len() ==> query_pairs(q)[k] == pair_of(parts[k]@),
{
    assert forall|k: int| 0 <= k < parts.len() implies query_pairs(q)[k] == pair_of(
        parts[k]@,
    ) by {
        assert(query_pairs(q)[k] == pair_of(split_on(q, '&')[k]));
        assert(views_of(parts)[k] == parts[k]@);
    }
}

/// Build the response policy a query string asks for, or say what is wrong
/// with it.
pub fn policy_from_query(q: &str) -> (r: Result<ResponsePolicy, ParamError>)
    ensures
        r == spec_policy_of_query(q@),
        r matches Ok(p) ==> p.wf(),
{
    let parts = split_str(q, '&');
    let ghost pairs = query_pairs(q@);
    proof {
        lemma_pairs_of_parts(parts@, q@);
    }
    let n = parts.len();
    let mut good: Option<&str> = None;
    let mut bad: Option<&str> = None;
    let mut timeout: Option<&str> = None;
    let mut good_n: usize = 0;
    let mut bad_n: usize = 0;
    let mut timeout_n: usize = 0;
    let mut i: usize = 0;
    while i < n
        invariant
            0 <= i <= n,
            n == parts@.len(),
            pairs == query_pairs(q@),
            pairs.len() == parts@.len(),
            forall|k: int| 0 <= k < parts@.len() ==> pairs[k] == pair_of(parts@[k]@),
            match good {
                Some(g) => first_value(pairs.take(i as int), good_name()) == Some(g@),
                None => first_value(pairs.take(i as int), good_name()) is None,
            },
            match bad {
                Some(g) => first_value(pairs.take(i as int), bad_name()) == Some(g@),
                None => first_value(pairs.take(i as int), bad_name()) is None,
            },
            match timeout {
                Some(g) => first_value(pairs.take(i as int), timeout_name()) == Some(
                    g@,
                ),
                None => first_value(pairs.take(i as int), timeout_name()) is None,
            },
            good_n as int == count_name(pairs.take(i as int), good_name()),
            bad_n as int == count_name(pairs.take(i as int), bad_name()),
            timeout_n as int == count_name(pairs.take(i as int), timeout_name()),
            good_n <= i && bad_n <= i && timeout_n <= i,
        decreases n - i,
    {
        let part = parts[i];
        let (key, value) = split_pair(part);
        let ghost kv = pairs[i as int];
        proof {
            assert(kv == pair_of(parts@[i as int]@));
            assert(key@ == kv.0 && value@ == kv.1);
        }
        if str_eq(key, "good") {
            good_n = good_n + 1;
            if good.is_none() {
                good = Some(value);
            }
        } else if str_eq(key, "bad") {
            bad_n = bad_n + 1;
            if bad.is_none() {
                bad = Some(value);
            }
        } else if str_eq(key, "timeout") {
            timeout_n = timeout_n + 1;
            if timeout.is_none() {
                timeout = Some(value);
            }
        }
        proof {
            reveal_strlit("good");
            reveal_strlit("bad");
            reveal_strlit("timeout");
            assert(good_name().len() == 4 && bad_name().len() == 3 && timeout_name().len()
                == 7);
            assert(pairs.take(i as int + 1) =~= pairs.take(i as int).push(kv));
            lemma_first_value_push(pairs.take(i as int), kv, good_name());
            lemma_first_value_push(pairs.take(i as int), kv, bad_name());
            lemma_first_value_push(pairs.take(i as int), kv, timeout_name());
            lemma_count_push(pairs.take(i as int), kv, good_name());
            lemma_count_push(pairs.take(i as int), kv, bad_name());
            lemma_count_push(pairs.take(i as int), kv, timeout_name());
        }
        i = i + 1;
    }
    proof {
        assert(pairs.take(n as int) =~= pairs);
    }
    if good_n > 1 {
        return Err(ParamError::Duplicate(ParamName::Good));
    }
    if bad_n > 1 {
        return Err(ParamError::Duplicate(ParamName::Bad));
    }
    if timeout_n > 1 {
        return Err(ParamError::Duplicate(ParamName::Timeout));
    }
    let good_status: u16 = match good {
        None => 200,
        Some(s) => match parse_status(s) {
            None => {
                return Err(ParamError::Invalid(ParamName::Good));
            },
            Some(v) => v,
        },
    };
    let bad_status: u16 = match bad {
        None => 503,
        Some(s) => match parse_status(s) {
            None => {
                return Err(ParamError::Invalid(ParamName::Bad));
            },
            Some(v) => v,
        },
    };
    let timeout_seconds: u64 = match timeout {
        None => 1,
        Some(s) => match parse_u64(s) {
            None => {
                return Err(ParamError::Invalid(ParamName::Timeout));
            },
            Some(v) => v,
        },
    };
    Ok(ResponsePolicy { good_status, bad_status, timeout_seconds })
}

/// The message of a query-parameter error.
pub open spec fn spec_param_error_message(e: ParamError) -> Seq<char> {
    match e {
        ParamError::Invalid(ParamName::Good) => "invalid value for parameter good"@,
        ParamError::Invalid(ParamName::Bad) => "invalid value for parameter bad"@,
        ParamError::Invalid(ParamName::Timeout) => "invalid value for parameter timeout"@,
        ParamError::Duplicate(ParamName::Good) => "duplicate parameter good"@,
        ParamError::Duplicate(ParamName::Bad) => "duplicate parameter bad"@,
        ParamError::Duplicate(ParamName::Timeout) => "duplicate parameter timeout"@,
    }
}

/// Render a query-parameter error as its response body text.
pub fn param_error_message(e: &ParamError) -> (r: String)
    ensures
        r@ == spec_param_error_message(*e),
{
    match e {
        ParamError::Invalid(ParamName::Good) => String::from_str(
            "invalid value for parameter good",
        ),
        ParamError::Invalid(ParamName::Bad) => String::from_str(
            "invalid value for parameter bad",
        ),
        ParamError::Invalid(ParamName::Timeout) => String::from_str(
            "invalid value for parameter timeout",
        ),
        ParamError::Duplicate(ParamName::Good) => String::from_str(
            "duplicate parameter good",
        ),
        ParamError::Duplicate(ParamName::Bad) => String::from_str(
            "duplicate parameter bad",
        ),
        ParamError::Duplicate(ParamName::Timeout) => String::from_str(
            "duplicate parameter timeout",
        ),
    }
}

} // verus!
