//! The informational root endpoint: a static body naming the running version
//! and one example invocation line per listen address.

use vstd::prelude::*;

use crate::probe::ProbeResponse;

verus! {

/// The views of a sequence of owned strings.
pub open spec fn string_views(v: Seq<String>) -> Seq<Seq<char>> {
    v.map_values(|s: String| s@)
}

/// One example invocation line for a listen address.
pub open spec fn example_line(sock: Seq<char>) -> Seq<char> {
    "  curl http://"@ + sock + "/example.com:1337\n"@
}

/// The example invocation lines, one per listen address, in order.
pub open spec fn example_lines(socks: Seq<Seq<char>>) -> Seq<char>
    decreases socks.len(),
{
    if socks.len() == 0 {
        Seq::<char>::empty()
    } else {
        example_lines(socks.drop_last()) + example_line(socks.last())
    }
}

/// The whole usage body: the service name and version, then the example
/// lines.
pub open spec fn usage_text(version: Seq<char>, socks: Seq<Seq<char>>) -> Seq<char> {
    "proby "@ + version + "\n\nTry something like this:\n\n"@ + example_lines(socks)
}

/// Render the usage body for this version and these formatted listen
/// addresses.
pub fn usage_body(version: &str, sockets: &Vec<String>) -> (r: String)
    ensures
        r@ == usage_text(version@, string_views(sockets@)),
{
    let mut out = String::from_str("proby ");
    out.append(version);
    out.append("\n\nTry something like this:\n\n");
    let mut i: usize = 0;
    while i < sockets.len()
        invariant
            0 <= i <= sockets@.len(),
            out@ == "proby "@ + version@ + "\n\nTry something like this:\n\n"@
                + example_lines(string_views(sockets@).take(i as int)),
        decreases sockets@.len() - i,
    {
        out.append("  curl http://");
        out.append(sockets[i].as_str());
        out.append("/example.com:1337\n");
        proof {
            let sv = string_views(sockets@);
            let t = sv.take(i as int + 1);
            assert(t.drop_last() =~= sv.take(i as int));
            assert(t.last() == sv[i as int]);
            assert(sv[i as int] == sockets@[i as int]@);
            assert(example_lines(t) == example_lines(sv.take(i as int)) + example_line(
                sockets@[i as int]@,
            ));
            assert(out@ =~= "proby "@ + version@ + "\n\nTry something like this:\n\n"@
                + example_lines(t));
        }
        i = i + 1;
    }
    proof {
        assert(string_views(sockets@).take(sockets@.len() as int) =~= string_views(
            sockets@,
        ));
    }
    out
}

/// The root endpoint's response: always status 200, never a probe, whatever
/// the probe configuration says.
pub fn usage_response(version: &str, sockets: &Vec<String>) -> (r: ProbeResponse)
    ensures
        r.status == 200,
        r.body@ == usage_text(version@, string_views(sockets@)),
        r.wf(),
{
    ProbeResponse { status: 200, body: usage_body(version, sockets) }
}

} // verus!
