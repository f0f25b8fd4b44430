//! Laws of the classifier, stated once over all previews.

use vstd::prelude::*;

use crate::authority::uri_authority_of;
use crate::classify::{
    connect_host_of, default_port, default_tunnel_port, find_byte, plan_of, Plan,
};
use crate::tokens::{is_connect_method, method_of, target_of};

verus! {

/// An inbound connection that closes before sending any byte is left alone:
/// an empty preview plans no upstream connection at all.
pub proof fn lemma_empty_preview_no_action(s: Seq<u8>)
    requires
        s.len() == 0,
    ensures
        plan_of(s) is NoAction,
{
}

proof fn lemma_find_byte_absent(s: Seq<u8>, b: u8, i: int)
    requires
        0 <= i <= s.len(),
        forall|j: int| i <= j < s.len() ==> s[j] != b,
    ensures
        find_byte(s, b, i) == s.len(),
    decreases s.len() - i,
{
    if i < s.len() {
        lemma_find_byte_absent(s, b, i + 1);
    }
}

/// A `CONNECT` target that names no port is tunneled to port 443: the plan
/// keeps the whole target as the host and takes `"443"` as the port.
pub proof fn lemma_tunnel_default_port(s: Seq<u8>)
    requires
        s.len() > 0,
        is_connect_method(method_of(s)),
        forall|j: int| 0 <= j < target_of(s).len() ==> target_of(s)[j] != 0x3a,
    ensures
        plan_of(s) == (Plan::Tunnel { host: target_of(s), port: default_tunnel_port() }),
{
    let t = target_of(s);
    lemma_find_byte_absent(t, 0x3a, 0);
    assert(connect_host_of(t) =~= t);
}

/// A plain request is forwarded to its URL's host: whenever the target URL
/// yields a host, the plan connects to it, on the explicit port when the URL
/// names one and on port 80 otherwise.
pub proof fn lemma_plain_forward(s: Seq<u8>, host: Seq<u8>, port: Option<u16>)
    requires
        s.len() > 0,
        !is_connect_method(method_of(s)),
    ensures
        uri_authority_of(target_of(s)) == Some::<(Seq<u8>, Option<u16>)>((host, port))
            ==> plan_of(s) == (Plan::Forward { host, port: default_port(port) }),
{
}

/// A plain URL without an explicit port is forwarded to port 80.
pub proof fn lemma_plain_default_port(s: Seq<u8>, host: Seq<u8>)
    requires
        s.len() > 0,
        !is_connect_method(method_of(s)),
    ensures
        uri_authority_of(target_of(s)) == Some::<(Seq<u8>, Option<u16>)>((host, None))
            ==> plan_of(s) == (Plan::Forward { host, port: 80 }),
{
}

} // verus!
