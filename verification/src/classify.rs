//! Classifying one inbound connection by its first bytes.
//!
//! The handler peeks at the leading bytes of the stream and decides, from
//! them alone, what to do: open a tunnel for a `CONNECT` request, forward a
//! plain HTTP request to its URL's host, or do nothing. `classify` makes that
//! decision; `after_connect` says what to send once the upstream connect
//! attempt has resolved.

use vstd::prelude::*;

use crate::authority::{parse_authority, uri_authority_of};
use crate::tokens::{copy_range, is_connect_method, method_of, target_of};

verus! {

/// What the handler decided to do with one inbound connection.
#[derive(Debug, PartialEq, Eq)]
pub enum Decision {
    /// A `CONNECT host:port` request: connect to `host:port` (the port as
    /// written, `443` when none was written), acknowledge, then relay.
    Tunnel { host: Vec<u8>, port: Vec<u8> },
    /// A plain HTTP request whose URL names a host: connect to it, replay
    /// the preview, then relay.
    Forward { host: Vec<u8>, port: u16 },
    /// Nothing to forward: an empty preview, or a target with no usable host.
    NoAction,
}

/// The decision, at the specification level.
pub enum Plan {
    Tunnel { host: Seq<u8>, port: Seq<u8> },
    Forward { host: Seq<u8>, port: u16 },
    NoAction,
}

/// Index of the first occurrence of `b` in `s` at or after `i` (`s.len()`
/// when there is none).
pub open spec fn find_byte(s: Seq<u8>, b: u8, i: int) -> int
    decreases s.len() - i when 0 <= i <= s.len()
{
    if i >= s.len() || s[i] == b {
        i
    } else {
        find_byte(s, b, i + 1)
    }
}

/// The host written in a `CONNECT` target: everything before the first colon.
pub open spec fn connect_host_of(t: Seq<u8>) -> Seq<u8> {
    t.subrange(0, find_byte(t, 0x3a, 0))
}

/// The bytes of `"443"`, the default tunnel port.
pub open spec fn default_tunnel_port() -> Seq<u8> {
    seq![0x34u8, 0x34u8, 0x33u8]
}

/// The port written in a `CONNECT` target: the segment between the first and
/// second colon, or `"443"` when the target holds no colon at all.
pub open spec fn connect_port_of(t: Seq<u8>) -> Seq<u8> {
    let c = find_byte(t, 0x3a, 0);
    if c == t.len() {
        default_tunnel_port()
    } else {
        t.subrange(c + 1, find_byte(t, 0x3a, c + 1))
    }
}

/// The port a plain HTTP request is forwarded to: the URL's explicit port,
/// or 80 when the URL names none.
pub open spec fn default_port(p: Option<u16>) -> u16 {
    match p {
        Some(x) => x,
        None => 80,
    }
}

/// The decision owed to a preview: nothing for an empty preview; a tunnel
/// for a `CONNECT` method; otherwise a forward to the target URL's host, or
/// nothing when the URL yields no host.
pub open spec fn plan_of(s: Seq<u8>) -> Plan {
    if s.len() == 0 {
        Plan::NoAction
    } else if is_connect_method(method_of(s)) {
        Plan::Tunnel { host: connect_host_of(target_of(s)), port: connect_port_of(target_of(s)) }
    } else {
        match uri_authority_of(target_of(s)) {
            Some(hp) => Plan::Forward { host: hp.0, port: default_port(hp.1) },
            None => Plan::NoAction,
        }
    }
}

/// The decision `d` carries exactly the values that the plan `p` asks for.
pub open spec fn decision_matches(d: Decision, p: Plan) -> bool {
    match (d, p) {
        (Decision::Tunnel { host: dh, port: dp }, Plan::Tunnel { host: ph, port: pp }) => dh@
            == ph && dp@ == pp,
        (Decision::Forward { host: dh, port: dp }, Plan::Forward { host: ph, port: pp }) => dh@
            == ph && dp == pp,
        (Decision::NoAction, Plan::NoAction) => true,
        _ => false,
    }
}

/// Index of the first occurrence of `b` at or after `from`.
fn scan_byte(t: &Vec<u8>, b: u8, from: usize) -> (r: usize)
    requires
        from <= t@.len(),
    ensures
        r == find_byte(t@, b, from as int),
        from <= r <= t@.len(),
{
    let mut i: usize = from;
    while i < t.len() && t[i] != b
        invariant
            from <= i <= t@.len(),
            find_byte(t@, b, from as int) == find_byte(t@, b, i as int),
        decreases t@.len() - i,
    {
        i = i + 1;
    }
    i
}

/// Splits a `CONNECT` target into the host and port to connect to, the port
/// defaulting to `"443"` when the target holds none.
pub fn tunnel_target(t: &Vec<u8>) -> (r: (Vec<u8>, Vec<u8>))
    ensures
        r.0@ == connect_host_of(t@),
        r.1@ == connect_port_of(t@),
{
    let c = scan_byte(t, 0x3a, 0);
    let host = copy_range(t, 0, c);
    if c == t.len() {
        let mut port: Vec<u8> = Vec::new();
        port.push(0x34);
        port.push(0x34);
        port.push(0x33);
        proof {
            assert(port@ =~= default_tunnel_port());
        }
        (host, port)
    } else {
        let c2 = scan_byte(t, 0x3a, c + 1);
        let port = copy_range(t, c + 1, c2);
        (host, port)
    }
}

/// Turns the authority that URL parsing yielded into the handler's decision:
/// forward to that host, on its explicit port or 80, or do nothing when no
/// host was found.
pub fn plain_decision(auth: Option<(Vec<u8>, Option<u16>)>) -> (d: Decision)
    ensures
        match auth {
            Some(hp) => (d matches Decision::Forward { host, port } && host@ == hp.0@ && port
                == default_port(hp.1)),
            None => d is NoAction,
        },
{
    match auth {
        Some((host, p)) => {
            let port: u16 = match p {
                Some(x) => x,
                None => 80,
            };
            Decision::Forward { host, port }
        },
        None => Decision::NoAction,
    }
}

/// Classifies one inbound connection from the preview of its first bytes.
pub fn classify(preview: &Vec<u8>) -> (d: Decision)
    ensures
        decision_matches(d, plan_of(preview@)),
{
    if preview.len() == 0 {
        return Decision::NoAction;
    }
    let (method, target) = crate::tokens::first_two_tokens(preview);
    if crate::tokens::is_connect(&method) {
        let (host, port) = tunnel_target(&target);
        Decision::Tunnel { host, port }
    } else {
        plain_decision(parse_authority(&target))
    }
}

/// What the handler sends once its upstream connect attempt has resolved.
#[derive(Debug, PartialEq, Eq)]
pub enum Action {
    /// Write the tunnel acknowledgment to the client, then relay.
    AckThenRelay,
    /// Replay the preview bytes upstream, then relay.
    PreviewThenRelay,
    /// Send nothing and close.
    CloseSilently,
}

/// The step after the connect attempt: a tunnel that connected is
/// acknowledged, a forward that connected gets the preview replayed, and a
/// failed connect — or a decision with no upstream — sends nothing at all.
pub fn after_connect(d: &Decision, connected: bool) -> (a: Action)
    ensures
        (a is AckThenRelay) <==> (connected && d is Tunnel),
        (a is PreviewThenRelay) <==> (connected && d is Forward),
        (a is CloseSilently) <==> (!connected || d is NoAction),
{
    if !connected {
        return Action::CloseSilently;
    }
    match d {
        Decision::Tunnel { .. } => Action::AckThenRelay,
        Decision::Forward { .. } => Action::PreviewThenRelay,
        Decision::NoAction => Action::CloseSilently,
    }
}

} // verus!
