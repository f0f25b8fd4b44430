//! The one outside call of the library: reading the authority of a URL.
//!
//! A plain HTTP request names its target as a URL; the proxy connects to the
//! authority's host, on its explicit port if one is given. The URI grammar is
//! `hyper`'s business; the library only names its outcome.

use vstd::prelude::*;

verus! {

/// The authority that URI parsing extracts from the bytes of a URL token:
/// `Some((host, explicit_port))` when the bytes are UTF-8 and parse as a URI
/// with a host, `None` otherwise. The outcome is a function of the bytes
/// alone.
pub uninterp spec fn uri_authority_of(t: Seq<u8>) -> Option<(Seq<u8>, Option<u16>)>;

/// Relies on `hyper::Uri` (its `FromStr` impl, `Uri::host` and
/// `Uri::port_u16`) and on `core::str::from_utf8`: the host and explicit
/// port of the URL written in `t`, or `None` when `t` is not UTF-8, does not
/// parse as a URI, or has no host. All of them depend on `t` alone.
#[verifier::external_body]
pub(crate) fn parse_authority(t: &Vec<u8>) -> (r: Option<(Vec<u8>, Option<u16>)>)
    ensures
        match r {
            Some(hp) => uri_authority_of(t@) == Some::<(Seq<u8>, Option<u16>)>((hp.0@, hp.1)),
            None => uri_authority_of(t@) is None,
        },
{
    let s = match core::str::from_utf8(t) {
        Ok(s) => s,
        Err(_) => return None,
    };
    let uri = match s.parse::<hyper::Uri>() {
        Ok(u) => u,
        Err(_) => return None,
    };
    match uri.host() {
        Some(h) => Some((h.as_bytes().to_vec(), uri.port_u16())),
        None => None,
    }
}

} // verus!
