//! The bytes the handler puts on the wire: the tunnel acknowledgment and the
//! `host:port` address handed to the upstream connect.

use vstd::prelude::*;

use crate::classify::Decision;

verus! {

/// The acknowledgment owed to the client once a tunnel's upstream connection
/// stands: exactly `HTTP/1.1 200 Connection Established\r\n\r\n`.
pub open spec fn connect_ack_bytes() -> Seq<u8> {
    seq![
        0x48u8, 0x54u8, 0x54u8, 0x50u8, 0x2fu8, 0x31u8, 0x2eu8, 0x31u8, 0x20u8, 0x32u8, 0x30u8,
        0x30u8, 0x20u8, 0x43u8, 0x6fu8, 0x6eu8, 0x6eu8, 0x65u8, 0x63u8, 0x74u8, 0x69u8, 0x6fu8,
        0x6eu8, 0x20u8, 0x45u8, 0x73u8, 0x74u8, 0x61u8, 0x62u8, 0x6cu8, 0x69u8, 0x73u8, 0x68u8,
        0x65u8, 0x64u8, 0x0du8, 0x0au8, 0x0du8, 0x0au8,
    ]
}

/// The tunnel acknowledgment, as the bytes to write.
pub fn connect_ack() -> (r: Vec<u8>)
    ensures
        r@ == connect_ack_bytes(),
{
    let mut r: Vec<u8> = Vec::new();
    r.push(0x48);
    r.push(0x54);
    r.push(0x54);
    r.push(0x50);
    r.push(0x2f);
    r.push(0x31);
    r.push(0x2e);
    r.push(0x31);
    r.push(0x20);
    r.push(0x32);
    r.push(0x30);
    r.push(0x30);
    r.push(0x20);
    r.push(0x43);
    r.push(0x6f);
    r.push(0x6e);
    r.push(0x6e);
    r.push(0x65);
    r.push(0x63);
    r.push(0x74);
    r.push(0x69);
    r.push(0x6f);
    r.push(0x6e);
    r.push(0x20);
    r.push(0x45);
    r.push(0x73);
    r.push(0x74);
    r.push(0x61);
    r.push(0x62);
    r.push(0x6c);
    r.push(0x69);
    r.push(0x73);
    r.push(0x68);
    r.push(0x65);
    r.push(0x64);
    r.push(0x0d);
    r.push(0x0a);
    r.push(0x0d);
    r.push(0x0a);
    proof {
        assert(r@ =~= connect_ack_bytes());
    }
    r
}

/// The decimal digits of `n`, most significant first, no sign and no
/// leading zero (a single `0` for zero).
pub open spec fn dec_digits(n: int) -> Seq<u8>
    decreases n when n >= 0
{
    if n < 10 {
        seq![(0x30 + n) as u8]
    } else {
        dec_digits(n / 10) + seq![(0x30 + n % 10) as u8]
    }
}

/// Appends the decimal digits of `n` to `out`.
pub fn push_decimal(out: &mut Vec<u8>, n: u16)
    ensures
        final(out)@ == old(out)@ + dec_digits(n as int),
    decreases n,
{
    if n < 10 {
        out.push(0x30 + (n as u8));
        proof {
            assert(out@ =~= old(out)@ + dec_digits(n as int));
        }
    } else {
        push_decimal(out, n / 10);
        out.push(0x30 + ((n % 10) as u8));
        proof {
            assert(out@ =~= old(out)@ + dec_digits(n as int));
        }
    }
}

/// Appends all of `src` to `out`.
fn append_bytes(out: &mut Vec<u8>, src: &Vec<u8>)
    ensures
        final(out)@ == old(out)@ + src@,
{
    let mut i: usize = 0;
    while i < src.len()
        invariant
            0 <= i <= src@.len(),
            out@ == old(out)@ + src@.subrange(0, i as int),
        decreases src@.len() - i,
    {
        out.push(src[i]);
        i = i + 1;
        proof {
            assert(out@ =~= old(out)@ + src@.subrange(0, i as int));
        }
    }
    proof {
        assert(src@.subrange(0, src@.len() as int) =~= src@);
    }
}

/// `host`, a colon, `port`: the address string handed to the upstream
/// connect.
pub open spec fn joined_addr(host: Seq<u8>, port: Seq<u8>) -> Seq<u8> {
    host + seq![0x3au8] + port
}

/// The upstream address `host:port` that a decision connects to, as bytes;
/// `None` when the decision forwards nothing.
pub fn upstream_addr(d: &Decision) -> (r: Option<Vec<u8>>)
    ensures
        match d {
            Decision::Tunnel { host, port } => (r matches Some(a) && a@ == joined_addr(
                host@,
                port@,
            )),
            Decision::Forward { host, port } => (r matches Some(a) && a@ == joined_addr(
                host@,
                dec_digits(*port as int),
            )),
            Decision::NoAction => r is None,
        },
{
    match d {
        Decision::Tunnel { host, port } => {
            let mut a: Vec<u8> = Vec::new();
            append_bytes(&mut a, host);
            a.push(0x3a);
            append_bytes(&mut a, port);
            proof {
                assert(a@ =~= joined_addr(host@, port@));
            }
            Some(a)
        },
        Decision::Forward { host, port } => {
            let mut a: Vec<u8> = Vec::new();
            append_bytes(&mut a, host);
            a.push(0x3a);
            push_decimal(&mut a, *port);
            proof {
                assert(a@ =~= joined_addr(host@, dec_digits(*port as int)));
            }
            Some(a)
        },
        Decision::NoAction => None,
    }
}

} // verus!
