//! Splitting a request preview into its leading whitespace-separated tokens.
//!
//! A request line starts with a method token and a target token. The
//! classifier only ever needs those two; a missing token is the empty byte
//! string.

use vstd::prelude::*;

verus! {

/// The ASCII whitespace bytes that separate the tokens of a request line.
pub open spec fn is_ws(b: u8) -> bool {
    b == 0x20 || (0x09 <= b && b <= 0x0d)
}

/// Index of the first non-whitespace byte of `s` at or after `i`
/// (`s.len()` when every byte from `i` on is whitespace).
pub open spec fn skip_ws(s: Seq<u8>, i: int) -> int
    decreases s.len() - i when 0 <= i <= s.len()
{
    if i >= s.len() || !is_ws(s[i]) {
        i
    } else {
        skip_ws(s, i + 1)
    }
}

/// Index of the first whitespace byte of `s` at or after `i`
/// (`s.len()` when the token reaches the end of `s`).
pub open spec fn skip_token(s: Seq<u8>, i: int) -> int
    decreases s.len() - i when 0 <= i <= s.len()
{
    if i >= s.len() || is_ws(s[i]) {
        i
    } else {
        skip_token(s, i + 1)
    }
}

/// The first token of a request preview: its method.
pub open spec fn method_of(s: Seq<u8>) -> Seq<u8> {
    let a = skip_ws(s, 0);
    s.subrange(a, skip_token(s, a))
}

/// The second token of a request preview: its target.
pub open spec fn target_of(s: Seq<u8>) -> Seq<u8> {
    let a = skip_ws(s, 0);
    let b = skip_token(s, a);
    let c = skip_ws(s, b);
    s.subrange(c, skip_token(s, c))
}

fn is_ws_byte(b: u8) -> (r: bool)
    ensures
        r == is_ws(b),
{
    b == 0x20 || (0x09 <= b && b <= 0x0d)
}

/// Index of the first non-whitespace byte at or after `from`.
fn scan_ws_end(s: &Vec<u8>, from: usize) -> (r: usize)
    requires
        from <= s@.len(),
    ensures
        r == skip_ws(s@, from as int),
        from <= r <= s@.len(),
{
    let mut i: usize = from;
    while i < s.len() && is_ws_byte(s[i])
        invariant
            from <= i <= s@.len(),
            skip_ws(s@, from as int) == skip_ws(s@, i as int),
        decreases s@.len() - i,
    {
        i = i + 1;
    }
    i
}

/// Index of the first whitespace byte at or after `from`.
fn scan_token_end(s: &Vec<u8>, from: usize) -> (r: usize)
    requires
        from <= s@.len(),
    ensures
        r == skip_token(s@, from as int),
        from <= r <= s@.len(),
{
    let mut i: usize = from;
    while i < s.len() && !is_ws_byte(s[i])
        invariant
            from <= i <= s@.len(),
            skip_token(s@, from as int) == skip_token(s@, i as int),
        decreases s@.len() - i,
    {
        i = i + 1;
    }
    i
}

/// The ASCII-lowercase image of one byte.
pub open spec fn lower_byte(b: u8) -> u8 {
    if 0x41 <= b && b <= 0x5a {
        (b + 0x20) as u8
    } else {
        b
    }
}

/// The bytes of `"connect"`, the tunnel method in lowercase.
pub open spec fn connect_lower() -> Seq<u8> {
    seq![0x63u8, 0x6fu8, 0x6eu8, 0x6eu8, 0x65u8, 0x63u8, 0x74u8]
}

/// Whether a method token reads `CONNECT`, ASCII-case-insensitively.
pub open spec fn is_connect_method(m: Seq<u8>) -> bool {
    m.len() == 7 && (forall|i: int| 0 <= i < 7 ==> lower_byte(m[i]) == connect_lower()[i])
}

fn to_lower_byte(b: u8) -> (r: u8)
    ensures
        r == lower_byte(b),
{
    if 0x41 <= b && b <= 0x5a {
        b + 0x20
    } else {
        b
    }
}

/// Whether a method token reads `CONNECT`, ASCII-case-insensitively.
pub fn is_connect(m: &Vec<u8>) -> (r: bool)
    ensures
        r == is_connect_method(m@),
{
    if m.len() != 7 {
        return false;
    }
    let mut expect: Vec<u8> = Vec::new();
    expect.push(0x63);
    expect.push(0x6f);
    expect.push(0x6e);
    expect.push(0x6e);
    expect.push(0x65);
    expect.push(0x63);
    expect.push(0x74);
    proof {
        assert(expect@ =~= connect_lower());
    }
    let mut i: usize = 0;
    while i < 7
        invariant
            0 <= i <= 7,
            m@.len() == 7,
            expect@ == connect_lower(),
            forall|j: int| 0 <= j < i ==> lower_byte(m@[j]) == connect_lower()[j],
        decreases 7 - i,
    {
        if to_lower_byte(m[i]) != expect[i] {
            assert(lower_byte(m@[i as int]) != connect_lower()[i as int]);
            return false;
        }
        i = i + 1;
    }
    true
}

/// A fresh copy of the bytes of `s` from `from` up to `to`.
pub(crate) fn copy_range(s: &Vec<u8>, from: usize, to: usize) -> (r: Vec<u8>)
    requires
        from <= to <= s@.len(),
    ensures
        r@ == s@.subrange(from as int, to as int),
{
    let mut r: Vec<u8> = Vec::new();
    let mut i: usize = from;
    while i < to
        invariant
            from <= i <= to <= s@.len(),
            r@ == s@.subrange(from as int, i as int),
        decreases to - i,
    {
        r.push(s[i]);
        i = i + 1;
        proof {
            assert(r@ =~= s@.subrange(from as int, i as int));
        }
    }
    r
}

/// Extracts the first two whitespace-separated tokens of a preview: the
/// request's method and its target. A missing token comes back empty.
pub fn first_two_tokens(s: &Vec<u8>) -> (r: (Vec<u8>, Vec<u8>))
    ensures
        r.0@ == method_of(s@),
        r.1@ == target_of(s@),
{
    let a = scan_ws_end(s, 0);
    let b = scan_token_end(s, a);
    let method = copy_range(s, a, b);
    let c = scan_ws_end(s, b);
    let d = scan_token_end(s, c);
    let target = copy_range(s, c, d);
    (method, target)
}

} // verus!
