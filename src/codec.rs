//! Decoding of raw socket-address records, as the native resolvers lay them
//! out in memory.
use vstd::prelude::*;
use crate::addr::SockAddr;
use crate::error::ResolveError;

verus! {

/// Size in bytes of an IPv4 socket-address record.
pub const SOCKADDR_IN_LEN: usize = 16;

/// Size in bytes of an IPv6 socket-address record.
pub const SOCKADDR_IN6_LEN: usize = 28;

/// What differs between the platforms' record layouts: the family codes, the
/// byte order of the host-order fields, and whether the IPv6 scope id is read.
#[derive(Clone, Copy, Debug, PartialEq, Eq, Structural)]
pub struct Platform {
    pub af_inet: u16,
    pub af_inet6: u16,
    pub little_endian: bool,
    pub keep_scope_id: bool,
}

/// The value of a byte string read most significant byte first.
pub open spec fn be_value(s: Seq<u8>) -> nat
    decreases s.len(),
{
    if s.len() == 0 {
        0
    } else {
        (be_value(s.drop_last()) * 256 + s.last()) as nat
    }
}

/// The value of a byte string read least significant byte first.
pub open spec fn le_value(s: Seq<u8>) -> nat
    decreases s.len(),
{
    if s.len() == 0 {
        0
    } else {
        (s[0] + 256 * le_value(s.drop_first())) as nat
    }
}

/// The value of a byte string in the platform's own byte order.
pub open spec fn ne_value(little_endian: bool, s: Seq<u8>) -> nat {
    if little_endian {
        le_value(s)
    } else {
        be_value(s)
    }
}

/// `256` to the power `n`.
pub open spec fn pow256(n: nat) -> nat
    decreases n,
{
    if n == 0 {
        1
    } else {
        256 * pow256((n - 1) as nat)
    }
}

/// The address that a record holds, if its family is known and it is long
/// enough for that family.
pub open spec fn decode_spec(p: Platform, b: Seq<u8>) -> Option<SockAddr> {
    if b.len() < 2 {
        None
    } else {
        let family = ne_value(p.little_endian, b.subrange(0, 2));
        let port = be_value(b.subrange(2, 4)) as u16;
        if family == p.af_inet && b.len() >= SOCKADDR_IN_LEN {
            Some(SockAddr::V4 { ip4: be_value(b.subrange(4, 8)) as u32, port })
        } else if family == p.af_inet6 && b.len() >= SOCKADDR_IN6_LEN {
            Some(
                SockAddr::V6 {
                    ip6: be_value(b.subrange(8, 24)) as u128,
                    port,
                    flowinfo: ne_value(p.little_endian, b.subrange(4, 8)) as u32,
                    scope_id: if p.keep_scope_id {
                        ne_value(p.little_endian, b.subrange(24, 28)) as u32
                    } else {
                        0
                    },
                },
            )
        } else {
            None
        }
    }
}

proof fn lemma_be_value_bound(s: Seq<u8>)
    ensures
        be_value(s) < pow256(s.len()),
    decreases s.len(),
{
    if s.len() > 0 {
        lemma_be_value_bound(s.drop_last());
        let a = be_value(s.drop_last());
        let p = pow256(s.drop_last().len());
        assert(a * 256 + s.last() < 256 * p) by (nonlinear_arith)
            requires
                a < p,
                s.last() < 256,
        ;
    }
}

/// Reads `b[start..start + n]` most significant byte first.
fn read_be(b: &[u8], start: usize, n: usize) -> (r: u128)
    requires
        start + n <= b@.len(),
        n <= 16,
    ensures
        r == be_value(b@.subrange(start as int, start + n)),
{
    let blen: usize = b.len();
    let mut acc: u128 = 0;
    let mut i: usize = 0;
    while i < n
        invariant
            blen == b@.len(),
            i <= n,
            start + n <= b@.len(),
            n <= 16,
            acc == be_value(b@.subrange(start as int, start + i)),
        decreases n - i,
    {
        assert(start + i < b@.len());
        let ghost prev = b@.subrange(start as int, start + i);
        let ghost next = b@.subrange(start as int, start + i + 1);
        assert(next.drop_last() =~= prev);
        proof {
            lemma_be_value_bound(prev);
            lemma_pow256_mono(i as nat, 15);
            assert(pow256(15) * 256 == pow256(16));
            reveal_with_fuel(pow256, 17);
            assert(acc * 256 + 255 < 0x1_0000_0000_0000_0000_0000_0000_0000_0000) by (nonlinear_arith)
                requires
                    acc < pow256(i as nat),
                    pow256(i as nat) <= pow256(15),
                    pow256(15) * 256 == 0x1_0000_0000_0000_0000_0000_0000_0000_0000,
            ;
        }
        let k: usize = start + i;
        acc = acc * 256 + b[k] as u128;
        i = i + 1;
    }
    acc
}

proof fn lemma_le_value_bound(s: Seq<u8>)
    ensures
        le_value(s) < pow256(s.len()),
    decreases s.len(),
{
    if s.len() > 0 {
        lemma_le_value_bound(s.drop_first());
        let a = le_value(s.drop_first());
        let p = pow256(s.drop_first().len());
        assert(s[0] + 256 * a < 256 * p) by (nonlinear_arith)
            requires
                a < p,
                s[0] < 256,
        ;
    }
}

/// Reads `b[start..start + n]` least significant byte first.
fn read_le(b: &[u8], start: usize, n: usize) -> (r: u32)
    requires
        start + n <= b@.len(),
        n <= 4,
    ensures
        r == le_value(b@.subrange(start as int, start + n)),
{
    let blen: usize = b.len();
    let end: usize = start + n;
    let mut acc: u32 = 0;
    let mut i: usize = 0;
    while i < n
        invariant
            blen == b@.len(),
            i <= n,
            end == start + n,
            end <= b@.len(),
            n <= 4,
            acc == le_value(b@.subrange(end - i, end as int)),
        decreases n - i,
    {
        let ghost prev = b@.subrange(end - i, end as int);
        let ghost next = b@.subrange(end - i - 1, end as int);
        assert(next.drop_first() =~= prev);
        proof {
            lemma_le_value_bound(prev);
            lemma_pow256_mono(i as nat, 3);
            reveal_with_fuel(pow256, 5);
            assert(acc * 256 + 255 < 0x1_0000_0000) by (nonlinear_arith)
                requires
                    acc < pow256(i as nat),
                    pow256(i as nat) <= pow256(3),
                    pow256(3) == 0x100_0000,
            ;
        }
        let k: usize = end - i - 1;
        acc = b[k] as u32 + acc * 256;
        i = i + 1;
    }
    acc
}

/// Reads `b[start..start + n]` in the platform's own byte order.
fn read_ne(little_endian: bool, b: &[u8], start: usize, n: usize) -> (r: u32)
    requires
        start + n <= b@.len(),
        n <= 4,
    ensures
        r == ne_value(little_endian, b@.subrange(start as int, start + n)),
{
    if little_endian {
        read_le(b, start, n)
    } else {
        proof {
            lemma_be_value_bound(b@.subrange(start as int, start + n));
            lemma_pow256_mono(n as nat, 4);
            reveal_with_fuel(pow256, 5);
        }
        read_be(b, start, n) as u32
    }
}

/// Decodes one socket-address record. A record whose family is neither of
/// the platform's two, or that is shorter than its family's layout, is
/// refused with `InvalidInput`. The port is read in network byte order.
pub fn sockaddr_to_addr(p: Platform, storage: &[u8]) -> (r: Result<SockAddr, ResolveError>)
    ensures
        decode_spec(p, storage@) matches Some(a) ==> r == Ok::<SockAddr, ResolveError>(a),
        decode_spec(p, storage@) is None ==> r == Err::<SockAddr, ResolveError>(
            ResolveError::InvalidInput,
        ),
{
    let len: usize = storage.len();
    if len < 2 {
        return Err(ResolveError::InvalidInput);
    }
    let family = read_ne(p.little_endian, storage, 0, 2);
    if len >= SOCKADDR_IN_LEN && family == p.af_inet as u32 {
        let port = read_be(storage, 2, 2) as u16;
        let ip4 = read_be(storage, 4, 4) as u32;
        Ok(SockAddr::V4 { ip4, port })
    } else if len >= SOCKADDR_IN6_LEN && family == p.af_inet6 as u32 && family != p.af_inet as u32 {
        let port = read_be(storage, 2, 2) as u16;
        let ip6 = read_be(storage, 8, 16);
        let flowinfo = read_ne(p.little_endian, storage, 4, 4);
        let scope_id = if p.keep_scope_id {
            read_ne(p.little_endian, storage, 24, 4)
        } else {
            0
        };
        Ok(SockAddr::V6 { ip6, port, flowinfo, scope_id })
    } else {
        Err(ResolveError::InvalidInput)
    }
}

proof fn lemma_pow256_mono(a: nat, b: nat)
    requires
        a <= b,
    ensures
        pow256(a) <= pow256(b),
    decreases b,
{
    if a < b {
        lemma_pow256_mono(a, (b - 1) as nat);
    }
}

} // verus!
