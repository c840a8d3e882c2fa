//! The list of address records that one resolution produced, walked once.
use vstd::prelude::*;
use crate::addr::SockAddr;
use crate::codec::{decode_spec, sockaddr_to_addr, Platform};
use crate::error::ResolveError;

verus! {

/// The addresses of the records that decode, in the records' order; the
/// others are left out.
pub open spec fn decode_all(p: Platform, recs: Seq<Vec<u8>>) -> Seq<SockAddr>
    decreases recs.len(),
{
    if recs.len() == 0 {
        Seq::empty()
    } else {
        let rest = decode_all(p, recs.drop_first());
        match decode_spec(p, recs[0]@) {
            Some(a) => seq![a] + rest,
            None => rest,
        }
    }
}

/// Every address of `s` with its port replaced by `port`.
pub open spec fn with_port_all(s: Seq<SockAddr>, port: u16) -> Seq<SockAddr> {
    s.map_values(|a: SockAddr| a.spec_with_port(port))
}

/// A single pass over the records of one resolution, with the port that the
/// caller asked for.
pub struct LookupHost {
    records: Vec<Vec<u8>>,
    cur: usize,
    port: u16,
    platform: Platform,
}

impl LookupHost {
    pub closed spec fn wf(&self) -> bool {
        self.cur <= self.records@.len()
    }

    /// The addresses that the walk has still to yield.
    pub closed spec fn remaining(&self) -> Seq<SockAddr> {
        decode_all(self.platform, self.records@.subrange(self.cur as int, self.records@.len() as int))
    }

    pub closed spec fn spec_port(&self) -> u16 {
        self.port
    }

    /// Starts a walk over `records`, each a raw socket-address record laid
    /// out as on `platform`.
    pub fn new(platform: Platform, records: Vec<Vec<u8>>, port: u16) -> (r: LookupHost)
        ensures
            r.wf(),
            r.remaining() == decode_all(platform, records@),
            r.spec_port() == port,
    {
        let r = LookupHost { records, cur: 0, port, platform };
        assert(r.records@.subrange(0, r.records@.len() as int) =~= r.records@);
        r
    }

    /// The port that every yielded address is meant to carry.
    pub fn port(&self) -> (r: u16)
        ensures
            r == self.spec_port(),
    {
        self.port
    }

    /// Yields the next address, skipping records that do not decode.
    pub fn next(&mut self) -> (r: Option<SockAddr>)
        requires
            old(self).wf(),
        ensures
            final(self).wf(),
            final(self).spec_port() == old(self).spec_port(),
            old(self).remaining().len() == 0 ==> r is None && final(self).remaining().len() == 0,
            old(self).remaining().len() > 0 ==> r == Some(old(self).remaining()[0])
                && final(self).remaining() == old(self).remaining().drop_first(),
    {
        let ghost r0 = self.remaining();
        let n: usize = self.records.len();
        while self.cur < n
            invariant
                self.wf(),
                n == self.records@.len(),
                self.remaining() == r0,
                r0 == old(self).remaining(),
                self.port == old(self).port,
            decreases n - self.cur,
        {
            let c: usize = self.cur;
            let ghost s = self.records@.subrange(c as int, n as int);
            assert(s.drop_first() =~= self.records@.subrange(c + 1, n as int));
            assert(s[0] == self.records@[c as int]);
            let d = sockaddr_to_addr(self.platform, self.records[c].as_slice());
            self.cur = c + 1;
            match d {
                Ok(a) => {
                    assert(r0 == seq![a] + self.remaining());
                    assert((seq![a] + self.remaining()).drop_first() =~= self.remaining());
                    return Some(a);
                },
                Err(_) => {},
            }
        }
        assert(self.records@.subrange(self.cur as int, n as int) =~= Seq::<Vec<u8>>::empty());
        None
    }
}

/// Collects the addresses of a walk, each with the walk's port put on it.
pub fn resolve_socket_addr(lh: LookupHost) -> (r: Result<Vec<SockAddr>, ResolveError>)
    requires
        lh.wf(),
    ensures
        r matches Ok(v) && v@ == with_port_all(lh.remaining(), lh.spec_port()),
{
    let mut lh = lh;
    let p = lh.port();
    let ghost all = lh.remaining();
    let mut v: Vec<SockAddr> = Vec::new();
    loop
        invariant
            lh.wf(),
            lh.spec_port() == p,
            with_port_all(all, p) == v@ + with_port_all(lh.remaining(), p),
        ensures
            with_port_all(all, p) == v@,
        decreases lh.remaining().len(),
    {
        let ghost before = lh.remaining();
        match lh.next() {
            Some(a) => {
                let mut b = a;
                b.set_port(p);
                proof {
                    assert(with_port_all(before, p) =~= seq![b] + with_port_all(before.drop_first(), p));
                }
                v.push(b);
                assert(with_port_all(all, p) =~= v@ + with_port_all(lh.remaining(), p));
            },
            None => {
                assert(with_port_all(lh.remaining(), p) =~= Seq::<SockAddr>::empty());
                assert(with_port_all(all, p) =~= v@);
                break;
            },
        }
    }
    Ok(v)
}

} // verus!
