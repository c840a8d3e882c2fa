//! Resolution targets: splitting `host:port`, reading the port, and choosing
//! between an address that is already known and a lookup.
use vstd::prelude::*;
use crate::addr::SockAddr;
use crate::error::ResolveError;

verus! {

/// An IP address without a port, as plain values.
#[derive(Clone, Copy, Debug, PartialEq, Eq, Structural)]
pub enum IpAddr {
    V4(u32),
    V6(u128),
}

/// What a target asks for: an address already known, or a lookup of `host`
/// whose addresses are all to carry `port`.
#[derive(Debug)]
pub enum Plan {
    Literal(SockAddr),
    Lookup { host: String, port: u16 },
}

/// A plan as a value of the specification.
pub enum PlanView {
    Literal(SockAddr),
    Lookup(Seq<char>, u16),
}

impl View for Plan {
    type V = PlanView;

    open spec fn view(&self) -> PlanView {
        match self {
            Plan::Literal(a) => PlanView::Literal(*a),
            Plan::Lookup { host, port } => PlanView::Lookup(host@, *port),
        }
    }
}

/// A planning result as a value of the specification.
pub open spec fn plan_result_view(r: Result<Plan, ResolveError>) -> Result<PlanView, ResolveError> {
    match r {
        Ok(p) => Ok(p@),
        Err(e) => Err(e),
    }
}

/// The plan for a `host:port` target whose reading as a socket-address
/// literal is `literal`.
pub open spec fn plan_str_spec(t: Seq<char>, literal: Option<SockAddr>) -> Result<PlanView, ResolveError> {
    match literal {
        Some(a) => Ok(PlanView::Literal(a)),
        None => match split_spec(t) {
            Ok((h, p)) => Ok(PlanView::Lookup(h, p)),
            Err(e) => Err(e),
        },
    }
}

/// The plan for a host and a port, where `literal` is the host read as an IP
/// address literal.
pub open spec fn plan_pair_spec(host: Seq<char>, port: u16, literal: Option<IpAddr>) -> PlanView {
    match literal {
        Some(ip) => PlanView::Literal(sock_of(ip, port)),
        None => PlanView::Lookup(host, port),
    }
}

pub open spec fn is_digit(c: char) -> bool {
    '0' <= c && c <= '9'
}

pub open spec fn all_digits(d: Seq<char>) -> bool {
    forall|i: int| 0 <= i < d.len() ==> #[trigger] is_digit(d[i])
}

/// The decimal value of a string of digits.
pub open spec fn digits_value(d: Seq<char>) -> nat
    decreases d.len(),
{
    if d.len() == 0 {
        0
    } else {
        (digits_value(d.drop_last()) * 10 + (d.last() as nat - '0' as nat)) as nat
    }
}

/// The port that `s` denotes: an optional `+`, then one or more decimal
/// digits whose value fits in 16 bits.
pub open spec fn port_value(s: Seq<char>) -> Option<u16> {
    let d = if s.len() > 0 && s[0] == '+' {
        s.drop_first()
    } else {
        s
    };
    if d.len() > 0 && all_digits(d) && digits_value(d) <= 65535 {
        Some(digits_value(d) as u16)
    } else {
        None
    }
}

/// The index of the last `:` in `s`, or `-1` where there is none.
pub open spec fn last_colon(s: Seq<char>) -> int
    decreases s.len(),
{
    if s.len() == 0 {
        -1
    } else if s.last() == ':' {
        s.len() - 1
    } else {
        last_colon(s.drop_last())
    }
}

/// How `host:port` splits: on the last `:`, with a port that `port_value`
/// accepts.
pub open spec fn split_spec(s: Seq<char>) -> Result<(Seq<char>, u16), ResolveError> {
    let i = last_colon(s);
    if i < 0 {
        Err(ResolveError::InvalidInput)
    } else {
        match port_value(s.subrange(i + 1, s.len() as int)) {
            Some(p) => Ok((s.subrange(0, i), p)),
            None => Err(ResolveError::InvalidInput),
        }
    }
}

/// An IP address with a port.
pub open spec fn sock_of(ip: IpAddr, port: u16) -> SockAddr {
    match ip {
        IpAddr::V4(a) => SockAddr::V4 { ip4: a, port },
        IpAddr::V6(a) => SockAddr::V6 { ip6: a, port, flowinfo: 0, scope_id: 0 },
    }
}

proof fn lemma_digits_prefix(d: Seq<char>, k: int)
    requires
        0 <= k <= d.len(),
        all_digits(d),
    ensures
        digits_value(d.subrange(0, k)) <= digits_value(d),
    decreases d.len(),
{
    if k < d.len() {
        let e = d.drop_last();
        assert(all_digits(e)) by {
            assert forall|i: int| 0 <= i < e.len() implies #[trigger] is_digit(e[i]) by {
                assert(is_digit(d[i]));
            }
        }
        lemma_digits_prefix(e, k);
        assert(e.subrange(0, k) =~= d.subrange(0, k));
        assert(is_digit(d[d.len() - 1]));
    } else {
        assert(d.subrange(0, k) =~= d);
    }
}

/// Reads the port written in `s[from..to]`, counted in characters.
fn parse_port_range(s: &str, from: usize, to: usize) -> (r: Option<u16>)
    requires
        from <= to <= s@.len(),
    ensures
        r == port_value(s@.subrange(from as int, to as int)),
{
    let ghost t = s@.subrange(from as int, to as int);
    let mut start: usize = from;
    if from < to && s.get_char(from) == '+' {
        start = from + 1;
    }
    let ghost d = s@.subrange(start as int, to as int);
    assert(t.len() > 0 ==> t[0] == s@[from as int]);
    assert(d =~= (if t.len() > 0 && t[0] == '+' { t.drop_first() } else { t }));
    if start == to {
        return None;
    }
    let mut acc: u32 = 0;
    let mut i: usize = start;
    while i < to
        invariant
            start <= i <= to <= s@.len(),
            d == s@.subrange(start as int, to as int),
            d.len() > 0,
            t == s@.subrange(from as int, to as int),
            port_value(t) == (if all_digits(d) && digits_value(d) <= 65535 {
                Some(digits_value(d) as u16)
            } else {
                None
            }),
            all_digits(s@.subrange(start as int, i as int)),
            acc == digits_value(s@.subrange(start as int, i as int)),
            acc <= 65535,
        decreases to - i,
    {
        let c = s.get_char(i);
        let ghost pre = s@.subrange(start as int, i as int);
        let ghost next = s@.subrange(start as int, i + 1);
        assert(next.drop_last() =~= pre);
        if c < '0' || c > '9' {
            assert(!is_digit(d[i - start]));
            assert(!all_digits(d));
            return None;
        }
        acc = acc * 10 + (c as u32 - '0' as u32);
        i = i + 1;
        assert(all_digits(next)) by {
            assert forall|j: int| 0 <= j < next.len() implies #[trigger] is_digit(next[j]) by {
                if j < pre.len() {
                    assert(is_digit(pre[j]));
                }
            }
        }
        if acc > 65535 {
            proof {
                if all_digits(d) {
                    lemma_digits_prefix(d, i - start);
                    assert(d.subrange(0, i - start) =~= next);
                }
            }
            assert(!(all_digits(d) && digits_value(d) <= 65535));
            return None;
        }
    }
    assert(s@.subrange(start as int, i as int) =~= d);
    Some(acc as u16)
}

/// Reads a port: an optional `+`, then decimal digits whose value fits in
/// 16 bits.
pub fn parse_port(s: &str) -> (r: Option<u16>)
    ensures
        r == port_value(s@),
{
    let n: usize = s.unicode_len();
    assert(s@.subrange(0, n as int) =~= s@);
    parse_port_range(s, 0, n)
}

/// Splits `host:port` on the last `:`. No `:`, or a port that is not a
/// 16-bit number, gives `InvalidInput`.
pub fn split_host_port(s: &str) -> (r: Result<(String, u16), ResolveError>)
    ensures
        split_spec(s@) matches Ok((h, p)) ==> r matches Ok((h2, p2)) && h2@ == h && p2 == p,
        split_spec(s@) matches Err(e) ==> r == Err::<(String, u16), ResolveError>(e),
{
    let n: usize = s.unicode_len();
    let mut i: usize = n;
    assert(s@.subrange(0, n as int) =~= s@);
    while i > 0
        invariant
            i <= n == s@.len(),
            last_colon(s@) == last_colon(s@.subrange(0, i as int)),
        ensures
            i <= n == s@.len(),
            last_colon(s@) == last_colon(s@.subrange(0, i as int)),
            i > 0 ==> s@[i - 1] == ':',
        decreases i,
    {
        let ghost pre = s@.subrange(0, i as int);
        assert(pre.drop_last() =~= s@.subrange(0, i - 1));
        if s.get_char(i - 1) == ':' {
            break;
        }
        i = i - 1;
    }
    if i == 0 {
        assert(s@.subrange(0, 0) =~= Seq::<char>::empty());
        return Err(ResolveError::InvalidInput);
    }
    let colon: usize = i - 1;
    assert(s@.subrange(0, i as int).last() == ':');
    assert(last_colon(s@) == colon);
    match parse_port_range(s, colon + 1, n) {
        None => Err(ResolveError::InvalidInput),
        Some(p) => {
            let host = s.substring_char(0, colon).to_owned();
            Ok((host, p))
        },
    }
}

} // verus!

verus! {

/// The longest host name, in bytes, that the thread engine accepts.
pub const MAX_HOST_LEN: usize = 253;

/// Plans a `host:port` target. `literal` is the target read as a socket
/// address literal, where it is one; such a target needs no lookup whatever
/// the bound on the wait.
pub fn plan_str(target: &str, literal: Option<SockAddr>) -> (r: Result<Plan, ResolveError>)
    ensures
        plan_result_view(r) == plan_str_spec(target@, literal),
{
    match literal {
        Some(a) => Ok(Plan::Literal(a)),
        None => match split_host_port(target) {
            Ok((host, port)) => Ok(Plan::Lookup { host, port }),
            Err(e) => Err(e),
        },
    }
}

/// Plans a target given as a host and a port. `literal` is the host read as
/// an IP address literal, where it is one.
pub fn plan_pair(host: &str, port: u16, literal: Option<IpAddr>) -> (r: Plan)
    ensures
        r@ == plan_pair_spec(host@, port, literal),
{
    match literal {
        Some(IpAddr::V4(a)) => Plan::Literal(SockAddr::V4 { ip4: a, port }),
        Some(IpAddr::V6(a)) => Plan::Literal(SockAddr::V6 { ip6: a, port, flowinfo: 0, scope_id: 0 }),
        None => Plan::Lookup { host: host.to_owned(), port },
    }
}

/// Refuses a host name with a NUL character, which no native resolver can
/// be handed.
pub fn check_no_nul(host: &str) -> (r: Result<(), ResolveError>)
    ensures
        host@.contains('\0') ==> r == Err::<(), ResolveError>(ResolveError::InvalidInput),
        !host@.contains('\0') ==> r == Ok::<(), ResolveError>(()),
{
    let n: usize = host.unicode_len();
    let mut i: usize = 0;
    while i < n
        invariant
            i <= n == host@.len(),
            forall|j: int| 0 <= j < i ==> host@[j] != '\0',
        decreases n - i,
    {
        if host.get_char(i) == '\0' {
            return Err(ResolveError::InvalidInput);
        }
        i = i + 1;
    }
    Ok(())
}

} // verus!
