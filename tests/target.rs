use lookup_timeout::addr::SockAddr;
use lookup_timeout::error::ResolveError;
use lookup_timeout::fallback::{fallback_admit, fallback_outcome, Received};
use lookup_timeout::target::{
    check_no_nul, parse_port, plan_pair, plan_str, split_host_port, IpAddr, Plan,
};

#[test]
fn ports_that_parse() {
    assert_eq!(parse_port("80"), Some(80));
    assert_eq!(parse_port("+80"), Some(80));
    assert_eq!(parse_port("0080"), Some(80));
    assert_eq!(parse_port("0"), Some(0));
    assert_eq!(parse_port("65535"), Some(65535));
}

#[test]
fn ports_that_do_not_parse() {
    assert_eq!(parse_port(""), None);
    assert_eq!(parse_port("+"), None);
    assert_eq!(parse_port("-1"), None);
    assert_eq!(parse_port("65536"), None);
    assert_eq!(parse_port("99999999999"), None);
    assert_eq!(parse_port("8a"), None);
    assert_eq!(parse_port("notanumber"), None);
}

#[test]
fn splits_on_the_last_colon() {
    assert_eq!(split_host_port("example.com:443"), Ok(("example.com".to_string(), 443)));
    assert_eq!(split_host_port("a:b:80"), Ok(("a:b".to_string(), 80)));
    assert_eq!(split_host_port("[::1]:80"), Ok(("[::1]".to_string(), 80)));
    assert_eq!(split_host_port(":5"), Ok((String::new(), 5)));
    assert_eq!(split_host_port("héllo:1"), Ok(("héllo".to_string(), 1)));
}

#[test]
fn target_without_colon_is_invalid() {
    assert_eq!(split_host_port("not-a-valid-host-port-string"), Err(ResolveError::InvalidInput));
    assert!(matches!(plan_str("not-a-valid-host-port-string", None), Err(ResolveError::InvalidInput)));
}

#[test]
fn target_with_bad_port_is_invalid() {
    assert_eq!(split_host_port("host:notanumber"), Err(ResolveError::InvalidInput));
    assert_eq!(split_host_port("host:"), Err(ResolveError::InvalidInput));
    assert_eq!(split_host_port("host:70000"), Err(ResolveError::InvalidInput));
    assert!(matches!(plan_str("host:notanumber", None), Err(ResolveError::InvalidInput)));
}

#[test]
fn literal_target_is_planned_as_itself_every_time() {
    let a = SockAddr::V4 { ip4: 0x7f00_0001, port: 8080 };
    for _ in 0..3 {
        match plan_str("127.0.0.1:8080", Some(a)) {
            Ok(Plan::Literal(b)) => assert_eq!(b, a),
            other => panic!("unexpected plan {:?}", other),
        }
    }
    let b = SockAddr::V6 { ip6: 1, port: 0, flowinfo: 0, scope_id: 0 };
    assert!(matches!(plan_str("[::1]:0", Some(b)), Ok(Plan::Literal(x)) if x == b));
}

#[test]
fn host_target_is_planned_as_lookup() {
    match plan_str("example.com:443", None) {
        Ok(Plan::Lookup { host, port }) => {
            assert_eq!(host, "example.com");
            assert_eq!(port, 443);
        }
        other => panic!("unexpected plan {:?}", other),
    }
}

#[test]
fn literal_host_takes_the_given_port() {
    match plan_pair("::1", 53, Some(IpAddr::V6(1))) {
        Plan::Literal(a) => assert_eq!(a, SockAddr::V6 { ip6: 1, port: 53, flowinfo: 0, scope_id: 0 }),
        other => panic!("unexpected plan {:?}", other),
    }
    match plan_pair("10.0.0.1", 80, Some(IpAddr::V4(0x0a00_0001))) {
        Plan::Literal(a) => assert_eq!(a, SockAddr::V4 { ip4: 0x0a00_0001, port: 80 }),
        other => panic!("unexpected plan {:?}", other),
    }
    match plan_pair("example.org", 25, None) {
        Plan::Lookup { host, port } => {
            assert_eq!(host, "example.org");
            assert_eq!(port, 25);
        }
        other => panic!("unexpected plan {:?}", other),
    }
}

#[test]
fn nul_in_host_is_invalid() {
    assert_eq!(check_no_nul("exa\0mple.com"), Err(ResolveError::InvalidInput));
    assert_eq!(check_no_nul("example.com"), Ok(()));
    assert_eq!(check_no_nul(""), Ok(()));
}

#[test]
fn host_longer_than_buffer_is_refused() {
    let ok = "a".repeat(253);
    let long = "a".repeat(254);
    assert_eq!(fallback_admit(&ok), Ok(()));
    assert_eq!(fallback_admit(&long), Err(ResolveError::InvalidInput));
    assert_eq!(fallback_admit(&"é".repeat(127)), Err(ResolveError::InvalidInput));
}

#[test]
fn thread_engine_outcomes() {
    let v = vec![SockAddr::V4 { ip4: 1, port: 2 }];
    let ok: Result<Vec<SockAddr>, ResolveError> = Ok(v.clone());
    assert_eq!(fallback_outcome(Received::Value(ok)), Ok(Ok(v)));
    let failed: Result<Vec<SockAddr>, ResolveError> = Err(ResolveError::Os(11));
    assert_eq!(fallback_outcome(Received::Value(failed)), Ok(Err(ResolveError::Os(11))));
    assert_eq!(fallback_outcome::<u8>(Received::Timeout), Err(ResolveError::TimedOut));
    assert_eq!(fallback_outcome::<u8>(Received::Disconnected), Err(ResolveError::Unreachable));
}
