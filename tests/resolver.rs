use osc_tester::{choose_address, Candidate};

fn v4(ip: &str) -> Candidate {
    Candidate { ip: ip.to_string(), is_ipv6: false }
}

fn v6(ip: &str) -> Candidate {
    Candidate { ip: ip.to_string(), is_ipv6: true }
}

#[test]
fn failed_lookup_keeps_host() {
    assert_eq!(choose_address("no.such.host.invalid", &None, false), "no.such.host.invalid");
    assert_eq!(choose_address("::1", &None, true), "::1");
}

#[test]
fn empty_lookup_keeps_host() {
    assert_eq!(choose_address("nothing", &Some(Vec::new()), false), "nothing");
}

#[test]
fn literal_address_kept() {
    assert_eq!(choose_address("127.0.0.1", &Some(vec![v4("127.0.0.1")]), false), "127.0.0.1");
    assert_eq!(choose_address("127.0.0.1", &Some(vec![v4("127.0.0.1")]), true), "127.0.0.1");
}

#[test]
fn preferred_family_first() {
    let lookup = Some(vec![v4("10.0.0.1"), v6("fe80::1")]);
    assert_eq!(choose_address("host", &lookup, false), "10.0.0.1");
    assert_eq!(choose_address("host", &lookup, true), "fe80::1");
    let lookup = Some(vec![v6("fe80::1"), v4("10.0.0.1")]);
    assert_eq!(choose_address("host", &lookup, false), "10.0.0.1");
    assert_eq!(choose_address("host", &lookup, true), "fe80::1");
}

#[test]
fn only_second_candidate_is_tried() {
    let lookup = Some(vec![v6("fe80::1"), v6("fe80::2"), v4("10.0.0.1")]);
    assert_eq!(choose_address("host", &lookup, false), "fe80::2");
}

#[test]
fn mismatched_single_candidate_is_kept() {
    let lookup = Some(vec![v4("192.168.0.9")]);
    assert_eq!(choose_address("host", &lookup, true), "192.168.0.9");
}
