use quickserve::ports::{get_available_port, port_candidates, select_port};
use quickserve::startup::StartupError;
use std::cell::RefCell;

#[test]
fn candidates_start_with_the_requested_port() {
    assert_eq!(port_candidates(Some(9000), &vec![8000, 8080]), vec![9000, 8000, 8080]);
}

#[test]
fn candidates_without_request_are_the_fallback_ports() {
    assert_eq!(port_candidates(None, &vec![8000, 8080]), vec![8000, 8080]);
}

#[test]
fn candidates_hold_no_port_twice() {
    assert_eq!(port_candidates(Some(8080), &vec![8000, 8080, 8000, 80]), vec![8080, 8000, 80]);
    assert_eq!(port_candidates(None, &vec![1, 1, 2, 1, 2, 3]), vec![1, 2, 3]);
}

#[test]
fn candidates_can_be_empty() {
    assert_eq!(port_candidates(None, &vec![]), Vec::<u16>::new());
    assert_eq!(port_candidates(Some(80), &vec![]), vec![80]);
}

#[test]
fn first_available_port_is_returned() {
    let port = get_available_port("127.0.0.1", vec![8000, 8080, 9000], |_, port| port != 8000);
    assert_eq!(port, Some(8080));
}

#[test]
fn earlier_free_port_wins_over_later_free_port() {
    let port = get_available_port("127.0.0.1", vec![8000, 8080, 9000], |_, _| true);
    assert_eq!(port, Some(8000));
}

#[test]
fn no_port_available_gives_none() {
    assert_eq!(get_available_port("127.0.0.1", vec![8000, 8080], |_, _| false), None);
}

#[test]
fn empty_port_list_gives_none() {
    assert_eq!(get_available_port("127.0.0.1", vec![], |_, _| true), None);
}

#[test]
fn ports_behind_the_first_available_are_not_probed() {
    let probed = RefCell::new(Vec::new());
    let port = get_available_port("10.0.0.1", vec![1, 2, 3, 4], |addr, port| {
        probed.borrow_mut().push((addr.to_string(), port));
        port == 2
    });
    assert_eq!(port, Some(2));
    assert_eq!(*probed.borrow(), vec![("10.0.0.1".to_string(), 1), ("10.0.0.1".to_string(), 2)]);
}

#[test]
fn select_port_fails_without_candidates() {
    let asked = RefCell::new(0);
    let selected = select_port("0.0.0.0", None, &vec![], |_, _| {
        *asked.borrow_mut() += 1;
        true
    });
    assert_eq!(selected, Err(StartupError::NoFallbackPorts));
    assert_eq!(*asked.borrow(), 0);
}

#[test]
fn select_port_fails_when_nothing_binds() {
    let selected = select_port("0.0.0.0", Some(80), &vec![8000, 8080], |_, _| false);
    assert_eq!(selected, Err(StartupError::NoPortAvailable));
}

#[test]
fn select_port_prefers_the_requested_port() {
    assert_eq!(select_port("0.0.0.0", Some(9000), &vec![8000, 8080], |_, _| true), Ok(9000));
}

#[test]
fn select_port_falls_back_in_configured_order() {
    let selected = select_port("192.168.1.10", None, &vec![8000, 8080], |_, port| port != 8000);
    assert_eq!(selected, Ok(8080));
}

#[test]
fn select_port_with_only_a_requested_port() {
    assert_eq!(select_port("0.0.0.0", Some(443), &vec![], |_, _| true), Ok(443));
}
