use smelt_remote::listener::{
    callback_address, BoundAddress, ListenerState, ProxyState, StartAction, StartError,
};

fn address(host: &str, port: u16) -> BoundAddress {
    BoundAddress { host: host.to_string(), port }
}

#[test]
fn first_request_binds_and_later_ones_reuse() {
    let mut listener = ListenerState::new();
    assert_eq!(listener.bound_address(), None);
    assert_eq!(listener.ensure_started(0), StartAction::Bind { port: 0 });
    assert_eq!(listener.ensure_started(4000), StartAction::Bind { port: 4000 });

    assert_eq!(listener.complete_start(Some(address("0.0.0.0", 41234))), Ok(address("0.0.0.0", 41234)));

    // The requested port is ignored from now on.
    assert_eq!(listener.ensure_started(0), StartAction::UseExisting(address("0.0.0.0", 41234)));
    assert_eq!(listener.ensure_started(5000), StartAction::UseExisting(address("0.0.0.0", 41234)));
    assert_eq!(listener.bound_address(), Some(address("0.0.0.0", 41234)));
}

#[test]
fn many_requests_make_one_bind() {
    let mut listener = ListenerState::new();
    let mut binds = 0;
    let mut seen = Vec::new();
    for i in 0..5u16 {
        let answer = match listener.ensure_started(0) {
            StartAction::UseExisting(existing) => existing,
            StartAction::Bind { port: _ } => {
                binds += 1;
                listener.complete_start(Some(address("0.0.0.0", 40000 + i))).unwrap()
            }
        };
        seen.push(answer);
    }
    assert_eq!(binds, 1);
    for answer in &seen {
        assert_eq!(*answer, address("0.0.0.0", 40000));
    }
}

#[test]
fn the_address_is_assigned_once() {
    let mut listener = ListenerState::new();
    assert_eq!(listener.complete_start(Some(address("0.0.0.0", 1))), Ok(address("0.0.0.0", 1)));
    assert_eq!(listener.complete_start(Some(address("0.0.0.0", 2))), Ok(address("0.0.0.0", 1)));
    assert_eq!(listener.complete_start(None), Ok(address("0.0.0.0", 1)));
    assert_eq!(listener.bound_address(), Some(address("0.0.0.0", 1)));
}

#[test]
fn a_failed_bind_is_reported() {
    let mut listener = ListenerState::new();
    assert_eq!(listener.complete_start(None), Err(StartError::BindFailed));
    assert_eq!(listener.bound_address(), None);
    assert_eq!(listener.ensure_started(7), StartAction::Bind { port: 7 });
}

#[test]
fn proxy_state_starts_empty() {
    let state = ProxyState::new();
    assert_eq!(state.listener.bound_address(), None);
    assert!(!state.traces.is_registered("t1"));
}

#[test]
fn callback_address_prefers_the_configured_host() {
    let bound = address("0.0.0.0", 8080);
    assert_eq!(callback_address(&Some("login-node".to_string()), &bound), "login-node:8080");
    assert_eq!(callback_address(&None, &bound), "0.0.0.0:8080");
    assert_eq!(callback_address(&Some(String::new()), &bound), "0.0.0.0:8080");
}

#[test]
fn ports_are_written_in_decimal() {
    assert_eq!(callback_address(&None, &address("h", 0)), "h:0");
    assert_eq!(callback_address(&None, &address("h", 9)), "h:9");
    assert_eq!(callback_address(&None, &address("h", 10)), "h:10");
    assert_eq!(callback_address(&None, &address("h", 65535)), "h:65535");
    assert_eq!(callback_address(&None, &address("h", 40100)), "h:40100");
}
