use shadowrocket::port::{
    controller_port, get_clash_external_port, resolve_port, with_port, ClashStrategy, ExternalControllerPortStrategy, PortError,
};

#[test]
fn fixed_fails_on_an_occupied_port() {
    let strategy = ExternalControllerPortStrategy::Fixed;
    assert_eq!(resolve_port(&strategy, 9090, false, Some(40000)), Err(PortError::Unavailable(9090)));
    assert_eq!(resolve_port(&strategy, 9090, false, None), Err(PortError::Unavailable(9090)));
    assert_eq!(resolve_port(&strategy, 9090, true, None), Ok(9090));
}

#[test]
fn random_takes_the_port_of_the_system() {
    let strategy = ExternalControllerPortStrategy::Random;
    assert_eq!(resolve_port(&strategy, 9090, true, Some(40000)), Ok(40000));
    assert_eq!(resolve_port(&strategy, 9090, false, Some(40001)), Ok(40001));
    assert_eq!(resolve_port(&strategy, 9090, true, None), Err(PortError::NoOpenPort));
}

#[test]
fn allow_fallback_keeps_a_free_port_and_leaves_an_occupied_one() {
    let strategy = ExternalControllerPortStrategy::AllowFallback;
    assert_eq!(resolve_port(&strategy, 9090, true, Some(40000)), Ok(9090));
    assert_eq!(resolve_port(&strategy, 9090, true, None), Ok(9090));
    assert_eq!(resolve_port(&strategy, 9090, false, Some(40000)), Ok(40000));
    assert_eq!(resolve_port(&strategy, 9090, false, None), Err(PortError::NoOpenPort));
}

#[test]
fn messages_of_the_port_errors() {
    assert_eq!(PortError::Unavailable(9090).message(), "Port 9090 is not available");
    assert_eq!(PortError::Unavailable(0).message(), "Port 0 is not available");
    assert_eq!(PortError::NoOpenPort.message(), "Can't find an open port");
}

#[test]
fn default_strategy_allows_the_fallback() {
    assert_eq!(ExternalControllerPortStrategy::default(), ExternalControllerPortStrategy::AllowFallback);
    assert_eq!(
        ClashStrategy::default().external_controller_port_strategy,
        ExternalControllerPortStrategy::AllowFallback
    );
}

#[test]
fn ports_on_this_machine() {
    match get_clash_external_port(&ExternalControllerPortStrategy::Fixed, 39471) {
        Ok(port) => assert_eq!(port, 39471),
        Err(error) => assert_eq!(error, PortError::Unavailable(39471)),
    }
    match get_clash_external_port(&ExternalControllerPortStrategy::Random, 39471) {
        Ok(port) => assert_ne!(port, 0),
        Err(error) => assert_eq!(error, PortError::NoOpenPort),
    }
    match get_clash_external_port(&ExternalControllerPortStrategy::AllowFallback, 39471) {
        Ok(port) => assert_ne!(port, 0),
        Err(error) => assert_eq!(error, PortError::NoOpenPort),
    }
}

#[test]
fn port_of_a_controller_address() {
    assert_eq!(controller_port("127.0.0.1:9090"), Some(9090));
    assert_eq!(controller_port(":9090"), Some(9090));
    assert_eq!(controller_port("[::1]:65535"), Some(65535));
    assert_eq!(controller_port("127.0.0.1:65536"), None);
    assert_eq!(controller_port("127.0.0.1:"), None);
    assert_eq!(controller_port("127.0.0.1"), None);
    assert_eq!(controller_port("host:port"), None);
    assert_eq!(controller_port(""), None);
}

#[test]
fn controller_address_with_another_port() {
    assert_eq!(with_port("127.0.0.1:9090", 40000), "127.0.0.1:40000");
    assert_eq!(with_port("[::1]:9090", 1), "[::1]:1");
    assert_eq!(with_port("localhost", 9090), "localhost:9090");
    assert_eq!(with_port("", 0), ":0");
    assert_eq!(controller_port(&with_port("0.0.0.0:1", 7)), Some(7));
}
