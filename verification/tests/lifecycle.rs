use tcp_lifecycle::connection::Connection;
use tcp_lifecycle::decimal::u16_to_decimal;

#[test]
fn close_on_fresh_handle_succeeds() {
    let mut c = Connection::new(String::from("127.0.0.1"), String::from("8080"));
    assert!(c.close(false));
    assert!(!c.is_used_up());
    assert!(!c.is_connected());
    assert_eq!(c.address().as_str(), "127.0.0.1");
    assert_eq!(c.port().as_str(), "8080");
}

#[test]
fn ephemeral_port_resolves() {
    let mut c = Connection::new(String::from("127.0.0.1"), String::from("0"));
    assert!(c.connect_guard().is_ok());
    c.record_bound_port(54321);
    assert_eq!(c.port().as_str(), "54321");
    assert_ne!(c.port().as_str(), "0");
    assert_eq!(c.address().as_str(), "127.0.0.1");
}

#[test]
fn fixed_port_not_overwritten() {
    let mut c = Connection::new(String::from("localhost"), String::from("8080"));
    assert!(c.connect_guard().is_ok());
    c.record_bound_port(9999);
    assert_eq!(c.port().as_str(), "8080");
}

#[test]
fn connect_after_close_refused() {
    let mut c = Connection::new(String::from("127.0.0.1"), String::from("0"));
    assert!(c.connect_guard().is_ok());
    c.record_bound_port(41000);
    c.record_accepted();
    assert!(c.is_connected());
    assert!(c.close(true));
    assert!(c.is_used_up());
    match c.connect_guard() {
        Ok(()) => panic!("a used-up handle must refuse a further connect"),
        Err(e) => assert_eq!(e.message().as_str(), "Cannot reuse a `Connection`."),
    }
}

#[test]
fn close_twice_succeeds_without_a_stream() {
    let mut c = Connection::new(String::from("::1"), String::from("7000"));
    assert!(c.close(false));
    assert!(c.close(false));
    assert!(!c.is_used_up());
}

#[test]
fn close_twice_succeeds_after_accept() {
    let mut c = Connection::new(String::from("127.0.0.1"), String::from("7000"));
    assert!(c.connect_guard().is_ok());
    c.record_accepted();
    assert!(c.close(true));
    assert!(c.close(false));
    assert!(c.is_used_up());
}

#[test]
fn failed_shutdown_is_reported_and_changes_nothing() {
    let mut c = Connection::new(String::from("127.0.0.1"), String::from("6000"));
    assert!(c.connect_guard().is_ok());
    c.record_accepted();
    assert!(!c.close(false));
    assert!(!c.is_used_up());
    assert!(c.is_connected());
    assert!(c.connect_guard().is_ok());
    assert!(c.close(true));
    assert!(c.is_used_up());
}

#[test]
fn full_lifecycle() {
    let mut c = Connection::new(String::from("127.0.0.1"), String::from("0"));
    assert!(c.connect_guard().is_ok());
    c.record_bound_port(49152);
    c.record_accepted();
    assert!(c.is_connected());
    assert_eq!(c.port().as_str(), "49152");
    assert!(c.close(true));
    assert!(!c.is_connected());
    assert!(c.connect_guard().is_err());
}

#[test]
fn decimal_rendering_exact_values() {
    assert_eq!(u16_to_decimal(0).as_str(), "0");
    assert_eq!(u16_to_decimal(7).as_str(), "7");
    assert_eq!(u16_to_decimal(10).as_str(), "10");
    assert_eq!(u16_to_decimal(1024).as_str(), "1024");
    assert_eq!(u16_to_decimal(65535).as_str(), "65535");
}
